//! The map frame's AI host state that the fixed-step AI update reads and writes
//! through plain values: the player's magnetic target, the gameplay random
//! streams, deferred destruction, creator latches, the preview live set and the
//! permanent sound registry.

use fxhash::{FxHashMap, FxHashSet};
use vstd::prelude::*;

use crate::collections::{fx_map_get, fx_map_insert, fx_set_contains, fx_set_insert, fx_set_remove};
use crate::instance::{
    instance_keys_removed, lemma_instance_keys_removed_compose, lemma_instance_keys_removed_none, no_instance_entries,
    class_instance_added, class_instance_retired, class_table_keys, NativeAiClassRuntimeTable,
    NativeAiInstanceRuntimeKeys, RuntimeScriptTriggerLifecycleState,
};
use crate::creator::{NativeSerializedAiCreatorRuntime, NativeVec3Bits};
use crate::deferred_destroy::NativeSerializedAiDeferredDestroyRuntime;
use crate::rng::{
    next_ai_gameplay_rng_u32, rng_state_after_draw, rng_state_draw, uses_native_stream,
    RuntimeRobotsGlobalRngState, ROBOTS_PROCESS_LCG_STARTUP_SEED,
};
use crate::sound::NativeAiPermanentSoundRegistration;

verus! {

pub struct MapFrame {
    /// Player-owned magnetic XItem key (native Player +0x544, written by XWeapon_Magnet).
    pub native_player_magnetic_target_key: Option<u64>,
    /// Whether Maps runs the validated native TriggerManager lifecycle.
    pub native_script_trigger_lifecycle_valid: bool,
    /// The native session's process-global gameplay stream.
    pub native_global_gameplay_rng: RuntimeRobotsGlobalRngState,
    /// The deterministic fresh-process stream that previews draw from.
    pub native_ai_preview_gameplay_rng: RuntimeRobotsGlobalRngState,
    /// The native session's process LCG seed, unknown until observed.
    pub native_process_lcg_seed: Option<u32>,
    /// The preview's process LCG seed.
    pub native_ai_preview_process_lcg_seed: Option<u32>,
    pub native_ai_deferred_destroy: NativeSerializedAiDeferredDestroyRuntime,
    /// Creator latch of each serialized AI trigger, by live-AI key.
    pub native_ai_creator_runtime: FxHashMap<u64, NativeSerializedAiCreatorRuntime>,
    /// Keys the preview treats as live XItems.
    pub native_ai_preview_live: FxHashSet<u64>,
    /// Looping sounds by sound UID.
    pub native_ai_permanent_sounds: FxHashMap<u32, NativeAiPermanentSoundRegistration>,
    /// Hash of the map whose triggers seeded the preview's live set.
    pub native_ai_preview_map: Option<u32>,
    /// Keys of the entries in each per-instance AI runtime table.
    pub native_ai_instance_keys: NativeAiInstanceRuntimeKeys,
    /// XItem lifecycle of each serialized AI trigger, by live-AI key.
    pub native_ai_trigger_lifecycle: FxHashMap<u64, RuntimeScriptTriggerLifecycleState>,
}

/// What a class host does about an instance's runtime this step.
#[derive(Clone, Copy, Debug, PartialEq, Eq, Structural)]
pub enum NativeAiInstanceSetup {
    /// The runtime already exists; no draw was taken.
    Existing,
    /// The runtime is created from its defaults.
    Created,
    /// The runtime is created from this setup draw.
    CreatedFromDraw { setup_draw: u32 },
    /// A draw the setup needs failed; no runtime is created and the instance
    /// waits for a later step.
    Deferred,
}

/// The standard Monster host's runtime setup this step.
#[derive(Clone, Copy, Debug, PartialEq, Eq, Structural)]
pub struct NativeStandardMonsterSetup {
    /// Whether the runtime was created this step.
    pub runtime_is_new: bool,
    /// The draw that seeds the periodic idle, when one was needed and obtained.
    pub periodic_initial_draw: Option<u32>,
}

/// The class hosts that create a missing runtime from its defaults.
#[derive(Clone, Copy, Debug, PartialEq, Eq, Structural)]
pub enum NativeAiDrawlessClassTable {
    Eq04Mine,
    MineBot,
    DogBot,
}

/// The class table of a drawless host.
pub open spec fn drawless_class_table(table: NativeAiDrawlessClassTable) -> NativeAiClassRuntimeTable {
    match table {
        NativeAiDrawlessClassTable::Eq04Mine => NativeAiClassRuntimeTable::Eq04Mine,
        NativeAiDrawlessClassTable::MineBot => NativeAiClassRuntimeTable::MineBot,
        NativeAiDrawlessClassTable::DogBot => NativeAiClassRuntimeTable::DogBot,
    }
}

/// The gameplay streams of `after` are those of `expected`.
pub open spec fn streams_as(after: MapFrame, expected: MapFrame) -> bool {
    &&& after.native_global_gameplay_rng == expected.native_global_gameplay_rng
    &&& after.native_ai_preview_gameplay_rng == expected.native_ai_preview_gameplay_rng
}

/// The RollerBot setup outcome for a roller without a runtime, and the frame
/// whose streams it leaves: a dynamic roller reuses its factory draw; a
/// serialized one draws the setup value and then the mandatory configuration
/// value, and stops at the first failed draw.
pub open spec fn rollerbot_setup_plan(frame: MapFrame, dynamic_setup_random_mod3: Option<u8>) -> (
    NativeAiInstanceSetup,
    MapFrame,
) {
    match dynamic_setup_random_mod3 {
        Some(mod3) => (NativeAiInstanceSetup::CreatedFromDraw { setup_draw: mod3 as u32 }, frame),
        None => {
            let after_setup = frame.after_gameplay_draw();
            match frame.gameplay_draw() {
                None => (NativeAiInstanceSetup::Deferred, after_setup),
                Some(setup_draw) => match after_setup.gameplay_draw() {
                    None => (NativeAiInstanceSetup::Deferred, after_setup.after_gameplay_draw()),
                    Some(_) => (
                        NativeAiInstanceSetup::CreatedFromDraw { setup_draw },
                        after_setup.after_gameplay_draw(),
                    ),
                },
            }
        },
    }
}

/// Whether a standard Monster's periodic idle needs its seeding draw this step.
pub open spec fn standard_periodic_idle_needs_init(
    periodic_idle_enabled: bool,
    runtime_is_new: bool,
    periodic_idle_initialized: bool,
) -> bool {
    periodic_idle_enabled && (runtime_is_new || !periodic_idle_initialized)
}

/// Everything but the gameplay streams and the per-instance tables is the same
/// in `before` and `after`.
pub open spec fn bookkeeping_unchanged(before: MapFrame, after: MapFrame) -> bool {
    &&& after.native_player_magnetic_target_key == before.native_player_magnetic_target_key
    &&& after.native_script_trigger_lifecycle_valid == before.native_script_trigger_lifecycle_valid
    &&& after.native_process_lcg_seed == before.native_process_lcg_seed
    &&& after.native_ai_preview_process_lcg_seed == before.native_ai_preview_process_lcg_seed
    &&& after.native_ai_deferred_destroy == before.native_ai_deferred_destroy
    &&& after.native_ai_creator_runtime == before.native_ai_creator_runtime
    &&& after.native_ai_preview_live == before.native_ai_preview_live
    &&& after.native_ai_permanent_sounds == before.native_ai_permanent_sounds
    &&& after.native_ai_preview_map == before.native_ai_preview_map
    &&& after.native_ai_trigger_lifecycle == before.native_ai_trigger_lifecycle
}

/// The trigger lifecycles after flushing `flushed`: a flushed serialized owner's
/// XItem no longer exists; every other lifecycle is as it was.
pub open spec fn lifecycles_after_flush(
    lifecycles: Map<u64, RuntimeScriptTriggerLifecycleState>,
    flushed: Set<u64>,
    dynamic_keys: Set<u64>,
) -> Map<u64, RuntimeScriptTriggerLifecycleState> {
    Map::new(
        |key: u64| lifecycles.contains_key(key),
        |key: u64|
            if flushed.contains(key) && !dynamic_keys.contains(key) {
                RuntimeScriptTriggerLifecycleState { xitem_exists: false }
            } else {
                lifecycles[key]
            },
    )
}

impl MapFrame {
    /// The value the next gameplay draw yields.
    pub open spec fn gameplay_draw(self) -> Option<u32> {
        if uses_native_stream(
            self.native_script_trigger_lifecycle_valid,
            self.native_global_gameplay_rng.seed,
        ) {
            rng_state_draw(self.native_global_gameplay_rng)
        } else {
            rng_state_draw(self.native_ai_preview_gameplay_rng)
        }
    }

    /// The frame after one gameplay draw: exactly one of the two streams moves.
    pub open spec fn after_gameplay_draw(self) -> Self {
        if uses_native_stream(
            self.native_script_trigger_lifecycle_valid,
            self.native_global_gameplay_rng.seed,
        ) {
            MapFrame {
                native_global_gameplay_rng: rng_state_after_draw(self.native_global_gameplay_rng),
                ..self
            }
        } else {
            MapFrame {
                native_ai_preview_gameplay_rng: rng_state_after_draw(
                    self.native_ai_preview_gameplay_rng,
                ),
                ..self
            }
        }
    }

    /// The frame with the player's magnetic target bound to `target_key`.
    pub open spec fn with_magnetic_target(self, target_key: u64) -> Self {
        MapFrame { native_player_magnetic_target_key: Some(target_key), ..self }
    }

    /// The frame after unbinding `target_key`: the binding goes only if it is
    /// `target_key`.
    pub open spec fn without_magnetic_target(self, target_key: u64) -> Self {
        if self.native_player_magnetic_target_key == Some(target_key) {
            MapFrame { native_player_magnetic_target_key: None, ..self }
        } else {
            self
        }
    }

    /// Binds the player's currently controlled magnetic XItem. Any weapon host
    /// binds it here; AI only reads it.
    pub fn bind_native_player_magnetic_target(&mut self, target_key: u64)
        ensures
            *final(self) == old(self).with_magnetic_target(target_key),
    {
        self.native_player_magnetic_target_key = Some(target_key);
    }

    /// Unbinds the player's magnetic target, but only if it is `target_key`.
    pub fn clear_native_player_magnetic_target(&mut self, target_key: u64)
        ensures
            *final(self) == old(self).without_magnetic_target(target_key),
    {
        if self.native_player_magnetic_target_key == Some(target_key) {
            self.native_player_magnetic_target_key = None;
        }
    }

    /// One gameplay draw for an AI node: from the native session stream only
    /// while the native lifecycle is valid and that stream is anchored, otherwise
    /// from the deterministic preview stream without touching the native one.
    pub fn next_native_ai_gameplay_rng_u32(&mut self) -> (value: Option<u32>)
        ensures
            *final(self) == old(self).after_gameplay_draw(),
            value == old(self).gameplay_draw(),
    {
        next_ai_gameplay_rng_u32(
            self.native_script_trigger_lifecycle_valid,
            &mut self.native_global_gameplay_rng,
            &mut self.native_ai_preview_gameplay_rng,
        )
    }

    /// The creator latch remembered for `key`, a fresh one when none is.
    pub open spec fn creator_of(self, key: u64) -> NativeSerializedAiCreatorRuntime {
        if self.native_ai_creator_runtime@.contains_key(key) {
            self.native_ai_creator_runtime@[key]
        } else {
            NativeSerializedAiCreatorRuntime { death_latched: false, position_override: None }
        }
    }

    /// Requests the natural death of the live AI `key` at `position`. A serialized
    /// (trigger-created) owner latches its creator against respawning and hands
    /// the death position back to the trigger; a dynamic (sweeper-spawned) owner
    /// has no creator. Either way destruction is deferred to the end of the step.
    pub fn request_native_ai_natural_death(
        &mut self,
        owner_is_dynamic: bool,
        key: u64,
        position: NativeVec3Bits,
    )
        ensures
            final(self).native_ai_deferred_destroy.pending_keys() == old(
                self,
            ).native_ai_deferred_destroy.pending_keys().insert(key),
            !owner_is_dynamic ==> final(self).native_ai_creator_runtime@ == old(
                self,
            ).native_ai_creator_runtime@.insert(
                key,
                old(self).creator_of(key).after_natural_death(position),
            ),
            owner_is_dynamic ==> final(self).native_ai_creator_runtime@ == old(
                self,
            ).native_ai_creator_runtime@,
            final(self).native_player_magnetic_target_key == old(self).native_player_magnetic_target_key,
            final(self).native_script_trigger_lifecycle_valid == old(self).native_script_trigger_lifecycle_valid,
            final(self).native_global_gameplay_rng == old(self).native_global_gameplay_rng,
            final(self).native_ai_preview_gameplay_rng == old(self).native_ai_preview_gameplay_rng,
            final(self).native_process_lcg_seed == old(self).native_process_lcg_seed,
            final(self).native_ai_preview_process_lcg_seed == old(self).native_ai_preview_process_lcg_seed,
            final(self).native_ai_preview_live@ == old(self).native_ai_preview_live@,
            final(self).native_ai_permanent_sounds@ == old(self).native_ai_permanent_sounds@,
            final(self).native_ai_preview_map == old(self).native_ai_preview_map,
            final(self).native_ai_instance_keys == old(self).native_ai_instance_keys,
            final(self).native_ai_trigger_lifecycle == old(self).native_ai_trigger_lifecycle,
    {
        if !owner_is_dynamic {
            let mut creator = match fx_map_get(&self.native_ai_creator_runtime, key) {
                Some(creator) => creator,
                None => NativeSerializedAiCreatorRuntime::default(),
            };
            creator.record_natural_death(position);
            fx_map_insert(&mut self.native_ai_creator_runtime, key, creator);
        }
        self.native_ai_deferred_destroy.mark(key);
    }

    /// End-of-fixed-step flush of deferred destruction. Every pending key is
    /// handed out exactly once and forgotten. Each one leaves the preview's live
    /// set and every per-instance runtime table; a serialized owner (one not in
    /// `map_dynamic_keys`, the map's sweeper-spawned instances) also has its
    /// trigger lifecycle wound down by the failed-zone cleanup. The returned keys
    /// let the host mark dynamic instances in the sweeper registry and clear
    /// the bodies' collision animation tracks.
    pub fn flush_native_ai_deferred_destroy_fixed(&mut self, map_dynamic_keys: &FxHashSet<u64>) -> (flushed: Vec<u64>)
        ensures
            flushed@.to_set() == old(self).native_ai_deferred_destroy.pending_keys(),
            flushed@.no_duplicates(),
            final(self).native_ai_deferred_destroy.pending_keys() == Set::<u64>::empty(),
            final(self).native_ai_preview_live@ == old(self).native_ai_preview_live@.difference(
                old(self).native_ai_deferred_destroy.pending_keys(),
            ),
            instance_keys_removed(
                old(self).native_ai_instance_keys,
                final(self).native_ai_instance_keys,
                old(self).native_ai_deferred_destroy.pending_keys(),
            ),
            final(self).native_ai_trigger_lifecycle@ == lifecycles_after_flush(
                old(self).native_ai_trigger_lifecycle@,
                old(self).native_ai_deferred_destroy.pending_keys(),
                map_dynamic_keys@,
            ),
            final(self).native_ai_creator_runtime@ == old(self).native_ai_creator_runtime@,
            final(self).native_player_magnetic_target_key == old(self).native_player_magnetic_target_key,
            final(self).native_script_trigger_lifecycle_valid == old(self).native_script_trigger_lifecycle_valid,
            final(self).native_global_gameplay_rng == old(self).native_global_gameplay_rng,
            final(self).native_ai_preview_gameplay_rng == old(self).native_ai_preview_gameplay_rng,
            final(self).native_process_lcg_seed == old(self).native_process_lcg_seed,
            final(self).native_ai_preview_process_lcg_seed == old(self).native_ai_preview_process_lcg_seed,
            final(self).native_ai_permanent_sounds@ == old(self).native_ai_permanent_sounds@,
            final(self).native_ai_preview_map == old(self).native_ai_preview_map,
    {
        let flushed = self.native_ai_deferred_destroy.take_all();
        let ghost preview_before = self.native_ai_preview_live@;
        let ghost lifecycle_before = self.native_ai_trigger_lifecycle@;
        let ghost after_take = *self;
        proof {
            lemma_instance_keys_removed_none(self.native_ai_instance_keys);
            assert(lifecycles_after_flush(lifecycle_before, Set::empty(), map_dynamic_keys@)
                =~= lifecycle_before);
            assert(flushed@.take(0).to_set() =~= Set::<u64>::empty());
        }
        let mut index: usize = 0;
        while index < flushed.len()
            invariant
                index <= flushed@.len(),
                self.native_ai_deferred_destroy == after_take.native_ai_deferred_destroy,
                self.native_ai_creator_runtime == after_take.native_ai_creator_runtime,
                self.native_player_magnetic_target_key == after_take.native_player_magnetic_target_key,
                self.native_script_trigger_lifecycle_valid == after_take.native_script_trigger_lifecycle_valid,
                self.native_global_gameplay_rng == after_take.native_global_gameplay_rng,
                self.native_ai_preview_gameplay_rng == after_take.native_ai_preview_gameplay_rng,
                self.native_process_lcg_seed == after_take.native_process_lcg_seed,
                self.native_ai_preview_process_lcg_seed == after_take.native_ai_preview_process_lcg_seed,
                self.native_ai_permanent_sounds == after_take.native_ai_permanent_sounds,
                self.native_ai_preview_map == after_take.native_ai_preview_map,
                self.native_ai_preview_live@ == preview_before.difference(
                    flushed@.take(index as int).to_set(),
                ),
                instance_keys_removed(
                    after_take.native_ai_instance_keys,
                    self.native_ai_instance_keys,
                    flushed@.take(index as int).to_set(),
                ),
                self.native_ai_trigger_lifecycle@ == lifecycles_after_flush(
                    lifecycle_before,
                    flushed@.take(index as int).to_set(),
                    map_dynamic_keys@,
                ),
            decreases flushed@.len() - index,
        {
            let key = flushed[index];
            let ghost done = flushed@.take(index as int).to_set();
            let ghost keys_before = self.native_ai_instance_keys;
            let ghost lifecycle_now = self.native_ai_trigger_lifecycle@;
            if !fx_set_contains(map_dynamic_keys, key) {
                match fx_map_get(&self.native_ai_trigger_lifecycle, key) {
                    Some(lifecycle) => {
                        let mut lifecycle = lifecycle;
                        lifecycle.cleanup_zone_failed();
                        fx_map_insert(&mut self.native_ai_trigger_lifecycle, key, lifecycle);
                    },
                    None => {},
                }
            }
            let _ = fx_set_remove(&mut self.native_ai_preview_live, key);
            self.native_ai_instance_keys.remove_instance(key);
            proof {
                assert(flushed@.take(index + 1) =~= flushed@.take(index as int).push(key));
                flushed@.take(index as int).lemma_push_to_set_commute(key);
                assert(self.native_ai_preview_live@ =~= preview_before.difference(
                    flushed@.take(index + 1).to_set(),
                ));
                lemma_instance_keys_removed_compose(
                    after_take.native_ai_instance_keys,
                    keys_before,
                    self.native_ai_instance_keys,
                    done,
                    key,
                );
                assert(self.native_ai_trigger_lifecycle@ =~= lifecycles_after_flush(
                    lifecycle_before,
                    done.insert(key),
                    map_dynamic_keys@,
                ));
            }
            index += 1;
        }
        proof {
            assert(flushed@.take(flushed@.len() as int) =~= flushed@);
        }
        flushed
    }

    /// Start-of-frame preview bookkeeping. Under the validated native lifecycle
    /// the preview keeps no live set. Otherwise, on the first frame of a map
    /// (`map_hash` differs from the map that seeded the set), the live set is
    /// rebuilt from `live_candidate_keys`, the keys of that map's character
    /// triggers whose bodies exist; later frames of the same map keep it.
    pub fn sync_native_ai_preview_live(&mut self, map_hash: u32, live_candidate_keys: &Vec<u64>)
        ensures
            old(self).native_script_trigger_lifecycle_valid ==> {
                &&& final(self).native_ai_preview_live@ == Set::<u64>::empty()
                &&& final(self).native_ai_preview_map == None::<u32>
            },
            !old(self).native_script_trigger_lifecycle_valid && old(self).native_ai_preview_map
                != Some(map_hash) ==> {
                &&& final(self).native_ai_preview_live@ == live_candidate_keys@.to_set()
                &&& final(self).native_ai_preview_map == Some(map_hash)
            },
            !old(self).native_script_trigger_lifecycle_valid && old(self).native_ai_preview_map
                == Some(map_hash) ==> {
                &&& final(self).native_ai_preview_live@ == old(self).native_ai_preview_live@
                &&& final(self).native_ai_preview_map == old(self).native_ai_preview_map
            },
            final(self).native_ai_deferred_destroy == old(self).native_ai_deferred_destroy,
            final(self).native_ai_creator_runtime@ == old(self).native_ai_creator_runtime@,
            final(self).native_player_magnetic_target_key == old(self).native_player_magnetic_target_key,
            final(self).native_script_trigger_lifecycle_valid == old(self).native_script_trigger_lifecycle_valid,
            final(self).native_global_gameplay_rng == old(self).native_global_gameplay_rng,
            final(self).native_ai_preview_gameplay_rng == old(self).native_ai_preview_gameplay_rng,
            final(self).native_process_lcg_seed == old(self).native_process_lcg_seed,
            final(self).native_ai_preview_process_lcg_seed == old(self).native_ai_preview_process_lcg_seed,
            final(self).native_ai_permanent_sounds@ == old(self).native_ai_permanent_sounds@,
            final(self).native_ai_instance_keys == old(self).native_ai_instance_keys,
            final(self).native_ai_trigger_lifecycle == old(self).native_ai_trigger_lifecycle,
    {
        if self.native_script_trigger_lifecycle_valid {
            self.native_ai_preview_live.clear();
            self.native_ai_preview_map = None;
        } else if self.native_ai_preview_map != Some(map_hash) {
            self.native_ai_preview_live.clear();
            let ghost before = *self;
            let mut index: usize = 0;
            while index < live_candidate_keys.len()
                invariant
                    index <= live_candidate_keys@.len(),
                    self.native_ai_preview_live@ == live_candidate_keys@.take(index as int).to_set(),
                    self.native_ai_deferred_destroy == before.native_ai_deferred_destroy,
                    self.native_ai_creator_runtime == before.native_ai_creator_runtime,
                    self.native_player_magnetic_target_key == before.native_player_magnetic_target_key,
                    self.native_script_trigger_lifecycle_valid == before.native_script_trigger_lifecycle_valid,
                    self.native_global_gameplay_rng == before.native_global_gameplay_rng,
                    self.native_ai_preview_gameplay_rng == before.native_ai_preview_gameplay_rng,
                    self.native_process_lcg_seed == before.native_process_lcg_seed,
                    self.native_ai_preview_process_lcg_seed == before.native_ai_preview_process_lcg_seed,
                    self.native_ai_permanent_sounds == before.native_ai_permanent_sounds,
                    self.native_ai_preview_map == before.native_ai_preview_map,
                    self.native_ai_instance_keys == before.native_ai_instance_keys,
                    self.native_ai_trigger_lifecycle == before.native_ai_trigger_lifecycle,
                decreases live_candidate_keys@.len() - index,
            {
                let key = live_candidate_keys[index];
                let _ = fx_set_insert(&mut self.native_ai_preview_live, key);
                proof {
                    assert(live_candidate_keys@.take(index + 1) =~= live_candidate_keys@.take(
                        index as int,
                    ).push(key));
                    live_candidate_keys@.take(index as int).lemma_push_to_set_commute(key);
                }
                index += 1;
            }
            proof {
                assert(live_candidate_keys@.take(live_candidate_keys@.len() as int)
                    =~= live_candidate_keys@);
            }
            self.native_ai_preview_map = Some(map_hash);
        }
    }

    /// Shared per-instance gate of the class hosts: an instance whose XItem is
    /// no longer live, or which has no body, is retired (class runtime,
    /// navigation, physics) and skipped this step; a live instance with a body
    /// proceeds untouched.
    pub fn gate_native_ai_class_instance(
        &mut self,
        table: NativeAiClassRuntimeTable,
        key: u64,
        xitem_live: bool,
        body_exists: bool,
    ) -> (proceed: bool)
        ensures
            proceed == (xitem_live && body_exists),
            proceed ==> final(self).native_ai_instance_keys == old(self).native_ai_instance_keys,
            !proceed ==> class_instance_retired(
                old(self).native_ai_instance_keys,
                final(self).native_ai_instance_keys,
                table,
                key,
            ),
            bookkeeping_unchanged(*old(self), *final(self)),
            final(self).native_global_gameplay_rng == old(self).native_global_gameplay_rng,
            final(self).native_ai_preview_gameplay_rng == old(self).native_ai_preview_gameplay_rng,
    {
        if !xitem_live || !body_exists {
            self.native_ai_instance_keys.retire_class_instance(table, key);
            return false;
        }
        true
    }

    /// Runtime setup of the DogBot, EQ04 mine and MineBot hosts: a missing
    /// runtime is created from its defaults, with no draw.
    pub fn begin_native_ai_drawless_instance(&mut self, table: NativeAiDrawlessClassTable, key: u64) -> (setup:
        NativeAiInstanceSetup)
        ensures
            class_table_keys(old(self).native_ai_instance_keys, drawless_class_table(table)).contains(key) ==> {
                &&& setup == NativeAiInstanceSetup::Existing
                &&& final(self).native_ai_instance_keys == old(self).native_ai_instance_keys
            },
            !class_table_keys(old(self).native_ai_instance_keys, drawless_class_table(table)).contains(key) ==> {
                &&& setup == NativeAiInstanceSetup::Created
                &&& class_instance_added(
                    old(self).native_ai_instance_keys,
                    final(self).native_ai_instance_keys,
                    drawless_class_table(table),
                    key,
                )
            },
            streams_as(*final(self), *old(self)),
            bookkeeping_unchanged(*old(self), *final(self)),
    {
        let class_table = match table {
            NativeAiDrawlessClassTable::Eq04Mine => NativeAiClassRuntimeTable::Eq04Mine,
            NativeAiDrawlessClassTable::MineBot => NativeAiClassRuntimeTable::MineBot,
            NativeAiDrawlessClassTable::DogBot => NativeAiClassRuntimeTable::DogBot,
        };
        if self.native_ai_instance_keys.has_class_instance(class_table, key) {
            return NativeAiInstanceSetup::Existing;
        }
        self.native_ai_instance_keys.insert_class_instance(class_table, key);
        NativeAiInstanceSetup::Created
    }

    /// Runtime setup of the RollerBot host. A sweeper-spawned roller reuses the
    /// `% 3` setup draw its factory already took and draws nothing; a serialized
    /// roller takes its setup draw and then a mandatory configuration draw, and
    /// gets a runtime only when both succeed.
    pub fn begin_native_rollerbot_instance(&mut self, key: u64, dynamic_setup_random_mod3: Option<u8>) -> (setup:
        NativeAiInstanceSetup)
        ensures
            old(self).native_ai_instance_keys.rollerbot_runtime@.contains(key) ==> {
                &&& setup == NativeAiInstanceSetup::Existing
                &&& final(self).native_ai_instance_keys == old(self).native_ai_instance_keys
                &&& streams_as(*final(self), *old(self))
            },
            !old(self).native_ai_instance_keys.rollerbot_runtime@.contains(key) ==> {
                &&& setup == rollerbot_setup_plan(*old(self), dynamic_setup_random_mod3).0
                &&& streams_as(*final(self), rollerbot_setup_plan(*old(self), dynamic_setup_random_mod3).1)
                &&& setup is CreatedFromDraw ==> class_instance_added(
                    old(self).native_ai_instance_keys,
                    final(self).native_ai_instance_keys,
                    NativeAiClassRuntimeTable::RollerBot,
                    key,
                )
                &&& setup is Deferred ==> final(self).native_ai_instance_keys
                    == old(self).native_ai_instance_keys
            },
            bookkeeping_unchanged(*old(self), *final(self)),
    {
        if self.native_ai_instance_keys.has_class_instance(NativeAiClassRuntimeTable::RollerBot, key) {
            return NativeAiInstanceSetup::Existing;
        }
        let setup_draw = match dynamic_setup_random_mod3 {
            Some(setup_random_mod3) => setup_random_mod3 as u32,
            None => {
                let setup_draw = match self.next_native_ai_gameplay_rng_u32() {
                    Some(draw) => draw,
                    None => return NativeAiInstanceSetup::Deferred,
                };
                match self.next_native_ai_gameplay_rng_u32() {
                    Some(_mandatory_config_draw) => {},
                    None => return NativeAiInstanceSetup::Deferred,
                }
                setup_draw
            },
        };
        self.native_ai_instance_keys.insert_class_instance(NativeAiClassRuntimeTable::RollerBot, key);
        NativeAiInstanceSetup::CreatedFromDraw { setup_draw }
    }

    /// Runtime setup of the TestAnimBot host. Without periodic idle modes a
    /// missing runtime is created with no draw; with them it needs the draw that
    /// seeds its periodic idle, and is not created while that draw fails.
    pub fn begin_native_test_anim_bot_instance(&mut self, key: u64, periodic_idle_enabled: bool) -> (setup:
        NativeAiInstanceSetup)
        ensures
            old(self).native_ai_instance_keys.test_anim_bot_runtime@.contains(key) ==> {
                &&& setup == NativeAiInstanceSetup::Existing
                &&& final(self).native_ai_instance_keys == old(self).native_ai_instance_keys
                &&& streams_as(*final(self), *old(self))
            },
            !old(self).native_ai_instance_keys.test_anim_bot_runtime@.contains(key)
                && !periodic_idle_enabled ==> {
                &&& setup == NativeAiInstanceSetup::Created
                &&& streams_as(*final(self), *old(self))
                &&& class_instance_added(
                    old(self).native_ai_instance_keys,
                    final(self).native_ai_instance_keys,
                    NativeAiClassRuntimeTable::TestAnimBot,
                    key,
                )
            },
            !old(self).native_ai_instance_keys.test_anim_bot_runtime@.contains(key)
                && periodic_idle_enabled ==> {
                &&& streams_as(*final(self), old(self).after_gameplay_draw())
                &&& match old(self).gameplay_draw() {
                    Some(draw) => {
                        &&& setup == (NativeAiInstanceSetup::CreatedFromDraw { setup_draw: draw })
                        &&& class_instance_added(
                            old(self).native_ai_instance_keys,
                            final(self).native_ai_instance_keys,
                            NativeAiClassRuntimeTable::TestAnimBot,
                            key,
                        )
                    },
                    None => {
                        &&& setup == NativeAiInstanceSetup::Deferred
                        &&& final(self).native_ai_instance_keys == old(self).native_ai_instance_keys
                    },
                }
            },
            bookkeeping_unchanged(*old(self), *final(self)),
    {
        if self.native_ai_instance_keys.has_class_instance(NativeAiClassRuntimeTable::TestAnimBot, key) {
            return NativeAiInstanceSetup::Existing;
        }
        if !periodic_idle_enabled {
            self.native_ai_instance_keys.insert_class_instance(NativeAiClassRuntimeTable::TestAnimBot, key);
            return NativeAiInstanceSetup::Created;
        }
        match self.next_native_ai_gameplay_rng_u32() {
            Some(setup_draw) => {
                self.native_ai_instance_keys.insert_class_instance(
                    NativeAiClassRuntimeTable::TestAnimBot,
                    key,
                );
                NativeAiInstanceSetup::CreatedFromDraw { setup_draw }
            },
            None => NativeAiInstanceSetup::Deferred,
        }
    }

    /// Runtime setup of the standard Monster host. The runtime always exists
    /// afterwards. A draw seeds the periodic idle only when the class has
    /// periodic idle modes and the runtime is new or its periodic idle is not yet
    /// initialized; a sweeper-spawned Monster uses its factory's setup draw for
    /// that, a serialized one takes a gameplay draw, which may fail.
    pub fn begin_native_standard_monster_instance(
        &mut self,
        key: u64,
        periodic_idle_enabled: bool,
        periodic_idle_initialized: bool,
        dynamic_setup_draw: Option<u32>,
    ) -> (setup: NativeStandardMonsterSetup)
        ensures
            setup.runtime_is_new == !old(self).native_ai_instance_keys.standard_monster_runtime@.contains(
                key,
            ),
            setup.runtime_is_new ==> class_instance_added(
                old(self).native_ai_instance_keys,
                final(self).native_ai_instance_keys,
                NativeAiClassRuntimeTable::StandardMonster,
                key,
            ),
            !setup.runtime_is_new ==> final(self).native_ai_instance_keys
                == old(self).native_ai_instance_keys,
            !standard_periodic_idle_needs_init(
                periodic_idle_enabled,
                setup.runtime_is_new,
                periodic_idle_initialized,
            ) ==> {
                &&& setup.periodic_initial_draw == None::<u32>
                &&& streams_as(*final(self), *old(self))
            },
            standard_periodic_idle_needs_init(
                periodic_idle_enabled,
                setup.runtime_is_new,
                periodic_idle_initialized,
            ) && dynamic_setup_draw is Some ==> {
                &&& setup.periodic_initial_draw == dynamic_setup_draw
                &&& streams_as(*final(self), *old(self))
            },
            standard_periodic_idle_needs_init(
                periodic_idle_enabled,
                setup.runtime_is_new,
                periodic_idle_initialized,
            ) && dynamic_setup_draw is None ==> {
                &&& setup.periodic_initial_draw == old(self).gameplay_draw()
                &&& streams_as(*final(self), old(self).after_gameplay_draw())
            },
            bookkeeping_unchanged(*old(self), *final(self)),
    {
        let runtime_is_new = !self.native_ai_instance_keys.has_class_instance(
            NativeAiClassRuntimeTable::StandardMonster,
            key,
        );
        let periodic_needs_init = periodic_idle_enabled && (runtime_is_new
            || !periodic_idle_initialized);
        let periodic_initial_draw = if periodic_needs_init {
            match dynamic_setup_draw {
                Some(draw) => Some(draw),
                None => self.next_native_ai_gameplay_rng_u32(),
            }
        } else {
            None
        };
        if runtime_is_new {
            self.native_ai_instance_keys.insert_class_instance(
                NativeAiClassRuntimeTable::StandardMonster,
                key,
            );
        }
        NativeStandardMonsterSetup { runtime_is_new, periodic_initial_draw }
    }
}

/// A magnetic target is unbound only by the key it was bound to: clearing that
/// key leaves no target, clearing any other key keeps the binding, and a new
/// binding replaces the old one.
pub proof fn lemma_magnetic_target_clears_only_its_own_key(
    frame: MapFrame,
    target_key: u64,
    other_key: u64,
    next_key: u64,
)
    requires
        other_key != target_key,
    ensures
        frame.with_magnetic_target(target_key).without_magnetic_target(
            target_key,
        ).native_player_magnetic_target_key == None::<u64>,
        frame.with_magnetic_target(target_key).without_magnetic_target(other_key)
            == frame.with_magnetic_target(target_key),
        frame.with_magnetic_target(target_key).with_magnetic_target(next_key)
            == frame.with_magnetic_target(next_key),
{
}

/// A natural death is deferred to the end of the step: the request leaves the
/// owner in the preview's live set and marks it pending, latches its creator
/// against respawn, and only the flush that follows removes it from the live
/// set, leaving every other live key in place.
pub proof fn lemma_natural_death_waits_for_flush(frame: MapFrame, key: u64, position: NativeVec3Bits)
    ensures
        ({
            let pending = frame.native_ai_deferred_destroy.pending_keys().insert(key);
            let creator = frame.creator_of(key).after_natural_death(position);
            let live_after_flush = frame.native_ai_preview_live@.difference(pending);
            &&& pending.contains(key)
            &&& !creator.creation_allowed()
            &&& !live_after_flush.contains(key)
            &&& forall|other: u64|
                #![trigger live_after_flush.contains(other)]
                frame.native_ai_preview_live@.contains(other) && !pending.contains(other)
                    ==> live_after_flush.contains(other)
        }),
{
}

/// Whether the stream that gameplay draws go to is anchored, so that draws yield
/// values.
pub open spec fn gameplay_stream_anchored(frame: MapFrame) -> bool {
    uses_native_stream(frame.native_script_trigger_lifecycle_valid, frame.native_global_gameplay_rng.seed)
        || frame.native_ai_preview_gameplay_rng.seed is Some
}

/// A gameplay draw changes nothing but the stream it draws from. Outside the
/// validated native lifecycle it never touches the native session stream; on an
/// anchored stream it always yields a value and the stream stays anchored.
pub proof fn lemma_gameplay_draw_isolation(frame: MapFrame)
    ensures
        frame.after_gameplay_draw().native_script_trigger_lifecycle_valid
            == frame.native_script_trigger_lifecycle_valid,
        frame.after_gameplay_draw().native_process_lcg_seed == frame.native_process_lcg_seed,
        frame.after_gameplay_draw().native_ai_preview_process_lcg_seed
            == frame.native_ai_preview_process_lcg_seed,
        frame.after_gameplay_draw().native_player_magnetic_target_key
            == frame.native_player_magnetic_target_key,
        !frame.native_script_trigger_lifecycle_valid ==> frame.after_gameplay_draw().native_global_gameplay_rng
            == frame.native_global_gameplay_rng,
        gameplay_stream_anchored(frame) ==> frame.gameplay_draw() is Some,
        gameplay_stream_anchored(frame) ==> gameplay_stream_anchored(frame.after_gameplay_draw()),
{
}

/// A sweeper-spawned roller's runtime comes from its factory draw with no
/// gameplay draw; on an anchored stream a serialized roller always gets its
/// runtime, seeded by the first of exactly two gameplay draws.
pub proof fn lemma_rollerbot_setup_draws(frame: MapFrame, dynamic_setup_random_mod3: Option<u8>)
    ensures
        dynamic_setup_random_mod3 matches Some(mod3) ==> rollerbot_setup_plan(
            frame,
            dynamic_setup_random_mod3,
        ) == (NativeAiInstanceSetup::CreatedFromDraw { setup_draw: mod3 as u32 }, frame),
        dynamic_setup_random_mod3 is None && gameplay_stream_anchored(frame) ==> {
            &&& frame.gameplay_draw() is Some
            &&& rollerbot_setup_plan(frame, dynamic_setup_random_mod3).0 == (
            NativeAiInstanceSetup::CreatedFromDraw { setup_draw: frame.gameplay_draw()->0 })
            &&& rollerbot_setup_plan(frame, dynamic_setup_random_mod3).1
                == frame.after_gameplay_draw().after_gameplay_draw()
        },
{
    lemma_gameplay_draw_isolation(frame);
    lemma_gameplay_draw_isolation(frame.after_gameplay_draw());
}

/// A drawless host's setup records the new runtime in that host's own table:
/// the EQ04 mine host in the EQ04 mine table, the MineBot host in the MineBot
/// table, the DogBot host in the DogBot table, and touches no other class table.
pub proof fn lemma_drawless_setup_uses_own_table(
    before: NativeAiInstanceRuntimeKeys,
    after: NativeAiInstanceRuntimeKeys,
    table: NativeAiDrawlessClassTable,
    key: u64,
)
    requires
        class_instance_added(before, after, drawless_class_table(table), key),
    ensures
        table == NativeAiDrawlessClassTable::Eq04Mine ==> {
            &&& after.eq04_mine_runtime@ == before.eq04_mine_runtime@.insert(key)
            &&& after.minebot_runtime@ == before.minebot_runtime@
            &&& after.dogbot_runtime@ == before.dogbot_runtime@
        },
        table == NativeAiDrawlessClassTable::MineBot ==> {
            &&& after.minebot_runtime@ == before.minebot_runtime@.insert(key)
            &&& after.eq04_mine_runtime@ == before.eq04_mine_runtime@
            &&& after.dogbot_runtime@ == before.dogbot_runtime@
        },
        table == NativeAiDrawlessClassTable::DogBot ==> {
            &&& after.dogbot_runtime@ == before.dogbot_runtime@.insert(key)
            &&& after.eq04_mine_runtime@ == before.eq04_mine_runtime@
            &&& after.minebot_runtime@ == before.minebot_runtime@
        },
        after.test_anim_bot_runtime@ == before.test_anim_bot_runtime@,
        after.standard_monster_runtime@ == before.standard_monster_runtime@,
        after.rollerbot_runtime@ == before.rollerbot_runtime@,
        after.monster_navigation@ == before.monster_navigation@,
        after.monster_physics@ == before.monster_physics@,
{
}

impl Default for MapFrame {
    /// A frame outside the native lifecycle: no magnetic target, an unanchored
    /// native stream and seed, fresh-process preview stream and seed, and empty
    /// AI bookkeeping.
    fn default() -> (frame: Self)
        ensures
            frame.native_player_magnetic_target_key == None::<u64>,
            !frame.native_script_trigger_lifecycle_valid,
            frame.native_global_gameplay_rng.seed == None::<u32>,
            frame.native_global_gameplay_rng.draws_from_anchor == 0,
            frame.native_ai_preview_gameplay_rng.seed == Some(ROBOTS_PROCESS_LCG_STARTUP_SEED),
            frame.native_ai_preview_gameplay_rng.draws_from_anchor == 0,
            frame.native_process_lcg_seed == None::<u32>,
            frame.native_ai_preview_process_lcg_seed == Some(ROBOTS_PROCESS_LCG_STARTUP_SEED),
            frame.native_ai_deferred_destroy.pending_keys() == Set::<u64>::empty(),
            frame.native_ai_creator_runtime@ == Map::<u64, NativeSerializedAiCreatorRuntime>::empty(),
            frame.native_ai_preview_live@ == Set::<u64>::empty(),
            frame.native_ai_permanent_sounds@ == Map::<u32, NativeAiPermanentSoundRegistration>::empty(),
            frame.native_ai_preview_map == None::<u32>,
            no_instance_entries(frame.native_ai_instance_keys),
            frame.native_ai_trigger_lifecycle@ == Map::<u64, RuntimeScriptTriggerLifecycleState>::empty(),
    {
        MapFrame {
            native_player_magnetic_target_key: None,
            native_script_trigger_lifecycle_valid: false,
            native_global_gameplay_rng: RuntimeRobotsGlobalRngState::default(),
            native_ai_preview_gameplay_rng: RuntimeRobotsGlobalRngState::fresh_process_startup(),
            native_process_lcg_seed: None,
            native_ai_preview_process_lcg_seed: Some(ROBOTS_PROCESS_LCG_STARTUP_SEED),
            native_ai_deferred_destroy: NativeSerializedAiDeferredDestroyRuntime::default(),
            native_ai_creator_runtime: FxHashMap::default(),
            native_ai_preview_live: FxHashSet::default(),
            native_ai_permanent_sounds: FxHashMap::default(),
            native_ai_preview_map: None,
            native_ai_instance_keys: NativeAiInstanceRuntimeKeys::default(),
            native_ai_trigger_lifecycle: FxHashMap::default(),
        }
    }
}

} // verus!
