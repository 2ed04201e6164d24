use fxhash::FxHashSet;
use runtime_ai::creator::{NativeSerializedAiCreatorRuntime, NativeVec3Bits};
use runtime_ai::deferred_destroy::NativeSerializedAiDeferredDestroyRuntime;
use runtime_ai::em07_piranha::NativeEm07PiranhaFlightDraws;
use runtime_ai::frame::{MapFrame, NativeAiDrawlessClassTable, NativeAiInstanceSetup};
use runtime_ai::instance::{
    NativeAiClassRuntimeTable, NativeAiDynamicHostTable, RuntimeScriptTriggerLifecycleState,
};
use runtime_ai::rng::RuntimeRobotsGlobalRngState;

fn position(x: f32, y: f32, z: f32) -> NativeVec3Bits {
    NativeVec3Bits {
        x_bits: x.to_bits(),
        y_bits: y.to_bits(),
        z_bits: z.to_bits(),
    }
}

#[test]
fn magnetic_target_is_cleared_only_by_its_own_key() {
    let mut frame = MapFrame::default();
    frame.bind_native_player_magnetic_target(0x10);
    assert_eq!(frame.native_player_magnetic_target_key, Some(0x10));
    frame.clear_native_player_magnetic_target(0x11);
    assert_eq!(frame.native_player_magnetic_target_key, Some(0x10));
    frame.clear_native_player_magnetic_target(0x10);
    assert_eq!(frame.native_player_magnetic_target_key, None);
    frame.bind_native_player_magnetic_target(0x10);
    frame.bind_native_player_magnetic_target(0x12);
    frame.clear_native_player_magnetic_target(0x10);
    assert_eq!(frame.native_player_magnetic_target_key, Some(0x12));
}

#[test]
fn deferred_destroy_marks_once_and_takes_all() {
    let mut deferred = NativeSerializedAiDeferredDestroyRuntime::default();
    deferred.mark(0x1234);
    deferred.mark(0x1234);
    assert!(deferred.is_pending(0x1234));
    assert!(!deferred.is_pending(0x1235));
    assert_eq!(deferred.take_all(), vec![0x1234]);
    assert!(!deferred.is_pending(0x1234));
    assert!(deferred.take_all().is_empty());

    deferred.mark(1);
    deferred.mark(2);
    let mut taken = deferred.take_all();
    taken.sort();
    assert_eq!(taken, vec![1, 2]);

    deferred.mark(3);
    deferred.clear();
    assert!(!deferred.is_pending(3));
}

#[test]
fn minebot_three_hits_arm_fatal_and_creator_latch_blocks_respawn() {
    let death_position = position(4.0, 5.0, 6.0);
    let mut creator = NativeSerializedAiCreatorRuntime::default();
    assert!(creator.allows_create_item());
    creator.record_natural_death(death_position);
    assert!(!creator.allows_create_item());
    assert_eq!(creator.position_override, Some(death_position));
}

#[test]
fn natural_death_stays_live_until_flush() {
    let mut frame = MapFrame::default();
    frame.native_ai_preview_live.insert(0x1234);
    frame.native_ai_preview_live.insert(0x5678);
    frame.native_ai_preview_live.insert(0x9abc);

    frame.request_native_ai_natural_death(false, 0x1234, position(1.0, 2.0, 3.0));
    frame.request_native_ai_natural_death(true, 0x5678, position(7.0, 8.0, 9.0));
    assert!(frame.native_ai_deferred_destroy.is_pending(0x1234));
    assert!(frame.native_ai_deferred_destroy.is_pending(0x5678));
    assert!(frame.native_ai_preview_live.contains(&0x1234));

    let creator = frame.native_ai_creator_runtime[&0x1234];
    assert!(!creator.allows_create_item());
    assert_eq!(creator.position_override, Some(position(1.0, 2.0, 3.0)));
    assert!(!frame.native_ai_creator_runtime.contains_key(&0x5678));

    let mut flushed = frame.flush_native_ai_deferred_destroy_fixed(&FxHashSet::default());
    flushed.sort();
    assert_eq!(flushed, vec![0x1234, 0x5678]);
    assert!(!frame.native_ai_deferred_destroy.is_pending(0x1234));
    assert!(!frame.native_ai_preview_live.contains(&0x1234));
    assert!(!frame.native_ai_preview_live.contains(&0x5678));
    assert!(frame.native_ai_preview_live.contains(&0x9abc));
    assert!(!frame.native_ai_creator_runtime[&0x1234].allows_create_item());
}

#[test]
fn second_death_keeps_latch_and_moves_position() {
    let mut frame = MapFrame::default();
    frame.request_native_ai_natural_death(false, 1, position(1.0, 0.0, 0.0));
    frame.request_native_ai_natural_death(false, 1, position(2.0, 0.0, 0.0));
    let creator = frame.native_ai_creator_runtime[&1];
    assert!(creator.death_latched);
    assert_eq!(creator.position_override, Some(position(2.0, 0.0, 0.0)));
    assert_eq!(frame.flush_native_ai_deferred_destroy_fixed(&FxHashSet::default()), vec![1]);
}

#[test]
fn piranha_offset_draws_skip_radius_for_zero_modulus() {
    let mut frame = MapFrame::default();
    assert_eq!(frame.em07_piranha_rng_offset_draws(0), Some((41, 0)));
    assert_eq!(frame.native_ai_preview_gameplay_rng.draws_from_anchor, 1);
    assert_eq!(frame.em07_piranha_rng_offset_draws(5), Some((18_467, 6_334)));
    assert_eq!(frame.native_ai_preview_gameplay_rng.draws_from_anchor, 3);

    frame.native_ai_preview_gameplay_rng = RuntimeRobotsGlobalRngState::default();
    assert_eq!(frame.em07_piranha_rng_offset_draws(5), None);
}

#[test]
fn piranha_flight_draws_follow_native_order() {
    let mut frame = MapFrame::default();
    // Spawn: angle 41, radius 18467. Point draw 6334 picks entry 6334 % 3 == 1,
    // whose zero modulus leaves only the target angle draw 26500.
    let draws = frame.em07_piranha_flight_draws(7, &vec![9, 0, 9]);
    assert_eq!(
        draws,
        Some(NativeEm07PiranhaFlightDraws {
            spawn_angle_draw: 41,
            spawn_radius_draw: 18_467,
            point_draw: 6_334,
            target_angle_draw: 26_500,
            target_radius_draw: 0,
        })
    );
    assert_eq!(frame.native_ai_preview_gameplay_rng.draws_from_anchor, 4);
    assert_eq!(frame.native_global_gameplay_rng.seed(), None);

    let mut frame = MapFrame::default();
    // Point draw 18467 picks entry 18467 % 2 == 1.
    let draws = frame.em07_piranha_flight_draws(0, &vec![0, 3]);
    assert_eq!(
        draws,
        Some(NativeEm07PiranhaFlightDraws {
            spawn_angle_draw: 41,
            spawn_radius_draw: 0,
            point_draw: 18_467,
            target_angle_draw: 6_334,
            target_radius_draw: 26_500,
        })
    );

    let mut frame = MapFrame::default();
    assert_eq!(frame.em07_piranha_flight_draws(7, &vec![]), None);
    assert_eq!(frame.native_ai_preview_gameplay_rng.draws_from_anchor, 2);
}

#[test]
fn preview_live_set_is_seeded_once_per_map() {
    let mut frame = MapFrame::default();
    frame.sync_native_ai_preview_live(0xAA, &vec![1, 2, 2]);
    assert_eq!(frame.native_ai_preview_map, Some(0xAA));
    assert_eq!(frame.native_ai_preview_live.len(), 2);
    assert!(frame.native_ai_preview_live.contains(&1));

    frame.native_ai_preview_live.remove(&1);
    frame.sync_native_ai_preview_live(0xAA, &vec![1, 2, 3]);
    assert!(!frame.native_ai_preview_live.contains(&1));
    assert!(!frame.native_ai_preview_live.contains(&3));

    frame.sync_native_ai_preview_live(0xBB, &vec![3]);
    assert_eq!(frame.native_ai_preview_map, Some(0xBB));
    assert_eq!(frame.native_ai_preview_live.len(), 1);
    assert!(frame.native_ai_preview_live.contains(&3));

    frame.native_script_trigger_lifecycle_valid = true;
    frame.sync_native_ai_preview_live(0xBB, &vec![4]);
    assert!(frame.native_ai_preview_live.is_empty());
    assert_eq!(frame.native_ai_preview_map, None);
}

#[test]
fn flush_unlinks_every_per_instance_entry_and_winds_down_serialized_lifecycles() {
    let mut frame = MapFrame::default();
    for key in [1u64, 2, 3] {
        frame.native_ai_instance_keys.hit_reactions.insert(key);
        frame.native_ai_instance_keys.last_hit_source_yaw.insert(key);
        frame.native_ai_instance_keys.fatal_runtime.insert(key);
        frame.native_ai_instance_keys.standard_monster_runtime.insert(key);
        frame.native_ai_instance_keys.rollerbot_runtime.insert(key);
        frame.native_ai_instance_keys.monster_navigation.insert(key);
        frame.native_ai_instance_keys.monster_physics.insert(key);
        frame.native_ai_trigger_lifecycle.insert(key, RuntimeScriptTriggerLifecycleState { xitem_exists: true });
    }
    frame.native_ai_instance_keys.dogbot_runtime.insert(1);

    frame.request_native_ai_natural_death(false, 1, position(0.0, 0.0, 0.0));
    frame.request_native_ai_natural_death(true, 2, position(0.0, 0.0, 0.0));
    // Still live until the end-of-step flush.
    assert!(frame.native_ai_trigger_lifecycle[&1].xitem_exists);
    assert!(frame.native_ai_instance_keys.hit_reactions.contains(&1));

    let mut dynamic = FxHashSet::default();
    dynamic.insert(2u64);
    let mut flushed = frame.flush_native_ai_deferred_destroy_fixed(&dynamic);
    flushed.sort();
    assert_eq!(flushed, vec![1, 2]);

    let keys = &frame.native_ai_instance_keys;
    for key in [1u64, 2] {
        assert!(!keys.hit_reactions.contains(&key));
        assert!(!keys.last_hit_source_yaw.contains(&key));
        assert!(!keys.fatal_runtime.contains(&key));
        assert!(!keys.standard_monster_runtime.contains(&key));
        assert!(!keys.rollerbot_runtime.contains(&key));
        assert!(!keys.monster_navigation.contains(&key));
        assert!(!keys.monster_physics.contains(&key));
    }
    assert!(keys.dogbot_runtime.is_empty());
    assert!(keys.hit_reactions.contains(&3));
    assert!(keys.monster_physics.contains(&3));

    // Serialized owner 1 loses its XItem; dynamic owner 2 and untouched 3 keep theirs.
    assert!(!frame.native_ai_trigger_lifecycle[&1].xitem_exists);
    assert!(frame.native_ai_trigger_lifecycle[&2].xitem_exists);
    assert!(frame.native_ai_trigger_lifecycle[&3].xitem_exists);
    assert_eq!(frame.native_ai_trigger_lifecycle.len(), 3);
}

#[test]
fn lifecycle_cleanup_after_failed_zone_removes_xitem() {
    let mut lifecycle = RuntimeScriptTriggerLifecycleState { xitem_exists: true };
    lifecycle.cleanup_zone_failed();
    assert!(!lifecycle.xitem_exists);
}

#[test]
fn dead_or_bodiless_instances_are_retired_from_their_class_host() {
    let mut frame = MapFrame::default();
    for key in [1u64, 2] {
        frame.native_ai_instance_keys.dogbot_runtime.insert(key);
        frame.native_ai_instance_keys.eq04_mine_runtime.insert(key);
        frame.native_ai_instance_keys.monster_navigation.insert(key);
        frame.native_ai_instance_keys.monster_physics.insert(key);
    }

    assert!(frame.gate_native_ai_class_instance(NativeAiClassRuntimeTable::DogBot, 1, true, true));
    assert!(frame.native_ai_instance_keys.dogbot_runtime.contains(&1));

    assert!(!frame.gate_native_ai_class_instance(NativeAiClassRuntimeTable::DogBot, 1, false, true));
    assert!(!frame.native_ai_instance_keys.dogbot_runtime.contains(&1));
    assert!(!frame.native_ai_instance_keys.monster_navigation.contains(&1));
    assert!(!frame.native_ai_instance_keys.monster_physics.contains(&1));
    assert!(frame.native_ai_instance_keys.eq04_mine_runtime.contains(&1));

    // The EQ04 mine host keeps no navigation state, so a retired mine leaves it.
    assert!(!frame.gate_native_ai_class_instance(NativeAiClassRuntimeTable::Eq04Mine, 2, true, false));
    assert!(!frame.native_ai_instance_keys.eq04_mine_runtime.contains(&2));
    assert!(frame.native_ai_instance_keys.monster_navigation.contains(&2));
    assert!(!frame.native_ai_instance_keys.monster_physics.contains(&2));
    assert!(frame.native_ai_instance_keys.dogbot_runtime.contains(&2));
}

#[test]
fn serialized_ai_deferred_destroy_keeps_xitem_live_until_flush() {
    let key = 0x1234_u64;
    let mut lifecycle = RuntimeScriptTriggerLifecycleState { xitem_exists: true };
    let mut deferred = NativeSerializedAiDeferredDestroyRuntime::default();

    deferred.mark(key);
    deferred.mark(key);
    assert!(deferred.is_pending(key));
    assert!(lifecycle.xitem_exists);

    let pending = deferred.take_all();
    assert_eq!(pending, vec![key]);
    assert!(!deferred.is_pending(key));
    lifecycle.cleanup_zone_failed();
    assert!(!lifecycle.xitem_exists);
}

#[test]
fn serialized_rollerbot_setup_takes_setup_and_mandatory_config_draws() {
    let mut frame = MapFrame::default();
    assert_eq!(
        frame.begin_native_rollerbot_instance(7, None),
        NativeAiInstanceSetup::CreatedFromDraw { setup_draw: 41 }
    );
    assert!(frame.native_ai_instance_keys.rollerbot_runtime.contains(&7));
    assert_eq!(frame.native_ai_preview_gameplay_rng.draws_from_anchor, 2);
    assert_eq!(frame.begin_native_rollerbot_instance(7, None), NativeAiInstanceSetup::Existing);
    assert_eq!(frame.native_ai_preview_gameplay_rng.draws_from_anchor, 2);

    frame.native_ai_preview_gameplay_rng = RuntimeRobotsGlobalRngState::default();
    assert_eq!(frame.begin_native_rollerbot_instance(8, None), NativeAiInstanceSetup::Deferred);
    assert!(!frame.native_ai_instance_keys.rollerbot_runtime.contains(&8));
}

#[test]
fn dynamic_rollerbot_setup_reuses_factory_draw_without_gameplay_draw() {
    let mut frame = MapFrame::default();
    assert_eq!(
        frame.begin_native_rollerbot_instance(9, Some(2)),
        NativeAiInstanceSetup::CreatedFromDraw { setup_draw: 2 }
    );
    assert!(frame.native_ai_instance_keys.rollerbot_runtime.contains(&9));
    assert_eq!(frame.native_ai_preview_gameplay_rng.draws_from_anchor, 0);
}

#[test]
fn dogbot_mine_and_minebot_runtimes_are_created_without_a_draw() {
    let mut frame = MapFrame::default();
    frame.native_ai_preview_gameplay_rng = RuntimeRobotsGlobalRngState::default();
    for table in [
        NativeAiDrawlessClassTable::DogBot,
        NativeAiDrawlessClassTable::Eq04Mine,
        NativeAiDrawlessClassTable::MineBot,
    ] {
        assert_eq!(frame.begin_native_ai_drawless_instance(table, 3), NativeAiInstanceSetup::Created);
        assert_eq!(frame.begin_native_ai_drawless_instance(table, 3), NativeAiInstanceSetup::Existing);
    }
    assert!(frame.native_ai_instance_keys.dogbot_runtime.contains(&3));
    assert!(frame.native_ai_instance_keys.eq04_mine_runtime.contains(&3));
    assert!(frame.native_ai_instance_keys.minebot_runtime.contains(&3));
    assert!(frame.native_ai_instance_keys.rollerbot_runtime.is_empty());
}

#[test]
fn test_anim_bot_with_periodic_modes_needs_its_seeding_draw() {
    let mut frame = MapFrame::default();
    assert_eq!(frame.begin_native_test_anim_bot_instance(1, false), NativeAiInstanceSetup::Created);
    assert_eq!(frame.native_ai_preview_gameplay_rng.draws_from_anchor, 0);
    assert_eq!(
        frame.begin_native_test_anim_bot_instance(2, true),
        NativeAiInstanceSetup::CreatedFromDraw { setup_draw: 41 }
    );
    assert_eq!(frame.begin_native_test_anim_bot_instance(2, true), NativeAiInstanceSetup::Existing);
    frame.native_ai_preview_gameplay_rng = RuntimeRobotsGlobalRngState::default();
    assert_eq!(frame.begin_native_test_anim_bot_instance(3, true), NativeAiInstanceSetup::Deferred);
    assert!(!frame.native_ai_instance_keys.test_anim_bot_runtime.contains(&3));
}

#[test]
fn standard_monster_exists_whatever_its_periodic_draw_gives() {
    let mut frame = MapFrame::default();
    frame.native_ai_preview_gameplay_rng = RuntimeRobotsGlobalRngState::default();
    let setup = frame.begin_native_standard_monster_instance(1, true, false, None);
    assert!(setup.runtime_is_new);
    assert_eq!(setup.periodic_initial_draw, None);
    assert!(frame.native_ai_instance_keys.standard_monster_runtime.contains(&1));

    frame.native_ai_preview_gameplay_rng = RuntimeRobotsGlobalRngState::fresh_process_startup();
    // Existing runtime whose periodic idle is still uninitialized draws again.
    let setup = frame.begin_native_standard_monster_instance(1, true, false, None);
    assert!(!setup.runtime_is_new);
    assert_eq!(setup.periodic_initial_draw, Some(41));
    // Initialized periodic idle, or no periodic modes: no draw.
    let setup = frame.begin_native_standard_monster_instance(1, true, true, None);
    assert_eq!(setup.periodic_initial_draw, None);
    let setup = frame.begin_native_standard_monster_instance(2, false, false, None);
    assert!(setup.runtime_is_new);
    assert_eq!(setup.periodic_initial_draw, None);
    assert_eq!(frame.native_ai_preview_gameplay_rng.draws_from_anchor, 1);
    // A sweeper-spawned Monster uses its factory draw.
    let setup = frame.begin_native_standard_monster_instance(3, true, false, Some(5));
    assert_eq!(setup.periodic_initial_draw, Some(5));
    assert_eq!(frame.native_ai_preview_gameplay_rng.draws_from_anchor, 1);
}

#[test]
fn dynamic_host_keeps_serialized_and_live_dynamic_entries_only() {
    let mut frame = MapFrame::default();
    for key in [1u64, 2, 3] {
        frame.native_ai_instance_keys.rollerbot_runtime.insert(key);
        frame.native_ai_instance_keys.monster_navigation.insert(key);
        frame.native_ai_instance_keys.standard_monster_runtime.insert(key);
    }
    let map_dynamic: FxHashSet<u64> = [2u64, 3].into_iter().collect();
    let live_dynamic: FxHashSet<u64> = [3u64].into_iter().collect();
    frame
        .native_ai_instance_keys
        .retain_live_dynamic_instances(NativeAiDynamicHostTable::RollerBot, &map_dynamic, &live_dynamic);
    let keys = &frame.native_ai_instance_keys;
    assert!(keys.rollerbot_runtime.contains(&1));
    assert!(!keys.rollerbot_runtime.contains(&2));
    assert!(keys.rollerbot_runtime.contains(&3));
    assert!(!keys.monster_navigation.contains(&2));
    assert!(keys.monster_navigation.contains(&1));
    assert_eq!(keys.standard_monster_runtime.len(), 3);
}
