//! Which live-AI keys each per-instance runtime of the AI host holds an entry
//! for, and the trigger lifecycle state the host winds down on destruction.

use fxhash::FxHashSet;
use vstd::prelude::*;

use crate::collections::{fx_set_contains, fx_set_drain, fx_set_insert, fx_set_remove};

verus! {

/// The keys under which the frame keeps an entry in each per-instance AI
/// runtime table.
pub struct NativeAiInstanceRuntimeKeys {
    pub hit_reactions: FxHashSet<u64>,
    pub last_hit_source_yaw: FxHashSet<u64>,
    pub fatal_runtime: FxHashSet<u64>,
    pub eq04_mine_runtime: FxHashSet<u64>,
    pub minebot_runtime: FxHashSet<u64>,
    pub dogbot_runtime: FxHashSet<u64>,
    pub test_anim_bot_runtime: FxHashSet<u64>,
    pub standard_monster_runtime: FxHashSet<u64>,
    pub rollerbot_runtime: FxHashSet<u64>,
    pub monster_navigation: FxHashSet<u64>,
    pub monster_physics: FxHashSet<u64>,
}

/// `after` holds exactly the entries of `before` except those keyed in `removed`,
/// in every table.
pub open spec fn instance_keys_removed(
    before: NativeAiInstanceRuntimeKeys,
    after: NativeAiInstanceRuntimeKeys,
    removed: Set<u64>,
) -> bool {
    &&& after.hit_reactions@ == before.hit_reactions@.difference(removed)
    &&& after.last_hit_source_yaw@ == before.last_hit_source_yaw@.difference(removed)
    &&& after.fatal_runtime@ == before.fatal_runtime@.difference(removed)
    &&& after.eq04_mine_runtime@ == before.eq04_mine_runtime@.difference(removed)
    &&& after.minebot_runtime@ == before.minebot_runtime@.difference(removed)
    &&& after.dogbot_runtime@ == before.dogbot_runtime@.difference(removed)
    &&& after.test_anim_bot_runtime@ == before.test_anim_bot_runtime@.difference(removed)
    &&& after.standard_monster_runtime@ == before.standard_monster_runtime@.difference(removed)
    &&& after.rollerbot_runtime@ == before.rollerbot_runtime@.difference(removed)
    &&& after.monster_navigation@ == before.monster_navigation@.difference(removed)
    &&& after.monster_physics@ == before.monster_physics@.difference(removed)
}

/// Removing a set of keys and then one more key removes the larger set.
pub proof fn lemma_difference_insert(tables: Set<u64>, removed: Set<u64>, key: u64)
    ensures
        tables.difference(removed).difference(set![key]) == tables.difference(removed.insert(key)),
{
    assert(tables.difference(removed).difference(set![key]) =~= tables.difference(
        removed.insert(key),
    ));
}

/// Removal composes: removing `removed` then `key` is removing `removed` with `key`.
pub proof fn lemma_instance_keys_removed_compose(
    before: NativeAiInstanceRuntimeKeys,
    middle: NativeAiInstanceRuntimeKeys,
    after: NativeAiInstanceRuntimeKeys,
    removed: Set<u64>,
    key: u64,
)
    requires
        instance_keys_removed(before, middle, removed),
        instance_keys_removed(middle, after, set![key]),
    ensures
        instance_keys_removed(before, after, removed.insert(key)),
{
    lemma_difference_insert(before.hit_reactions@, removed, key);
    lemma_difference_insert(before.last_hit_source_yaw@, removed, key);
    lemma_difference_insert(before.fatal_runtime@, removed, key);
    lemma_difference_insert(before.eq04_mine_runtime@, removed, key);
    lemma_difference_insert(before.minebot_runtime@, removed, key);
    lemma_difference_insert(before.dogbot_runtime@, removed, key);
    lemma_difference_insert(before.test_anim_bot_runtime@, removed, key);
    lemma_difference_insert(before.standard_monster_runtime@, removed, key);
    lemma_difference_insert(before.rollerbot_runtime@, removed, key);
    lemma_difference_insert(before.monster_navigation@, removed, key);
    lemma_difference_insert(before.monster_physics@, removed, key);
}

/// A removed key has no entry left in any per-instance table, and a key that
/// was not removed keeps every entry it had.
pub proof fn lemma_removed_instance_has_no_entry(
    before: NativeAiInstanceRuntimeKeys,
    after: NativeAiInstanceRuntimeKeys,
    removed: Set<u64>,
    key: u64,
)
    requires
        instance_keys_removed(before, after, removed),
    ensures
        removed.contains(key) ==> {
            &&& !after.hit_reactions@.contains(key)
            &&& !after.last_hit_source_yaw@.contains(key)
            &&& !after.fatal_runtime@.contains(key)
            &&& !after.eq04_mine_runtime@.contains(key)
            &&& !after.minebot_runtime@.contains(key)
            &&& !after.dogbot_runtime@.contains(key)
            &&& !after.test_anim_bot_runtime@.contains(key)
            &&& !after.standard_monster_runtime@.contains(key)
            &&& !after.rollerbot_runtime@.contains(key)
            &&& !after.monster_navigation@.contains(key)
            &&& !after.monster_physics@.contains(key)
        },
        !removed.contains(key) ==> {
            &&& after.hit_reactions@.contains(key) == before.hit_reactions@.contains(key)
            &&& after.standard_monster_runtime@.contains(key)
                == before.standard_monster_runtime@.contains(key)
            &&& after.monster_physics@.contains(key) == before.monster_physics@.contains(key)
        },
{
}

/// A dynamic host's retention pass filters its own table only: the standard
/// Monster pass keeps exactly the serialized and live dynamic standard Monster
/// runtimes and leaves the RollerBot table alone, and the RollerBot pass the
/// other way round; navigation is filtered alike and physics is untouched.
pub proof fn lemma_dynamic_retention_filters_its_own_table(
    before: NativeAiInstanceRuntimeKeys,
    after: NativeAiInstanceRuntimeKeys,
    table: NativeAiDynamicHostTable,
    map_dynamic_keys: Set<u64>,
    live_dynamic_keys: Set<u64>,
)
    requires
        class_table_keys(after, dynamic_host_class_table(table)) == class_table_keys(
            before,
            dynamic_host_class_table(table),
        ).filter(|key: u64| dynamic_entry_retained(map_dynamic_keys, live_dynamic_keys, key)),
        other_tables_unchanged(before, after, dynamic_host_class_table(table)),
    ensures
        table == NativeAiDynamicHostTable::StandardMonster ==> {
            &&& forall|key: u64|
                #[trigger] after.standard_monster_runtime@.contains(key) <==> (
                before.standard_monster_runtime@.contains(key) && (!map_dynamic_keys.contains(key)
                    || live_dynamic_keys.contains(key)))
            &&& after.rollerbot_runtime@ == before.rollerbot_runtime@
        },
        table == NativeAiDynamicHostTable::RollerBot ==> {
            &&& forall|key: u64|
                #[trigger] after.rollerbot_runtime@.contains(key) <==> (
                before.rollerbot_runtime@.contains(key) && (!map_dynamic_keys.contains(key)
                    || live_dynamic_keys.contains(key)))
            &&& after.standard_monster_runtime@ == before.standard_monster_runtime@
        },
        after.eq04_mine_runtime@ == before.eq04_mine_runtime@,
        after.minebot_runtime@ == before.minebot_runtime@,
        after.dogbot_runtime@ == before.dogbot_runtime@,
        after.test_anim_bot_runtime@ == before.test_anim_bot_runtime@,
        after.hit_reactions@ == before.hit_reactions@,
{
}

/// Adding a class instance records it in the table of that very class and in
/// no other: the EQ04 mine table for an EQ04 mine, the MineBot table for a
/// MineBot, and so on.
pub proof fn lemma_class_instance_added_to_own_table(
    before: NativeAiInstanceRuntimeKeys,
    after: NativeAiInstanceRuntimeKeys,
    table: NativeAiClassRuntimeTable,
    key: u64,
)
    requires
        class_instance_added(before, after, table, key),
    ensures
        after.eq04_mine_runtime@ == if table == NativeAiClassRuntimeTable::Eq04Mine {
            before.eq04_mine_runtime@.insert(key)
        } else {
            before.eq04_mine_runtime@
        },
        after.minebot_runtime@ == if table == NativeAiClassRuntimeTable::MineBot {
            before.minebot_runtime@.insert(key)
        } else {
            before.minebot_runtime@
        },
        after.dogbot_runtime@ == if table == NativeAiClassRuntimeTable::DogBot {
            before.dogbot_runtime@.insert(key)
        } else {
            before.dogbot_runtime@
        },
        after.test_anim_bot_runtime@ == if table == NativeAiClassRuntimeTable::TestAnimBot {
            before.test_anim_bot_runtime@.insert(key)
        } else {
            before.test_anim_bot_runtime@
        },
        after.standard_monster_runtime@ == if table == NativeAiClassRuntimeTable::StandardMonster {
            before.standard_monster_runtime@.insert(key)
        } else {
            before.standard_monster_runtime@
        },
        after.rollerbot_runtime@ == if table == NativeAiClassRuntimeTable::RollerBot {
            before.rollerbot_runtime@.insert(key)
        } else {
            before.rollerbot_runtime@
        },
{
}

/// Retiring a class instance removes it from that very class's table and no
/// other, drops its physics, and drops its navigation unless it is an EQ04 mine.
pub proof fn lemma_class_instance_retired_from_own_table(
    before: NativeAiInstanceRuntimeKeys,
    after: NativeAiInstanceRuntimeKeys,
    table: NativeAiClassRuntimeTable,
    key: u64,
)
    requires
        class_instance_retired(before, after, table, key),
    ensures
        after.eq04_mine_runtime@ == if table == NativeAiClassRuntimeTable::Eq04Mine {
            before.eq04_mine_runtime@.remove(key)
        } else {
            before.eq04_mine_runtime@
        },
        after.minebot_runtime@ == if table == NativeAiClassRuntimeTable::MineBot {
            before.minebot_runtime@.remove(key)
        } else {
            before.minebot_runtime@
        },
        after.dogbot_runtime@ == if table == NativeAiClassRuntimeTable::DogBot {
            before.dogbot_runtime@.remove(key)
        } else {
            before.dogbot_runtime@
        },
        after.test_anim_bot_runtime@ == if table == NativeAiClassRuntimeTable::TestAnimBot {
            before.test_anim_bot_runtime@.remove(key)
        } else {
            before.test_anim_bot_runtime@
        },
        after.standard_monster_runtime@ == if table == NativeAiClassRuntimeTable::StandardMonster {
            before.standard_monster_runtime@.remove(key)
        } else {
            before.standard_monster_runtime@
        },
        after.rollerbot_runtime@ == if table == NativeAiClassRuntimeTable::RollerBot {
            before.rollerbot_runtime@.remove(key)
        } else {
            before.rollerbot_runtime@
        },
        after.monster_physics@ == before.monster_physics@.remove(key),
        after.monster_navigation@ == if table == NativeAiClassRuntimeTable::Eq04Mine {
            before.monster_navigation@
        } else {
            before.monster_navigation@.remove(key)
        },
        after.hit_reactions@ == before.hit_reactions@,
{
}

/// A retired instance has no class runtime left, so the next setup of it takes
/// a fresh setup draw.
pub proof fn lemma_retired_instance_needs_fresh_setup(
    before: NativeAiInstanceRuntimeKeys,
    after: NativeAiInstanceRuntimeKeys,
    table: NativeAiClassRuntimeTable,
    key: u64,
)
    requires
        class_instance_retired(before, after, table, key),
    ensures
        !class_table_keys(after, table).contains(key),
        !after.monster_physics@.contains(key),
{
}

/// Removing nothing leaves every table as it is.
pub proof fn lemma_instance_keys_removed_none(keys: NativeAiInstanceRuntimeKeys)
    ensures
        instance_keys_removed(keys, keys, Set::<u64>::empty()),
{
    assert(keys.hit_reactions@.difference(Set::empty()) =~= keys.hit_reactions@);
    assert(keys.last_hit_source_yaw@.difference(Set::empty()) =~= keys.last_hit_source_yaw@);
    assert(keys.fatal_runtime@.difference(Set::empty()) =~= keys.fatal_runtime@);
    assert(keys.eq04_mine_runtime@.difference(Set::empty()) =~= keys.eq04_mine_runtime@);
    assert(keys.minebot_runtime@.difference(Set::empty()) =~= keys.minebot_runtime@);
    assert(keys.dogbot_runtime@.difference(Set::empty()) =~= keys.dogbot_runtime@);
    assert(keys.test_anim_bot_runtime@.difference(Set::empty()) =~= keys.test_anim_bot_runtime@);
    assert(keys.standard_monster_runtime@.difference(Set::empty())
        =~= keys.standard_monster_runtime@);
    assert(keys.rollerbot_runtime@.difference(Set::empty()) =~= keys.rollerbot_runtime@);
    assert(keys.monster_navigation@.difference(Set::empty()) =~= keys.monster_navigation@);
    assert(keys.monster_physics@.difference(Set::empty()) =~= keys.monster_physics@);
}

impl NativeAiInstanceRuntimeKeys {
    /// Drops every per-instance entry of `key`.
    pub fn remove_instance(&mut self, key: u64)
        ensures
            instance_keys_removed(*old(self), *final(self), set![key]),
    {
        let _ = fx_set_remove(&mut self.hit_reactions, key);
        let _ = fx_set_remove(&mut self.last_hit_source_yaw, key);
        let _ = fx_set_remove(&mut self.fatal_runtime, key);
        let _ = fx_set_remove(&mut self.eq04_mine_runtime, key);
        let _ = fx_set_remove(&mut self.minebot_runtime, key);
        let _ = fx_set_remove(&mut self.dogbot_runtime, key);
        let _ = fx_set_remove(&mut self.test_anim_bot_runtime, key);
        let _ = fx_set_remove(&mut self.standard_monster_runtime, key);
        let _ = fx_set_remove(&mut self.rollerbot_runtime, key);
        let _ = fx_set_remove(&mut self.monster_navigation, key);
        let _ = fx_set_remove(&mut self.monster_physics, key);
        proof {
            let s = set![key];
            assert(old(self).hit_reactions@.remove(key) =~= old(self).hit_reactions@.difference(s));
            assert(old(self).last_hit_source_yaw@.remove(key) =~= old(self).last_hit_source_yaw@.difference(s));
            assert(old(self).fatal_runtime@.remove(key) =~= old(self).fatal_runtime@.difference(s));
            assert(old(self).eq04_mine_runtime@.remove(key) =~= old(self).eq04_mine_runtime@.difference(s));
            assert(old(self).minebot_runtime@.remove(key) =~= old(self).minebot_runtime@.difference(s));
            assert(old(self).dogbot_runtime@.remove(key) =~= old(self).dogbot_runtime@.difference(s));
            assert(old(self).test_anim_bot_runtime@.remove(key) =~= old(self).test_anim_bot_runtime@.difference(s));
            assert(old(self).standard_monster_runtime@.remove(key) =~= old(self).standard_monster_runtime@.difference(s));
            assert(old(self).rollerbot_runtime@.remove(key) =~= old(self).rollerbot_runtime@.difference(s));
            assert(old(self).monster_navigation@.remove(key) =~= old(self).monster_navigation@.difference(s));
            assert(old(self).monster_physics@.remove(key) =~= old(self).monster_physics@.difference(s));
        }
    }
}


/// Whether the frame keeps no per-instance entry at all.
pub open spec fn no_instance_entries(keys: NativeAiInstanceRuntimeKeys) -> bool {
    &&& keys.hit_reactions@ == Set::<u64>::empty()
    &&& keys.last_hit_source_yaw@ == Set::<u64>::empty()
    &&& keys.fatal_runtime@ == Set::<u64>::empty()
    &&& keys.eq04_mine_runtime@ == Set::<u64>::empty()
    &&& keys.minebot_runtime@ == Set::<u64>::empty()
    &&& keys.dogbot_runtime@ == Set::<u64>::empty()
    &&& keys.test_anim_bot_runtime@ == Set::<u64>::empty()
    &&& keys.standard_monster_runtime@ == Set::<u64>::empty()
    &&& keys.rollerbot_runtime@ == Set::<u64>::empty()
    &&& keys.monster_navigation@ == Set::<u64>::empty()
    &&& keys.monster_physics@ == Set::<u64>::empty()
}

/// The per-class runtime tables whose hosts share the instance bookkeeping.
#[derive(Clone, Copy, Debug, PartialEq, Eq, Structural)]
pub enum NativeAiClassRuntimeTable {
    Eq04Mine,
    MineBot,
    DogBot,
    TestAnimBot,
    StandardMonster,
    RollerBot,
}

/// The keys of `table`.
pub open spec fn class_table_keys(keys: NativeAiInstanceRuntimeKeys, table: NativeAiClassRuntimeTable) -> Set<u64> {
    match table {
        NativeAiClassRuntimeTable::Eq04Mine => keys.eq04_mine_runtime@,
        NativeAiClassRuntimeTable::MineBot => keys.minebot_runtime@,
        NativeAiClassRuntimeTable::DogBot => keys.dogbot_runtime@,
        NativeAiClassRuntimeTable::TestAnimBot => keys.test_anim_bot_runtime@,
        NativeAiClassRuntimeTable::StandardMonster => keys.standard_monster_runtime@,
        NativeAiClassRuntimeTable::RollerBot => keys.rollerbot_runtime@,
    }
}

/// Whether the class's host keeps navigation state (the EQ04 mine keeps none).
pub open spec fn class_uses_navigation(table: NativeAiClassRuntimeTable) -> bool {
    table != NativeAiClassRuntimeTable::Eq04Mine
}

/// Every class table other than `table`, and the hit-reaction and fatal
/// tables, are the same in `before` and `after`.
pub open spec fn other_tables_unchanged(
    before: NativeAiInstanceRuntimeKeys,
    after: NativeAiInstanceRuntimeKeys,
    table: NativeAiClassRuntimeTable,
) -> bool {
    &&& after.hit_reactions@ == before.hit_reactions@
    &&& after.last_hit_source_yaw@ == before.last_hit_source_yaw@
    &&& after.fatal_runtime@ == before.fatal_runtime@
    &&& table != NativeAiClassRuntimeTable::Eq04Mine ==> after.eq04_mine_runtime@
        == before.eq04_mine_runtime@
    &&& table != NativeAiClassRuntimeTable::MineBot ==> after.minebot_runtime@
        == before.minebot_runtime@
    &&& table != NativeAiClassRuntimeTable::DogBot ==> after.dogbot_runtime@
        == before.dogbot_runtime@
    &&& table != NativeAiClassRuntimeTable::TestAnimBot ==> after.test_anim_bot_runtime@
        == before.test_anim_bot_runtime@
    &&& table != NativeAiClassRuntimeTable::StandardMonster ==> after.standard_monster_runtime@
        == before.standard_monster_runtime@
    &&& table != NativeAiClassRuntimeTable::RollerBot ==> after.rollerbot_runtime@
        == before.rollerbot_runtime@
}

/// `after` is `before` with the instance `key` of `table` retired: its class
/// runtime, its navigation state (for classes that keep one) and its physics
/// gone, every other entry in place.
pub open spec fn class_instance_retired(
    before: NativeAiInstanceRuntimeKeys,
    after: NativeAiInstanceRuntimeKeys,
    table: NativeAiClassRuntimeTable,
    key: u64,
) -> bool {
    &&& class_table_keys(after, table) == class_table_keys(before, table).remove(key)
    &&& other_tables_unchanged(before, after, table)
    &&& after.monster_navigation@ == if class_uses_navigation(table) {
        before.monster_navigation@.remove(key)
    } else {
        before.monster_navigation@
    }
    &&& after.monster_physics@ == before.monster_physics@.remove(key)
}

/// `after`'s tables are `before`'s with a runtime for `key` added to `table`.
pub open spec fn class_instance_added(
    before: NativeAiInstanceRuntimeKeys,
    after: NativeAiInstanceRuntimeKeys,
    table: NativeAiClassRuntimeTable,
    key: u64,
) -> bool {
    &&& class_table_keys(after, table) == class_table_keys(before, table).insert(key)
    &&& other_tables_unchanged(before, after, table)
    &&& after.monster_navigation == before.monster_navigation
    &&& after.monster_physics == before.monster_physics
}

/// The class hosts that also drive sweeper-spawned (dynamic) instances.
#[derive(Clone, Copy, Debug, PartialEq, Eq, Structural)]
pub enum NativeAiDynamicHostTable {
    StandardMonster,
    RollerBot,
}

/// The class table of a dynamic-instance host.
pub open spec fn dynamic_host_class_table(table: NativeAiDynamicHostTable) -> NativeAiClassRuntimeTable {
    match table {
        NativeAiDynamicHostTable::StandardMonster => NativeAiClassRuntimeTable::StandardMonster,
        NativeAiDynamicHostTable::RollerBot => NativeAiClassRuntimeTable::RollerBot,
    }
}

/// Whether a dynamic-host entry for `key` survives the host's pass: every
/// serialized key does, a dynamic key of the map only while its instance lives.
pub open spec fn dynamic_entry_retained(map_dynamic_keys: Set<u64>, live_dynamic_keys: Set<u64>, key: u64) -> bool {
    !map_dynamic_keys.contains(key) || live_dynamic_keys.contains(key)
}

/// Keeps the keys of `set` that `dynamic_entry_retained` keeps.
fn retain_live_dynamic_keys(
    set: &mut FxHashSet<u64>,
    map_dynamic_keys: &FxHashSet<u64>,
    live_dynamic_keys: &FxHashSet<u64>,
)
    ensures
        final(set)@ == old(set)@.filter(
            |key: u64| dynamic_entry_retained(map_dynamic_keys@, live_dynamic_keys@, key),
        ),
{
    let keys = fx_set_drain(set);
    let ghost keep = |key: u64| dynamic_entry_retained(map_dynamic_keys@, live_dynamic_keys@, key);
    let mut index: usize = 0;
    proof {
        assert(keys@.take(0).to_set().filter(keep) =~= Set::<u64>::empty());
    }
    while index < keys.len()
        invariant
            index <= keys@.len(),
            set@ == keys@.take(index as int).to_set().filter(keep),
            keep == (|key: u64| dynamic_entry_retained(map_dynamic_keys@, live_dynamic_keys@, key)),
        decreases keys@.len() - index,
    {
        let key = keys[index];
        if !fx_set_contains(map_dynamic_keys, key) || fx_set_contains(live_dynamic_keys, key) {
            let _ = fx_set_insert(set, key);
        }
        proof {
            assert(keys@.take(index + 1) =~= keys@.take(index as int).push(key));
            keys@.take(index as int).lemma_push_to_set_commute(key);
            assert(set@ =~= keys@.take(index + 1).to_set().filter(keep));
        }
        index += 1;
    }
    proof {
        assert(keys@.take(keys@.len() as int) =~= keys@);
    }
}

impl NativeAiInstanceRuntimeKeys {
    /// End of a dynamic-instance host's pass: its class runtimes and navigation
    /// states keep every serialized key and only those dynamic keys of the map
    /// whose instances are still live.
    pub fn retain_live_dynamic_instances(
        &mut self,
        table: NativeAiDynamicHostTable,
        map_dynamic_keys: &FxHashSet<u64>,
        live_dynamic_keys: &FxHashSet<u64>,
    )
        ensures
            class_table_keys(*final(self), dynamic_host_class_table(table)) == class_table_keys(
                *old(self),
                dynamic_host_class_table(table),
            ).filter(|key: u64| dynamic_entry_retained(map_dynamic_keys@, live_dynamic_keys@, key)),
            final(self).monster_navigation@ == old(self).monster_navigation@.filter(
                |key: u64| dynamic_entry_retained(map_dynamic_keys@, live_dynamic_keys@, key),
            ),
            other_tables_unchanged(*old(self), *final(self), dynamic_host_class_table(table)),
            final(self).monster_physics == old(self).monster_physics,
    {
        match table {
            NativeAiDynamicHostTable::StandardMonster => {
                retain_live_dynamic_keys(
                    &mut self.standard_monster_runtime,
                    map_dynamic_keys,
                    live_dynamic_keys,
                );
            },
            NativeAiDynamicHostTable::RollerBot => {
                retain_live_dynamic_keys(&mut self.rollerbot_runtime, map_dynamic_keys, live_dynamic_keys);
            },
        }
        retain_live_dynamic_keys(&mut self.monster_navigation, map_dynamic_keys, live_dynamic_keys);
    }

    fn remove_class_key(&mut self, table: NativeAiClassRuntimeTable, key: u64)
        ensures
            class_table_keys(*final(self), table) == class_table_keys(*old(self), table).remove(key),
            other_tables_unchanged(*old(self), *final(self), table),
            final(self).monster_navigation == old(self).monster_navigation,
            final(self).monster_physics == old(self).monster_physics,
    {
        match table {
            NativeAiClassRuntimeTable::Eq04Mine => {
                let _ = fx_set_remove(&mut self.eq04_mine_runtime, key);
            },
            NativeAiClassRuntimeTable::MineBot => {
                let _ = fx_set_remove(&mut self.minebot_runtime, key);
            },
            NativeAiClassRuntimeTable::DogBot => {
                let _ = fx_set_remove(&mut self.dogbot_runtime, key);
            },
            NativeAiClassRuntimeTable::TestAnimBot => {
                let _ = fx_set_remove(&mut self.test_anim_bot_runtime, key);
            },
            NativeAiClassRuntimeTable::StandardMonster => {
                let _ = fx_set_remove(&mut self.standard_monster_runtime, key);
            },
            NativeAiClassRuntimeTable::RollerBot => {
                let _ = fx_set_remove(&mut self.rollerbot_runtime, key);
            },
        }
    }

    fn insert_class_key(&mut self, table: NativeAiClassRuntimeTable, key: u64)
        ensures
            class_table_keys(*final(self), table) == class_table_keys(*old(self), table).insert(key),
            other_tables_unchanged(*old(self), *final(self), table),
            final(self).monster_navigation == old(self).monster_navigation,
            final(self).monster_physics == old(self).monster_physics,
    {
        match table {
            NativeAiClassRuntimeTable::Eq04Mine => {
                let _ = fx_set_insert(&mut self.eq04_mine_runtime, key);
            },
            NativeAiClassRuntimeTable::MineBot => {
                let _ = fx_set_insert(&mut self.minebot_runtime, key);
            },
            NativeAiClassRuntimeTable::DogBot => {
                let _ = fx_set_insert(&mut self.dogbot_runtime, key);
            },
            NativeAiClassRuntimeTable::TestAnimBot => {
                let _ = fx_set_insert(&mut self.test_anim_bot_runtime, key);
            },
            NativeAiClassRuntimeTable::StandardMonster => {
                let _ = fx_set_insert(&mut self.standard_monster_runtime, key);
            },
            NativeAiClassRuntimeTable::RollerBot => {
                let _ = fx_set_insert(&mut self.rollerbot_runtime, key);
            },
        }
    }

    /// Whether the class host already holds a runtime for `key`.
    pub fn has_class_instance(&self, table: NativeAiClassRuntimeTable, key: u64) -> (present: bool)
        ensures
            present == class_table_keys(*self, table).contains(key),
    {
        match table {
            NativeAiClassRuntimeTable::Eq04Mine => fx_set_contains(&self.eq04_mine_runtime, key),
            NativeAiClassRuntimeTable::MineBot => fx_set_contains(&self.minebot_runtime, key),
            NativeAiClassRuntimeTable::DogBot => fx_set_contains(&self.dogbot_runtime, key),
            NativeAiClassRuntimeTable::TestAnimBot => fx_set_contains(&self.test_anim_bot_runtime, key),
            NativeAiClassRuntimeTable::StandardMonster => fx_set_contains(&self.standard_monster_runtime, key),
            NativeAiClassRuntimeTable::RollerBot => fx_set_contains(&self.rollerbot_runtime, key),
        }
    }

    /// Drops a class instance whose XItem is gone or has no body: its class
    /// runtime, its navigation state (for classes that keep one) and its
    /// physics; nothing else.
    pub fn retire_class_instance(&mut self, table: NativeAiClassRuntimeTable, key: u64)
        ensures
            class_instance_retired(*old(self), *final(self), table, key),
    {
        self.remove_class_key(table, key);
        if table != NativeAiClassRuntimeTable::Eq04Mine {
            let _ = fx_set_remove(&mut self.monster_navigation, key);
        }
        let _ = fx_set_remove(&mut self.monster_physics, key);
    }

    /// Records that the class host created a runtime for `key`.
    pub fn insert_class_instance(&mut self, table: NativeAiClassRuntimeTable, key: u64)
        ensures
            class_table_keys(*final(self), table) == class_table_keys(*old(self), table).insert(key),
            other_tables_unchanged(*old(self), *final(self), table),
            final(self).monster_navigation == old(self).monster_navigation,
            final(self).monster_physics == old(self).monster_physics,
    {
        self.insert_class_key(table, key);
    }
}

impl Default for NativeAiInstanceRuntimeKeys {
    /// No per-instance entry anywhere.
    fn default() -> (keys: Self)
        ensures
            no_instance_entries(keys),
    {
        NativeAiInstanceRuntimeKeys {
            hit_reactions: FxHashSet::default(),
            last_hit_source_yaw: FxHashSet::default(),
            fatal_runtime: FxHashSet::default(),
            eq04_mine_runtime: FxHashSet::default(),
            minebot_runtime: FxHashSet::default(),
            dogbot_runtime: FxHashSet::default(),
            test_anim_bot_runtime: FxHashSet::default(),
            standard_monster_runtime: FxHashSet::default(),
            rollerbot_runtime: FxHashSet::default(),
            monster_navigation: FxHashSet::default(),
            monster_physics: FxHashSet::default(),
        }
    }
}

/// A serialized AI trigger's XItem lifecycle, reduced to whether its XItem exists.
#[derive(Clone, Copy, Debug, PartialEq, Eq, Structural)]
pub struct RuntimeScriptTriggerLifecycleState {
    pub xitem_exists: bool,
}

impl RuntimeScriptTriggerLifecycleState {
    /// The zone cleanup after a failed (destroyed) XItem: the XItem no longer exists.
    pub fn cleanup_zone_failed(&mut self)
        ensures
            !final(self).xitem_exists,
    {
        self.xitem_exists = false;
    }
}

} // verus!
