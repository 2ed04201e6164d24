//! The standard Monster host: its per-class configuration and the retained
//! HitCheck records of each live Monster.

use vstd::prelude::*;

use crate::handler_class::{has_standard_monster_config, RobotsAiHandlerClass};

verus! {

/// The behavior configuration of a class driven by the standard Monster host,
/// reduced to the class it was built for.
#[derive(Clone, Copy, Debug, PartialEq, Eq, Structural)]
pub struct RobotsStandardMonsterBehaviorConfig {
    pub handler_class: RobotsAiHandlerClass,
}

/// How many HitCheck records a standard Monster of `class` retains (Handler+0x618):
/// Monster_2Rockets raises it to two; every other class is taken to keep the
/// common capacity of one.
pub open spec fn hit_query_capacity_of(class: RobotsAiHandlerClass) -> usize {
    if class == RobotsAiHandlerClass::Monster2Rockets {
        2
    } else {
        1
    }
}

impl RobotsStandardMonsterBehaviorConfig {
    /// The standard Monster configuration of `class`, for exactly the classes
    /// that the standard Monster host drives.
    pub fn for_handler_class(class: RobotsAiHandlerClass) -> (config: Option<Self>)
        ensures
            config is Some <==> has_standard_monster_config(class),
            config matches Some(c) ==> c.handler_class == class,
    {
        match class {
            RobotsAiHandlerClass::Monster2Rockets
            | RobotsAiHandlerClass::ConstructionBot
            | RobotsAiHandlerClass::Eb07MineBot
            | RobotsAiHandlerClass::Eb11MagnaBot
            | RobotsAiHandlerClass::Eb12EvilBot
            | RobotsAiHandlerClass::Eb13KnightBot
            | RobotsAiHandlerClass::Eb14Minion
            | RobotsAiHandlerClass::Eb15Launcher
            | RobotsAiHandlerClass::Eb16KnuckleBot
            | RobotsAiHandlerClass::Ef01Mine
            | RobotsAiHandlerClass::Ef03EvilBot
            | RobotsAiHandlerClass::Eq03Spider
            | RobotsAiHandlerClass::Ew08Flambe
            | RobotsAiHandlerClass::Ew08FlambeLarge
            | RobotsAiHandlerClass::Ew09Armoured
            | RobotsAiHandlerClass::Ew10Minion
            | RobotsAiHandlerClass::Ew11FatBot
            | RobotsAiHandlerClass::GuardBot
            | RobotsAiHandlerClass::JailBotLarge
            | RobotsAiHandlerClass::JailBotNormal
            | RobotsAiHandlerClass::MalfBot
            | RobotsAiHandlerClass::SawBot
            | RobotsAiHandlerClass::SecurityBot
            | RobotsAiHandlerClass::ShieldBot
            | RobotsAiHandlerClass::ShuntBot
            | RobotsAiHandlerClass::ShuntBotBoss
            | RobotsAiHandlerClass::SpikeBot
            | RobotsAiHandlerClass::Sweeper
            | RobotsAiHandlerClass::ThiefBot => {
                Some(RobotsStandardMonsterBehaviorConfig { handler_class: class })
            },
            _ => None,
        }
    }

    /// How many HitCheck records the configured class retains.
    pub fn hit_query_capacity(&self) -> (capacity: usize)
        ensures
            capacity == hit_query_capacity_of(self.handler_class),
    {
        if self.handler_class == RobotsAiHandlerClass::Monster2Rockets {
            2
        } else {
            1
        }
    }
}

/// One retained HitCheck record: the query state and the AnimMode that issued it.
#[derive(Clone, Copy, Debug, PartialEq, Eq)]
pub struct NativeStandardMonsterHitQueryRuntime<Q> {
    pub query: Q,
    pub source_anim_mode: u32,
}

/// The behavior nodes a standard Monster selector can run.
#[derive(Clone, Copy, Debug, PartialEq, Eq, Structural)]
pub enum RobotsStandardMonsterBehaviorWinner {
    AttackGroup,
    CircleTarget,
    CommonHit,
    DirectTurnThenAttack,
    ElectroHit,
    FleeNavMesh,
    FollowFlyingPath,
    FollowNetworkPath,
    MagneticHit,
    Patrol,
    PatrolNavMesh2,
    PeriodicIdle,
    ProximityIdleAttack,
    PursueNavMesh,
    ScrambledHit,
    ShuntAttack,
    SpikeAttack,
    StalkNavMesh,
    TargetFacingTurn,
}

/// The plain-valued state of one live standard Monster.
pub struct NativeStandardMonsterRuntime<Q> {
    pub handler_class: RobotsAiHandlerClass,
    /// Whether the builder attached an EB13 AttachAnimator entry (Handler+0x4FC[0]).
    pub knightbot_animator_attached: bool,
    /// Handler+0x45C, written by the common `SET_SCRIPT_VALUE` event.
    pub handler_script_value_45c: u8,
    /// Common Handler+0x4B8/+0x4BC retained HitCheck records, oldest first.
    pub hit_queries: Vec<NativeStandardMonsterHitQueryRuntime<Q>>,
    /// Pickup charges left to drop while magnetically held, fixed on first entry.
    pub magnetic_drop_charge_count: Option<u8>,
    /// The behavior node the selector last entered.
    pub active_node: Option<RobotsStandardMonsterBehaviorWinner>,
}

/// The retained records after registering `entry` with room for `capacity`:
/// nothing changes without room; at capacity the oldest record is erased before
/// the new one is appended.
pub open spec fn hit_queries_after_register<Q>(
    queries: Seq<NativeStandardMonsterHitQueryRuntime<Q>>,
    entry: NativeStandardMonsterHitQueryRuntime<Q>,
    capacity: usize,
) -> Seq<NativeStandardMonsterHitQueryRuntime<Q>> {
    if capacity == 0 {
        queries
    } else if queries.len() >= capacity {
        queries.drop_first().push(entry)
    } else {
        queries.push(entry)
    }
}

impl<Q> NativeStandardMonsterRuntime<Q> {
    /// A fresh Monster of the configured class: no active node, no retained
    /// HitCheck record, script value 0, no drop charge count yet, and a KnightBot
    /// animator exactly for EB13 KnightBots.
    pub fn new(config: RobotsStandardMonsterBehaviorConfig) -> (runtime: Self)
        ensures
            runtime.handler_class == config.handler_class,
            runtime.knightbot_animator_attached <==> config.handler_class
                == RobotsAiHandlerClass::Eb13KnightBot,
            runtime.handler_script_value_45c == 0,
            runtime.hit_queries@ == Seq::<NativeStandardMonsterHitQueryRuntime<Q>>::empty(),
            runtime.magnetic_drop_charge_count == None::<u8>,
            runtime.active_node == None::<RobotsStandardMonsterBehaviorWinner>,
    {
        NativeStandardMonsterRuntime {
            handler_class: config.handler_class,
            knightbot_animator_attached: config.handler_class
                == RobotsAiHandlerClass::Eb13KnightBot,
            handler_script_value_45c: 0,
            hit_queries: Vec::new(),
            magnetic_drop_charge_count: None,
            active_node: None,
        }
    }

    /// Forgets every retained HitCheck record.
    pub fn clear_hit_queries(&mut self)
        ensures
            final(self).handler_class == old(self).handler_class,
            final(self).knightbot_animator_attached == old(self).knightbot_animator_attached,
            final(self).handler_script_value_45c == old(self).handler_script_value_45c,
            final(self).hit_queries@ == Seq::<NativeStandardMonsterHitQueryRuntime<Q>>::empty(),
            final(self).magnetic_drop_charge_count == old(self).magnetic_drop_charge_count,
            final(self).active_node == old(self).active_node,
    {
        self.hit_queries.clear();
    }

    /// Native common HIT_CHECK registration: when the retained count is already
    /// at `capacity`, erase exactly the oldest record before appending the new
    /// query.
    pub fn register_hit_query(&mut self, entry: NativeStandardMonsterHitQueryRuntime<Q>, capacity: usize)
        ensures
            final(self).handler_class == old(self).handler_class,
            final(self).knightbot_animator_attached == old(self).knightbot_animator_attached,
            final(self).handler_script_value_45c == old(self).handler_script_value_45c,
            final(self).magnetic_drop_charge_count == old(self).magnetic_drop_charge_count,
            final(self).active_node == old(self).active_node,
            final(self).hit_queries@ == hit_queries_after_register(
                old(self).hit_queries@,
                entry,
                capacity,
            ),
    {
        if capacity == 0 {
            return;
        }
        if self.hit_queries.len() >= capacity {
            self.hit_queries.remove(0);
        }
        self.hit_queries.push(entry);
    }
}

/// Registering into a lane that holds at most `capacity` records keeps it within
/// `capacity`, makes the new entry the newest record, and keeps the newest of
/// the older records in order.
pub proof fn lemma_hit_query_lane_keeps_newest<Q>(
    queries: Seq<NativeStandardMonsterHitQueryRuntime<Q>>,
    entry: NativeStandardMonsterHitQueryRuntime<Q>,
    capacity: usize,
)
    requires
        capacity > 0,
        queries.len() <= capacity,
    ensures
        hit_queries_after_register(queries, entry, capacity).len() <= capacity,
        hit_queries_after_register(queries, entry, capacity).last() == entry,
        hit_queries_after_register(queries, entry, capacity) == (queries.push(entry)).subrange(
            queries.len() + 1 - hit_queries_after_register(queries, entry, capacity).len(),
            queries.len() + 1int,
        ),
{
    let after = hit_queries_after_register(queries, entry, capacity);
    let all = queries.push(entry);
    if queries.len() >= capacity {
        assert(after =~= all.subrange(1, queries.len() + 1int));
    } else {
        assert(after =~= all.subrange(0, queries.len() + 1int));
    }
}

} // verus!

verus! {

/// Only Monster_2Rockets retains two HitCheck records: registering two queries
/// into an empty lane keeps both for it, while every other standard Monster
/// class keeps only the newer one.
pub proof fn lemma_only_monster_2rockets_keeps_two_hit_checks<Q>(
    class: RobotsAiHandlerClass,
    first: NativeStandardMonsterHitQueryRuntime<Q>,
    second: NativeStandardMonsterHitQueryRuntime<Q>,
)
    requires
        has_standard_monster_config(class),
    ensures
        ({
            let capacity = hit_query_capacity_of(class);
            let after_two = hit_queries_after_register(
                hit_queries_after_register(Seq::empty(), first, capacity),
                second,
                capacity,
            );
            &&& class == RobotsAiHandlerClass::Monster2Rockets ==> capacity == 2 && after_two
                == seq![first, second]
            &&& class != RobotsAiHandlerClass::Monster2Rockets ==> capacity == 1 && after_two
                == seq![second]
        }),
{
    let capacity = hit_query_capacity_of(class);
    let one = hit_queries_after_register(Seq::empty(), first, capacity);
    assert(one =~= seq![first]);
    if class == RobotsAiHandlerClass::Monster2Rockets {
        assert(hit_queries_after_register(one, second, capacity) =~= seq![first, second]);
    } else {
        assert(hit_queries_after_register(one, second, capacity) =~= seq![second]);
    }
}

} // verus!
