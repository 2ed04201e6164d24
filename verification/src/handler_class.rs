//! Concrete AI handler classes and the production host family that owns each.

use vstd::prelude::*;

verus! {

/// Every recovered concrete AI handler class of the shipped game.
#[derive(Clone, Copy, Debug, PartialEq, Eq, Structural)]
pub enum RobotsAiHandlerClass {
    MonsterBase,
    Monster2Rockets,
    ConstructionBot,
    DogBot,
    Eb07MineBot,
    Eb10RollerBot,
    Eb11MagnaBot,
    Eb12EvilBot,
    Eb13KnightBot,
    Eb14Minion,
    Eb15Launcher,
    Eb16KnuckleBot,
    Ef01Mine,
    Ef03EvilBot,
    Em07PiranhaBot,
    Ep02Turret,
    Ep04Turret,
    Ep05Turret,
    Ep06Turret,
    Eq02MineBot,
    Eq03Spider,
    Eq04Mine,
    Ew07Dodgem,
    Ew08Flambe,
    Ew08FlambeLarge,
    Ew09Armoured,
    Ew10Minion,
    Ew11FatBot,
    GuardBot,
    JailBotLarge,
    JailBotNormal,
    MalfBot,
    SawBot,
    SecurityBot,
    ShieldBot,
    ShuntBot,
    ShuntBotBoss,
    SpikeBot,
    SpinTop,
    Sweeper,
    TestAnimBot,
    ThiefBot,
    TurretBot,
    Npc,
    NpcFender,
}

/// The runtime host family that drives a handler class in production.
#[derive(Clone, Copy, Debug, PartialEq, Eq, Structural)]
pub enum NativeAiProductionHostKind {
    BaseMonster,
    StandardMonster,
    DedicatedAi,
    NpcBehavior,
}

/// Classes that carry a standard Monster behavior configuration.
pub open spec fn has_standard_monster_config(class: RobotsAiHandlerClass) -> bool {
    match class {
        RobotsAiHandlerClass::Monster2Rockets
        | RobotsAiHandlerClass::ConstructionBot
        | RobotsAiHandlerClass::Eb07MineBot
        | RobotsAiHandlerClass::Eb11MagnaBot
        | RobotsAiHandlerClass::Eb12EvilBot
        | RobotsAiHandlerClass::Eb13KnightBot
        | RobotsAiHandlerClass::Eb14Minion
        | RobotsAiHandlerClass::Eb15Launcher
        | RobotsAiHandlerClass::Eb16KnuckleBot
        | RobotsAiHandlerClass::Ef01Mine
        | RobotsAiHandlerClass::Ef03EvilBot
        | RobotsAiHandlerClass::Eq03Spider
        | RobotsAiHandlerClass::Ew08Flambe
        | RobotsAiHandlerClass::Ew08FlambeLarge
        | RobotsAiHandlerClass::Ew09Armoured
        | RobotsAiHandlerClass::Ew10Minion
        | RobotsAiHandlerClass::Ew11FatBot
        | RobotsAiHandlerClass::GuardBot
        | RobotsAiHandlerClass::JailBotLarge
        | RobotsAiHandlerClass::JailBotNormal
        | RobotsAiHandlerClass::MalfBot
        | RobotsAiHandlerClass::SawBot
        | RobotsAiHandlerClass::SecurityBot
        | RobotsAiHandlerClass::ShieldBot
        | RobotsAiHandlerClass::ShuntBot
        | RobotsAiHandlerClass::ShuntBotBoss
        | RobotsAiHandlerClass::SpikeBot
        | RobotsAiHandlerClass::Sweeper
        | RobotsAiHandlerClass::ThiefBot => true,
        _ => false,
    }
}

/// Classes that only run the base Monster idle behavior.
pub open spec fn is_base_monster_idle_class(class: RobotsAiHandlerClass) -> bool {
    class == RobotsAiHandlerClass::MonsterBase
}

/// Classes driven by a dedicated per-class AI runtime.
pub open spec fn has_dedicated_ai_runtime(class: RobotsAiHandlerClass) -> bool {
    match class {
        RobotsAiHandlerClass::DogBot
        | RobotsAiHandlerClass::Eb10RollerBot
        | RobotsAiHandlerClass::Ep02Turret
        | RobotsAiHandlerClass::Ep04Turret
        | RobotsAiHandlerClass::Ep05Turret
        | RobotsAiHandlerClass::Ep06Turret
        | RobotsAiHandlerClass::Eq02MineBot
        | RobotsAiHandlerClass::Eq04Mine
        | RobotsAiHandlerClass::Ew07Dodgem
        | RobotsAiHandlerClass::Em07PiranhaBot
        | RobotsAiHandlerClass::SpinTop
        | RobotsAiHandlerClass::TestAnimBot
        | RobotsAiHandlerClass::TurretBot => true,
        _ => false,
    }
}

/// Classes driven by the NPC behavior host outside the AI runtime.
pub open spec fn is_npc_behavior_class(class: RobotsAiHandlerClass) -> bool {
    class == RobotsAiHandlerClass::Npc || class == RobotsAiHandlerClass::NpcFender
}

/// The family that owns `class`, read from the four family memberships.
pub open spec fn production_host_kind(class: RobotsAiHandlerClass) -> NativeAiProductionHostKind {
    if has_standard_monster_config(class) {
        NativeAiProductionHostKind::StandardMonster
    } else if is_base_monster_idle_class(class) {
        NativeAiProductionHostKind::BaseMonster
    } else if has_dedicated_ai_runtime(class) {
        NativeAiProductionHostKind::DedicatedAi
    } else {
        NativeAiProductionHostKind::NpcBehavior
    }
}

/// Whether `class` only runs the base Monster idle behavior.
pub fn uses_base_monster_idle_only(class: RobotsAiHandlerClass) -> (base_only: bool)
    ensures
        base_only == is_base_monster_idle_class(class),
{
    class == RobotsAiHandlerClass::MonsterBase
}

/// Exhaustive production ownership census for every recovered concrete AI handler.
pub fn native_ai_production_host_kind(handler_class: RobotsAiHandlerClass) -> (kind:
    NativeAiProductionHostKind)
    ensures
        kind == production_host_kind(handler_class),
{
    match handler_class {
        RobotsAiHandlerClass::MonsterBase => NativeAiProductionHostKind::BaseMonster,
        RobotsAiHandlerClass::Monster2Rockets
        | RobotsAiHandlerClass::ConstructionBot
        | RobotsAiHandlerClass::Eb07MineBot
        | RobotsAiHandlerClass::Eb11MagnaBot
        | RobotsAiHandlerClass::Eb12EvilBot
        | RobotsAiHandlerClass::Eb13KnightBot
        | RobotsAiHandlerClass::Eb14Minion
        | RobotsAiHandlerClass::Eb15Launcher
        | RobotsAiHandlerClass::Eb16KnuckleBot
        | RobotsAiHandlerClass::Ef01Mine
        | RobotsAiHandlerClass::Ef03EvilBot
        | RobotsAiHandlerClass::Eq03Spider
        | RobotsAiHandlerClass::Ew08Flambe
        | RobotsAiHandlerClass::Ew08FlambeLarge
        | RobotsAiHandlerClass::Ew09Armoured
        | RobotsAiHandlerClass::Ew10Minion
        | RobotsAiHandlerClass::Ew11FatBot
        | RobotsAiHandlerClass::GuardBot
        | RobotsAiHandlerClass::JailBotLarge
        | RobotsAiHandlerClass::JailBotNormal
        | RobotsAiHandlerClass::MalfBot
        | RobotsAiHandlerClass::SawBot
        | RobotsAiHandlerClass::SecurityBot
        | RobotsAiHandlerClass::ShieldBot
        | RobotsAiHandlerClass::ShuntBot
        | RobotsAiHandlerClass::ShuntBotBoss
        | RobotsAiHandlerClass::SpikeBot
        | RobotsAiHandlerClass::Sweeper
        | RobotsAiHandlerClass::ThiefBot => NativeAiProductionHostKind::StandardMonster,
        RobotsAiHandlerClass::DogBot
        | RobotsAiHandlerClass::Eb10RollerBot
        | RobotsAiHandlerClass::Em07PiranhaBot
        | RobotsAiHandlerClass::Ep02Turret
        | RobotsAiHandlerClass::Ep04Turret
        | RobotsAiHandlerClass::Ep05Turret
        | RobotsAiHandlerClass::Ep06Turret
        | RobotsAiHandlerClass::Eq02MineBot
        | RobotsAiHandlerClass::Eq04Mine
        | RobotsAiHandlerClass::Ew07Dodgem
        | RobotsAiHandlerClass::SpinTop
        | RobotsAiHandlerClass::TestAnimBot
        | RobotsAiHandlerClass::TurretBot => NativeAiProductionHostKind::DedicatedAi,
        RobotsAiHandlerClass::Npc | RobotsAiHandlerClass::NpcFender => {
            NativeAiProductionHostKind::NpcBehavior
        },
    }
}

/// Every handler class belongs to exactly one production host family, and the
/// census names that family.
pub proof fn lemma_handler_class_has_exactly_one_production_host(class: RobotsAiHandlerClass)
    ensures
        (if has_standard_monster_config(class) { 1int } else { 0int }) + (if is_base_monster_idle_class(
            class,
        ) { 1int } else { 0int }) + (if has_dedicated_ai_runtime(class) { 1int } else { 0int }) + (
        if is_npc_behavior_class(class) { 1int } else { 0int }) == 1,
        has_standard_monster_config(class) <==> production_host_kind(class)
            == NativeAiProductionHostKind::StandardMonster,
        is_base_monster_idle_class(class) <==> production_host_kind(class)
            == NativeAiProductionHostKind::BaseMonster,
        has_dedicated_ai_runtime(class) <==> production_host_kind(class)
            == NativeAiProductionHostKind::DedicatedAi,
        is_npc_behavior_class(class) <==> production_host_kind(class)
            == NativeAiProductionHostKind::NpcBehavior,
{
}

/// The character visual a map trigger carries, reduced to what the host reads:
/// the AI handler class it was built for.
#[derive(Clone, Copy, Debug, PartialEq, Eq, Structural)]
pub struct ProcessedCharacterVisual {
    pub handler_class: RobotsAiHandlerClass,
}

/// A map trigger, reduced to its optional character visual.
#[derive(Clone, Copy, Debug, PartialEq, Eq, Structural)]
pub struct ProcessedTrigger {
    pub character_visual: Option<ProcessedCharacterVisual>,
}

/// Whether `trigger` carries a character visual of handler class `class`.
pub open spec fn trigger_has_handler_class(trigger: ProcessedTrigger, class: RobotsAiHandlerClass) -> bool {
    match trigger.character_visual {
        Some(visual) => visual.handler_class == class,
        None => false,
    }
}

fn trigger_is_handler_class(trigger: &ProcessedTrigger, class: RobotsAiHandlerClass) -> (is_class:
    bool)
    ensures
        is_class == trigger_has_handler_class(*trigger, class),
{
    match trigger.character_visual {
        Some(visual) => visual.handler_class == class,
        None => false,
    }
}

/// Whether the trigger hosts an EQ04 mine.
pub fn is_eq04_mine(trigger: &ProcessedTrigger) -> (is_mine: bool)
    ensures
        is_mine == trigger_has_handler_class(*trigger, RobotsAiHandlerClass::Eq04Mine),
{
    trigger_is_handler_class(trigger, RobotsAiHandlerClass::Eq04Mine)
}

/// Whether the trigger hosts an EQ02 MineBot.
pub fn is_eq02_minebot(trigger: &ProcessedTrigger) -> (is_minebot: bool)
    ensures
        is_minebot == trigger_has_handler_class(*trigger, RobotsAiHandlerClass::Eq02MineBot),
{
    trigger_is_handler_class(trigger, RobotsAiHandlerClass::Eq02MineBot)
}

/// Whether the trigger hosts a DogBot.
pub fn is_dogbot(trigger: &ProcessedTrigger) -> (is_dogbot: bool)
    ensures
        is_dogbot == trigger_has_handler_class(*trigger, RobotsAiHandlerClass::DogBot),
{
    trigger_is_handler_class(trigger, RobotsAiHandlerClass::DogBot)
}

/// Whether the trigger hosts an EB10 RollerBot.
pub fn is_rollerbot(trigger: &ProcessedTrigger) -> (is_rollerbot: bool)
    ensures
        is_rollerbot == trigger_has_handler_class(*trigger, RobotsAiHandlerClass::Eb10RollerBot),
{
    trigger_is_handler_class(trigger, RobotsAiHandlerClass::Eb10RollerBot)
}

} // verus!
