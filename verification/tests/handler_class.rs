use runtime_ai::behavior::{
    native_special_ai_solid_contact_requests_death, rollerbot_follow_path_host_priority,
};
use runtime_ai::handler_class::{
    is_dogbot, is_eq02_minebot, is_eq04_mine, is_rollerbot, native_ai_production_host_kind,
    uses_base_monster_idle_only, NativeAiProductionHostKind, ProcessedCharacterVisual,
    ProcessedTrigger, RobotsAiHandlerClass,
};
use runtime_ai::standard_monster::RobotsStandardMonsterBehaviorConfig;
use RobotsAiHandlerClass as C;

#[test]
fn current_shipped_ai_handler_classes_have_exactly_one_production_host_family() {
    const CLASSES: [C; 45] = [
        C::MonsterBase,
        C::Monster2Rockets,
        C::ConstructionBot,
        C::DogBot,
        C::Eb07MineBot,
        C::Eb10RollerBot,
        C::Eb11MagnaBot,
        C::Eb12EvilBot,
        C::Eb13KnightBot,
        C::Eb14Minion,
        C::Eb15Launcher,
        C::Eb16KnuckleBot,
        C::Ef01Mine,
        C::Ef03EvilBot,
        C::Em07PiranhaBot,
        C::Ep02Turret,
        C::Ep04Turret,
        C::Ep05Turret,
        C::Ep06Turret,
        C::Eq02MineBot,
        C::Eq03Spider,
        C::Eq04Mine,
        C::Ew07Dodgem,
        C::Ew08Flambe,
        C::Ew08FlambeLarge,
        C::Ew09Armoured,
        C::Ew10Minion,
        C::Ew11FatBot,
        C::GuardBot,
        C::JailBotLarge,
        C::JailBotNormal,
        C::MalfBot,
        C::SawBot,
        C::SecurityBot,
        C::ShieldBot,
        C::ShuntBot,
        C::ShuntBotBoss,
        C::SpikeBot,
        C::SpinTop,
        C::Sweeper,
        C::TestAnimBot,
        C::ThiefBot,
        C::TurretBot,
        C::Npc,
        C::NpcFender,
    ];

    let specialized = |class: C| {
        matches!(
            class,
            C::DogBot
                | C::Eb10RollerBot
                | C::Ep02Turret
                | C::Ep04Turret
                | C::Ep05Turret
                | C::Ep06Turret
                | C::Eq02MineBot
                | C::Eq04Mine
                | C::Ew07Dodgem
                | C::Em07PiranhaBot
                | C::SpinTop
                | C::TestAnimBot
                | C::TurretBot
        )
    };
    let external = |class: C| matches!(class, C::Npc | C::NpcFender);

    let mut standard_count = 0;
    let mut base_count = 0;
    let mut specialized_count = 0;
    let mut external_count = 0;

    for class in CLASSES {
        let standard = RobotsStandardMonsterBehaviorConfig::for_handler_class(class).is_some();
        let base = uses_base_monster_idle_only(class);
        let special = specialized(class);
        let outside_runtime_ai = external(class);

        let owner_count = u8::from(standard)
            + u8::from(base)
            + u8::from(special)
            + u8::from(outside_runtime_ai);
        let expected_kind = if standard {
            NativeAiProductionHostKind::StandardMonster
        } else if base {
            NativeAiProductionHostKind::BaseMonster
        } else if special {
            NativeAiProductionHostKind::DedicatedAi
        } else {
            NativeAiProductionHostKind::NpcBehavior
        };
        assert_eq!(native_ai_production_host_kind(class), expected_kind);
        assert_eq!(
            owner_count, 1,
            "{class:?} must belong to exactly one production host family"
        );

        standard_count += usize::from(standard);
        base_count += usize::from(base);
        specialized_count += usize::from(special);
        external_count += usize::from(outside_runtime_ai);
    }

    assert_eq!(standard_count, 29);
    assert_eq!(base_count, 1);
    assert_eq!(specialized_count, 13);
    assert_eq!(external_count, 2);
}

#[test]
fn special_ai_solid_contact_requires_real_overlap_and_live_owner() {
    // The player sphere overlaps the mine capsule at the origin and misses the
    // one ten units away; the overlap test's outcome is the third argument.
    let overlapping_mine = true;
    let distant_mine = false;

    assert!(native_special_ai_solid_contact_requests_death(
        RobotsAiHandlerClass::Ef01Mine,
        false,
        overlapping_mine,
    ));
    assert!(!native_special_ai_solid_contact_requests_death(
        RobotsAiHandlerClass::Ef01Mine,
        true,
        overlapping_mine,
    ));
    assert!(!native_special_ai_solid_contact_requests_death(
        RobotsAiHandlerClass::Ef01Mine,
        false,
        distant_mine,
    ));
    assert!(native_special_ai_solid_contact_requests_death(
        RobotsAiHandlerClass::Eq04Mine,
        false,
        overlapping_mine,
    ));
    assert!(!native_special_ai_solid_contact_requests_death(
        RobotsAiHandlerClass::DogBot,
        false,
        overlapping_mine,
    ));
}

#[test]
fn production_host_kind_of_each_family_representative() {
    assert_eq!(
        native_ai_production_host_kind(RobotsAiHandlerClass::MonsterBase),
        NativeAiProductionHostKind::BaseMonster
    );
    assert_eq!(
        native_ai_production_host_kind(RobotsAiHandlerClass::GuardBot),
        NativeAiProductionHostKind::StandardMonster
    );
    assert_eq!(
        native_ai_production_host_kind(RobotsAiHandlerClass::TurretBot),
        NativeAiProductionHostKind::DedicatedAi
    );
    assert_eq!(
        native_ai_production_host_kind(RobotsAiHandlerClass::NpcFender),
        NativeAiProductionHostKind::NpcBehavior
    );
}

#[test]
fn trigger_class_predicates_read_only_the_character_visual() {
    let visual = |handler_class| ProcessedTrigger {
        character_visual: Some(ProcessedCharacterVisual { handler_class }),
    };
    let bare = ProcessedTrigger { character_visual: None };

    assert!(is_eq04_mine(&visual(RobotsAiHandlerClass::Eq04Mine)));
    assert!(!is_eq04_mine(&visual(RobotsAiHandlerClass::Ef01Mine)));
    assert!(!is_eq04_mine(&bare));
    assert!(is_eq02_minebot(&visual(RobotsAiHandlerClass::Eq02MineBot)));
    assert!(!is_eq02_minebot(&visual(RobotsAiHandlerClass::Eb07MineBot)));
    assert!(is_dogbot(&visual(RobotsAiHandlerClass::DogBot)));
    assert!(!is_dogbot(&bare));
    assert!(is_rollerbot(&visual(RobotsAiHandlerClass::Eb10RollerBot)));
    assert!(!is_rollerbot(&visual(RobotsAiHandlerClass::DogBot)));
}

#[test]
fn rollerbot_missing_xpath_disables_only_follow_path_selector_node() {
    // A freshly set-up FollowNetworkPath node reports priority 0x1f.
    let follow_priority = 0x1f;
    assert_eq!(rollerbot_follow_path_host_priority(true, follow_priority), 0x1f);
    assert_eq!(rollerbot_follow_path_host_priority(false, follow_priority), 1);
}

#[test]
fn rollerbot_bound_path_passes_node_priority_through() {
    assert_eq!(rollerbot_follow_path_host_priority(true, 0), 0);
    assert_eq!(rollerbot_follow_path_host_priority(false, 0), 1);
}

#[test]
fn standard_monster_config_exists_only_for_standard_classes() {
    let config = RobotsStandardMonsterBehaviorConfig::for_handler_class(RobotsAiHandlerClass::GuardBot);
    assert_eq!(config.map(|c| c.handler_class), Some(RobotsAiHandlerClass::GuardBot));
    assert!(RobotsStandardMonsterBehaviorConfig::for_handler_class(RobotsAiHandlerClass::DogBot).is_none());
    assert!(RobotsStandardMonsterBehaviorConfig::for_handler_class(RobotsAiHandlerClass::MonsterBase).is_none());
}
