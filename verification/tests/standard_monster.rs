use runtime_ai::handler_class::RobotsAiHandlerClass;
use runtime_ai::standard_monster::{
    NativeStandardMonsterHitQueryRuntime, NativeStandardMonsterRuntime,
    RobotsStandardMonsterBehaviorConfig,
};

#[derive(Clone, Copy, Debug, PartialEq, Eq)]
struct HitQuery {
    serial: u16,
}

fn entry(serial: u16, source_anim_mode: u32) -> NativeStandardMonsterHitQueryRuntime<HitQuery> {
    NativeStandardMonsterHitQueryRuntime {
        query: HitQuery { serial },
        source_anim_mode,
    }
}

#[test]
fn monster_2rockets_hitcheck_queue_keeps_two_and_drops_oldest_before_append() {
    let config =
        RobotsStandardMonsterBehaviorConfig::for_handler_class(RobotsAiHandlerClass::Monster2Rockets)
            .unwrap();
    let mut runtime = NativeStandardMonsterRuntime::new(config);
    runtime.register_hit_query(entry(1, 0x0900_0025), config.hit_query_capacity());
    runtime.register_hit_query(entry(2, 0x0900_0027), config.hit_query_capacity());
    assert_eq!(runtime.hit_queries.len(), 2);
    assert_eq!(runtime.hit_queries[0].query.serial, 1);
    assert_eq!(runtime.hit_queries[1].query.serial, 2);

    runtime.register_hit_query(entry(3, 0x0900_0025), config.hit_query_capacity());
    assert_eq!(runtime.hit_queries.len(), 2);
    assert_eq!(runtime.hit_queries[0].query.serial, 2);
    assert_eq!(runtime.hit_queries[1].query.serial, 3);

    let ordinary =
        RobotsStandardMonsterBehaviorConfig::for_handler_class(RobotsAiHandlerClass::GuardBot)
            .unwrap();
    let mut ordinary_runtime = NativeStandardMonsterRuntime::new(ordinary);
    ordinary_runtime.register_hit_query(entry(7, 0x0900_0025), ordinary.hit_query_capacity());
    ordinary_runtime.register_hit_query(entry(8, 0x0900_0025), ordinary.hit_query_capacity());
    assert_eq!(ordinary_runtime.hit_queries.len(), 1);
    assert_eq!(ordinary_runtime.hit_queries[0].query.serial, 8);
}

#[test]
fn zero_capacity_retains_nothing_and_clear_forgets_all() {
    let config =
        RobotsStandardMonsterBehaviorConfig::for_handler_class(RobotsAiHandlerClass::Monster2Rockets)
            .unwrap();
    let mut runtime = NativeStandardMonsterRuntime::new(config);
    runtime.register_hit_query(entry(1, 0x0900_0025), 0);
    assert!(runtime.hit_queries.is_empty());
    runtime.register_hit_query(entry(2, 0x0900_0025), 2);
    runtime.register_hit_query(entry(3, 0x0900_0027), 2);
    assert_eq!(runtime.hit_queries[1].source_anim_mode, 0x0900_0027);
    runtime.clear_hit_queries();
    assert!(runtime.hit_queries.is_empty());
    assert_eq!(runtime.handler_class, RobotsAiHandlerClass::Monster2Rockets);
}

#[test]
fn hit_query_capacity_is_two_only_for_monster_2rockets() {
    for class in [
        RobotsAiHandlerClass::GuardBot,
        RobotsAiHandlerClass::MalfBot,
        RobotsAiHandlerClass::Eb13KnightBot,
    ] {
        let config = RobotsStandardMonsterBehaviorConfig::for_handler_class(class).unwrap();
        assert_eq!(config.hit_query_capacity(), 1);
    }
}

#[test]
fn new_standard_monster_starts_idle_with_animator_only_for_knightbot() {
    let knight_config =
        RobotsStandardMonsterBehaviorConfig::for_handler_class(RobotsAiHandlerClass::Eb13KnightBot)
            .unwrap();
    let knight: NativeStandardMonsterRuntime<HitQuery> = NativeStandardMonsterRuntime::new(knight_config);
    assert!(knight.knightbot_animator_attached);
    assert_eq!(knight.handler_class, RobotsAiHandlerClass::Eb13KnightBot);
    assert_eq!(knight.handler_script_value_45c, 0);
    assert!(knight.hit_queries.is_empty());
    assert_eq!(knight.magnetic_drop_charge_count, None);
    assert_eq!(knight.active_node, None);

    let minion_config =
        RobotsStandardMonsterBehaviorConfig::for_handler_class(RobotsAiHandlerClass::Eb14Minion)
            .unwrap();
    let minion: NativeStandardMonsterRuntime<HitQuery> = NativeStandardMonsterRuntime::new(minion_config);
    assert!(!minion.knightbot_animator_attached);
}
