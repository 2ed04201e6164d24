use runtime_ai::frame::MapFrame;
use runtime_ai::rng::{
    ai_process_lcg_modulo_zero_gate, next_ai_gameplay_rng_u32, robots_process_lcg_modulo_zero_gate,
    RuntimeRobotsGlobalRngState, ROBOTS_PROCESS_LCG_STARTUP_SEED,
};

#[test]
fn maps_ai_preview_rng_is_deterministic_without_mutating_unknown_native_session_rng() {
    let mut native_global = RuntimeRobotsGlobalRngState::default();
    let mut preview = RuntimeRobotsGlobalRngState::fresh_process_startup();
    let preview_seed_before = preview.seed();

    assert!(next_ai_gameplay_rng_u32(false, &mut native_global, &mut preview).is_some());
    assert_eq!(native_global.seed(), None);
    assert_eq!(native_global.draws_from_anchor, 0);
    assert_ne!(preview.seed(), preview_seed_before);
    assert_eq!(preview.draws_from_anchor, 1);

    let preview_seed_after_first = preview.seed();
    assert!(next_ai_gameplay_rng_u32(true, &mut native_global, &mut preview).is_some());
    assert_eq!(native_global.seed(), None);
    assert_eq!(native_global.draws_from_anchor, 0);
    assert_ne!(preview.seed(), preview_seed_after_first);
    assert_eq!(preview.draws_from_anchor, 2);

    native_global = RuntimeRobotsGlobalRngState::from_observed_seed(0x1234_5678);
    let preview_seed_before_anchored_draw = preview.seed();
    assert!(next_ai_gameplay_rng_u32(true, &mut native_global, &mut preview).is_some());
    assert_eq!(native_global.draws_from_anchor, 1);
    assert_eq!(preview.seed(), preview_seed_before_anchored_draw);
    assert_eq!(preview.draws_from_anchor, 2);
}

#[test]
fn maps_ai_process_lcg_fallback_keeps_unknown_native_seed_untouched() {
    let mut native_seed = None;
    let mut preview_seed = Some(ROBOTS_PROCESS_LCG_STARTUP_SEED);
    let preview_before = preview_seed;

    assert!(
        ai_process_lcg_modulo_zero_gate(true, &mut native_seed, &mut preview_seed, 3,).is_some()
    );
    assert_eq!(native_seed, None);
    assert_ne!(preview_seed, preview_before);

    native_seed = Some(0x1234_5678);
    let preview_before_anchored = preview_seed;
    assert!(
        ai_process_lcg_modulo_zero_gate(true, &mut native_seed, &mut preview_seed, 3,).is_some()
    );
    assert_ne!(native_seed, Some(0x1234_5678));
    assert_eq!(preview_seed, preview_before_anchored);
}

#[test]
fn fresh_process_stream_yields_the_c_runtime_rand_sequence() {
    let mut stream = RuntimeRobotsGlobalRngState::fresh_process_startup();
    assert_eq!(stream.next_u32(), Some(41));
    assert_eq!(stream.seed(), Some(2_745_024));
    assert_eq!(stream.next_u32(), Some(18_467));
    assert_eq!(stream.next_u32(), Some(6_334));
    assert_eq!(stream.draws_from_anchor, 3);
}

#[test]
fn unanchored_stream_never_fabricates_a_draw() {
    let mut stream = RuntimeRobotsGlobalRngState::default();
    assert_eq!(stream.next_u32(), None);
    assert_eq!(stream.seed(), None);
    assert_eq!(stream.draws_from_anchor, 0);
}

#[test]
fn lcg_gate_zero_modulus_passes_without_a_draw() {
    let mut seed = None;
    assert_eq!(robots_process_lcg_modulo_zero_gate(&mut seed, 2), None);
    assert_eq!(seed, None);
    assert_eq!(robots_process_lcg_modulo_zero_gate(&mut seed, 0), Some(true));
    assert_eq!(seed, None);

    let mut seed = Some(ROBOTS_PROCESS_LCG_STARTUP_SEED);
    assert_eq!(robots_process_lcg_modulo_zero_gate(&mut seed, 0), Some(true));
    assert_eq!(seed, Some(ROBOTS_PROCESS_LCG_STARTUP_SEED));
    // First draw from seed 1 is 41: 41 % 41 == 0 passes, 41 % 2 != 0 fails.
    assert_eq!(robots_process_lcg_modulo_zero_gate(&mut seed, 41), Some(true));
    assert_eq!(seed, Some(2_745_024));
    let mut seed = Some(ROBOTS_PROCESS_LCG_STARTUP_SEED);
    assert_eq!(robots_process_lcg_modulo_zero_gate(&mut seed, 2), Some(false));
}

#[test]
fn native_stream_is_used_only_when_lifecycle_valid_and_anchored() {
    let mut native = RuntimeRobotsGlobalRngState::from_observed_seed(1);
    let mut preview = RuntimeRobotsGlobalRngState::from_observed_seed(1);
    assert_eq!(next_ai_gameplay_rng_u32(false, &mut native, &mut preview), Some(41));
    assert_eq!(native.seed(), Some(1));
    assert_eq!(preview.seed(), Some(2_745_024));
    assert_eq!(next_ai_gameplay_rng_u32(true, &mut native, &mut preview), Some(41));
    assert_eq!(native.seed(), Some(2_745_024));
    assert_eq!(preview.draws_from_anchor, 1);
}

#[test]
fn map_frame_draws_from_preview_outside_native_lifecycle() {
    let mut frame = MapFrame::default();
    assert_eq!(frame.next_native_ai_gameplay_rng_u32(), Some(41));
    assert_eq!(frame.native_global_gameplay_rng.seed(), None);
    assert_eq!(frame.native_ai_preview_gameplay_rng.draws_from_anchor, 1);

    frame.native_script_trigger_lifecycle_valid = true;
    frame.native_global_gameplay_rng = RuntimeRobotsGlobalRngState::from_observed_seed(1);
    assert_eq!(frame.next_native_ai_gameplay_rng_u32(), Some(41));
    assert_eq!(frame.native_global_gameplay_rng.draws_from_anchor, 1);
    assert_eq!(frame.native_ai_preview_gameplay_rng.draws_from_anchor, 1);
}
