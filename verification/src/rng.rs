//! The gameplay random streams that AI nodes draw from.
//!
//! Both the process-global gameplay stream and the process LCG seed are taken
//! to be the C runtime's `rand()` generator (its constants and startup seed are
//! assumed, not read from the game): `seed' = seed * 214013 + 2531011 (mod 2^32)`,
//! with output bits 16..30 of the new seed. A stream whose seed is unknown
//! (`None`) never yields a value.

use vstd::prelude::*;

verus! {

/// Seed of a freshly started process's `rand()` generator.
pub const ROBOTS_PROCESS_LCG_STARTUP_SEED: u32 = 1;

/// The generator's seed after one draw from `seed`.
pub open spec fn process_lcg_next_seed(seed: u32) -> u32 {
    ((seed * 214013int + 2531011int) % 0x1_0000_0000int) as u32
}

/// The value a draw yields when the generator moves to `next_seed`.
pub open spec fn process_lcg_output(next_seed: u32) -> u32 {
    ((next_seed / 0x10000u32) % 0x8000u32) as u32
}

/// One step of the generator: the new seed and the value drawn.
fn process_lcg_step(seed: u32) -> (step: (u32, u32))
    ensures
        step.0 == process_lcg_next_seed(seed),
        step.1 == process_lcg_output(step.0),
{
    let wide: u64 = (seed as u64) * 214013u64 + 2531011u64;
    let next: u32 = (wide % 0x1_0000_0000u64) as u32;
    (next, (next / 0x10000u32) % 0x8000u32)
}

/// A draw always moves the seed: the step flips the seed's lowest bit.
pub proof fn lemma_process_lcg_step_changes_seed(seed: u32)
    ensures
        process_lcg_next_seed(seed) != seed,
        process_lcg_next_seed(seed) % 2 != seed % 2,
{
    let s = seed as int;
    let w = s * 214013int + 2531011int;
    assert(w % 2 == (s + 1) % 2) by (nonlinear_arith)
        requires
            w == s * 214013int + 2531011int,
    ;
    assert((w % 0x1_0000_0000int) % 2 == w % 2) by (nonlinear_arith)
        requires
            w >= 0,
    ;
}

/// A gameplay random stream: its seed, known only once anchored, and the number
/// of draws taken since it was anchored.
#[derive(Clone, Copy, Debug, PartialEq, Eq)]
pub struct RuntimeRobotsGlobalRngState {
    pub seed: Option<u32>,
    pub draws_from_anchor: u64,
}

/// The stream after one draw: unchanged while unanchored, otherwise one
/// generator step further with one more draw counted.
pub open spec fn rng_state_after_draw(state: RuntimeRobotsGlobalRngState) -> RuntimeRobotsGlobalRngState {
    match state.seed {
        Some(seed) => RuntimeRobotsGlobalRngState {
            seed: Some(process_lcg_next_seed(seed)),
            draws_from_anchor: ((state.draws_from_anchor + 1) % 0x1_0000_0000_0000_0000int) as u64,
        },
        None => state,
    }
}

/// The value one draw from the stream yields: none while unanchored.
pub open spec fn rng_state_draw(state: RuntimeRobotsGlobalRngState) -> Option<u32> {
    match state.seed {
        Some(seed) => Some(process_lcg_output(process_lcg_next_seed(seed))),
        None => None,
    }
}

impl RuntimeRobotsGlobalRngState {
    /// The stream of a freshly started process.
    pub fn fresh_process_startup() -> (state: Self)
        ensures
            state.seed == Some(ROBOTS_PROCESS_LCG_STARTUP_SEED),
            state.draws_from_anchor == 0,
    {
        RuntimeRobotsGlobalRngState { seed: Some(ROBOTS_PROCESS_LCG_STARTUP_SEED), draws_from_anchor: 0 }
    }

    /// The stream anchored at a seed observed in the native session.
    pub fn from_observed_seed(seed: u32) -> (state: Self)
        ensures
            state.seed == Some(seed),
            state.draws_from_anchor == 0,
    {
        RuntimeRobotsGlobalRngState { seed: Some(seed), draws_from_anchor: 0 }
    }

    /// The stream's seed, `None` while it is not anchored.
    pub fn seed(&self) -> (seed: Option<u32>)
        ensures
            seed == self.seed,
    {
        self.seed
    }

    /// Draws one value: none, and no change, while the stream is unanchored.
    pub fn next_u32(&mut self) -> (value: Option<u32>)
        ensures
            *final(self) == rng_state_after_draw(*old(self)),
            value == rng_state_draw(*old(self)),
    {
        match self.seed {
            Some(seed) => {
                let (next, value) = process_lcg_step(seed);
                self.seed = Some(next);
                self.draws_from_anchor = self.draws_from_anchor.wrapping_add(1);
                Some(value)
            },
            None => None,
        }
    }
}

impl Default for RuntimeRobotsGlobalRngState {
    /// An unanchored stream.
    fn default() -> (state: Self)
        ensures
            state.seed == None::<u32>,
            state.draws_from_anchor == 0,
    {
        RuntimeRobotsGlobalRngState { seed: None, draws_from_anchor: 0 }
    }
}

/// A draw from an anchored stream always yields a value, moves the seed to a
/// different one and counts one more draw.
pub proof fn lemma_anchored_draw_moves_stream(state: RuntimeRobotsGlobalRngState)
    requires
        state.seed is Some,
        state.draws_from_anchor < u64::MAX,
    ensures
        rng_state_draw(state) is Some,
        rng_state_after_draw(state).seed is Some,
        rng_state_after_draw(state).seed != state.seed,
        rng_state_after_draw(state).draws_from_anchor == state.draws_from_anchor + 1,
{
    lemma_process_lcg_step_changes_seed(state.seed->0);
}

/// Process LCG seed after the modulo-zero gate of `modulus`: a zero modulus and
/// an unknown seed consume nothing.
pub open spec fn lcg_gate_seed_after(seed: Option<u32>, modulus: u32) -> Option<u32> {
    if modulus == 0 {
        seed
    } else {
        match seed {
            Some(s) => Some(process_lcg_next_seed(s)),
            None => None,
        }
    }
}

/// Outcome of the process LCG modulo-zero gate: a zero modulus always passes;
/// an unknown seed yields no outcome; otherwise one draw passes when it is a
/// multiple of `modulus`.
pub open spec fn lcg_gate_outcome(seed: Option<u32>, modulus: u32) -> Option<bool> {
    if modulus == 0 {
        Some(true)
    } else {
        match seed {
            Some(s) => Some(process_lcg_output(process_lcg_next_seed(s)) % modulus == 0),
            None => None,
        }
    }
}

/// Given a seed and a nonzero modulus, one step moves the seed to
/// `(seed * 214013 + 2531011) mod 2^32`; bits 16..30 of the new seed form
/// `v < 0x8000`, and the outcome is `Some(true)` exactly when `v` is a multiple
/// of `modulus`. `v` is the value one draw of a gameplay stream anchored at the
/// same seed yields.
pub proof fn lemma_lcg_gate_tests_rand_value(seed: u32, modulus: u32, draws_from_anchor: u64)
    requires
        modulus > 0,
    ensures
        ({
            let next = (seed as int * 214013 + 2531011) % 0x1_0000_0000;
            let v = (next / 0x10000) % 0x8000;
            let stream = RuntimeRobotsGlobalRngState { seed: Some(seed), draws_from_anchor };
            &&& 0 <= v < 0x8000
            &&& lcg_gate_outcome(Some(seed), modulus) == Some(v % (modulus as int) == 0)
            &&& lcg_gate_seed_after(Some(seed), modulus) == Some(next as u32)
            &&& rng_state_draw(stream) == Some(v as u32)
            &&& rng_state_after_draw(stream).seed == Some(next as u32)
            &&& lcg_gate_outcome(Some(seed), modulus) == Some(
                rng_state_draw(stream)->0 % modulus == 0,
            )
        }),
{
}

/// Native probability gate `rand() % modulus == 0` on the process LCG seed.
pub fn robots_process_lcg_modulo_zero_gate(seed: &mut Option<u32>, modulus: u32) -> (passed: Option<bool>)
    ensures
        *final(seed) == lcg_gate_seed_after(*old(seed), modulus),
        passed == lcg_gate_outcome(*old(seed), modulus),
{
    if modulus == 0 {
        return Some(true);
    }
    match *seed {
        Some(s) => {
            let (next, value) = process_lcg_step(s);
            *seed = Some(next);
            Some(value % modulus == 0)
        },
        None => None,
    }
}

/// Whether AI draws go to the native session stream: only while the native
/// trigger lifecycle is validated and that stream is anchored.
pub open spec fn uses_native_stream(native_lifecycle_valid: bool, native_seed: Option<u32>) -> bool {
    native_lifecycle_valid && native_seed is Some
}

/// One gameplay draw for an AI node. The native session stream is used only
/// while the native lifecycle is valid and the stream is anchored; otherwise the
/// draw comes from the deterministic preview stream and the native stream is
/// left untouched.
pub fn next_ai_gameplay_rng_u32(
    native_lifecycle_valid: bool,
    native_global: &mut RuntimeRobotsGlobalRngState,
    preview: &mut RuntimeRobotsGlobalRngState,
) -> (value: Option<u32>)
    ensures
        uses_native_stream(native_lifecycle_valid, old(native_global).seed) ==> {
            &&& *final(native_global) == rng_state_after_draw(*old(native_global))
            &&& *final(preview) == *old(preview)
            &&& value == rng_state_draw(*old(native_global))
        },
        !uses_native_stream(native_lifecycle_valid, old(native_global).seed) ==> {
            &&& *final(native_global) == *old(native_global)
            &&& *final(preview) == rng_state_after_draw(*old(preview))
            &&& value == rng_state_draw(*old(preview))
        },
{
    if native_lifecycle_valid && native_global.seed().is_some() {
        native_global.next_u32()
    } else {
        preview.next_u32()
    }
}

/// The process LCG modulo-zero gate for an AI node, on the native seed only while
/// the native lifecycle is valid and that seed is known, otherwise on the
/// preview seed, leaving the native seed untouched.
pub fn ai_process_lcg_modulo_zero_gate(
    native_lifecycle_valid: bool,
    native_seed: &mut Option<u32>,
    preview_seed: &mut Option<u32>,
    modulus: u32,
) -> (passed: Option<bool>)
    ensures
        uses_native_stream(native_lifecycle_valid, *old(native_seed)) ==> {
            &&& *final(native_seed) == lcg_gate_seed_after(*old(native_seed), modulus)
            &&& *final(preview_seed) == *old(preview_seed)
            &&& passed == lcg_gate_outcome(*old(native_seed), modulus)
        },
        !uses_native_stream(native_lifecycle_valid, *old(native_seed)) ==> {
            &&& *final(native_seed) == *old(native_seed)
            &&& *final(preview_seed) == lcg_gate_seed_after(*old(preview_seed), modulus)
            &&& passed == lcg_gate_outcome(*old(preview_seed), modulus)
        },
{
    if native_lifecycle_valid && native_seed.is_some() {
        robots_process_lcg_modulo_zero_gate(native_seed, modulus)
    } else {
        robots_process_lcg_modulo_zero_gate(preview_seed, modulus)
    }
}

} // verus!
