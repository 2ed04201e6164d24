//! EM07 PiranhaBot: native constants and the random draws of a flight start.

use vstd::prelude::*;

use crate::frame::{gameplay_stream_anchored, lemma_gameplay_draw_isolation, MapFrame};

verus! {

/// First trigger link slot that names a cached flight point.
pub const ROBOTS_EM07_PIRANHA_LINK_FIRST_INDEX: usize = 4;

/// One past the last trigger link slot that names a cached flight point.
pub const ROBOTS_EM07_PIRANHA_LINK_END_INDEX: usize = 8;

/// UID of the looping sound a PiranhaBot registers when its runtime is created.
pub const ROBOTS_EM07_PIRANHA_PERMANENT_SOUND_UID: u32 = 0x1AF0_0388;

/// Native parameter word of the PiranhaBot's looping sounds.
pub const ROBOTS_EM07_PIRANHA_PERMANENT_SOUND_PARAMETER: u32 = 100;

/// IEEE-754 bits of the `f32` gravity scalar the first update writes into the
/// PiranhaBot's character physics.
pub const ROBOTS_EM07_PIRANHA_FIRST_UPDATE_COMPONENT_SCALAR_BITS: u32 = 0x414B_D70A;

/// The random draws that start one PiranhaBot flight: the spawn offset around
/// the creator, the cached point picked as target, and the offset around it.
#[derive(Clone, Copy, Debug, PartialEq, Eq, Structural)]
pub struct NativeEm07PiranhaFlightDraws {
    pub spawn_angle_draw: u32,
    pub spawn_radius_draw: u32,
    pub point_draw: u32,
    pub target_angle_draw: u32,
    pub target_radius_draw: u32,
}

/// The draws of one random offset, and the frame after them: an angle draw,
/// then a radius draw unless the radius modulus is zero (radius draw 0). A
/// failed draw ends the offset with no value.
pub open spec fn offset_draws(frame: MapFrame, radius_modulus: u32) -> (Option<(u32, u32)>, MapFrame) {
    let after_angle = frame.after_gameplay_draw();
    match frame.gameplay_draw() {
        None => (None, after_angle),
        Some(angle) => if radius_modulus == 0 {
            (Some((angle, 0u32)), after_angle)
        } else {
            match after_angle.gameplay_draw() {
                None => (None, after_angle.after_gameplay_draw()),
                Some(radius) => (Some((angle, radius)), after_angle.after_gameplay_draw()),
            }
        },
    }
}

/// The draws that start a flight, and the frame after them: the spawn offset,
/// then (only with at least one cached point) the point draw, then the offset
/// around the picked point, whose radius modulus is the picked entry of
/// `cached_radius_moduli`. Draws stop at the first one that fails.
pub open spec fn flight_draws(
    frame: MapFrame,
    spawn_radius_modulus: u32,
    cached_radius_moduli: Seq<u32>,
) -> (Option<NativeEm07PiranhaFlightDraws>, MapFrame) {
    let (spawn, after_spawn) = offset_draws(frame, spawn_radius_modulus);
    match spawn {
        None => (None, after_spawn),
        Some((spawn_angle_draw, spawn_radius_draw)) => if cached_radius_moduli.len() == 0 {
            (None, after_spawn)
        } else {
            let after_point = after_spawn.after_gameplay_draw();
            match after_spawn.gameplay_draw() {
                None => (None, after_point),
                Some(point_draw) => {
                    let modulus = cached_radius_moduli[(point_draw as int) % (
                    cached_radius_moduli.len() as int)];
                    let (target, after_target) = offset_draws(after_point, modulus);
                    match target {
                        None => (None, after_target),
                        Some((target_angle_draw, target_radius_draw)) => (
                            Some(
                                NativeEm07PiranhaFlightDraws {
                                    spawn_angle_draw,
                                    spawn_radius_draw,
                                    point_draw,
                                    target_angle_draw,
                                    target_radius_draw,
                                },
                            ),
                            after_target,
                        ),
                    }
                },
            }
        },
    }
}

impl MapFrame {
    /// Angle and radius draws of one random offset; a zero radius modulus
    /// consumes no radius draw.
    pub fn em07_piranha_rng_offset_draws(&mut self, radius_modulus: u32) -> (draws: Option<(u32, u32)>)
        ensures
            (draws, *final(self)) == offset_draws(*old(self), radius_modulus),
    {
        let angle_draw = match self.next_native_ai_gameplay_rng_u32() {
            Some(draw) => draw,
            None => return None,
        };
        let radius_draw = if radius_modulus == 0 {
            0
        } else {
            match self.next_native_ai_gameplay_rng_u32() {
                Some(draw) => draw,
                None => return None,
            }
        };
        Some((angle_draw, radius_draw))
    }

    /// The random draws that start a PiranhaBot flight, in native order. The
    /// spawn offset uses `spawn_radius_modulus`; `cached_radius_moduli` holds the
    /// radius modulus of each cached flight point. Without a cached point no
    /// flight starts after the spawn draws.
    pub fn em07_piranha_flight_draws(
        &mut self,
        spawn_radius_modulus: u32,
        cached_radius_moduli: &Vec<u32>,
    ) -> (draws: Option<NativeEm07PiranhaFlightDraws>)
        ensures
            (draws, *final(self)) == flight_draws(
                *old(self),
                spawn_radius_modulus,
                cached_radius_moduli@,
            ),
    {
        let (spawn_angle_draw, spawn_radius_draw) = match self.em07_piranha_rng_offset_draws(
            spawn_radius_modulus,
        ) {
            Some(draws) => draws,
            None => return None,
        };
        if cached_radius_moduli.len() == 0 {
            return None;
        }
        let point_draw = match self.next_native_ai_gameplay_rng_u32() {
            Some(draw) => draw,
            None => return None,
        };
        let modulus = cached_radius_moduli[(point_draw as usize) % cached_radius_moduli.len()];
        let (target_angle_draw, target_radius_draw) = match self.em07_piranha_rng_offset_draws(
            modulus,
        ) {
            Some(draws) => draws,
            None => return None,
        };
        Some(
            NativeEm07PiranhaFlightDraws {
                spawn_angle_draw,
                spawn_radius_draw,
                point_draw,
                target_angle_draw,
                target_radius_draw,
            },
        )
    }
}

/// On an anchored stream a random offset always yields its draws and leaves the
/// stream anchored, touching nothing else in the frame.
pub proof fn lemma_offset_draws_on_anchored_stream(frame: MapFrame, radius_modulus: u32)
    requires
        gameplay_stream_anchored(frame),
    ensures
        offset_draws(frame, radius_modulus).0 is Some,
        gameplay_stream_anchored(offset_draws(frame, radius_modulus).1),
        offset_draws(frame, radius_modulus).1.native_script_trigger_lifecycle_valid
            == frame.native_script_trigger_lifecycle_valid,
{
    lemma_gameplay_draw_isolation(frame);
    lemma_gameplay_draw_isolation(frame.after_gameplay_draw());
}

/// With `n > 0` cached points on an anchored stream, a flight always starts, and
/// its target offset is drawn with the radius modulus of cached point
/// `point_draw % n`, so every one of the `n` points can be the target: the
/// flight is the spawn offset, then the point draw, then an offset around the
/// point that draw picks among all `n`.
pub proof fn lemma_flight_target_is_drawn_point_among_all(
    frame: MapFrame,
    spawn_radius_modulus: u32,
    cached_radius_moduli: Seq<u32>,
)
    requires
        gameplay_stream_anchored(frame),
        cached_radius_moduli.len() > 0,
    ensures
        ({
            let spawn = offset_draws(frame, spawn_radius_modulus);
            let point_draw = spawn.1.gameplay_draw()->0;
            let after_point = spawn.1.after_gameplay_draw();
            let picked = cached_radius_moduli[(point_draw as int) % (cached_radius_moduli.len() as int)];
            let target = offset_draws(after_point, picked);
            let (spawn_angle_draw, spawn_radius_draw) = spawn.0->0;
            let (target_angle_draw, target_radius_draw) = target.0->0;
            &&& 0 <= (point_draw as int) % (cached_radius_moduli.len() as int) < cached_radius_moduli.len()
            &&& flight_draws(frame, spawn_radius_modulus, cached_radius_moduli).0 == Some(
                NativeEm07PiranhaFlightDraws {
                    spawn_angle_draw,
                    spawn_radius_draw,
                    point_draw,
                    target_angle_draw,
                    target_radius_draw,
                },
            )
            &&& flight_draws(frame, spawn_radius_modulus, cached_radius_moduli).1 == target.1
            &&& picked == 0 ==> target_radius_draw == 0 && target.1 == after_point.after_gameplay_draw()
        }),
{
    let spawn = offset_draws(frame, spawn_radius_modulus);
    lemma_offset_draws_on_anchored_stream(frame, spawn_radius_modulus);
    lemma_gameplay_draw_isolation(spawn.1);
    let after_point = spawn.1.after_gameplay_draw();
    let point_draw = spawn.1.gameplay_draw()->0;
    let picked = cached_radius_moduli[(point_draw as int) % (cached_radius_moduli.len() as int)];
    lemma_offset_draws_on_anchored_stream(after_point, picked);
}

/// Flight-start draws never touch the native session stream outside the
/// validated native lifecycle, and on an anchored stream they always yield a
/// complete set of draws as soon as one cached point exists.
pub proof fn lemma_flight_draws_on_anchored_stream(
    frame: MapFrame,
    spawn_radius_modulus: u32,
    cached_radius_moduli: Seq<u32>,
)
    ensures
        !frame.native_script_trigger_lifecycle_valid ==> flight_draws(
            frame,
            spawn_radius_modulus,
            cached_radius_moduli,
        ).1.native_global_gameplay_rng == frame.native_global_gameplay_rng,
        gameplay_stream_anchored(frame) && cached_radius_moduli.len() > 0 ==> flight_draws(
            frame,
            spawn_radius_modulus,
            cached_radius_moduli,
        ).0 is Some,
{
    let f1 = frame.after_gameplay_draw();
    let f2 = f1.after_gameplay_draw();
    let f3 = f2.after_gameplay_draw();
    let f4 = f3.after_gameplay_draw();
    let f5 = f4.after_gameplay_draw();
    lemma_gameplay_draw_isolation(frame);
    lemma_gameplay_draw_isolation(f1);
    lemma_gameplay_draw_isolation(f2);
    lemma_gameplay_draw_isolation(f3);
    lemma_gameplay_draw_isolation(f4);
}

} // verus!
