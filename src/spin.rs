use vstd::prelude::*;

verus! {

/// Spin about the x axis, in picoradians per nanosecond (1.5 rad/s).
pub const RATE_X: u128 = 1500;

/// Spin about the z axis, in picoradians per nanosecond (1.3 rad/s).
pub const RATE_Z: u128 = 1300;

/// The cube's accumulated spin, kept exactly as the elapsed time it was
/// turned for.
pub struct CubeSpin {
    pub elapsed_ns: u64,
}

/// The turn about the x axis, in picoradians, over `ns` nanoseconds.
pub open spec fn turn_x(ns: nat) -> nat {
    RATE_X as nat * ns
}

/// The turn about the z axis, in picoradians, over `ns` nanoseconds.
pub open spec fn turn_z(ns: nat) -> nat {
    RATE_Z as nat * ns
}

/// The total of a run of frame times.
pub open spec fn total(frames: Seq<nat>) -> nat
    decreases frames.len(),
{
    if frames.len() == 0 {
        0
    } else {
        frames[0] + total(frames.drop_first())
    }
}

/// The sum of the per-frame x turns over a run of frame times.
pub open spec fn summed_turn_x(frames: Seq<nat>) -> nat
    decreases frames.len(),
{
    if frames.len() == 0 {
        0
    } else {
        turn_x(frames[0]) + summed_turn_x(frames.drop_first())
    }
}

/// The sum of the per-frame z turns over a run of frame times.
pub open spec fn summed_turn_z(frames: Seq<nat>) -> nat
    decreases frames.len(),
{
    if frames.len() == 0 {
        0
    } else {
        turn_z(frames[0]) + summed_turn_z(frames.drop_first())
    }
}

impl CubeSpin {
    /// A cube that has not turned yet.
    pub fn new() -> (r: Self)
        ensures
            r.elapsed_ns == 0,
    {
        CubeSpin { elapsed_ns: 0 }
    }

    /// Whether `advance` may be called with a frame of `delta_ns`.
    pub fn can_advance(&self, delta_ns: u64) -> (r: bool)
        ensures
            r == (self.elapsed_ns + delta_ns <= u64::MAX),
    {
        delta_ns <= u64::MAX - self.elapsed_ns
    }

    /// Turns the cube for one frame of `delta_ns` nanoseconds and returns the
    /// turn about x and about z made in this frame, in picoradians.
    pub fn advance(&mut self, delta_ns: u64) -> (r: (u128, u128))
        requires
            old(self).elapsed_ns + delta_ns <= u64::MAX,
        ensures
            final(self).elapsed_ns == old(self).elapsed_ns + delta_ns,
            r.0 == turn_x(delta_ns as nat),
            r.1 == turn_z(delta_ns as nat),
    {
        self.elapsed_ns = self.elapsed_ns + delta_ns;
        (RATE_X * (delta_ns as u128), RATE_Z * (delta_ns as u128))
    }

    /// The whole turn about the x axis so far, in picoradians.
    pub fn angle_x(&self) -> (r: u128)
        ensures
            r == turn_x(self.elapsed_ns as nat),
    {
        RATE_X * (self.elapsed_ns as u128)
    }

    /// The whole turn about the z axis so far, in picoradians.
    pub fn angle_z(&self) -> (r: u128)
        ensures
            r == turn_z(self.elapsed_ns as nat),
    {
        RATE_Z * (self.elapsed_ns as u128)
    }
}

/// However a stretch of time is cut into frames, the per-frame turns about
/// each axis add up to the rate times the whole stretch.
pub proof fn law_turn_independent_of_slicing(frames: Seq<nat>)
    ensures
        summed_turn_x(frames) == turn_x(total(frames)),
        summed_turn_z(frames) == turn_z(total(frames)),
    decreases frames.len(),
{
    if frames.len() > 0 {
        let rest = frames.drop_first();
        law_turn_independent_of_slicing(rest);
        assert(turn_x(frames[0]) + turn_x(total(rest)) == turn_x(frames[0] + total(rest)))
            by (nonlinear_arith);
        assert(turn_z(frames[0]) + turn_z(total(rest)) == turn_z(frames[0] + total(rest)))
            by (nonlinear_arith);
    }
}

} // verus!
