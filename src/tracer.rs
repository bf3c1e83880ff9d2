use vstd::prelude::*;

use crate::color::hex_channels_spec;

verus! {

/// Colour, as `0xRRGGBB`, of a path whose bounces ran out: no light is left.
pub const EXHAUSTED_HEX: u32 = 0x000000;

/// Colour, as `0xRRGGBB`, of a path whose ray a material absorbed without
/// scattering it; no material of the library does so.
pub const ABSORBED_HEX: u32 = 0x6000a0;

/// What came of casting one ray into the scene.
#[derive(Clone, Copy, Debug, PartialEq, Eq, Structural)]
pub enum BounceEvent {
    /// The ray hit a surface whose material scattered it.
    Scattered,
    /// The ray hit a surface whose material gave no scattered ray.
    Absorbed,
    /// The ray hit nothing.
    Missed,
}

/// How a traced path ends.
#[derive(Clone, Copy, Debug, PartialEq, Eq, Structural)]
pub enum PathEnd {
    /// The bounce budget is spent: the path carries no light.
    Exhausted,
    /// A material absorbed the ray: the path takes the absorption colour.
    Absorbed,
    /// The ray left the scene: the path takes the background colour.
    Escaped,
}

/// What the path tracer does next.
#[derive(Clone, Copy, Debug, PartialEq, Eq, Structural)]
pub enum TraceStep {
    /// Cast the current ray, with `remaining` bounces left counting this one.
    Cast { remaining: u32 },
    /// The path is done.
    Stop(PathEnd),
}

/// The step taken with `depth` bounces left before the current ray is cast.
pub open spec fn step_for_depth(depth: u32) -> TraceStep {
    if depth == 0 {
        TraceStep::Stop(PathEnd::Exhausted)
    } else {
        TraceStep::Cast { remaining: depth }
    }
}

/// The step that follows a cast made with `remaining` bounces left.
pub open spec fn step_after(remaining: u32, event: BounceEvent) -> TraceStep {
    match event {
        BounceEvent::Scattered => step_for_depth((remaining - 1) as u32),
        BounceEvent::Absorbed => TraceStep::Stop(PathEnd::Absorbed),
        BounceEvent::Missed => TraceStep::Stop(PathEnd::Escaped),
    }
}

/// The first step of a path traced with at most `max_depth` bounces.
pub fn first_step(max_depth: u32) -> (r: TraceStep)
    ensures
        r == step_for_depth(max_depth),
{
    if max_depth == 0 {
        TraceStep::Stop(PathEnd::Exhausted)
    } else {
        TraceStep::Cast { remaining: max_depth }
    }
}

/// The step that follows a cast made with `remaining` bounces left: a
/// scattered ray is traced with one bounce less, an absorbed or escaped one
/// ends the path.
pub fn next_step(remaining: u32, event: BounceEvent) -> (r: TraceStep)
    requires
        remaining > 0,
    ensures
        r == step_after(remaining, event),
{
    match event {
        BounceEvent::Scattered => first_step(remaining - 1),
        BounceEvent::Absorbed => TraceStep::Stop(PathEnd::Absorbed),
        BounceEvent::Missed => TraceStep::Stop(PathEnd::Escaped),
    }
}

/// With no bounce allowed, the tracer casts no ray and the path is black,
/// whatever the scene holds.
pub proof fn lemma_zero_depth_is_black()
    ensures
        step_for_depth(0) == TraceStep::Stop(PathEnd::Exhausted),
        hex_channels_spec(EXHAUSTED_HEX) == seq![0u8, 0u8, 0u8],
{
    assert(hex_channels_spec(EXHAUSTED_HEX) =~= seq![0u8, 0u8, 0u8]);
}

/// Every cast that follows another is made with strictly fewer bounces left,
/// so a path traced with `max_depth` bounces casts at most `max_depth` rays.
pub proof fn lemma_bounces_decrease(remaining: u32, event: BounceEvent)
    requires
        remaining > 0,
    ensures
        step_after(remaining, event) matches TraceStep::Cast { remaining: next } ==> next
            < remaining,
{
}

} // verus!
