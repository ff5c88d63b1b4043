//! The decisions of the recursive path tracer.
//!
//! Tracing a ray alternates scene queries and material calls (done by the
//! caller, in floating point) with the decisions below. A caller follows the
//! returned [`Step`]s: it starts with [`on_entry`], answers `FindHit` with an
//! [`Outcome`] passed to [`on_outcome`], and for `Follow` traces the scattered
//! ray from [`on_entry`] again with the depth it carries. The radiance of the
//! path is then combined back to front by [`path_radiance`], from the colour
//! rule of each surface hit on the way.
use crate::vector::{has_nan, modelled, multiply, product, realizes};
use vstd::prelude::*;

verus! {

/// What the nearest-hit query and the material reported for one ray.
#[derive(Clone, Copy, Debug, PartialEq, Eq, Structural)]
pub enum Outcome {
    /// No object lies along the ray.
    Miss,
    /// A surface was hit and its material returned no continuation ray.
    Absorbed,
    /// A surface was hit and its material returned a continuation ray.
    Scattered,
}

/// What to do next for one ray.
#[derive(Clone, Copy, Debug, PartialEq, Eq, Structural)]
pub enum Step {
    /// Return zero radiance: the bounce budget is spent.
    Black,
    /// Query the scene for the nearest hit and report the [`Outcome`].
    FindHit,
    /// Return the background radiance for the ray's direction.
    Background,
    /// Return the material's colour with zero incoming radiance.
    Emit,
    /// Trace the continuation ray with the given budget, then return the
    /// material's colour of that result.
    Follow { depth: u32 },
}

/// The step for a ray traced with `depth` bounces left.
pub open spec fn entry_step(depth: u32) -> Step {
    if depth == 0 {
        Step::Black
    } else {
        Step::FindHit
    }
}

/// The step once the query and the material have answered, with `depth > 0`
/// bounces left.
pub open spec fn outcome_step(depth: u32, outcome: Outcome) -> Step {
    match outcome {
        Outcome::Miss => Step::Background,
        Outcome::Absorbed => Step::Emit,
        Outcome::Scattered => Step::Follow { depth: (depth - 1) as u32 },
    }
}

/// The first decision for a ray: a spent budget ends the path in black,
/// whatever the scene holds; otherwise the scene is queried.
pub fn on_entry(depth: u32) -> (s: Step)
    ensures
        s == entry_step(depth),
        depth == 0 <==> s == Step::Black,
{
    if depth == 0 {
        Step::Black
    } else {
        Step::FindHit
    }
}

/// The decision after the scene query (and, on a hit, the material's scatter)
/// for a ray traced with `depth` bounces left.
pub fn on_outcome(depth: u32, outcome: Outcome) -> (s: Step)
    requires
        depth > 0,
    ensures
        s == outcome_step(depth, outcome),
{
    match outcome {
        Outcome::Miss => Step::Background,
        Outcome::Absorbed => Step::Emit,
        Outcome::Scattered => Step::Follow { depth: depth - 1 },
    }
}

/// How many continuation rays a path follows when the surfaces along it
/// report `outcomes` in turn, starting with `depth` bounces left.
pub open spec fn rays_followed(depth: u32, outcomes: Seq<Outcome>) -> nat
    decreases outcomes.len(),
{
    if outcomes.len() == 0 {
        0
    } else {
        match entry_step(depth) {
            Step::FindHit => match outcome_step(depth, outcomes[0]) {
                Step::Follow { depth: next } => 1 + rays_followed(next, outcomes.drop_first()),
                _ => 0,
            },
            _ => 0,
        }
    }
}

/// A path started with `depth` bounces left follows at most `depth`
/// continuation rays, whatever the surfaces report: the recursion is bounded
/// by the bounce budget.
pub proof fn lemma_rays_followed_bounded(depth: u32, outcomes: Seq<Outcome>)
    ensures
        rays_followed(depth, outcomes) <= depth,
    decreases outcomes.len(),
{
    if outcomes.len() > 0 && depth > 0 && outcomes[0] == Outcome::Scattered {
        lemma_rays_followed_bounded((depth - 1) as u32, outcomes.drop_first());
    }
}

/// With a bounce budget of zero every ray, whatever it would hit, yields
/// black: no scene query is made, no surface is met, and the radiance is the
/// zero vector `black` that ends the path.
pub proof fn lemma_zero_budget_is_black(outcomes: Seq<Outcome>, black: glam::Vec3)
    ensures
        entry_step(0) == Step::Black,
        rays_followed(0, outcomes) == 0,
        radiance_of(Seq::empty(), black) == Some(black),
{
}

/// A primary ray that misses every object returns exactly the background
/// radiance for its direction, whatever bounce budget is left: the path meets
/// no surface and ends in the background.
pub proof fn lemma_miss_is_background(depth: u32, background: glam::Vec3)
    requires
        depth > 0,
    ensures
        entry_step(depth) == Step::FindHit,
        outcome_step(depth, Outcome::Miss) == Step::Background,
        radiance_of(Seq::empty(), background) == Some(background),
{
}

/// How a surface turns the radiance arriving along its continuation ray into
/// the radiance it sends back.
#[derive(Clone, Copy, Debug)]
pub enum SurfaceColour {
    /// Diffuse (and textured) surfaces: `base_colour × incoming`.
    Diffuse { base_colour: glam::Vec3 },
    /// Metal: `incoming × base_colour`.
    Metal { base_colour: glam::Vec3 },
    /// Clear glass: the incoming radiance, untinted.
    Clear,
    /// An emitter: its own colour, whatever arrives.
    LightSource { colour: glam::Vec3 },
}

impl SurfaceColour {
    /// The outgoing radiance for incoming radiance described by `incoming`
    /// (`None`: a vector with a NaN). Products are exact unless they hold a
    /// NaN, and a NaN arriving at a tinting surface stays one; an emitter
    /// returns its colour whatever arrives.
    pub open spec fn colour_model(&self, incoming: Option<glam::Vec3>) -> Option<glam::Vec3> {
        match *self {
            SurfaceColour::Diffuse { base_colour } => match incoming {
                Some(v) => modelled(product(base_colour, v)),
                None => None,
            },
            SurfaceColour::Metal { base_colour } => match incoming {
                Some(v) => modelled(product(v, base_colour)),
                None => None,
            },
            SurfaceColour::Clear => incoming,
            SurfaceColour::LightSource { colour } => Some(colour),
        }
    }

    /// The outgoing radiance given the radiance `incoming` from the
    /// continuation ray (zero where there was none).
    pub fn colour(&self, incoming: glam::Vec3) -> (r: glam::Vec3)
        ensures
            realizes(r, self.colour_model(Some(incoming))),
            has_nan(incoming) ==> realizes(r, self.colour_model(None)),
    {
        match *self {
            SurfaceColour::Diffuse { base_colour } => multiply(base_colour, incoming),
            SurfaceColour::Metal { base_colour } => multiply(incoming, base_colour),
            SurfaceColour::Clear => incoming,
            SurfaceColour::LightSource { colour } => colour,
        }
    }
}

/// The radiance returned along a path whose hits, first to last, have the
/// colour rules `surfaces`, and whose last ray returned `end` (zero for a spent
/// budget or an absorbing surface, the background for a miss). `None` stands
/// for a vector with a NaN.
pub open spec fn radiance_of(surfaces: Seq<SurfaceColour>, end: glam::Vec3) -> Option<glam::Vec3>
    decreases surfaces.len(),
{
    if surfaces.len() == 0 {
        Some(end)
    } else {
        surfaces[0].colour_model(radiance_of(surfaces.drop_first(), end))
    }
}

/// Combines a path back to front: the last surface's colour of `end`, then
/// each earlier surface's colour of what the later ones returned.
pub fn path_radiance(surfaces: &Vec<SurfaceColour>, end: glam::Vec3) -> (r: glam::Vec3)
    ensures
        realizes(r, radiance_of(surfaces@, end)),
{
    let mut acc = end;
    let mut i: usize = surfaces.len();
    while i > 0
        invariant
            i <= surfaces@.len(),
            realizes(acc, radiance_of(surfaces@.subrange(i as int, surfaces@.len() as int), end)),
        decreases i,
    {
        i = i - 1;
        let ghost tail = surfaces@.subrange(i as int, surfaces@.len() as int);
        assert(tail.drop_first() == surfaces@.subrange(i + 1, surfaces@.len() as int));
        acc = surfaces[i].colour(acc);
    }
    assert(surfaces@.subrange(0, surfaces@.len() as int) == surfaces@);
    acc
}

} // verus!
