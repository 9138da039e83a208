//! Procedural patterns: which of a pattern's colours a point gets.
use vstd::prelude::*;
use crate::transformation::{Step, Transform};
use crate::tuple::Tuple;

verus! {

#[derive(Clone, Copy, Debug, PartialEq, Eq, Structural)]
pub enum Kind {
    Solid(Tuple),
    Stripe(Tuple, Tuple),
    Gradient(Tuple, Tuple),
    Checkers(Tuple, Tuple),
    Ring(Tuple, Tuple),
}

/// What was computed of a point in pattern space.
///
/// `stripe` is the floor of `x`; `ring` is the floor of the distance from
/// the `y` axis; `checkers` is the sum of the floors of `x`, `y` and `z`;
/// `blend` is the first colour moved towards the second by the fractional
/// part of `x`.
#[derive(Clone, Copy, Debug, PartialEq, Eq, Structural)]
pub struct PatternProbe {
    pub stripe: i64,
    pub ring: i64,
    pub checkers: i64,
    pub blend: Tuple,
}

#[derive(Debug, PartialEq, Eq)]
pub struct Pattern {
    pub kind: Kind,
    pub transform: Transform,
}

/// `a` in even cells, `b` in odd ones.
pub open spec fn alternating(t: int, a: Tuple, b: Tuple) -> Tuple {
    if t % 2 == 0 {
        a
    } else {
        b
    }
}

pub fn alternate(t: i64, a: Tuple, b: Tuple) -> (r: Tuple)
    ensures
        r == alternating(t as int, a, b),
{
    if t % 2 == 0 {
        a
    } else {
        b
    }
}

impl Kind {
    /// The colour that this kind of pattern gives the probed point.
    pub open spec fn colour(self, probe: PatternProbe) -> Tuple {
        match self {
            Kind::Solid(colour) => colour,
            Kind::Stripe(a, b) => alternating(probe.stripe as int, a, b),
            Kind::Gradient(_, _) => probe.blend,
            Kind::Ring(a, b) => alternating(probe.ring as int, a, b),
            Kind::Checkers(a, b) => alternating(probe.checkers as int, a, b),
        }
    }

    pub fn color_at(&self, probe: &PatternProbe) -> (r: Tuple)
        ensures
            r == self.colour(*probe),
    {
        match self {
            Kind::Solid(colour) => *colour,
            Kind::Stripe(a, b) => alternate(probe.stripe, *a, *b),
            Kind::Gradient(_, _) => probe.blend,
            Kind::Ring(a, b) => alternate(probe.ring, *a, *b),
            Kind::Checkers(a, b) => alternate(probe.checkers, *a, *b),
        }
    }
}

impl Pattern {
    pub fn set_transform(&mut self, transform: &Transform)
        ensures
            final(self).transform@ == transform@,
            final(self).kind == old(self).kind,
    {
        self.transform = transform.duplicate();
    }

    pub fn color_at(&self, probe: &PatternProbe) -> (r: Tuple)
        ensures
            r == self.kind.colour(*probe),
    {
        self.kind.color_at(probe)
    }

    /// A pattern with the same kind and the same transform.
    pub fn duplicate(&self) -> (r: Pattern)
        ensures
            r.kind == self.kind,
            r.transform@ == self.transform@,
    {
        Pattern { kind: self.kind, transform: self.transform.duplicate() }
    }
}

pub fn black_pattern() -> (r: Pattern)
    ensures
        r.kind matches Kind::Solid(c) && c.is_zero(),
        r.transform@ == Seq::<Step>::empty(),
{
    Pattern { kind: Kind::Solid(Tuple::zero()), transform: Transform::new() }
}

pub fn stripe_pattern(color_a: Tuple, color_b: Tuple) -> (r: Pattern)
    ensures
        r.kind == Kind::Stripe(color_a, color_b),
        r.transform@ == Seq::<Step>::empty(),
{
    Pattern { kind: Kind::Stripe(color_a, color_b), transform: Transform::new() }
}

pub fn gradient_pattern(a: Tuple, b: Tuple) -> (r: Pattern)
    ensures
        r.kind == Kind::Gradient(a, b),
        r.transform@ == Seq::<Step>::empty(),
{
    Pattern { kind: Kind::Gradient(a, b), transform: Transform::new() }
}

pub fn checkers_pattern(a: Tuple, b: Tuple) -> (r: Pattern)
    ensures
        r.kind == Kind::Checkers(a, b),
        r.transform@ == Seq::<Step>::empty(),
{
    Pattern { kind: Kind::Checkers(a, b), transform: Transform::new() }
}

pub fn ring_pattern(a: Tuple, b: Tuple) -> (r: Pattern)
    ensures
        r.kind == Kind::Ring(a, b),
        r.transform@ == Seq::<Step>::empty(),
{
    Pattern { kind: Kind::Ring(a, b), transform: Transform::new() }
}

} // verus!
