//! The functions that a script may call besides the language's own.
//!
//! Each takes and returns doubles as bit patterns.

use crate::ieee::{is_nan, is_unit_fraction, le, less_or_equal, unit_fraction, ONE};
use vstd::prelude::*;

verus! {

/// What `min` may return for the arguments `x` and `y`: the other argument
/// when one is not a number; else one of the two that is `<=` both.
pub open spec fn is_min_of(x: u64, y: u64, result: u64) -> bool {
    if is_nan(x) && is_nan(y) {
        true
    } else if is_nan(x) {
        result == y
    } else if is_nan(y) {
        result == x
    } else {
        (result == x || result == y) && le(result, x) && le(result, y)
    }
}

/// What `max` may return for the arguments `x` and `y`: the other argument
/// when one is not a number; else one of the two that both are `<=`.
pub open spec fn is_max_of(x: u64, y: u64, result: u64) -> bool {
    if is_nan(x) && is_nan(y) {
        true
    } else if is_nan(x) {
        result == y
    } else if is_nan(y) {
        result == x
    } else {
        (result == x || result == y) && le(x, result) && le(y, result)
    }
}

/// `x` held between `low` and `high`: `low` where `x <= low`, else `high`
/// where `high <= x`, else `x` itself. A value that is not a number comes
/// back as it is.
pub open spec fn clamped(x: u64, low: u64, high: u64) -> u64 {
    if le(x, low) {
        low
    } else if le(high, x) {
        high
    } else {
        x
    }
}

/// The angle of the point `(x, y)`, by `f64::atan2` of std. Nothing is
/// claimed of the result: std leaves its precision open.
#[verifier::external_body]
pub fn atan2(y: u64, x: u64) -> (angle: u64) {
    rhai::FLOAT::from_bits(y).atan2(rhai::FLOAT::from_bits(x)).to_bits()
}

/// The smaller of two doubles, by `f64::min` of std, which ignores an
/// argument that is not a number and may return either of two arguments that
/// compare equal.
#[verifier::external_body]
pub fn min(x: u64, y: u64) -> (smaller: u64)
    ensures
        is_min_of(x, y, smaller),
{
    rhai::FLOAT::from_bits(x).min(rhai::FLOAT::from_bits(y)).to_bits()
}

/// The larger of two doubles, by `f64::max` of std, which ignores an
/// argument that is not a number and may return either of two arguments that
/// compare equal.
#[verifier::external_body]
pub fn max(x: u64, y: u64) -> (larger: u64)
    ensures
        is_max_of(x, y, larger),
{
    rhai::FLOAT::from_bits(x).max(rhai::FLOAT::from_bits(y)).to_bits()
}

/// Holds `x` between `min` and `max`.
pub fn clamp(x: u64, min: u64, max: u64) -> (held: u64)
    ensures
        held == clamped(x, min, max),
{
    if less_or_equal(x, min) {
        min
    } else if less_or_equal(max, x) {
        max
    } else {
        x
    }
}

/// `fastrand::u64` of that crate, over the full range: 64 pseudorandom bits.
/// The generator is seeded per thread; two calls need not agree.
#[verifier::external_body]
fn random_bits() -> (draw: u64) {
    fastrand::u64(..)
}

/// Whether `sample` was drawn: the generator gave a draw, and `sample` is
/// the double whose value is the top 52 bits of that draw divided by 2^52.
/// Only a draw from the generator makes this hold.
pub closed spec fn drew(sample: u64) -> bool {
    exists|draw: u64|
        #![trigger is_unit_fraction(sample, draw)]
        call_ensures(random_bits, (), draw) && is_unit_fraction(sample, draw)
}

/// A pseudorandom double, at least 0 and below 1: the top 52 bits of one
/// draw from the generator, taken as a multiple of 2^-52.
pub fn rand() -> (sample: u64)
    ensures
        sample < ONE,
        drew(sample),
{
    let draw = random_bits();
    let sample = unit_fraction(draw);
    assert(call_ensures(random_bits, (), draw) && is_unit_fraction(sample, draw));
    sample
}

/// One of the functions above, as a script names it.
#[derive(Clone, Copy, Debug, PartialEq, Eq)]
pub enum Helper {
    Atan2,
    Min,
    Max,
    Clamp,
    Rand,
}

impl Helper {
    /// How many arguments the function takes.
    pub open spec fn arity(self) -> nat {
        match self {
            Helper::Rand => 0,
            Helper::Clamp => 3,
            _ => 2,
        }
    }

    /// The name under which a script calls the function.
    pub open spec fn name(self) -> Seq<char> {
        match self {
            Helper::Atan2 => "atan2"@,
            Helper::Min => "min"@,
            Helper::Max => "max"@,
            Helper::Clamp => "clamp"@,
            Helper::Rand => "rand"@,
        }
    }

    /// What a call with the arguments `a`, `b`, `c` may return. Arguments
    /// beyond the arity are not looked at. The angle is what `atan2` gave
    /// for `a` as the ordinate and `b` as the abscissa; the random sample
    /// is one that was drawn.
    pub open spec fn allows(self, a: u64, b: u64, c: u64, result: u64) -> bool {
        match self {
            Helper::Atan2 => call_ensures(atan2, (a, b), result),
            Helper::Min => is_min_of(a, b, result),
            Helper::Max => is_max_of(a, b, result),
            Helper::Clamp => result == clamped(a, b, c),
            Helper::Rand => result < ONE && drew(result),
        }
    }

    /// The name under which a script calls the function.
    pub fn script_name(self) -> (name: &'static str)
        ensures
            name@ == self.name(),
    {
        match self {
            Helper::Atan2 => "atan2",
            Helper::Min => "min",
            Helper::Max => "max",
            Helper::Clamp => "clamp",
            Helper::Rand => "rand",
        }
    }

    /// Calls a function that takes no argument.
    pub fn call0(self) -> (result: u64)
        requires
            self.arity() == 0,
        ensures
            self.allows(0, 0, 0, result),
    {
        self.apply(0, 0, 0)
    }

    /// Calls a function that takes two arguments.
    pub fn call2(self, a: u64, b: u64) -> (result: u64)
        requires
            self.arity() == 2,
        ensures
            self.allows(a, b, 0, result),
    {
        self.apply(a, b, 0)
    }

    /// Calls a function that takes three arguments.
    pub fn call3(self, a: u64, b: u64, c: u64) -> (result: u64)
        requires
            self.arity() == 3,
        ensures
            self.allows(a, b, c, result),
    {
        self.apply(a, b, c)
    }

    /// Calls the function on as many of `a`, `b`, `c` as it takes.
    pub fn apply(self, a: u64, b: u64, c: u64) -> (result: u64)
        ensures
            self.allows(a, b, c, result),
    {
        match self {
            Helper::Atan2 => atan2(a, b),
            Helper::Min => min(a, b),
            Helper::Max => max(a, b),
            Helper::Clamp => clamp(a, b, c),
            Helper::Rand => rand(),
        }
    }
}

/// What `clamp` returns depends on its three arguments alone: two calls
/// with the same arguments return the same double, whatever came between.
pub proof fn clamp_depends_on_its_arguments_alone(
    x: u64,
    low: u64,
    high: u64,
    first: u64,
    second: u64,
)
    requires
        Helper::Clamp.allows(x, low, high, first),
        Helper::Clamp.allows(x, low, high, second),
    ensures
        first == second,
        first == x || first == low || first == high,
{
}

/// Between bounds that are numbers in order, a clamped number lies within
/// the bounds, and is the value itself where that already does.
pub proof fn clamped_is_within(x: u64, low: u64, high: u64)
    requires
        !is_nan(x),
        le(low, high),
    ensures
        le(low, clamped(x, low, high)),
        le(clamped(x, low, high), high),
        le(low, x) && le(x, high) ==> le(clamped(x, low, high), x) && le(x, clamped(x, low, high)),
{
}

} // verus!
