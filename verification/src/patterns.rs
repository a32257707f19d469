//! The built-in patterns: example scripts, chosen by digit.

use vstd::prelude::*;

verus! {

/// How many patterns there are.
pub const PATTERN_COUNT: usize = 6;

/// The text of the pattern at `index`, if there is one.
pub open spec fn pattern_source(index: int) -> Option<Seq<char>> {
    if index == 0 {
        Some("cos(t+i+x*y)"@)
    } else if index == 1 {
        Some("let a=x-16;let b=y-16;max(sin(sqrt(a*a+b*b)+atan2(b,a)-2*t),0.)"@)
    } else if index == 2 {
        Some("sin(x/2)-sin(x-t)-y+6"@)
    } else if index == 3 {
        Some("a+(rand()-0.5)*(i/(32*32))"@)
    } else if index == 4 {
        Some("max((y/40+v*2)-tan(x/PI+rand()-t+a)**2,0.)"@)
    } else if index == 5 {
        Some(
            "let c=x-16;let d=y-16;let h=sqrt(c*c+d*d);sin(1+h/(8+2*v+rand()))**20-abs(y/60*sin(t/5)+h/100)"@,
        )
    } else {
        None
    }
}

/// The digit that a character stands for, if it is one of '0' to '9'.
pub open spec fn digit_of(c: char) -> Option<int> {
    if '0' <= c <= '9' {
        Some(c as int - '0' as int)
    } else {
        None
    }
}

/// The text of the pattern at `index`, if there is one.
pub fn pattern(index: usize) -> (source: Option<&'static str>)
    ensures
        match source {
            Some(text) => pattern_source(index as int) == Some(text@),
            None => pattern_source(index as int) is None,
        },
{
    if index == 0 {
        // Gentle noise
        Some("cos(t+i+x*y)")
    } else if index == 1 {
        // A spiral
        Some("let a=x-16;let b=y-16;max(sin(sqrt(a*a+b*b)+atan2(b,a)-2*t),0.)")
    } else if index == 2 {
        // Waves
        Some("sin(x/2)-sin(x-t)-y+6")
    } else if index == 3 {
        // Using the accumulator
        Some("a+(rand()-0.5)*(i/(32*32))")
    } else if index == 4 {
        // Fire
        Some("max((y/40+v*2)-tan(x/PI+rand()-t+a)**2,0.)")
    } else if index == 5 {
        // Voice ring
        Some(
            "let c=x-16;let d=y-16;let h=sqrt(c*c+d*d);sin(1+h/(8+2*v+rand()))**20-abs(y/60*sin(t/5)+h/100)",
        )
    } else {
        None
    }
}

/// The digit that a character stands for, if it is one of '0' to '9'.
pub fn digit(c: char) -> (value: Option<usize>)
    ensures
        match value {
            Some(d) => digit_of(c) == Some(d as int),
            None => digit_of(c) is None,
        },
{
    let code: u32 = c as u32;
    if 48 <= code && code <= 57 {
        Some((code - 48) as usize)
    } else {
        None
    }
}

/// There is a pattern for each index below `PATTERN_COUNT` and for no
/// other, so every digit key from '0' to '5' selects one.
pub proof fn patterns_are_counted(index: int)
    ensures
        pattern_source(index) is Some <==> 0 <= index < PATTERN_COUNT,
{
}

} // verus!
