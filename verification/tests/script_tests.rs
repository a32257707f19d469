use tixyva::ieee::{
    double_of_count, less_or_equal, unit_fraction, E, INFINITY, ONE, PHI, PI, SIGN, TAU, ZERO,
};
use tixyva::script::{compile, finish_compile, finish_evaluate, Bindings};
use tixyva::scripting::{atan2, clamp, max, min, rand, Helper};

fn samples() -> Vec<f64> {
    vec![
        0.0,
        -0.0,
        1.0,
        -1.0,
        0.5,
        -0.5,
        3.25,
        -3.25,
        1e-320,
        -1e-320,
        f64::MIN_POSITIVE,
        f64::MAX,
        f64::MIN,
        f64::INFINITY,
        f64::NEG_INFINITY,
        f64::NAN,
        -f64::NAN,
        f64::from_bits(0x7FF0_0000_0000_0001),
    ]
}

fn at(x: u32, y: u32, t: f64, v: f64, a: f64) -> Bindings {
    Bindings { t: t.to_bits(), i: y * 32 + x, x, y, v: v.to_bits(), a: a.to_bits() }
}

fn value_of(source: &str, bindings: &Bindings) -> f64 {
    let script = compile(source).expect("the script compiles");
    f64::from_bits(script.evaluate(bindings).expect("the script evaluates"))
}

#[test]
fn named_patterns_are_the_std_numbers() {
    assert_eq!(f64::from_bits(ZERO), 0.0);
    assert_eq!(f64::from_bits(ONE), 1.0);
    assert_eq!(f64::from_bits(PI), std::f64::consts::PI);
    assert_eq!(f64::from_bits(TAU), std::f64::consts::TAU);
    assert_eq!(f64::from_bits(E), std::f64::consts::E);
    assert_eq!(f64::from_bits(PHI), 1.618_033_988_749_895);
    assert_eq!(f64::from_bits(INFINITY), f64::INFINITY);
    assert_eq!(f64::from_bits(SIGN).to_bits(), (-0.0f64).to_bits());
}

#[test]
fn less_or_equal_is_the_comparison_of_doubles() {
    for a in samples() {
        for b in samples() {
            assert_eq!(less_or_equal(a.to_bits(), b.to_bits()), a <= b, "{a} <= {b}");
        }
    }
}

#[test]
fn clamp_holds_a_value_between_bounds() {
    assert_eq!(f64::from_bits(clamp(5.0f64.to_bits(), 0.0f64.to_bits(), 1.0f64.to_bits())), 1.0);
    assert_eq!(f64::from_bits(clamp((-5.0f64).to_bits(), 0.0f64.to_bits(), 1.0f64.to_bits())), 0.0);
    assert_eq!(f64::from_bits(clamp(0.25f64.to_bits(), 0.0f64.to_bits(), 1.0f64.to_bits())), 0.25);
    assert!(f64::from_bits(clamp(f64::NAN.to_bits(), 0.0f64.to_bits(), 1.0f64.to_bits())).is_nan());
}

#[test]
fn clamp_agrees_with_comparisons_on_doubles() {
    for x in samples() {
        for low in samples() {
            for high in samples() {
                let expected = if x <= low {
                    low
                } else if x >= high {
                    high
                } else {
                    x
                };
                let held = clamp(x.to_bits(), low.to_bits(), high.to_bits());
                assert_eq!(held, expected.to_bits(), "clamp({x}, {low}, {high})");
            }
        }
    }
}

#[test]
fn min_and_max_are_those_of_std() {
    assert_eq!(f64::from_bits(min(2.0f64.to_bits(), 3.0f64.to_bits())), 2.0);
    assert_eq!(f64::from_bits(max(2.0f64.to_bits(), 3.0f64.to_bits())), 3.0);
    assert_eq!(f64::from_bits(min(f64::NAN.to_bits(), 3.0f64.to_bits())), 3.0);
    assert_eq!(f64::from_bits(max(2.0f64.to_bits(), f64::NAN.to_bits())), 2.0);
    assert_eq!(f64::from_bits(min((-1.5f64).to_bits(), f64::NEG_INFINITY.to_bits())), f64::NEG_INFINITY);
    for a in samples() {
        for b in samples() {
            if a.is_nan() || b.is_nan() {
                continue;
            }
            let smaller = min(a.to_bits(), b.to_bits());
            let larger = max(a.to_bits(), b.to_bits());
            assert!(smaller == a.to_bits() || smaller == b.to_bits());
            assert!(larger == a.to_bits() || larger == b.to_bits());
            assert!(less_or_equal(smaller, a.to_bits()) && less_or_equal(smaller, b.to_bits()));
            assert!(less_or_equal(a.to_bits(), larger) && less_or_equal(b.to_bits(), larger));
        }
    }
}

#[test]
fn atan2_is_that_of_std() {
    let angle = f64::from_bits(atan2(1.0f64.to_bits(), 1.0f64.to_bits()));
    assert!((angle - std::f64::consts::FRAC_PI_4).abs() < 1e-12);
    let angle = f64::from_bits(atan2(0.0f64.to_bits(), (-1.0f64).to_bits()));
    assert!((angle - std::f64::consts::PI).abs() < 1e-12);
}

#[test]
fn unit_fraction_is_the_draw_over_two_to_the_52() {
    let draws: [u64; 10] = [
        0,
        1,
        4095,
        4096,
        8192,
        0x8000_0000_0000_0000,
        0xFFFF_FFFF_FFFF_FFFF,
        0x1234_5678_9ABC_DEF0,
        0x0000_0000_0010_0000,
        0x7FFF_FFFF_FFFF_F000,
    ];
    for draw in draws {
        let expected = f64::from_bits(ONE | (draw >> 12)) - 1.0;
        assert_eq!(unit_fraction(draw), expected.to_bits(), "draw {draw:#x}");
        assert_eq!(f64::from_bits(unit_fraction(draw)), (draw >> 12) as f64 / 4_503_599_627_370_496.0);
    }
    assert_eq!(unit_fraction(0x8000_0000_0000_0000), 0.5f64.to_bits());
    assert_eq!(unit_fraction(0x4000_0000_0000_0000), 0.25f64.to_bits());
}

#[test]
fn rand_is_at_least_zero_and_below_one() {
    let mut distinct = std::collections::HashSet::new();
    for _ in 0..1000 {
        let sample = f64::from_bits(rand());
        assert!((0.0..1.0).contains(&sample));
        distinct.insert(sample.to_bits());
    }
    assert!(distinct.len() > 900);
}

#[test]
fn helper_names_and_calls() {
    assert_eq!(Helper::Atan2.script_name(), "atan2");
    assert_eq!(Helper::Min.script_name(), "min");
    assert_eq!(Helper::Max.script_name(), "max");
    assert_eq!(Helper::Clamp.script_name(), "clamp");
    assert_eq!(Helper::Rand.script_name(), "rand");
    let (a, b, c) = (7.0f64.to_bits(), 2.0f64.to_bits(), 4.0f64.to_bits());
    assert_eq!(f64::from_bits(Helper::Min.apply(a, b, c)), 2.0);
    assert_eq!(f64::from_bits(Helper::Max.apply(a, b, c)), 7.0);
    assert_eq!(f64::from_bits(Helper::Clamp.apply(a, b, c)), 4.0);
    assert_eq!(Helper::Atan2.apply(a, b, c), atan2(a, b));
    assert!(f64::from_bits(Helper::Rand.apply(a, b, c)) < 1.0);
}

#[test]
fn first_pattern_at_the_origin() {
    let value = value_of("cos(t+i+x*y)", &at(0, 0, 0.0, 0.0, 0.0));
    assert!((value - 1.0).abs() < 1e-9);
}

#[test]
fn first_pattern_elsewhere() {
    let value = value_of("cos(t+i+x*y)", &at(3, 2, 1.5, 0.0, 0.0));
    let expected = (1.5f64 + 67.0 + 6.0).cos();
    assert!((value - expected).abs() < 1e-9);
}

#[test]
fn an_unbalanced_script_does_not_compile() {
    let error = compile("sin(x").err().expect("the script is refused");
    assert!(!error.message.is_empty());
}

#[test]
fn each_binding_reaches_the_script() {
    let bindings = at(5, 7, 2.5, 0.75, -4.0);
    assert_eq!(value_of("t", &bindings), 2.5);
    assert_eq!(value_of("i", &bindings), (7 * 32 + 5) as f64);
    assert_eq!(value_of("x", &bindings), 5.0);
    assert_eq!(value_of("y", &bindings), 7.0);
    assert_eq!(value_of("v", &bindings), 0.75);
    assert_eq!(value_of("a", &bindings), -4.0);
}

#[test]
fn named_numbers_reach_the_script() {
    let bindings = at(0, 0, 0.0, 0.0, 0.0);
    assert_eq!(value_of("PI", &bindings), std::f64::consts::PI);
    assert_eq!(value_of("TAU", &bindings), std::f64::consts::TAU);
    assert_eq!(value_of("E", &bindings), std::f64::consts::E);
    assert_eq!(value_of("PHI", &bindings), 1.618_033_988_749_895);
}

#[test]
fn helper_functions_reach_the_script() {
    let bindings = at(5, 7, 0.0, 0.0, 0.0);
    assert_eq!(value_of("min(x, y)", &bindings), 5.0);
    assert_eq!(value_of("max(x, y)", &bindings), 7.0);
    assert_eq!(value_of("clamp(x, 6.0, 9.0)", &bindings), 6.0);
    assert_eq!(value_of("clamp(y, 0.0, 6.5)", &bindings), 6.5);
    assert_eq!(value_of("clamp(x, 0.0, 6.5)", &bindings), 5.0);
    assert_eq!(value_of("atan2(y, x)", &bindings), 7.0f64.atan2(5.0));
    let sample = value_of("rand()", &bindings);
    assert!((0.0..1.0).contains(&sample));
}

#[test]
fn the_spiral_pattern_evaluates() {
    let source = "let a=x-16;let b=y-16;max(sin(sqrt(a*a+b*b)+atan2(b,a)-2*t),0.)";
    let value = value_of(source, &at(20, 10, 0.5, 0.0, 0.0));
    let (a, b) = (4.0f64, -6.0f64);
    let expected = ((a * a + b * b).sqrt() + b.atan2(a) - 2.0 * 0.5).sin().max(0.0);
    assert!((value - expected).abs() < 1e-9);
}

#[test]
fn a_script_without_rand_gives_the_same_value_twice() {
    let script = compile("sin(x/2)-sin(x-t)-y+6+a*v").expect("the script compiles");
    let bindings = at(9, 4, 12.25, 0.5, 0.125);
    let first = script.evaluate(&bindings).expect("the script evaluates");
    let second = script.evaluate(&bindings).expect("the script evaluates");
    assert_eq!(first, second);
}

#[test]
fn evaluation_fails_on_an_unknown_name() {
    let script = compile("q + 1.0").expect("the script compiles");
    let error = script.evaluate(&at(0, 0, 0.0, 0.0, 0.0)).err().expect("q is not bound");
    assert!(!error.message.is_empty());
}

#[test]
fn evaluation_fails_on_a_result_that_is_no_double() {
    let script = compile("0").expect("the script compiles");
    assert!(script.evaluate(&at(0, 0, 0.0, 0.0, 0.0)).is_err());
}

#[test]
fn a_script_reaches_no_clock_no_sleep_and_no_file() {
    let bindings = at(0, 0, 0.0, 0.0, 0.0);
    for source in [
        "sleep(1e300); 1.0",
        "sleep(1); 1.0",
        "let started = timestamp(); started.elapsed",
        "print(1); 1.0",
        "import \"nowhere\" as nothing; 1.0",
        "exit(); 1.0",
    ] {
        let script = compile(source).expect("the script compiles");
        let error = script.evaluate(&bindings).err().expect("the script reaches no such thing");
        assert!(!error.message.is_empty(), "{source}");
    }
}

#[test]
fn a_script_reaches_arithmetic_comparisons_and_the_mathematical_functions() {
    let bindings = at(3, 4, 0.5, 0.25, -2.0);
    assert_eq!(value_of("sqrt(x * x + y * y)", &bindings), 5.0);
    assert_eq!(value_of("abs(a) ** 2 + 7 % 4", &bindings), 7.0);
    assert_eq!(value_of("if x < y && y >= 4 { floor(t + 2.75) } else { 0.0 }", &bindings), 3.0);
    assert_eq!(value_of("-x + to_float(1 + 2 * 3)", &bindings), 4.0);
    assert_eq!(value_of("max(x, 0) + min(7, y)", &bindings), 7.0);
    assert_eq!(value_of("let n = 0.0; while n < 10.0 { n += v; } n", &bindings), 10.0);
    assert!((value_of("sin(PI / 2.0) + cos(0.0) + exp(0.0) + ln(E)", &bindings) - 4.0).abs() < 1e-12);
}

#[test]
fn arithmetic_that_fails_is_an_error() {
    let bindings = at(3, 4, 0.5, 0.25, -2.0);
    for source in [
        "to_float(1 / 0)",
        "to_float(9223372036854775807 + 1)",
        "to_float(2 ** 64)",
        "to_float(to_int(1e300))",
        "to_float(-(-9223372036854775807 - 1))",
        "to_float(parse_int(\"z\"))",
    ] {
        let script = compile(source).expect("the script compiles");
        assert!(script.evaluate(&bindings).is_err(), "{source}");
    }
}

#[test]
fn a_value_that_is_not_a_number_passes_through() {
    let bindings = at(1, 1, 0.0, 0.0, f64::NAN);
    assert!(value_of("a", &bindings).is_nan());
    assert!(value_of("clamp(a, 0.0, 1.0)", &bindings).is_nan());
    assert_eq!(value_of("max(a, 2.0)", &bindings), 2.0);
    assert_eq!(value_of("min(2.0, a)", &bindings), 2.0);
}

#[test]
fn finish_evaluate_keeps_the_double_and_wraps_the_message() {
    assert_eq!(finish_evaluate(Ok(1.5f64.to_bits())).ok(), Some(1.5f64.to_bits()));
    let error = finish_evaluate(Err("no such variable".to_string())).err().expect("an error");
    assert_eq!(error.message, "no such variable");
}

#[test]
fn a_count_reaches_the_script_as_the_double_of_its_value() {
    let mut bindings = at(0, 0, 0.0, 0.0, 0.0);
    assert_eq!(value_of("i", &bindings).to_bits(), 0);
    bindings.i = u32::MAX;
    bindings.x = 1023;
    bindings.y = 1 << 31;
    assert_eq!(value_of("i", &bindings), 4_294_967_295.0);
    assert_eq!(value_of("x", &bindings), 1023.0);
    assert_eq!(value_of("y", &bindings), 2_147_483_648.0);
}

#[test]
fn double_of_count_is_the_cast_of_the_language() {
    assert_eq!(double_of_count(0), 0);
    assert_eq!(double_of_count(1), ONE);
    assert_eq!(double_of_count(2), 2.0f64.to_bits());
    assert_eq!(double_of_count(1023), 1023.0f64.to_bits());
    for count in 0..5000u32 {
        assert_eq!(double_of_count(count), (count as f64).to_bits());
    }
    for shift in 0..32 {
        for nudge in [0u32, 1, 2] {
            let count = (1u32 << shift).wrapping_sub(nudge);
            assert_eq!(double_of_count(count), (count as f64).to_bits());
            let count = (1u32 << shift) | nudge;
            assert_eq!(double_of_count(count), (count as f64).to_bits());
        }
    }
    assert_eq!(double_of_count(u32::MAX), (u32::MAX as f64).to_bits());
}

#[test]
fn a_compile_error_is_never_empty() {
    for source in ["sin(x", "(", ")", "1 +", "let", "x ===", "fn f( { }", "\"open", "#", "a = = b"] {
        let error = compile(source).err().expect("the text is refused");
        assert!(!error.message.is_empty(), "{source}");
    }
    let kept = finish_compile(Err("Unknown operator: '=>' (line 1, position 3)".to_string()));
    assert_eq!(kept.err().expect("an error").message, "Unknown operator: '=>' (line 1, position 3)");
    let shown = finish_compile(Err(String::new()));
    assert_eq!(shown.err().expect("an error").message, "the script does not compile");
}

#[test]
fn a_helper_is_reached_by_its_name_and_its_number_of_arguments() {
    let bindings = at(5, 7, 0.0, 0.0, 0.0);
    assert_eq!(value_of("clamp(x, 6.0, 9.0)", &bindings), 6.0);
    for source in ["clamp(x, 6.0)", "rand(x)", "atan2(y)", "atan2(y, x, x)"] {
        let script = compile(source).expect("the script compiles");
        assert!(script.evaluate(&bindings).is_err(), "{source}");
    }
}

#[test]
fn atan2_takes_the_ordinate_first() {
    let bindings = at(0, 1, 0.0, 0.0, 0.0);
    assert_eq!(value_of("atan2(y, x)", &bindings), std::f64::consts::FRAC_PI_2);
    assert_eq!(value_of("atan2(x, y)", &bindings), 0.0);
    assert_eq!(Helper::Atan2.call2(1.0f64.to_bits(), 0.0f64.to_bits()), std::f64::consts::FRAC_PI_2.to_bits());
}
