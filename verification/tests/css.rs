use scarlet::consts::UNIT_THRESHOLDS;
use scarlet::csscolor::{is_rgb_str_defined, parse_rgb_num, parse_rgb_str};
use scarlet::cssnumeric::{
    is_css_float, is_css_integer, is_css_number_defined, parse_css_float, parse_css_integer,
    parse_css_number, CSSNumeric, CSSParseError,
};

fn float_of(num: CSSNumeric) -> f64 {
    match num {
        CSSNumeric::Float(val) => val.to_string().parse().unwrap(),
        _ => 0.,
    }
}

#[test]
fn it_works() {
    assert_eq!(2 + 2, 4);
}

#[test]
fn test_rgb_num_parsing() {
    // test integers
    assert_eq!(104u8, parse_rgb_num("104").unwrap());
    assert_eq!(255u8, parse_rgb_num("234923").unwrap());
    // test floats
    assert_eq!(123u8, parse_rgb_num(".48235").unwrap());
    assert_eq!(255u8, parse_rgb_num("1.04").unwrap());
    // test percents
    assert_eq!(122u8, parse_rgb_num("48%").unwrap());
    assert_eq!(255u8, parse_rgb_num("115%").unwrap());
    // test errors
    assert_eq!(Err(CSSParseError::InvalidNumericCharacters), parse_rgb_num("abc"));
    assert_eq!(Err(CSSParseError::InvalidNumericSyntax), parse_rgb_num("123%%"));
}

#[test]
fn test_rgb_str_parsing() {
    // test integers and percents all at once
    let rgb = parse_rgb_str("rgb(125, 20%, 0.5)").unwrap();
    assert_eq!(rgb, (125, 51, 127));
    // test clamping in every direction
    let rgb = parse_rgb_str("rgb(-125, -20%, 10.5)").unwrap();
    assert_eq!(rgb, (0, 0, 255));
    // test error on bad syntax
    assert_eq!(Err(CSSParseError::InvalidColorSyntax), parse_rgb_str("rgB(123, 33, 2)"));
    assert_eq!(Err(CSSParseError::InvalidColorSyntax), parse_rgb_str("rgb(123, 123, 41, 22)"));
    assert_eq!(Err(CSSParseError::InvalidColorSyntax), parse_rgb_str("rgB(())"));
}

#[test]
fn test_css_parse_integer() {
    let num1 = match parse_css_number("184").unwrap() {
        CSSNumeric::Integer(val) => val,
        _ => 0,
    };
    assert_eq!(num1, 184);
    // test leading zeros
    let num2 = match parse_css_number("00423").unwrap() {
        CSSNumeric::Integer(val) => val,
        _ => 0,
    };
    assert_eq!(num2, 423);
    // test negative sign
    let num3 = match parse_css_number("-00423").unwrap() {
        CSSNumeric::Integer(val) => val,
        _ => 0,
    };
    assert_eq!(num3, -423);
    // test positive sign
    let num4 = match parse_css_number("+00423").unwrap() {
        CSSNumeric::Integer(val) => val,
        _ => 0,
    };
    assert_eq!(num4, 423);
}

#[test]
fn test_css_parse_float() {
    let num1 = float_of(parse_css_number("0.37").unwrap());
    assert_eq!(format!("{}", num1), "0.37");
    // test no leading zeros
    let num2 = float_of(parse_css_number(".423").unwrap());
    assert_eq!(format!("{}", num2), "0.423");
    // test negative sign
    let num3 = float_of(parse_css_number("-00.423").unwrap());
    assert_eq!(format!("{}", num3), "-0.423");
    // test positive sign
    let num4 = float_of(parse_css_number("+00.423").unwrap());
    assert_eq!(format!("{}", num4), "0.423");
}

#[test]
fn test_css_parse_percentages() {
    // just repeating integer tests for this one
    let num1 = match parse_css_number("184%").unwrap() {
        CSSNumeric::Percentage(val) => val,
        _ => 0,
    };
    assert_eq!(num1, 184);
    // test leading zeros
    let num2 = match parse_css_number("00423%").unwrap() {
        CSSNumeric::Percentage(val) => val,
        _ => 0,
    };
    assert_eq!(num2, 423);
    // test negative sign
    let num3 = match parse_css_number("-00423%").unwrap() {
        CSSNumeric::Percentage(val) => val,
        _ => 0,
    };
    assert_eq!(num3, -423);
    // test positive sign
    let num4 = match parse_css_number("+00423%").unwrap() {
        CSSNumeric::Percentage(val) => val,
        _ => 0,
    };
    assert_eq!(num4, 423);
}

#[test]
fn test_errors() {
    // test non-numeric characters
    assert!(matches!(
        parse_css_number("abc"),
        Err(CSSParseError::InvalidNumericCharacters)
    ));
    // test multiple periods
    assert!(matches!(
        parse_css_number("14.23.2"),
        Err(CSSParseError::InvalidNumericSyntax)
    ));
    // test multiple percentages, percentages in wrong place
    assert!(matches!(
        parse_css_number("-24%%"),
        Err(CSSParseError::InvalidNumericSyntax)
    ));
    assert!(matches!(
        parse_css_number("1%2%"),
        Err(CSSParseError::InvalidNumericSyntax)
    ));
}

#[test]
fn css_integer_reads_digits_and_a_plus() {
    assert_eq!(parse_css_integer("023"), 23);
    assert_eq!(parse_css_integer("142"), 142);
    assert_eq!(parse_css_integer("+7"), 7);
    assert_eq!(parse_css_integer("18446744073709551615"), u64::MAX);
    assert!(is_css_integer("0"));
    assert!(is_css_integer("+0012"));
    assert!(!is_css_integer(""));
    assert!(!is_css_integer("+"));
    assert!(!is_css_integer("-1"));
    assert!(!is_css_integer("1+2"));
    assert!(!is_css_integer("18446744073709551616"));
}

#[test]
fn css_integer_domain_agrees_with_std() {
    for text in ["", "+", "0", "+5", "++5", "-5", "12a", "007", "18446744073709551615",
        "18446744073709551616", "99999999999999999999999", "1 ", " 1"]
    {
        assert_eq!(is_css_integer(text), text.parse::<u64>().is_ok(), "{:?}", text);
        if is_css_integer(text) {
            assert_eq!(parse_css_integer(text), text.parse::<u64>().unwrap());
        }
    }
}

#[test]
fn css_float_keeps_the_digits() {
    let d = parse_css_float("123.42");
    assert!(!d.negative);
    assert_eq!(d.whole, vec!['1', '2', '3']);
    assert_eq!(d.fraction, vec!['4', '2']);
    assert_eq!(d.to_string(), "123.42");
    assert_eq!(parse_css_float(".34").to_string(), ".34");
    assert_eq!(parse_css_float("5.").to_string(), "5.");
    assert_eq!(parse_css_float("+00.5").to_string(), "00.5");
}

#[test]
fn css_float_domain_agrees_with_std() {
    for text in ["", ".", "+.", "1.", ".1", "+.5", "+1.5", "1.5%", "1.+5", "1..2", "12",
        "0.0", "00.00", "-1.5", "1.5+", "%1.5"]
    {
        let has_point = text.contains('.');
        let expected = has_point && text.parse::<f64>().is_ok() && !text.starts_with('-');
        assert_eq!(is_css_float(text), expected, "{:?}", text);
    }
}

#[test]
fn css_number_signs_and_forms() {
    assert!(matches!(parse_css_number("++5"), Ok(CSSNumeric::Integer(5))));
    assert!(matches!(parse_css_number("-+5"), Ok(CSSNumeric::Integer(-5))));
    assert!(matches!(parse_css_number("-0"), Ok(CSSNumeric::Integer(0))));
    assert!(matches!(parse_css_number("+12%"), Ok(CSSNumeric::Percentage(12))));
    assert!(matches!(parse_css_number("-"), Err(CSSParseError::InvalidNumericSyntax)));
    assert!(matches!(parse_css_number("+"), Err(CSSParseError::InvalidNumericSyntax)));
    assert!(matches!(parse_css_number("5-"), Err(CSSParseError::InvalidNumericSyntax)));
    assert!(matches!(parse_css_number("%5"), Err(CSSParseError::InvalidNumericSyntax)));
    assert!(matches!(parse_css_number("1 2"), Err(CSSParseError::InvalidNumericCharacters)));
    match parse_css_number("-0.25").unwrap() {
        CSSNumeric::Float(d) => {
            assert!(d.negative);
            assert_eq!(d.to_string(), "-0.25");
        }
        _ => panic!("a number with a point"),
    }
}

#[test]
fn css_number_wraps_large_magnitudes_as_a_cast_does() {
    let big = "18446744073709551615";
    assert!(is_css_number_defined(big));
    match parse_css_number(big).unwrap() {
        CSSNumeric::Integer(v) => assert_eq!(v, u64::MAX as isize),
        _ => panic!("an integer"),
    }
}

#[test]
fn css_number_domain() {
    for text in ["184", "-00423", "+00423%", "0.37", ".423", "abc", "14.23.2", "-24%%", "1%2%",
        "-", "+", "a", "++5"]
    {
        assert!(is_css_number_defined(text), "{:?}", text);
    }
    for text in ["", "1+2", "++", "1.5%", ".", "+.", "-.", "1.+5", "99999999999999999999999",
        "+%", "-9223372036854775808"]
    {
        assert!(!is_css_number_defined(text), "{:?}", text);
    }
}

#[test]
fn css_error_texts() {
    assert_eq!(
        CSSParseError::InvalidNumericCharacters.description(),
        "Unexpected non-numeric characters"
    );
    assert_eq!(CSSParseError::InvalidNumericSyntax.description(), "Invalid numeric syntax");
    assert_eq!(CSSParseError::InvalidColorSyntax.description(), "Invalid color syntax");
    assert_eq!(CSSParseError::InvalidColorSyntax.to_string(), "CSS parsing error");
}

#[test]
fn rgb_num_integers_clamp() {
    assert_eq!(parse_rgb_num("0"), Ok(0));
    assert_eq!(parse_rgb_num("-17"), Ok(0));
    assert_eq!(parse_rgb_num("1"), Ok(1));
    assert_eq!(parse_rgb_num("254"), Ok(254));
    assert_eq!(parse_rgb_num("255"), Ok(255));
    assert_eq!(parse_rgb_num("256"), Ok(255));
}

#[test]
fn rgb_num_percentages_round_as_the_floating_product_does() {
    for p in -20i32..=130 {
        let clamped = p.max(0).min(100);
        let expected = (clamped as f64 * 2.55).round() as u8;
        assert_eq!(parse_rgb_num(&format!("{}%", p)), Ok(expected), "{}%", p);
    }
    assert_eq!(parse_rgb_num("10%"), Ok(26));
    assert_eq!(parse_rgb_num("30%"), Ok(77));
    assert_eq!(parse_rgb_num("50%"), Ok(127));
    assert_eq!(parse_rgb_num("70%"), Ok(179));
    assert_eq!(parse_rgb_num("90%"), Ok(229));
}

fn float_channel(text: &str) -> u8 {
    let val: f64 = text.parse().unwrap();
    let clamped = if val <= 0. {
        0.
    } else if val >= 1. {
        1.
    } else {
        val
    };
    (clamped * 255. - 0.000001).round() as u8
}

#[test]
fn rgb_num_points_agree_with_floating_point_on_short_fractions() {
    for n in 0..=2000u32 {
        let text = format!("0.{:04}", n % 10000);
        assert_eq!(parse_rgb_num(&text), Ok(float_channel(&text)), "{}", text);
    }
    for n in 0..=999u32 {
        let text = format!(".{:03}", n);
        assert_eq!(parse_rgb_num(&text), Ok(float_channel(&text)), "{}", text);
    }
    for text in ["0.5", "0.50", "0.500000", "0.5000000", "0.500001", "0.5000001",
        "0.50000039215686", "0.50000039215687", "0.0019607", "0.0019608", "0.00196",
        "0.999999", "0.9999999999", "1.", "1.0", "0.", ".0", "-0.5", "-0.0", "00.25",
        "2.5", "10.5", "0.00000000000000000000000000000000000000000001",
        "0.99999999999999999999999999999999999999999999"]
    {
        assert_eq!(parse_rgb_num(text), Ok(float_channel(text)), "{}", text);
    }
}

#[test]
fn rgb_num_points_agree_with_floating_point_at_every_threshold() {
    let mut expected = 0u8;
    for (digits, inclusive) in UNIT_THRESHOLDS.iter() {
        let on = format!("0.{}", digits);
        let above = format!("0.{}1", digits);
        let below = format!("0.{}", decrement(digits));
        assert_eq!(parse_rgb_num(&below), Ok(expected), "{}", below);
        assert_eq!(parse_rgb_num(&above), Ok(expected + 1), "{}", above);
        assert_eq!(
            parse_rgb_num(&on),
            Ok(if *inclusive { expected + 1 } else { expected }),
            "{}",
            on
        );
        for text in [&on, &above, &below] {
            assert_eq!(parse_rgb_num(text), Ok(float_channel(text)), "{}", text);
        }
        for cut in [3, 6, 9, 12, 15, 16, 17, 18, 19, 20, 25, 40] {
            let text = format!("0.{}", &digits[..cut]);
            assert_eq!(parse_rgb_num(&text), Ok(float_channel(&text)), "{}", text);
        }
        expected += 1;
    }
    assert_eq!(expected, 255);
}

// The digits of the number that is one unit of the last place smaller.
fn decrement(digits: &str) -> String {
    let mut out: Vec<u8> = digits.bytes().collect();
    let mut i = out.len();
    while i > 0 {
        i -= 1;
        if out[i] == b'0' {
            out[i] = b'9';
        } else {
            out[i] -= 1;
            break;
        }
    }
    String::from_utf8(out).unwrap()
}

#[test]
fn rgb_num_points_agree_with_floating_point_on_long_fractions() {
    // a small generator of digits, so that the test is the same on every run
    let mut state: u64 = 0x2545_f491_4f6c_dd1d;
    for _ in 0..20000 {
        let mut text = String::from("0.");
        state ^= state << 13;
        state ^= state >> 7;
        state ^= state << 17;
        let len = 1 + (state % 30) as usize;
        for _ in 0..len {
            state ^= state << 13;
            state ^= state >> 7;
            state ^= state << 17;
            text.push((b'0' + (state % 10) as u8) as char);
        }
        assert_eq!(parse_rgb_num(&text), Ok(float_channel(&text)), "{}", text);
    }
    for text in ["0.02941176862745098039", "0.03333333725490195778", "0.03333333725490196078"] {
        assert_eq!(parse_rgb_num(text), Ok(float_channel(text)), "{}", text);
    }
    assert_eq!(parse_rgb_num("0.02941176862745098039"), Ok(8));
}

#[test]
fn rgb_num_point_formula_values() {
    assert_eq!(parse_rgb_num("0.5"), Ok(127));
    assert_eq!(parse_rgb_num("0.500001"), Ok(128));
    assert_eq!(parse_rgb_num(".48235"), Ok(123));
    assert_eq!(parse_rgb_num("0.001"), Ok(0));
    assert_eq!(parse_rgb_num("0.002"), Ok(1));
    assert_eq!(parse_rgb_num("0.998"), Ok(254));
    assert_eq!(parse_rgb_num("0.9981"), Ok(255));
    assert_eq!(parse_rgb_num("-0.3"), Ok(0));
    assert_eq!(parse_rgb_num("+0.3"), Ok(76));
}

#[test]
fn rgb_str_errors_and_spaces() {
    assert_eq!(parse_rgb_str("rgb(  1  ,2,   3 )"), Ok((1, 2, 3)));
    assert_eq!(parse_rgb_str("rgb(100%,0%,50%)"), Ok((255, 0, 127)));
    assert_eq!(parse_rgb_str("rgb(1,2,3)"), Ok((1, 2, 3)));
    assert_eq!(parse_rgb_str("rgb(1, 2)  "), Err(CSSParseError::InvalidColorSyntax));
    assert_eq!(parse_rgb_str("rgb(1,2)"), Err(CSSParseError::InvalidColorSyntax));
    assert_eq!(parse_rgb_str("rgb(1, 2, 3"), Err(CSSParseError::InvalidColorSyntax));
    assert_eq!(parse_rgb_str("rgb(1, 2, x3)"), Err(CSSParseError::InvalidColorSyntax));
    assert_eq!(parse_rgb_str("rgb(1, 2 2, 3)"), Err(CSSParseError::InvalidNumericCharacters));
    assert_eq!(parse_rgb_str("rgb(1, 2.2.2, 3)"), Err(CSSParseError::InvalidNumericSyntax));
    assert_eq!(parse_rgb_str("rgb(1%%, , 3)"), Err(CSSParseError::InvalidNumericSyntax));
    assert_eq!(parse_rgb_str("rgb(\u{e9}, 2, 3)"), Err(CSSParseError::InvalidColorSyntax));
}

#[test]
fn rgb_str_domain() {
    assert!(is_rgb_str_defined("rgb(125, 20%, 0.5)"));
    assert!(is_rgb_str_defined("rgB(())"));
    assert!(is_rgb_str_defined("rgb(1%%, , 3)"));
    assert!(is_rgb_str_defined("short"));
    assert!(!is_rgb_str_defined("rgb(1, , 3)"));
    assert!(!is_rgb_str_defined("rgb(1, 2, 3,)"));
    assert!(!is_rgb_str_defined("rgb(1.5%, 2, 3)"));
    assert!(!is_rgb_str_defined("rgb(1+2, 2, 3)"));
}

#[test]
fn rgb_str_reads_back_what_is_written() {
    for v in 0..=255u8 {
        let (r, g, b) = (v, 255 - v, v.wrapping_mul(7));
        assert_eq!(parse_rgb_str(&format!("rgb({}, {}, {})", r, g, b)), Ok((r, g, b)));
        assert_eq!(parse_rgb_num(&format!("{}", v)), Ok(v));
        assert!(is_rgb_str_defined(&format!("rgb({}, {}, {})", r, g, b)));
    }
}
