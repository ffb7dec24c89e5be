use scarlet::color::{RGBColor, RGBParseError};
use scarlet::color_funcs::{check_weights, ColorCalcError};
use scarlet::html::{func_to_rgba, hex_to_rgba, rgba_from_groups, ColorParseError};
use scarlet::mix::Mix;
use scarlet::material_colors::{
    to_index, AccentTone, MaterialPrimary, MaterialTone, NeutralTone,
};

#[test]
fn test_rgb_to_string() {
    let c1 = RGBColor::from((0, 0, 0));
    let c2 = RGBColor::from((244, 182, 33));
    let c3 = RGBColor::from((0, 255, 0));
    assert_eq!(c1.to_string(), "#000000");
    assert_eq!(c2.to_string(), "#F4B621");
    assert_eq!(c3.to_string(), "#00FF00");
}

#[test]
fn test_rgb_from_hex() {
    // test rgb format
    let rgb = RGBColor::from_hex_code("#172844").unwrap();
    assert_eq!(rgb.int_r(), 23);
    assert_eq!(rgb.int_g(), 40);
    assert_eq!(rgb.int_b(), 68);
    // test with letters and no hex
    let rgb = RGBColor::from_hex_code("a1F1dB").unwrap();
    assert_eq!(rgb.int_r(), 161);
    assert_eq!(rgb.int_g(), 241);
    assert_eq!(rgb.int_b(), 219);
    // test for error if 7 chars
    let rgb = RGBColor::from_hex_code("#1244444");
    assert!(match rgb {
        Err(x) if x == RGBParseError::InvalidHexSyntax => true,
        _ => false,
    });
    // test for error if invalid hex chars
    let rgb = RGBColor::from_hex_code("#ffggbb");
    assert!(match rgb {
        Err(x) if x == RGBParseError::InvalidHexSyntax => true,
        _ => false,
    });
}

#[test]
fn test_rgb_from_name() {
    let rgb = RGBColor::from_color_name("yeLlowgreEn").unwrap();
    assert_eq!(rgb.int_r(), 154);
    assert_eq!(rgb.int_g(), 205);
    assert_eq!(rgb.int_b(), 50);
    // test error
    let rgb = RGBColor::from_color_name("thisisnotavalidnamelol");
    assert!(match rgb {
        Err(x) if x == RGBParseError::InvalidX11Name => true,
        _ => false,
    });
}

#[test]
fn test_to_string() {
    for hex in ["#000000", "#ABCDEF", "#1A2B3C", "#D00A12", "#40AA50"].iter() {
        assert_eq!(*hex, RGBColor::from_hex_code(hex).unwrap().to_string());
    }
}

#[test]
fn test_sample_colors() {
    // just a couple random ones, to test the general process
    let blue50 = MaterialPrimary::Blue(MaterialTone::Neutral(NeutralTone::W50));
    let red_a100 = MaterialPrimary::Red(MaterialTone::Accent(AccentTone::A100));
    let bluegrey400 = MaterialPrimary::BlueGrey(NeutralTone::W400);
    let black = MaterialPrimary::Black;
    let green500 = MaterialPrimary::Green(MaterialTone::Neutral(NeutralTone::W500));

    assert_eq!(RGBColor::from_material_palette(blue50).to_string(), "#E3F2FD");
    assert_eq!(RGBColor::from_material_palette(red_a100).to_string(), "#FF8A80");
    assert_eq!(RGBColor::from_material_palette(bluegrey400).to_string(), "#78909C");
    assert_eq!(RGBColor::from_material_palette(black).to_string(), "#000000");
    assert_eq!(RGBColor::from_material_palette(green500).to_string(), "#4CAF50");
}

#[test]
fn hex_code_short_form_doubles_each_digit() {
    assert_eq!(RGBColor::from_hex_code("#fa0"), Ok(RGBColor { r: 255, g: 170, b: 0 }));
    assert_eq!(RGBColor::from_hex_code("fa0"), RGBColor::from_hex_code("#ffaa00"));
    assert_eq!(RGBColor::from_hex_code("#1B9"), RGBColor::from_hex_code("11bb99"));
}

#[test]
fn hex_code_rejects_other_lengths_and_characters() {
    for text in ["#", "#1", "#12", "#1234", "#12345", "#1234567", "12345678", "##123", "#12 ",
        "12345g", "\u{e9}\u{e9}\u{e9}"]
    {
        assert_eq!(RGBColor::from_hex_code(text), Err(RGBParseError::InvalidHexSyntax), "{}", text);
    }
}

#[test]
fn hex_code_round_trip_on_every_channel_value() {
    for v in 0..=255u8 {
        let c = RGBColor { r: v, g: 255 - v, b: v ^ 0x5a };
        assert_eq!(RGBColor::from_hex_code(&c.to_string()), Ok(c));
        assert_eq!(c.to_string(), format!("#{:02X}{:02X}{:02X}", c.r, c.g, c.b));
        assert_eq!(c.int_rgb_tup(), (c.r, c.g, c.b));
    }
}

#[test]
fn color_names_in_any_case() {
    assert_eq!(RGBColor::from_color_name("red"), Ok(RGBColor { r: 255, g: 0, b: 0 }));
    assert_eq!(RGBColor::from_color_name("AliceBlue"), Ok(RGBColor { r: 240, g: 248, b: 255 }));
    assert_eq!(RGBColor::from_color_name("REBECCAPURPLE"), Ok(RGBColor { r: 102, g: 51, b: 153 }));
    assert_eq!(RGBColor::from_color_name("grey"), RGBColor::from_color_name("gray"));
    assert_eq!(RGBColor::from_color_name(""), Err(RGBParseError::InvalidX11Name));
    assert_eq!(RGBColor::from_color_name("re d"), Err(RGBParseError::InvalidX11Name));
    // the sign for kelvin has a lower case that is a plain letter
    assert_eq!(RGBColor::from_color_name("blac\u{212a}"), Ok(RGBColor { r: 0, g: 0, b: 0 }));
    assert_eq!(
        RGBColor::from_lowercase_name("blac\u{212a}"),
        Err(RGBParseError::InvalidX11Name)
    );
    assert_eq!(RGBColor::from_lowercase_name("Red"), Err(RGBParseError::InvalidX11Name));
    assert_eq!(RGBColor::from_lowercase_name("teal"), Ok(RGBColor { r: 0, g: 128, b: 128 }));
}

#[test]
fn color_name_transparent_carries_a_code_that_is_no_colour() {
    assert_eq!(RGBColor::from_color_name("transparent"), Err(RGBParseError::InvalidHexSyntax));
}

#[test]
fn color_from_str_tries_the_code_first() {
    assert_eq!(RGBColor::from_str("#800080"), Ok(RGBColor { r: 128, g: 0, b: 128 }));
    assert_eq!(RGBColor::from_str("Purple"), Ok(RGBColor { r: 128, g: 0, b: 128 }));
    assert_eq!(RGBColor::from_str("bad"), Ok(RGBColor { r: 187, g: 170, b: 221 }));
    assert_eq!(RGBColor::from_str("nothing"), Err(RGBParseError::InvalidX11Name));
}

#[test]
fn rgb_error_texts() {
    assert_eq!(RGBParseError::OutOfRange.description(), "RGB coordinates out of range");
    assert_eq!(RGBParseError::InvalidHexSyntax.description(), "Invalid hex code syntax");
    assert_eq!(
        RGBParseError::InvalidFuncSyntax.description(),
        "Invalid \"rgb(\" function call syntax"
    );
    assert_eq!(RGBParseError::InvalidX11Name.description(), "Invalid X11 color name");
    assert_eq!(RGBParseError::OutOfRange.to_string(), "RGB parsing error");
}

#[test]
fn terminal_escapes_around_text() {
    let c = RGBColor { r: 255, g: 7, b: 40 };
    assert_eq!(c.write_colored_str("hi"), "\u{1b}[38;2;255;7;40mhi\u{1b}[39m");
    assert_eq!(
        c.write_color(),
        "\u{1b}[48;2;255;7;40m\u{1b}[38;2;255;7;40m\u{25a0}\u{1b}[39m\u{1b}[49m"
    );
    let black = RGBColor { r: 0, g: 0, b: 0 };
    assert_eq!(black.write_colored_str(""), "\u{1b}[38;2;0;0;0m\u{1b}[39m");
    let c = RGBColor { r: 100, g: 99, b: 10 };
    assert_eq!(c.write_colored_str("x"), "\u{1b}[38;2;100;99;10mx\u{1b}[39m");
}

#[test]
fn html_hex_with_and_without_alpha() {
    assert_eq!(hex_to_rgba("#ff0080").unwrap(), vec![255, 0, 128, 255]);
    assert_eq!(hex_to_rgba("#23334412").unwrap(), vec![0x23, 0x33, 0x44, 0x12]);
    assert_eq!(hex_to_rgba("#aabbcc").unwrap(), vec![170, 187, 204, 255]);
    assert_eq!(hex_to_rgba("#AABBCC00").unwrap(), vec![170, 187, 204, 0]);
}

#[test]
fn html_hex_to_device_colour_and_back() {
    let rgba = hex_to_rgba("#ff0080").unwrap();
    let c = RGBColor::from((rgba[0], rgba[1], rgba[2]));
    assert_eq!(rgba[3], 255);
    assert_eq!(c.to_string().to_lowercase(), "#ff0080");
    assert_eq!(RGBColor::from_hex_code("#ff0080"), Ok(c));
}

#[test]
fn html_hex_errors() {
    for text in ["", "#", "ff0080", "#ff008", "#ff00800", "#ff0080001", "#ff00gg", "0ff0080",
        "#ff 080"]
    {
        assert_eq!(hex_to_rgba(text), Err(ColorParseError::InvalidHTMLHex), "{:?}", text);
    }
}

#[test]
fn html_function_notation() {
    assert_eq!(func_to_rgba("rgba(255, 0, 128, 56)").unwrap(), vec![255, 0, 128, 56]);
    assert_eq!(func_to_rgba("rgb(24, 33, 235)").unwrap(), vec![24, 33, 235, 255]);
    assert_eq!(func_to_rgba("rgb(1,2,3)").unwrap(), vec![1, 2, 3, 255]);
    assert_eq!(func_to_rgba("rgb(  001 ,  2 ,3  )").unwrap(), vec![1, 2, 3, 255]);
    assert_eq!(func_to_rgba("rgb(256, 0, 0)"), Err(ColorParseError::OutOfRangeRGBA));
    assert_eq!(func_to_rgba("rgba(0, 0, 0, 999)"), Err(ColorParseError::OutOfRangeRGBA));
    assert_eq!(func_to_rgba("rgb(1, 2)"), Err(ColorParseError::InvalidRGBAFunction));
    assert_eq!(func_to_rgba("rgb(1, 2, 3, 4)"), Err(ColorParseError::InvalidRGBAFunction));
    assert_eq!(func_to_rgba("rgba(1, 2, 3)"), Err(ColorParseError::InvalidRGBAFunction));
    assert_eq!(func_to_rgba("rgb(1000, 2, 3)"), Err(ColorParseError::InvalidRGBAFunction));
    assert_eq!(func_to_rgba("rgb(1, 2, 3) "), Err(ColorParseError::InvalidRGBAFunction));
    assert_eq!(func_to_rgba("RGB(1, 2, 3)"), Err(ColorParseError::InvalidRGBAFunction));
    assert_eq!(func_to_rgba("rgb(1; 2; 3)"), Err(ColorParseError::InvalidRGBAFunction));
    assert_eq!(func_to_rgba(""), Err(ColorParseError::InvalidRGBAFunction));
}

#[test]
fn html_groups_to_channels() {
    let text = |s: &str| Some(s.to_string());
    assert_eq!(rgba_from_groups(&None), Err(ColorParseError::InvalidRGBAFunction));
    assert_eq!(
        rgba_from_groups(&Some(vec![text("all"), text("1"), text("+2"), text("030")])),
        Ok(vec![1, 2, 30, 255])
    );
    assert_eq!(
        rgba_from_groups(&Some(vec![text("all"), text("1"), text("2"), text("3"), text("4")])),
        Ok(vec![1, 2, 3, 4])
    );
    assert_eq!(
        rgba_from_groups(&Some(vec![text("all"), text("1"), text("2"), text("256")])),
        Err(ColorParseError::OutOfRangeRGBA)
    );
    assert_eq!(
        rgba_from_groups(&Some(vec![text("all"), text("1"), None, text("3")])),
        Err(ColorParseError::OutOfRangeRGBA)
    );
    assert_eq!(
        rgba_from_groups(&Some(vec![text("all"), text("1"), text(""), text("3")])),
        Err(ColorParseError::OutOfRangeRGBA)
    );
    assert_eq!(
        rgba_from_groups(&Some(vec![text("all"), text("1"), text("-2"), text("3")])),
        Err(ColorParseError::OutOfRangeRGBA)
    );
    assert_eq!(
        rgba_from_groups(&Some(vec![text("all"), text("1"), text("2")])),
        Err(ColorParseError::InvalidRGBAFunction)
    );
    assert_eq!(rgba_from_groups(&Some(vec![])), Err(ColorParseError::InvalidRGBAFunction));
}

#[test]
fn material_tone_places() {
    assert_eq!(to_index(MaterialTone::Neutral(NeutralTone::W500)), 0);
    assert_eq!(to_index(MaterialTone::Neutral(NeutralTone::W50)), 1);
    assert_eq!(to_index(MaterialTone::Neutral(NeutralTone::W400)), 5);
    assert_eq!(to_index(MaterialTone::Neutral(NeutralTone::W600)), 6);
    assert_eq!(to_index(MaterialTone::Neutral(NeutralTone::W900)), 9);
    assert_eq!(to_index(MaterialTone::Accent(AccentTone::A100)), 10);
    assert_eq!(to_index(MaterialTone::Accent(AccentTone::A700)), 13);
}

#[test]
fn material_palette_corners() {
    let hex = |p| RGBColor::from_material_palette(p).to_string();
    assert_eq!(hex(MaterialPrimary::White), "#FFFFFF");
    assert_eq!(hex(MaterialPrimary::Red(MaterialTone::Neutral(NeutralTone::W500))), "#F44336");
    assert_eq!(hex(MaterialPrimary::Red(MaterialTone::Accent(AccentTone::A700))), "#D50000");
    assert_eq!(
        hex(MaterialPrimary::DeepOrange(MaterialTone::Accent(AccentTone::A700))),
        "#DD2C00"
    );
    assert_eq!(hex(MaterialPrimary::Brown(NeutralTone::W900)), "#3E2723");
    assert_eq!(hex(MaterialPrimary::Grey(NeutralTone::W50)), "#FAFAFA");
    assert_eq!(hex(MaterialPrimary::BlueGrey(NeutralTone::W500)), "#607D8B");
    assert_eq!(hex(MaterialPrimary::Teal(MaterialTone::Neutral(NeutralTone::W600))), "#00897B");
}

#[test]
fn weights_are_one_more_than_the_other_colours() {
    assert_eq!(check_weights(0, 1), Ok(()));
    assert_eq!(check_weights(2, 3), Ok(()));
    assert_eq!(check_weights(2, 2), Err(ColorCalcError::MismatchedWeights));
    assert_eq!(check_weights(0, 0), Err(ColorCalcError::MismatchedWeights));
    assert_eq!(check_weights(usize::MAX, 0), Err(ColorCalcError::MismatchedWeights));
}

#[test]
fn test_mix_rgb() {
    let c1 = RGBColor::from((0, 0, 255));
    let c2 = RGBColor::from((255, 0, 1));
    let c3 = RGBColor::from((127, 7, 19));
    // testing rounding away from 0
    assert_eq!(c1.mix(c2).to_string(), "#800080");
    assert_eq!(c1.mix(c3).to_string(), "#400489");
    assert_eq!(c2.mix(c3).to_string(), "#BF040A");
}

#[test]
fn test_grad_scale() {
    let start = RGBColor::from_hex_code("#11457c").unwrap();
    let end = RGBColor::from_hex_code("#774bdc").unwrap();
    let grad_hexes: Vec<String> = start
        .gradient_scale(&end, 5)
        .iter()
        .map(|x| x.to_string())
        .collect();
    assert_eq!(
        grad_hexes,
        vec!["#11457C", "#22468C", "#33479C", "#4448AC", "#5549BC", "#664ACC", "#774BDC"]
    );
}

#[test]
fn mixing_blue_and_red_gives_purple() {
    let blue = RGBColor { r: 0, g: 0, b: 255 };
    let red = RGBColor { r: 255, g: 0, b: 1 };
    assert_eq!(blue.mix(red), RGBColor { r: 128, g: 0, b: 128 });
    assert_eq!(red.mix(blue), RGBColor { r: 128, g: 0, b: 128 });
    assert_eq!(blue.midpoint(red).to_string(), "#800080");
    assert_eq!(blue.mix(blue), blue);
}

#[test]
fn mixing_rounds_halves_away_from_zero() {
    let a = RGBColor { r: 1, g: 0, b: 254 };
    let b = RGBColor { r: 32, g: 1, b: 255 };
    assert_eq!(a.mix(b), RGBColor { r: 17, g: 1, b: 255 });
    assert_eq!(a.mix(a), a);
}

#[test]
fn gradient_returns_its_endpoints_and_the_steps_between() {
    let start = RGBColor::from_hex_code("#11457c").unwrap();
    let end = RGBColor::from_hex_code("#774bdc").unwrap();
    assert_eq!(start.gradient_step(&end, 0, 6), start);
    assert_eq!(start.gradient_step(&end, 6, 6), end);
    assert_eq!(start.gradient_step(&end, 2, 6).to_string(), "#33479C");
    assert_eq!(start.gradient_step(&end, 1, 2), start.mix(end));
    assert_eq!(start.gradient_step(&end, 1, 1), end);
    let far = usize::MAX;
    assert_eq!(start.gradient_step(&end, 0, far), start);
    assert_eq!(start.gradient_step(&end, far, far), end);
}

#[test]
fn gradient_scale_without_steps_between_is_the_two_colours() {
    let start = RGBColor { r: 255, g: 0, b: 0 };
    let end = RGBColor { r: 0, g: 0, b: 255 };
    assert_eq!(start.gradient_scale(&end, 0), vec![start, end]);
    assert_eq!(
        start.gradient_scale(&end, 1),
        vec![start, RGBColor { r: 128, g: 0, b: 128 }, end]
    );
    assert_eq!(
        start.gradient_scale(&end, 2),
        vec![start, RGBColor { r: 170, g: 0, b: 85 }, RGBColor { r: 85, g: 0, b: 170 }, end]
    );
}

#[test]
fn weighted_average_of_colours() {
    let red = RGBColor { r: 255, g: 0, b: 0 };
    let green = RGBColor { r: 0, g: 255, b: 0 };
    let blue = RGBColor { r: 0, g: 0, b: 255 };
    assert_eq!(red.weighted_average(&vec![], &vec![7]), Ok(red));
    assert_eq!(
        red.weighted_average(&vec![blue], &vec![1, 1]),
        Ok(RGBColor { r: 128, g: 0, b: 128 })
    );
    assert_eq!(
        red.weighted_average(&vec![green, blue], &vec![1, 1, 2]),
        Ok(RGBColor { r: 64, g: 64, b: 128 })
    );
    assert_eq!(
        red.weighted_average(&vec![green, blue], &vec![0, 3, 0]),
        Ok(green)
    );
    assert_eq!(
        red.weighted_average(&vec![blue], &vec![u32::MAX, u32::MAX]),
        Ok(RGBColor { r: 128, g: 0, b: 128 })
    );
    assert_eq!(
        red.weighted_average(&vec![green], &vec![1, 1, 1]),
        Err(ColorCalcError::MismatchedWeights)
    );
    assert_eq!(
        red.weighted_average(&vec![green, blue], &vec![1]),
        Err(ColorCalcError::MismatchedWeights)
    );
    assert_eq!(
        red.weighted_average(&vec![green], &vec![]),
        Err(ColorCalcError::MismatchedWeights)
    );
}
