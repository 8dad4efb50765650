use maple_limit::palette::{
    hex_parts_on_char_boundaries, lospec_url, palette_from_response, parse_hex_color, Palette, Rgb8,
};

fn rgb(r: u8, g: u8, b: u8) -> Rgb8 {
    Rgb8 { r, g, b }
}

#[test]
fn parses_hex_colors() {
    assert_eq!(parse_hex_color("#1a1c2c"), Some(rgb(0x1a, 0x1c, 0x2c)));
    assert_eq!(parse_hex_color("1A1C2C"), Some(rgb(0x1a, 0x1c, 0x2c)));
    assert_eq!(parse_hex_color("##ffffff"), Some(rgb(255, 255, 255)));
    assert_eq!(parse_hex_color("+f+f+f"), Some(rgb(15, 15, 15)));
    assert_eq!(parse_hex_color("#fff"), None);
    assert_eq!(parse_hex_color("#gg0000"), None);
    assert_eq!(parse_hex_color("#-10000"), None);
    assert_eq!(parse_hex_color(""), None);
    assert_eq!(parse_hex_color("#1234567"), None);
}

#[test]
fn char_boundary_check() {
    assert!(hex_parts_on_char_boundaries("#abcdef"));
    assert!(hex_parts_on_char_boundaries("#ab"));
    // "aé123" is six bytes and its third byte continues the "é"
    assert!(!hex_parts_on_char_boundaries("a\u{e9}123"));
    // "éé12" is six bytes cut between characters
    assert!(hex_parts_on_char_boundaries("\u{e9}\u{e9}12"));
    assert_eq!(parse_hex_color("\u{e9}\u{e9}12"), None);
}

#[test]
fn lospec_address() {
    assert_eq!(lospec_url("sweetie-16"), "https://lospec.com/palette-list/sweetie-16.json");
}

#[test]
fn palette_from_an_answer() {
    let items = vec![Some("1a1c2c".to_string()), None, Some("nothex".to_string()), Some("#ffffff".to_string())];
    let p = palette_from_response("slug", Some("Nice"), Some(items)).ok().unwrap();
    assert_eq!(p.name, "Nice");
    assert_eq!(p.colors, vec![rgb(0x1a, 0x1c, 0x2c), rgb(255, 255, 255)]);
    let p = palette_from_response("slug", None, Some(vec![])).ok().unwrap();
    assert_eq!(p.name, "slug");
    assert!(p.colors.is_empty());
    let e = palette_from_response("slug", Some("Nice"), None).err().unwrap();
    assert_eq!(e, "No colors array in response");
}

#[test]
fn default_palette_is_sweetie_16() {
    let p: Palette<Rgb8> = Palette::default();
    assert_eq!(p.name, "Sweetie 16");
    assert_eq!(p.colors.len(), 16);
    assert_eq!(p.colors[0], rgb(0x1a, 0x1c, 0x2c));
    assert_eq!(p.colors[15], rgb(0x33, 0x3c, 0x57));
}
