use maple_limit::export::{rgb_color, style_attributes, svg_element, LineCap, LineJoin, SvgElement};
use maple_limit::palette::Rgb8;
use maple_limit::shape::ShapeKind;
use maple_limit::grid::{GridConfig, GridStyle};
use maple_limit::keys::{shortcut, Shortcut};

#[test]
fn svg_colors() {
    assert_eq!(rgb_color(26, 0, 255), "rgb(26,0,255)");
    assert_eq!(rgb_color(7, 100, 99), "rgb(7,100,99)");
}

#[test]
fn grid_snapping() {
    let g = GridConfig::with_size(32.0f32);
    assert_eq!(g.style, GridStyle::Lines);
    assert!(g.snaps(false));
    assert!(!g.snaps(true));
    let g = GridConfig { snap: false, ..g };
    assert!(g.snaps(true));
    let g = GridConfig { visible: false, ..g };
    assert!(!g.snaps(true));
    assert_eq!(GridStyle::Isometric.label(), "Isometric");
    assert_eq!(GridStyle::all()[1], GridStyle::Dots);
}

#[test]
fn keyboard_shortcuts() {
    assert_eq!(shortcut(true, false, Some('z')), Some(Shortcut::Undo));
    assert_eq!(shortcut(true, true, Some('z')), Some(Shortcut::Redo));
    assert_eq!(shortcut(true, false, Some('y')), Some(Shortcut::Redo));
    assert_eq!(shortcut(true, false, Some('s')), Some(Shortcut::SaveSvg));
    assert_eq!(shortcut(true, true, Some('s')), Some(Shortcut::SaveSvgAs));
    assert_eq!(shortcut(true, false, Some('t')), Some(Shortcut::OpenSettings));
    assert_eq!(shortcut(false, false, Some('z')), None);
    assert_eq!(shortcut(true, false, Some('q')), None);
    assert_eq!(shortcut(true, false, None), None);
}

fn pairs(v: Vec<(&'static str, String)>) -> Vec<(String, String)> {
    v.into_iter().map(|(k, x)| (k.to_string(), x)).collect()
}

#[test]
fn svg_style_attributes() {
    let red = Rgb8 { r: 255, g: 0, b: 0 };
    let got = pairs(style_attributes(Some(red), "2.5".to_string(), None, LineCap::Butt, LineJoin::Miter));
    assert_eq!(
        got,
        vec![
            ("stroke".to_string(), "rgb(255,0,0)".to_string()),
            ("stroke-width".to_string(), "2.5".to_string()),
            ("fill".to_string(), "none".to_string()),
        ]
    );
    let blue = Rgb8 { r: 0, g: 0, b: 200 };
    let got = pairs(style_attributes(None, "2".to_string(), Some(blue), LineCap::Round, LineJoin::Bevel));
    assert_eq!(
        got,
        vec![
            ("stroke".to_string(), "none".to_string()),
            ("fill".to_string(), "rgb(0,0,200)".to_string()),
            ("stroke-linecap".to_string(), "round".to_string()),
            ("stroke-linejoin".to_string(), "bevel".to_string()),
        ]
    );
    let got = pairs(style_attributes(None, "1".to_string(), None, LineCap::Square, LineJoin::Round));
    assert_eq!(got[2], ("stroke-linecap".to_string(), "square".to_string()));
    assert_eq!(got[3], ("stroke-linejoin".to_string(), "round".to_string()));
}

#[test]
fn svg_element_choice() {
    assert_eq!(svg_element(ShapeKind::Circle, false, false, 0), Some(SvgElement::Circle));
    assert_eq!(svg_element(ShapeKind::Rectangle, true, true, 0), Some(SvgElement::ChamferedPath));
    assert_eq!(svg_element(ShapeKind::Rectangle, true, false, 0), Some(SvgElement::Rect));
    assert_eq!(svg_element(ShapeKind::Rectangle, false, true, 0), Some(SvgElement::Rect));
    assert_eq!(svg_element(ShapeKind::RightTriangle, false, false, 0), Some(SvgElement::Polygon));
    assert_eq!(svg_element(ShapeKind::Line, false, false, 0), Some(SvgElement::Line));
    assert_eq!(svg_element(ShapeKind::Polyline, false, false, 1), None);
    assert_eq!(svg_element(ShapeKind::Polyline, false, false, 2), Some(SvgElement::Polyline));
    assert_eq!(svg_element(ShapeKind::Spline, false, false, 0), None);
    assert_eq!(svg_element(ShapeKind::Spline, false, false, 1), Some(SvgElement::CurvePath));
}
