//! The parts of the SVG export that are not coordinates: colour text,
//! style attributes, and which element a shape becomes.

use vstd::prelude::*;

use crate::palette::Rgb8;
use crate::boolean::spec_is_closed_shape;
use crate::shape::ShapeKind;

verus! {

/// The decimal digits of `n`, without leading zeros.
pub open spec fn decimal(n: nat) -> Seq<char>
    decreases n,
{
    if n < 10 {
        seq![digit_char(n)]
    } else {
        decimal(n / 10) + seq![digit_char(n % 10)]
    }
}

pub open spec fn digit_char(d: nat) -> char {
    if d == 0 {
        '0'
    } else if d == 1 {
        '1'
    } else if d == 2 {
        '2'
    } else if d == 3 {
        '3'
    } else if d == 4 {
        '4'
    } else if d == 5 {
        '5'
    } else if d == 6 {
        '6'
    } else if d == 7 {
        '7'
    } else if d == 8 {
        '8'
    } else {
        '9'
    }
}

fn digit_str(d: u8) -> (s: &'static str)
    requires
        d < 10,
    ensures
        s@ == seq![digit_char(d as nat)],
{
    proof {
        reveal_strlit("0");
        reveal_strlit("1");
        reveal_strlit("2");
        reveal_strlit("3");
        reveal_strlit("4");
        reveal_strlit("5");
        reveal_strlit("6");
        reveal_strlit("7");
        reveal_strlit("8");
        reveal_strlit("9");
    }
    if d == 0 {
        "0"
    } else if d == 1 {
        "1"
    } else if d == 2 {
        "2"
    } else if d == 3 {
        "3"
    } else if d == 4 {
        "4"
    } else if d == 5 {
        "5"
    } else if d == 6 {
        "6"
    } else if d == 7 {
        "7"
    } else if d == 8 {
        "8"
    } else {
        "9"
    }
}

/// Appends the decimal digits of `n`.
fn append_decimal(s: &mut String, n: u8)
    ensures
        final(s)@ == old(s)@ + decimal(n as nat),
{
    let ghost s0 = s@;
    if n >= 100 {
        let h = n / 100;
        let t = (n / 10) % 10;
        let u = n % 10;
        s.append(digit_str(h));
        s.append(digit_str(t));
        s.append(digit_str(u));
        proof {
            let m = (n / 10) as nat;
            assert(m / 10 == h as nat && m % 10 == t as nat);
            assert(decimal(h as nat) == seq![digit_char(h as nat)]);
            assert(decimal(m) == decimal(m / 10) + seq![digit_char(m % 10)]);
            assert(decimal(n as nat) == decimal(m) + seq![digit_char(u as nat)]);
            assert(s@ =~= s0 + decimal(n as nat));
        }
    } else if n >= 10 {
        let t = n / 10;
        let u = n % 10;
        s.append(digit_str(t));
        s.append(digit_str(u));
        proof {
            assert(decimal(t as nat) == seq![digit_char(t as nat)]);
            assert(decimal(n as nat) == decimal(t as nat) + seq![digit_char(u as nat)]);
            assert(s@ =~= s0 + decimal(n as nat));
        }
    } else {
        s.append(digit_str(n));
    }
}

/// The text `rgb(r,g,b)`.
pub open spec fn rgb_text(r: u8, g: u8, b: u8) -> Seq<char> {
    "rgb("@ + decimal(r as nat) + ","@ + decimal(g as nat) + ","@ + decimal(b as nat) + ")"@
}

/// The SVG colour `rgb(r,g,b)` of a colour given by its bytes.
pub fn rgb_color(r: u8, g: u8, b: u8) -> (s: String)
    ensures
        s@ == rgb_text(r, g, b),
{
    let mut s = String::from_str("rgb(");
    append_decimal(&mut s, r);
    s.append(",");
    append_decimal(&mut s, g);
    s.append(",");
    append_decimal(&mut s, b);
    s.append(")");
    s
}

/// How the ends of an open stroke are drawn.
#[derive(Debug, Clone, Copy, PartialEq, Eq, Structural)]
pub enum LineCap {
    Butt,
    Round,
    Square,
}

/// How the corners of a stroke are drawn.
#[derive(Debug, Clone, Copy, PartialEq, Eq, Structural)]
pub enum LineJoin {
    Miter,
    Round,
    Bevel,
}

/// The SVG paint of an optional colour: its `rgb(..)` text, or `none`.
pub open spec fn paint_text(c: Option<Rgb8>) -> Seq<char> {
    match c {
        Some(c) => rgb_text(c.r, c.g, c.b),
        None => "none"@,
    }
}

/// The style attributes of an SVG element, as (name, value) pairs: the
/// stroke paint, its width (only for a stroked shape), the fill paint, and
/// the cap and join where they are not SVG's defaults (butt, miter).
pub open spec fn style_attributes_spec(
    stroke: Option<Rgb8>,
    width: Seq<char>,
    fill: Option<Rgb8>,
    cap: LineCap,
    join: LineJoin,
) -> Seq<(Seq<char>, Seq<char>)> {
    let stroke_part = match stroke {
        Some(_) => seq![("stroke"@, paint_text(stroke)), ("stroke-width"@, width)],
        None => seq![("stroke"@, "none"@)],
    };
    let cap_part = match cap {
        LineCap::Butt => Seq::empty(),
        LineCap::Round => seq![("stroke-linecap"@, "round"@)],
        LineCap::Square => seq![("stroke-linecap"@, "square"@)],
    };
    let join_part = match join {
        LineJoin::Miter => Seq::empty(),
        LineJoin::Round => seq![("stroke-linejoin"@, "round"@)],
        LineJoin::Bevel => seq![("stroke-linejoin"@, "bevel"@)],
    };
    stroke_part + seq![("fill"@, paint_text(fill))] + cap_part + join_part
}

/// The text views of attribute pairs.
pub open spec fn attribute_texts(a: Seq<(&'static str, String)>) -> Seq<(Seq<char>, Seq<char>)> {
    a.map_values(|p: (&'static str, String)| (p.0@, p.1@))
}

fn paint(c: Option<Rgb8>) -> (s: String)
    ensures
        s@ == paint_text(c),
{
    match c {
        Some(c) => rgb_color(c.r, c.g, c.b),
        None => String::from_str("none"),
    }
}

/// The style attributes of an SVG element whose stroke is `stroke`, of
/// width `width` (its text), filled with `fill`, with the given cap and join.
pub fn style_attributes(
    stroke: Option<Rgb8>,
    width: String,
    fill: Option<Rgb8>,
    cap: LineCap,
    join: LineJoin,
) -> (attrs: Vec<(&'static str, String)>)
    ensures
        attribute_texts(attrs@) == style_attributes_spec(stroke, width@, fill, cap, join),
{
    let ghost w = width@;
    let mut attrs: Vec<(&'static str, String)> = Vec::new();
    attrs.push(("stroke", paint(stroke)));
    if stroke.is_some() {
        attrs.push(("stroke-width", width));
    }
    attrs.push(("fill", paint(fill)));
    match cap {
        LineCap::Butt => {},
        LineCap::Round => attrs.push(("stroke-linecap", String::from_str("round"))),
        LineCap::Square => attrs.push(("stroke-linecap", String::from_str("square"))),
    }
    match join {
        LineJoin::Miter => {},
        LineJoin::Round => attrs.push(("stroke-linejoin", String::from_str("round"))),
        LineJoin::Bevel => attrs.push(("stroke-linejoin", String::from_str("bevel"))),
    }
    assert(attribute_texts(attrs@) =~= style_attributes_spec(stroke, w, fill, cap, join));
    attrs
}

/// The SVG element a shape is written as.
#[derive(Debug, Clone, Copy, PartialEq, Eq, Structural)]
pub enum SvgElement {
    Circle,
    Rect,
    /// a closed path cutting the rectangle's corners
    ChamferedPath,
    Polygon,
    Line,
    Polyline,
    /// a path of cubic curves
    CurvePath,
}

/// The element a shape of `kind` is written as: a rectangle with rounded
/// corners drawn with bevel joins becomes a chamfered path; a polyline of
/// fewer than two points and a spline of no segments are left out.
/// `parts` is the number of points of a polyline or segments of a spline.
pub open spec fn svg_element_spec(kind: ShapeKind, rounded: bool, bevel: bool, parts: usize) -> Option<SvgElement> {
    match kind {
        ShapeKind::Circle => Some(SvgElement::Circle),
        ShapeKind::Rectangle => if rounded && bevel {
            Some(SvgElement::ChamferedPath)
        } else {
            Some(SvgElement::Rect)
        },
        ShapeKind::RegularPolygon | ShapeKind::RightTriangle => Some(SvgElement::Polygon),
        ShapeKind::Line => Some(SvgElement::Line),
        ShapeKind::Polyline => if parts < 2 {
            None
        } else {
            Some(SvgElement::Polyline)
        },
        ShapeKind::Spline => if parts == 0 {
            None
        } else {
            Some(SvgElement::CurvePath)
        },
    }
}

/// The element a shape is written as (see [`svg_element_spec`]).
pub fn svg_element(kind: ShapeKind, rounded: bool, bevel: bool, parts: usize) -> (e: Option<SvgElement>)
    ensures
        e == svg_element_spec(kind, rounded, bevel, parts),
{
    match kind {
        ShapeKind::Circle => Some(SvgElement::Circle),
        ShapeKind::Rectangle => if rounded && bevel {
            Some(SvgElement::ChamferedPath)
        } else {
            Some(SvgElement::Rect)
        },
        ShapeKind::RegularPolygon | ShapeKind::RightTriangle => Some(SvgElement::Polygon),
        ShapeKind::Line => Some(SvgElement::Line),
        ShapeKind::Polyline => if parts < 2 {
            None
        } else {
            Some(SvgElement::Polyline)
        },
        ShapeKind::Spline => if parts == 0 {
            None
        } else {
            Some(SvgElement::CurvePath)
        },
    }
}

/// Every closed shape is exported: circles as circles, rectangles as
/// rectangles (as chamfered paths exactly when rounded and drawn with bevel
/// joins), and regular polygons and right triangles as polygons.
pub proof fn law_closed_shapes_exported(kind: ShapeKind, rounded: bool, bevel: bool, parts: usize)
    requires
        spec_is_closed_shape(kind),
    ensures
        svg_element_spec(kind, rounded, bevel, parts) is Some,
        kind == ShapeKind::Circle ==> svg_element_spec(kind, rounded, bevel, parts) == Some(
            SvgElement::Circle,
        ),
        kind == ShapeKind::Rectangle ==> (svg_element_spec(kind, rounded, bevel, parts) == Some(
            SvgElement::ChamferedPath,
        ) <==> rounded && bevel) && (svg_element_spec(kind, rounded, bevel, parts) == Some(
            SvgElement::ChamferedPath,
        ) || svg_element_spec(kind, rounded, bevel, parts) == Some(SvgElement::Rect)),
        kind == ShapeKind::RegularPolygon || kind == ShapeKind::RightTriangle ==> svg_element_spec(
            kind,
            rounded,
            bevel,
            parts,
        ) == Some(SvgElement::Polygon),
{
}

/// Open shapes are exported when there is something to draw: a line
/// always, as a line; a polyline exactly when it has two points or more,
/// as a polyline; a spline exactly when it has a segment, as a curve path.
/// Whether a shape is rounded or bevelled matters to rectangles only.
pub proof fn law_open_shapes_exported(kind: ShapeKind, rounded: bool, bevel: bool, parts: usize)
    requires
        !spec_is_closed_shape(kind),
    ensures
        kind == ShapeKind::Line ==> svg_element_spec(kind, rounded, bevel, parts) == Some(
            SvgElement::Line,
        ),
        kind == ShapeKind::Polyline ==> (svg_element_spec(kind, rounded, bevel, parts) is Some
            <==> parts >= 2) && (parts >= 2 ==> svg_element_spec(kind, rounded, bevel, parts)
            == Some(SvgElement::Polyline)),
        kind == ShapeKind::Spline ==> (svg_element_spec(kind, rounded, bevel, parts) is Some <==> parts
            >= 1) && (parts >= 1 ==> svg_element_spec(kind, rounded, bevel, parts) == Some(
            SvgElement::CurvePath,
        )),
        svg_element_spec(kind, rounded, bevel, parts) == svg_element_spec(kind, false, false, parts),
{
}

/// The style attributes name the stroke first; they give a stroke width,
/// with the width given, exactly when the shape is stroked; they always
/// give the fill, `none` exactly when there is no fill colour; and they
/// give a cap or join exactly when it is not SVG's default (butt, miter).
pub proof fn law_style_attributes(
    stroke: Option<Rgb8>,
    width: Seq<char>,
    fill: Option<Rgb8>,
    cap: LineCap,
    join: LineJoin,
)
    ensures
        ({
            let a = style_attributes_spec(stroke, width, fill, cap, join);
            &&& a[0].0 == "stroke"@
            &&& (a[0].1 == "none"@ <==> stroke is None)
            &&& (stroke is Some <==> a.contains(("stroke-width"@, width)))
            &&& stroke is Some ==> a[1] == ("stroke-width"@, width)
            &&& a.contains(("fill"@, paint_text(fill)))
            &&& (paint_text(fill) == "none"@ <==> fill is None)
            &&& (cap == LineCap::Round <==> a.contains(("stroke-linecap"@, "round"@)))
            &&& (cap == LineCap::Square <==> a.contains(("stroke-linecap"@, "square"@)))
            &&& (join == LineJoin::Round <==> a.contains(("stroke-linejoin"@, "round"@)))
            &&& (join == LineJoin::Bevel <==> a.contains(("stroke-linejoin"@, "bevel"@)))
        }),
{
    let a = style_attributes_spec(stroke, width, fill, cap, join);
    reveal_strlit("none");
    reveal_strlit("rgb(");
    reveal_strlit("stroke");
    reveal_strlit("stroke-width");
    reveal_strlit("fill");
    reveal_strlit("stroke-linecap");
    reveal_strlit("stroke-linejoin");
    reveal_strlit("round");
    reveal_strlit("square");
    reveal_strlit("bevel");
    let sp: Seq<(Seq<char>, Seq<char>)> = match stroke {
        Some(_) => seq![("stroke"@, paint_text(stroke)), ("stroke-width"@, width)],
        None => seq![("stroke"@, "none"@)],
    };
    let cp: Seq<(Seq<char>, Seq<char>)> = match cap {
        LineCap::Butt => Seq::empty(),
        LineCap::Round => seq![("stroke-linecap"@, "round"@)],
        LineCap::Square => seq![("stroke-linecap"@, "square"@)],
    };
    let jp: Seq<(Seq<char>, Seq<char>)> = match join {
        LineJoin::Miter => Seq::empty(),
        LineJoin::Round => seq![("stroke-linejoin"@, "round"@)],
        LineJoin::Bevel => seq![("stroke-linejoin"@, "bevel"@)],
    };
    let fp = seq![("fill"@, paint_text(fill))];
    assert(a == sp + fp + cp + jp);
    let k = sp.len() as int;
    let c0 = k + 1;
    let j0 = c0 + cp.len();
    assert(a.len() == j0 + jp.len());
    assert forall|i: int| 0 <= i < a.len() implies #[trigger] a[i] == if i < k {
        sp[i]
    } else if i == k {
        fp[0]
    } else if i < j0 {
        cp[i - c0]
    } else {
        jp[i - j0]
    } by {
        if i < k {
            assert(a[i] == (sp + fp + cp)[i]);
            assert((sp + fp + cp)[i] == (sp + fp)[i]);
        } else if i == k {
            assert(a[i] == (sp + fp + cp)[i]);
            assert((sp + fp + cp)[i] == (sp + fp)[i]);
        } else if i < j0 {
            assert(a[i] == (sp + fp + cp)[i]);
        }
    }
    assert(a[k] == ("fill"@, paint_text(fill)));
    if stroke is Some {
        assert(a[1] == ("stroke-width"@, width));
    } else {
        assert forall|i: int| 0 <= i < a.len() implies a[i] != ("stroke-width"@, width) by {
            assert(a[i].0.len() != 12);
        }
    }
    if let Some(c) = fill {
        assert(paint_text(fill)[0] == 'r');
    }
    if let Some(c) = stroke {
        assert(a[0].1[0] == 'r');
    }
    match cap {
        LineCap::Butt => {},
        LineCap::Round => assert(a[c0] == ("stroke-linecap"@, "round"@)),
        LineCap::Square => assert(a[c0] == ("stroke-linecap"@, "square"@)),
    }
    match join {
        LineJoin::Miter => {},
        LineJoin::Round => assert(a[j0] == ("stroke-linejoin"@, "round"@)),
        LineJoin::Bevel => assert(a[j0] == ("stroke-linejoin"@, "bevel"@)),
    }
    assert forall|i: int| 0 <= i < a.len() && a[i].0 == "stroke-linecap"@ implies i == c0
        && cap != LineCap::Butt && a[i].1 == (if cap == LineCap::Round { "round"@ } else { "square"@ }) by {
        assert(a[i].0.len() == 14);
    }
    assert forall|i: int| 0 <= i < a.len() && a[i].0 == "stroke-linejoin"@ implies i == j0
        && join != LineJoin::Miter && a[i].1 == (if join == LineJoin::Round { "round"@ } else { "bevel"@ }) by {
        assert(a[i].0.len() == 15);
    }
    assert("round"@.len() != "square"@.len());
    assert("round"@[0] != "bevel"@[0]);
}

} // verus!
