//! The parameter sheet of a font face: a fixed list of parameters, each
//! shown as text, with a cross where the face has no value.

use vstd::prelude::*;
use vstd::string::StringExecFns;

use crate::fonts::file::append_int;
use crate::fonts::file::lmetrics_text;
use crate::fonts::file::lmetrics_to_string;
use crate::fonts::file::smetrics_text;
use crate::fonts::file::smetrics_to_string;
use crate::fonts::file::BoundingBox;
use crate::fonts::file::FaceProperties;
use crate::fonts::file::Weight;
use crate::fonts::file::Width;
use crate::util::decimal;
use crate::util::format_bool;
use crate::util::int_text;
use crate::util::no_mark;
use crate::util::push_decimal;
use crate::util::str_eq;
use crate::util::yes_mark;

verus! {

/// Number of parameters on the sheet.
pub const FACE_PARAM_COUNT: usize = 24;

/// The `i`-th parameter of the sheet.
pub open spec fn face_param_name(i: nat) -> &'static str {
    if i == 0 {
        "number_of_glyphs"
    } else if i == 1 {
        "regular"
    } else if i == 2 {
        "italic"
    } else if i == 3 {
        "bold"
    } else if i == 4 {
        "oblique"
    } else if i == 5 {
        "monospaced"
    } else if i == 6 {
        "variable"
    } else if i == 7 {
        "units_per_em"
    } else if i == 8 {
        "weight"
    } else if i == 9 {
        "width"
    } else if i == 10 {
        "italic_angle"
    } else if i == 11 {
        "ascender/vertical"
    } else if i == 12 {
        "descender/vertical"
    } else if i == 13 {
        "line_gap/vertical"
    } else if i == 14 {
        "height/vertical"
    } else if i == 15 {
        "x_height"
    } else if i == 16 {
        "capital_height"
    } else if i == 17 {
        "underline_metrics"
    } else if i == 18 {
        "strikeout_metrics"
    } else if i == 19 {
        "subscript_metrics"
    } else if i == 20 {
        "superscript_metrics"
    } else if i == 21 {
        "glyph_classes"
    } else if i == 22 {
        "bounding_box"
    } else {
        "variation_coordinates"
    }
}

fn face_param_name_at(i: usize) -> (r: &'static str)
    requires
        i < FACE_PARAM_COUNT,
    ensures
        r == face_param_name(i as nat),
{
    if i == 0 {
        "number_of_glyphs"
    } else if i == 1 {
        "regular"
    } else if i == 2 {
        "italic"
    } else if i == 3 {
        "bold"
    } else if i == 4 {
        "oblique"
    } else if i == 5 {
        "monospaced"
    } else if i == 6 {
        "variable"
    } else if i == 7 {
        "units_per_em"
    } else if i == 8 {
        "weight"
    } else if i == 9 {
        "width"
    } else if i == 10 {
        "italic_angle"
    } else if i == 11 {
        "ascender/vertical"
    } else if i == 12 {
        "descender/vertical"
    } else if i == 13 {
        "line_gap/vertical"
    } else if i == 14 {
        "height/vertical"
    } else if i == 15 {
        "x_height"
    } else if i == 16 {
        "capital_height"
    } else if i == 17 {
        "underline_metrics"
    } else if i == 18 {
        "strikeout_metrics"
    } else if i == 19 {
        "subscript_metrics"
    } else if i == 20 {
        "superscript_metrics"
    } else if i == 21 {
        "glyph_classes"
    } else if i == 22 {
        "bounding_box"
    } else {
        "variation_coordinates"
    }
}

/// The parameters of the sheet, in sheet order.
pub fn list_face_params() -> (r: Vec<&'static str>)
    ensures
        r@.len() == FACE_PARAM_COUNT,
        forall|i: int| 0 <= i < FACE_PARAM_COUNT ==> #[trigger] r@[i] == face_param_name(i as nat),
{
    let mut r: Vec<&'static str> = Vec::new();
    let mut i: usize = 0;
    while i < FACE_PARAM_COUNT
        invariant
            i <= FACE_PARAM_COUNT,
            r@.len() == i,
            forall|j: int| 0 <= j < i ==> #[trigger] r@[j] == face_param_name(j as nat),
        decreases FACE_PARAM_COUNT - i,
    {
        r.push(face_param_name_at(i));
        i = i + 1;
    }
    r
}

/// Whether `name` is a parameter of the sheet.
pub open spec fn is_face_param(name: Seq<char>) -> bool {
    exists|i: nat| i < FACE_PARAM_COUNT && #[trigger] face_param_name(i)@ == name
}

/// Variant name of a weight class, or `Other(<n>)`.
pub open spec fn weight_variant_text(w: Weight) -> Seq<char> {
    match w {
        Weight::Thin => "Thin"@,
        Weight::ExtraLight => "ExtraLight"@,
        Weight::Light => "Light"@,
        Weight::Normal => "Normal"@,
        Weight::Medium => "Medium"@,
        Weight::SemiBold => "SemiBold"@,
        Weight::Bold => "Bold"@,
        Weight::ExtraBold => "ExtraBold"@,
        Weight::Black => "Black"@,
        Weight::Other(v) => "Other("@ + decimal(v as nat) + ")"@,
    }
}

/// Variant name of a width class.
pub open spec fn width_variant_text(w: Width) -> Seq<char> {
    match w {
        Width::UltraCondensed => "UltraCondensed"@,
        Width::ExtraCondensed => "ExtraCondensed"@,
        Width::Condensed => "Condensed"@,
        Width::SemiCondensed => "SemiCondensed"@,
        Width::Normal => "Normal"@,
        Width::SemiExpanded => "SemiExpanded"@,
        Width::Expanded => "Expanded"@,
        Width::ExtraExpanded => "ExtraExpanded"@,
        Width::UltraExpanded => "UltraExpanded"@,
    }
}

/// `"xmin:<x_min>,ymin:<y_min>/xmax:<x_max>,ymax:<y_max>"`.
pub open spec fn bounds_text(b: BoundingBox) -> Seq<char> {
    "xmin:"@ + int_text(b.x_min as int) + ",ymin:"@ + int_text(b.y_min as int) + "/xmax:"@
        + int_text(b.x_max as int) + ",ymax:"@ + int_text(b.y_max as int)
}

/// The number, or a cross when absent.
pub open spec fn value_or_cross(v: Option<i16>) -> Seq<char> {
    match v {
        Some(v) => int_text(v as int),
        None => no_mark(),
    }
}

/// A tick when set, a cross when clear.
pub open spec fn mark(b: bool) -> Seq<char> {
    if b {
        yes_mark()
    } else {
        no_mark()
    }
}

/// The text of parameter `name` of a face. `glyph_classes` tells whether the
/// face classifies its glyphs, `variation_coordinates` whether it has
/// non-default variation coordinates.
pub open spec fn face_param_text(
    p: FaceProperties,
    glyph_classes: bool,
    variation_coordinates: bool,
    name: Seq<char>,
) -> Seq<char> {
    if name == "number_of_glyphs"@ {
        decimal(p.glyph_count as nat)
    } else if name == "regular"@ {
        mark(p.regular)
    } else if name == "italic"@ {
        mark(p.italic)
    } else if name == "bold"@ {
        mark(p.bold)
    } else if name == "oblique"@ {
        mark(p.oblique)
    } else if name == "monospaced"@ {
        mark(p.monospaced)
    } else if name == "variable"@ {
        mark(p.variable)
    } else if name == "units_per_em"@ {
        decimal(p.units_per_em as nat)
    } else if name == "weight"@ {
        weight_variant_text(p.weight)
    } else if name == "width"@ {
        width_variant_text(p.width)
    } else if name == "italic_angle"@ {
        match p.italic_angle {
            Some(a) => a@,
            None => no_mark(),
        }
    } else if name == "ascender/vertical"@ {
        int_text(p.ascender as int) + "/"@ + value_or_cross(p.vertical_ascender)
    } else if name == "descender/vertical"@ {
        int_text(p.descender as int) + "/"@ + value_or_cross(p.vertical_descender)
    } else if name == "line_gap/vertical"@ {
        int_text(p.line_gap as int) + "/"@ + value_or_cross(p.vertical_line_gap)
    } else if name == "height/vertical"@ {
        int_text(p.height as int) + "/"@ + value_or_cross(p.vertical_height)
    } else if name == "x_height"@ {
        value_or_cross(p.x_height)
    } else if name == "capital_height"@ {
        value_or_cross(p.capital_height)
    } else if name == "underline_metrics"@ {
        match p.underline_metrics {
            Some(m) => lmetrics_text(m),
            None => no_mark(),
        }
    } else if name == "strikeout_metrics"@ {
        match p.strikeout_metrics {
            Some(m) => lmetrics_text(m),
            None => no_mark(),
        }
    } else if name == "subscript_metrics"@ {
        match p.subscript_metrics {
            Some(m) => smetrics_text(m),
            None => no_mark(),
        }
    } else if name == "superscript_metrics"@ {
        match p.superscript_metrics {
            Some(m) => smetrics_text(m),
            None => no_mark(),
        }
    } else if name == "glyph_classes"@ {
        mark(glyph_classes)
    } else if name == "bounding_box"@ {
        bounds_text(p.global_bounding_box)
    } else {
        mark(variation_coordinates)
    }
}

fn append_value_or_cross(s: &mut String, v: Option<i16>)
    ensures
        final(s)@ == old(s)@ + value_or_cross(v),
{
    match v {
        Some(v) => append_int(s, v as i64),
        None => s.append("✗"),
    }
}

fn pair_text(a: i16, b: Option<i16>) -> (r: String)
    ensures
        r@ == int_text(a as int) + "/"@ + value_or_cross(b),
{
    let mut s = String::new();
    append_int(&mut s, a as i64);
    s.append("/");
    append_value_or_cross(&mut s, b);
    proof {
        assert(s@ =~= int_text(a as int) + "/"@ + value_or_cross(b));
    }
    s
}

/// `"xmin:<x_min>,ymin:<y_min>/xmax:<x_max>,ymax:<y_max>"`.
pub fn bounds_to_string(b: &BoundingBox) -> (r: String)
    ensures
        r@ == bounds_text(*b),
{
    let mut s = String::new();
    s.append("xmin:");
    append_int(&mut s, b.x_min as i64);
    s.append(",ymin:");
    append_int(&mut s, b.y_min as i64);
    s.append("/xmax:");
    append_int(&mut s, b.x_max as i64);
    s.append(",ymax:");
    append_int(&mut s, b.y_max as i64);
    proof {
        assert(s@ =~= bounds_text(*b));
    }
    s
}

fn weight_variant_to_string(w: &Weight) -> (r: String)
    ensures
        r@ == weight_variant_text(*w),
{
    match w {
        Weight::Thin => String::from_str("Thin"),
        Weight::ExtraLight => String::from_str("ExtraLight"),
        Weight::Light => String::from_str("Light"),
        Weight::Normal => String::from_str("Normal"),
        Weight::Medium => String::from_str("Medium"),
        Weight::SemiBold => String::from_str("SemiBold"),
        Weight::Bold => String::from_str("Bold"),
        Weight::ExtraBold => String::from_str("ExtraBold"),
        Weight::Black => String::from_str("Black"),
        Weight::Other(v) => {
            let mut s = String::from_str("Other(");
            push_decimal(&mut s, *v as u64);
            s.append(")");
            proof {
                assert(s@ =~= weight_variant_text(*w));
            }
            s
        },
    }
}

fn width_variant_to_string(w: &Width) -> (r: String)
    ensures
        r@ == width_variant_text(*w),
{
    let s = match w {
        Width::UltraCondensed => "UltraCondensed",
        Width::ExtraCondensed => "ExtraCondensed",
        Width::Condensed => "Condensed",
        Width::SemiCondensed => "SemiCondensed",
        Width::Normal => "Normal",
        Width::SemiExpanded => "SemiExpanded",
        Width::Expanded => "Expanded",
        Width::ExtraExpanded => "ExtraExpanded",
        Width::UltraExpanded => "UltraExpanded",
    };
    String::from_str(s)
}

fn value_or_cross_string(v: Option<i16>) -> (r: String)
    ensures
        r@ == value_or_cross(v),
{
    let mut s = String::new();
    append_value_or_cross(&mut s, v);
    proof {
        assert(s@ =~= value_or_cross(v));
    }
    s
}

/// The text of one parameter of the sheet for a face; `glyph_classes` and
/// `variation_coordinates` are what the face says of those two parameters.
pub fn face_param_value(p: &FaceProperties, glyph_classes: bool, variation_coordinates: bool, name: &str) -> (r: String)
    requires
        is_face_param(name@),
    ensures
        r@ == face_param_text(*p, glyph_classes, variation_coordinates, name@),
{
    if str_eq(name, "number_of_glyphs") {
        let mut s = String::new();
        push_decimal(&mut s, p.glyph_count as u64);
        proof {
            assert(s@ =~= decimal(p.glyph_count as nat));
        }
        s
    } else if str_eq(name, "regular") {
        String::from_str(format_bool(p.regular))
    } else if str_eq(name, "italic") {
        String::from_str(format_bool(p.italic))
    } else if str_eq(name, "bold") {
        String::from_str(format_bool(p.bold))
    } else if str_eq(name, "oblique") {
        String::from_str(format_bool(p.oblique))
    } else if str_eq(name, "monospaced") {
        String::from_str(format_bool(p.monospaced))
    } else if str_eq(name, "variable") {
        String::from_str(format_bool(p.variable))
    } else if str_eq(name, "units_per_em") {
        let mut s = String::new();
        push_decimal(&mut s, p.units_per_em as u64);
        proof {
            assert(s@ =~= decimal(p.units_per_em as nat));
        }
        s
    } else if str_eq(name, "weight") {
        weight_variant_to_string(&p.weight)
    } else if str_eq(name, "width") {
        width_variant_to_string(&p.width)
    } else if str_eq(name, "italic_angle") {
        match &p.italic_angle {
            Some(a) => String::from_str(a.as_str()),
            None => String::from_str("✗"),
        }
    } else if str_eq(name, "ascender/vertical") {
        pair_text(p.ascender, p.vertical_ascender)
    } else if str_eq(name, "descender/vertical") {
        pair_text(p.descender, p.vertical_descender)
    } else if str_eq(name, "line_gap/vertical") {
        pair_text(p.line_gap, p.vertical_line_gap)
    } else if str_eq(name, "height/vertical") {
        pair_text(p.height, p.vertical_height)
    } else if str_eq(name, "x_height") {
        value_or_cross_string(p.x_height)
    } else if str_eq(name, "capital_height") {
        value_or_cross_string(p.capital_height)
    } else if str_eq(name, "underline_metrics") {
        match &p.underline_metrics {
            Some(m) => lmetrics_to_string(m),
            None => String::from_str("✗"),
        }
    } else if str_eq(name, "strikeout_metrics") {
        match &p.strikeout_metrics {
            Some(m) => lmetrics_to_string(m),
            None => String::from_str("✗"),
        }
    } else if str_eq(name, "subscript_metrics") {
        match &p.subscript_metrics {
            Some(m) => smetrics_to_string(m),
            None => String::from_str("✗"),
        }
    } else if str_eq(name, "superscript_metrics") {
        match &p.superscript_metrics {
            Some(m) => smetrics_to_string(m),
            None => String::from_str("✗"),
        }
    } else if str_eq(name, "glyph_classes") {
        String::from_str(format_bool(glyph_classes))
    } else if str_eq(name, "bounding_box") {
        bounds_to_string(&p.global_bounding_box)
    } else {
        String::from_str(format_bool(variation_coordinates))
    }
}

} // verus!
