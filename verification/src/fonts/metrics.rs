//! Reading a face's metrics from the bytes of its font file with
//! ttf-parser, and assembling the face's properties.

use vstd::prelude::*;
use vstd::string::StringExecFns;

use crate::fonts::face::face_blocks_of;
use crate::fonts::face::face_chars_error;
use crate::fonts::face::face_chars_ok;
use crate::fonts::face::face_table_names;
use crate::fonts::face::face_unicode_blocks;
use crate::fonts::face::parsed_table_flags;
use crate::fonts::face::presence_of_flags;
use crate::fonts::file::string_views;
use crate::fonts::file::table_names_spec;
use crate::fonts::file::BoundingBox;
use crate::fonts::file::FaceProperties;
use crate::fonts::file::LineMetrics;
use crate::fonts::file::ScriptMetrics;
use crate::fonts::file::Style;
use crate::fonts::file::Weight;
use crate::fonts::file::Width;
use crate::fonts::glyph::UnicodeBlock;
use crate::Error;

verus! {

/// The integer and boolean metrics of a font face; weight and width as the
/// numbers of their classes.
#[derive(Clone, Copy, PartialEq, Eq, Structural, Debug)]
pub struct FaceMetrics {
    pub glyph_count: u16,
    pub units_per_em: u16,
    pub global_bounding_box: BoundingBox,
    pub regular: bool,
    pub italic: bool,
    pub bold: bool,
    pub oblique: bool,
    pub monospaced: bool,
    pub variable: bool,
    pub weight_number: u16,
    pub width_number: u16,
    pub style: Style,
    pub ascender: i16,
    pub descender: i16,
    pub height: i16,
    pub line_gap: i16,
    pub typographic_ascender: Option<i16>,
    pub typographic_descender: Option<i16>,
    pub typographic_line_gap: Option<i16>,
    pub vertical_ascender: Option<i16>,
    pub vertical_descender: Option<i16>,
    pub vertical_height: Option<i16>,
    pub vertical_line_gap: Option<i16>,
    pub x_height: Option<i16>,
    pub capital_height: Option<i16>,
    pub underline_metrics: Option<LineMetrics>,
    pub strikeout_metrics: Option<LineMetrics>,
    pub subscript_metrics: Option<ScriptMetrics>,
    pub superscript_metrics: Option<ScriptMetrics>,
}

/// What ttf-parser reads from the bytes `data` as a font (its first face):
/// the face's metrics, or the parsing error's text.
pub uninterp spec fn parsed_face_metrics(data: Seq<u8>) -> Result<FaceMetrics, Seq<char>>;

/// What ttf-parser reads from the bytes `data` as a font: the face's italic
/// angle as `f32::to_string` writes it (`None` without a `post` table), or
/// the parsing error's text.
pub uninterp spec fn parsed_italic_angle(data: Seq<u8>) -> Result<Option<Seq<char>>, Seq<char>>;

/// What ttf-parser reads from the bytes `data` as a font: whether the `GDEF`
/// table classifies glyphs (`None` without that table), and whether the
/// face has non-default variation coordinates; or the parsing error's text.
pub uninterp spec fn parsed_sheet_flags(data: Seq<u8>) -> Result<(Option<bool>, bool), Seq<char>>;

/// `Face::from_slice(data, 0)`, then `number_of_glyphs`, `units_per_em`
/// and `global_bounding_box`.
#[verifier::external_body]
fn ttf_face_sizes(data: &[u8]) -> (r: Result<(u16, u16, BoundingBox), String>)
    ensures
        match parsed_face_metrics(data@) {
            Ok(m) => r matches Ok(v) && v == (m.glyph_count, m.units_per_em, m.global_bounding_box),
            Err(e) => r matches Err(s) && s@ == e,
        },
{
    let f = match ttf_parser::Face::from_slice(data, 0) {
        Ok(f) => f,
        Err(e) => return Err(e.to_string()),
    };
    let b = f.global_bounding_box();
    let bb = BoundingBox { x_min: b.x_min, y_min: b.y_min, x_max: b.x_max, y_max: b.y_max };
    Ok((f.number_of_glyphs(), f.units_per_em(), bb))
}

/// `Face::from_slice(data, 0)`, then `is_regular`, `is_italic`, `is_bold`,
/// `is_oblique`, `is_monospaced` and `is_variable`.
#[verifier::external_body]
fn ttf_face_flags(data: &[u8]) -> (r: Result<(bool, bool, bool, bool, bool, bool), String>)
    ensures
        match parsed_face_metrics(data@) {
            Ok(m) => r matches Ok(v) && v == (m.regular, m.italic, m.bold, m.oblique, m.monospaced, m.variable),
            Err(e) => r matches Err(s) && s@ == e,
        },
{
    let f = match ttf_parser::Face::from_slice(data, 0) {
        Ok(f) => f,
        Err(e) => return Err(e.to_string()),
    };
    Ok((f.is_regular(), f.is_italic(), f.is_bold(), f.is_oblique(), f.is_monospaced(), f.is_variable()))
}

/// `Face::from_slice(data, 0)`, then the numbers of `weight` and `width`
/// (`to_number`) and the `style`.
#[verifier::external_body]
fn ttf_face_class(data: &[u8]) -> (r: Result<(u16, u16, Style), String>)
    ensures
        match parsed_face_metrics(data@) {
            Ok(m) => r matches Ok(v) && v == (m.weight_number, m.width_number, m.style),
            Err(e) => r matches Err(s) && s@ == e,
        },
{
    let f = match ttf_parser::Face::from_slice(data, 0) {
        Ok(f) => f,
        Err(e) => return Err(e.to_string()),
    };
    let style = match f.style() {
        ttf_parser::Style::Normal => Style::Normal,
        ttf_parser::Style::Italic => Style::Italic,
        ttf_parser::Style::Oblique => Style::Oblique,
    };
    Ok((f.weight().to_number(), f.width().to_number(), style))
}

/// `Face::from_slice(data, 0)`, then `ascender`, `descender`, `height`,
/// `line_gap` and the three typographic metrics.
#[verifier::external_body]
fn ttf_face_lines(data: &[u8]) -> (r: Result<(i16, i16, i16, i16, Option<i16>, Option<i16>, Option<i16>), String>)
    ensures
        match parsed_face_metrics(data@) {
            Ok(m) => r matches Ok(v) && v == (
                m.ascender,
                m.descender,
                m.height,
                m.line_gap,
                m.typographic_ascender,
                m.typographic_descender,
                m.typographic_line_gap,
            ),
            Err(e) => r matches Err(s) && s@ == e,
        },
{
    let f = match ttf_parser::Face::from_slice(data, 0) {
        Ok(f) => f,
        Err(e) => return Err(e.to_string()),
    };
    let (a, d, g) = (f.typographic_ascender(), f.typographic_descender(), f.typographic_line_gap());
    Ok((f.ascender(), f.descender(), f.height(), f.line_gap(), a, d, g))
}

/// `Face::from_slice(data, 0)`, then the four vertical metrics, `x_height`
/// and `capital_height`.
#[verifier::external_body]
fn ttf_face_verticals(data: &[u8]) -> (r: Result<(Option<i16>, Option<i16>, Option<i16>, Option<i16>, Option<i16>, Option<i16>), String>)
    ensures
        match parsed_face_metrics(data@) {
            Ok(m) => r matches Ok(v) && v == (
                m.vertical_ascender,
                m.vertical_descender,
                m.vertical_height,
                m.vertical_line_gap,
                m.x_height,
                m.capital_height,
            ),
            Err(e) => r matches Err(s) && s@ == e,
        },
{
    let f = match ttf_parser::Face::from_slice(data, 0) {
        Ok(f) => f,
        Err(e) => return Err(e.to_string()),
    };
    let (a, d) = (f.vertical_ascender(), f.vertical_descender());
    Ok((a, d, f.vertical_height(), f.vertical_line_gap(), f.x_height(), f.capital_height()))
}

/// `Face::from_slice(data, 0)`, then the underline, strikeout, subscript and
/// superscript metrics.
#[verifier::external_body]
fn ttf_face_decorations(data: &[u8]) -> (r: Result<(Option<LineMetrics>, Option<LineMetrics>, Option<ScriptMetrics>, Option<ScriptMetrics>), String>)
    ensures
        match parsed_face_metrics(data@) {
            Ok(m) => r matches Ok(v) && v == (
                m.underline_metrics,
                m.strikeout_metrics,
                m.subscript_metrics,
                m.superscript_metrics,
            ),
            Err(e) => r matches Err(s) && s@ == e,
        },
{
    let f = match ttf_parser::Face::from_slice(data, 0) {
        Ok(f) => f,
        Err(e) => return Err(e.to_string()),
    };
    let line = |m: ttf_parser::LineMetrics| LineMetrics { position: m.position, thickness: m.thickness };
    let script = |m: ttf_parser::ScriptMetrics|
        ScriptMetrics { x_size: m.x_size, y_size: m.y_size, x_offset: m.x_offset, y_offset: m.y_offset };
    let (u, s) = (f.underline_metrics().map(line), f.strikeout_metrics().map(line));
    Ok((u, s, f.subscript_metrics().map(script), f.superscript_metrics().map(script)))
}

/// `Face::from_slice(data, 0)`, then `italic_angle`, written by
/// `f32::to_string`.
#[verifier::external_body]
fn ttf_italic_angle_text(data: &[u8]) -> (r: Result<Option<String>, String>)
    ensures
        match parsed_italic_angle(data@) {
            Ok(None) => r matches Ok(None),
            Ok(Some(t)) => r matches Ok(Some(a)) && a@ == t,
            Err(e) => r matches Err(s) && s@ == e,
        },
{
    let f = match ttf_parser::Face::from_slice(data, 0) {
        Ok(f) => f,
        Err(e) => return Err(e.to_string()),
    };
    match f.italic_angle() {
        Some(a) => Ok(Some(a.to_string())),
        None => Ok(None),
    }
}

/// `Face::from_slice(data, 0)`, then `has_glyph_classes` of the `GDEF`
/// table when there is one, and `has_non_default_variation_coordinates`.
#[verifier::external_body]
fn ttf_sheet_flags(data: &[u8]) -> (r: Result<(Option<bool>, bool), String>)
    ensures
        match parsed_sheet_flags(data@) {
            Ok(v) => r matches Ok(w) && w == v,
            Err(e) => r matches Err(s) && s@ == e,
        },
{
    let f = match ttf_parser::Face::from_slice(data, 0) {
        Ok(f) => f,
        Err(e) => return Err(e.to_string()),
    };
    let classes = match f.tables().gdef {
        Some(t) => Some(t.has_glyph_classes()),
        None => None,
    };
    Ok((classes, f.has_non_default_variation_coordinates()))
}

fn invalid(m: String) -> (e: Error)
    ensures
        e matches Error::Invalid(_, msg) && msg == m,
{
    Error::Invalid(String::from_str("fonts::metrics"), m)
}

/// The metrics of the face in the font file `data`; an `Invalid` error with
/// ttf-parser's text when the bytes are no font.
pub fn face_metrics(data: &[u8]) -> (r: Result<FaceMetrics, Error>)
    ensures
        match parsed_face_metrics(data@) {
            Ok(m) => r == Ok::<FaceMetrics, Error>(m),
            Err(e) => r matches Err(Error::Invalid(_, msg)) && msg@ == e,
        },
{
    let (glyph_count, units_per_em, global_bounding_box) = match ttf_face_sizes(data) {
        Ok(v) => v,
        Err(m) => return Err(invalid(m)),
    };
    let (regular, italic, bold, oblique, monospaced, variable) = match ttf_face_flags(data) {
        Ok(v) => v,
        Err(m) => return Err(invalid(m)),
    };
    let (weight_number, width_number, style) = match ttf_face_class(data) {
        Ok(v) => v,
        Err(m) => return Err(invalid(m)),
    };
    let (ascender, descender, height, line_gap, typographic_ascender, typographic_descender, typographic_line_gap) =
        match ttf_face_lines(data) {
        Ok(v) => v,
        Err(m) => return Err(invalid(m)),
    };
    let (vertical_ascender, vertical_descender, vertical_height, vertical_line_gap, x_height, capital_height) =
        match ttf_face_verticals(data) {
        Ok(v) => v,
        Err(m) => return Err(invalid(m)),
    };
    let (underline_metrics, strikeout_metrics, subscript_metrics, superscript_metrics) = match ttf_face_decorations(
        data,
    ) {
        Ok(v) => v,
        Err(m) => return Err(invalid(m)),
    };
    Ok(
        FaceMetrics {
            glyph_count,
            units_per_em,
            global_bounding_box,
            regular,
            italic,
            bold,
            oblique,
            monospaced,
            variable,
            weight_number,
            width_number,
            style,
            ascender,
            descender,
            height,
            line_gap,
            typographic_ascender,
            typographic_descender,
            typographic_line_gap,
            vertical_ascender,
            vertical_descender,
            vertical_height,
            vertical_line_gap,
            x_height,
            capital_height,
            underline_metrics,
            strikeout_metrics,
            subscript_metrics,
            superscript_metrics,
        },
    )
}

/// The italic angle of the face in the font file `data`, as text; `None`
/// without a `post` table; an `Invalid` error with ttf-parser's text when
/// the bytes are no font.
pub fn face_italic_angle(data: &[u8]) -> (r: Result<Option<String>, Error>)
    ensures
        match parsed_italic_angle(data@) {
            Ok(None) => r matches Ok(None),
            Ok(Some(t)) => r matches Ok(Some(a)) && a@ == t,
            Err(e) => r matches Err(Error::Invalid(_, msg)) && msg@ == e,
        },
{
    match ttf_italic_angle_text(data) {
        Ok(a) => Ok(a),
        Err(m) => Err(invalid(m)),
    }
}

/// Whether the face in the font file `data` classifies its glyphs (a face
/// without a `GDEF` table does not), and whether it has non-default
/// variation coordinates: the two parameters of the face's sheet that its
/// properties do not hold.
pub fn face_sheet_flags(data: &[u8]) -> (r: Result<(bool, bool), Error>)
    ensures
        match parsed_sheet_flags(data@) {
            Ok((c, v)) => r matches Ok(w) && w == (c == Some(true), v),
            Err(e) => r matches Err(Error::Invalid(_, msg)) && msg@ == e,
        },
{
    match ttf_sheet_flags(data) {
        Ok((c, v)) => {
            let classes = match c {
                Some(b) => b,
                None => false,
            };
            Ok((classes, v))
        },
        Err(m) => Err(invalid(m)),
    }
}

/// The weight class of a weight number: the named classes at the hundreds
/// from 100 to 900, any other number as it is.
pub open spec fn weight_of(n: u16) -> Weight {
    if n == 100 {
        Weight::Thin
    } else if n == 200 {
        Weight::ExtraLight
    } else if n == 300 {
        Weight::Light
    } else if n == 400 {
        Weight::Normal
    } else if n == 500 {
        Weight::Medium
    } else if n == 600 {
        Weight::SemiBold
    } else if n == 700 {
        Weight::Bold
    } else if n == 800 {
        Weight::ExtraBold
    } else if n == 900 {
        Weight::Black
    } else {
        Weight::Other(n)
    }
}

/// The weight class of a weight number, as ttf-parser's `Weight::from`
/// gives it.
pub fn weight_of_number(n: u16) -> (w: Weight)
    ensures
        w == weight_of(n),
{
    if n == 100 {
        Weight::Thin
    } else if n == 200 {
        Weight::ExtraLight
    } else if n == 300 {
        Weight::Light
    } else if n == 400 {
        Weight::Normal
    } else if n == 500 {
        Weight::Medium
    } else if n == 600 {
        Weight::SemiBold
    } else if n == 700 {
        Weight::Bold
    } else if n == 800 {
        Weight::ExtraBold
    } else if n == 900 {
        Weight::Black
    } else {
        Weight::Other(n)
    }
}

/// The width class of a width number, 1 to 9; any other number is normal.
pub open spec fn width_of(n: u16) -> Width {
    if n == 1 {
        Width::UltraCondensed
    } else if n == 2 {
        Width::ExtraCondensed
    } else if n == 3 {
        Width::Condensed
    } else if n == 4 {
        Width::SemiCondensed
    } else if n == 6 {
        Width::SemiExpanded
    } else if n == 7 {
        Width::Expanded
    } else if n == 8 {
        Width::ExtraExpanded
    } else if n == 9 {
        Width::UltraExpanded
    } else {
        Width::Normal
    }
}

/// The width class of a width number, as ttf-parser reads it.
pub fn width_of_number(n: u16) -> (w: Width)
    ensures
        w == width_of(n),
{
    if n == 1 {
        Width::UltraCondensed
    } else if n == 2 {
        Width::ExtraCondensed
    } else if n == 3 {
        Width::Condensed
    } else if n == 4 {
        Width::SemiCondensed
    } else if n == 6 {
        Width::SemiExpanded
    } else if n == 7 {
        Width::Expanded
    } else if n == 8 {
        Width::ExtraExpanded
    } else if n == 9 {
        Width::UltraExpanded
    } else {
        Width::Normal
    }
}

/// The names of the blocks, in order.
pub open spec fn block_names(bs: Seq<UnicodeBlock>) -> Seq<Seq<char>> {
    bs.map_values(|b: UnicodeBlock| b.name@)
}

fn names_of_blocks(bs: &Vec<UnicodeBlock>) -> (r: Vec<String>)
    ensures
        string_views(r@) == block_names(bs@),
{
    let mut r: Vec<String> = Vec::new();
    let mut i: usize = 0;
    while i < bs.len()
        invariant
            i <= bs@.len(),
            r@.len() == i,
            forall|j: int| 0 <= j < i ==> (#[trigger] r@[j])@ == bs@[j].name@,
        decreases bs@.len() - i,
    {
        r.push(bs[i].name.clone());
        i = i + 1;
    }
    proof {
        assert(string_views(r@) =~= block_names(bs@));
    }
    r
}

/// The blocks of the face, by name: their names when the face's characters
/// can be read, else the error of reading them.
pub open spec fn face_block_names(data: Seq<u8>, blocks: Result<Vec<String>, Error>) -> bool {
    &&& (blocks is Ok <==> face_chars_ok(data))
    &&& blocks matches Ok(names) ==> exists|bs: Seq<UnicodeBlock>|
        #[trigger] face_blocks_of(data, bs) && string_views(names@) == block_names(bs)
    &&& blocks matches Err(e) ==> e matches Error::Invalid(_, msg) && face_chars_error(data, msg@)
}

/// `p` holds the face in `data` under the file name `name`: its tables,
/// metrics, italic angle and unicode blocks.
pub open spec fn properties_of(p: FaceProperties, name: Option<String>, data: Seq<u8>) -> bool {
    &&& parsed_table_flags(data) matches Ok(flags)
    &&& parsed_face_metrics(data) matches Ok(m)
    &&& parsed_italic_angle(data) matches Ok(angle)
    &&& p.name == name
    &&& p.tables@ == table_names_spec(presence_of_flags(flags))
    &&& p.glyph_count == m.glyph_count
    &&& p.global_bounding_box == m.global_bounding_box
    &&& p.regular == m.regular
    &&& p.italic == m.italic
    &&& p.bold == m.bold
    &&& p.oblique == m.oblique
    &&& p.monospaced == m.monospaced
    &&& p.variable == m.variable
    &&& p.units_per_em == m.units_per_em
    &&& p.x_height == m.x_height
    &&& p.capital_height == m.capital_height
    &&& p.underline_metrics == m.underline_metrics
    &&& p.strikeout_metrics == m.strikeout_metrics
    &&& p.subscript_metrics == m.subscript_metrics
    &&& p.superscript_metrics == m.superscript_metrics
    &&& (match angle {
        Some(t) => p.italic_angle matches Some(a) && a@ == t,
        None => p.italic_angle is None,
    })
    &&& p.weight == weight_of(m.weight_number)
    &&& p.width == width_of(m.width_number)
    &&& p.style == m.style
    &&& p.ascender == m.ascender
    &&& p.descender == m.descender
    &&& p.height == m.height
    &&& p.line_gap == m.line_gap
    &&& p.vertical_ascender == m.vertical_ascender
    &&& p.vertical_descender == m.vertical_descender
    &&& p.vertical_height == m.vertical_height
    &&& p.vertical_line_gap == m.vertical_line_gap
    &&& p.typographic_ascender == m.typographic_ascender
    &&& p.typographic_descender == m.typographic_descender
    &&& p.typographic_line_gap == m.typographic_line_gap
    &&& face_block_names(data, p.unicode_blocks)
}

/// The properties of the face in the font file `data`, named `name`, as
/// `FontFile::to_face_properties` reads them. The error of the first read
/// that fails: the tables, then the metrics, then the italic angle; an
/// error reading the characters is kept in the unicode blocks.
pub fn face_properties(data: &[u8], name: Option<String>) -> (r: Result<FaceProperties, Error>)
    ensures
        r is Ok <==> (parsed_table_flags(data@) is Ok && parsed_face_metrics(data@) is Ok
            && parsed_italic_angle(data@) is Ok),
        parsed_table_flags(data@) matches Err(e) ==> r matches Err(Error::Invalid(_, msg)) && msg@ == e,
        parsed_table_flags(data@) is Ok ==> (parsed_face_metrics(data@) matches Err(e) ==> (r matches Err(
            Error::Invalid(_, msg),
        ) && msg@ == e)),
        parsed_table_flags(data@) is Ok && parsed_face_metrics(data@) is Ok ==> (parsed_italic_angle(
            data@,
        ) matches Err(e) ==> (r matches Err(Error::Invalid(_, msg)) && msg@ == e)),
        r matches Ok(p) ==> properties_of(p, name, data@),
{
    let tables = match face_table_names(data) {
        Ok(t) => t,
        Err(e) => return Err(e),
    };
    let m = match face_metrics(data) {
        Ok(m) => m,
        Err(e) => return Err(e),
    };
    let italic_angle = match face_italic_angle(data) {
        Ok(a) => a,
        Err(e) => return Err(e),
    };
    let unicode_blocks = match face_unicode_blocks(data) {
        Ok(bs) => {
            let names = names_of_blocks(&bs);
            Ok(names)
        },
        Err(e) => Err(e),
    };
    let p = FaceProperties {
        name,
        tables,
        glyph_count: m.glyph_count,
        global_bounding_box: m.global_bounding_box,
        regular: m.regular,
        italic: m.italic,
        bold: m.bold,
        oblique: m.oblique,
        monospaced: m.monospaced,
        variable: m.variable,
        units_per_em: m.units_per_em,
        x_height: m.x_height,
        capital_height: m.capital_height,
        underline_metrics: m.underline_metrics,
        strikeout_metrics: m.strikeout_metrics,
        subscript_metrics: m.subscript_metrics,
        superscript_metrics: m.superscript_metrics,
        italic_angle,
        weight: weight_of_number(m.weight_number),
        width: width_of_number(m.width_number),
        style: m.style,
        ascender: m.ascender,
        descender: m.descender,
        height: m.height,
        line_gap: m.line_gap,
        vertical_ascender: m.vertical_ascender,
        vertical_descender: m.vertical_descender,
        vertical_height: m.vertical_height,
        vertical_line_gap: m.vertical_line_gap,
        typographic_ascender: m.typographic_ascender,
        typographic_descender: m.typographic_descender,
        typographic_line_gap: m.typographic_line_gap,
        unicode_blocks,
    };
    Ok(p)
}

} // verus!
