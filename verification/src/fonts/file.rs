//! Font-face bookkeeping: which tables a face holds, its properties, and
//! how each property is shown.

use vstd::prelude::*;
use vstd::string::StringExecFns;

use crate::util::decimal;
use crate::util::format_bool;
use crate::util::int_text;
use crate::util::lemma_decimal_injective;
use crate::util::lemma_int_text_injective;
use crate::util::int_to_string;
use crate::util::no_mark;
use crate::util::push_decimal;
use crate::util::str_eq;
use crate::util::yes_mark;
use crate::Error;

verus! {

/// Which optional tables a font face holds (`head`, `hhea` and `maxp` are
/// always there).
#[derive(Clone, Copy, PartialEq, Eq, Structural, Debug, Default)]
pub struct TablePresence {
    pub cbdt: bool,
    pub cff: bool,
    pub cmap: bool,
    pub glyf: bool,
    pub hmtx: bool,
    pub kern: bool,
    pub name: bool,
    pub os2: bool,
    pub post: bool,
    pub sbix: bool,
    pub svg: bool,
    pub vhea: bool,
    pub vmtx: bool,
    pub vorg: bool,
    pub gdef: bool,
    pub gpos: bool,
    pub gsub: bool,
    pub ankr: bool,
    pub feat: bool,
    pub kerx: bool,
    pub morx: bool,
    pub trak: bool,
    pub avar: bool,
    pub cff2: bool,
    pub fvar: bool,
    pub gvar: bool,
    pub hvar: bool,
    pub mvar: bool,
    pub vvar: bool,
}

/// The one-name sequence `name` when `present`, else the empty sequence.
pub open spec fn name_if(present: bool, name: &'static str) -> Seq<&'static str> {
    if present {
        seq![name]
    } else {
        Seq::empty()
    }
}

/// Number of optional tables.
pub const OPTIONAL_TABLE_COUNT: usize = 29;

/// Name of the `i`-th optional table, in the order tables are listed.
pub open spec fn optional_table_name(i: nat) -> &'static str {
    if i == 0 {
        "cbdt"
    } else if i == 1 {
        "cff"
    } else if i == 2 {
        "cmap"
    } else if i == 3 {
        "glyf"
    } else if i == 4 {
        "hmtx"
    } else if i == 5 {
        "kern"
    } else if i == 6 {
        "name"
    } else if i == 7 {
        "os2"
    } else if i == 8 {
        "post"
    } else if i == 9 {
        "sbix"
    } else if i == 10 {
        "svg"
    } else if i == 11 {
        "vhea"
    } else if i == 12 {
        "vmtx"
    } else if i == 13 {
        "vorg"
    } else if i == 14 {
        "gdef"
    } else if i == 15 {
        "gpos"
    } else if i == 16 {
        "gsub"
    } else if i == 17 {
        "ankr"
    } else if i == 18 {
        "feat"
    } else if i == 19 {
        "kerx"
    } else if i == 20 {
        "morx"
    } else if i == 21 {
        "trak"
    } else if i == 22 {
        "avar"
    } else if i == 23 {
        "cff2"
    } else if i == 24 {
        "fvar"
    } else if i == 25 {
        "gvar"
    } else if i == 26 {
        "hvar"
    } else if i == 27 {
        "mvar"
    } else {
        "vvar"
    }
}

/// Whether the `i`-th optional table is present.
pub open spec fn optional_table_present(p: TablePresence, i: nat) -> bool {
    if i == 0 {
        p.cbdt
    } else if i == 1 {
        p.cff
    } else if i == 2 {
        p.cmap
    } else if i == 3 {
        p.glyf
    } else if i == 4 {
        p.hmtx
    } else if i == 5 {
        p.kern
    } else if i == 6 {
        p.name
    } else if i == 7 {
        p.os2
    } else if i == 8 {
        p.post
    } else if i == 9 {
        p.sbix
    } else if i == 10 {
        p.svg
    } else if i == 11 {
        p.vhea
    } else if i == 12 {
        p.vmtx
    } else if i == 13 {
        p.vorg
    } else if i == 14 {
        p.gdef
    } else if i == 15 {
        p.gpos
    } else if i == 16 {
        p.gsub
    } else if i == 17 {
        p.ankr
    } else if i == 18 {
        p.feat
    } else if i == 19 {
        p.kerx
    } else if i == 20 {
        p.morx
    } else if i == 21 {
        p.trak
    } else if i == 22 {
        p.avar
    } else if i == 23 {
        p.cff2
    } else if i == 24 {
        p.fvar
    } else if i == 25 {
        p.gvar
    } else if i == 26 {
        p.hvar
    } else if i == 27 {
        p.mvar
    } else {
        p.vvar
    }
}

/// The three mandatory tables, then the first `k` optional tables that are
/// present, in order.
pub open spec fn table_names_upto(p: TablePresence, k: nat) -> Seq<&'static str>
    decreases k,
{
    if k == 0 {
        seq!["head", "hhea", "maxp"]
    } else {
        table_names_upto(p, (k - 1) as nat) + name_if(
            optional_table_present(p, (k - 1) as nat),
            optional_table_name((k - 1) as nat),
        )
    }
}

/// Names of the tables of a face: the three mandatory ones, then each
/// optional one that is present, in a fixed order.
pub open spec fn table_names_spec(p: TablePresence) -> Seq<&'static str> {
    table_names_upto(p, OPTIONAL_TABLE_COUNT as nat)
}

fn optional_table(p: &TablePresence, i: usize) -> (r: (bool, &'static str))
    requires
        i < OPTIONAL_TABLE_COUNT,
    ensures
        r.0 == optional_table_present(*p, i as nat),
        r.1 == optional_table_name(i as nat),
{
    if i == 0 {
        (p.cbdt, "cbdt")
    } else if i == 1 {
        (p.cff, "cff")
    } else if i == 2 {
        (p.cmap, "cmap")
    } else if i == 3 {
        (p.glyf, "glyf")
    } else if i == 4 {
        (p.hmtx, "hmtx")
    } else if i == 5 {
        (p.kern, "kern")
    } else if i == 6 {
        (p.name, "name")
    } else if i == 7 {
        (p.os2, "os2")
    } else if i == 8 {
        (p.post, "post")
    } else if i == 9 {
        (p.sbix, "sbix")
    } else if i == 10 {
        (p.svg, "svg")
    } else if i == 11 {
        (p.vhea, "vhea")
    } else if i == 12 {
        (p.vmtx, "vmtx")
    } else if i == 13 {
        (p.vorg, "vorg")
    } else if i == 14 {
        (p.gdef, "gdef")
    } else if i == 15 {
        (p.gpos, "gpos")
    } else if i == 16 {
        (p.gsub, "gsub")
    } else if i == 17 {
        (p.ankr, "ankr")
    } else if i == 18 {
        (p.feat, "feat")
    } else if i == 19 {
        (p.kerx, "kerx")
    } else if i == 20 {
        (p.morx, "morx")
    } else if i == 21 {
        (p.trak, "trak")
    } else if i == 22 {
        (p.avar, "avar")
    } else if i == 23 {
        (p.cff2, "cff2")
    } else if i == 24 {
        (p.fvar, "fvar")
    } else if i == 25 {
        (p.gvar, "gvar")
    } else if i == 26 {
        (p.hvar, "hvar")
    } else if i == 27 {
        (p.mvar, "mvar")
    } else {
        (p.vvar, "vvar")
    }
}

/// Names of the tables of a face, as `FontFile::to_table_names` lists them.
pub fn to_table_names(p: &TablePresence) -> (ts: Vec<&'static str>)
    ensures
        ts@ == table_names_spec(*p),
{
    let mut ts: Vec<&'static str> = Vec::new();
    ts.push("head");
    ts.push("hhea");
    ts.push("maxp");
    assert(ts@ =~= table_names_upto(*p, 0));
    let mut i: usize = 0;
    while i < OPTIONAL_TABLE_COUNT
        invariant
            i <= OPTIONAL_TABLE_COUNT,
            ts@ == table_names_upto(*p, i as nat),
        decreases OPTIONAL_TABLE_COUNT - i,
    {
        let (present, name) = optional_table(p, i);
        if present {
            ts.push(name);
        }
        assert(ts@ =~= table_names_upto(*p, (i + 1) as nat));
        i = i + 1;
    }
    ts
}

/// A bounding box in font units.
#[derive(Clone, Copy, PartialEq, Eq, Structural, Debug, Default)]
pub struct BoundingBox {
    pub x_min: i16,
    pub y_min: i16,
    pub x_max: i16,
    pub y_max: i16,
}

/// Position and thickness of a decoration line (underline, strikeout).
#[derive(Clone, Copy, PartialEq, Eq, Structural, Debug, Default)]
pub struct LineMetrics {
    pub position: i16,
    pub thickness: i16,
}

/// Size and offset of subscripts or superscripts.
#[derive(Clone, Copy, PartialEq, Eq, Structural, Debug, Default)]
pub struct ScriptMetrics {
    pub x_size: i16,
    pub y_size: i16,
    pub x_offset: i16,
    pub y_offset: i16,
}

/// Weight class of a face.
#[derive(Clone, Copy, PartialEq, Eq, Structural, Debug)]
pub enum Weight {
    Thin,
    ExtraLight,
    Light,
    Normal,
    Medium,
    SemiBold,
    Bold,
    ExtraBold,
    Black,
    Other(u16),
}

/// Width class of a face.
#[derive(Clone, Copy, PartialEq, Eq, Structural, Debug)]
pub enum Width {
    UltraCondensed,
    ExtraCondensed,
    Condensed,
    SemiCondensed,
    Normal,
    SemiExpanded,
    Expanded,
    ExtraExpanded,
    UltraExpanded,
}

/// Style of a face.
#[derive(Clone, Copy, PartialEq, Eq, Structural, Debug)]
pub enum Style {
    Normal,
    Italic,
    Oblique,
}

/// `"(x_min,y_min)->(x_max,y_max)"`.
pub open spec fn rect_text(b: BoundingBox) -> Seq<char> {
    "("@ + int_text(b.x_min as int) + ","@ + int_text(b.y_min as int) + ")->("@ + int_text(
        b.x_max as int,
    ) + ","@ + int_text(b.y_max as int) + ")"@
}

/// `"pos:<position>,thick:<thickness>"`.
pub open spec fn lmetrics_text(m: LineMetrics) -> Seq<char> {
    "pos:"@ + int_text(m.position as int) + ",thick:"@ + int_text(m.thickness as int)
}

/// `"xoff:<x_offset>,yoff:<y_offset>/x:<x_size>,y:<y_size>"`.
pub open spec fn smetrics_text(m: ScriptMetrics) -> Seq<char> {
    "xoff:"@ + int_text(m.x_offset as int) + ",yoff:"@ + int_text(m.y_offset as int) + "/x:"@
        + int_text(m.x_size as int) + ",y:"@ + int_text(m.y_size as int)
}

/// Name of a weight class; the number itself for other weights.
pub open spec fn weight_text(w: Weight) -> Seq<char> {
    match w {
        Weight::Thin => "thin"@,
        Weight::ExtraLight => "extra-light"@,
        Weight::Light => "light"@,
        Weight::Normal => "normal"@,
        Weight::Medium => "medium"@,
        Weight::SemiBold => "semi-bold"@,
        Weight::Bold => "bold"@,
        Weight::ExtraBold => "extra-bold"@,
        Weight::Black => "black"@,
        Weight::Other(v) => decimal(v as nat),
    }
}

/// Name of a width class.
pub open spec fn width_text(w: Width) -> Seq<char> {
    match w {
        Width::UltraCondensed => "ultra-condensed"@,
        Width::ExtraCondensed => "extra-condensed"@,
        Width::Condensed => "condensed"@,
        Width::SemiCondensed => "semi-condensed"@,
        Width::Normal => "normal"@,
        Width::SemiExpanded => "semi-expanded"@,
        Width::Expanded => "expanded"@,
        Width::ExtraExpanded => "extra-expanded"@,
        Width::UltraExpanded => "ultra-expanded"@,
    }
}

/// Name of a style.
pub open spec fn style_text(s: Style) -> Seq<char> {
    match s {
        Style::Normal => "normal"@,
        Style::Italic => "italic"@,
        Style::Oblique => "oblique"@,
    }
}

/// The number, or `"-"` when absent.
pub open spec fn opt_text(v: Option<i16>) -> Seq<char> {
    match v {
        Some(v) => int_text(v as int),
        None => "-"@,
    }
}

/// The mark of a boolean flag.
pub open spec fn bool_text(b: bool) -> Seq<char> {
    if b {
        yes_mark()
    } else {
        no_mark()
    }
}

/// The first `k` names laid out four to a line: names of one line are
/// separated by `", "`, lines by a newline.
pub open spec fn blocks_text(names: Seq<Seq<char>>, k: nat) -> Seq<char>
    decreases k,
{
    if k == 0 {
        Seq::empty()
    } else {
        let i = (k - 1) as nat;
        let sep = if i == 0 {
            Seq::<char>::empty()
        } else if i % 4 == 0 {
            "\n"@
        } else {
            ", "@
        };
        blocks_text(names, i) + sep + names[i as int]
    }
}

/// The characters of each string in a list.
pub open spec fn string_views(names: Seq<String>) -> Seq<Seq<char>> {
    names.map_values(|s: String| s@)
}

pub(crate) fn append_int(s: &mut String, v: i64)
    ensures
        final(s)@ == old(s)@ + int_text(v as int),
{
    let t = int_to_string(v);
    s.append(t.as_str());
}

/// `"(x_min,y_min)->(x_max,y_max)"`.
pub fn rect_to_string(b: &BoundingBox) -> (r: String)
    ensures
        r@ == rect_text(*b),
{
    let mut s = String::new();
    s.append("(");
    append_int(&mut s, b.x_min as i64);
    s.append(",");
    append_int(&mut s, b.y_min as i64);
    s.append(")->(");
    append_int(&mut s, b.x_max as i64);
    s.append(",");
    append_int(&mut s, b.y_max as i64);
    s.append(")");
    proof {
        assert(s@ =~= rect_text(*b));
    }
    s
}

/// `"pos:<position>,thick:<thickness>"`.
pub fn lmetrics_to_string(m: &LineMetrics) -> (r: String)
    ensures
        r@ == lmetrics_text(*m),
{
    let mut s = String::new();
    s.append("pos:");
    append_int(&mut s, m.position as i64);
    s.append(",thick:");
    append_int(&mut s, m.thickness as i64);
    proof {
        assert(s@ =~= lmetrics_text(*m));
    }
    s
}

/// `"xoff:<x_offset>,yoff:<y_offset>/x:<x_size>,y:<y_size>"`.
pub fn smetrics_to_string(m: &ScriptMetrics) -> (r: String)
    ensures
        r@ == smetrics_text(*m),
{
    let mut s = String::new();
    s.append("xoff:");
    append_int(&mut s, m.x_offset as i64);
    s.append(",yoff:");
    append_int(&mut s, m.y_offset as i64);
    s.append("/x:");
    append_int(&mut s, m.x_size as i64);
    s.append(",y:");
    append_int(&mut s, m.y_size as i64);
    proof {
        assert(s@ =~= smetrics_text(*m));
    }
    s
}

/// Name of a weight class; the number itself for other weights.
pub fn weight_to_string(w: &Weight) -> (r: String)
    ensures
        r@ == weight_text(*w),
{
    match w {
        Weight::Thin => String::from_str("thin"),
        Weight::ExtraLight => String::from_str("extra-light"),
        Weight::Light => String::from_str("light"),
        Weight::Normal => String::from_str("normal"),
        Weight::Medium => String::from_str("medium"),
        Weight::SemiBold => String::from_str("semi-bold"),
        Weight::Bold => String::from_str("bold"),
        Weight::ExtraBold => String::from_str("extra-bold"),
        Weight::Black => String::from_str("black"),
        Weight::Other(v) => {
            let mut s = String::new();
            push_decimal(&mut s, *v as u64);
            proof {
                assert(s@ =~= weight_text(*w));
            }
            s
        },
    }
}

/// Name of a width class.
pub fn width_to_string(w: &Width) -> (r: String)
    ensures
        r@ == width_text(*w),
{
    let s = match w {
        Width::UltraCondensed => "ultra-condensed",
        Width::ExtraCondensed => "extra-condensed",
        Width::Condensed => "condensed",
        Width::SemiCondensed => "semi-condensed",
        Width::Normal => "normal",
        Width::SemiExpanded => "semi-expanded",
        Width::Expanded => "expanded",
        Width::ExtraExpanded => "extra-expanded",
        Width::UltraExpanded => "ultra-expanded",
    };
    String::from_str(s)
}

/// Name of a style.
pub fn style_to_string(st: &Style) -> (r: String)
    ensures
        r@ == style_text(*st),
{
    let s = match st {
        Style::Normal => "normal",
        Style::Italic => "italic",
        Style::Oblique => "oblique",
    };
    String::from_str(s)
}

fn opt_to_string(v: Option<i16>) -> (r: String)
    ensures
        r@ == opt_text(v),
{
    match v {
        Some(v) => int_to_string(v as i64),
        None => String::from_str("-"),
    }
}

/// The names laid out four to a line, as the `unicode_blocks` property
/// shows them.
pub fn blocks_to_string(names: &Vec<String>) -> (r: String)
    ensures
        r@ == blocks_text(string_views(names@), names@.len()),
{
    let mut s = String::new();
    let n = names.len();
    let mut i: usize = 0;
    while i < n
        invariant
            n == names@.len(),
            i <= n,
            s@ == blocks_text(string_views(names@), i as nat),
        decreases n - i,
    {
        let ghost prev = s@;
        if i == 0 {
        } else if i % 4 == 0 {
            s.append("\n");
        } else {
            s.append(", ");
        }
        s.append(names[i].as_str());
        proof {
            assert(s@ =~= blocks_text(string_views(names@), (i + 1) as nat));
        }
        i = i + 1;
    }
    s
}
/// The properties of a font face, as plain values.
pub struct FaceProperties {
    /// File name of the font file, when it has one.
    pub name: Option<String>,
    pub tables: Vec<&'static str>,
    pub glyph_count: u16,
    pub global_bounding_box: BoundingBox,
    pub regular: bool,
    pub italic: bool,
    pub bold: bool,
    pub oblique: bool,
    pub monospaced: bool,
    pub variable: bool,
    pub units_per_em: u16,
    pub x_height: Option<i16>,
    pub capital_height: Option<i16>,
    pub underline_metrics: Option<LineMetrics>,
    pub strikeout_metrics: Option<LineMetrics>,
    pub subscript_metrics: Option<ScriptMetrics>,
    pub superscript_metrics: Option<ScriptMetrics>,
    /// The italic angle, already rendered as text.
    pub italic_angle: Option<String>,
    pub weight: Weight,
    pub width: Width,
    pub style: Style,
    pub ascender: i16,
    pub descender: i16,
    pub height: i16,
    pub line_gap: i16,
    pub vertical_ascender: Option<i16>,
    pub vertical_descender: Option<i16>,
    pub vertical_height: Option<i16>,
    pub vertical_line_gap: Option<i16>,
    pub typographic_ascender: Option<i16>,
    pub typographic_descender: Option<i16>,
    pub typographic_line_gap: Option<i16>,
    /// Names of the unicode blocks that the face's glyphs fall in, in block
    /// order; the error of reading the glyphs when they could not be read.
    pub unicode_blocks: Result<Vec<String>, Error>,
}

/// The marks of the regular, italic, bold, oblique, monospaced and variable
/// flags, in that order.
pub open spec fn flags_text(p: FaceProperties) -> Seq<char> {
    bool_text(p.regular) + bool_text(p.italic) + bool_text(p.bold) + bool_text(p.oblique) + bool_text(
        p.monospaced,
    ) + bool_text(p.variable)
}

/// The marks of the face's flags, as the face listing shows them.
pub fn format_flags(p: &FaceProperties) -> (r: String)
    ensures
        r@ == flags_text(*p),
{
    let mut s = String::new();
    s.append(format_bool(p.regular));
    s.append(format_bool(p.italic));
    s.append(format_bool(p.bold));
    s.append(format_bool(p.oblique));
    s.append(format_bool(p.monospaced));
    s.append(format_bool(p.variable));
    proof {
        assert(s@ =~= flags_text(*p));
    }
    s
}

/// The names of the properties that `print_property` knows.
pub open spec fn is_property_name(p: Seq<char>) -> bool {
    p == "name"@
        || p == "tables"@
        || p == "glyph_count"@
        || p == "global_bounding_box"@
        || p == "regular"@
        || p == "italic"@
        || p == "bold"@
        || p == "oblique"@
        || p == "monospaced"@
        || p == "variable"@
        || p == "units_per_em"@
        || p == "x_height"@
        || p == "capital_height"@
        || p == "underline_metrics"@
        || p == "strikeout_metrics"@
        || p == "subscript_metrics"@
        || p == "superscript_metrics"@
        || p == "italic_angle"@
        || p == "weight"@
        || p == "width"@
        || p == "style"@
        || p == "ascender"@
        || p == "descender"@
        || p == "height"@
        || p == "line_gap"@
        || p == "vertical_ascender"@
        || p == "vertical_descender"@
        || p == "vertical_height"@
        || p == "vertical_line_gap"@
        || p == "typographic_ascender"@
        || p == "typographic_descender"@
        || p == "typographic_line_gap"@
        || p == "unicode_blocks"@
}

/// The text of property `p` of a face; `None` when the property cannot be
/// computed (the unicode blocks of a face whose glyphs could not be read).
pub open spec fn property_text(fp: FaceProperties, p: Seq<char>) -> Option<Seq<char>> {
    if p == "name"@ {
        Some(match fp.name { Some(n) => n@, None => "-"@ })
    } else if p == "tables"@ {
        Some("-"@)
    } else if p == "glyph_count"@ {
        Some(decimal(fp.glyph_count as nat))
    } else if p == "global_bounding_box"@ {
        Some(rect_text(fp.global_bounding_box))
    } else if p == "regular"@ {
        Some(bool_text(fp.regular))
    } else if p == "italic"@ {
        Some(bool_text(fp.italic))
    } else if p == "bold"@ {
        Some(bool_text(fp.bold))
    } else if p == "oblique"@ {
        Some(bool_text(fp.oblique))
    } else if p == "monospaced"@ {
        Some(bool_text(fp.monospaced))
    } else if p == "variable"@ {
        Some(bool_text(fp.variable))
    } else if p == "units_per_em"@ {
        Some(decimal(fp.units_per_em as nat))
    } else if p == "x_height"@ {
        Some(opt_text(fp.x_height))
    } else if p == "capital_height"@ {
        Some(opt_text(fp.capital_height))
    } else if p == "underline_metrics"@ {
        Some(match fp.underline_metrics { Some(m) => lmetrics_text(m), None => "-"@ })
    } else if p == "strikeout_metrics"@ {
        Some(match fp.strikeout_metrics { Some(m) => lmetrics_text(m), None => "-"@ })
    } else if p == "subscript_metrics"@ {
        Some(match fp.subscript_metrics { Some(m) => smetrics_text(m), None => "-"@ })
    } else if p == "superscript_metrics"@ {
        Some(match fp.superscript_metrics { Some(m) => smetrics_text(m), None => "-"@ })
    } else if p == "italic_angle"@ {
        Some(match fp.italic_angle { Some(a) => a@, None => "-"@ })
    } else if p == "weight"@ {
        Some(weight_text(fp.weight))
    } else if p == "width"@ {
        Some(width_text(fp.width))
    } else if p == "style"@ {
        Some(style_text(fp.style))
    } else if p == "ascender"@ {
        Some(int_text(fp.ascender as int))
    } else if p == "descender"@ {
        Some(int_text(fp.descender as int))
    } else if p == "height"@ {
        Some(int_text(fp.height as int))
    } else if p == "line_gap"@ {
        Some(int_text(fp.line_gap as int))
    } else if p == "vertical_ascender"@ {
        Some(opt_text(fp.vertical_ascender))
    } else if p == "vertical_descender"@ {
        Some(opt_text(fp.vertical_descender))
    } else if p == "vertical_height"@ {
        Some(opt_text(fp.vertical_height))
    } else if p == "vertical_line_gap"@ {
        Some(opt_text(fp.vertical_line_gap))
    } else if p == "typographic_ascender"@ {
        Some(opt_text(fp.typographic_ascender))
    } else if p == "typographic_descender"@ {
        Some(opt_text(fp.typographic_descender))
    } else if p == "typographic_line_gap"@ {
        Some(opt_text(fp.typographic_line_gap))
    } else if p == "unicode_blocks"@ {
        match fp.unicode_blocks { Ok(b) => Some(blocks_text(string_views(b@), b@.len())), Err(_) => None }
    } else {
        None
    }
}


/// Each property's text is the text of the face's field of the same name:
/// a count as its decimal digits, a metric as its signed decimal text (or
/// `-` when the face has none), a flag as its mark, and so on.
pub proof fn lemma_property_texts(fp: FaceProperties)
    ensures
        property_text(fp, "name"@) == Some(match fp.name { Some(n) => n@, None => "-"@ }),
        property_text(fp, "tables"@) == Some("-"@),
        property_text(fp, "glyph_count"@) == Some(decimal(fp.glyph_count as nat)),
        property_text(fp, "global_bounding_box"@) == Some(rect_text(fp.global_bounding_box)),
        property_text(fp, "regular"@) == Some(bool_text(fp.regular)),
        property_text(fp, "italic"@) == Some(bool_text(fp.italic)),
        property_text(fp, "bold"@) == Some(bool_text(fp.bold)),
        property_text(fp, "oblique"@) == Some(bool_text(fp.oblique)),
        property_text(fp, "monospaced"@) == Some(bool_text(fp.monospaced)),
        property_text(fp, "variable"@) == Some(bool_text(fp.variable)),
        property_text(fp, "units_per_em"@) == Some(decimal(fp.units_per_em as nat)),
        property_text(fp, "x_height"@) == Some(opt_text(fp.x_height)),
        property_text(fp, "capital_height"@) == Some(opt_text(fp.capital_height)),
        property_text(fp, "underline_metrics"@) == Some(match fp.underline_metrics { Some(m) => lmetrics_text(m), None => "-"@ }),
        property_text(fp, "strikeout_metrics"@) == Some(match fp.strikeout_metrics { Some(m) => lmetrics_text(m), None => "-"@ }),
        property_text(fp, "subscript_metrics"@) == Some(match fp.subscript_metrics { Some(m) => smetrics_text(m), None => "-"@ }),
        property_text(fp, "superscript_metrics"@) == Some(match fp.superscript_metrics { Some(m) => smetrics_text(m), None => "-"@ }),
        property_text(fp, "italic_angle"@) == Some(match fp.italic_angle { Some(a) => a@, None => "-"@ }),
        property_text(fp, "weight"@) == Some(weight_text(fp.weight)),
        property_text(fp, "width"@) == Some(width_text(fp.width)),
        property_text(fp, "style"@) == Some(style_text(fp.style)),
        property_text(fp, "ascender"@) == Some(int_text(fp.ascender as int)),
        property_text(fp, "descender"@) == Some(int_text(fp.descender as int)),
        property_text(fp, "height"@) == Some(int_text(fp.height as int)),
        property_text(fp, "line_gap"@) == Some(int_text(fp.line_gap as int)),
        property_text(fp, "vertical_ascender"@) == Some(opt_text(fp.vertical_ascender)),
        property_text(fp, "vertical_descender"@) == Some(opt_text(fp.vertical_descender)),
        property_text(fp, "vertical_height"@) == Some(opt_text(fp.vertical_height)),
        property_text(fp, "vertical_line_gap"@) == Some(opt_text(fp.vertical_line_gap)),
        property_text(fp, "typographic_ascender"@) == Some(opt_text(fp.typographic_ascender)),
        property_text(fp, "typographic_descender"@) == Some(opt_text(fp.typographic_descender)),
        property_text(fp, "typographic_line_gap"@) == Some(opt_text(fp.typographic_line_gap)),
{
    reveal_strlit("name");
    reveal_strlit("tables");
    reveal_strlit("glyph_count");
    reveal_strlit("global_bounding_box");
    reveal_strlit("regular");
    reveal_strlit("italic");
    reveal_strlit("bold");
    reveal_strlit("oblique");
    reveal_strlit("monospaced");
    reveal_strlit("variable");
    reveal_strlit("units_per_em");
    reveal_strlit("x_height");
    reveal_strlit("capital_height");
    reveal_strlit("underline_metrics");
    reveal_strlit("strikeout_metrics");
    reveal_strlit("subscript_metrics");
    reveal_strlit("superscript_metrics");
    reveal_strlit("italic_angle");
    reveal_strlit("weight");
    reveal_strlit("width");
    reveal_strlit("style");
    reveal_strlit("ascender");
    reveal_strlit("descender");
    reveal_strlit("height");
    reveal_strlit("line_gap");
    reveal_strlit("vertical_ascender");
    reveal_strlit("vertical_descender");
    reveal_strlit("vertical_height");
    reveal_strlit("vertical_line_gap");
    reveal_strlit("typographic_ascender");
    reveal_strlit("typographic_descender");
    reveal_strlit("typographic_line_gap");
    reveal_strlit("unicode_blocks");
    assert("name"@.len() == 4);
    assert("tables"@.len() == 6);
    assert("glyph_count"@.len() == 11);
    assert("global_bounding_box"@.len() == 19);
    assert("regular"@.len() == 7);
    assert("italic"@.len() == 6);
    assert("bold"@.len() == 4);
    assert("oblique"@.len() == 7);
    assert("monospaced"@.len() == 10);
    assert("variable"@.len() == 8);
    assert("units_per_em"@.len() == 12);
    assert("x_height"@.len() == 8);
    assert("capital_height"@.len() == 14);
    assert("underline_metrics"@.len() == 17);
    assert("strikeout_metrics"@.len() == 17);
    assert("subscript_metrics"@.len() == 17);
    assert("superscript_metrics"@.len() == 19);
    assert("italic_angle"@.len() == 12);
    assert("weight"@.len() == 6);
    assert("width"@.len() == 5);
    assert("style"@.len() == 5);
    assert("ascender"@.len() == 8);
    assert("descender"@.len() == 9);
    assert("height"@.len() == 6);
    assert("line_gap"@.len() == 8);
    assert("vertical_ascender"@.len() == 17);
    assert("vertical_descender"@.len() == 18);
    assert("vertical_height"@.len() == 15);
    assert("vertical_line_gap"@.len() == 17);
    assert("typographic_ascender"@.len() == 20);
    assert("typographic_descender"@.len() == 21);
    assert("typographic_line_gap"@.len() == 20);
    assert("unicode_blocks"@.len() == 14);
    assert("tables"@[0] != "italic"@[0]);
    assert("name"@[0] != "bold"@[0]);
    assert("regular"@[0] != "oblique"@[0]);
    assert("variable"@[0] != "x_height"@[0]);
    assert("underline_metrics"@[0] != "strikeout_metrics"@[0]);
    assert("underline_metrics"@[0] != "subscript_metrics"@[0]);
    assert("strikeout_metrics"@[1] != "subscript_metrics"@[1]);
    assert("global_bounding_box"@[0] != "superscript_metrics"@[0]);
    assert("units_per_em"@[0] != "italic_angle"@[0]);
    assert("tables"@[0] != "weight"@[0]);
    assert("italic"@[0] != "weight"@[0]);
    assert("width"@[0] != "style"@[0]);
    assert("variable"@[0] != "ascender"@[0]);
    assert("x_height"@[0] != "ascender"@[0]);
    assert("tables"@[0] != "height"@[0]);
    assert("italic"@[0] != "height"@[0]);
    assert("weight"@[0] != "height"@[0]);
    assert("variable"@[0] != "line_gap"@[0]);
    assert("x_height"@[0] != "line_gap"@[0]);
    assert("ascender"@[0] != "line_gap"@[0]);
    assert("underline_metrics"@[0] != "vertical_ascender"@[0]);
    assert("strikeout_metrics"@[0] != "vertical_ascender"@[0]);
    assert("subscript_metrics"@[0] != "vertical_ascender"@[0]);
    assert("underline_metrics"@[0] != "vertical_line_gap"@[0]);
    assert("strikeout_metrics"@[0] != "vertical_line_gap"@[0]);
    assert("subscript_metrics"@[0] != "vertical_line_gap"@[0]);
    assert("vertical_ascender"@[9] != "vertical_line_gap"@[9]);
    assert("typographic_ascender"@[12] != "typographic_line_gap"@[12]);
    assert("capital_height"@[0] != "unicode_blocks"@[0]);
}


/// A face's counts and vertical metrics are shown faithfully: two faces show
/// the same text for one of these properties exactly when the faces have the
/// same value of the field of that name.
pub proof fn lemma_metric_texts_determine_metrics(a: FaceProperties, b: FaceProperties)
    ensures
        property_text(a, "glyph_count"@) == property_text(b, "glyph_count"@) <==> a.glyph_count == b.glyph_count,
        property_text(a, "units_per_em"@) == property_text(b, "units_per_em"@) <==> a.units_per_em
            == b.units_per_em,
        property_text(a, "ascender"@) == property_text(b, "ascender"@) <==> a.ascender == b.ascender,
        property_text(a, "descender"@) == property_text(b, "descender"@) <==> a.descender == b.descender,
        property_text(a, "height"@) == property_text(b, "height"@) <==> a.height == b.height,
        property_text(a, "line_gap"@) == property_text(b, "line_gap"@) <==> a.line_gap == b.line_gap,
{
    lemma_property_texts(a);
    lemma_property_texts(b);
    lemma_decimal_injective(a.glyph_count as nat, b.glyph_count as nat);
    lemma_decimal_injective(a.units_per_em as nat, b.units_per_em as nat);
    lemma_int_text_injective(a.ascender as int, b.ascender as int);
    lemma_int_text_injective(a.descender as int, b.descender as int);
    lemma_int_text_injective(a.height as int, b.height as int);
    lemma_int_text_injective(a.line_gap as int, b.line_gap as int);
}


/// A face's flags are shown faithfully: two faces show the same mark for a
/// flag exactly when they agree on the flag of that name.
pub proof fn lemma_flag_texts_determine_flags(a: FaceProperties, b: FaceProperties)
    ensures
        property_text(a, "regular"@) == property_text(b, "regular"@) <==> a.regular == b.regular,
        property_text(a, "italic"@) == property_text(b, "italic"@) <==> a.italic == b.italic,
        property_text(a, "bold"@) == property_text(b, "bold"@) <==> a.bold == b.bold,
        property_text(a, "oblique"@) == property_text(b, "oblique"@) <==> a.oblique == b.oblique,
        property_text(a, "monospaced"@) == property_text(b, "monospaced"@) <==> a.monospaced == b.monospaced,
        property_text(a, "variable"@) == property_text(b, "variable"@) <==> a.variable == b.variable,
{
    lemma_property_texts(a);
    lemma_property_texts(b);
    reveal_strlit("\u{2713}");
    reveal_strlit("\u{2717}");
    assert(bool_text(true) != bool_text(false)) by {
        assert(bool_text(true)[0] != bool_text(false)[0]);
    }
}

impl FaceProperties {
    /// The text of one property of the face, by the property's name.
    pub fn print_property(&self, property: &str) -> (r: Result<String, Error>)
        requires
            is_property_name(property@),
        ensures
            match property_text(*self, property@) {
                Some(t) => r matches Ok(s) && s@ == t,
                None => self.unicode_blocks matches Err(e) && r == Err::<String, Error>(e),
            },
    {
        let s = if str_eq(property, "name") {
            match &self.name {
                Some(n) => String::from_str(n.as_str()),
                None => String::from_str("-"),
            }
        } else if str_eq(property, "tables") {
            String::from_str("-")
        } else if str_eq(property, "glyph_count") {
            {
                let mut s = String::new();
                push_decimal(&mut s, self.glyph_count as u64);
                proof {
                    assert(s@ =~= decimal(self.glyph_count as nat));
                }
                s
            }
        } else if str_eq(property, "global_bounding_box") {
            rect_to_string(&self.global_bounding_box)
        } else if str_eq(property, "regular") {
            String::from_str(format_bool(self.regular))
        } else if str_eq(property, "italic") {
            String::from_str(format_bool(self.italic))
        } else if str_eq(property, "bold") {
            String::from_str(format_bool(self.bold))
        } else if str_eq(property, "oblique") {
            String::from_str(format_bool(self.oblique))
        } else if str_eq(property, "monospaced") {
            String::from_str(format_bool(self.monospaced))
        } else if str_eq(property, "variable") {
            String::from_str(format_bool(self.variable))
        } else if str_eq(property, "units_per_em") {
            {
                let mut s = String::new();
                push_decimal(&mut s, self.units_per_em as u64);
                proof {
                    assert(s@ =~= decimal(self.units_per_em as nat));
                }
                s
            }
        } else if str_eq(property, "x_height") {
            opt_to_string(self.x_height)
        } else if str_eq(property, "capital_height") {
            opt_to_string(self.capital_height)
        } else if str_eq(property, "underline_metrics") {
            match &self.underline_metrics {
                Some(m) => lmetrics_to_string(m),
                None => String::from_str("-"),
            }
        } else if str_eq(property, "strikeout_metrics") {
            match &self.strikeout_metrics {
                Some(m) => lmetrics_to_string(m),
                None => String::from_str("-"),
            }
        } else if str_eq(property, "subscript_metrics") {
            match &self.subscript_metrics {
                Some(m) => smetrics_to_string(m),
                None => String::from_str("-"),
            }
        } else if str_eq(property, "superscript_metrics") {
            match &self.superscript_metrics {
                Some(m) => smetrics_to_string(m),
                None => String::from_str("-"),
            }
        } else if str_eq(property, "italic_angle") {
            match &self.italic_angle {
                Some(a) => String::from_str(a.as_str()),
                None => String::from_str("-"),
            }
        } else if str_eq(property, "weight") {
            weight_to_string(&self.weight)
        } else if str_eq(property, "width") {
            width_to_string(&self.width)
        } else if str_eq(property, "style") {
            style_to_string(&self.style)
        } else if str_eq(property, "ascender") {
            int_to_string(self.ascender as i64)
        } else if str_eq(property, "descender") {
            int_to_string(self.descender as i64)
        } else if str_eq(property, "height") {
            int_to_string(self.height as i64)
        } else if str_eq(property, "line_gap") {
            int_to_string(self.line_gap as i64)
        } else if str_eq(property, "vertical_ascender") {
            opt_to_string(self.vertical_ascender)
        } else if str_eq(property, "vertical_descender") {
            opt_to_string(self.vertical_descender)
        } else if str_eq(property, "vertical_height") {
            opt_to_string(self.vertical_height)
        } else if str_eq(property, "vertical_line_gap") {
            opt_to_string(self.vertical_line_gap)
        } else if str_eq(property, "typographic_ascender") {
            opt_to_string(self.typographic_ascender)
        } else if str_eq(property, "typographic_descender") {
            opt_to_string(self.typographic_descender)
        } else if str_eq(property, "typographic_line_gap") {
            opt_to_string(self.typographic_line_gap)
        } else {
            match &self.unicode_blocks {
                Ok(b) => blocks_to_string(b),
                Err(e) => {
                    return Err(e.duplicate());
                },
            }
        };
        Ok(s)
    }
}

/// A box is proper when it spans some width and some height.
pub open spec fn is_proper_box(b: BoundingBox) -> bool {
    b.x_min < b.x_max && b.y_min < b.y_max
}

/// Whether the box spans some width and some height, as `Glyph::check_limits`
/// checks a glyph's box.
pub fn box_is_proper(b: &BoundingBox) -> (r: bool)
    ensures
        r == is_proper_box(*b),
{
    b.x_min < b.x_max && b.y_min < b.y_max
}

} // verus!
