//! Reading a font face from the bytes of its file with ttf-parser: the
//! tables it holds, its code points and characters.

use vstd::prelude::*;
use vstd::string::StringExecFns;

use crate::fonts::file::optional_table_present;
use crate::fonts::file::table_names_spec;
use crate::fonts::file::to_table_names;
use crate::fonts::file::TablePresence;
use crate::fonts::file::OPTIONAL_TABLE_COUNT;
use crate::fonts::glyph::all_distinct;
use crate::fonts::glyph::block_of_some;
use crate::fonts::glyph::blocks_ordered;
use crate::fonts::glyph::has_block_start;
use crate::fonts::glyph::unicode_blocks_of;
use crate::fonts::glyph::UnicodeBlock;
use crate::fonts::glyph::check_code_points;
use crate::fonts::glyph::glyph_char;
use crate::fonts::glyph::is_scalar_value;
use crate::fonts::glyph::least_repeated;
use crate::fonts::glyph::strictly_sorted;
use crate::util::decimal;
use crate::Error;

verus! {

/// What ttf-parser makes of the bytes `data` as a font (its first face):
/// for each optional table, in table order, whether the face holds it; or
/// the text of the parsing error.
pub uninterp spec fn parsed_table_flags(data: Seq<u8>) -> Result<Seq<bool>, Seq<char>>;

/// `ttf_parser::Face::from_slice(data, 0)`, then, of the parsed face's
/// tables, whether each of the first fifteen optional tables is there; the
/// parsing error's text otherwise.
#[verifier::external_body]
fn ttf_table_flags_head(data: &[u8]) -> (r: Result<Vec<bool>, String>)
    ensures
        match parsed_table_flags(data@) {
            Ok(flags) => r matches Ok(v) && flags.len() == OPTIONAL_TABLE_COUNT && v@ == flags.take(15),
            Err(m) => r matches Err(e) && e@ == m,
        },
{
    match ttf_parser::Face::from_slice(data, 0) {
        Err(e) => Err(e.to_string()),
        Ok(face) => {
            let t = face.tables();
            Ok(vec![
                t.cbdt.is_some(), t.cff.is_some(), t.cmap.is_some(), t.glyf.is_some(),
                t.hmtx.is_some(), t.kern.is_some(), t.name.is_some(), t.os2.is_some(),
                t.post.is_some(), t.sbix.is_some(), t.svg.is_some(), t.vhea.is_some(),
                t.vmtx.is_some(), t.vorg.is_some(), t.gdef.is_some(),
            ])
        },
    }
}

/// `ttf_parser::Face::from_slice(data, 0)`, then, of the parsed face's
/// tables, whether each of the other fourteen optional tables is there; the
/// parsing error's text otherwise.
#[verifier::external_body]
fn ttf_table_flags_tail(data: &[u8]) -> (r: Result<Vec<bool>, String>)
    ensures
        match parsed_table_flags(data@) {
            Ok(flags) => r matches Ok(v) && flags.len() == OPTIONAL_TABLE_COUNT && v@ == flags.skip(15),
            Err(m) => r matches Err(e) && e@ == m,
        },
{
    match ttf_parser::Face::from_slice(data, 0) {
        Err(e) => Err(e.to_string()),
        Ok(face) => {
            let t = face.tables();
            Ok(vec![
                t.gpos.is_some(), t.gsub.is_some(), t.ankr.is_some(), t.feat.is_some(),
                t.kerx.is_some(), t.morx.is_some(), t.trak.is_some(), t.avar.is_some(),
                t.cff2.is_some(), t.fvar.is_some(), t.gvar.is_some(), t.hvar.is_some(),
                t.mvar.is_some(), t.vvar.is_some(),
            ])
        },
    }
}

/// The presence of each optional table, read from its flag in table order.
pub open spec fn presence_of_flags(f: Seq<bool>) -> TablePresence {
    TablePresence {
        cbdt: f[0],
        cff: f[1],
        cmap: f[2],
        glyf: f[3],
        hmtx: f[4],
        kern: f[5],
        name: f[6],
        os2: f[7],
        post: f[8],
        sbix: f[9],
        svg: f[10],
        vhea: f[11],
        vmtx: f[12],
        vorg: f[13],
        gdef: f[14],
        gpos: f[15],
        gsub: f[16],
        ankr: f[17],
        feat: f[18],
        kerx: f[19],
        morx: f[20],
        trak: f[21],
        avar: f[22],
        cff2: f[23],
        fvar: f[24],
        gvar: f[25],
        hvar: f[26],
        mvar: f[27],
        vvar: f[28],
    }
}

/// Read back table by table, the presence made from flags gives the flags.
pub proof fn lemma_presence_of_flags(f: Seq<bool>, i: nat)
    requires
        f.len() == OPTIONAL_TABLE_COUNT,
        i < OPTIONAL_TABLE_COUNT,
    ensures
        optional_table_present(presence_of_flags(f), i) == f[i as int],
{
    let p = presence_of_flags(f);
    if i == 0 {
        assert(optional_table_present(p, 0) == f[0]);
    } else if i == 1 {
        assert(optional_table_present(p, 1) == f[1]);
    } else if i == 2 {
        assert(optional_table_present(p, 2) == f[2]);
    } else if i == 3 {
        assert(optional_table_present(p, 3) == f[3]);
    } else if i == 4 {
        assert(optional_table_present(p, 4) == f[4]);
    } else if i == 5 {
        assert(optional_table_present(p, 5) == f[5]);
    } else if i == 6 {
        assert(optional_table_present(p, 6) == f[6]);
    } else if i == 7 {
        assert(optional_table_present(p, 7) == f[7]);
    } else if i == 8 {
        assert(optional_table_present(p, 8) == f[8]);
    } else if i == 9 {
        assert(optional_table_present(p, 9) == f[9]);
    } else if i == 10 {
        assert(optional_table_present(p, 10) == f[10]);
    } else if i == 11 {
        assert(optional_table_present(p, 11) == f[11]);
    } else if i == 12 {
        assert(optional_table_present(p, 12) == f[12]);
    } else if i == 13 {
        assert(optional_table_present(p, 13) == f[13]);
    } else if i == 14 {
        assert(optional_table_present(p, 14) == f[14]);
    } else if i == 15 {
        assert(optional_table_present(p, 15) == f[15]);
    } else if i == 16 {
        assert(optional_table_present(p, 16) == f[16]);
    } else if i == 17 {
        assert(optional_table_present(p, 17) == f[17]);
    } else if i == 18 {
        assert(optional_table_present(p, 18) == f[18]);
    } else if i == 19 {
        assert(optional_table_present(p, 19) == f[19]);
    } else if i == 20 {
        assert(optional_table_present(p, 20) == f[20]);
    } else if i == 21 {
        assert(optional_table_present(p, 21) == f[21]);
    } else if i == 22 {
        assert(optional_table_present(p, 22) == f[22]);
    } else if i == 23 {
        assert(optional_table_present(p, 23) == f[23]);
    } else if i == 24 {
        assert(optional_table_present(p, 24) == f[24]);
    } else if i == 25 {
        assert(optional_table_present(p, 25) == f[25]);
    } else if i == 26 {
        assert(optional_table_present(p, 26) == f[26]);
    } else if i == 27 {
        assert(optional_table_present(p, 27) == f[27]);
    } else {
        assert(optional_table_present(p, 28) == f[28]);
    }
}

/// The presence of each optional table from its flag, the flags in table
/// order.
pub fn presence_from_flags(flags: &Vec<bool>) -> (p: TablePresence)
    requires
        flags@.len() == OPTIONAL_TABLE_COUNT,
    ensures
        p == presence_of_flags(flags@),
{
    TablePresence {
        cbdt: flags[0],
        cff: flags[1],
        cmap: flags[2],
        glyf: flags[3],
        hmtx: flags[4],
        kern: flags[5],
        name: flags[6],
        os2: flags[7],
        post: flags[8],
        sbix: flags[9],
        svg: flags[10],
        vhea: flags[11],
        vmtx: flags[12],
        vorg: flags[13],
        gdef: flags[14],
        gpos: flags[15],
        gsub: flags[16],
        ankr: flags[17],
        feat: flags[18],
        kerx: flags[19],
        morx: flags[20],
        trak: flags[21],
        avar: flags[22],
        cff2: flags[23],
        fvar: flags[24],
        gvar: flags[25],
        hvar: flags[26],
        mvar: flags[27],
        vvar: flags[28],
    }
}

/// Which optional tables the face in the font file `data` holds; an
/// `Invalid` error with ttf-parser's text when the bytes are no font.
pub fn parse_table_presence(data: &[u8]) -> (r: Result<TablePresence, Error>)
    ensures
        match parsed_table_flags(data@) {
            Ok(flags) => r == Ok::<TablePresence, Error>(presence_of_flags(flags)),
            Err(m) => r matches Err(Error::Invalid(_, msg)) && msg@ == m,
        },
{
    let head = match ttf_table_flags_head(data) {
        Ok(h) => h,
        Err(m) => {
            return Err(Error::Invalid(String::from_str("fonts::face"), m));
        },
    };
    let tail = match ttf_table_flags_tail(data) {
        Ok(t) => t,
        Err(m) => {
            return Err(Error::Invalid(String::from_str("fonts::face"), m));
        },
    };
    let mut flags = head;
    let mut i: usize = 0;
    while i < tail.len()
        invariant
            i <= tail@.len(),
            flags@ == head@ + tail@.take(i as int),
        decreases tail@.len() - i,
    {
        flags.push(tail[i]);
        proof {
            assert(tail@.take(i as int + 1) =~= tail@.take(i as int).push(tail@[i as int]));
        }
        i = i + 1;
    }
    proof {
        let all = parsed_table_flags(data@)->Ok_0;
        assert(tail@.take(tail@.len() as int) =~= tail@);
        assert(flags@ =~= all);
    }
    Ok(presence_from_flags(&flags))
}

/// Names of the tables of the face in the font file `data`: the three
/// mandatory ones, then each optional one it holds, in table order.
pub fn face_table_names(data: &[u8]) -> (r: Result<Vec<&'static str>, Error>)
    ensures
        match parsed_table_flags(data@) {
            Ok(flags) => r matches Ok(ts) && ts@ == table_names_spec(presence_of_flags(flags)),
            Err(m) => r matches Err(Error::Invalid(_, msg)) && msg@ == m,
        },
{
    match parse_table_presence(data) {
        Ok(p) => Ok(to_table_names(&p)),
        Err(e) => Err(e),
    }
}

/// What ttf-parser makes of the bytes `data` as a font (its first face): the
/// code points of each character-map subtable, subtable after subtable, or
/// `None` when the face has no character map; or the parsing error's text.
pub uninterp spec fn face_cmap_code_points(data: Seq<u8>) -> Result<Option<Seq<u32>>, Seq<char>>;

/// Appends one code point reported by a character-map subtable.
pub(crate) fn collect_code_point(v: &mut Vec<u32>, c: u32)
    ensures
        final(v)@ == old(v)@.push(c),
{
    v.push(c);
}

/// `ttf_parser::Face::from_slice(data, 0)`, then the code points that
/// `codepoints` reports for each subtable of the face's `cmap` table, in
/// subtable order; `None` without a `cmap` table; the parsing error's text
/// otherwise.
#[verifier::external_body]
fn ttf_cmap_code_points(data: &[u8]) -> (r: Result<Option<Vec<u32>>, String>)
    ensures
        match face_cmap_code_points(data@) {
            Ok(None) => r matches Ok(None),
            Ok(Some(cps)) => r matches Ok(Some(v)) && v@ == cps,
            Err(m) => r matches Err(e) && e@ == m,
        },
{
    let face = match ttf_parser::Face::from_slice(data, 0) {
        Ok(face) => face,
        Err(e) => return Err(e.to_string()),
    };
    let subtables = match face.tables().cmap {
        Some(table) => table.subtables,
        None => return Ok(None),
    };
    let mut code_points: Vec<u32> = Vec::new();
    for subtable in subtables {
        subtable.codepoints(|c| collect_code_point(&mut code_points, c));
    }
    Ok(Some(code_points))
}

/// The text of the error for a face without a character map.
pub open spec fn missing_cmap_text() -> Seq<char> {
    "missing cmap tables"@
}

/// The code points of the face in the font file `data`, as its character
/// maps list them; an `Invalid` error with ttf-parser's text when the bytes
/// are no font, or when the face has no character map.
pub fn face_code_points(data: &[u8]) -> (r: Result<Vec<u32>, Error>)
    ensures
        match face_cmap_code_points(data@) {
            Err(m) => r matches Err(Error::Invalid(_, msg)) && msg@ == m,
            Ok(None) => r matches Err(Error::Invalid(_, msg)) && msg@ == missing_cmap_text(),
            Ok(Some(cps)) => r matches Ok(v) && v@ == cps,
        },
{
    match ttf_cmap_code_points(data) {
        Err(m) => Err(Error::Invalid(String::from_str("fonts::face"), m)),
        Ok(None) => {
            proof {
                reveal_strlit("missing cmap tables");
            }
            Err(Error::Invalid(String::from_str("fonts::face"), String::from_str("missing cmap tables")))
        },
        Ok(Some(v)) => Ok(v),
    }
}

/// `c` is a code point of `cps` that is no character, and every smaller one
/// is.
pub open spec fn least_non_scalar(cps: Seq<u32>, c: u32) -> bool {
    &&& cps.contains(c)
    &&& !is_scalar_value(c)
    &&& forall|i: int| 0 <= i < cps.len() && cps[i] < c ==> is_scalar_value(#[trigger] cps[i])
}

/// The face's code points can be read, none repeats, and each is a
/// character.
pub open spec fn face_chars_ok(data: Seq<u8>) -> bool {
    face_cmap_code_points(data) matches Ok(Some(cps)) && all_distinct(cps.to_multiset()) && forall|i: int|
        0 <= i < cps.len() ==> is_scalar_value(#[trigger] cps[i])
}

/// The message of the error for the face's characters: ttf-parser's text,
/// the missing character map, the least repeated code point, or the least
/// code point that is no character.
pub open spec fn face_chars_error(data: Seq<u8>, msg: Seq<char>) -> bool {
    match face_cmap_code_points(data) {
        Err(m) => msg == m,
        Ok(None) => msg == missing_cmap_text(),
        Ok(Some(cps)) => if !all_distinct(cps.to_multiset()) {
            exists|c: u32|
                #[trigger] least_repeated(cps.to_multiset(), c) && msg == "repeating code_point "@ + decimal(
                    c as nat,
                )
        } else {
            exists|c: u32|
                #[trigger] least_non_scalar(cps, c) && msg == "no char for code_point "@ + decimal(c as nat)
        },
    }
}

/// `cs` are the face's characters: its code points, each once, in
/// increasing order.
pub open spec fn face_chars_of(data: Seq<u8>, cs: Seq<char>) -> bool {
    face_cmap_code_points(data) matches Ok(Some(cps)) && cs.len() == cps.len() && strictly_sorted(
        cs.map_values(|c: char| c as u32),
    ) && cs.map_values(|c: char| c as u32).to_multiset() == cps.to_multiset()
}

/// The characters of the face in the font file `data`, in increasing order,
/// as `FontFile::to_glyphs` reads them.
pub fn face_chars(data: &[u8]) -> (r: Result<Vec<char>, Error>)
    ensures
        r is Ok <==> face_chars_ok(data@),
        r matches Ok(cs) ==> face_chars_of(data@, cs@),
        r matches Err(e) ==> e matches Error::Invalid(_, msg) && face_chars_error(data@, msg@),
{
    let cps = match face_code_points(data) {
        Ok(v) => v,
        Err(e) => {
            return Err(e);
        },
    };
    let sorted = match check_code_points(&cps) {
        Ok(s) => s,
        Err(e) => {
            return Err(e);
        },
    };
    let ghost m = cps@.to_multiset();
    let mut cs: Vec<char> = Vec::new();
    let mut i: usize = 0;
    while i < sorted.len()
        invariant
            strictly_sorted(sorted@),
            sorted@.to_multiset() == m,
            m == cps@.to_multiset(),
            face_cmap_code_points(data@) == Ok::<Option<Seq<u32>>, Seq<char>>(Some(cps@)),
            all_distinct(cps@.to_multiset()),
            i <= sorted@.len(),
            cs@.len() == i,
            forall|j: int| 0 <= j < i ==> (#[trigger] cs@[j]) as u32 == sorted@[j],
            forall|j: int| 0 <= j < i ==> is_scalar_value(#[trigger] sorted@[j]),
        decreases sorted@.len() - i,
    {
        match glyph_char(sorted[i]) {
            Ok(c) => {
                cs.push(c);
            },
            Err(e) => {
                proof {
                    let c = sorted@[i as int];
                    assert(sorted@.contains(c)) by {
                        assert(sorted@[i as int] == c);
                    }
                    vstd::seq_lib::to_multiset_contains(sorted@, c);
                    vstd::seq_lib::to_multiset_contains(cps@, c);
                    assert(cps@.contains(c));
                    assert forall|k: int| 0 <= k < cps@.len() && cps@[k] < c implies is_scalar_value(
                        #[trigger] cps@[k],
                    ) by {
                        let d = cps@[k];
                        vstd::seq_lib::to_multiset_contains(cps@, d);
                        assert(sorted@.contains(d)) by {
                            vstd::seq_lib::to_multiset_contains(sorted@, d);
                        }
                        let j = sorted@.index_of(d);
                        if j >= i {
                            assert(sorted@[j] >= sorted@[i as int]);
                        }
                    }
                    assert(least_non_scalar(cps@, c));
                    let k = cps@.index_of(c);
                    assert(!is_scalar_value(cps@[k]));
                    assert(!face_chars_ok(data@));
                }
                return Err(e);
            },
        }
        i = i + 1;
    }
    proof {
        let s = cs@.map_values(|c: char| c as u32);
        assert(s =~= sorted@);
        assert forall|k: int| 0 <= k < cps@.len() implies is_scalar_value(#[trigger] cps@[k]) by {
            let d = cps@[k];
            vstd::seq_lib::to_multiset_contains(cps@, d);
            vstd::seq_lib::to_multiset_contains(sorted@, d);
            let j = sorted@.index_of(d);
        }
        vstd::seq_lib::to_multiset_len(sorted@);
        vstd::seq_lib::to_multiset_len(cps@);
    }
    Ok(cs)
}

/// `bs` are the unicode blocks of the characters `cs`, once each, ordered by
/// where they start.
pub open spec fn blocks_of_chars(cs: Seq<char>, bs: Seq<UnicodeBlock>) -> bool {
    &&& blocks_ordered(bs)
    &&& forall|i: int| 0 <= i < bs.len() ==> block_of_some(cs, #[trigger] bs[i])
    &&& forall|k: int| 0 <= k < cs.len() ==> has_block_start(bs, #[trigger] cs[k])
}

/// `bs` are the unicode blocks of the characters of the face in `data`.
pub open spec fn face_blocks_of(data: Seq<u8>, bs: Seq<UnicodeBlock>) -> bool {
    exists|cs: Seq<char>| #[trigger] face_chars_of(data, cs) && blocks_of_chars(cs, bs)
}

/// The unicode blocks of the characters of the face in the font file
/// `data`, once each, in block order; the error of reading the characters.
pub fn face_unicode_blocks(data: &[u8]) -> (r: Result<Vec<UnicodeBlock>, Error>)
    ensures
        r is Ok <==> face_chars_ok(data@),
        r matches Ok(bs) ==> face_blocks_of(data@, bs@),
        r matches Err(e) ==> e matches Error::Invalid(_, msg) && face_chars_error(data@, msg@),
{
    match face_chars(data) {
        Ok(cs) => {
            let bs = unicode_blocks_of(&cs);
            proof {
                assert(face_chars_of(data@, cs@));
            }
            Ok(bs)
        },
        Err(e) => Err(e),
    }
}

} // verus!
