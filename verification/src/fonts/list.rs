//! Listing font faces: selecting faces by flags and tables, counting the
//! faces that hold each table, and tabulating properties across faces.

use vstd::prelude::*;
use vstd::string::StringExecFns;

use crate::fonts::file::is_property_name;
use crate::fonts::file::property_text;
use crate::fonts::file::FaceProperties;
use crate::util::str_eq;

verus! {

/// Which faces to list: a set flag asks for faces that have the property,
/// and `table`, when given, for faces holding that table.
pub struct FaceFilter {
    pub regular: bool,
    pub italic: bool,
    pub bold: bool,
    pub oblique: bool,
    pub monospace: bool,
    pub variable: bool,
    pub table: Option<String>,
}

/// Whether `names` holds a name with the characters of `name`.
pub open spec fn holds_name(names: Seq<&'static str>, name: Seq<char>) -> bool {
    exists|i: int| 0 <= i < names.len() && #[trigger] names[i]@ == name
}

/// A face passes the filter when it has every asked-for property and holds
/// the asked-for table.
pub open spec fn filter_accepts(f: FaceFilter, p: FaceProperties) -> bool {
    &&& (!f.regular || p.regular)
    &&& (!f.italic || p.italic)
    &&& (!f.bold || p.bold)
    &&& (!f.oblique || p.oblique)
    &&& (!f.monospace || p.monospaced)
    &&& (!f.variable || p.variable)
    &&& match f.table {
        Some(t) => holds_name(p.tables@, t@),
        None => true,
    }
}

/// A filter that asks for nothing lets every face through.
pub proof fn lemma_empty_filter_accepts_all(f: FaceFilter, p: FaceProperties)
    requires
        !f.regular && !f.italic && !f.bold && !f.oblique && !f.monospace && !f.variable,
        f.table is None,
    ensures
        filter_accepts(f, p),
{
}

/// Each asked-for flag is a demand on the same property of the face: a face
/// that passes has every property the filter asks for and holds the
/// asked-for table; and a filter that asks for one property alone (and no
/// table) lets through exactly the faces that have that property.
pub proof fn lemma_filter_demands_each_property(f: FaceFilter, p: FaceProperties)
    ensures
        filter_accepts(f, p) ==> {
            &&& f.regular ==> p.regular
            &&& f.italic ==> p.italic
            &&& f.bold ==> p.bold
            &&& f.oblique ==> p.oblique
            &&& f.monospace ==> p.monospaced
            &&& f.variable ==> p.variable
            &&& f.table matches Some(t) ==> holds_name(p.tables@, t@)
        },
        f.table is None && f.regular && !f.italic && !f.bold && !f.oblique && !f.monospace && !f.variable
            ==> (filter_accepts(f, p) <==> p.regular),
        f.table is None && !f.regular && f.italic && !f.bold && !f.oblique && !f.monospace && !f.variable
            ==> (filter_accepts(f, p) <==> p.italic),
        f.table is None && !f.regular && !f.italic && f.bold && !f.oblique && !f.monospace && !f.variable
            ==> (filter_accepts(f, p) <==> p.bold),
        f.table is None && !f.regular && !f.italic && !f.bold && f.oblique && !f.monospace && !f.variable
            ==> (filter_accepts(f, p) <==> p.oblique),
        f.table is None && !f.regular && !f.italic && !f.bold && !f.oblique && f.monospace && !f.variable
            ==> (filter_accepts(f, p) <==> p.monospaced),
        f.table is None && !f.regular && !f.italic && !f.bold && !f.oblique && !f.monospace && f.variable
            ==> (filter_accepts(f, p) <==> p.variable),
        !f.regular && !f.italic && !f.bold && !f.oblique && !f.monospace && !f.variable
            ==> (f.table matches Some(t) ==> (filter_accepts(f, p) <==> holds_name(p.tables@, t@))),
{
}

/// A ranking lists no position twice.
pub proof fn lemma_ranking_distinct(counts: Seq<u64>, order: Seq<usize>)
    requires
        is_count_ranking(counts, order),
    ensures
        order.no_duplicates(),
{
    assert forall|p: int, q: int| 0 <= p < order.len() && 0 <= q < order.len() && p != q implies order[p]
        != order[q] by {
        if p < q {
            assert(ranked_before(counts, order[p] as int, order[q] as int));
        } else {
            assert(ranked_before(counts, order[q] as int, order[p] as int));
        }
    }
}

/// A ranking lists every position of `counts`.
pub proof fn lemma_ranking_covers(counts: Seq<u64>, order: Seq<usize>)
    requires
        is_count_ranking(counts, order),
    ensures
        forall|i: int| 0 <= i < counts.len() ==> #[trigger] order.contains(i as usize),
{
    broadcast use vstd::set::group_set_axioms, vstd::seq_lib::group_seq_properties;

    lemma_ranking_distinct(counts, order);
    let ints = order.map_values(|u: usize| u as int);
    assert(ints.no_duplicates()) by {
        assert forall|p: int, q: int| 0 <= p < ints.len() && 0 <= q < ints.len() && p != q implies ints[p]
            != ints[q] by {
            assert(order[p] != order[q]);
        }
    }
    ints.unique_seq_to_set();
    let n = counts.len() as int;
    vstd::set_lib::lemma_int_range(0, n);
    let r = vstd::set_lib::set_int_range(0, n);
    assert(ints.to_set().subset_of(r)) by {
        assert forall|x: int| ints.to_set().contains(x) implies r.contains(x) by {
            assert(ints.contains(x));
            let p = choose|p: int| 0 <= p < ints.len() && ints[p] == x;
            assert(order[p] < counts.len());
        }
    }
    ints.lemma_cardinality_of_set();
    vstd::set_lib::lemma_subset_equality(ints.to_set(), r);
    assert forall|i: int| 0 <= i < counts.len() implies #[trigger] order.contains(i as usize) by {
        assert(r.contains(i));
        assert(ints.to_set().contains(i));
        assert(ints.contains(i));
        let p = choose|p: int| 0 <= p < ints.len() && ints[p] == i;
        assert(order[p] == i as usize);
    }
}

/// The ranking of a list of counts is unique: the order in which tables are
/// listed is determined by the counts alone.
pub proof fn lemma_ranking_unique(counts: Seq<u64>, a: Seq<usize>, b: Seq<usize>)
    requires
        is_count_ranking(counts, a),
        is_count_ranking(counts, b),
    ensures
        a == b,
{
    broadcast use vstd::multiset::group_multiset_axioms, vstd::seq_lib::group_seq_properties;

    lemma_ranking_distinct(counts, a);
    lemma_ranking_distinct(counts, b);
    lemma_ranking_covers(counts, a);
    lemma_ranking_covers(counts, b);
    a.lemma_multiset_has_no_duplicates();
    b.lemma_multiset_has_no_duplicates();
    assert(a.to_multiset() =~= b.to_multiset()) by {
        assert forall|x: usize| a.to_multiset().count(x) == b.to_multiset().count(x) by {
            if (x as int) < counts.len() {
                let i = x as int;
                assert(a.contains(i as usize));
                assert(b.contains(i as usize));
            } else {
                assert(!a.contains(x));
                assert(!b.contains(x));
            }
        }
    }
    let leq = |x: usize, y: usize| x == y || ranked_before(counts, x as int, y as int);
    assert(vstd::relations::sorted_by(a, leq));
    assert(vstd::relations::sorted_by(b, leq));
    assert(vstd::relations::total_ordering(leq));
    vstd::seq_lib::lemma_sorted_unique(a, b, leq);
}

/// Whether the list of table names holds `name`.
pub fn contains_name(names: &Vec<&'static str>, name: &str) -> (r: bool)
    ensures
        r == holds_name(names@, name@),
{
    let n = names.len();
    let mut i: usize = 0;
    while i < n
        invariant
            n == names@.len(),
            i <= n,
            forall|j: int| 0 <= j < i ==> names@[j]@ != name@,
        decreases n - i,
    {
        if str_eq(names[i], name) {
            return true;
        }
        i = i + 1;
    }
    false
}

impl FaceFilter {
    /// Whether the face passes the filter.
    pub fn accepts(&self, p: &FaceProperties) -> (r: bool)
        ensures
            r == filter_accepts(*self, *p),
    {
        let flags = (!self.regular || p.regular) && (!self.italic || p.italic) && (!self.bold
            || p.bold) && (!self.oblique || p.oblique) && (!self.monospace || p.monospaced) && (
        !self.variable || p.variable);
        if !flags {
            return false;
        }
        match &self.table {
            Some(t) => contains_name(&p.tables, t.as_str()),
            None => true,
        }
    }
}

/// Positions, in order, of the faces that pass the filter.
pub fn select_faces(faces: &Vec<FaceProperties>, filter: &FaceFilter) -> (r: Vec<usize>)
    ensures
        forall|k: int| 0 <= k < r@.len() ==> #[trigger] r@[k] < faces@.len() && filter_accepts(
            *filter,
            faces@[r@[k] as int],
        ),
        forall|k: int, l: int| 0 <= k < l < r@.len() ==> r@[k] < r@[l],
        forall|i: int|
            0 <= i < faces@.len() && filter_accepts(*filter, #[trigger] faces@[i]) ==> r@.contains(
                i as usize,
            ),
{
    let mut r: Vec<usize> = Vec::new();
    let n = faces.len();
    let mut i: usize = 0;
    while i < n
        invariant
            n == faces@.len(),
            i <= n,
            forall|k: int| 0 <= k < r@.len() ==> #[trigger] r@[k] < i && filter_accepts(
                *filter,
                faces@[r@[k] as int],
            ),
            forall|k: int, l: int| 0 <= k < l < r@.len() ==> r@[k] < r@[l],
            forall|j: int|
                0 <= j < i && filter_accepts(*filter, #[trigger] faces@[j]) ==> r@.contains(j as usize),
        decreases n - i,
    {
        let ghost old_r = r@;
        if filter.accepts(&faces[i]) {
            r.push(i);
            assert(r@[r@.len() - 1] == i);
        }
        proof {
            assert forall|j: int|
                0 <= j < i + 1 && filter_accepts(*filter, #[trigger] faces@[j]) implies r@.contains(
                j as usize,
            ) by {
                if j < i {
                    assert(old_r.contains(j as usize));
                    let k = choose|k: int| 0 <= k < old_r.len() && old_r[k] == j as usize;
                    assert(r@[k] == old_r[k]);
                } else {
                    assert(r@[r@.len() - 1] == i);
                }
            }
        }
        i = i + 1;
    }
    r
}

/// Names of all the tables a font face can hold, in byte order.
pub fn table_names() -> (r: Vec<&'static str>)
    ensures
        r@.len() == 32,
{
    let mut r: Vec<&'static str> = Vec::new();
    r.push("ankr");
    r.push("avar");
    r.push("cbdt");
    r.push("cff");
    r.push("cff2");
    r.push("cmap");
    r.push("feat");
    r.push("fvar");
    r.push("gdef");
    r.push("glyf");
    r.push("gpos");
    r.push("gsub");
    r.push("gvar");
    r.push("head");
    r.push("hhea");
    r.push("hmtx");
    r.push("hvar");
    r.push("kern");
    r.push("kerx");
    r.push("maxp");
    r.push("morx");
    r.push("mvar");
    r.push("name");
    r.push("os2");
    r.push("post");
    r.push("sbix");
    r.push("svg");
    r.push("trak");
    r.push("vhea");
    r.push("vmtx");
    r.push("vorg");
    r.push("vvar");
    r
}

/// Number of faces among the first `k` that hold the table `name`.
pub open spec fn faces_holding(faces: Seq<FaceProperties>, name: Seq<char>, k: nat) -> nat
    decreases k,
{
    if k == 0 {
        0
    } else {
        faces_holding(faces, name, (k - 1) as nat) + if holds_name(faces[k - 1].tables@, name) {
            1nat
        } else {
            0nat
        }
    }
}

/// For each table name, the number of faces that hold it.
pub open spec fn table_counts(names: Seq<&'static str>, faces: Seq<FaceProperties>) -> Seq<u64> {
    Seq::new(names.len(), |i: int| faces_holding(faces, names[i]@, faces.len()) as u64)
}

/// Order used to list tables: more faces first, then earlier position.
pub open spec fn ranked_before(counts: Seq<u64>, a: int, b: int) -> bool {
    counts[a] > counts[b] || (counts[a] == counts[b] && a < b)
}

/// `order` lists every position of `counts` once, by decreasing count,
/// positions with equal counts in increasing order.
pub open spec fn is_count_ranking(counts: Seq<u64>, order: Seq<usize>) -> bool {
    &&& order.len() == counts.len()
    &&& forall|p: int| 0 <= p < order.len() ==> #[trigger] order[p] < counts.len()
    &&& forall|p: int, q: int|
        0 <= p < q < order.len() ==> ranked_before(counts, order[p] as int, order[q] as int)
}

/// The positions of `counts`, ordered by decreasing count; positions with
/// equal counts keep their order.
pub fn rank_by_count(counts: &Vec<u64>) -> (r: Vec<usize>)
    ensures
        is_count_ranking(counts@, r@),
{
    let n = counts.len();
    let mut r: Vec<usize> = Vec::new();
    let mut k: usize = 0;
    while k < n
        invariant
            n == counts@.len(),
            k <= n,
            r@.len() == k,
            forall|p: int| 0 <= p < r@.len() ==> #[trigger] r@[p] < k,
            forall|p: int, q: int| 0 <= p < q < r@.len() ==> ranked_before(counts@, r@[p] as int, r@[q] as int),
        decreases n - k,
    {
        let c = counts[k];
        let mut pos: usize = 0;
        while pos < r.len() && counts[r[pos]] >= c
            invariant
                n == counts@.len(),
                k < n,
                r@.len() == k,
                pos <= r@.len(),
                forall|p: int| 0 <= p < r@.len() ==> #[trigger] r@[p] < k,
                forall|p: int| 0 <= p < pos ==> counts@[#[trigger] r@[p] as int] >= c,
            decreases r@.len() - pos,
        {
            pos = pos + 1;
        }
        let ghost old_r = r@;
        r.insert(pos, k);
        proof {
            assert forall|p: int, q: int| 0 <= p < q < r@.len() implies ranked_before(
                counts@,
                r@[p] as int,
                r@[q] as int,
            ) by {
                if q < pos {
                    assert(r@[p] == old_r[p] && r@[q] == old_r[q]);
                } else if q == pos {
                    assert(r@[p] == old_r[p]);
                } else if p == pos {
                    assert(r@[q] == old_r[q - 1]);
                    assert(counts@[old_r[pos as int] as int] < c || pos == old_r.len());
                    assert(ranked_before(counts@, old_r[pos as int] as int, old_r[q - 1] as int) || q - 1 == pos);
                } else if p < pos {
                    assert(r@[p] == old_r[p] && r@[q] == old_r[q - 1]);
                } else {
                    assert(r@[p] == old_r[p - 1] && r@[q] == old_r[q - 1]);
                }
            }
            assert forall|p: int| 0 <= p < r@.len() implies #[trigger] r@[p] < k + 1 by {
                if p < pos {
                    assert(r@[p] == old_r[p]);
                } else if p > pos {
                    assert(r@[p] == old_r[p - 1]);
                }
            }
        }
        k = k + 1;
    }
    r
}

/// Each table name with the number of faces that hold it, most common
/// first; names held by equally many faces keep the order of `names`.
pub fn rank_tables(names: &Vec<&'static str>, faces: &Vec<FaceProperties>) -> (r: Vec<(&'static str, u64)>)
    requires
        faces@.len() <= u64::MAX,
    ensures
        exists|order: Seq<usize>|
            #[trigger] is_count_ranking(table_counts(names@, faces@), order) && r@.len() == order.len()
                && forall|p: int|
                0 <= p < r@.len() ==> #[trigger] r@[p] == (
                    names@[order[p] as int],
                    table_counts(names@, faces@)[order[p] as int],
                ),
{
    let n = names.len();
    let m = faces.len();
    let mut counts: Vec<u64> = Vec::new();
    let mut i: usize = 0;
    while i < n
        invariant
            n == names@.len(),
            m == faces@.len(),
            m <= u64::MAX,
            i <= n,
            counts@.len() == i,
            forall|j: int| 0 <= j < i ==> #[trigger] counts@[j] == faces_holding(faces@, names@[j]@, m as nat),
        decreases n - i,
    {
        let mut c: u64 = 0;
        let mut f: usize = 0;
        while f < m
            invariant
                n == names@.len(),
                m == faces@.len(),
                m <= u64::MAX,
                i < n,
                f <= m,
                c == faces_holding(faces@, names@[i as int]@, f as nat),
                c <= f,
            decreases m - f,
        {
            if contains_name(&faces[f].tables, names[i]) {
                c = c + 1;
            }
            f = f + 1;
        }
        counts.push(c);
        i = i + 1;
    }
    let order = rank_by_count(&counts);
    let mut r: Vec<(&'static str, u64)> = Vec::new();
    let mut p: usize = 0;
    while p < n
        invariant
            n == names@.len(),
            m == faces@.len(),
            counts@.len() == n,
            forall|j: int| 0 <= j < n ==> #[trigger] counts@[j] == faces_holding(faces@, names@[j]@, m as nat),
            order@.len() == n,
            forall|q: int| 0 <= q < order@.len() ==> #[trigger] order@[q] < n,
            forall|a: int, b: int| 0 <= a < b < order@.len() ==> ranked_before(counts@, order@[a] as int, order@[b] as int),
            p <= n,
            r@.len() == p,
            forall|q: int| 0 <= q < p ==> #[trigger] r@[q] == (names@[order@[q] as int], counts@[order@[q] as int]),
        decreases n - p,
    {
        let k = order[p];
        r.push((names[k], counts[k]));
        p = p + 1;
    }
    proof {
        assert(counts@ =~= table_counts(names@, faces@));
        assert(is_count_ranking(table_counts(names@, faces@), order@));
    }
    r
}

/// One property of every listed face: the property's name and, for each
/// face, its text (`"???"` where it cannot be computed).
pub struct ParamFaces {
    pub param: String,
    pub faces_value: Vec<String>,
}

/// Number of properties tabulated across faces.
pub const PARAM_COUNT: usize = 33;

/// The `i`-th tabulated property.
pub open spec fn param_name(i: nat) -> &'static str {
    if i == 0 {
        "name"
    } else if i == 1 {
        "tables"
    } else if i == 2 {
        "glyph_count"
    } else if i == 3 {
        "global_bounding_box"
    } else if i == 4 {
        "regular"
    } else if i == 5 {
        "italic"
    } else if i == 6 {
        "bold"
    } else if i == 7 {
        "oblique"
    } else if i == 8 {
        "monospaced"
    } else if i == 9 {
        "variable"
    } else if i == 10 {
        "units_per_em"
    } else if i == 11 {
        "x_height"
    } else if i == 12 {
        "capital_height"
    } else if i == 13 {
        "underline_metrics"
    } else if i == 14 {
        "strikeout_metrics"
    } else if i == 15 {
        "subscript_metrics"
    } else if i == 16 {
        "superscript_metrics"
    } else if i == 17 {
        "italic_angle"
    } else if i == 18 {
        "weight"
    } else if i == 19 {
        "width"
    } else if i == 20 {
        "style"
    } else if i == 21 {
        "ascender"
    } else if i == 22 {
        "descender"
    } else if i == 23 {
        "height"
    } else if i == 24 {
        "line_gap"
    } else if i == 25 {
        "vertical_ascender"
    } else if i == 26 {
        "vertical_descender"
    } else if i == 27 {
        "vertical_height"
    } else if i == 28 {
        "vertical_line_gap"
    } else if i == 29 {
        "typographic_ascender"
    } else if i == 30 {
        "typographic_descender"
    } else if i == 31 {
        "typographic_line_gap"
    } else {
        "unicode_blocks"
    }
}

fn param_name_at(i: usize) -> (r: &'static str)
    requires
        i < PARAM_COUNT,
    ensures
        r == param_name(i as nat),
        is_property_name(r@),
{
    if i == 0 {
        "name"
    } else if i == 1 {
        "tables"
    } else if i == 2 {
        "glyph_count"
    } else if i == 3 {
        "global_bounding_box"
    } else if i == 4 {
        "regular"
    } else if i == 5 {
        "italic"
    } else if i == 6 {
        "bold"
    } else if i == 7 {
        "oblique"
    } else if i == 8 {
        "monospaced"
    } else if i == 9 {
        "variable"
    } else if i == 10 {
        "units_per_em"
    } else if i == 11 {
        "x_height"
    } else if i == 12 {
        "capital_height"
    } else if i == 13 {
        "underline_metrics"
    } else if i == 14 {
        "strikeout_metrics"
    } else if i == 15 {
        "subscript_metrics"
    } else if i == 16 {
        "superscript_metrics"
    } else if i == 17 {
        "italic_angle"
    } else if i == 18 {
        "weight"
    } else if i == 19 {
        "width"
    } else if i == 20 {
        "style"
    } else if i == 21 {
        "ascender"
    } else if i == 22 {
        "descender"
    } else if i == 23 {
        "height"
    } else if i == 24 {
        "line_gap"
    } else if i == 25 {
        "vertical_ascender"
    } else if i == 26 {
        "vertical_descender"
    } else if i == 27 {
        "vertical_height"
    } else if i == 28 {
        "vertical_line_gap"
    } else if i == 29 {
        "typographic_ascender"
    } else if i == 30 {
        "typographic_descender"
    } else if i == 31 {
        "typographic_line_gap"
    } else {
        "unicode_blocks"
    }
}

/// The text shown for property `p` of a face.
pub open spec fn shown_property(fp: FaceProperties, p: Seq<char>) -> Seq<char> {
    match property_text(fp, p) {
        Some(t) => t,
        None => "???"@,
    }
}

/// Every tabulated property with its text for each face, properties in a
/// fixed order.
pub fn list_param_faces(faces_props: &Vec<FaceProperties>) -> (r: Vec<ParamFaces>)
    ensures
        r@.len() == PARAM_COUNT,
        forall|i: int|
            0 <= i < PARAM_COUNT ==> {
                &&& (#[trigger] r@[i]).param@ == param_name(i as nat)@
                &&& r@[i].faces_value@.len() == faces_props@.len()
                &&& forall|j: int|
                    0 <= j < faces_props@.len() ==> (#[trigger] r@[i].faces_value@[j])@ == shown_property(
                        faces_props@[j],
                        param_name(i as nat)@,
                    )
            },
{
    let mut r: Vec<ParamFaces> = Vec::new();
    let m = faces_props.len();
    let mut i: usize = 0;
    while i < PARAM_COUNT
        invariant
            m == faces_props@.len(),
            i <= PARAM_COUNT,
            r@.len() == i,
            forall|k: int|
                0 <= k < i ==> {
                    &&& (#[trigger] r@[k]).param@ == param_name(k as nat)@
                    &&& r@[k].faces_value@.len() == m
                    &&& forall|j: int|
                        0 <= j < m ==> (#[trigger] r@[k].faces_value@[j])@ == shown_property(
                            faces_props@[j],
                            param_name(k as nat)@,
                        )
                },
        decreases PARAM_COUNT - i,
    {
        let name = param_name_at(i);
        let mut values: Vec<String> = Vec::new();
        let mut j: usize = 0;
        while j < m
            invariant
                m == faces_props@.len(),
                is_property_name(name@),
                values@.len() == j,
                j <= m,
                forall|l: int| 0 <= l < j ==> (#[trigger] values@[l])@ == shown_property(faces_props@[l], name@),
            decreases m - j,
        {
            let v = match faces_props[j].print_property(name) {
                Ok(s) => s,
                Err(_) => String::from_str("???"),
            };
            values.push(v);
            j = j + 1;
        }
        r.push(ParamFaces { param: String::from_str(name), faces_value: values });
        i = i + 1;
    }
    r
}

/// Whether `c` is an ASCII hexadecimal digit.
pub open spec fn is_hex_digit(c: char) -> bool {
    ('0' <= c && c <= '9') || ('a' <= c && c <= 'f') || ('A' <= c && c <= 'F')
}

/// Whether every character of `s` is an ASCII hexadecimal digit.
pub open spec fn all_hex_digits(s: Seq<char>) -> bool {
    forall|i: int| 0 <= i < s.len() ==> is_hex_digit(#[trigger] s[i])
}

/// Whether a font file's stem, when it has one, is made of ASCII hex digits
/// alone: the names under which fonts are cached, which a listing skips.
pub fn is_ascii_hexdigit_name(stem: Option<&str>) -> (r: bool)
    ensures
        r == (stem matches Some(s) && all_hex_digits(s@)),
{
    match stem {
        None => false,
        Some(s) => {
            for c in it: s.chars()
                invariant
                    stem == Some(s),
                    it.seq() == s@,
                    forall|i: int| 0 <= i < it.index() ==> is_hex_digit(#[trigger] it.seq()[i]),
            {
                if !(('0' <= c && c <= '9') || ('a' <= c && c <= 'f') || ('A' <= c && c <= 'F')) {
                    assert(!is_hex_digit(s@[it.index() as int]));
                    return false;
                }
            }
            true
        },
    }
}

} // verus!
