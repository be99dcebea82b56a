//! Glyph bookkeeping: the code points a font maps, the characters they
//! stand for, and the unicode blocks those characters fall in.

use vstd::prelude::*;
use vstd::multiset::Multiset;
use vstd::string::StringExecFns;

use crate::util::decimal;
use crate::util::push_decimal;
use crate::Error;

verus! {

broadcast use vstd::seq_lib::group_seq_properties, vstd::multiset::group_multiset_axioms;

/// Non-decreasing order.
pub open spec fn sorted(s: Seq<u32>) -> bool {
    forall|i: int, j: int| 0 <= i < j < s.len() ==> s[i] <= s[j]
}

/// Strictly increasing order.
pub open spec fn strictly_sorted(s: Seq<u32>) -> bool {
    forall|i: int, j: int| 0 <= i < j < s.len() ==> s[i] < s[j]
}

/// The code points, in increasing order (a permutation of the input).
pub fn sort_code_points(v: &Vec<u32>) -> (r: Vec<u32>)
    ensures
        sorted(r@),
        r@.to_multiset() == v@.to_multiset(),
{
    let n = v.len();
    let mut r: Vec<u32> = Vec::new();
    let mut k: usize = 0;
    while k < n
        invariant
            n == v@.len(),
            k <= n,
            sorted(r@),
            r@.to_multiset() == v@.take(k as int).to_multiset(),
        decreases n - k,
    {
        let x = v[k];
        let mut pos: usize = 0;
        while pos < r.len() && r[pos] <= x
            invariant
                pos <= r@.len(),
                sorted(r@),
                forall|p: int| 0 <= p < pos ==> r@[p] <= x,
            decreases r@.len() - pos,
        {
            pos = pos + 1;
        }
        let ghost old_r = r@;
        r.insert(pos, x);
        proof {
            assert(v@.take(k + 1) =~= v@.take(k as int).push(x));
            vstd::seq_lib::to_multiset_insert(old_r, pos as int, x);
            assert forall|i: int, j: int| 0 <= i < j < r@.len() implies r@[i] <= r@[j] by {
                if j < pos {
                } else if j == pos {
                } else if i == pos {
                    assert(r@[j] == old_r[j - 1]);
                    assert(old_r[pos as int] > x);
                } else if i < pos {
                } else {
                }
            }
        }
        k = k + 1;
    }
    proof {
        assert(v@.take(n as int) =~= v@);
    }
    r
}

/// Sorting depends only on which code points there are, counted with their
/// repetitions: two increasing sequences holding the same code points are
/// equal. So `sort_code_points` gives the same result for any reordering of
/// its input, and `check_code_points` accepts exactly one order.
pub proof fn lemma_sorted_code_points_unique(x: Seq<u32>, y: Seq<u32>)
    requires
        sorted(x),
        sorted(y),
        x.to_multiset() == y.to_multiset(),
    ensures
        x == y,
{
    let leq = |a: u32, b: u32| a <= b;
    assert(vstd::relations::sorted_by(x, leq));
    assert(vstd::relations::sorted_by(y, leq));
    assert(vstd::relations::total_ordering(leq));
    vstd::seq_lib::lemma_sorted_unique(x, y, leq);
}

/// No value occurs twice.
pub open spec fn all_distinct(m: Multiset<u32>) -> bool {
    forall|x: u32| #[trigger] m.count(x) <= 1
}

/// `c` occurs at least twice, and no smaller value does.
pub open spec fn least_repeated(m: Multiset<u32>, c: u32) -> bool {
    &&& m.count(c) >= 2
    &&& forall|x: u32| x < c ==> #[trigger] m.count(x) <= 1
}

/// A strictly increasing sequence holds each value at most once.
proof fn lemma_strict_counts(s: Seq<u32>)
    requires
        strictly_sorted(s),
    ensures
        forall|x: u32| #[trigger] s.to_multiset().count(x) <= 1,
{
    assert(s.no_duplicates());
    s.lemma_multiset_has_no_duplicates();
    assert forall|x: u32| #[trigger] s.to_multiset().count(x) <= 1 by {
        if !s.to_multiset().contains(x) {
        }
    }
}

/// In a sorted sequence whose first `i + 1` values strictly increase, every
/// value below `s[i]` occurs at most once.
proof fn lemma_below_counts(s: Seq<u32>, i: int)
    requires
        sorted(s),
        0 <= i < s.len(),
        forall|j: int| 0 <= j < i ==> #[trigger] s[j] < s[j + 1],
    ensures
        forall|x: u32| x < s[i] ==> #[trigger] s.to_multiset().count(x) <= 1,
{
    let a = s.take(i);
    let b = s.skip(i);
    assert(s =~= a + b);
    assert forall|p: int, q: int| 0 <= p < q < a.len() implies a[p] < a[q] by {
        lemma_strict_prefix(s, i, p, q);
    }
    lemma_strict_counts(a);
    vstd::seq_lib::lemma_multiset_commutative(a, b);
    assert forall|x: u32| x < s[i] implies #[trigger] s.to_multiset().count(x) <= 1 by {
        assert(!b.contains(x)) by {
            if b.contains(x) {
                let j = choose|j: int| 0 <= j < b.len() && b[j] == x;
                assert(s[i + j] == x);
            }
        }
        vstd::seq_lib::to_multiset_contains(b, x);
        assert(a.to_multiset().count(x) <= 1);
    }
}

proof fn lemma_strict_prefix(s: Seq<u32>, i: int, p: int, q: int)
    requires
        0 <= p < q <= i < s.len(),
        forall|j: int| 0 <= j < i ==> #[trigger] s[j] < s[j + 1],
    ensures
        s[p] < s[q],
    decreases q - p,
{
    if q > p + 1 {
        lemma_strict_prefix(s, i, p, q - 1);
    }
}

/// A value at two neighbouring positions occurs at least twice.
proof fn lemma_pair_count(s: Seq<u32>, i: int)
    requires
        0 <= i,
        i + 1 < s.len(),
        s[i] == s[i + 1],
    ensures
        s.to_multiset().count(s[i]) >= 2,
{
    let a = s.take(i);
    let m = seq![s[i], s[i]];
    let b = s.skip(i + 2);
    assert(s =~= a + m + b);
    vstd::seq_lib::lemma_multiset_commutative(a + m, b);
    vstd::seq_lib::lemma_multiset_commutative(a, m);
    assert(m =~= seq![s[i]].push(s[i]));
    vstd::seq_lib::to_multiset_build(seq![s[i]], s[i]);
    assert(seq![s[i]] =~= Seq::<u32>::empty().push(s[i]));
    vstd::seq_lib::to_multiset_build(Seq::<u32>::empty(), s[i]);
}

/// The code points in increasing order, or the error naming the least code
/// point that occurs more than once, as `FontFile::to_glyphs` checks them.
pub fn check_code_points(code_points: &Vec<u32>) -> (r: Result<Vec<u32>, Error>)
    ensures
        r is Ok <==> all_distinct(code_points@.to_multiset()),
        r matches Ok(v) ==> strictly_sorted(v@) && v@.to_multiset() == code_points@.to_multiset(),
        r matches Err(e) ==> exists|c: u32|
            #[trigger] least_repeated(code_points@.to_multiset(), c) && (e matches Error::Invalid(_, msg)
                && msg@ == "repeating code_point "@ + decimal(c as nat)),
{
    let s = sort_code_points(code_points);
    let n = s.len();
    if n == 0 {
        proof {
            lemma_strict_counts(s@);
        }
        return Ok(s);
    }
    let mut i: usize = 0;
    while i < n - 1
        invariant
            n == s@.len(),
            n > 0,
            sorted(s@),
            s@.to_multiset() == code_points@.to_multiset(),
            i <= n - 1,
            forall|j: int| 0 <= j < i ==> #[trigger] s@[j] < s@[j + 1],
        decreases n - i,
    {
        if s[i] == s[i + 1] {
            let c = s[i];
            let mut msg = String::from_str("repeating code_point ");
            push_decimal(&mut msg, c as u64);
            proof {
                reveal_strlit("repeating code_point ");
                lemma_pair_count(s@, i as int);
                lemma_below_counts(s@, i as int);
                assert(least_repeated(code_points@.to_multiset(), c));
            }
            return Err(Error::Invalid(String::from_str("fonts::file"), msg));
        }
        i = i + 1;
    }
    proof {
        assert forall|p: int, q: int| 0 <= p < q < s@.len() implies s@[p] < s@[q] by {
            lemma_strict_prefix(s@, (n - 1) as int, p, q);
        }
        lemma_strict_counts(s@);
    }
    Ok(s)
}

/// Whether `i` is a unicode scalar value: at most `0x10FFFF` and outside the
/// surrogate range `0xD800..=0xDFFF`.
pub open spec fn is_scalar_value(i: u32) -> bool {
    i <= 0x10FFFF && !(0xD800 <= i <= 0xDFFF)
}

/// `char::from_u32`: the character with code `i`, when `i` is a unicode
/// scalar value (as std documents it).
#[verifier::external_body]
fn char_from_u32(i: u32) -> (r: Option<char>)
    ensures
        r is Some <==> is_scalar_value(i),
        r matches Some(c) ==> c as u32 == i,
{
    char::from_u32(i)
}

/// The character of a code point, as `Glyph::new` checks it.
pub fn glyph_char(code_point: u32) -> (r: Result<char, Error>)
    ensures
        r is Ok <==> is_scalar_value(code_point),
        r matches Ok(c) ==> c as u32 == code_point,
        r matches Err(e) ==> (e matches Error::Invalid(_, msg) && msg@ == "no char for code_point "@
            + decimal(code_point as nat)),
{
    match char_from_u32(code_point) {
        Some(c) => Ok(c),
        None => {
            let mut msg = String::from_str("no char for code_point ");
            push_decimal(&mut msg, code_point as u64);
            proof {
                reveal_strlit("no char for code_point ");
            }
            Err(Error::Invalid(String::from_str("fonts::glyph"), msg))
        },
    }
}

/// A named range of unicode code points.
pub struct UnicodeBlock {
    pub name: String,
    pub start: u32,
    pub end: u32,
}

/// The unicode block that holds `c`, as `(start, end, name)`.
pub uninterp spec fn unicode_block_spec(c: char) -> Option<(u32, u32, Seq<char>)>;

/// `unicode_blocks::find_unicode_block`: the block holding `c`, if `c` lies
/// in an assigned block. The block's range holds `c`.
#[verifier::external_body]
fn find_unicode_block(c: char) -> (r: Option<UnicodeBlock>)
    ensures
        r is None <==> unicode_block_spec(c) is None,
        r matches Some(b) ==> unicode_block_spec(c) == Some((b.start, b.end, b.name@)) && b.start
            <= c as u32 <= b.end,
{
    unicode_blocks::find_unicode_block(c).map(
        |b| UnicodeBlock { name: b.name().to_string(), start: b.start(), end: b.end() },
    )
}

/// Block starts strictly increase.
pub open spec fn blocks_ordered(bs: Seq<UnicodeBlock>) -> bool {
    forall|i: int, j: int| 0 <= i < j < bs.len() ==> bs[i].start < bs[j].start
}

/// `b` is the block of one of the characters.
pub open spec fn block_of_some(chars: Seq<char>, b: UnicodeBlock) -> bool {
    exists|k: int|
        0 <= k < chars.len() && #[trigger] unicode_block_spec(chars[k]) == Some(
            (b.start, b.end, b.name@),
        )
}

/// Some block of `bs` starts where the block of `c` starts.
pub open spec fn has_block_start(bs: Seq<UnicodeBlock>, c: char) -> bool {
    match unicode_block_spec(c) {
        Some(b) => exists|i: int| 0 <= i < bs.len() && #[trigger] bs[i].start == b.0,
        None => true,
    }
}

/// The unicode blocks of the characters, once each, ordered by where they
/// start, as `FontFile::to_unicode_blocks` collects them.
pub fn unicode_blocks_of(chars: &Vec<char>) -> (r: Vec<UnicodeBlock>)
    ensures
        blocks_ordered(r@),
        forall|i: int| 0 <= i < r@.len() ==> block_of_some(chars@, #[trigger] r@[i]),
        forall|k: int| 0 <= k < chars@.len() ==> has_block_start(r@, #[trigger] chars@[k]),
{
    let n = chars.len();
    let mut r: Vec<UnicodeBlock> = Vec::new();
    let mut k: usize = 0;
    while k < n
        invariant
            n == chars@.len(),
            k <= n,
            blocks_ordered(r@),
            forall|i: int| 0 <= i < r@.len() ==> block_of_some(chars@, #[trigger] r@[i]),
            forall|j: int| 0 <= j < k ==> has_block_start(r@, #[trigger] chars@[j]),
        decreases n - k,
    {
        let c = chars[k];
        match find_unicode_block(c) {
            None => {},
            Some(b) => {
                let bstart = b.start;
                let mut pos: usize = 0;
                while pos < r.len() && r[pos].start < b.start
                    invariant
                        pos <= r@.len(),
                        forall|p: int| 0 <= p < pos ==> r@[p].start < b.start,
                    decreases r@.len() - pos,
                {
                    pos = pos + 1;
                }
                if pos < r.len() && r[pos].start == b.start {
                } else {
                    let ghost old_r = r@;
                    proof {
                        assert(block_of_some(chars@, b)) by {
                            assert(unicode_block_spec(chars@[k as int]) == Some((b.start, b.end, b.name@)));
                        }
                    }
                    r.insert(pos, b);
                    proof {
                        assert forall|i: int, j: int| 0 <= i < j < r@.len() implies r@[i].start
                            < r@[j].start by {
                            if j < pos {
                                assert(r@[i] == old_r[i] && r@[j] == old_r[j]);
                            } else if j == pos {
                                assert(r@[i] == old_r[i]);
                            } else if i == pos {
                                assert(r@[j] == old_r[j - 1]);
                                assert(old_r[pos as int].start > r@[pos as int].start);
                                if j - 1 > pos {
                                    assert(old_r[pos as int].start < old_r[j - 1].start);
                                }
                            } else if i < pos {
                                assert(r@[i] == old_r[i] && r@[j] == old_r[j - 1]);
                            } else {
                                assert(r@[i] == old_r[i - 1] && r@[j] == old_r[j - 1]);
                            }
                        }
                        assert forall|i: int| 0 <= i < r@.len() implies block_of_some(
                            chars@,
                            #[trigger] r@[i],
                        ) by {
                            if i < pos {
                                assert(r@[i] == old_r[i]);
                            } else if i > pos {
                                assert(r@[i] == old_r[i - 1]);
                            }
                        }
                        assert forall|j: int| 0 <= j < k implies has_block_start(
                            r@,
                            #[trigger] chars@[j],
                        ) by {
                            if let Some(bj) = unicode_block_spec(chars@[j]) {
                                let i = choose|i: int| 0 <= i < old_r.len() && #[trigger] old_r[i].start == bj.0;
                                if i < pos {
                                    assert(r@[i] == old_r[i]);
                                } else {
                                    assert(r@[i + 1] == old_r[i]);
                                }
                            }
                        }
                    }
                }
                proof {
                    assert(r@[pos as int].start == bstart);
                    assert(has_block_start(r@, chars@[k as int]));
                }
            },
        }
        k = k + 1;
    }
    r
}

} // verus!
