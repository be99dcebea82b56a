//! Ordering font faces by name, and picking the faces whose unicode blocks
//! mention a text.

use vstd::prelude::*;

use crate::fonts::file::blocks_text;
use crate::fonts::file::blocks_to_string;
use crate::fonts::file::string_views;
use crate::fonts::file::FaceProperties;
use crate::Error;

verus! {

/// How two faces compare by name.
#[derive(Clone, Copy, PartialEq, Eq, Structural, Debug)]
pub enum NameOrder {
    Less,
    Equal,
    Greater,
}

/// Lexicographic order of two texts, character by character; a proper
/// prefix comes first.
pub open spec fn text_order(a: Seq<char>, b: Seq<char>) -> NameOrder
    decreases a.len(),
{
    if a.len() == 0 {
        if b.len() == 0 {
            NameOrder::Equal
        } else {
            NameOrder::Less
        }
    } else if b.len() == 0 {
        NameOrder::Greater
    } else if (a[0] as u32) < (b[0] as u32) {
        NameOrder::Less
    } else if (a[0] as u32) > (b[0] as u32) {
        NameOrder::Greater
    } else {
        text_order(a.drop_first(), b.drop_first())
    }
}

/// How face `a` compares with face `b` by name: a face without a name comes
/// first (even before another without one), a named face after one without;
/// two names compare as texts.
pub open spec fn name_order(a: Option<Seq<char>>, b: Option<Seq<char>>) -> NameOrder {
    match a {
        None => NameOrder::Less,
        Some(x) => match b {
            None => NameOrder::Greater,
            Some(y) => text_order(x, y),
        },
    }
}

/// The opposite order: less for greater and greater for less.
pub open spec fn reversed(o: NameOrder) -> NameOrder {
    match o {
        NameOrder::Less => NameOrder::Greater,
        NameOrder::Equal => NameOrder::Equal,
        NameOrder::Greater => NameOrder::Less,
    }
}

/// Texts compare in opposite ways when swapped, and are equal in the order
/// exactly when they are the same text.
pub proof fn lemma_text_order_antisymmetric(a: Seq<char>, b: Seq<char>)
    ensures
        text_order(a, b) == reversed(text_order(b, a)),
        (text_order(a, b) == NameOrder::Equal) == (a == b),
    decreases a.len(),
{
    if a.len() > 0 && b.len() > 0 {
        lemma_text_order_antisymmetric(a.drop_first(), b.drop_first());
        if (a[0] as u32) == (b[0] as u32) {
            vstd::utf8::char_u32_cast(a[0], a[0] as u32);
            vstd::utf8::char_u32_cast(b[0], b[0] as u32);
            assert(a[0] == b[0]);
            if a.drop_first() == b.drop_first() {
                assert(a =~= seq![a[0]] + a.drop_first());
                assert(b =~= seq![b[0]] + b.drop_first());
            }
        }
        if a == b {
            assert(a.drop_first() =~= b.drop_first());
        }
    } else if a.len() == 0 && b.len() > 0 {
        assert(a != b);
    } else if a.len() > 0 && b.len() == 0 {
        assert(a != b);
    } else {
        assert(a =~= b);
    }
}

/// Texts ordered one before another, and that one before a third, are
/// ordered the first before the third.
pub proof fn lemma_text_order_transitive(a: Seq<char>, b: Seq<char>, c: Seq<char>)
    requires
        text_order(a, b) == NameOrder::Less,
        text_order(b, c) == NameOrder::Less,
    ensures
        text_order(a, c) == NameOrder::Less,
    decreases a.len(),
{
    if a.len() > 0 && (a[0] as u32) == (b[0] as u32) && (b[0] as u32) == (c[0] as u32) {
        lemma_text_order_transitive(a.drop_first(), b.drop_first(), c.drop_first());
    }
}

/// Two faces of which at least one has a name compare in opposite ways when
/// swapped, and compare equal exactly when their names are equal. (Two faces
/// without a name each come before the other.)
pub proof fn lemma_name_order_antisymmetric(a: Option<Seq<char>>, b: Option<Seq<char>>)
    requires
        a is Some || b is Some,
    ensures
        name_order(a, b) == reversed(name_order(b, a)),
        (name_order(a, b) == NameOrder::Equal) == (a == b),
{
    if let (Some(x), Some(y)) = (a, b) {
        lemma_text_order_antisymmetric(x, y);
    }
}

/// The characters of a text.
fn chars_of(s: &str) -> (r: Vec<char>)
    ensures
        r@ == s@,
{
    let mut r: Vec<char> = Vec::new();
    for c in it: s.chars()
        invariant
            it.seq() == s@,
            r@ == it.seq().take(it.index() as int),
    {
        r.push(c);
        proof {
            assert(it.seq().take(it.index() as int + 1) =~= it.seq().take(it.index() as int).push(c));
        }
    }
    proof {
        assert(s@.take(s@.len() as int) =~= s@);
    }
    r
}

fn texts_compare(a: &Vec<char>, b: &Vec<char>) -> (r: NameOrder)
    ensures
        r == text_order(a@, b@),
{
    let mut i: usize = 0;
    proof {
        assert(a@.skip(0) =~= a@);
        assert(b@.skip(0) =~= b@);
    }
    while i < a.len() && i < b.len()
        invariant
            i <= a@.len(),
            i <= b@.len(),
            text_order(a@, b@) == text_order(a@.skip(i as int), b@.skip(i as int)),
        decreases a@.len() - i,
    {
        let (x, y) = (a[i], b[i]);
        proof {
            assert(a@.skip(i as int)[0] == x);
            assert(b@.skip(i as int)[0] == y);
        }
        if (x as u32) < (y as u32) {
            return NameOrder::Less;
        } else if (x as u32) > (y as u32) {
            return NameOrder::Greater;
        }
        proof {
            assert(a@.skip(i as int).drop_first() =~= a@.skip(i as int + 1));
            assert(b@.skip(i as int).drop_first() =~= b@.skip(i as int + 1));
        }
        i = i + 1;
    }
    if i == a.len() && i == b.len() {
        NameOrder::Equal
    } else if i == a.len() {
        NameOrder::Less
    } else {
        NameOrder::Greater
    }
}

/// How two faces compare by name, the order faces are listed in.
pub fn face_name_order(a: &FaceProperties, b: &FaceProperties) -> (r: NameOrder)
    ensures
        r == name_order(
            match a.name {
                Some(n) => Some(n@),
                None => None,
            },
            match b.name {
                Some(n) => Some(n@),
                None => None,
            },
        ),
{
    match &a.name {
        None => NameOrder::Less,
        Some(x) => match &b.name {
            None => NameOrder::Greater,
            Some(y) => texts_compare(&chars_of(x.as_str()), &chars_of(y.as_str())),
        },
    }
}

/// The text that `str::to_lowercase` gives for `s`.
pub uninterp spec fn lowercase(s: Seq<char>) -> Seq<char>;

/// `str::to_lowercase`: the text with each character lower-cased as
/// Unicode defines it.
#[verifier::external_body]
fn to_lowercase(s: &str) -> (r: String)
    ensures
        r@ == lowercase(s@),
{
    s.to_lowercase()
}

/// `needle` occurs in `hay` at `i`.
pub open spec fn occurs_at(hay: Seq<char>, needle: Seq<char>, i: int) -> bool {
    0 <= i && i + needle.len() <= hay.len() && hay.subrange(i, i + needle.len()) == needle
}

/// `needle` occurs somewhere in `hay`.
pub open spec fn contains_text(hay: Seq<char>, needle: Seq<char>) -> bool {
    exists|i: int| #[trigger] occurs_at(hay, needle, i)
}

fn occurs_at_exec(hay: &Vec<char>, needle: &Vec<char>, i: usize) -> (r: bool)
    requires
        i + needle@.len() <= hay@.len(),
    ensures
        r == occurs_at(hay@, needle@, i as int),
{
    let n = hay.len();
    let mut k: usize = 0;
    while k < needle.len()
        invariant
            i + needle@.len() <= hay@.len(),
            n == hay@.len(),
            k <= needle@.len(),
            forall|j: int| 0 <= j < k ==> hay@[i + j] == needle@[j],
        decreases needle@.len() - k,
    {
        if hay[i + k] != needle[k] {
            proof {
                assert(hay@.subrange(i as int, i + needle@.len())[k as int] != needle@[k as int]);
            }
            return false;
        }
        k = k + 1;
    }
    proof {
        assert(hay@.subrange(i as int, i + needle@.len()) =~= needle@);
    }
    true
}

fn contains_chars(hay: &Vec<char>, needle: &Vec<char>) -> (r: bool)
    ensures
        r == contains_text(hay@, needle@),
{
    if needle.len() > hay.len() {
        return false;
    }
    if needle.len() == 0 {
        proof {
            assert(hay@.subrange(0, 0) =~= needle@);
            assert(occurs_at(hay@, needle@, 0));
        }
        return true;
    }
    let last = hay.len() - needle.len();
    let mut i: usize = 0;
    while i <= last
        invariant
            last + needle@.len() == hay@.len(),
            needle@.len() > 0,
            hay@.len() <= usize::MAX,
            i <= last + 1,
            forall|j: int| 0 <= j < i ==> !#[trigger] occurs_at(hay@, needle@, j),
        decreases last + 1 - i,
    {
        if occurs_at_exec(hay, needle, i) {
            return true;
        }
        i = i + 1;
    }
    proof {
        assert forall|j: int| !#[trigger] occurs_at(hay@, needle@, j) by {
            if 0 <= j && j + needle@.len() <= hay@.len() {
                assert(j < i);
            }
        }
    }
    false
}

/// The face's unicode blocks, as the listing shows them, mention `block`
/// once lower-cased.
pub open spec fn blocks_mention(names: Seq<String>, block: Seq<char>) -> bool {
    contains_text(lowercase(blocks_text(string_views(names), names.len())), block)
}

/// Whether the text of the face's unicode blocks, lower-cased, contains
/// `block`; the error of reading the face's characters when it has no
/// blocks.
pub fn face_in_block(p: &FaceProperties, block: &str) -> (r: Result<bool, Error>)
    ensures
        match p.unicode_blocks {
            Ok(names) => r == Ok::<bool, Error>(blocks_mention(names@, block@)),
            Err(e) => r == Err::<bool, Error>(e),
        },
{
    match &p.unicode_blocks {
        Ok(names) => {
            let text = blocks_to_string(names);
            let lower = to_lowercase(text.as_str());
            Ok(contains_chars(&chars_of(lower.as_str()), &chars_of(block)))
        },
        Err(e) => Err(e.duplicate()),
    }
}

/// Positions, in order, of the faces whose unicode blocks mention `block`;
/// the error of the first face whose blocks could not be read.
pub fn faces_in_block(faces: &Vec<FaceProperties>, block: &str) -> (r: Result<Vec<usize>, Error>)
    ensures
        r matches Ok(v) ==> (forall|k: int| 0 <= k < faces@.len() ==> (#[trigger] faces@[k]).unicode_blocks is Ok)
            && v@ == Seq::new(faces@.len() as nat, |k: int| k as usize).filter(
            |k: usize| blocks_mention(faces@[k as int].unicode_blocks->Ok_0@, block@),
        ),
        r matches Err(e) ==> exists|k: int|
            0 <= k < faces@.len() && (#[trigger] faces@[k]).unicode_blocks == Err::<Vec<String>, Error>(e)
                && forall|j: int| 0 <= j < k ==> (#[trigger] faces@[j]).unicode_blocks is Ok,
{
    let mut v: Vec<usize> = Vec::new();
    let mut i: usize = 0;
    let ghost all = Seq::new(faces@.len() as nat, |k: int| k as usize);
    let ghost pick = |k: usize| blocks_mention(faces@[k as int].unicode_blocks->Ok_0@, block@);
    while i < faces.len()
        invariant
            i <= faces@.len(),
            all == Seq::new(faces@.len() as nat, |k: int| k as usize),
            pick == (|k: usize| blocks_mention(faces@[k as int].unicode_blocks->Ok_0@, block@)),
            forall|j: int| 0 <= j < i ==> (#[trigger] faces@[j]).unicode_blocks is Ok,
            v@ == all.take(i as int).filter(pick),
        decreases faces@.len() - i,
    {
        proof {
            assert(all.take(i as int + 1).drop_last() =~= all.take(i as int));
            assert(all.take(i as int + 1).last() == i);
        }
        match face_in_block(&faces[i], block) {
            Ok(yes) => {
                if yes {
                    v.push(i);
                }
                proof {
                    reveal_with_fuel(Seq::filter, 1);
                    assert(pick(i) == yes);
                    assert(v@ =~= all.take(i as int + 1).filter(pick));
                }
            },
            Err(e) => {
                return Err(e);
            },
        }
        i = i + 1;
    }
    proof {
        assert(all.take(faces@.len() as int) =~= all);
    }
    Ok(v)
}

} // verus!
