//! Text typed into the entry box, edited by grapheme cluster.
use unicode_segmentation::UnicodeSegmentation;
use vstd::prelude::*;

verus! {

/// The extended grapheme clusters of a string, in order.
pub uninterp spec fn graphemes_of(s: Seq<char>) -> Seq<Seq<char>>;

/// Whether a character has Unicode's Alphabetic property.
pub uninterp spec fn alphabetic(c: char) -> bool;

/// The upper-case mapping of a character (one to three characters).
pub uninterp spec fn uppercase_of(c: char) -> Seq<char>;

/// Unicode's White_Space property.
pub open spec fn white_space(c: char) -> bool {
    let u = c as u32;
    ||| 0x9 <= u <= 0xd
    ||| u == 0x20
    ||| u == 0x85
    ||| u == 0xa0
    ||| u == 0x1680
    ||| 0x2000 <= u <= 0x200a
    ||| u == 0x2028
    ||| u == 0x2029
    ||| u == 0x202f
    ||| u == 0x205f
    ||| u == 0x3000
}

/// The pieces written one after the other.
pub open spec fn concat(gs: Seq<Seq<char>>) -> Seq<char>
    decreases gs.len(),
{
    if gs.len() == 0 {
        Seq::empty()
    } else {
        concat(gs.drop_last()) + gs.last()
    }
}

pub open spec fn views(v: Seq<String>) -> Seq<Seq<char>> {
    v.map_values(|g: String| g@)
}

/// `ins` placed before the `k`-th of the pieces `gs`.
pub open spec fn insert_at(gs: Seq<Seq<char>>, k: int, ins: Seq<char>) -> Seq<char> {
    concat(gs.take(k)) + ins + concat(gs.skip(k))
}

/// The pieces `gs` without the `k`-th.
pub open spec fn remove_at(gs: Seq<Seq<char>>, k: int) -> Seq<char> {
    concat(gs.take(k)) + concat(gs.skip(k + 1))
}

/// Every character of `s` is white space.
pub open spec fn all_white_space(s: Seq<char>) -> bool {
    forall|i: int| 0 <= i < s.len() ==> white_space(#[trigger] s[i])
}

/// Relies on unicode-segmentation's `graphemes(true)`: the extended grapheme
/// clusters of `s`, in order, each copied into a `String`. The clusters are
/// consecutive non-empty slices of `s`, so a string of one character is one
/// cluster.
#[verifier::external_body]
pub(crate) fn graphemes(s: &str) -> (r: Vec<String>)
    ensures
        views(r@) == graphemes_of(s@),
        s@.len() == 1 ==> views(r@) == seq![s@],
{
    s.graphemes(true).map(String::from).collect()
}

/// Relies on `char::is_alphabetic`.
#[verifier::external_body]
pub(crate) fn is_alphabetic(c: char) -> (r: bool)
    ensures
        r == alphabetic(c),
{
    c.is_alphabetic()
}

/// Whether `c` has Unicode's White_Space property.
pub fn is_whitespace(c: char) -> (r: bool)
    ensures
        r == white_space(c),
{
    let u = c as u32;
    (0x9 <= u && u <= 0xd) || u == 0x20 || u == 0x85 || u == 0xa0 || u == 0x1680 || (0x2000 <= u
        && u <= 0x200a) || u == 0x2028 || u == 0x2029 || u == 0x202f || u == 0x205f || u == 0x3000
}

/// Relies on `char::to_uppercase`, collected into a `String`.
#[verifier::external_body]
pub(crate) fn to_uppercase(c: char) -> (r: String)
    ensures
        r@ == uppercase_of(c),
{
    c.to_uppercase().to_string()
}

/// Relies on `char`'s `ToString`: the one-character string.
#[verifier::external_body]
pub(crate) fn char_string(c: char) -> (r: String)
    ensures
        r@ == seq![c],
{
    c.to_string()
}

/// The characters of `s`, in order.
pub(crate) fn chars_of(s: &str) -> (r: Vec<char>)
    ensures
        r@ == s@,
{
    let mut r: Vec<char> = Vec::new();
    for c in it: s.chars()
        invariant
            r@ == it.seq().take(it.index() as int),
    {
        r.push(c);
        assert(it.seq().take(it.index() + 1) =~= it.seq().take(it.index() as int).push(c));
    }
    assert(r@ =~= s@);
    r
}

/// Whether every character of `s` is white space.
pub fn is_blank(s: &str) -> (r: bool)
    ensures
        r == all_white_space(s@),
{
    let cs = chars_of(s);
    let mut i: usize = 0;
    while i < cs.len()
        invariant
            i <= cs.len(),
            cs@ == s@,
            forall|j: int| 0 <= j < i ==> white_space(#[trigger] s@[j]),
        decreases cs.len() - i,
    {
        if !is_whitespace(cs[i]) {
            return false;
        }
        i = i + 1;
    }
    true
}

/// Appends the pieces `gs[lo..hi]` to `out`.
fn push_range(out: &mut String, gs: &Vec<String>, lo: usize, hi: usize)
    requires
        lo <= hi <= gs.len(),
    ensures
        final(out)@ == old(out)@ + concat(views(gs@).subrange(lo as int, hi as int)),
{
    let mut i: usize = lo;
    while i < hi
        invariant
            lo <= i <= hi <= gs.len(),
            out@ == old(out)@ + concat(views(gs@).subrange(lo as int, i as int)),
        decreases hi - i,
    {
        let ghost before = out@;
        out.append(gs[i].as_str());
        let ghost vs = views(gs@);
        assert(vs.subrange(lo as int, i + 1).drop_last() =~= vs.subrange(lo as int, i as int));
        assert(out@ =~= old(out)@ + concat(vs.subrange(lo as int, i + 1)));
        i = i + 1;
    }
}

/// `ins` placed before the `k`-th grapheme of `gs` (at the end past the last).
pub fn insert_grapheme(gs: &Vec<String>, k: usize, ins: &str) -> (r: String)
    requires
        k <= gs.len(),
    ensures
        r@ == insert_at(views(gs@), k as int, ins@),
{
    let mut r = String::new();
    push_range(&mut r, gs, 0, k);
    r.append(ins);
    push_range(&mut r, gs, k, gs.len());
    let ghost vs = views(gs@);
    assert(vs.subrange(0, k as int) =~= vs.take(k as int));
    assert(vs.subrange(k as int, vs.len() as int) =~= vs.skip(k as int));
    assert(r@ =~= insert_at(vs, k as int, ins@));
    r
}

/// `gs` without its `k`-th grapheme.
pub fn remove_grapheme(gs: &Vec<String>, k: usize) -> (r: String)
    requires
        k < gs.len(),
    ensures
        r@ == remove_at(views(gs@), k as int),
{
    let mut r = String::new();
    push_range(&mut r, gs, 0, k);
    push_range(&mut r, gs, k + 1, gs.len());
    let ghost vs = views(gs@);
    assert(vs.subrange(0, k as int) =~= vs.take(k as int));
    assert(vs.subrange(k + 1, vs.len() as int) =~= vs.skip(k + 1));
    assert(r@ =~= remove_at(vs, k as int));
    r
}

} // verus!
