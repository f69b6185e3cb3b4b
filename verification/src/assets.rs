//! The skin and ball catalogs (the `.png` files of an assets directory, listed by
//! name), and the background color that a sprite sheet keys out.

use vstd::prelude::*;
use crate::text::ends_with;

verus! {

/// The character views of a list of strings.
pub open spec fn views(v: Seq<String>) -> Seq<Seq<char>> {
    v.map_values(|s: String| s@)
}

/// Lexicographic order of strings, character by character (code point order, which
/// is also the byte order of their UTF-8 text).
pub open spec fn lex_le(a: Seq<char>, b: Seq<char>) -> bool
    decreases a.len(),
{
    if a.len() == 0 {
        true
    } else if b.len() == 0 {
        false
    } else if (a[0] as u32) < (b[0] as u32) {
        true
    } else if (a[0] as u32) > (b[0] as u32) {
        false
    } else {
        lex_le(a.drop_first(), b.drop_first())
    }
}

/// In lexicographic order.
pub open spec fn sorted_lex(s: Seq<Seq<char>>) -> bool {
    forall|i: int, j: int| 0 <= i < j < s.len() ==> lex_le(#[trigger] s[i], #[trigger] s[j])
}

/// Any two strings are ordered one way or the other.
pub proof fn lemma_lex_total(a: Seq<char>, b: Seq<char>)
    ensures
        lex_le(a, b) || lex_le(b, a),
    decreases a.len(),
{
    if a.len() > 0 && b.len() > 0 && (a[0] as u32) == (b[0] as u32) {
        lemma_lex_total(a.drop_first(), b.drop_first());
    }
}

/// The order is transitive.
pub proof fn lemma_lex_trans(a: Seq<char>, b: Seq<char>, c: Seq<char>)
    requires
        lex_le(a, b),
        lex_le(b, c),
    ensures
        lex_le(a, c),
    decreases a.len(),
{
    if a.len() > 0 && b.len() > 0 && c.len() > 0 && (a[0] as u32) == (b[0] as u32) && (b[0] as u32) == (c[0] as u32) {
        lemma_lex_trans(a.drop_first(), b.drop_first(), c.drop_first());
    }
}

/// Whether `a` comes before `b`, or equals it, in lexicographic order.
pub fn str_le(a: &str, b: &str) -> (r: bool)
    ensures
        r == lex_le(a@, b@),
{
    let n: usize = a.unicode_len();
    let m: usize = b.unicode_len();
    let mut i: usize = 0;
    assert(a@.skip(0) =~= a@);
    assert(b@.skip(0) =~= b@);
    while i < n && i < m
        invariant
            n == a@.len(),
            m == b@.len(),
            i <= n,
            i <= m,
            lex_le(a@, b@) == lex_le(a@.skip(i as int), b@.skip(i as int)),
        decreases n - i,
    {
        let ca = a.get_char(i);
        let cb = b.get_char(i);
        let ua: u32 = ca as u32;
        let ub: u32 = cb as u32;
        if ua != ub {
            assert(a@.skip(i as int)[0] == ca);
            assert(b@.skip(i as int)[0] == cb);
            return ua < ub;
        }
        assert(a@.skip(i as int).drop_first() =~= a@.skip(i + 1));
        assert(b@.skip(i as int).drop_first() =~= b@.skip(i + 1));
        i = i + 1;
    }
    if i == n {
        assert(a@.skip(i as int).len() == 0);
        true
    } else {
        assert(b@.skip(i as int).len() == 0);
        assert(a@.skip(i as int).len() > 0);
        false
    }
}

/// The stem of a `.png` file name: the name without its `.png` extension, where it
/// has that extension and something before it (a name that begins with its only
/// dot has no extension).
pub open spec fn png_stem_of(name: Seq<char>) -> Option<Seq<char>> {
    if name.len() > 4 && name.subrange(name.len() - 4, name.len() as int) == ".png"@ {
        Some(name.subrange(0, name.len() - 4))
    } else {
        None
    }
}

/// The stem of a `.png` file name, `None` for any other name.
pub fn png_stem(name: &str) -> (r: Option<String>)
    ensures
        match png_stem_of(name@) {
            Some(s) => r matches Some(t) && t@ == s,
            None => r is None,
        },
{
    proof {
        reveal_strlit(".png");
    }
    let n: usize = name.unicode_len();
    if n > 4 && ends_with(name, ".png") {
        Some(name.substring_char(0, n - 4).to_owned())
    } else {
        None
    }
}

/// The stems of the `.png` names among `names`, in the order of `names`.
pub open spec fn png_stems_in(names: Seq<Seq<char>>) -> Seq<Seq<char>>
    decreases names.len(),
{
    if names.len() == 0 {
        Seq::empty()
    } else {
        let rest = png_stems_in(names.drop_last());
        match png_stem_of(names.last()) {
            Some(s) => rest.push(s),
            None => rest,
        }
    }
}

proof fn lemma_insert_multiset(s: Seq<Seq<char>>, i: int, x: Seq<char>)
    requires
        0 <= i <= s.len(),
    ensures
        s.insert(i, x).to_multiset() =~= s.to_multiset().insert(x),
{
    broadcast use vstd::seq_lib::group_to_multiset_ensures;
    let t = s.insert(i, x);
    assert(t.remove(i) =~= s);
    assert(t[i] == x);
    assert(t.contains(x));
    assert(t.to_multiset().count(x) > 0);
    assert(t.remove(i).to_multiset() =~= t.to_multiset().remove(x));
}

/// Inserts `x` into the sorted list `v`, after every name that is not greater.
fn insert_sorted(v: &mut Vec<String>, x: String)
    requires
        sorted_lex(views(old(v)@)),
    ensures
        sorted_lex(views(final(v)@)),
        views(final(v)@).to_multiset() == views(old(v)@).to_multiset().insert(x@),
{
    let ghost s = views(v@);
    let mut p: usize = 0;
    while p < v.len()
        invariant_except_break
            forall|j: int| 0 <= j < p ==> lex_le(#[trigger] s[j], x@),
        invariant
            v@ == old(v)@,
            s == views(v@),
            p <= v@.len(),
            forall|j: int| 0 <= j < p ==> lex_le(#[trigger] s[j], x@),
        ensures
            p <= v@.len(),
            forall|j: int| 0 <= j < p ==> lex_le(#[trigger] s[j], x@),
            p < v@.len() ==> !lex_le(s[p as int], x@),
        decreases v@.len() - p,
    {
        if !str_le(v[p].as_str(), x.as_str()) {
            break;
        }
        p = p + 1;
    }
    let ghost xv = x@;
    v.insert(p, x);
    proof {
        let t = views(v@);
        assert(t =~= s.insert(p as int, xv));
        if p < s.len() {
            lemma_lex_total(s[p as int], xv);
        }
        assert forall|i: int, j: int| 0 <= i < j < t.len() implies lex_le(#[trigger] t[i], #[trigger] t[j]) by {
            if j < p {
                assert(t[i] == s[i] && t[j] == s[j]);
            } else if j == p {
                assert(t[j] == xv);
                assert(t[i] == s[i]);
            } else if i == p {
                assert(t[i] == xv);
                assert(t[j] == s[j - 1]);
                if j - 1 > p {
                    lemma_lex_trans(xv, s[p as int], s[j - 1]);
                }
            } else if i < p {
                assert(t[i] == s[i]);
                assert(t[j] == s[j - 1]);
            } else {
                assert(t[i] == s[i - 1]);
                assert(t[j] == s[j - 1]);
            }
        }
        lemma_insert_multiset(s, p as int, xv);
    }
}

/// The stems of the `.png` file names among `names`, in lexicographic order: the
/// catalog of skins or balls found in an assets directory.
pub fn png_stems(names: &Vec<String>) -> (stems: Vec<String>)
    ensures
        sorted_lex(views(stems@)),
        views(stems@).to_multiset() == png_stems_in(views(names@)).to_multiset(),
{
    let mut out: Vec<String> = Vec::new();
    let mut i: usize = 0;
    proof {
        broadcast use vstd::seq_lib::group_to_multiset_ensures;
        assert(views(out@) =~= Seq::<Seq<char>>::empty());
        assert(views(names@).subrange(0, 0) =~= Seq::<Seq<char>>::empty());
        assert(views(out@).to_multiset().len() == 0);
        assert(png_stems_in(views(names@).subrange(0, 0)).to_multiset().len() == 0);
        assert(views(out@).to_multiset() =~= png_stems_in(views(names@).subrange(0, 0)).to_multiset());
    }
    while i < names.len()
        invariant
            i <= names@.len(),
            sorted_lex(views(out@)),
            views(out@).to_multiset() == png_stems_in(views(names@).subrange(0, i as int)).to_multiset(),
        decreases names@.len() - i,
    {
        let ghost before = views(out@).to_multiset();
        proof {
            let sub = views(names@).subrange(0, i + 1);
            assert(sub.drop_last() =~= views(names@).subrange(0, i as int));
            assert(sub.last() == names@[i as int]@);
        }
        match png_stem(names[i].as_str()) {
            Some(stem) => {
                insert_sorted(&mut out, stem);
                proof {
                    broadcast use vstd::seq_lib::group_to_multiset_ensures;
                    let sub = views(names@).subrange(0, i + 1);
                    let prev = png_stems_in(views(names@).subrange(0, i as int));
                    assert(png_stems_in(sub) == prev.push(png_stem_of(names@[i as int]@)->0));
                }
            },
            None => {},
        }
        i = i + 1;
    }
    assert(views(names@).subrange(0, names@.len() as int) =~= views(names@));
    out
}

/// The color that a sprite sheet makes transparent: that of its first pixel, when
/// the sheet holds one and it is opaque (a sheet with an alpha channel of its own and
/// a see-through first pixel keeps its colors).
pub open spec fn key_color_of(pixels: Seq<u8>, n_channels: int) -> Option<(u8, u8, u8)> {
    if pixels.len() < 3 {
        None
    } else {
        let a = if n_channels >= 4 { pixels[3] } else { 255u8 };
        if a < 255 {
            None
        } else {
            Some((pixels[0], pixels[1], pixels[2]))
        }
    }
}

/// The color that a sprite sheet makes transparent, from its pixel bytes and its
/// number of channels per pixel.
pub fn key_color(pixels: &[u8], n_channels: usize) -> (r: Option<(u8, u8, u8)>)
    requires
        pixels@.len() >= 3 && n_channels >= 4 ==> pixels@.len() >= 4,
    ensures
        r == key_color_of(pixels@, n_channels as int),
{
    if pixels.len() < 3 {
        return None;
    }
    let a: u8 = if n_channels >= 4 { pixels[3] } else { 255 };
    if a < 255 {
        None
    } else {
        Some((pixels[0], pixels[1], pixels[2]))
    }
}

} // verus!
