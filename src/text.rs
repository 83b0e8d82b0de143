//! Text handling shared by the command-line grammar and the rendering of
//! payloads: trimming, splitting on single spaces, and UTF-8 decoding.

use vstd::prelude::*;
use vstd::utf8::{decode_utf8, valid_utf8};

verus! {

/// A character with the Unicode `White_Space` property.
pub open spec fn is_white_space(c: char) -> bool {
    let u = c as u32;
    (0x9 <= u && u <= 0xd) || u == 0x20 || u == 0x85 || u == 0xa0 || u == 0x1680 || (0x2000 <= u
        && u <= 0x200a) || u == 0x2028 || u == 0x2029 || u == 0x202f || u == 0x205f || u == 0x3000
}

/// `s` without its leading white space.
pub open spec fn trim_front(s: Seq<char>) -> Seq<char>
    decreases s.len(),
{
    if s.len() > 0 && is_white_space(s[0]) {
        trim_front(s.drop_first())
    } else {
        s
    }
}

/// `s` without its trailing white space.
pub open spec fn trim_back(s: Seq<char>) -> Seq<char>
    decreases s.len(),
{
    if s.len() > 0 && is_white_space(s.last()) {
        trim_back(s.drop_last())
    } else {
        s
    }
}

/// `s` without leading and trailing white space.
pub open spec fn trimmed(s: Seq<char>) -> Seq<char> {
    trim_back(trim_front(s))
}

/// The pieces of `s` between single spaces, in order: `n` spaces give `n + 1`
/// pieces, empty ones included, and the empty text gives one empty piece.
pub open spec fn split_spaces(s: Seq<char>) -> Seq<Seq<char>>
    decreases s.len(),
{
    if s.len() == 0 {
        seq![Seq::<char>::empty()]
    } else {
        let init = split_spaces(s.drop_last());
        if s.last() == ' ' {
            init.push(Seq::<char>::empty())
        } else {
            init.update(init.len() - 1, init.last().push(s.last()))
        }
    }
}

pub proof fn lemma_split_spaces_nonempty(s: Seq<char>)
    ensures
        split_spaces(s).len() >= 1,
    decreases s.len(),
{
    if s.len() > 0 {
        lemma_split_spaces_nonempty(s.drop_last());
    }
}

/// Relies on `str::trim`: leading and trailing characters with the Unicode
/// `White_Space` property are removed, nothing else.
#[verifier::external_body]
pub(crate) fn trim(s: &str) -> (r: &str)
    ensures
        r@ == trimmed(s@),
{
    s.trim()
}

/// Splits `s` on every single space.
pub fn split_on_spaces(s: &str) -> (pieces: Vec<String>)
    ensures
        pieces.deep_view() == split_spaces(s@),
{
    let n = s.unicode_len();
    let mut pieces: Vec<String> = Vec::new();
    let mut start: usize = 0;
    let mut i: usize = 0;
    proof {
        assert(s@.subrange(0, 0) =~= Seq::<char>::empty());
        assert(pieces.deep_view().push(s@.subrange(0, 0)) =~~= split_spaces(s@.subrange(0, 0)));
    }
    while i < n
        invariant
            n == s@.len(),
            start <= i <= n,
            pieces.deep_view().push(s@.subrange(start as int, i as int)) == split_spaces(
                s@.subrange(0, i as int),
            ),
        decreases n - i,
    {
        proof {
            lemma_split_spaces_nonempty(s@.subrange(0, i as int));
            assert(s@.subrange(0, i + 1).drop_last() =~= s@.subrange(0, i as int));
        }
        let c = s.get_char(i);
        if c == ' ' {
            let piece = s.substring_char(start, i).to_owned();
            proof {
                assert(s@.subrange(i + 1, i + 1) =~= Seq::<char>::empty());
                assert(pieces.deep_view().push(piece@).push(s@.subrange(i + 1, i + 1))
                    =~~= split_spaces(s@.subrange(0, i as int)).push(Seq::<char>::empty()));
            }
            pieces.push(piece);
            start = i + 1;
        } else {
            proof {
                let init = split_spaces(s@.subrange(0, i as int));
                assert(init.last().push(c) =~= s@.subrange(start as int, i + 1));
                assert(pieces.deep_view().push(s@.subrange(start as int, i + 1))
                    =~= init.update(init.len() - 1, init.last().push(c)));
            }
        }
        i = i + 1;
    }
    let last = s.substring_char(start, n).to_owned();
    proof {
        assert(s@.subrange(0, n as int) =~= s@);
    }
    pieces.push(last);
    proof {
        assert(pieces.deep_view() =~= split_spaces(s@));
    }
    pieces
}

/// Relies on zenoh's `ZBytes::try_to_string`: it succeeds exactly when the
/// bytes are valid UTF-8, and then yields the characters they encode.
#[verifier::external_body]
pub(crate) fn decode_text(bytes: &Vec<u8>) -> (r: Option<String>)
    ensures
        r is Some <==> valid_utf8(bytes@),
        r matches Some(t) ==> t@ == decode_utf8(bytes@),
{
    match zenoh::bytes::ZBytes::from(bytes.clone()).try_to_string() {
        Ok(t) => Some(t.into_owned()),
        Err(_) => None,
    }
}

} // verus!
