//! Facts about UTF-8 text: the next character at a byte position, character
//! widths, character boundaries, and common byte prefixes.
use vstd::prelude::*;
use vstd::string::*;
use vstd::utf8::*;

use crate::Input;

verus! {

broadcast use vstd::string::group_string_axioms;

/// The bytes of `s` from position `cur` on.
pub open spec fn rest_bytes(s: Seq<u8>, cur: nat) -> Seq<u8> {
    s.subrange(cur as int, s.len() as int)
}

/// The character that starts at byte position `cur` of `s`, with its width in bytes.
pub open spec fn spec_next_char(s: Seq<u8>, cur: nat) -> Option<(char, nat)> {
    let rest = rest_bytes(s, cur);
    if rest.len() == 0 {
        None
    } else {
        Some((decode_first_scalar(rest) as char, length_of_first_scalar(rest) as nat))
    }
}

/// A text position: within `s` and on a character boundary.
pub open spec fn valid_pos(s: Seq<u8>, cur: int) -> bool {
    0 <= cur <= s.len() && is_char_boundary(s, cur)
}

/// The text of a byte range of `s`, as characters.
pub open spec fn text_of(s: Seq<u8>, start: int, end: int) -> Seq<char> {
    decode_utf8(s.subrange(start, end))
}

/// The length of the longest common prefix of two byte sequences.
pub open spec fn common_prefix_len(a: Seq<u8>, b: Seq<u8>) -> nat
    decreases a.len(),
{
    if a.len() == 0 || b.len() == 0 || a[0] != b[0] {
        0
    } else {
        1 + common_prefix_len(a.drop_first(), b.drop_first())
    }
}

/// A position that is a boundary of `s` and lies after `cur` is a boundary of
/// the rest of `s` from `cur`.
pub proof fn lemma_boundary_in_rest(s: Seq<u8>, cur: int, n: int)
    requires
        valid_utf8(s),
        valid_pos(s, cur),
        0 <= n,
        valid_pos(s, cur + n),
    ensures
        valid_utf8(rest_bytes(s, cur as nat)),
        is_char_boundary(rest_bytes(s, cur as nat), n),
{
    let rest = rest_bytes(s, cur as nat);
    valid_utf8_split(s, cur);
    if cur + n < s.len() {
        is_char_boundary_iff_not_is_continuation_byte(s, cur + n);
        is_char_boundary_iff_not_is_continuation_byte(rest, n);
    } else {
        is_char_boundary_start_end_of_seq(rest);
    }
}

/// A boundary of the rest of `s` from `cur` is a boundary of `s`.
pub proof fn lemma_boundary_from_rest(s: Seq<u8>, cur: int, n: int)
    requires
        valid_utf8(s),
        valid_pos(s, cur),
        0 <= n <= s.len() - cur,
        is_char_boundary(rest_bytes(s, cur as nat), n),
    ensures
        valid_pos(s, cur + n),
{
    let rest = rest_bytes(s, cur as nat);
    valid_utf8_split(s, cur);
    if cur + n < s.len() {
        is_char_boundary_iff_not_is_continuation_byte(s, cur + n);
        is_char_boundary_iff_not_is_continuation_byte(rest, n);
    } else {
        is_char_boundary_start_end_of_seq(s);
    }
}

/// Where a valid encoding starts at a boundary, its end is a boundary too.
pub proof fn lemma_valid_prefix_boundary(t: Seq<u8>, k: int)
    requires
        valid_utf8(t),
        0 <= k <= t.len(),
        valid_utf8(t.subrange(0, k)),
    ensures
        is_char_boundary(t, k),
    decreases k,
{
    if k > 0 {
        let a = t.subrange(0, k);
        let w = length_of_first_scalar(t);
        assert(a[0] == t[0]);
        assert(length_of_first_scalar(a) == w);
        let t2 = pop_first_scalar(t);
        assert(pop_first_scalar(a) =~= t2.subrange(0, k - w));
        lemma_valid_prefix_boundary(t2, k - w);
    }
}

/// The bytes of `s` from `cur` are `lit` exactly where the common prefix of the
/// two is all of `lit`; the position after `lit` is then a boundary.
pub proof fn lemma_literal_match(s: Seq<u8>, cur: int, lit: Seq<u8>)
    requires
        valid_utf8(s),
        valid_pos(s, cur),
        valid_utf8(lit),
        common_prefix_len(rest_bytes(s, cur as nat), lit) == lit.len(),
    ensures
        cur + lit.len() <= s.len(),
        s.subrange(cur, cur + lit.len()) == lit,
        valid_pos(s, cur + lit.len()),
{
    let rest = rest_bytes(s, cur as nat);
    lemma_common_prefix(rest, lit);
    assert(rest.subrange(0, lit.len() as int) =~= lit);
    assert(s.subrange(cur, cur + lit.len()) =~= lit);
    valid_utf8_split(s, cur);
    lemma_valid_prefix_boundary(rest, lit.len() as int);
    lemma_boundary_from_rest(s, cur, lit.len() as int);
}

/// The common prefix of `a` and `b` is a prefix of both, and is followed by
/// the end of one of them or by two different bytes.
pub proof fn lemma_common_prefix(a: Seq<u8>, b: Seq<u8>)
    ensures
        common_prefix_len(a, b) <= a.len(),
        common_prefix_len(a, b) <= b.len(),
        forall|j: int| 0 <= j < common_prefix_len(a, b) ==> a[j] == b[j],
        common_prefix_len(a, b) < a.len() && common_prefix_len(a, b) < b.len() ==> a[
            common_prefix_len(a, b) as int
        ] != b[common_prefix_len(a, b) as int],
    decreases a.len(),
{
    if a.len() == 0 || b.len() == 0 || a[0] != b[0] {
    } else {
        lemma_common_prefix(a.drop_first(), b.drop_first());
        let k = common_prefix_len(a.drop_first(), b.drop_first());
        assert forall|j: int| 0 <= j < common_prefix_len(a, b) implies a[j] == b[j] by {
            if j > 0 {
                assert(a.drop_first()[j - 1] == b.drop_first()[j - 1]);
            }
        }
    }
}

/// The common prefix length is the first index where the sequences differ or one ends.
pub proof fn lemma_common_prefix_at(a: Seq<u8>, b: Seq<u8>, i: int)
    requires
        0 <= i <= a.len(),
        i <= b.len(),
        forall|j: int| 0 <= j < i ==> a[j] == b[j],
        i == a.len() || i == b.len() || a[i] != b[i],
    ensures
        common_prefix_len(a, b) == i,
    decreases i,
{
    if i > 0 {
        assert(a[0] == b[0]);
        assert forall|j: int| 0 <= j < i - 1 implies a.drop_first()[j] == b.drop_first()[j] by {
            assert(a[j + 1] == b[j + 1]);
        }
        lemma_common_prefix_at(a.drop_first(), b.drop_first(), i - 1);
    }
}

/// The position after the next character is a text position.
pub proof fn lemma_next_char_boundary(s: Seq<u8>, cur: int)
    requires
        valid_utf8(s),
        valid_pos(s, cur),
        cur < s.len(),
    ensures
        ({
            let rest = rest_bytes(s, cur as nat);
            &&& valid_first_scalar(rest)
            &&& valid_pos(s, cur + length_of_first_scalar(rest))
        }),
{
    let rest = rest_bytes(s, cur as nat);
    valid_utf8_split(s, cur);
    let w = length_of_first_scalar(rest);
    assert(is_char_boundary(rest, w)) by {
        reveal_with_fuel(is_char_boundary, 2);
    }
    lemma_boundary_from_rest(s, cur, w);
}

/// A `str` holds the UTF-8 encoding of its characters, and decodes back to them.
pub proof fn lemma_str_decodes(s: &str)
    ensures
        valid_utf8(s.spec_bytes()),
        decode_utf8(s.spec_bytes()) == s@,
        s@.len() == 0 <==> s.spec_bytes().len() == 0,
{
    encode_utf8_valid_utf8(s@);
    encode_utf8_decode_utf8(s@);
    if s@.len() > 0 {
        encode_utf8_first_scalar(s@);
    }
}

/// The length in bytes of a text in memory fits in `usize`.
pub fn len_fits(s: &str)
    ensures
        s.spec_bytes().len() <= usize::MAX,
{
    let b = s.as_bytes();
    let _ = b.len();
}

/// The width in bytes of the UTF-8 encoding of `c`.
pub fn utf8_width(c: char) -> (n: usize)
    ensures
        n == encode_scalar(c as u32).len(),
        1 <= n <= 4,
{
    let v = c as u32;
    proof {
        char_is_scalar(c);
    }
    if v <= 0x7F {
        1
    } else if v <= 0x7FF {
        2
    } else if v <= 0xFFFF {
        3
    } else {
        4
    }
}

/// The character at the current position of `input`, and its width in bytes.
pub fn next_char<'a>(input: &Input<'a>) -> (r: Option<(char, usize)>)
    requires
        input.wf(),
    ensures
        match spec_next_char(input.bytes(), input.cur as nat) {
            Some((c, w)) => r == Some((c, w as usize)),
            None => r is None,
        },
        r matches Some((_, w)) ==> valid_pos(input.bytes(), input.cur + w),
{
    let (_, rest) = input.src.split_at(input.cur);
    let mut it = rest.chars();
    let c = it.next();
    proof {
        assert(rest.spec_bytes() == rest_bytes(input.bytes(), input.cur as nat));
        lemma_str_decodes(rest);
    }
    match c {
        Some(c) => {
            proof {
                assert(c == rest@[0]);
                encode_utf8_first_scalar(rest@);
                char_u32_cast(c, c as u32);
                lemma_str_decodes(input.src);
                lemma_next_char_boundary(input.bytes(), input.cur as int);
            }
            let w = utf8_width(c);
            Some((c, w))
        },
        None => None,
    }
}

} // verus!
