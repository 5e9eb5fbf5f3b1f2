//! Tags: four-byte identifiers for tables, scripts and languages, packed
//! big-endian from up to four ASCII, non-control characters and padded on
//! the right with spaces.
use vstd::prelude::*;
use crate::ParseError;
use crate::render::push_char;

verus! {

/// A character that may stand in a tag: ASCII and not a control character.
pub open spec fn is_tag_char(c: char) -> bool {
    0x20 <= c as u32 <= 0x7e
}

/// A string that encodes as a tag: at most four characters, all of them
/// tag characters.
pub open spec fn valid_tag_chars(s: Seq<char>) -> bool {
    s.len() <= 4 && forall|i: int| 0 <= i < s.len() ==> is_tag_char(#[trigger] s[i])
}

/// The string padded on the right with spaces to exactly four characters.
pub open spec fn padded4(s: Seq<char>) -> Seq<char>
    recommends
        s.len() <= 4,
{
    s + Seq::new((4 - s.len()) as nat, |i: int| ' ')
}

/// The big-endian packing of a prefix of `k` characters.
pub open spec fn tag_prefix_val(s: Seq<char>, k: int) -> int
    decreases k,
{
    if k <= 0 {
        0
    } else {
        tag_prefix_val(s, k - 1) * 256 + (s[k - 1] as u32)
    }
}

/// The tag encoded by a string: its four space-padded characters packed
/// big-endian into one 32-bit value.
pub open spec fn tag_of(s: Seq<char>) -> u32
    recommends
        valid_tag_chars(s),
{
    tag_prefix_val(padded4(s), 4) as u32
}

/// The four characters a tag renders as, one per byte, most significant
/// byte first.
pub open spec fn tag_chars(t: u32) -> Seq<char> {
    seq![
        (((t as int) / 0x1000000) as u8) as char,
        ((((t as int) / 0x10000) % 256) as u8) as char,
        ((((t as int) / 0x100) % 256) as u8) as char,
        (((t as int) % 256) as u8) as char,
    ]
}

proof fn lemma_prefix_val_eq(s1: Seq<char>, s2: Seq<char>, k: int)
    requires
        0 <= k <= s1.len(),
        k <= s2.len(),
        forall|j: int| 0 <= j < k ==> s1[j] == s2[j],
    ensures
        tag_prefix_val(s1, k) == tag_prefix_val(s2, k),
    decreases k,
{
    if k > 0 {
        lemma_prefix_val_eq(s1, s2, k - 1);
    }
}

proof fn lemma_prefix_val_bound(s: Seq<char>, k: int)
    requires
        0 <= k <= s.len(),
        forall|j: int| 0 <= j < k ==> is_tag_char(#[trigger] s[j]),
    ensures
        0 <= tag_prefix_val(s, k),
        k == 0 ==> tag_prefix_val(s, k) == 0,
        k == 1 ==> tag_prefix_val(s, k) < 0x100,
        k == 2 ==> tag_prefix_val(s, k) < 0x10000,
        k == 3 ==> tag_prefix_val(s, k) < 0x1000000,
        k == 4 ==> tag_prefix_val(s, k) < 0x100000000,
    decreases k,
{
    if k > 0 {
        lemma_prefix_val_bound(s, k - 1);
    }
}

/// Encodes a string as a tag. Succeeds exactly on the valid tag strings:
/// at most four characters, every one of them ASCII and not a control
/// character; anything else is a bad value.
pub fn tag_from_string(s: &str) -> (r: Result<u32, ParseError>)
    ensures
        valid_tag_chars(s@) ==> r == Ok::<u32, ParseError>(tag_of(s@)),
        !valid_tag_chars(s@) ==> r == Err::<u32, ParseError>(ParseError::BadValue),
{
    let n = s.unicode_len();
    if n > 4 {
        return Err(ParseError::BadValue);
    }
    let mut tag: u32 = 0;
    let mut i: usize = 0;
    while i < n
        invariant
            n == s@.len(),
            n <= 4,
            0 <= i <= n,
            forall|j: int| 0 <= j < i ==> is_tag_char(#[trigger] s@[j]),
            tag == tag_prefix_val(s@, i as int),
        decreases n - i,
    {
        let c = s.get_char(i);
        let u = c as u32;
        if u < 0x20 || u > 0x7e {
            return Err(ParseError::BadValue);
        }
        proof {
            lemma_prefix_val_bound(s@, i as int);
        }
        tag = tag * 256 + u;
        i = i + 1;
    }
    proof {
        lemma_prefix_val_eq(s@, padded4(s@), n as int);
    }
    let mut count = n;
    while count < 4
        invariant
            n == s@.len(),
            n <= 4,
            n <= count <= 4,
            forall|j: int| 0 <= j < n ==> is_tag_char(#[trigger] s@[j]),
            tag == tag_prefix_val(padded4(s@), count as int),
        decreases 4 - count,
    {
        proof {
            assert(forall|j: int| 0 <= j < padded4(s@).len() ==> is_tag_char(
                #[trigger] padded4(s@)[j],
            ));
            lemma_prefix_val_bound(padded4(s@), count as int);
        }
        tag = tag * 256 + 0x20;
        count = count + 1;
    }
    Ok(tag)
}

/// Renders a tag as its four characters, one per byte, most significant
/// byte first.
pub fn tag_to_string(t: u32) -> (r: String)
    ensures
        r@ == tag_chars(t),
        r@.len() == 4,
{
    let mut s = String::new();
    push_char(&mut s, ((t >> 24) as u8) as char);
    push_char(&mut s, ((t >> 16) as u8) as char);
    push_char(&mut s, ((t >> 8) as u8) as char);
    push_char(&mut s, (t as u8) as char);
    proof {
        assert((t >> 24) as u8 == ((t as int) / 0x1000000) as u8) by (bit_vector);
        assert((t >> 16) as u8 == (((t as int) / 0x10000) % 256) as u8) by (bit_vector);
        assert((t >> 8) as u8 == (((t as int) / 0x100) % 256) as u8) by (bit_vector);
        assert(t as u8 == ((t as int) % 256) as u8) by (bit_vector);
        assert(s@ =~= tag_chars(t));
    }
    s
}

/// Encoding a valid tag string and rendering the resulting tag gives the
/// original characters left-justified in four columns, padded on the right
/// with spaces.
pub proof fn lemma_tag_round_trip(s: Seq<char>)
    requires
        valid_tag_chars(s),
    ensures
        tag_chars(tag_of(s)) == padded4(s),
{
    let p = padded4(s);
    assert(p.len() == 4);
    assert(forall|j: int| 0 <= j < p.len() ==> is_tag_char(#[trigger] p[j]));
    let c0 = p[0] as u32 as int;
    let c1 = p[1] as u32 as int;
    let c2 = p[2] as u32 as int;
    let c3 = p[3] as u32 as int;
    lemma_prefix_val_bound(p, 4);
    let t = tag_prefix_val(p, 4);
    assert(tag_prefix_val(p, 0) == 0);
    assert(tag_prefix_val(p, 1) == c0);
    assert(tag_prefix_val(p, 2) == c0 * 256 + c1);
    assert(tag_prefix_val(p, 3) == (c0 * 256 + c1) * 256 + c2);
    assert(t == ((c0 * 256 + c1) * 256 + c2) * 256 + c3);
    vstd::arithmetic::div_mod::lemma_fundamental_div_mod_converse(
        t,
        0x1000000,
        c0,
        c1 * 0x10000 + c2 * 0x100 + c3,
    );
    vstd::arithmetic::div_mod::lemma_fundamental_div_mod_converse(
        t,
        0x10000,
        c0 * 256 + c1,
        c2 * 0x100 + c3,
    );
    vstd::arithmetic::div_mod::lemma_fundamental_div_mod_converse(t, 0x100, tag_prefix_val(p, 3), c3);
    assert((c0 * 256 + c1) % 256 == c1) by (nonlinear_arith)
        requires 0 <= c1 < 256;
    assert((tag_prefix_val(p, 3)) % 256 == c2) by (nonlinear_arith)
        requires tag_prefix_val(p, 3) == (c0 * 256 + c1) * 256 + c2 && 0 <= c2 < 256;
    let tv = tag_of(s) as int;
    assert(tv == t);
    assert(tv / 0x1000000 == c0);
    assert((tv / 0x10000) % 256 == c1);
    assert((tv / 0x100) % 256 == c2);
    assert(tv % 256 == c3);
    vstd::utf8::char_u32_cast(p[0], p[0] as u32);
    vstd::utf8::char_u32_cast(p[1], p[1] as u32);
    vstd::utf8::char_u32_cast(p[2], p[2] as u32);
    vstd::utf8::char_u32_cast(p[3], p[3] as u32);
    assert(((tv / 0x1000000) as u8) as char == p[0]);
    assert((((tv / 0x10000) % 256) as u8) as char == p[1]);
    assert((((tv / 0x100) % 256) as u8) as char == p[2]);
    assert(((tv % 256) as u8) as char == p[3]);
    assert(tag_chars(tag_of(s)) =~= p);
}

} // verus!
