use vstd::prelude::*;

verus! {

/// Whether a UTF-16 code unit is half of a surrogate pair (0xD800..=0xDFFF).
pub open spec fn is_surrogate(unit: u16) -> bool {
    0xD800 <= unit <= 0xDFFF
}

/// Whether a code unit is a leading (high) surrogate (0xD800..=0xDBFF).
pub open spec fn is_high_surrogate(unit: u16) -> bool {
    0xD800 <= unit <= 0xDBFF
}

/// Whether a code unit is a trailing (low) surrogate (0xDC00..=0xDFFF).
pub open spec fn is_low_surrogate(unit: u16) -> bool {
    0xDC00 <= unit <= 0xDFFF
}

/// The code point that a high and a low surrogate encode together.
pub open spec fn surrogate_pair_char(high: u16, low: u16) -> char {
    (0x10000 + (high - 0xD800) * 0x400 + (low - 0xDC00)) as char
}

/// Lossy UTF-16 decoding, from the front: a unit that is not a surrogate is
/// the character with that code point; a high surrogate followed by a low
/// one is the character the pair encodes; any other surrogate is replaced by
/// U+FFFD and decoding goes on with the next unit.
pub open spec fn utf16_lossy_decode(units: Seq<u16>) -> Seq<char>
    decreases units.len(),
{
    if units.len() == 0 {
        Seq::empty()
    } else if !is_surrogate(units[0]) {
        seq![units[0] as char] + utf16_lossy_decode(units.drop_first())
    } else if is_high_surrogate(units[0]) && units.len() >= 2 && is_low_surrogate(units[1]) {
        seq![surrogate_pair_char(units[0], units[1])] + utf16_lossy_decode(units.skip(2))
    } else {
        seq!['\u{FFFD}'] + utf16_lossy_decode(units.drop_first())
    }
}

/// Calls `String::from_utf16_lossy`, which decodes UTF-16 and replaces
/// invalid data (unpaired surrogates) with U+FFFD, as `utf16_lossy_decode`
/// states.
#[verifier::external_body]
fn string_from_utf16_lossy(units: &[u16]) -> (s: String)
    ensures
        s@ == utf16_lossy_decode(units@),
{
    String::from_utf16_lossy(units)
}

/// Decoding gives at most one character per unit, gives a NUL only for a 0
/// unit, and where no unit is a surrogate reads each unit as the character
/// with that code point.
pub proof fn lemma_decode_facts(units: Seq<u16>)
    ensures
        utf16_lossy_decode(units).len() <= units.len(),
        (forall|k: int| 0 <= k < utf16_lossy_decode(units).len() && #[trigger] utf16_lossy_decode(units)[k] == '\0'
            ==> exists|j: int| 0 <= j < units.len() && #[trigger] units[j] == 0),
        (forall|i: int| 0 <= i < units.len() ==> !is_surrogate(#[trigger] units[i])) ==> utf16_lossy_decode(units)
            == units.map_values(|u: u16| u as char),
    decreases units.len(),
{
    if units.len() > 0 {
        let d = utf16_lossy_decode(units);
        if !is_surrogate(units[0]) || !(is_high_surrogate(units[0]) && units.len() >= 2 && is_low_surrogate(units[1])) {
            let rest = units.drop_first();
            lemma_decode_facts(rest);
            let dr = utf16_lossy_decode(rest);
            assert forall|k: int| 0 <= k < d.len() && #[trigger] d[k] == '\0' implies exists|j: int| 0 <= j < units.len() && #[trigger] units[j] == 0 by {
                if k == 0 {
                    if !is_surrogate(units[0]) {
                        assert(units[0] == 0);
                    } else {
                        assert(d[0] == '\u{FFFD}');
                    }
                } else {
                    assert(dr[k - 1] == '\0');
                    let j = choose|j: int| 0 <= j < rest.len() && #[trigger] rest[j] == 0;
                    assert(units[j + 1] == 0);
                }
            }
            if forall|i: int| 0 <= i < units.len() ==> !is_surrogate(#[trigger] units[i]) {
                assert forall|i: int| 0 <= i < rest.len() implies !is_surrogate(#[trigger] rest[i]) by {
                    assert(rest[i] == units[i + 1]);
                }
                assert(!is_surrogate(units[0]));
                assert(d =~= units.map_values(|u: u16| u as char));
            }
        } else {
            let rest = units.skip(2);
            lemma_decode_facts(rest);
            let dr = utf16_lossy_decode(rest);
            let c = surrogate_pair_char(units[0], units[1]);
            assert(c as int >= 0x10000);
            assert forall|k: int| 0 <= k < d.len() && #[trigger] d[k] == '\0' implies exists|j: int| 0 <= j < units.len() && #[trigger] units[j] == 0 by {
                if k == 0 {
                    assert(d[0] == c);
                } else {
                    assert(dr[k - 1] == '\0');
                    let j = choose|j: int| 0 <= j < rest.len() && #[trigger] rest[j] == 0;
                    assert(units[j + 2] == 0);
                }
            }
            assert(is_surrogate(units[0]));
        }
    }
}

/// Number of code units before the first NUL, or all of them if there is none.
pub open spec fn cstr_len(units: Seq<u16>) -> nat
    decreases units.len(),
{
    if units.len() == 0 {
        0
    } else if units[0] == 0 {
        0
    } else {
        1 + cstr_len(units.drop_first())
    }
}

/// The text of a NUL-terminated UTF-16 buffer as UEFI hands it over.
#[verifier::opaque]
pub open spec fn utf16_cstr_chars(units: Seq<u16>) -> Seq<char> {
    utf16_lossy_decode(units.take(cstr_len(units) as int))
}

proof fn lemma_cstr_len_first_zero(units: Seq<u16>, k: int)
    requires
        0 <= k <= units.len(),
        forall|j: int| 0 <= j < k ==> units[j] != 0,
        k == units.len() || units[k] == 0,
    ensures
        cstr_len(units) == k,
    decreases k,
{
    if k > 0 {
        lemma_cstr_len_first_zero(units.drop_first(), k - 1);
    }
}

/// Converts a NUL-terminated UTF-16 string from UEFI into a `String`: the code
/// units before the first 0 (all of them when there is none) are decoded, and
/// invalid UTF-16 becomes U+FFFD.
pub fn utf16_cstr_to_string(buf: &[u16]) -> (s: String)
    ensures
        s@ == utf16_cstr_chars(buf@),
        (forall|i: int| 0 <= i < cstr_len(buf@) ==> !is_surrogate(#[trigger] buf@[i])) ==> s@
            == buf@.take(cstr_len(buf@) as int).map_values(|u: u16| u as char),
{
    let mut len: usize = 0;
    while len < buf.len()
        invariant
            len <= buf@.len(),
            forall|j: int| 0 <= j < len ==> buf@[j] != 0,
        ensures
            len <= buf@.len(),
            forall|j: int| 0 <= j < len ==> buf@[j] != 0,
            len == buf@.len() || buf@[len as int] == 0,
        decreases buf@.len() - len,
    {
        if buf[len] == 0 {
            break;
        }
        len = len + 1;
    }
    proof {
        reveal(utf16_cstr_chars);
        lemma_cstr_len_first_zero(buf@, len as int);
        lemma_decode_facts(buf@.take(len as int));
        assert forall|i: int| 0 <= i < len && !is_surrogate(#[trigger] buf@[i]) implies !is_surrogate(buf@.take(len as int)[i]) by {}
    }
    let units = vstd::slice::slice_subrange(buf, 0, len);
    assert(units@ =~= buf@.take(len as int));
    string_from_utf16_lossy(units)
}

/// The string ends at the first NUL: what follows it is never read, and with
/// no NUL the whole buffer is the string.
pub proof fn lemma_cstr_stops_at_nul(head: Seq<u16>, tail1: Seq<u16>, tail2: Seq<u16>)
    requires
        forall|i: int| 0 <= i < head.len() ==> #[trigger] head[i] != 0,
    ensures
        cstr_len(head + seq![0u16] + tail1) == head.len(),
        utf16_cstr_chars(head + seq![0u16] + tail1) == utf16_cstr_chars(head + seq![0u16] + tail2),
        cstr_len(head) == head.len(),
        utf16_cstr_chars(head) == utf16_lossy_decode(head),
{
    reveal(utf16_cstr_chars);
    let a = head + seq![0u16] + tail1;
    let b = head + seq![0u16] + tail2;
    lemma_cstr_len_first_zero(a, head.len() as int);
    lemma_cstr_len_first_zero(b, head.len() as int);
    lemma_cstr_len_first_zero(head, head.len() as int);
    assert(a.take(head.len() as int) =~= head);
    assert(b.take(head.len() as int) =~= head);
    assert(head.take(head.len() as int) =~= head);
}

/// UTF-16 encoding of a character: one unit holding its code point below
/// U+10000, else a high and a low surrogate that split the code point less
/// 0x10000 into its upper and lower ten bits.
pub open spec fn utf16_encode_char(c: char) -> Seq<u16> {
    if (c as int) < 0x10000 {
        seq![c as u16]
    } else {
        seq![
            (0xD800 + (c as int - 0x10000) / 0x400) as u16,
            (0xDC00 + (c as int - 0x10000) % 0x400) as u16,
        ]
    }
}

/// UTF-16 encoding of a text, as `str::encode_utf16` gives it.
pub open spec fn utf16_encode(s: Seq<char>) -> Seq<u16>
    decreases s.len(),
{
    if s.len() == 0 {
        Seq::empty()
    } else {
        utf16_encode_char(s[0]) + utf16_encode(s.drop_first())
    }
}

/// Decoding undoes encoding, and the encoding of a text without NUL holds no
/// 0 unit.
proof fn lemma_encode_decode(s: Seq<char>)
    ensures
        utf16_lossy_decode(utf16_encode(s)) == s,
        (forall|k: int| 0 <= k < s.len() ==> #[trigger] s[k] != '\0') ==> (forall|j: int|
            0 <= j < utf16_encode(s).len() ==> #[trigger] utf16_encode(s)[j] != 0),
    decreases s.len(),
{
    if s.len() > 0 {
        let c = s[0];
        let rest = s.drop_first();
        lemma_encode_decode(rest);
        let e = utf16_encode(s);
        let ec = utf16_encode_char(c);
        let er = utf16_encode(rest);
        assert(e == ec + er);
        vstd::utf8::char_is_scalar(c);
        vstd::utf8::char_u32_cast(c, c as u32);
        assert(c as u32 as int == c as int);
        if (c as int) < 0x10000 {
            let u = c as u16;
            assert(u as int == c as int);
            assert(!is_surrogate(u));
            assert(e[0] == u);
            assert(e.drop_first() =~= er);
            assert(u as char == (c as u32) as char);
            assert(utf16_lossy_decode(e) =~= s);
        } else {
            let hi = (0xD800 + (c as int - 0x10000) / 0x400) as u16;
            let lo = (0xDC00 + (c as int - 0x10000) % 0x400) as u16;
            assert(c as int <= 0x10FFFF);
            assert(surrogate_pair_char(hi, lo) as int == c as int);
            assert(e[0] == hi && e[1] == lo);
            assert(is_high_surrogate(hi) && is_low_surrogate(lo));
            assert(surrogate_pair_char(hi, lo) == c);
            assert(e.skip(2) =~= er);
            assert(utf16_lossy_decode(e) =~= s);
        }
        if forall|k: int| 0 <= k < s.len() ==> #[trigger] s[k] != '\0' {
            assert forall|k: int| 0 <= k < rest.len() implies #[trigger] rest[k] != '\0' by {
                assert(rest[k] == s[k + 1]);
            }
            assert(s[0] != '\0');
            assert forall|j: int| 0 <= j < e.len() implies #[trigger] e[j] != 0 by {
                if j >= ec.len() {
                    assert(e[j] == er[j - ec.len()]);
                }
            }
        }
    } else {
        assert(utf16_lossy_decode(utf16_encode(s)) =~= s);
    }
}

/// A text without NUL, encoded as UTF-16, comes back unchanged, whether the
/// NUL terminator (and anything after it) follows or not.
pub proof fn lemma_cstr_roundtrip(s: Seq<char>, tail: Seq<u16>)
    requires
        forall|i: int| 0 <= i < s.len() ==> #[trigger] s[i] != '\0',
    ensures
        utf16_cstr_chars(utf16_encode(s) + seq![0u16] + tail) == s,
        utf16_cstr_chars(utf16_encode(s)) == s,
{
    let e = utf16_encode(s);
    lemma_encode_decode(s);
    lemma_cstr_stops_at_nul(e, tail, tail);
    reveal(utf16_cstr_chars);
    assert((e + seq![0u16] + tail).take(e.len() as int) =~= e);
}

} // verus!
