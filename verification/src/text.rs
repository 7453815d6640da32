//! Text crosses to the host as UTF-16 code units.
use vstd::prelude::*;

verus! {

/// The replacement character that stands for a code unit that is not part of
/// a well-formed UTF-16 sequence.
pub const REPLACEMENT: char = '\u{FFFD}';

/// The UTF-16 code units of one character: one unit below `0x10000`, else a
/// high and a low surrogate.
pub open spec fn char_units(c: char) -> Seq<u16> {
    let v = c as int;
    if v < 0x1_0000 {
        seq![v as u16]
    } else {
        seq![(0xD800 + (v - 0x1_0000) / 0x400) as u16, (0xDC00 + (v - 0x1_0000) % 0x400) as u16]
    }
}

/// The UTF-16 encoding of a text.
pub open spec fn utf16_encode(s: Seq<char>) -> Seq<u16>
    decreases s.len(),
{
    if s.len() == 0 {
        seq![]
    } else {
        char_units(s[0]) + utf16_encode(s.drop_first())
    }
}

pub open spec fn is_surrogate(u: u16) -> bool {
    0xD800 <= u <= 0xDFFF
}

pub open spec fn is_high_surrogate(u: u16) -> bool {
    0xD800 <= u <= 0xDBFF
}

pub open spec fn is_low_surrogate(u: u16) -> bool {
    0xDC00 <= u <= 0xDFFF
}

/// Lossy UTF-16 decoding: a unit outside the surrogate range is its own
/// character, a high surrogate followed by a low one is one character, and
/// every other surrogate unit becomes the replacement character.
pub open spec fn utf16_decode_lossy(u: Seq<u16>) -> Seq<char>
    decreases u.len(),
{
    if u.len() == 0 {
        seq![]
    } else if !is_surrogate(u[0]) {
        seq![u[0] as char] + utf16_decode_lossy(u.drop_first())
    } else if is_high_surrogate(u[0]) && u.len() >= 2 && is_low_surrogate(u[1]) {
        seq![(0x1_0000 + (u[0] - 0xD800) * 0x400 + (u[1] - 0xDC00)) as char]
            + utf16_decode_lossy(u.subrange(2, u.len() as int))
    } else {
        seq![REPLACEMENT] + utf16_decode_lossy(u.drop_first())
    }
}

/// The UTF-16 code units of one character, appended to `units`.
fn push_char_units(units: &mut Vec<u16>, c: char)
    ensures
        final(units)@ == old(units)@ + char_units(c),
{
    let v = c as u32;
    if v < 0x1_0000 {
        units.push(v as u16);
        assert(old(units)@ + char_units(c) =~= old(units)@.push(v as u16));
    } else {
        let w = v - 0x1_0000;
        assert(w / 0x400 < 0x400);
        units.push((0xD800 + w / 0x400) as u16);
        units.push((0xDC00 + w % 0x400) as u16);
        assert(old(units)@ + char_units(c) =~= old(units)@.push((0xD800 + w / 0x400) as u16).push(
            (0xDC00 + w % 0x400) as u16,
        ));
    }
}

/// The UTF-16 code units of `s`, in order.
pub(crate) fn encode_utf16(s: &str) -> (units: Vec<u16>)
    ensures
        units@ == utf16_encode(s@),
{
    let mut units: Vec<u16> = Vec::new();
    for c in it: s.chars()
        invariant
            it.seq() == s@,
            units@ == utf16_encode(s@.take(it.index() as int)),
    {
        push_char_units(&mut units, c);
        proof {
            let done = s@.take(it.index() as int);
            lemma_encode_concat(done, seq![c]);
            lemma_encode_one(c);
            assert(done + seq![c] =~= s@.take(it.index() + 1));
        }
    }
    assert(s@.take(s@.len() as int) =~= s@);
    units
}

/// `String::from_utf16_lossy`: decodes the units, putting the replacement
/// character for every unpaired surrogate.
#[verifier::external_body]
pub(crate) fn decode_utf16_lossy(units: &[u16]) -> (s: String)
    ensures
        s@ == utf16_decode_lossy(units@),
{
    String::from_utf16_lossy(units)
}

/// Whether `t` reads exactly `lit`.
pub(crate) fn text_is(t: &String, lit: &str) -> (r: bool)
    ensures
        r == (t@ == lit@),
{
    let l = String::from_str(lit);
    *t == l
}

/// Encoding a concatenation encodes each part in turn.
pub proof fn lemma_encode_concat(a: Seq<char>, b: Seq<char>)
    ensures
        utf16_encode(a + b) == utf16_encode(a) + utf16_encode(b),
    decreases a.len(),
{
    if a.len() == 0 {
        assert(a + b =~= b);
    } else {
        lemma_encode_concat(a.drop_first(), b);
        assert((a + b).drop_first() =~= a.drop_first() + b);
        assert((a + b)[0] == a[0]);
    }
}

/// Decoding the units of one character, followed by any units, gives the
/// character followed by the decoding of the rest.
proof fn lemma_decode_char_units(c: char, rest: Seq<u16>)
    ensures
        utf16_decode_lossy(char_units(c) + rest) == seq![c] + utf16_decode_lossy(rest),
{
    let v = c as int;
    let u = char_units(c) + rest;
    if v < 0x1_0000 {
        assert(u[0] == v as u16);
        assert(u.drop_first() =~= rest);
        assert((u[0] as char) == c);
    } else {
        let w = v - 0x1_0000;
        let hi = (0xD800 + w / 0x400) as u16;
        let lo = (0xDC00 + w % 0x400) as u16;
        assert(w / 0x400 < 0x400);
        assert(u[0] == hi && u[1] == lo);
        assert(u.subrange(2, u.len() as int) =~= rest);
        assert(0x1_0000 + (hi - 0xD800) * 0x400 + (lo - 0xDC00) == v);
    }
}

/// Decoding the UTF-16 encoding of a text gives the text back: text sent to
/// the host as code units and read back is unchanged.
pub proof fn lemma_decode_encode(s: Seq<char>)
    ensures
        utf16_decode_lossy(utf16_encode(s)) == s,
    decreases s.len(),
{
    if s.len() > 0 {
        lemma_decode_encode(s.drop_first());
        lemma_decode_char_units(s[0], utf16_encode(s.drop_first()));
        assert(seq![s[0]] + s.drop_first() =~= s);
    }
}

proof fn lemma_encode_one(c: char)
    ensures
        utf16_encode(seq![c]) == char_units(c),
{
    let one = seq![c];
    assert(one.drop_first() =~= Seq::<char>::empty());
    assert(utf16_encode(one.drop_first()) =~= Seq::<u16>::empty());
    assert(char_units(c) + Seq::<u16>::empty() =~= char_units(c));
}

/// Decoding keeps the length in code units: the text read from `n` units
/// encodes again to `n` units (an unpaired surrogate becomes the
/// replacement character, which takes one unit).
pub proof fn lemma_decode_keeps_unit_count(u: Seq<u16>)
    ensures
        utf16_encode(utf16_decode_lossy(u)).len() == u.len(),
    decreases u.len(),
{
    if u.len() > 0 {
        let d = utf16_decode_lossy(u);
        if !is_surrogate(u[0]) {
            lemma_decode_keeps_unit_count(u.drop_first());
            let c = u[0] as char;
            lemma_encode_concat(seq![c], utf16_decode_lossy(u.drop_first()));
            lemma_encode_one(c);
        } else if is_high_surrogate(u[0]) && u.len() >= 2 && is_low_surrogate(u[1]) {
            let rest = u.subrange(2, u.len() as int);
            lemma_decode_keeps_unit_count(rest);
            let c = (0x1_0000 + (u[0] - 0xD800) * 0x400 + (u[1] - 0xDC00)) as char;
            lemma_encode_concat(seq![c], utf16_decode_lossy(rest));
            lemma_encode_one(c);
        } else {
            lemma_decode_keeps_unit_count(u.drop_first());
            lemma_encode_concat(seq![REPLACEMENT], utf16_decode_lossy(u.drop_first()));
            lemma_encode_one(REPLACEMENT);
        }
    }
}

/// Units with no surrogate among them decode to one character per unit,
/// each the unit's code point, with nothing dropped.
pub proof fn lemma_decode_plain(u: Seq<u16>)
    requires
        forall|i: int| 0 <= i < u.len() ==> !is_surrogate(#[trigger] u[i]),
    ensures
        utf16_decode_lossy(u).len() == u.len(),
        forall|i: int| 0 <= i < u.len() ==> #[trigger] utf16_decode_lossy(u)[i] as int == u[i] as int,
    decreases u.len(),
{
    if u.len() > 0 {
        let rest = u.drop_first();
        assert forall|i: int| 0 <= i < rest.len() implies !is_surrogate(#[trigger] rest[i]) by {
            assert(rest[i] == u[i + 1]);
        }
        lemma_decode_plain(rest);
        let d = utf16_decode_lossy(u);
        assert(d == seq![u[0] as char] + utf16_decode_lossy(rest));
        assert forall|i: int| 0 <= i < u.len() implies #[trigger] d[i] as int == u[i] as int by {
            if i > 0 {
                assert(d[i] == utf16_decode_lossy(rest)[i - 1]);
                assert(rest[i - 1] == u[i]);
            }
        }
    }
}

} // verus!
