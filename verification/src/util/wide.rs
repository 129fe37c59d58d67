//! Wide (UTF-16) text as the hosted runtime exchanges it.

use vstd::prelude::*;

verus! {

/// Whether a code unit lies in the surrogate range.
pub open spec fn is_surrogate(unit: u16) -> bool {
    0xD800 <= unit <= 0xDFFF
}

/// Whether a code unit is a leading (high) surrogate.
pub open spec fn is_high_surrogate(unit: u16) -> bool {
    0xD800 <= unit <= 0xDBFF
}

/// Whether a code unit is a trailing (low) surrogate.
pub open spec fn is_low_surrogate(unit: u16) -> bool {
    0xDC00 <= unit <= 0xDFFF
}

/// The UTF-16 code units of one character: itself below `0x10000`, a
/// surrogate pair above.
pub open spec fn char_units(c: char) -> Seq<u16> {
    let cp = c as u32;
    if cp < 0x10000 {
        seq![cp as u16]
    } else {
        seq![
            (0xD800 + (cp - 0x10000) / 0x400) as u16,
            (0xDC00 + (cp - 0x10000) % 0x400) as u16,
        ]
    }
}

/// The UTF-16 encoding of a text: the units of its characters, in order.
pub open spec fn encode_utf16(text: Seq<char>) -> Seq<u16>
    decreases text.len(),
{
    if text.len() == 0 {
        Seq::empty()
    } else {
        encode_utf16(text.drop_last()) + char_units(text.last())
    }
}

/// Encoding a text that ends in `c` appends the units of `c` to the encoding
/// of what stands before it.
pub proof fn lemma_encode_push(text: Seq<char>, c: char)
    ensures
        encode_utf16(text.push(c)) == encode_utf16(text) + char_units(c),
{
    assert(text.push(c).drop_last() == text);
}

/// Encodes a text as UTF-16, without a terminator.
pub fn encode_wide(text: &str) -> (units: Vec<u16>)
    ensures
        units@ == encode_utf16(text@),
{
    let mut units: Vec<u16> = Vec::new();
    for c in it: text.chars()
        invariant
            it.seq() == text@,
            units@ == encode_utf16(text@.take(it.index() as int)),
    {
        proof {
            let done = text@.take(it.index() as int);
            assert(text@.take(it.index() + 1) == done.push(c));
            lemma_encode_push(done, c);
        }
        let cp: u32 = c as u32;
        if cp < 0x10000 {
            units.push(cp as u16);
        } else {
            let rest: u32 = cp - 0x10000;
            units.push((0xD800 + rest / 0x400) as u16);
            units.push((0xDC00 + rest % 0x400) as u16);
        }
    }
    assert(text@.take(text@.len() as int) == text@);
    units
}

/// Encodes a text as UTF-16 and closes it with the terminator that native
/// text carries.
pub fn encode_wide_nul(text: &str) -> (units: Vec<u16>)
    ensures
        units@ == encode_utf16(text@).push(0u16),
{
    let mut units = encode_wide(text);
    units.push(0);
    units
}

/// The character that a well-formed surrogate pair stands for.
pub open spec fn pair_char(high: u16, low: u16) -> char {
    (0x10000 + (high - 0xD800) * 0x400 + (low - 0xDC00)) as char
}

/// UTF-16 decoding that never fails: a unit outside the surrogate range is
/// its own character, a high surrogate followed by a low one is the character
/// of the pair, and every other surrogate becomes one U+FFFD.
pub open spec fn decode_utf16_lossy(units: Seq<u16>) -> Seq<char>
    decreases units.len(),
{
    if units.len() == 0 {
        Seq::empty()
    } else if !is_surrogate(units[0]) {
        seq![units[0] as char] + decode_utf16_lossy(units.skip(1))
    } else if is_high_surrogate(units[0]) && units.len() >= 2 && is_low_surrogate(units[1]) {
        seq![pair_char(units[0], units[1])] + decode_utf16_lossy(units.skip(2))
    } else {
        seq!['\u{FFFD}'] + decode_utf16_lossy(units.skip(1))
    }
}

/// The units of a buffer up to, and without, its first zero unit; all of them
/// where there is none.
pub open spec fn until_nul(units: Seq<u16>) -> Seq<u16>
    decreases units.len(),
{
    if units.len() == 0 || units[0] == 0 {
        Seq::empty()
    } else {
        seq![units[0]] + until_nul(units.skip(1))
    }
}

/// Decodes wide text with `widestring::U16Str::to_string_lossy`.
///
/// Trusted: the result is claimed to be the lossy UTF-16 decoding of the
/// units as `decode_utf16_lossy` defines it, one U+FFFD for each unpaired
/// surrogate.
#[verifier::external_body]
pub(crate) fn wide_to_string_lossy(units: &Vec<u16>) -> (text: String)
    ensures
        text@ == decode_utf16_lossy(units@),
{
    widestring::U16Str::from_slice(units.as_slice()).to_string_lossy()
}

/// The part of a native buffer that holds text: the first `len` units (all of
/// them if the buffer is shorter), cut before the first terminator.
pub fn text_units(buffer: &Vec<u16>, len: usize) -> (units: Vec<u16>)
    ensures
        units@ == until_nul(
            buffer@.take(
                if len <= buffer@.len() {
                    len as int
                } else {
                    buffer@.len() as int
                },
            ),
        ),
{
    let end: usize = if len <= buffer.len() {
        len
    } else {
        buffer.len()
    };
    let ghost window = buffer@.take(end as int);
    let mut units: Vec<u16> = Vec::new();
    let mut i: usize = 0;
    proof {
        assert(window.skip(0) == window);
        assert(Seq::<u16>::empty() + until_nul(window) == until_nul(window));
    }
    while i < end && buffer[i] != 0
        invariant
            i <= end <= buffer@.len(),
            window == buffer@.take(end as int),
            units@ + until_nul(window.skip(i as int)) == until_nul(window),
        decreases end - i,
    {
        proof {
            let rest = window.skip(i as int);
            assert(rest[0] == buffer@[i as int]);
            assert(rest.skip(1) == window.skip(i + 1));
            assert(units@.push(buffer@[i as int]) + until_nul(window.skip(i + 1))
                == units@ + (seq![rest[0]] + until_nul(rest.skip(1))));
        }
        units.push(buffer[i]);
        i += 1;
    }
    proof {
        let rest = window.skip(i as int);
        if i < end {
            assert(rest[0] == buffer@[i as int]);
        }
        assert(until_nul(rest) == Seq::<u16>::empty());
        assert(units@ + Seq::<u16>::empty() == units@);
    }
    units
}

/// A wide string that the hosted runtime allocated, as the native side read
/// it: the address it stands at and its units. The address zero is the null
/// pointer, which stands for no string.
#[derive(Debug, PartialEq, Eq)]
pub struct HostString {
    pub address: usize,
    pub units: Vec<u16>,
}

impl HostString {
    /// The null pointer: no string.
    pub fn null() -> (s: HostString)
        ensures
            s.address == 0,
            s.units@ == Seq::<u16>::empty(),
    {
        HostString { address: 0, units: Vec::new() }
    }

    /// Whether this is the null pointer.
    pub open spec fn spec_is_null(&self) -> bool {
        self.address == 0
    }

    /// Whether this is the null pointer.
    #[verifier::when_used_as_spec(spec_is_null)]
    pub fn is_null(&self) -> (null: bool)
        ensures
            null == self.spec_is_null(),
    {
        self.address == 0
    }

    /// The text that a string stands for: the lossy decoding of its units up
    /// to the first terminator.
    pub open spec fn text(&self) -> Seq<char> {
        decode_utf16_lossy(until_nul(self.units@))
    }
}

/// Reads a runtime-owned wide string: nothing for the null pointer, else the
/// text it stands for.
pub fn parse_hstr_wide(s: &HostString) -> (text: Option<String>)
    ensures
        text is None <==> s.spec_is_null(),
        text is Some ==> text->Some_0@ == s.text(),
{
    if s.is_null() {
        None
    } else {
        let units = text_units(&s.units, s.units.len());
        assert(s.units@.take(s.units@.len() as int) == s.units@);
        Some(wide_to_string_lossy(&units))
    }
}

/// Encoding distributes over concatenation.
pub proof fn lemma_encode_concat(a: Seq<char>, b: Seq<char>)
    ensures
        encode_utf16(a + b) == encode_utf16(a) + encode_utf16(b),
    decreases b.len(),
{
    if b.len() == 0 {
        assert(a + b == a);
        assert(encode_utf16(a) + encode_utf16(b) == encode_utf16(a));
    } else {
        assert((a + b).drop_last() == a + b.drop_last());
        assert((a + b).last() == b.last());
        lemma_encode_concat(a, b.drop_last());
        assert((encode_utf16(a) + encode_utf16(b.drop_last())) + char_units(b.last())
            == encode_utf16(a) + (encode_utf16(b.drop_last()) + char_units(b.last())));
    }
}

/// Decoding the units of one character in front of any units gives that
/// character in front of their decoding.
pub proof fn lemma_decode_char_units(c: char, rest: Seq<u16>)
    ensures
        decode_utf16_lossy(char_units(c) + rest) == seq![c] + decode_utf16_lossy(rest),
{
    let units = char_units(c) + rest;
    let cp = c as u32;
    if cp < 0x10000 {
        assert(units[0] == cp as u16);
        assert(!is_surrogate(units[0]));
        assert(units[0] as char == c);
        assert(units.skip(1) == rest);
    } else {
        let high = (0xD800 + (cp - 0x10000) / 0x400) as u16;
        let low = (0xDC00 + (cp - 0x10000) % 0x400) as u16;
        assert(units[0] == high && units[1] == low);
        assert(is_high_surrogate(high) && is_low_surrogate(low));
        assert(pair_char(high, low) == c);
        assert(units.skip(2) == rest);
    }
}

/// Round trip: the lossy decoding of an encoded text is the text itself.
pub proof fn lemma_decode_encode(text: Seq<char>)
    ensures
        decode_utf16_lossy(encode_utf16(text)) == text,
    decreases text.len(),
{
    if text.len() == 0 {
        assert(decode_utf16_lossy(encode_utf16(text)) == Seq::<char>::empty());
    } else {
        let first = seq![text[0]];
        let tail = text.skip(1);
        assert(text == first + tail);
        lemma_encode_concat(first, tail);
        assert(first.drop_last() == Seq::<char>::empty());
        assert(first.last() == text[0]);
        assert(encode_utf16(first.drop_last()) == Seq::<u16>::empty());
        assert(encode_utf16(first) == Seq::<u16>::empty() + char_units(text[0]));
        assert(Seq::<u16>::empty() + char_units(text[0]) == char_units(text[0]));
        lemma_decode_char_units(text[0], encode_utf16(tail));
        lemma_decode_encode(tail);
    }
}

/// Round trip through native text: what is encoded with its terminator
/// reads back, up to the terminator and decoded, as the text itself, for
/// every text without the zero character.
pub proof fn lemma_native_round_trip(text: Seq<char>)
    requires
        forall|i: int| 0 <= i < text.len() ==> text[i] as u32 != 0,
    ensures
        decode_utf16_lossy(until_nul(encode_utf16(text).push(0u16))) == text,
{
    lemma_until_nul_of_terminated(text);
    lemma_decode_encode(text);
}

/// A text without the zero character encodes to units without a zero unit, so
/// the terminator is the first zero of the terminated encoding.
pub proof fn lemma_until_nul_of_terminated(text: Seq<char>)
    requires
        forall|i: int| 0 <= i < text.len() ==> text[i] as u32 != 0,
    ensures
        until_nul(encode_utf16(text).push(0u16)) == encode_utf16(text),
{
    lemma_encode_has_no_nul(text);
    lemma_until_nul_stops(encode_utf16(text), Seq::empty());
    assert(seq![0u16] + Seq::<u16>::empty() == seq![0u16]);
    assert(encode_utf16(text) + seq![0u16] == encode_utf16(text).push(0u16));
}

/// Only the zero character has a zero among its units.
pub proof fn lemma_char_units_have_no_nul(c: char)
    requires
        c as u32 != 0,
    ensures
        forall|k: int| 0 <= k < char_units(c).len() ==> char_units(c)[k] != 0,
{
    let tail = char_units(c);
    if (c as u32) < 0x10000 {
        assert(tail.len() == 1 && tail[0] != 0);
    } else {
        assert(tail.len() == 2 && tail[0] != 0 && tail[1] != 0);
    }
}

/// A text without the zero character encodes to units without a zero unit.
pub proof fn lemma_encode_has_no_nul(text: Seq<char>)
    requires
        forall|i: int| 0 <= i < text.len() ==> text[i] as u32 != 0,
    ensures
        forall|j: int| 0 <= j < encode_utf16(text).len() ==> encode_utf16(text)[j] != 0,
    decreases text.len(),
{
    if text.len() > 0 {
        let front = text.drop_last();
        let c = text.last();
        lemma_encode_has_no_nul(front);
        let tail = char_units(c);
        lemma_char_units_have_no_nul(c);
        assert forall|j: int| 0 <= j < encode_utf16(text).len() implies encode_utf16(text)[j]
            != 0 by {
            if j >= encode_utf16(front).len() {
                assert(encode_utf16(text)[j] == tail[j - encode_utf16(front).len()]);
            }
        }
    }
}

/// Cutting at the first zero keeps exactly the zero-free units that stand
/// before a zero.
pub proof fn lemma_until_nul_stops(front: Seq<u16>, back: Seq<u16>)
    requires
        forall|j: int| 0 <= j < front.len() ==> front[j] != 0,
    ensures
        until_nul(front + seq![0u16] + back) == front,
    decreases front.len(),
{
    let all = front + seq![0u16] + back;
    if front.len() == 0 {
        assert(all[0] == 0);
        assert(until_nul(all) == Seq::<u16>::empty());
        assert(front == Seq::<u16>::empty());
    } else {
        assert(all[0] == front[0]);
        assert(all.skip(1) == front.skip(1) + seq![0u16] + back);
        lemma_until_nul_stops(front.skip(1), back);
        assert(seq![front[0]] + front.skip(1) == front);
    }
}

} // verus!
