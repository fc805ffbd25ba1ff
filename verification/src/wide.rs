//! Strings in the UTF-16 form that the COM entry points read.

use crate::error::HostError;
use crate::marshal::{all_encodable, encodable, texts_of, NativeArray, MAX_NATIVE_COUNT};
use vstd::prelude::*;
use vstd::std_specs::iter::IteratorSpec;
use vstd::string::*;

verus! {

/// The UTF-16 code units of one character: the character itself below
/// U+10000, a surrogate pair from there on.
pub open spec fn utf16_units(c: char) -> Seq<u16> {
    let v = c as u32;
    if v < 0x10000 {
        seq![v as u16]
    } else {
        seq![
            (0xD800 + (((v - 0x10000) as u32) >> 10)) as u16,
            (0xDC00 + (((v - 0x10000) as u32) & 0x3FF)) as u16,
        ]
    }
}

/// The UTF-16 code units of `text`.
pub open spec fn encode_utf16(text: Seq<char>) -> Seq<u16>
    decreases text.len(),
{
    if text.len() == 0 {
        seq![]
    } else {
        utf16_units(text[0]) + encode_utf16(text.drop_first())
    }
}

/// The wide native form of `text`: its UTF-16 code units, then the
/// terminator.
pub open spec fn wide_units(text: Seq<char>) -> Seq<u16> {
    encode_utf16(text).push(0u16)
}

/// The wide native forms of `texts`, one for one, in order.
pub open spec fn wide_array(texts: Seq<Seq<char>>) -> Seq<Seq<u16>> {
    Seq::new(texts.len(), |i: int| wide_units(texts[i]))
}

/// Encoding goes through concatenation.
pub proof fn lemma_encode_utf16_concat(a: Seq<char>, b: Seq<char>)
    ensures
        encode_utf16(a + b) == encode_utf16(a) + encode_utf16(b),
    decreases a.len(),
{
    if a.len() == 0 {
        assert(a + b == b);
    } else {
        lemma_encode_utf16_concat(a.drop_first(), b);
        assert((a + b).drop_first() == a.drop_first() + b);
        assert((a + b)[0] == a[0]);
    }
}

/// True for the first unit of a surrogate pair.
pub open spec fn is_high_surrogate(unit: u16) -> bool {
    0xD800 <= unit <= 0xDBFF
}

/// The character that a surrogate pair stands for.
pub open spec fn pair_char(high: u16, low: u16) -> char {
    ((0x10000 + (high - 0xD800) * 0x400 + (low - 0xDC00)) as u32) as char
}

/// The text that `units` encodes, where they encode one.
pub open spec fn decode_utf16(units: Seq<u16>) -> Seq<char>
    decreases units.len(),
{
    if units.len() == 0 {
        seq![]
    } else if is_high_surrogate(units[0]) && units.len() >= 2 {
        seq![pair_char(units[0], units[1])] + decode_utf16(units.subrange(2, units.len() as int))
    } else {
        seq![(units[0] as u32) as char] + decode_utf16(units.drop_first())
    }
}

/// The text that a terminated wide buffer carries.
pub open spec fn wide_text(units: Seq<u16>) -> Seq<char> {
    decode_utf16(units.drop_last())
}

/// Decoding the code units of a character gives the character back.
pub proof fn lemma_units_round_trip(c: char)
    ensures
        c as u32 >= 0x10000 ==> utf16_units(c).len() == 2 && is_high_surrogate(utf16_units(c)[0])
            && pair_char(utf16_units(c)[0], utf16_units(c)[1]) == c,
        (c as u32) < 0x10000 ==> utf16_units(c).len() == 1 && !is_high_surrogate(
            utf16_units(c)[0],
        ) && (utf16_units(c)[0] as u32) as char == c,
{
    let v = c as u32;
    vstd::utf8::char_is_scalar(c);
    vstd::utf8::char_u32_cast(c, v);
    if v >= 0x10000 {
        let w = (v - 0x10000) as u32;
        assert(w <= 0xFFFFF);
        assert(w >> 10 <= 0x3FF) by (bit_vector)
            requires
                w <= 0xFFFFF,
        ;
        assert(w & 0x3FF <= 0x3FF) by (bit_vector);
        assert((w >> 10) * 0x400 + (w & 0x3FF) == w) by (bit_vector)
            requires
                w <= 0xFFFFF,
        ;
        let high = utf16_units(c)[0];
        let low = utf16_units(c)[1];
        assert(high == 0xD800 + (w >> 10));
        assert(low == 0xDC00 + (w & 0x3FF));
        assert(0x10000 + (high - 0xD800) * 0x400 + (low - 0xDC00) == v);
    }
}

/// Encoding a text and decoding the code units gives the text back: the
/// wide form loses nothing.
pub proof fn lemma_utf16_round_trip(text: Seq<char>)
    ensures
        decode_utf16(encode_utf16(text)) == text,
        wide_text(wide_units(text)) == text,
    decreases text.len(),
{
    assert(wide_units(text).drop_last() == encode_utf16(text));
    if text.len() > 0 {
        let head = utf16_units(text[0]);
        let rest = text.drop_first();
        let units = encode_utf16(text);
        lemma_units_round_trip(text[0]);
        lemma_utf16_round_trip(rest);
        assert(units == head + encode_utf16(rest));
        assert(units[0] == head[0]);
        if head.len() == 2 {
            assert(units[1] == head[1]);
            assert(units.subrange(2, units.len() as int) == encode_utf16(rest));
        } else {
            assert(units.drop_first() == encode_utf16(rest));
        }
        assert(seq![text[0]] + rest == text);
    }
}

/// True when `units` ends in its only zero unit.
pub open spec fn wide_terminated(units: Seq<u16>) -> bool {
    &&& units.len() > 0
    &&& units.last() == 0
    &&& forall|i: int| 0 <= i < units.len() - 1 ==> units[i] != 0
}

/// The code units of a character are zero only for the NUL character.
pub proof fn lemma_units_zero_free(c: char)
    ensures
        1 <= utf16_units(c).len() <= 2,
        c as u32 != 0 ==> forall|j: int| 0 <= j < utf16_units(c).len() ==> utf16_units(c)[j] != 0,
        c as u32 == 0 ==> utf16_units(c) == seq![0u16],
{
    let v = c as u32;
    if v >= 0x10000 {
        let w = (v - 0x10000) as u32;
        assert(w <= 0xFFFFF);
        assert(w >> 10 <= 0x3FF) by (bit_vector)
            requires
                w <= 0xFFFFF,
        ;
        assert(w & 0x3FF <= 0x3FF) by (bit_vector);
    }
}

/// The code units of a text hold a zero exactly where the text holds a NUL
/// character.
pub proof fn lemma_utf16_zero_free(text: Seq<char>)
    ensures
        encodable(text) <==> forall|j: int|
            0 <= j < encode_utf16(text).len() ==> encode_utf16(text)[j] != 0,
    decreases text.len(),
{
    if text.len() > 0 {
        let head = utf16_units(text[0]);
        let rest = text.drop_first();
        lemma_units_zero_free(text[0]);
        lemma_utf16_zero_free(rest);
        let units = encode_utf16(text);
        assert(units == head + encode_utf16(rest));
        if encodable(text) {
            assert forall|i: int| 0 <= i < rest.len() implies rest[i] as u32 != 0 by {
                assert(rest[i] == text[i + 1]);
            }
            assert forall|j: int| 0 <= j < units.len() implies units[j] != 0 by {
                if j >= head.len() {
                    assert(units[j] == encode_utf16(rest)[j - head.len()]);
                }
            }
        } else {
            let i = choose|i: int| 0 <= i < text.len() && text[i] as u32 == 0;
            if i == 0 {
                assert(units[0] == 0);
            } else {
                assert(rest[i - 1] == text[i]);
                assert(!encodable(rest));
                let j = choose|j: int|
                    0 <= j < encode_utf16(rest).len() && encode_utf16(rest)[j] == 0;
                assert(units[head.len() + j] == 0);
            }
        }
    }
}

/// True when every buffer of `buffers` ends in its only zero unit.
pub open spec fn all_wide_terminated(buffers: Seq<Seq<u16>>) -> bool {
    forall|i: int| 0 <= i < buffers.len() ==> wide_terminated(#[trigger] buffers[i])
}

/// The wide form of a text without NUL ends in its only zero unit.
pub proof fn lemma_wide_units_terminated(text: Seq<char>)
    requires
        encodable(text),
    ensures
        wide_terminated(wide_units(text)),
{
    lemma_utf16_zero_free(text);
}

/// The wide forms of texts without NUL end in their only zero units, and
/// there are as many as there are texts.
pub proof fn lemma_wide_array_terminated(texts: Seq<Seq<char>>)
    requires
        all_encodable(texts),
    ensures
        wide_array(texts).len() == texts.len(),
        all_wide_terminated(wide_array(texts)),
{
    assert forall|i: int| 0 <= i < texts.len() implies wide_terminated(
        #[trigger] wide_array(texts)[i],
    ) by {
        assert(encodable(texts[i]));
        lemma_wide_units_terminated(texts[i]);
    }
}

/// An owned, NUL-terminated UTF-16 buffer.
#[derive(Debug)]
pub struct WideString {
    units: Vec<u16>,
}

/// An array of UTF-16 strings.
pub type WideStringArray = NativeArray<WideString>;

impl View for WideString {
    type V = Seq<u16>;

    /// The whole buffer, terminator included.
    closed spec fn view(&self) -> Seq<u16> {
        self.units@
    }
}

impl WideString {
    #[verifier::type_invariant]
    spec fn well_formed(&self) -> bool {
        wide_terminated(self.units@)
    }

    /// The text that the buffer carries.
    pub open spec fn text(&self) -> Seq<char> {
        wide_text(self@)
    }

    /// The buffer as native code reads it, terminator included.
    pub fn as_units_with_nul(&self) -> (units: &[u16])
        ensures
            units@ == self@,
            wide_terminated(self@),
    {
        proof {
            use_type_invariant(self);
        }
        self.units.as_slice()
    }

    /// The number of code units before the terminator.
    pub fn len(&self) -> (n: usize)
        ensures
            n == self@.len() - 1,
    {
        proof {
            use_type_invariant(self);
        }
        self.units.len() - 1
    }
}

fn push_units(units: &mut Vec<u16>, c: char)
    ensures
        final(units)@ == old(units)@ + utf16_units(c),
{
    let v: u32 = c as u32;
    if v < 0x10000 {
        units.push(v as u16);
        assert(units@ =~= old(units)@ + utf16_units(c));
    } else {
        let w: u32 = v - 0x10000;
        assert(w >> 10 <= 0x3FF) by (bit_vector)
            requires
                w <= 0xFFFFF,
        ;
        assert(w & 0x3FF <= 0x3FF) by (bit_vector);
        let high: u32 = 0xD800 + (w >> 10);
        let low: u32 = 0xDC00 + (w & 0x3FF);
        units.push(high as u16);
        units.push(low as u16);
        assert(units@ =~= old(units)@ + utf16_units(c));
    }
}

/// Makes the wide native form of `text`. A text with a NUL character inside
/// has none.
pub fn to_wide_string(text: &str) -> (r: Result<WideString, HostError>)
    ensures
        encodable(text@) ==> (r matches Ok(s) && s@ == wide_units(text@) && s.text() == text@),
        !encodable(text@) ==> r == Err::<WideString, HostError>(HostError::InvalidStringEncoding),
{
    broadcast use group_string_axioms;

    let mut units: Vec<u16> = Vec::new();
    let mut chars = text.chars();
    let ghost mut done: Seq<char> = seq![];
    loop
        invariant
            chars.obeys_prophetic_iter_laws(),
            text@ == done + chars.remaining(),
            units@ == encode_utf16(done),
            encodable(done),
            chars.decrease() is Some,
        ensures
            text@ == done,
        decreases chars.decrease()->0,
    {
        match chars.next() {
            Some(c) => {
                assert(text@[done.len() as int] == c);
                if c as u32 == 0 {
                    return Err(HostError::InvalidStringEncoding);
                }
                push_units(&mut units, c);
                proof {
                    lemma_encode_utf16_concat(done, seq![c]);
                    assert(encode_utf16(seq![c]) == utf16_units(c)) by {
                        assert(seq![c].drop_first() == Seq::<char>::empty());
                        reveal_with_fuel(encode_utf16, 2);
                    }
                    assert(done + seq![c] == done.push(c));
                    done = done.push(c);
                }
            },
            None => {
                break ;
            },
        }
    }
    proof {
        lemma_utf16_zero_free(text@);
        lemma_utf16_round_trip(text@);
    }
    units.push(0u16);
    Ok(WideString { units })
}

/// Makes the wide native forms of `args`, in order. One argument with a NUL
/// character inside fails the whole array.
pub fn to_wide_args(args: &Vec<&str>) -> (r: Result<WideStringArray, HostError>)
    requires
        args@.len() <= MAX_NATIVE_COUNT,
    ensures
        all_encodable(texts_of(args@)) ==> (r matches Ok(array) && array@ == wide_array(
            texts_of(args@),
        )),
        !all_encodable(texts_of(args@)) ==> r == Err::<WideStringArray, HostError>(
            HostError::InvalidStringEncoding,
        ),
{
    let ghost texts = texts_of(args@);
    let mut items: Vec<WideString> = Vec::new();
    let mut i: usize = 0;
    while i < args.len()
        invariant
            i <= args@.len() <= MAX_NATIVE_COUNT,
            texts == texts_of(args@),
            items@.len() == i,
            forall|j: int| 0 <= j < i ==> encodable(#[trigger] texts[j]),
            forall|j: int| 0 <= j < i ==> (#[trigger] items@[j])@ == wide_units(texts[j]),
        decreases args@.len() - i,
    {
        match to_wide_string(args[i]) {
            Ok(item) => {
                items.push(item);
            },
            Err(_) => {
                assert(!encodable(texts[i as int]));
                return Err(HostError::InvalidStringEncoding);
            },
        }
        i += 1;
    }
    let array = NativeArray::from_items(items);
    assert(array@ =~= wide_array(texts));
    Ok(array)
}

} // verus!
