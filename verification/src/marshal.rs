//! Strings and string tables in the form native code reads them.
//!
//! Every value here owns its buffer. Native code is handed a borrow of the
//! owner, so a buffer cannot be gone while a call that reads it runs.

use crate::error::HostError;
use crate::properties::{as_map, distinct_keys, lemma_as_map_of_entry, PropertyTable};
use vstd::pervasive::unreached;
use vstd::prelude::*;
use vstd::string::*;
use vstd::utf8::*;

verus! {

/// True when `text` holds no NUL character, so that a terminated buffer can
/// carry it whole.
pub open spec fn encodable(text: Seq<char>) -> bool {
    forall|i: int| 0 <= i < text.len() ==> text[i] as u32 != 0
}

/// The native form of `text`: its UTF-8 bytes, then the terminator.
pub open spec fn native_bytes(text: Seq<char>) -> Seq<u8> {
    encode_utf8(text).push(0u8)
}

/// True when `bytes` ends in its only NUL byte.
pub open spec fn terminated(bytes: Seq<u8>) -> bool {
    &&& bytes.len() > 0
    &&& bytes.last() == 0
    &&& forall|i: int| 0 <= i < bytes.len() - 1 ==> bytes[i] != 0
}

/// True when `bytes` is a terminated buffer whose content is UTF-8.
pub open spec fn is_native_string(bytes: Seq<u8>) -> bool {
    terminated(bytes) && valid_utf8(bytes.drop_last())
}

/// The text that a terminated UTF-8 buffer carries.
pub open spec fn native_text(bytes: Seq<u8>) -> Seq<char> {
    decode_utf8(bytes.drop_last())
}

proof fn lemma_scalar_zero_free(c: u32)
    requires
        is_scalar(c),
    ensures
        c != 0 ==> forall|j: int| 0 <= j < encode_scalar(c).len() ==> encode_scalar(c)[j] != 0,
        c == 0 ==> encode_scalar(c) == seq![0u8],
{
    assert(has_width_1_encoding(c) ==> (leading_byte_width_1(c) == 0 <==> c == 0)) by (bit_vector);
    assert(leading_byte_width_2(c) != 0) by (bit_vector);
    assert(leading_byte_width_3(c) != 0) by (bit_vector);
    assert(leading_byte_width_4(c) != 0) by (bit_vector);
    assert(last_continuation_byte(c) != 0) by (bit_vector);
    assert(second_last_continuation_byte(c) != 0) by (bit_vector);
    assert(third_last_continuation_byte(c) != 0) by (bit_vector);
}

/// The UTF-8 bytes of a text hold a zero byte exactly where the text holds
/// a NUL character.
pub proof fn lemma_encoding_zero_free(text: Seq<char>)
    ensures
        encodable(text) <==> forall|j: int|
            0 <= j < encode_utf8(text).len() ==> encode_utf8(text)[j] != 0,
    decreases text.len(),
{
    if text.len() > 0 {
        let head = encode_scalar(text[0] as u32);
        let rest = text.drop_first();
        char_is_scalar(text[0]);
        lemma_scalar_zero_free(text[0] as u32);
        lemma_encoding_zero_free(rest);
        let bytes = encode_utf8(text);
        assert(bytes == head + encode_utf8(rest));
        if encodable(text) {
            assert forall|i: int| 0 <= i < rest.len() implies rest[i] as u32 != 0 by {
                assert(rest[i] == text[i + 1]);
            }
            assert forall|j: int| 0 <= j < bytes.len() implies bytes[j] != 0 by {
                if j >= head.len() {
                    assert(bytes[j] == encode_utf8(rest)[j - head.len()]);
                }
            }
        } else {
            let i = choose|i: int| 0 <= i < text.len() && text[i] as u32 == 0;
            if i == 0 {
                assert(bytes[0] == 0);
            } else {
                assert(rest[i - 1] == text[i]);
                assert(!encodable(rest));
                let j = choose|j: int|
                    0 <= j < encode_utf8(rest).len() && encode_utf8(rest)[j] == 0;
                assert(bytes[head.len() + j] == 0);
            }
        }
    }
}

/// A text without NUL has a well-formed native form, and decoding that form
/// gives the text back.
pub proof fn lemma_native_round_trip(text: Seq<char>)
    requires
        encodable(text),
    ensures
        is_native_string(native_bytes(text)),
        native_text(native_bytes(text)) == text,
{
    lemma_encoding_zero_free(text);
    encode_utf8_valid_utf8(text);
    encode_utf8_decode_utf8(text);
    assert(native_bytes(text).drop_last() == encode_utf8(text));
}

/// A well-formed native buffer is the native form of the text it carries.
pub proof fn lemma_native_bytes_of_text(bytes: Seq<u8>)
    requires
        is_native_string(bytes),
    ensures
        encodable(native_text(bytes)),
        native_bytes(native_text(bytes)) == bytes,
{
    let content = bytes.drop_last();
    decode_utf8_encode_utf8(content);
    lemma_encoding_zero_free(native_text(bytes));
    assert(content.push(0u8) == bytes);
}

/// `String::from_utf8`: gives a string exactly when the bytes are UTF-8,
/// and the string then holds those bytes.
#[verifier::external_body]
fn string_from_utf8(bytes: Vec<u8>) -> (r: Option<String>)
    ensures
        r is Some <==> valid_utf8(bytes@),
        r matches Some(s) ==> encode_utf8(s@) == bytes@,
{
    String::from_utf8(bytes).ok()
}

/// An owned, NUL-terminated UTF-8 buffer.
#[derive(Debug)]
pub struct NativeString {
    bytes: Vec<u8>,
}

impl View for NativeString {
    type V = Seq<u8>;

    /// The whole buffer, terminator included.
    closed spec fn view(&self) -> Seq<u8> {
        self.bytes@
    }
}

impl NativeString {
    #[verifier::type_invariant]
    spec fn well_formed(&self) -> bool {
        is_native_string(self.bytes@)
    }

    /// The text that the buffer carries.
    pub open spec fn text(&self) -> Seq<char> {
        native_text(self@)
    }

    /// The buffer as native code reads it, terminator included.
    pub fn as_bytes_with_nul(&self) -> (bytes: &[u8])
        ensures
            bytes@ == self@,
            is_native_string(self@),
    {
        proof {
            use_type_invariant(self);
        }
        self.bytes.as_slice()
    }

    /// The number of bytes before the terminator.
    pub fn len(&self) -> (n: usize)
        ensures
            n == self@.len() - 1,
            n == encode_utf8(self.text()).len(),
    {
        proof {
            use_type_invariant(self);
            lemma_native_bytes_of_text(self@);
        }
        self.bytes.len() - 1
    }

    /// The text, decoded from the buffer.
    pub fn decode(&self) -> (text: String)
        ensures
            text@ == self.text(),
            native_bytes(text@) == self@,
    {
        proof {
            use_type_invariant(self);
            lemma_native_bytes_of_text(self@);
        }
        let mut content = self.bytes.clone();
        content.pop();
        assert(content@ == self@.drop_last());
        match string_from_utf8(content) {
            Some(text) => {
                proof {
                    encode_utf8_decode_utf8(text@);
                }
                text
            },
            None => unreached(),
        }
    }
}

/// Tells whether `text` has a native form.
pub fn is_encodable(text: &str) -> (yes: bool)
    ensures
        yes == encodable(text@),
{
    let bytes = text.as_bytes();
    let mut i: usize = 0;
    while i < bytes.len()
        invariant
            i <= bytes@.len(),
            bytes@ == encode_utf8(text@),
            forall|j: int| 0 <= j < i ==> bytes@[j] != 0,
        decreases bytes@.len() - i,
    {
        if bytes[i] == 0 {
            proof {
                lemma_encoding_zero_free(text@);
            }
            return false;
        }
        i += 1;
    }
    proof {
        lemma_encoding_zero_free(text@);
    }
    true
}

/// Makes the native form of `text`. A text with a NUL character inside has
/// none: the terminator would cut it short.
pub fn to_native_string(text: &str) -> (r: Result<NativeString, HostError>)
    ensures
        encodable(text@) ==> (r matches Ok(s) && s@ == native_bytes(text@) && s.text() == text@),
        !encodable(text@) ==> r == Err::<NativeString, HostError>(HostError::InvalidStringEncoding),
{
    if !is_encodable(text) {
        return Err(HostError::InvalidStringEncoding);
    }
    let mut bytes = text.as_bytes_vec();
    proof {
        lemma_native_round_trip(text@);
    }
    bytes.push(0u8);
    Ok(NativeString { bytes })
}

/// Decodes a buffer that native code filled. The buffer must end in its
/// only NUL byte and hold UTF-8 before it.
pub fn from_native_bytes(bytes: &[u8]) -> (r: Result<String, HostError>)
    ensures
        is_native_string(bytes@) ==> (r matches Ok(text) && text@ == native_text(bytes@)),
        !is_native_string(bytes@) ==> r == Err::<String, HostError>(
            HostError::InvalidStringEncoding,
        ),
{
    let n: usize = bytes.len();
    if n == 0 || bytes[n - 1] != 0 {
        return Err(HostError::InvalidStringEncoding);
    }
    let mut content: Vec<u8> = Vec::new();
    let mut i: usize = 0;
    while i < n - 1
        invariant
            n == bytes.len(),
            n > 0,
            i <= n - 1,
            content@ == bytes@.subrange(0, i as int),
            forall|j: int| 0 <= j < i ==> bytes[j] != 0,
        decreases n - i,
    {
        if bytes[i] == 0 {
            return Err(HostError::InvalidStringEncoding);
        }
        content.push(bytes[i]);
        assert(bytes@.subrange(0, i as int).push(bytes[i as int]) == bytes@.subrange(
            0,
            i + 1,
        ));
        i += 1;
    }
    assert(bytes@.subrange(0, n - 1) == bytes@.drop_last());
    match string_from_utf8(content) {
        Some(text) => {
            proof {
                encode_utf8_decode_utf8(text@);
            }
            Ok(text)
        },
        None => Err(HostError::InvalidStringEncoding),
    }
}

/// The most strings an array can hold: native code takes the count as a
/// signed 32-bit integer.
pub const MAX_NATIVE_COUNT: usize = 0x7fff_ffff;

/// The native forms of `texts`, one for one, in order.
pub open spec fn native_array(texts: Seq<Seq<char>>) -> Seq<Seq<u8>> {
    Seq::new(texts.len(), |i: int| native_bytes(texts[i]))
}

/// True when every text of `texts` has a native form.
pub open spec fn all_encodable(texts: Seq<Seq<char>>) -> bool {
    forall|i: int| 0 <= i < texts.len() ==> encodable(#[trigger] texts[i])
}

/// True when every buffer of `buffers` is a terminated UTF-8 buffer.
pub open spec fn all_native_strings(buffers: Seq<Seq<u8>>) -> bool {
    forall|i: int| 0 <= i < buffers.len() ==> is_native_string(#[trigger] buffers[i])
}

/// The native forms of texts without NUL are terminated UTF-8 buffers, as
/// many as there are texts.
pub proof fn lemma_native_array_well_formed(texts: Seq<Seq<char>>)
    requires
        all_encodable(texts),
    ensures
        native_array(texts).len() == texts.len(),
        all_native_strings(native_array(texts)),
{
    assert forall|i: int| 0 <= i < texts.len() implies is_native_string(
        #[trigger] native_array(texts)[i],
    ) by {
        assert(encodable(texts[i]));
        lemma_native_round_trip(texts[i]);
    }
}

/// The texts behind a vector of string slices.
pub open spec fn texts_of(strings: Seq<&str>) -> Seq<Seq<char>> {
    Seq::new(strings.len(), |i: int| strings[i]@)
}

/// An owned array of native strings, as native code takes an `argv`. It
/// never holds more strings than native code can count.
#[derive(Debug)]
pub struct NativeArray<S: View> {
    items: Vec<S>,
}

/// An array of UTF-8 strings.
pub type NativeStringArray = NativeArray<NativeString>;

impl<S: View> View for NativeArray<S> {
    type V = Seq<S::V>;

    /// The buffers, in order.
    closed spec fn view(&self) -> Seq<S::V> {
        Seq::new(self.items@.len(), |i: int| self.items@[i]@)
    }
}

impl<S: View> NativeArray<S> {
    #[verifier::type_invariant]
    spec fn well_formed(&self) -> bool {
        self.items@.len() <= MAX_NATIVE_COUNT
    }

    /// The empty array.
    pub fn new() -> (array: NativeArray<S>)
        ensures
            array@ == Seq::<S::V>::empty(),
    {
        let array = NativeArray { items: Vec::new() };
        assert(array@ =~= Seq::<S::V>::empty());
        array
    }

    pub(crate) fn from_items(items: Vec<S>) -> (array: NativeArray<S>)
        requires
            items@.len() <= MAX_NATIVE_COUNT,
        ensures
            array@.len() == items@.len(),
            forall|i: int| 0 <= i < items@.len() ==> #[trigger] array@[i] == items@[i]@,
    {
        NativeArray { items }
    }

    pub fn len(&self) -> (n: usize)
        ensures
            n == self@.len(),
            n <= MAX_NATIVE_COUNT,
    {
        proof {
            use_type_invariant(self);
        }
        self.items.len()
    }

    pub fn is_empty(&self) -> (empty: bool)
        ensures
            empty == (self@.len() == 0),
    {
        self.items.len() == 0
    }

    /// The number of strings, as native code takes it.
    pub fn count(&self) -> (n: i32)
        ensures
            n == self@.len(),
    {
        proof {
            use_type_invariant(self);
        }
        self.items.len() as i32
    }

    /// The string at `index`, if the array has one there.
    pub fn get(&self, index: usize) -> (item: Option<&S>)
        ensures
            index < self@.len() ==> (item matches Some(s) && s@ == self@[index as int]),
            index >= self@.len() ==> item is None,
    {
        if index < self.items.len() {
            Some(&self.items[index])
        } else {
            None
        }
    }

    /// The first string: what a pointer to the array's start would point
    /// at. An empty array has none, and asking is no error.
    pub fn first(&self) -> (item: Option<&S>)
        ensures
            self@.len() > 0 ==> (item matches Some(s) && s@ == self@[0]),
            self@.len() == 0 ==> item is None,
    {
        self.get(0)
    }

    /// The strings, in order.
    pub fn as_slice(&self) -> (items: &[S])
        ensures
            items@.len() == self@.len(),
            forall|i: int| 0 <= i < items@.len() ==> (#[trigger] items@[i])@ == self@[i],
    {
        self.items.as_slice()
    }
}

/// Makes the native forms of `args`, in order. One argument with a NUL
/// character inside fails the whole array.
pub fn to_native_args(args: &Vec<&str>) -> (r: Result<NativeStringArray, HostError>)
    requires
        args@.len() <= MAX_NATIVE_COUNT,
    ensures
        all_encodable(texts_of(args@)) ==> (r matches Ok(array) && array@ == native_array(
            texts_of(args@),
        )),
        !all_encodable(texts_of(args@)) ==> r == Err::<NativeStringArray, HostError>(
            HostError::InvalidStringEncoding,
        ),
{
    let ghost texts = texts_of(args@);
    let mut items: Vec<NativeString> = Vec::new();
    let mut i: usize = 0;
    while i < args.len()
        invariant
            i <= args@.len() <= MAX_NATIVE_COUNT,
            texts == texts_of(args@),
            items@.len() == i,
            forall|j: int| 0 <= j < i ==> encodable(#[trigger] texts[j]),
            forall|j: int| 0 <= j < i ==> (#[trigger] items@[j])@ == native_bytes(texts[j]),
        decreases args@.len() - i,
    {
        match to_native_string(args[i]) {
            Ok(item) => {
                items.push(item);
            },
            Err(_) => {
                assert(!encodable(texts[i as int]));
                return Err(HostError::InvalidStringEncoding);
            },
        }
        i += 1;
    }
    let array = NativeArray::from_items(items);
    assert(array@ =~= native_array(texts));
    Ok(array)
}

/// The keys of `entries`, in order.
pub open spec fn keys_of(entries: Seq<(Seq<char>, Seq<char>)>) -> Seq<Seq<char>> {
    Seq::new(entries.len(), |i: int| entries[i].0)
}

/// The values of `entries`, in order.
pub open spec fn values_of(entries: Seq<(Seq<char>, Seq<char>)>) -> Seq<Seq<char>> {
    Seq::new(entries.len(), |i: int| entries[i].1)
}

/// True when every key and every value of `entries` has a native form.
pub open spec fn table_encodable(entries: Seq<(Seq<char>, Seq<char>)>) -> bool {
    all_encodable(keys_of(entries)) && all_encodable(values_of(entries))
}

/// The native arrays of a table have the table's length, the empty table's
/// arrays are empty, and equal indices belong together: the buffer at an
/// index of the values carries the value that the table holds under the key
/// that the buffer at that index of the keys carries.
pub proof fn lemma_table_alignment(entries: Seq<(Seq<char>, Seq<char>)>)
    requires
        distinct_keys(entries),
        table_encodable(entries),
    ensures
        native_array(keys_of(entries)).len() == entries.len(),
        native_array(values_of(entries)).len() == entries.len(),
        forall|i: int|
            0 <= i < entries.len() ==> {
                let key = native_text(#[trigger] native_array(keys_of(entries))[i]);
                let value = native_text(native_array(values_of(entries))[i]);
                as_map(entries).dom().contains(key) && as_map(entries)[key] == value
            },
{
    assert forall|i: int| 0 <= i < entries.len() implies {
        let key = native_text(#[trigger] native_array(keys_of(entries))[i]);
        let value = native_text(native_array(values_of(entries))[i]);
        as_map(entries).dom().contains(key) && as_map(entries)[key] == value
    } by {
        assert(encodable(keys_of(entries)[i]));
        assert(encodable(values_of(entries)[i]));
        lemma_native_round_trip(entries[i].0);
        lemma_native_round_trip(entries[i].1);
        lemma_as_map_of_entry(entries, i);
    }
}

/// A property table in native form: an array of keys and an array of
/// values, of one length, the value at each index belonging to the key at
/// that index.
#[derive(Debug)]
pub struct NativeStringTable {
    keys: NativeStringArray,
    values: NativeStringArray,
}

impl NativeStringTable {
    #[verifier::type_invariant]
    spec fn well_formed(&self) -> bool {
        self.keys@.len() == self.values@.len()
    }

    /// The key buffers, in order.
    pub closed spec fn key_buffers(&self) -> Seq<Seq<u8>> {
        self.keys@
    }

    /// The value buffers, in order.
    pub closed spec fn value_buffers(&self) -> Seq<Seq<u8>> {
        self.values@
    }

    /// The number of entries.
    pub fn len(&self) -> (n: usize)
        ensures
            n == self.key_buffers().len(),
            n == self.value_buffers().len(),
            n <= MAX_NATIVE_COUNT,
    {
        proof {
            use_type_invariant(self);
        }
        self.keys.len()
    }

    pub fn is_empty(&self) -> (empty: bool)
        ensures
            empty == (self.key_buffers().len() == 0),
            empty == (self.value_buffers().len() == 0),
    {
        proof {
            use_type_invariant(self);
        }
        self.keys.is_empty()
    }

    /// The number of entries, as native code takes it.
    pub fn count(&self) -> (n: i32)
        ensures
            n == self.key_buffers().len(),
            n == self.value_buffers().len(),
    {
        proof {
            use_type_invariant(self);
        }
        self.keys.count()
    }

    /// The array of keys.
    pub fn keys(&self) -> (keys: &NativeStringArray)
        ensures
            keys@ == self.key_buffers(),
            keys@.len() == self.value_buffers().len(),
    {
        proof {
            use_type_invariant(self);
        }
        &self.keys
    }

    /// The array of values.
    pub fn values(&self) -> (values: &NativeStringArray)
        ensures
            values@ == self.value_buffers(),
            values@.len() == self.key_buffers().len(),
    {
        proof {
            use_type_invariant(self);
        }
        &self.values
    }
}

/// Makes the native form of a property table: the keys and the values, each
/// in the table's order, so that equal indices belong together. The empty
/// table gives two empty arrays. One key or value with a NUL character
/// inside fails the whole table.
pub fn to_native_string_table(table: &PropertyTable) -> (r: Result<
    NativeStringTable,
    HostError,
>)
    ensures
        table_encodable(table@) ==> (r matches Ok(native) && native.key_buffers()
            == native_array(keys_of(table@)) && native.value_buffers() == native_array(
            values_of(table@),
        )),
        !table_encodable(table@) ==> r == Err::<NativeStringTable, HostError>(
            HostError::InvalidStringEncoding,
        ),
{
    let ghost key_texts = keys_of(table@);
    let ghost value_texts = values_of(table@);
    let n: usize = table.len();
    let mut keys: Vec<NativeString> = Vec::new();
    let mut values: Vec<NativeString> = Vec::new();
    let mut i: usize = 0;
    while i < n
        invariant
            i <= n,
            n == table@.len(),
            n <= MAX_NATIVE_COUNT,
            key_texts == keys_of(table@),
            value_texts == values_of(table@),
            keys@.len() == i,
            values@.len() == i,
            forall|j: int| 0 <= j < i ==> encodable(#[trigger] key_texts[j]),
            forall|j: int| 0 <= j < i ==> encodable(#[trigger] value_texts[j]),
            forall|j: int| 0 <= j < i ==> (#[trigger] keys@[j])@ == native_bytes(key_texts[j]),
            forall|j: int|
                0 <= j < i ==> (#[trigger] values@[j])@ == native_bytes(value_texts[j]),
        decreases n - i,
    {
        let (key, value) = match table.entry(i) {
            Some(pair) => pair,
            None => unreached(),
        };
        assert(key@ == key_texts[i as int]);
        assert(value@ == value_texts[i as int]);
        match to_native_string(key) {
            Ok(item) => {
                keys.push(item);
            },
            Err(_) => {
                assert(!encodable(key_texts[i as int]));
                return Err(HostError::InvalidStringEncoding);
            },
        }
        match to_native_string(value) {
            Ok(item) => {
                values.push(item);
            },
            Err(_) => {
                assert(!encodable(value_texts[i as int]));
                return Err(HostError::InvalidStringEncoding);
            },
        }
        i += 1;
    }
    let keys = NativeArray::from_items(keys);
    let values = NativeArray::from_items(values);
    assert(keys@ =~= native_array(key_texts));
    assert(values@ =~= native_array(value_texts));
    Ok(NativeStringTable { keys, values })
}

/// Tells whether every key and every value of `table` has a native form.
pub fn is_table_encodable(table: &PropertyTable) -> (yes: bool)
    ensures
        yes == table_encodable(table@),
{
    let n: usize = table.len();
    let mut i: usize = 0;
    while i < n
        invariant
            i <= n,
            n == table@.len(),
            forall|j: int| 0 <= j < i ==> encodable(#[trigger] keys_of(table@)[j]),
            forall|j: int| 0 <= j < i ==> encodable(#[trigger] values_of(table@)[j]),
        decreases n - i,
    {
        let (key, value) = match table.entry(i) {
            Some(pair) => pair,
            None => unreached(),
        };
        assert(key@ == keys_of(table@)[i as int]);
        assert(value@ == values_of(table@)[i as int]);
        if !is_encodable(key) || !is_encodable(value) {
            return false;
        }
        i += 1;
    }
    true
}

} // verus!
