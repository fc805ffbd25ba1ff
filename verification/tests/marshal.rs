use clr_host::error::HostError;
use clr_host::marshal::{
    from_native_bytes, is_encodable, is_table_encodable, to_native_args, to_native_string,
    to_native_string_table, NativeStringArray, MAX_NATIVE_COUNT,
};
use clr_host::properties::PropertyTable;
use clr_host::wide::{to_wide_args, to_wide_string};

#[test]
fn native_string_is_the_bytes_and_a_terminator() {
    let native = to_native_string("abc").unwrap();
    assert_eq!(native.as_bytes_with_nul(), b"abc\0");
    assert_eq!(native.len(), 3);
}

#[test]
fn native_string_of_the_empty_text() {
    let native = to_native_string("").unwrap();
    assert_eq!(native.as_bytes_with_nul(), &[0u8]);
    assert_eq!(native.len(), 0);
    assert_eq!(native.decode(), "");
}

#[test]
fn round_trip_of_ascii() {
    let text = "/usr/local/share/dotnet/shared/Microsoft.NETCore.App/2.0.0";
    let native = to_native_string(text).unwrap();
    assert_eq!(native.decode(), text);
    assert_eq!(native.decode().as_bytes(), text.as_bytes());
    assert_eq!(from_native_bytes(native.as_bytes_with_nul()), Ok(text.to_string()));
}

#[test]
fn round_trip_of_multi_byte_text() {
    let text = "héllo wörld ☃ 日本語 𝄞";
    let native = to_native_string(text).unwrap();
    assert_eq!(native.len(), text.len());
    assert_eq!(&native.as_bytes_with_nul()[..text.len()], text.as_bytes());
    assert_eq!(native.as_bytes_with_nul()[text.len()], 0);
    assert_eq!(native.decode(), text);
    assert_eq!(from_native_bytes(native.as_bytes_with_nul()), Ok(text.to_string()));
}

#[test]
fn multi_byte_characters_take_their_utf8_bytes() {
    assert_eq!(to_native_string("é").unwrap().as_bytes_with_nul(), &[0xC3, 0xA9, 0]);
    assert_eq!(to_native_string("☃").unwrap().as_bytes_with_nul(), &[0xE2, 0x98, 0x83, 0]);
    assert_eq!(to_native_string("𝄞").unwrap().as_bytes_with_nul(), &[0xF0, 0x9D, 0x84, 0x9E, 0]);
}

#[test]
fn nul_inside_has_no_native_form() {
    assert_eq!(to_native_string("a\0b").err(), Some(HostError::InvalidStringEncoding));
    assert_eq!(to_native_string("\0").err(), Some(HostError::InvalidStringEncoding));
    assert_eq!(to_native_string("abc\0").err(), Some(HostError::InvalidStringEncoding));
    assert!(!is_encodable("a\0b"));
    assert!(is_encodable("ab"));
    assert!(is_encodable(""));
    assert!(is_encodable("𝄞"));
}

#[test]
fn native_bytes_decode_only_when_well_formed() {
    assert_eq!(from_native_bytes(b"abc\0"), Ok("abc".to_string()));
    assert_eq!(from_native_bytes(b"\0"), Ok(String::new()));
    assert_eq!(from_native_bytes(b""), Err(HostError::InvalidStringEncoding));
    assert_eq!(from_native_bytes(b"abc"), Err(HostError::InvalidStringEncoding));
    assert_eq!(from_native_bytes(b"a\0c\0"), Err(HostError::InvalidStringEncoding));
    assert_eq!(from_native_bytes(&[0xFF, 0]), Err(HostError::InvalidStringEncoding));
    assert_eq!(from_native_bytes(&[0xC3, 0]), Err(HostError::InvalidStringEncoding));
    assert_eq!(from_native_bytes(&[0xED, 0xA0, 0x80, 0]), Err(HostError::InvalidStringEncoding));
    assert_eq!(from_native_bytes(&[0xC3, 0xA9, 0]), Ok("é".to_string()));
}

#[test]
fn empty_table_gives_empty_arrays() {
    let native = to_native_string_table(&PropertyTable::new()).unwrap();
    assert_eq!(native.len(), 0);
    assert_eq!(native.count(), 0);
    assert!(native.is_empty());
    assert!(native.keys().first().is_none());
    assert!(native.values().first().is_none());
    assert!(native.keys().get(0).is_none());
    assert!(native.keys().as_slice().is_empty());
    assert!(native.values().as_slice().is_empty());
    let start_of_keys = native.keys().as_slice().as_ptr();
    let start_of_values = native.values().as_slice().as_ptr();
    assert!(!start_of_keys.is_null());
    assert!(!start_of_values.is_null());
}

fn pairs_of(table: &PropertyTable) -> Vec<(String, String)> {
    let native = to_native_string_table(table).unwrap();
    assert_eq!(native.keys().len(), native.values().len());
    let mut pairs = Vec::new();
    for i in 0..native.len() {
        let key = native.keys().get(i).unwrap().decode();
        let value = native.values().get(i).unwrap().decode();
        pairs.push((key, value));
    }
    pairs
}

#[test]
fn table_of_two_keeps_pairs_together_in_insertion_order_a_b() {
    let mut table = PropertyTable::new();
    table.insert("a", "1");
    table.insert("b", "2");
    let native = to_native_string_table(&table).unwrap();
    assert_eq!(native.len(), 2);
    assert_eq!(native.count(), 2);
    assert_eq!(native.keys().len(), 2);
    assert_eq!(native.values().len(), 2);
    assert_eq!(native.keys().get(0).unwrap().as_bytes_with_nul(), b"a\0");
    assert_eq!(native.values().get(0).unwrap().as_bytes_with_nul(), b"1\0");
    assert_eq!(native.keys().get(1).unwrap().as_bytes_with_nul(), b"b\0");
    assert_eq!(native.values().get(1).unwrap().as_bytes_with_nul(), b"2\0");
    assert_eq!(native.keys().first().unwrap().as_bytes_with_nul(), b"a\0");
}

#[test]
fn table_of_two_keeps_pairs_together_in_insertion_order_b_a() {
    let mut table = PropertyTable::new();
    table.insert("b", "2");
    table.insert("a", "1");
    let pairs = pairs_of(&table);
    assert_eq!(pairs.len(), 2);
    for (key, value) in &pairs {
        match key.as_str() {
            "a" => assert_eq!(value, "1"),
            "b" => assert_eq!(value, "2"),
            other => panic!("no such key: {}", other),
        }
    }
    assert_eq!(pairs, vec![("b".to_string(), "2".to_string()), ("a".to_string(), "1".to_string())]);
}

#[test]
fn table_pairs_stay_together_for_every_order_of_three() {
    let entries = [("x", "10"), ("y", "20"), ("z", "30")];
    let orders = [[0, 1, 2], [0, 2, 1], [1, 0, 2], [1, 2, 0], [2, 0, 1], [2, 1, 0]];
    for order in orders.iter() {
        let mut table = PropertyTable::new();
        for &i in order.iter() {
            assert!(table.insert(entries[i].0, entries[i].1));
        }
        let pairs = pairs_of(&table);
        assert_eq!(pairs.len(), 3);
        for (key, value) in pairs {
            assert_eq!(table.get(&key), Some(value.as_str()));
            assert!(entries.contains(&(key.as_str(), value.as_str())));
        }
    }
}

#[test]
fn table_with_nul_has_no_native_form() {
    let mut table = PropertyTable::new();
    table.insert("good", "value");
    assert!(is_table_encodable(&table));
    table.insert("ba\0d", "value");
    assert!(!is_table_encodable(&table));
    assert_eq!(to_native_string_table(&table).err(), Some(HostError::InvalidStringEncoding));

    let mut table = PropertyTable::new();
    table.insert("key", "\0");
    assert!(!is_table_encodable(&table));
    assert_eq!(to_native_string_table(&table).err(), Some(HostError::InvalidStringEncoding));
}

#[test]
fn native_args_keep_their_order() {
    let args = vec!["one", "", "drei"];
    let array = to_native_args(&args).unwrap();
    assert_eq!(array.len(), 3);
    assert_eq!(array.count(), 3);
    assert!(!array.is_empty());
    assert_eq!(array.get(0).unwrap().as_bytes_with_nul(), b"one\0");
    assert_eq!(array.get(1).unwrap().as_bytes_with_nul(), b"\0");
    assert_eq!(array.get(2).unwrap().as_bytes_with_nul(), b"drei\0");
    assert!(array.get(3).is_none());
    assert_eq!(array.as_slice().len(), 3);
}

#[test]
fn native_args_of_nothing() {
    let array = to_native_args(&vec![]).unwrap();
    assert_eq!(array.len(), 0);
    assert_eq!(array.count(), 0);
    assert!(array.is_empty());
    assert!(array.first().is_none());
    let fresh = NativeStringArray::new();
    assert!(fresh.is_empty());
    assert!(fresh.first().is_none());
}

#[test]
fn native_args_with_nul_fail_whole() {
    assert_eq!(
        to_native_args(&vec!["fine", "no\0pe"]).err(),
        Some(HostError::InvalidStringEncoding)
    );
    assert_eq!(
        to_wide_args(&vec!["no\0pe", "fine"]).err(),
        Some(HostError::InvalidStringEncoding)
    );
}

#[test]
fn wide_string_is_the_units_and_a_terminator() {
    let wide = to_wide_string("ab").unwrap();
    assert_eq!(wide.as_units_with_nul(), &[0x61, 0x62, 0]);
    assert_eq!(wide.len(), 2);
    assert_eq!(to_wide_string("").unwrap().as_units_with_nul(), &[0]);
    assert_eq!(to_wide_string("é").unwrap().as_units_with_nul(), &[0xE9, 0]);
    assert_eq!(to_wide_string("☃").unwrap().as_units_with_nul(), &[0x2603, 0]);
}

#[test]
fn wide_string_pairs_surrogates_above_the_basic_plane() {
    assert_eq!(to_wide_string("𝄞").unwrap().as_units_with_nul(), &[0xD834, 0xDD1E, 0]);
    assert_eq!(to_wide_string("\u{10000}").unwrap().as_units_with_nul(), &[0xD800, 0xDC00, 0]);
    assert_eq!(to_wide_string("\u{10FFFF}").unwrap().as_units_with_nul(), &[0xDBFF, 0xDFFF, 0]);
    assert_eq!(to_wide_string("\u{FFFF}").unwrap().as_units_with_nul(), &[0xFFFF, 0]);
    assert_eq!(to_wide_string("\u{D7FF}\u{E000}").unwrap().as_units_with_nul(), &[0xD7FF, 0xE000, 0]);
}

#[test]
fn wide_string_round_trip() {
    for text in ["", "C:\\Program Files\\dotnet\\coreclr.dll", "héllo wörld ☃ 日本語 𝄞 \u{10FFFF}"] {
        let wide = to_wide_string(text).unwrap();
        let units = wide.as_units_with_nul();
        let expected: Vec<u16> = text.encode_utf16().collect();
        assert_eq!(&units[..units.len() - 1], expected.as_slice());
        assert_eq!(units[units.len() - 1], 0);
        assert_eq!(String::from_utf16(&units[..units.len() - 1]).unwrap(), text);
        assert_eq!(wide.len(), expected.len());
    }
}

#[test]
fn wide_string_with_nul_has_no_native_form() {
    assert_eq!(to_wide_string("a\0b").err(), Some(HostError::InvalidStringEncoding));
    assert_eq!(to_wide_string("\0").err(), Some(HostError::InvalidStringEncoding));
}

#[test]
fn wide_args_keep_their_order() {
    let array = to_wide_args(&vec!["a", "𝄞"]).unwrap();
    assert_eq!(array.count(), 2);
    assert_eq!(array.get(0).unwrap().as_units_with_nul(), &[0x61, 0]);
    assert_eq!(array.get(1).unwrap().as_units_with_nul(), &[0xD834, 0xDD1E, 0]);
    assert!(to_wide_args(&vec![]).unwrap().first().is_none());
}

#[test]
fn native_count_is_bounded_by_the_signed_32_bit_range() {
    assert_eq!(MAX_NATIVE_COUNT, 2147483647);
    assert_eq!(MAX_NATIVE_COUNT as i32, i32::MAX);
}
