use dashdoc::entry_data::{decode_entry_data, encode_entry_data, EntryData};

fn b(s: &str) -> Vec<u8> {
    s.as_bytes().to_vec()
}

#[test]
fn roundtrip_docset_reference() {
    let d = EntryData::DocSet { provider: b("Dash"), id: b("python") };
    let encoded = encode_entry_data(&d);
    assert_eq!(decode_entry_data(&encoded), Some(d));
}

#[test]
fn roundtrip_item_reference() {
    let d = EntryData::Entry {
        provider: b("Dash"),
        doc_set_id: b("python"),
        item_id: b("library/stdtypes.html#list"),
    };
    let encoded = encode_entry_data(&d);
    assert_eq!(decode_entry_data(&encoded), Some(d));
}

#[test]
fn roundtrip_fields_containing_separators_and_escapes() {
    let d = EntryData::Entry {
        provider: b("we|ird\\name"),
        doc_set_id: b("||\\\\"),
        item_id: b("a|b\\c|"),
    };
    let encoded = encode_entry_data(&d);
    assert_eq!(decode_entry_data(&encoded), Some(d));
}

#[test]
fn roundtrip_empty_fields() {
    let d = EntryData::Entry { provider: b(""), doc_set_id: b(""), item_id: b("") };
    let encoded = encode_entry_data(&d);
    assert_eq!(decode_entry_data(&encoded), Some(d));
}

#[test]
fn encoding_is_readable_when_fields_are_plain() {
    let d = EntryData::DocSet { provider: b("Dash"), id: b("python") };
    assert_eq!(encode_entry_data(&d), b("D|Dash|python"));
    let e = EntryData::Entry { provider: b("Dash"), doc_set_id: b("python"), item_id: b("x#y") };
    assert_eq!(encode_entry_data(&e), b("E|Dash|python|x#y"));
}

#[test]
fn decode_rejects_garbage() {
    assert_eq!(decode_entry_data(&b("garbage")), None);
    assert_eq!(decode_entry_data(&b("")), None);
    assert_eq!(decode_entry_data(&b("X|a|b")), None);
    assert_eq!(decode_entry_data(&b("D")), None);
    assert_eq!(decode_entry_data(&b("D|only")), None);
    assert_eq!(decode_entry_data(&b("D|a|b|c")), None);
    assert_eq!(decode_entry_data(&b("E|a|b")), None);
    assert_eq!(decode_entry_data(&b("E|a|b|c|d")), None);
    assert_eq!(decode_entry_data(&b("D|a|b\\")), None);
}
