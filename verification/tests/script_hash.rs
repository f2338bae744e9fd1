use jumpy_core::script_info::{encode_handle_hash, ScriptInfoGet};

#[test]
fn encode_zero_hash() {
    // eight zero bytes encode to eleven 'A' sextets and one pad
    assert_eq!(encode_handle_hash(0), "AAAAAAAAAAA=");
}

#[test]
fn encode_all_ones_hash() {
    // eight 0xff bytes: a well-known standard base64 value
    assert_eq!(encode_handle_hash(u64::MAX), "//////////8=");
}

#[test]
fn encode_uses_little_endian_byte_order() {
    // 0x01 as the first (least significant) byte: "AQ" leads the text
    assert_eq!(encode_handle_hash(1), "AQAAAAAAAAA=");
}

#[test]
fn handle_id_hash_is_stable_and_padded() {
    let op = ScriptInfoGet;
    let a = op.handle_id_hash(42);
    let b = op.handle_id_hash(42);
    assert_eq!(a, b);
    // eight bytes of hash always encode to twelve characters with one pad
    assert_eq!(a.len(), 12);
    assert!(a.ends_with('='));
}

#[test]
fn handle_id_hash_separates_handles() {
    let op = ScriptInfoGet;
    assert_ne!(op.handle_id_hash(1), op.handle_id_hash(2));
}

#[test]
fn js_shim_is_installed() {
    let op = ScriptInfoGet;
    let js = op.js();
    assert!(js.is_some());
    assert!(js.unwrap().contains("ScriptInfo"));
}
