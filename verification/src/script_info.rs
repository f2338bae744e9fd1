//! The script-info runtime operation: the JavaScript shim it installs, and
//! the stable identity hash it derives for a script handle — the default
//! hasher over the handle id, base64 encoded — which scripts use as their
//! state key.

use std::collections::hash_map::DefaultHasher;
use std::hash::Hasher;

use base64::Engine;

use vstd::prelude::*;
use vstd::std_specs::hash::DefaultHasherAdditionalSpecFns;

verus! {

/// The character the standard base64 alphabet assigns to a sextet.
pub open spec fn b64_char(v: int) -> char {
    if 0 <= v < 26 {
        ((65 + v) as u8) as char
    } else if 26 <= v < 52 {
        ((97 + (v - 26)) as u8) as char
    } else if 52 <= v < 62 {
        ((48 + (v - 52)) as u8) as char
    } else if v == 62 {
        '+'
    } else {
        '/'
    }
}

/// Standard, padded base64 of a byte sequence: three bytes become four
/// sextet characters; a final group of one or two bytes is padded with
/// `=`.
pub open spec fn base64_of(bytes: Seq<u8>) -> Seq<char>
    decreases bytes.len(),
{
    if bytes.len() == 0 {
        Seq::empty()
    } else if bytes.len() == 1 {
        let b0 = bytes[0] as int;
        seq![b64_char(b0 / 4), b64_char((b0 % 4) * 16), '=', '=']
    } else if bytes.len() == 2 {
        let b0 = bytes[0] as int;
        let b1 = bytes[1] as int;
        seq![b64_char(b0 / 4), b64_char((b0 % 4) * 16 + b1 / 16), b64_char((b1 % 16) * 4), '=']
    } else {
        let b0 = bytes[0] as int;
        let b1 = bytes[1] as int;
        let b2 = bytes[2] as int;
        seq![
            b64_char(b0 / 4),
            b64_char((b0 % 4) * 16 + b1 / 16),
            b64_char((b1 % 16) * 4 + b2 / 64),
            b64_char(b2 % 64),
        ] + base64_of(bytes.skip(3))
    }
}

/// Relies on base64's `STANDARD` engine: padded encoding over the standard
/// alphabet, a function of the input bytes alone.
#[verifier::external_body]
fn base64_encode(bytes: &Vec<u8>) -> (r: String)
    ensures
        r@ == base64_of(bytes@),
{
    base64::engine::general_purpose::STANDARD.encode(bytes.as_slice())
}

/// Base64 text of the little-endian bytes of a 64-bit hash value. Applied
/// to the hasher's output it yields the script's stable state key; it is
/// exact for any 64-bit value.
pub fn encode_handle_hash(hash: u64) -> (r: String)
    ensures
        r@ == base64_of(vstd::bytes::spec_u64_to_le_bytes(hash)),
{
    let bytes = vstd::bytes::u64_to_le_bytes(hash);
    base64_encode(&bytes)
}

/// The script-info runtime operation: exposes the current script's path,
/// handle and stable identity hash to scripts.
pub struct ScriptInfoGet;

impl ScriptInfoGet {
    /// The text of the JavaScript shim.
    pub open spec fn spec_js() -> Seq<char> {
        "\n            if (!globalThis.ScriptInfo) {\n                globalThis.ScriptInfo = {}\n            }\n\n            globalThis.ScriptInfo.get = () => {\n                return bevyModJsScriptingOpSync('jumpy_script_info_get');\n            }\n\n            globalThis.ScriptInfo.state = (init) => {\n                const scriptId = ScriptInfo.get().handle_id_hash;\n                if (!globalThis.scriptState) globalThis.scriptState = {};\n                if (!globalThis.scriptState[scriptId]) globalThis.scriptState[scriptId] = init || {}\n                return globalThis.scriptState[scriptId];\n            }\n            "@
    }
}

impl ScriptInfoGet {
    /// The JavaScript shim the operation installs: `ScriptInfo.get` and the
    /// per-script `ScriptInfo.state` store keyed by the identity hash.
    pub fn js(&self) -> (r: Option<&'static str>)
        ensures
            r is Some,
            r->0@ =~= Self::spec_js(),
    {
        Some(
            "\n            if (!globalThis.ScriptInfo) {\n                globalThis.ScriptInfo = {}\n            }\n\n            globalThis.ScriptInfo.get = () => {\n                return bevyModJsScriptingOpSync('jumpy_script_info_get');\n            }\n\n            globalThis.ScriptInfo.state = (init) => {\n                const scriptId = ScriptInfo.get().handle_id_hash;\n                if (!globalThis.scriptState) globalThis.scriptState = {};\n                if (!globalThis.scriptState[scriptId]) globalThis.scriptState[scriptId] = init || {}\n                return globalThis.scriptState[scriptId];\n            }\n            ",
        )
    }

    /// The stable identity hash of a script handle id: the default hasher
    /// over the id's little-endian bytes, base64 encoded.
    pub fn handle_id_hash(&self, handle_id: u64) -> (r: String)
        ensures
            r@ == base64_of(
                vstd::bytes::spec_u64_to_le_bytes(
                    DefaultHasher::spec_finish(
                        seq![vstd::bytes::spec_u64_to_le_bytes(handle_id)],
                    ),
                ),
            ),
    {
        let mut hasher = DefaultHasher::new();
        let bytes = vstd::bytes::u64_to_le_bytes(handle_id);
        hasher.write(bytes.as_slice());
        let h = hasher.finish();
        encode_handle_hash(h)
    }
}

} // verus!
