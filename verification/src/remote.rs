//! Trusted boundary to outside encoders used by the interaction: base64 for
//! the inline page address, JSON string encoding for the telemetry cookie
//! values, and the human-readable duration rendering of the report lines.

use vstd::prelude::*;
use vstd::string::StringSliceAdditionalSpecFns;
use base64::Engine;

verus! {

/// The standard-alphabet base64 encoding of the given bytes.
pub uninterp spec fn base64_of(bytes: Seq<u8>) -> Seq<char>;

/// Relies on base64's `Engine::encode` with the pre-configured standard
/// engine: the encoding is a function of the input bytes alone, and encoding
/// no bytes gives the empty string.
#[verifier::external_body]
pub(crate) fn base64_encode(input: &str) -> (r: String)
    requires
        input.spec_bytes().len() <= usize::MAX / 4,
    ensures
        r@ == base64_of(input.spec_bytes()),
        input.spec_bytes().len() == 0 ==> r@.len() == 0,
{
    base64::engine::general_purpose::STANDARD.encode(input)
}

/// The JSON string encoding of the given characters, quotes included.
pub uninterp spec fn json_string_of(s: Seq<char>) -> Seq<char>;

/// Relies on `serde_json::to_string` applied to a string slice: the result is
/// the JSON string encoding of the characters alone. Serializing a string
/// cannot fail (errors come only from failing `Serialize` implementations or
/// maps with non-string keys), so the fallback arm is never taken.
#[verifier::external_body]
pub(crate) fn json_encode_str(s: &str) -> (r: String)
    ensures
        r@ == json_string_of(s@),
{
    match serde_json::to_string(s) {
        Ok(encoded) => encoded,
        Err(_) => String::new(),
    }
}

/// The human-readable rendering of a duration of the given milliseconds.
pub uninterp spec fn human_duration_of(ms: u64) -> Seq<char>;

/// Relies on `humantime::format_duration`: the rendering is a function of the
/// duration alone.
#[verifier::external_body]
pub(crate) fn format_duration_ms(ms: u64) -> (r: String)
    ensures
        r@ == human_duration_of(ms),
{
    format!("{}", humantime::format_duration(core::time::Duration::from_millis(ms)))
}

/// The address the navigate step loads: the page body inlined as a base64
/// data URL.
pub open spec fn page_data_url(body_bytes: Seq<u8>) -> Seq<char> {
    "data:text/html;charset=utf-8;base64,"@ + base64_of(body_bytes)
}

/// Build the inline data URL of the given page body.
pub fn demo_page_url(body: &str) -> (r: String)
    requires
        body.spec_bytes().len() <= usize::MAX / 4,
    ensures
        r@ == page_data_url(body.spec_bytes()),
{
    let mut url = "data:text/html;charset=utf-8;base64,".to_owned();
    let encoded = base64_encode(body);
    url.append(encoded.as_str());
    url
}

} // verus!
