//! The version document served at `/api/version`.

use vstd::prelude::*;

verus! {

/// The compact JSON text that `serde_json` writes for the document that `text`
/// parses to, if `text` is a JSON document.
pub uninterp spec fn json_reencoded(text: Seq<char>) -> Option<Seq<char>>;

/// Parses `text` with `serde_json::from_str` into a `serde_json::Value` and,
/// when that succeeds, writes the value back with `Value`'s `to_string`
/// (compact form). Claimed: the result is [`json_reencoded`] of the text, so
/// equal texts give equal results; `None` exactly when parsing fails. What
/// the re-encoded text looks like is left to `serde_json`.
#[verifier::external_body]
fn reencode_json(text: &str) -> (r: Option<String>)
    ensures
        match r {
            Some(s) => json_reencoded(text@) == Some(s@),
            None => json_reencoded(text@) is None,
        },
{
    match serde_json::from_str::<serde_json::Value>(text) {
        Ok(value) => Some(value.to_string()),
        Err(_) => None,
    }
}

/// The document served when the embedded build information is unreadable:
/// no commits, a count of zero and version `0.0.0`.
pub open spec fn fallback_version_document() -> Seq<char> {
    "{\"commits\":[],\"count\":0,\"version\":\"0.0.0\"}"@
}

/// The document to serve, given the re-encoded build information if it parsed.
pub fn version_document_from(parsed: Option<String>) -> (doc: String)
    ensures
        doc@ == match parsed {
            Some(text) => text@,
            None => fallback_version_document(),
        },
{
    match parsed {
        Some(text) => text,
        None => "{\"commits\":[],\"count\":0,\"version\":\"0.0.0\"}".to_owned(),
    }
}

/// The document to serve for the embedded build information `embedded`: that
/// information re-encoded when it is JSON, the fallback document otherwise.
pub fn version_document(embedded: &str) -> (doc: String)
    ensures
        doc@ == match json_reencoded(embedded@) {
            Some(text) => text,
            None => fallback_version_document(),
        },
{
    version_document_from(reencode_json(embedded))
}

} // verus!
