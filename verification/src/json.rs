//! Rendering an attribute to its transport string.
//!
//! The wire representation is an object with a `key` field (the key's wire
//! name) and a `value` field (the encoded payload string, or null when the
//! value is absent). Scope is never serialized: consumers recompute it from
//! the key.

use vstd::prelude::*;
use vstd::string::StringExecFns;

use crate::attribute::Attribute;
use crate::key::spec_wire_name;
use crate::key::wire_name;
use crate::key::AttributeKey;

verus! {

/// The JSON string form that serde_json gives to a string payload,
/// surrounding quotes and escapes included.
pub uninterp spec fn spec_json_string(s: Seq<char>) -> Seq<char>;

/// Relies on serde_json::to_string on a string slice: the encoded form
/// depends on the slice's characters alone.
#[verifier::external_body]
fn encode_json_string(s: &str) -> (r: Option<String>)
    ensures
        r matches Some(enc) ==> enc@ == spec_json_string(s@),
{
    serde_json::to_string(s).ok()
}

/// The transport string of an attribute with key `key` and normalized
/// payload `v`.
pub open spec fn spec_json_of(key: AttributeKey, v: Option<Seq<char>>) -> Seq<char> {
    "{\"key\":\""@ + spec_wire_name(key) + "\",\"value\":"@ + (match v {
        Option::None => "null"@,
        Option::Some(s) => spec_json_string(s),
    }) + "}"@
}

/// Assembles the transport string from a wire name and an already-encoded
/// value part (a JSON string, or `null`).
pub fn assemble_json(name: &str, value_part: &str) -> (r: String)
    ensures
        r@ == "{\"key\":\""@ + name@ + "\",\"value\":"@ + value_part@ + "}"@,
{
    let mut out = "{\"key\":\"".to_owned();
    out.append(name);
    out.append("\",\"value\":");
    out.append(value_part);
    out.append("}");
    proof {
        assert(out@ =~= "{\"key\":\""@ + name@ + "\",\"value\":"@ + value_part@ + "}"@);
    }
    out
}

impl Attribute {
    /// Renders the attribute to its transport string, keeping the degraded
    /// outcome explicit: `None` exactly when the underlying encoder failed on
    /// a present payload. An absent payload needs no encoder and always
    /// succeeds.
    pub fn to_json_checked(&self) -> (r: Option<String>)
        ensures
            r matches Some(s) ==> s@ == spec_json_of(self.key, self.value@),
            self.value@ is None ==> r is Some,
    {
        let name = wire_name(&self.key);
        match self.value.as_string() {
            Option::None => Option::Some(assemble_json(name, "null")),
            Option::Some(payload) => match encode_json_string(payload) {
                Option::Some(enc) => Option::Some(assemble_json(name, enc.as_str())),
                Option::None => Option::None,
            },
        }
    }

    /// Renders the attribute to its transport string; an encoder failure is
    /// collapsed to the empty string and never propagated to the caller. An
    /// absent payload always yields the full transport string, with a null
    /// value field.
    pub fn to_json(&self) -> (r: String)
        ensures
            r@ == spec_json_of(self.key, self.value@) || r@ == Seq::<char>::empty(),
            self.value@ is None ==> r@ == spec_json_of(self.key, self.value@),
    {
        match self.to_json_checked() {
            Option::Some(s) => s,
            Option::None => String::new(),
        }
    }
}

} // verus!
