use vstd::prelude::*;

verus! {

#[verifier::external_type_specification]
#[verifier::external_body]
pub struct ExJsonValue(serde_json::Value);

/// The JSON encoding of a structured argument value. serde_json writes a
/// given value as one fixed byte sequence (its maps keep their keys in
/// sorted order), so the encoding is a function of the value alone.
pub uninterp spec fn json_bytes(v: serde_json::Value) -> Seq<u8>;

/// Relies on serde_json::to_vec: serializes the value as JSON text. Encoding
/// a serde_json::Value cannot fail, since its maps only ever carry string
/// keys and its own Serialize implementation never errors.
#[verifier::external_body]
pub(crate) fn json_to_vec(v: &serde_json::Value) -> (r: Vec<u8>)
    ensures
        r@ == json_bytes(*v),
{
    serde_json::to_vec(v).unwrap()
}

/// The payload a sender attaches when the caller never supplied arguments:
/// the JSON literal `null`, the same bytes an empty configuration has always
/// put on the wire.
pub open spec fn null_json_bytes() -> Seq<u8> {
    seq![110u8, 117u8, 108u8, 108u8]
}

/// The default argument payload, the four bytes of the JSON literal `null`.
pub fn null_args() -> (r: Vec<u8>)
    ensures
        r@ == null_json_bytes(),
{
    let r: Vec<u8> = vec![110u8, 117u8, 108u8, 108u8];
    proof {
        assert(r@ =~= null_json_bytes());
    }
    r
}

} // verus!
