//! The protocol engine: ohttp's client types, declared for Verus, and the
//! contracts this library relies on for the three calls it makes into them.
use vstd::prelude::*;
use crate::config::lacks_supported_suite;

verus! {

/// Bytes of an encapsulated request that precede the HPKE encapsulated key:
/// the key identifier and the KEM, KDF and AEAD identifiers.
pub const REQUEST_HEADER_LEN: usize = 7;

#[verifier::external_type_specification]
#[verifier::external_body]
pub struct ExClientRequest(ohttp::ClientRequest);

#[verifier::external_type_specification]
#[verifier::external_body]
pub struct ExClientResponse(ohttp::ClientResponse);

#[verifier::external_type_specification]
#[verifier::external_body]
pub struct ExOhttpError(ohttp::Error);

/// Whether ohttp decodes `encoded` as a key configuration that it supports.
/// Decoding reads the bytes alone, so this depends on them alone.
pub uninterp spec fn config_accepted(encoded: Seq<u8>) -> bool;

/// Relies on `ohttp::ClientRequest::from_encoded_config`: it succeeds exactly
/// when the configuration decodes and is supported, and it fails on no bytes
/// at all (the key identifier cannot be read). A configuration that decodes
/// but keeps no supported suite makes it index an empty suite list, so such
/// bytes are left out.
pub assume_specification[ ohttp::ClientRequest::from_encoded_config ](
    encoded_config: &[u8],
) -> (r: Result<ohttp::ClientRequest, ohttp::Error>)
    requires
        !lacks_supported_suite(encoded_config@),
    ensures
        r is Ok <==> config_accepted(encoded_config@),
        encoded_config@.len() == 0 ==> r is Err,
;

/// Relies on `ohttp::ClientRequest::encapsulate`: it consumes the request
/// sender and, on success, returns the header, the encapsulated key and the
/// sealed request, which together are longer than the request by at least
/// the header.
pub assume_specification[ ohttp::ClientRequest::encapsulate ](
    client: ohttp::ClientRequest,
    request: &[u8],
) -> (r: Result<(Vec<u8>, ohttp::ClientResponse), ohttp::Error>)
    ensures
        r is Ok ==> r->Ok_0.0@.len() >= request@.len() + REQUEST_HEADER_LEN,
;

/// Relies on `ohttp::ClientResponse::decapsulate`: it consumes the response
/// handler, and it fails with `Truncated` when the response is not longer
/// than the larger of the AEAD's nonce and key sizes, so always on an empty
/// response.
pub assume_specification[ ohttp::ClientResponse::decapsulate ](
    response: ohttp::ClientResponse,
    enc_response: &[u8],
) -> (r: Result<Vec<u8>, ohttp::Error>)
    ensures
        enc_response@.len() == 0 ==> r is Err,
;

} // verus!
