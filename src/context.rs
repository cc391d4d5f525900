//! Request and response contexts and the transitions between them.
//!
//! A [`RequestContext`] exists only after a successful encapsulation and is
//! consumed, by value, either by [`decapsulate_response`] or by
//! [`release_request`]. A [`ResponseContext`] exists only after a successful
//! decapsulation.
use vstd::prelude::*;
use crate::config::{lacks_supported_suite, lists_no_supported_suite};
use crate::engine::{config_accepted, REQUEST_HEADER_LEN};
use crate::error::{ClientError, ErrorChannel, ErrorKind, kind_of};

verus! {

/// An encapsulated request, with the single-use capability that opens its
/// response.
pub struct RequestContext {
    encapsulated_request: Vec<u8>,
    response_context: ohttp::ClientResponse,
}

/// A decapsulated response.
pub struct ResponseContext {
    response: Vec<u8>,
}

impl RequestContext {
    /// The bytes of the encapsulated request.
    pub closed spec fn view(&self) -> Seq<u8> {
        self.encapsulated_request@
    }

    /// The capability that opens this request's response.
    pub closed spec fn capability(&self) -> ohttp::ClientResponse {
        self.response_context
    }

    /// The encapsulated request, to be sent to the relay.
    pub fn message(&self) -> (r: &Vec<u8>)
        ensures
            r@ == self@,
    {
        &self.encapsulated_request
    }

    /// The length in bytes of the encapsulated request.
    pub fn message_len(&self) -> (r: usize)
        ensures
            r == self@.len(),
    {
        self.encapsulated_request.len()
    }
}

impl ResponseContext {
    /// The bytes of the decapsulated response.
    pub closed spec fn view(&self) -> Seq<u8> {
        self.response@
    }

    /// The decapsulated response.
    pub fn message(&self) -> (r: &Vec<u8>)
        ensures
            r@ == self@,
    {
        &self.response
    }

    /// The length in bytes of the decapsulated response.
    pub fn message_len(&self) -> (r: usize)
        ensures
            r == self@.len(),
    {
        self.response.len()
    }

    /// Takes the decapsulated response out of the context, releasing it.
    pub fn into_message(self) -> (r: Vec<u8>)
        ensures
            r@ == self@,
    {
        self.response
    }
}

/// The outcome of encapsulation, given what the engine returned: the
/// ciphertext and capability bundled into a context, or the engine's error
/// classified as an encapsulation failure.
pub fn request_from_outcome(
    outcome: Result<(Vec<u8>, ohttp::ClientResponse), ohttp::Error>,
) -> (r: Result<RequestContext, ClientError>)
    ensures
        match outcome {
            Ok(pair) => r matches Ok(c) && c@ == pair.0@ && c.capability() == pair.1,
            Err(e) => r == Err::<RequestContext, ClientError>(ClientError::EncapsulationFailed(e)),
        },
{
    match outcome {
        Ok((encapsulated_request, response_context)) => Ok(
            RequestContext { encapsulated_request, response_context },
        ),
        Err(e) => Err(ClientError::EncapsulationFailed(e)),
    }
}

/// A configuration that lists a suite the engine supports and that the
/// engine accepts.
pub open spec fn usable_config(encoded_config: Seq<u8>) -> bool {
    !lacks_supported_suite(encoded_config) && config_accepted(encoded_config)
}

/// Encapsulates `encoded_msg` for the key configuration `encoded_config`.
///
/// Fails with an error of kind `RequestContextInitialization` exactly when
/// the configuration is not usable: `NoSupportedSuite` when it lists no
/// supported suite, the engine's error otherwise. A usable configuration
/// either succeeds, with a request at least a header longer than the
/// message, or fails with `EncapsulationFailed`.
pub fn encapsulate_request(encoded_config: &[u8], encoded_msg: &[u8]) -> (r: Result<
    RequestContext,
    ClientError,
>)
    ensures
        (r matches Err(e) && kind_of(e) == ErrorKind::RequestContextInitialization)
            <==> !usable_config(encoded_config@),
        lacks_supported_suite(encoded_config@) ==> r matches Err(ClientError::NoSupportedSuite),
        r matches Err(e) ==> kind_of(e) == ErrorKind::RequestContextInitialization || kind_of(e)
            == ErrorKind::EncapsulationFailed,
        r matches Ok(c) ==> c@.len() >= encoded_msg@.len() + REQUEST_HEADER_LEN,
{
    if lists_no_supported_suite(encoded_config) {
        return Err(ClientError::NoSupportedSuite);
    }
    let client = match ohttp::ClientRequest::from_encoded_config(encoded_config) {
        Ok(c) => c,
        Err(e) => {
            return Err(ClientError::RequestContextInitialization(e));
        },
    };
    request_from_outcome(client.encapsulate(encoded_msg))
}

/// The outcome of decapsulation, given what the engine returned: the
/// plaintext in a new context, or the engine's error classified as a
/// decapsulation failure.
pub fn response_from_outcome(outcome: Result<Vec<u8>, ohttp::Error>) -> (r: Result<
    ResponseContext,
    ClientError,
>)
    ensures
        match outcome {
            Ok(v) => r matches Ok(c) && c@ == v@,
            Err(e) => r == Err::<ResponseContext, ClientError>(ClientError::DecapsulationFailed(e)),
        },
{
    match outcome {
        Ok(response) => Ok(ResponseContext { response }),
        Err(e) => Err(ClientError::DecapsulationFailed(e)),
    }
}

/// Decapsulates `encapsulated_response` with the capability of `context`,
/// which is consumed whatever the outcome. The only failure is
/// `DecapsulationFailed`, and an empty response always gives it.
pub fn decapsulate_response(context: RequestContext, encapsulated_response: &[u8]) -> (r: Result<
    ResponseContext,
    ClientError,
>)
    ensures
        r matches Err(e) ==> kind_of(e) == ErrorKind::DecapsulationFailed,
        encapsulated_response@.len() == 0 ==> r is Err,
{
    let RequestContext { encapsulated_request: _, response_context } = context;
    response_from_outcome(response_context.decapsulate(encapsulated_response))
}

/// Releases a request context that will not be decapsulated.
pub fn release_request(context: RequestContext) {
    let RequestContext { encapsulated_request: _, response_context: _ } = context;
}

/// [`encapsulate_request`] under the boundary's convention: a failure is
/// recorded in `channel` and nothing is returned; on success the channel is
/// left as it was.
pub fn encapsulate_request_recorded(
    channel: &mut ErrorChannel,
    encoded_config: &[u8],
    encoded_msg: &[u8],
) -> (r: Option<RequestContext>)
    ensures
        r matches Some(c) ==> *final(channel) == *old(channel) && c@.len() >= encoded_msg@.len()
            + REQUEST_HEADER_LEN,
        r is None ==> (final(channel)@ matches Some(k) && (k == ErrorKind::RequestContextInitialization
            || k == ErrorKind::EncapsulationFailed)),
        !usable_config(encoded_config@) ==> r is None && final(channel)@ == Some(
            ErrorKind::RequestContextInitialization,
        ),
        usable_config(encoded_config@) && r is None ==> final(channel)@ == Some(
            ErrorKind::EncapsulationFailed,
        ),
{
    channel.settle(encapsulate_request(encoded_config, encoded_msg))
}

/// [`decapsulate_response`] under the boundary's convention: `context` is
/// consumed whatever the outcome, a failure is recorded in `channel` and
/// nothing is returned; on success the channel is left as it was.
pub fn decapsulate_response_recorded(
    channel: &mut ErrorChannel,
    context: RequestContext,
    encapsulated_response: &[u8],
) -> (r: Option<ResponseContext>)
    ensures
        r is Some ==> *final(channel) == *old(channel),
        r is None ==> final(channel)@ == Some(ErrorKind::DecapsulationFailed),
        encapsulated_response@.len() == 0 ==> r is None,
{
    channel.settle(decapsulate_response(context, encapsulated_response))
}

} // verus!
