//! The request flow over handles: contexts live in tables owned by the
//! client, callers hold only [`Handle`]s, and every failure is recorded in
//! the caller's [`ErrorChannel`] while a sentinel is returned.
use vstd::prelude::*;
use crate::arena::{Arena, Handle};
use crate::context::{
    decapsulate_response_recorded, encapsulate_request_recorded, release_request,
    RequestContext, ResponseContext,
};
use crate::context::usable_config;
use crate::engine::REQUEST_HEADER_LEN;
use crate::error::{ClientError, ErrorChannel, ErrorKind};

verus! {

/// Owner of every live request and response context of one set of callers.
pub struct Client {
    requests: Arena<RequestContext>,
    responses: Arena<ResponseContext>,
}

impl Client {
    /// The table of request contexts.
    pub closed spec fn requests(&self) -> Arena<RequestContext> {
        self.requests
    }

    /// The table of response contexts.
    pub closed spec fn responses(&self) -> Arena<ResponseContext> {
        self.responses
    }

    /// A client with no contexts.
    pub fn new() -> (c: Client)
        ensures
            forall|h: Handle| #[trigger] c.requests().get(h) is None,
            forall|h: Handle| #[trigger] c.responses().get(h) is None,
    {
        Client { requests: Arena::new(), responses: Arena::new() }
    }

    /// Encapsulates `encoded_msg` for `encoded_config` and returns a handle
    /// to the new request context. On failure nothing is kept, the failure
    /// is recorded in `channel`, and no handle is returned.
    pub fn encapsulate(
        &mut self,
        channel: &mut ErrorChannel,
        encoded_config: &[u8],
        encoded_msg: &[u8],
    ) -> (r: Option<Handle>)
        ensures
            final(self).responses() == old(self).responses(),
            match r {
                Some(h) => {
                    &&& *final(channel) == *old(channel)
                    &&& old(self).requests().get(h) is None
                    &&& final(self).requests().get(h) matches Some(c) && c@.len()
                        >= encoded_msg@.len() + REQUEST_HEADER_LEN
                    &&& old(self).requests().same_except(&final(self).requests(), h)
                    &&& old(self).requests().keeps_retired(&final(self).requests())
                },
                None => {
                    &&& final(self).requests() == old(self).requests()
                    &&& final(channel)@ == Some(
                        if usable_config(encoded_config@) {
                            ErrorKind::EncapsulationFailed
                        } else {
                            ErrorKind::RequestContextInitialization
                        },
                    )
                },
            },
            !usable_config(encoded_config@) ==> r is None,
    {
        match encapsulate_request_recorded(channel, encoded_config, encoded_msg) {
            Some(context) => Some(self.requests.insert(context)),
            None => None,
        }
    }

    /// The encapsulated request that `h` reaches, if it is live.
    pub fn request_message(&self, h: Handle) -> (r: Option<&Vec<u8>>)
        ensures
            r matches Some(m) ==> self.requests().get(h) matches Some(c) && m@ == c@,
            r is None <==> self.requests().get(h) is None,
    {
        match self.requests.get_ref(h) {
            Some(c) => Some(c.message()),
            None => None,
        }
    }

    /// The length of the encapsulated request that `h` reaches, if it is live.
    pub fn request_message_len(&self, h: Handle) -> (r: Option<usize>)
        ensures
            r matches Some(n) ==> self.requests().get(h) matches Some(c) && n == c@.len(),
            r is None <==> self.requests().get(h) is None,
    {
        match self.requests.get_ref(h) {
            Some(c) => Some(c.message_len()),
            None => None,
        }
    }

    /// Releases the request context that `h` reaches without decapsulating
    /// anything, and says whether there was one. No error is recorded
    /// anywhere: the client is given no channel.
    pub fn release_request(&mut self, h: Handle) -> (r: bool)
        ensures
            r == old(self).requests().get(h) is Some,
            final(self).requests().get(h) is None,
            r ==> final(self).requests().retired(h),
            old(self).requests().same_except(&final(self).requests(), h),
            old(self).requests().keeps_retired(&final(self).requests()),
            final(self).responses() == old(self).responses(),
    {
        match self.requests.take(h) {
            Some(context) => {
                release_request(context);
                true
            },
            None => false,
        }
    }

    /// Decapsulates `encapsulated_response` with the request context that `h`
    /// reaches, and returns a handle to the new response context. The request
    /// context is consumed whatever the outcome. A handle that reaches no
    /// request context is an invalid argument.
    pub fn decapsulate(
        &mut self,
        channel: &mut ErrorChannel,
        h: Handle,
        encapsulated_response: &[u8],
    ) -> (r: Option<Handle>)
        ensures
            final(self).requests().get(h) is None,
            old(self).requests().get(h) is Some ==> final(self).requests().retired(h),
            old(self).requests().same_except(&final(self).requests(), h),
            old(self).requests().keeps_retired(&final(self).requests()),
            match r {
                Some(g) => {
                    &&& *final(channel) == *old(channel)
                    &&& old(self).requests().get(h) is Some
                    &&& old(self).responses().get(g) is None
                    &&& final(self).responses().get(g) is Some
                    &&& old(self).responses().same_except(&final(self).responses(), g)
                    &&& old(self).responses().keeps_retired(&final(self).responses())
                },
                None => {
                    &&& final(self).responses() == old(self).responses()
                    &&& final(channel)@ == Some(
                        if old(self).requests().get(h) is Some {
                            ErrorKind::DecapsulationFailed
                        } else {
                            ErrorKind::InvalidArgument
                        },
                    )
                },
            },
            encapsulated_response@.len() == 0 ==> r is None,
    {
        match self.requests.take(h) {
            Some(context) => match decapsulate_response_recorded(
                channel,
                context,
                encapsulated_response,
            ) {
                Some(response) => Some(self.responses.insert(response)),
                None => None,
            },
            None => {
                channel.record(
                    ClientError::InvalidArgument(String::from_str("request context handle")),
                );
                None
            },
        }
    }

    /// The decapsulated response that `h` reaches, if it is live.
    pub fn response_message(&self, h: Handle) -> (r: Option<&Vec<u8>>)
        ensures
            r matches Some(m) ==> self.responses().get(h) matches Some(c) && m@ == c@,
            r is None <==> self.responses().get(h) is None,
    {
        match self.responses.get_ref(h) {
            Some(c) => Some(c.message()),
            None => None,
        }
    }

    /// The length of the decapsulated response that `h` reaches, if it is live.
    pub fn response_message_len(&self, h: Handle) -> (r: Option<usize>)
        ensures
            r matches Some(n) ==> self.responses().get(h) matches Some(c) && n == c@.len(),
            r is None <==> self.responses().get(h) is None,
    {
        match self.responses.get_ref(h) {
            Some(c) => Some(c.message_len()),
            None => None,
        }
    }

    /// Releases the response context that `h` reaches, and says whether
    /// there was one.
    pub fn release_response(&mut self, h: Handle) -> (r: bool)
        ensures
            r == old(self).responses().get(h) is Some,
            final(self).responses().get(h) is None,
            r ==> final(self).responses().retired(h),
            old(self).responses().same_except(&final(self).responses(), h),
            old(self).responses().keeps_retired(&final(self).responses()),
            final(self).requests() == old(self).requests(),
    {
        self.responses.take(h).is_some()
    }
}

} // verus!
