//! Responses that a guest sends.
use vstd::prelude::*;

use crate::engine::wasi::http::fields::Fields;
use crate::engine::wasi::http::ErrorCode;

verus! {

/// Whether `code` is a status code that a response may carry.
pub open spec fn is_status_code(code: u16) -> bool {
    100 <= code && code <= 999
}

/// The status codes a response may carry are exactly the three-digit ones.
pub proof fn lemma_status_codes_have_three_digits(code: u16)
    ensures
        is_status_code(code) <==> (1 <= code / 100 && code / 100 <= 9),
        is_status_code(200) && is_status_code(100) && is_status_code(999),
        !is_status_code(99) && !is_status_code(1000) && !is_status_code(0),
{
}

/// The concrete type behind a `wasi:http/types/outgoing-response` resource,
/// over the handle `B` of its body.
pub struct OutgoingResponse<B> {
    /// The status of the response.
    status: u16,
    /// The headers of the response.
    headers: Fields,
    /// The body of the response, once the guest asked for it.
    body: Option<B>,
}

impl<B> OutgoingResponse<B> {
    #[verifier::type_invariant]
    spec fn inv(self) -> bool {
        is_status_code(self.status)
    }

    /// The status of the response.
    pub closed spec fn status_spec(&self) -> u16 {
        self.status
    }

    /// The handle of the body, once the guest asked for it.
    pub closed spec fn body_spec(&self) -> Option<B> {
        self.body
    }

    /// The headers of the response.
    pub closed spec fn headers_spec(&self) -> Fields {
        self.headers
    }

    /// `outgoing-response.new`: status 200, no body yet.
    pub fn new(headers: Fields) -> (r: Self)
        ensures
            r.status_spec() == 200,
            r.body_spec() is None,
            r.headers_spec() == headers,
    {
        OutgoingResponse { status: 200, headers, body: None }
    }

    /// `outgoing-response.status-code`.
    pub fn status_code(&self) -> (r: u16)
        ensures
            r == self.status_spec(),
            is_status_code(r),
    {
        proof {
            use_type_invariant(self);
        }
        self.status
    }

    /// `outgoing-response.set-status-code`: a code from 100 to 999.
    pub fn set_status_code(&mut self, status_code: u16) -> (r: Result<(), ()>)
        ensures
            r is Ok <==> is_status_code(status_code),
            r is Ok ==> final(self).status_spec() == status_code,
            r is Err ==> final(self).status_spec() == old(self).status_spec(),
            final(self).body_spec() == old(self).body_spec(),
    {
        if status_code < 100 || status_code > 999 {
            return Err(());
        }
        self.status = status_code;
        Ok(())
    }

}

impl<B: Clone> OutgoingResponse<B> {
    /// `outgoing-response.body`: the body, which `make` creates, handed out
    /// once; the response keeps a copy of the handle.
    pub fn body<F: FnOnce() -> B>(&mut self, make: F) -> (r: Result<B, ()>)
        requires
            call_requires(make, ()),
        ensures
            old(self).body_spec() is Some ==> r is Err && final(self).body_spec() == old(self).body_spec(),
            old(self).body_spec() is None ==> (r matches Ok(b) && call_ensures(make, (), b)
                && final(self).body_spec() is Some && cloned(b, final(self).body_spec()->0)),
            final(self).status_spec() == old(self).status_spec(),
    {
        if self.body.is_some() {
            return Err(());
        }
        proof {
            use_type_invariant(&*self);
        }
        let b = make();
        self.body = Some(b.clone());
        Ok(b)
    }
}

/// `response-outparam.send-informational`: informational responses are not
/// supported.
pub fn send_informational(status: u16) -> (r: Result<(), ErrorCode>)
    ensures
        r matches Err(ErrorCode::InternalError(Some(m))) && m@
            == "informational responses not supported"@,
{
    Err(ErrorCode::InternalError(Some(String::from_str("informational responses not supported"))))
}

} // verus!
