//! Bodies of HTTP requests and responses: how much of a declared
//! `Content-Length` has gone out, and the life cycle of a body that a guest
//! writes.
use vstd::prelude::*;

use crate::engine::wasi::http::ErrorCode;

verus! {

/// Whether the body is a request or response body.
#[derive(Clone, Copy, Debug, PartialEq, Eq, Structural)]
pub enum BodyContext {
    /// The body is a request body.
    Request,
    /// The body is a response body.
    Response,
}

impl BodyContext {
    /// The error that reports a body of `size` bytes as too large.
    pub fn as_body_size_error(&self, size: u64) -> (r: ErrorCode)
        ensures
            *self == BodyContext::Request ==> r == ErrorCode::HttpRequestBodySize(Some(size)),
            *self == BodyContext::Response ==> r == ErrorCode::HttpResponseBodySize(Some(size)),
    {
        match self {
            BodyContext::Request => ErrorCode::HttpRequestBodySize(Some(size)),
            BodyContext::Response => ErrorCode::HttpResponseBodySize(Some(size)),
        }
    }

    /// The error that reports the size of a body that breaks its declared
    /// length: the size, where it fits in a `u64`.
    pub fn size_error(&self, size: Option<u64>) -> (r: ErrorCode)
        ensures
            r == body_size_error(*self, size),
    {
        match self {
            BodyContext::Request => ErrorCode::HttpRequestBodySize(size),
            BodyContext::Response => ErrorCode::HttpResponseBodySize(size),
        }
    }
}

/// The body size error for a body of `ctx`.
pub open spec fn body_size_error(ctx: BodyContext, size: Option<u64>) -> ErrorCode {
    match ctx {
        BodyContext::Request => ErrorCode::HttpRequestBodySize(size),
        BodyContext::Response => ErrorCode::HttpResponseBodySize(size),
    }
}

/// Represents `Content-Length` limit and state
#[derive(Copy, Clone, Debug, PartialEq, Eq, Structural, Hash)]
pub struct ContentLength {
    /// Limit of bytes to be sent
    pub limit: u64,
    /// Number of bytes sent
    pub sent: u64,
}

impl ContentLength {
    /// A limit of `limit` bytes, none of them sent yet.
    pub fn new(limit: u64) -> (r: Self)
        ensures
            r.limit == limit,
            r.sent == 0,
    {
        ContentLength { limit, sent: 0 }
    }
}

/// What accounting a data frame of `len` bytes of a body of `ctx` does to
/// `cl`: the new state and the error, if the frame breaks the limit. A frame
/// that breaks the limit leaves the count as it was.
pub open spec fn frame_outcome(ctx: BodyContext, cl: Option<ContentLength>, len: nat) -> (
    Option<ContentLength>,
    Option<ErrorCode>,
) {
    match cl {
        None => (None, None),
        Some(c) => if c.sent + len > u64::MAX {
            (cl, Some(body_size_error(ctx, None)))
        } else if c.sent + len > c.limit {
            (cl, Some(body_size_error(ctx, Some((c.sent + len) as u64))))
        } else {
            (Some(ContentLength { limit: c.limit, sent: (c.sent + len) as u64 }), None)
        },
    }
}

/// The error with which a body of `ctx` ends, if it ends before or after
/// its declared length.
pub open spec fn end_outcome(ctx: BodyContext, cl: Option<ContentLength>) -> Option<ErrorCode> {
    match cl {
        Some(c) => if c.limit != c.sent {
            Some(body_size_error(ctx, Some(c.sent)))
        } else {
            None
        },
        None => None,
    }
}

/// Accounts a data frame of `len` bytes of a body of `ctx` against the
/// declared length, if there is one.
pub fn record_frame(ctx: BodyContext, content_length: &mut Option<ContentLength>, len: usize) -> (r:
    Result<(), ErrorCode>)
    ensures
        *final(content_length) == frame_outcome(ctx, *old(content_length), len as nat).0,
        r is Err <==> frame_outcome(ctx, *old(content_length), len as nat).1 is Some,
        r matches Err(e) ==> frame_outcome(ctx, *old(content_length), len as nat).1 == Some(e),
{
    match content_length {
        None => Ok(()),
        Some(c) => {
            let n = len as u64;
            match c.sent.checked_add(n) {
                None => Err(ctx.size_error(None)),
                Some(total) => if total > c.limit {
                    Err(ctx.size_error(Some(total)))
                } else {
                    c.sent = total;
                    Ok(())
                },
            }
        },
    }
}

/// Checks, at the end of a body of `ctx`, that exactly the declared length
/// was sent.
pub fn check_end(ctx: BodyContext, content_length: &Option<ContentLength>) -> (r: Result<
    (),
    ErrorCode,
>)
    ensures
        r is Err <==> end_outcome(ctx, *content_length) is Some,
        r matches Err(e) ==> end_outcome(ctx, *content_length) == Some(e),
{
    match content_length {
        Some(c) => if c.limit != c.sent {
            Err(ctx.size_error(Some(c.sent)))
        } else {
            Ok(())
        },
        None => Ok(()),
    }
}

/// The exact number of bytes still to come, where a length was declared.
pub fn size_hint(content_length: &Option<ContentLength>) -> (r: Option<u64>)
    ensures
        content_length is None ==> r is None,
        content_length matches Some(c) ==> r == Some(
            if c.sent <= c.limit {
                (c.limit - c.sent) as u64
            } else {
                0u64
            },
        ),
{
    match content_length {
        Some(c) => Some(c.limit.saturating_sub(c.sent)),
        None => None,
    }
}

/// One step of producing a guest-written body for the host.
#[derive(Debug)]
pub enum FrameStep {
    /// A data frame to hand on.
    Frame(Vec<u8>),
    /// The body failed.
    Fail(Option<ErrorCode>),
    /// The body has ended.
    End,
    /// Nothing is buffered: the next frame has to be received from the guest.
    Receive,
}

/// Response body constructed by the guest: what was buffered before it
/// started to stream, and whether the stream is still open.
pub struct OutgoingResponseBody {
    open: bool,
    buffer: Vec<u8>,
    content_length: Option<ContentLength>,
}

impl OutgoingResponseBody {
    /// Whether the guest's stream is still open.
    pub closed spec fn is_open(&self) -> bool {
        self.open
    }

    /// The bytes buffered before the stream.
    pub closed spec fn buffered(&self) -> Seq<u8> {
        self.buffer@
    }

    /// The declared length and how much of it was sent.
    pub closed spec fn length(&self) -> Option<ContentLength> {
        self.content_length
    }

    /// A body that first yields `buffer`, then what the guest streams.
    pub fn new(buffer: Vec<u8>, content_length: Option<ContentLength>) -> (r: Self)
        ensures
            r.is_open(),
            r.buffered() == buffer@,
            r.length() == content_length,
    {
        OutgoingResponseBody { open: true, buffer, content_length }
    }

    /// The next step: the buffered bytes first, as one frame; with nothing
    /// buffered, the end if the stream is closed, else a receive.
    pub fn poll_frame(&mut self) -> (r: FrameStep)
        ensures
            final(self).is_open() == old(self).is_open(),
            old(self).buffered().len() > 0 ==> {
                let (cl, err) = frame_outcome(
                    BodyContext::Response,
                    old(self).length(),
                    old(self).buffered().len(),
                );
                &&& final(self).buffered().len() == 0
                &&& final(self).length() == cl
                &&& match err {
                    None => r matches FrameStep::Frame(b) && b@ == old(self).buffered(),
                    Some(e) => r matches FrameStep::Fail(Some(e2)) && e2 == e,
                }
            },
            old(self).buffered().len() == 0 ==> {
                &&& *final(self) == *old(self)
                &&& (if old(self).is_open() {
                    r is Receive
                } else {
                    r is End
                })
            },
    {
        if self.buffer.len() > 0 {
            let mut buffer: Vec<u8> = Vec::new();
            std::mem::swap(&mut buffer, &mut self.buffer);
            match record_frame(BodyContext::Response, &mut self.content_length, buffer.len()) {
                Ok(()) => FrameStep::Frame(buffer),
                Err(e) => FrameStep::Fail(Some(e)),
            }
        } else if self.open {
            FrameStep::Receive
        } else {
            FrameStep::End
        }
    }

    /// Takes what a receive gave: a frame, or the end of the stream.
    pub fn received(&mut self, chunk: Option<Vec<u8>>) -> (r: FrameStep)
        requires
            old(self).is_open(),
        ensures
            final(self).buffered() == old(self).buffered(),
            match chunk {
                Some(b) => {
                    let (cl, err) = frame_outcome(BodyContext::Response, old(self).length(), b.len() as nat);
                    &&& final(self).is_open()
                    &&& final(self).length() == cl
                    &&& match err {
                        None => r matches FrameStep::Frame(b2) && b2@ == b@,
                        Some(e) => r matches FrameStep::Fail(Some(e2)) && e2 == e,
                    }
                },
                None => {
                    &&& !final(self).is_open()
                    &&& final(self).length() == old(self).length()
                    &&& match end_outcome(BodyContext::Response, old(self).length()) {
                        None => r is End,
                        Some(e) => r matches FrameStep::Fail(Some(e2)) && e2 == e,
                    }
                },
            },
    {
        match chunk {
            Some(b) => match record_frame(BodyContext::Response, &mut self.content_length, b.len()) {
                Ok(()) => FrameStep::Frame(b),
                Err(e) => FrameStep::Fail(Some(e)),
            },
            None => {
                self.open = false;
                match check_end(BodyContext::Response, &self.content_length) {
                    Ok(()) => FrameStep::End,
                    Err(e) => FrameStep::Fail(Some(e)),
                }
            },
        }
    }

    /// Whether the body has ended.
    pub fn is_end_stream(&self) -> (r: bool)
        ensures
            r == !self.is_open(),
    {
        !self.open
    }

    /// The exact number of bytes still to come, where a length was declared.
    pub fn size_hint(&self) -> (r: Option<u64>)
        ensures
            self.length() is None ==> r is None,
            self.length() matches Some(c) ==> r == Some(
                if c.sent <= c.limit {
                    (c.limit - c.sent) as u64
                } else {
                    0u64
                },
            ),
    {
        size_hint(&self.content_length)
    }
}

/// Request body constructed by the guest, as far as it has been buffered.
pub struct OutgoingRequestBody {
    pub buffer: Vec<u8>,
    pub content_length: Option<ContentLength>,
}

impl OutgoingRequestBody {
    /// A body that yields `buffer`.
    pub fn new(buffer: Vec<u8>, content_length: Option<ContentLength>) -> (r: Self)
        ensures
            r.buffer@ == buffer@,
            r.content_length == content_length,
    {
        OutgoingRequestBody { buffer, content_length }
    }

    /// Hands out the buffered bytes as one frame, counted against the
    /// declared length.
    pub fn poll_frame(&mut self) -> (r: Result<Vec<u8>, Option<ErrorCode>>)
        requires
            old(self).buffer.len() > 0,
        ensures
            final(self).buffer.len() == 0,
            ({
                let (cl, err) = frame_outcome(
                    BodyContext::Request,
                    old(self).content_length,
                    old(self).buffer.len() as nat,
                );
                &&& final(self).content_length == cl
                &&& match err {
                    None => r matches Ok(b) && b@ == old(self).buffer@,
                    Some(e) => r matches Err(Some(e2)) && e2 == e,
                }
            }),
    {
        let mut buffer: Vec<u8> = Vec::new();
        std::mem::swap(&mut buffer, &mut self.buffer);
        match record_frame(BodyContext::Request, &mut self.content_length, buffer.len()) {
            Ok(()) => Ok(buffer),
            Err(e) => Err(Some(e)),
        }
    }

    /// The exact number of bytes still to come, where a length was declared.
    pub fn size_hint(&self) -> (r: Option<u64>)
        ensures
            self.content_length is None ==> r is None,
            self.content_length matches Some(c) ==> r == Some(
                if c.sent <= c.limit {
                    (c.limit - c.sent) as u64
                } else {
                    0u64
                },
            ),
    {
        size_hint(&self.content_length)
    }
}


/// What the host hands to the body of a response once the response is sent:
/// the connection's error report, the write permits, the data channel and
/// the trailer channel.
#[derive(Debug)]
pub struct OutgoingBodySender<C, P, D, T> {
    pub conn: C,
    pub permits: P,
    pub data: D,
    pub trailers: T,
}

/// The part of an [`OutgoingBodySender`] that an output stream writes with.
#[derive(Clone, Debug)]
pub struct OutgoingBodyContentSender<C, P, D> {
    pub conn: C,
    pub permits: P,
    pub data: D,
}

/// The life cycle of a body that a guest writes.
///
/// `W` is the sending end of the channel through which a stream opened
/// before the response was sent learns where to write.
#[derive(Debug)]
pub enum OutgoingBody<C, P, D, T, W> {
    /// Not yet written to; `body` is there once the response was sent.
    Created { limit: Option<u64>, body: Option<OutgoingBodySender<C, P, D, T>> },
    /// A stream was opened before the response was sent.
    Pending(W),
    /// A stream is writing; the trailers are still to be sent.
    Trailers { conn: C, tx: T },
    Dropped,
    Finished,
    Corrupted,
}

/// A use of a body in a state that does not allow it: the guest breaks the
/// protocol, and its call traps.
#[derive(Clone, Copy, Debug, PartialEq, Eq, Structural)]
pub enum BodyFault {
    Dropped,
    Finished,
    Corrupted,
    AlreadySet,
    ConnectionLockContended,
}

/// The stream that `write` opens on a body.
#[derive(Debug)]
pub enum BodyStream<C, P, D, X> {
    /// Writes go straight to the response.
    Writing(OutgoingBodyContentSender<C, P, D>),
    /// Writes wait until the response is sent; `X` receives where to write.
    Pending(X),
}

/// The fault of using a body in one of its final states.
pub open spec fn final_state_fault<C, P, D, T, W>(b: OutgoingBody<C, P, D, T, W>) -> Option<
    BodyFault,
> {
    match b {
        OutgoingBody::Dropped => Some(BodyFault::Dropped),
        OutgoingBody::Finished => Some(BodyFault::Finished),
        OutgoingBody::Corrupted => Some(BodyFault::Corrupted),
        _ => None,
    }
}

impl<C: Clone, P, D, T, W> OutgoingBody<C, P, D, T, W> {
    /// A body that nothing was written to, with the declared length `limit`.
    pub fn new(limit: Option<u64>) -> (r: Self)
        ensures
            r == (OutgoingBody::<C, P, D, T, W>::Created { limit, body: None }),
    {
        OutgoingBody::Created { limit, body: None }
    }

    /// `outgoing-body.write`: opens the body's one output stream. Once the
    /// response was sent the stream writes to it directly; before, it waits
    /// on a channel that `channel` makes, whose sending end the body keeps.
    /// The stream's budget is the declared length. A second call gets
    /// `Err(())` and changes nothing; a call on a dropped, finished or
    /// corrupted body faults and leaves it corrupted.
    pub fn write<X, F: FnOnce() -> (W, X)>(&mut self, channel: F) -> (r: Result<
        Result<(BodyStream<C, P, D, X>, Option<u64>), ()>,
        BodyFault,
    >)
        requires
            call_requires(channel, ()),
        ensures
            match *old(self) {
                OutgoingBody::Created { limit, body: Some(s) } => {
                    &&& r matches Ok(Ok((BodyStream::Writing(cs), budget)))
                    &&& budget == limit
                    &&& cs.conn == s.conn && cs.permits == s.permits && cs.data == s.data
                    &&& *final(self) matches OutgoingBody::Trailers { conn, tx }
                    &&& tx == s.trailers
                    &&& cloned(s.conn, conn)
                },
                OutgoingBody::Created { limit, body: None } => {
                    &&& r matches Ok(Ok((BodyStream::Pending(x), budget)))
                    &&& budget == limit
                    &&& *final(self) matches OutgoingBody::Pending(w)
                    &&& call_ensures(channel, (), (w, x))
                },
                OutgoingBody::Pending(_) => r == Ok::<_, BodyFault>(
                    Err::<(BodyStream<C, P, D, X>, Option<u64>), ()>(()),
                ) && *final(self) == *old(self),
                OutgoingBody::Trailers { .. } => r == Ok::<_, BodyFault>(
                    Err::<(BodyStream<C, P, D, X>, Option<u64>), ()>(()),
                ) && *final(self) == *old(self),
                _ => r == Err::<Result<(BodyStream<C, P, D, X>, Option<u64>), ()>, _>(
                    final_state_fault(*old(self))->0,
                ) && *final(self) == OutgoingBody::<C, P, D, T, W>::Corrupted,
            },
    {
        let mut prev = OutgoingBody::Corrupted;
        std::mem::swap(&mut prev, self);
        match prev {
            OutgoingBody::Created { limit, body: Some(s) } => {
                let OutgoingBodySender { conn, permits, data, trailers } = s;
                *self = OutgoingBody::Trailers { conn: conn.clone(), tx: trailers };
                Ok(Ok((BodyStream::Writing(OutgoingBodyContentSender { conn, permits, data }), limit)))
            },
            OutgoingBody::Created { limit, body: None } => {
                let (w, x) = channel();
                *self = OutgoingBody::Pending(w);
                Ok(Ok((BodyStream::Pending(x), limit)))
            },
            OutgoingBody::Pending(w) => {
                *self = OutgoingBody::Pending(w);
                Ok(Err(()))
            },
            OutgoingBody::Trailers { conn, tx } => {
                *self = OutgoingBody::Trailers { conn, tx };
                Ok(Err(()))
            },
            OutgoingBody::Dropped => Err(BodyFault::Dropped),
            OutgoingBody::Finished => Err(BodyFault::Finished),
            OutgoingBody::Corrupted => Err(BodyFault::Corrupted),
        }
    }

    /// `outgoing-body.finish` on a body whose response was sent, or whose
    /// stream is writing: `send_trailers` hands the trailer channel its
    /// trailers and says whether the receiver took them, then `conn_status`
    /// reports the connection's error, if any (`Err(())`: its lock was
    /// contended).
    fn finish_sent<FS: FnOnce(T) -> bool, FC: FnOnce(C) -> Result<Option<ErrorCode>, ()>>(
        conn: C,
        tx: T,
        send_trailers: FS,
        conn_status: FC,
    ) -> (r: Result<Result<(), ErrorCode>, BodyFault>)
        requires
            call_requires(send_trailers, (tx,)),
            forall|c: C| call_requires(conn_status, (c,)),
        ensures
            finish_outcome(send_trailers, conn_status, conn, tx, r),
    {
        let ghost t = tx;
        let ghost c = conn;
        let sent = send_trailers(tx);
        if !sent {
            let r = Ok(Err(ErrorCode::InternalError(Some(String::from_str("trailer receiver dropped")))));
            assert(call_ensures(send_trailers, (t,), false));
            return r;
        }
        let status = conn_status(conn);
        assert(call_ensures(send_trailers, (t,), true));
        assert(call_ensures(conn_status, (c,), status));
        match status {
            Err(u) => {
                assert(status == Err::<Option<ErrorCode>, ()>(()));
                Err(BodyFault::ConnectionLockContended)
            },
            Ok(Some(e)) => Ok(Err(e)),
            Ok(None) => Ok(Ok(())),
        }
    }

    /// `outgoing-body.finish`: the body ends, whatever happens. A body whose
    /// response was never sent cannot be finished; otherwise the trailers go
    /// out (see [`finish_outcome`]). Finishing a dropped, finished or
    /// corrupted body faults.
    pub fn finish<FS: FnOnce(T) -> bool, FC: FnOnce(C) -> Result<Option<ErrorCode>, ()>>(
        &mut self,
        send_trailers: FS,
        conn_status: FC,
    ) -> (r: Result<Result<(), ErrorCode>, BodyFault>)
        requires
            forall|t: T| call_requires(send_trailers, (t,)),
            forall|c: C| call_requires(conn_status, (c,)),
        ensures
            *final(self) == OutgoingBody::<C, P, D, T, W>::Finished,
            match *old(self) {
                OutgoingBody::Created { body: None, .. } => r matches Ok(
                    Err(ErrorCode::InternalError(Some(m))),
                ) && m@ == "cannot finish an unsent body"@,
                OutgoingBody::Pending(_) => r matches Ok(Err(ErrorCode::InternalError(Some(m))))
                    && m@ == "cannot finish an unsent body"@,
                OutgoingBody::Created { body: Some(s), .. } => finish_outcome(
                    send_trailers,
                    conn_status,
                    s.conn,
                    s.trailers,
                    r,
                ),
                OutgoingBody::Trailers { conn, tx } => finish_outcome(
                    send_trailers,
                    conn_status,
                    conn,
                    tx,
                    r,
                ),
                _ => r == Err::<Result<(), ErrorCode>, _>(final_state_fault(*old(self))->0),
            },
    {
        let mut prev = OutgoingBody::Finished;
        std::mem::swap(&mut prev, self);
        match prev {
            OutgoingBody::Created { body: None, .. } => Ok(
                Err(ErrorCode::InternalError(Some(String::from_str("cannot finish an unsent body")))),
            ),
            OutgoingBody::Pending(_) => Ok(
                Err(ErrorCode::InternalError(Some(String::from_str("cannot finish an unsent body")))),
            ),
            OutgoingBody::Created { body: Some(s), .. } => {
                let OutgoingBodySender { conn, trailers, .. } = s;
                Self::finish_sent(conn, trailers, send_trailers, conn_status)
            },
            OutgoingBody::Trailers { conn, tx } => Self::finish_sent(
                conn,
                tx,
                send_trailers,
                conn_status,
            ),
            OutgoingBody::Dropped => Err(BodyFault::Dropped),
            OutgoingBody::Finished => Err(BodyFault::Finished),
            OutgoingBody::Corrupted => Err(BodyFault::Corrupted),
        }
    }

    /// `outgoing-body.drop`: the body is dropped; dropping one that was
    /// already dropped, finished or corrupted faults.
    pub fn drop(&mut self) -> (r: Result<(), BodyFault>)
        ensures
            *final(self) == OutgoingBody::<C, P, D, T, W>::Dropped,
            final_state_fault(*old(self)) matches Some(f) ==> r == Err::<(), _>(f),
            final_state_fault(*old(self)) is None ==> r is Ok,
    {
        let mut prev = OutgoingBody::Dropped;
        std::mem::swap(&mut prev, self);
        match prev {
            OutgoingBody::Dropped => Err(BodyFault::Dropped),
            OutgoingBody::Finished => Err(BodyFault::Finished),
            OutgoingBody::Corrupted => Err(BodyFault::Corrupted),
            _ => Ok(()),
        }
    }

    /// Hands the body the `sender` of a response that was just sent. A
    /// stream that waits gets its writing end through `deliver`. A body
    /// that already has one faults; a dropped or finished body takes
    /// nothing. In every case but the two plain ones the body ends up
    /// corrupted.
    pub fn attach<FD: FnOnce(W, OutgoingBodyContentSender<C, P, D>)>(
        &mut self,
        sender: OutgoingBodySender<C, P, D, T>,
        deliver: FD,
    ) -> (r: Result<(), BodyFault>)
        requires
            forall|w: W, cs: OutgoingBodyContentSender<C, P, D>| call_requires(deliver, (w, cs)),
        ensures
            match *old(self) {
                OutgoingBody::Created { limit, body: None } => r is Ok && *final(self) == (
                OutgoingBody::<C, P, D, T, W>::Created { limit, body: Some(sender) }),
                OutgoingBody::Pending(w) => {
                    &&& r is Ok
                    &&& *final(self) == (OutgoingBody::<C, P, D, T, W>::Trailers {
                        conn: sender.conn,
                        tx: sender.trailers,
                    })
                    &&& exists|cs: OutgoingBodyContentSender<C, P, D>|
                        #[trigger] call_ensures(deliver, (w, cs), ()) && cloned(sender.conn, cs.conn)
                            && cs.permits == sender.permits && cs.data == sender.data
                },
                OutgoingBody::Created { body: Some(_), .. } => r == Err::<(), _>(
                    BodyFault::AlreadySet,
                ) && *final(self) == OutgoingBody::<C, P, D, T, W>::Corrupted,
                OutgoingBody::Trailers { .. } => r == Err::<(), _>(BodyFault::AlreadySet)
                    && *final(self) == OutgoingBody::<C, P, D, T, W>::Corrupted,
                OutgoingBody::Corrupted => r == Err::<(), _>(BodyFault::Corrupted) && *final(self)
                    == OutgoingBody::<C, P, D, T, W>::Corrupted,
                _ => r is Ok && *final(self) == OutgoingBody::<C, P, D, T, W>::Corrupted,
            },
    {
        let mut prev = OutgoingBody::Corrupted;
        std::mem::swap(&mut prev, self);
        match prev {
            OutgoingBody::Created { limit, body: None } => {
                *self = OutgoingBody::Created { limit, body: Some(sender) };
                Ok(())
            },
            OutgoingBody::Pending(w) => {
                let OutgoingBodySender { conn, permits, data, trailers } = sender;
                let cs = OutgoingBodyContentSender { conn: conn.clone(), permits, data };
                let ghost sent = cs;
                deliver(w, cs);
                *self = OutgoingBody::Trailers { conn, tx: trailers };
                assert(call_ensures(deliver, (w, sent), ()));
                Ok(())
            },
            OutgoingBody::Created { body: Some(_), .. } => Err(BodyFault::AlreadySet),
            OutgoingBody::Trailers { .. } => Err(BodyFault::AlreadySet),
            OutgoingBody::Corrupted => Err(BodyFault::Corrupted),
            _ => Ok(()),
        }
    }
}

/// What finishing a body that went out gives: a fault or error from the
/// trailer channel or the connection, or success.
pub open spec fn finish_outcome<C, T, FS: FnOnce(T) -> bool, FC: FnOnce(C) -> Result<
    Option<ErrorCode>,
    (),
>>(send_trailers: FS, conn_status: FC, conn: C, tx: T, r: Result<Result<(), ErrorCode>, BodyFault>) -> bool {
    ||| call_ensures(send_trailers, (tx,), false) && (r matches Ok(
        Err(ErrorCode::InternalError(Some(m))),
    ) && m@ == "trailer receiver dropped"@)
    ||| call_ensures(send_trailers, (tx,), true) && call_ensures(conn_status, (conn,), Err(()))
        && r == Err::<Result<(), ErrorCode>, _>(BodyFault::ConnectionLockContended)
    ||| call_ensures(send_trailers, (tx,), true) && (r matches Ok(Err(e)) && call_ensures(
        conn_status,
        (conn,),
        Ok(Some(e)),
    ))
    ||| call_ensures(send_trailers, (tx,), true) && call_ensures(conn_status, (conn,), Ok(None))
        && r == Ok::<_, BodyFault>(Ok::<(), ErrorCode>(()))
}


/// The concrete type behind a `wasi:http/types/incoming-body` resource: the
/// body, until its stream is taken; then the trailers, once they came.
#[derive(Debug)]
pub enum IncomingBody<B, H> {
    Body(B),
    Streaming,
    Trailers(H),
}

impl<B, H> IncomingBody<B, H> {
    /// `incoming-body.stream`: hands out the body's stream, once.
    pub fn stream(&mut self) -> (r: Option<B>)
        ensures
            *old(self) matches IncomingBody::Body(b) ==> r == Some(b) && *final(self)
                == IncomingBody::<B, H>::Streaming,
            !(*old(self) is Body) ==> r is None && *final(self) == *old(self),
    {
        let mut prev = IncomingBody::Streaming;
        std::mem::swap(&mut prev, self);
        match prev {
            IncomingBody::Body(b) => Some(b),
            other => {
                *self = other;
                None
            },
        }
    }
}

/// What the trailers of an outgoing request came to: `pending` is what the
/// channel delivered (`Err(())`: it closed), `None` once it was read.
pub fn trailers_outcome<H>(pending: Option<Result<Result<Option<H>, ErrorCode>, ()>>) -> (r: Option<
    Result<H, Option<ErrorCode>>,
>)
    ensures
        pending is None ==> r is None,
        pending matches Some(Ok(Ok(Some(h)))) ==> r == Some(Ok::<H, Option<ErrorCode>>(h)),
        pending matches Some(Ok(Ok(None))) ==> r is None,
        pending matches Some(Ok(Err(e))) ==> (r matches Some(Err(Some(e2))) && e2 == e),
        pending matches Some(Err(_)) ==> r == Some(Err::<H, Option<ErrorCode>>(None)),
{
    match pending {
        None => None,
        Some(Ok(Ok(Some(h)))) => Some(Ok(h)),
        Some(Ok(Ok(None))) => None,
        Some(Ok(Err(e))) => Some(Err(Some(e))),
        Some(Err(_)) => Some(Err(None)),
    }
}

/// What waiting for the trailers of a response came to. `received` is what
/// the channel gave: `Err(())` where its sender went away, `Ok(None)` where
/// the body had none, and for trailers, whether taking them out of their
/// shared handle worked (`Err` with the message of the failure).
pub fn receive_trailers<H>(received: Result<Option<Result<Result<H, String>, ErrorCode>>, ()>) -> (r:
    Option<Result<H, Option<ErrorCode>>>)
    ensures
        received matches Ok(Some(Ok(Ok(h)))) ==> r == Some(Ok::<H, Option<ErrorCode>>(h)),
        received matches Ok(Some(Ok(Err(msg)))) ==> r == Some(
            Err::<H, Option<ErrorCode>>(Some(ErrorCode::InternalError(Some(msg)))),
        ),
        received matches Ok(Some(Err(e))) ==> r == Some(Err::<H, Option<ErrorCode>>(Some(e))),
        received matches Ok(None) ==> r is None,
        received is Err ==> r == Some(Err::<H, Option<ErrorCode>>(None)),
{
    match received {
        Ok(Some(Ok(Ok(h)))) => Some(Ok(h)),
        Ok(Some(Ok(Err(msg)))) => Some(Err(Some(ErrorCode::InternalError(Some(msg))))),
        Ok(Some(Err(e))) => Some(Err(Some(e))),
        Ok(None) => None,
        Err(()) => Some(Err(None)),
    }
}

/// What polling the body of an incoming response gives.
#[derive(Debug)]
pub enum IncomingFrame<D> {
    /// A frame, an error, or (`None`) the end of the body.
    Ready(Option<Result<D, ErrorCode>>),
    /// Nothing yet; poll again later.
    Pending,
}

/// One poll of the body of an incoming response: `polled` is what the
/// connection gave (`None` while it has nothing yet), `timed_out` whether the
/// read timeout has elapsed meanwhile, and `from_conn` maps an error of the
/// connection to the one the guest sees. The second result says whether the
/// read timeout starts over: it does on every frame.
pub fn incoming_frame<D, E, M: FnOnce(E) -> ErrorCode>(
    polled: Option<Option<Result<D, E>>>,
    timed_out: bool,
    from_conn: M,
) -> (r: (IncomingFrame<D>, bool))
    requires
        forall|e: E| call_requires(from_conn, (e,)),
    ensures
        polled matches Some(None) ==> r.0 == IncomingFrame::<D>::Ready(None) && !r.1,
        polled matches Some(Some(Ok(d))) ==> r.0 == IncomingFrame::<D>::Ready(Some(Ok(d))) && r.1,
        polled matches Some(Some(Err(e))) ==> !r.1 && exists|code: ErrorCode|
            #[trigger] call_ensures(from_conn, (e,), code) && r.0 == IncomingFrame::<D>::Ready(
                Some(Err(code)),
            ),
        polled is None && timed_out ==> r.0 == IncomingFrame::<D>::Ready(
            Some(Err(ErrorCode::ConnectionReadTimeout)),
        ) && !r.1,
        polled is None && !timed_out ==> r.0 == IncomingFrame::<D>::Pending && !r.1,
{
    match polled {
        Some(None) => (IncomingFrame::Ready(None), false),
        Some(Some(Ok(d))) => (IncomingFrame::Ready(Some(Ok(d))), true),
        Some(Some(Err(e))) => {
            let code = from_conn(e);
            (IncomingFrame::Ready(Some(Err(code))), false)
        },
        None => if timed_out {
            (IncomingFrame::Ready(Some(Err(ErrorCode::ConnectionReadTimeout))), false)
        } else {
            (IncomingFrame::Pending, false)
        },
    }
}

/// What the connection reported when a stream writes to a body.
#[derive(Debug)]
pub enum ConnState {
    /// The connection failed with this error.
    Failed(ErrorCode),
    /// Nothing to report.
    Open,
    /// The connection is gone.
    Closed,
}

/// What asking for write permits gave.
#[derive(Debug)]
pub enum Acquired<P> {
    Permit(P),
    Closed,
    NoPermits,
}

/// A write to a body that breaks the protocol: the guest's call traps.
#[derive(Clone, Copy, Debug, PartialEq, Eq, Structural)]
pub enum WriteFault {
    /// The connection's lock was contended.
    ConnectionLockContended,
    /// The contents are longer than a `u32` counts.
    TooLong,
    /// The guest wrote more than it was permitted to.
    NotPermitted,
}

/// A stream's write of `contents` to a body: `conn` is what the connection
/// reported (`Err(())`: its lock was contended); `acquire` asks for as many
/// permits as there are bytes, and `send` hands the bytes and the permit on,
/// saying whether the receiver took them. A failed connection reports its
/// error, a gone one or a closed channel reports `Err(None)`.
pub fn content_write<P, A: FnOnce(u32) -> Acquired<P>, S: FnOnce(Vec<u8>, P) -> bool>(
    conn: Result<ConnState, ()>,
    contents: Vec<u8>,
    acquire: A,
    send: S,
) -> (r: Result<Result<(), Option<ErrorCode>>, WriteFault>)
    requires
        forall|n: u32| call_requires(acquire, (n,)),
        forall|c: Vec<u8>, p: P| call_requires(send, (c, p)),
    ensures
        conn is Err ==> r == Err::<Result<(), Option<ErrorCode>>, _>(
            WriteFault::ConnectionLockContended,
        ),
        conn matches Ok(ConnState::Failed(e)) ==> (r matches Ok(Err(Some(e2))) && e2 == e),
        conn matches Ok(ConnState::Closed) ==> r == Ok::<_, WriteFault>(
            Err::<(), Option<ErrorCode>>(None),
        ),
        conn matches Ok(ConnState::Open) ==> if contents.len() > u32::MAX {
            r == Err::<Result<(), Option<ErrorCode>>, _>(WriteFault::TooLong)
        } else {
            ||| (exists|p: P|
                call_ensures(acquire, (contents.len() as u32,), Acquired::Permit(p))
                    && call_ensures(send, (contents, p), true)) && r == Ok::<_, WriteFault>(
                Ok::<(), Option<ErrorCode>>(()),
            )
            ||| (exists|p: P|
                call_ensures(acquire, (contents.len() as u32,), Acquired::Permit(p))
                    && call_ensures(send, (contents, p), false)) && r == Ok::<_, WriteFault>(
                Err::<(), Option<ErrorCode>>(None),
            )
            ||| call_ensures(acquire, (contents.len() as u32,), Acquired::<P>::Closed) && r == Ok::<
                _,
                WriteFault,
            >(Err::<(), Option<ErrorCode>>(None))
            ||| call_ensures(acquire, (contents.len() as u32,), Acquired::<P>::NoPermits) && r
                == Err::<Result<(), Option<ErrorCode>>, _>(WriteFault::NotPermitted)
        },
{
    let state = match conn {
        Ok(s) => s,
        Err(_) => return Err(WriteFault::ConnectionLockContended),
    };
    match state {
        ConnState::Failed(e) => Ok(Err(Some(e))),
        ConnState::Closed => Ok(Err(None)),
        ConnState::Open => {
            if contents.len() as u64 > u32::MAX as u64 {
                return Err(WriteFault::TooLong);
            }
            let n = contents.len() as u32;
            let ghost c = contents;
            match acquire(n) {
                Acquired::Permit(p) => {
                    let ghost q = p;
                    let sent = send(contents, p);
                    proof {
                        assert(call_ensures(send, (c, q), sent));
                    }
                    if sent {
                        Ok(Ok(()))
                    } else {
                        Ok(Err(None))
                    }
                },
                Acquired::Closed => Ok(Err(None)),
                Acquired::NoPermits => Err(WriteFault::NotPermitted),
            }
        },
    }
}


/// Counting two frames one after the other counts what one frame of both
/// their lengths would: how a body is cut into frames does not change what
/// it may send.
pub proof fn lemma_frames_accumulate(ctx: BodyContext, c: ContentLength, a: nat, b: nat)
    requires
        frame_outcome(ctx, Some(c), a).1 is None,
        frame_outcome(ctx, frame_outcome(ctx, Some(c), a).0, b).1 is None,
    ensures
        frame_outcome(ctx, frame_outcome(ctx, Some(c), a).0, b).0 == frame_outcome(ctx, Some(c), a + b).0,
        frame_outcome(ctx, Some(c), a + b).1 is None,
{
}

/// A body never gets past its declared length: a frame is accepted exactly
/// while the total stays within it, and then the count stays within it.
pub proof fn lemma_sent_within_limit(ctx: BodyContext, c: ContentLength, len: nat)
    requires
        c.sent <= c.limit,
    ensures
        frame_outcome(ctx, Some(c), len).1 is None <==> c.sent + len <= c.limit,
        frame_outcome(ctx, Some(c), len).0 matches Some(c2) && c2.sent <= c2.limit && c2.limit == c.limit,
{
}

/// A body ends well exactly when it sent its declared length.
pub proof fn lemma_end_exact(ctx: BodyContext, c: ContentLength)
    ensures
        end_outcome(ctx, Some(c)) is None <==> c.sent == c.limit,
{
}

/// The size errors of a body are those of its own kind: a response body
/// that breaks its declared length reports `HttpResponseBodySize`, a request
/// body `HttpRequestBodySize`, with the size it came to (or, at the end, the
/// size it had).
pub proof fn lemma_size_errors_follow_the_body(ctx: BodyContext, c: ContentLength, len: nat)
    ensures
        c.sent + len <= u64::MAX && c.sent + len > c.limit ==> frame_outcome(ctx, Some(c), len).1
            == Some(body_size_error(ctx, Some((c.sent + len) as u64))),
        c.sent + len > u64::MAX ==> frame_outcome(ctx, Some(c), len).1 == Some(
            body_size_error(ctx, None),
        ),
        c.sent != c.limit ==> end_outcome(ctx, Some(c)) == Some(body_size_error(ctx, Some(c.sent))),
        ctx == BodyContext::Response ==> body_size_error(ctx, Some(c.sent))
            == ErrorCode::HttpResponseBodySize(Some(c.sent)),
        ctx == BodyContext::Request ==> body_size_error(ctx, Some(c.sent))
            == ErrorCode::HttpRequestBodySize(Some(c.sent)),
{
}

/// A dropped, finished or corrupted body faults on every further use.
pub proof fn lemma_final_states_fault<C, P, D, T, W>(b: OutgoingBody<C, P, D, T, W>)
    ensures
        (b is Dropped || b is Finished || b is Corrupted) <==> final_state_fault(b) is Some,
{
}

} // verus!
