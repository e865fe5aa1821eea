use wasmx::engine::wasi::http::body::{
    check_end, content_write, incoming_frame, receive_trailers, record_frame, size_hint, trailers_outcome, Acquired, BodyContext,
    BodyFault, BodyStream, ConnState, ContentLength, FrameStep, IncomingBody, IncomingFrame, OutgoingBody,
    OutgoingBodyContentSender, OutgoingBodySender, OutgoingRequestBody, OutgoingResponseBody,
    WriteFault,
};
use wasmx::engine::wasi::http::ErrorCode;

type Body = OutgoingBody<u32, u8, u16, i64, &'static str>;

fn sender() -> OutgoingBodySender<u32, u8, u16, i64> {
    OutgoingBodySender { conn: 7, permits: 1, data: 2, trailers: -3 }
}

#[test]
fn body_size_errors() {
    assert!(matches!(
        BodyContext::Request.as_body_size_error(5),
        ErrorCode::HttpRequestBodySize(Some(5))
    ));
    assert!(matches!(
        BodyContext::Response.as_body_size_error(9),
        ErrorCode::HttpResponseBodySize(Some(9))
    ));
}

#[test]
fn content_length_accounting() {
    let c = ContentLength::new(10);
    assert_eq!(c, ContentLength { limit: 10, sent: 0 });
    let mut cl = Some(c);
    assert!(record_frame(BodyContext::Request, &mut cl, 4).is_ok());
    assert!(record_frame(BodyContext::Request, &mut cl, 6).is_ok());
    assert_eq!(cl, Some(ContentLength { limit: 10, sent: 10 }));
    assert!(check_end(BodyContext::Request, &cl).is_ok());
    assert!(matches!(record_frame(BodyContext::Request, &mut cl, 1), Err(ErrorCode::HttpRequestBodySize(Some(11)))));
    assert_eq!(cl, Some(ContentLength { limit: 10, sent: 10 }));
    let mut short = Some(ContentLength { limit: 10, sent: 3 });
    assert!(matches!(check_end(BodyContext::Request, &short), Err(ErrorCode::HttpRequestBodySize(Some(3)))));
    assert_eq!(size_hint(&short), Some(7));
    let mut near = Some(ContentLength { limit: u64::MAX, sent: u64::MAX - 1 });
    assert!(matches!(record_frame(BodyContext::Request, &mut near, 2), Err(ErrorCode::HttpRequestBodySize(None))));
    assert!(record_frame(BodyContext::Request, &mut short, 0).is_ok());
    let mut none: Option<ContentLength> = None;
    assert!(record_frame(BodyContext::Request, &mut none, 100).is_ok());
    assert_eq!(size_hint(&none), None);
    let mut resp = Some(ContentLength::new(1));
    assert!(matches!(record_frame(BodyContext::Response, &mut resp, 2), Err(ErrorCode::HttpResponseBodySize(Some(2)))));
    assert!(matches!(check_end(BodyContext::Response, &resp), Err(ErrorCode::HttpResponseBodySize(Some(0)))));
    let mut far = Some(ContentLength { limit: u64::MAX, sent: u64::MAX });
    assert!(matches!(record_frame(BodyContext::Response, &mut far, 1), Err(ErrorCode::HttpResponseBodySize(None))));
    assert!(matches!(BodyContext::Response.size_error(Some(7)), ErrorCode::HttpResponseBodySize(Some(7))));
    assert_eq!(size_hint(&Some(ContentLength { limit: 1, sent: 5 })), Some(0));
}

#[test]
fn response_body_frames() {
    let mut b = OutgoingResponseBody::new(b"abc".to_vec(), Some(ContentLength::new(5)));
    assert_eq!(b.size_hint(), Some(5));
    assert!(matches!(b.poll_frame(), FrameStep::Frame(v) if v == b"abc".to_vec()));
    assert_eq!(b.size_hint(), Some(2));
    assert!(matches!(b.poll_frame(), FrameStep::Receive));
    assert!(matches!(b.received(Some(b"de".to_vec())), FrameStep::Frame(v) if v == b"de".to_vec()));
    assert!(!b.is_end_stream());
    assert!(matches!(b.received(None), FrameStep::End));
    assert!(b.is_end_stream());
    assert!(matches!(b.poll_frame(), FrameStep::End));
}

#[test]
fn response_body_too_long_or_short() {
    let mut b = OutgoingResponseBody::new(Vec::new(), Some(ContentLength::new(2)));
    assert!(matches!(
        b.received(Some(b"abc".to_vec())),
        FrameStep::Fail(Some(ErrorCode::HttpResponseBodySize(Some(3))))
    ));
    assert!(matches!(
        b.received(None),
        FrameStep::Fail(Some(ErrorCode::HttpResponseBodySize(Some(0))))
    ));
    let mut buffered = OutgoingResponseBody::new(b"abcd".to_vec(), Some(ContentLength::new(3)));
    assert!(matches!(
        buffered.poll_frame(),
        FrameStep::Fail(Some(ErrorCode::HttpResponseBodySize(Some(4))))
    ));
}

#[test]
fn request_body_buffer() {
    let mut b = OutgoingRequestBody::new(b"xy".to_vec(), Some(ContentLength::new(1)));
    assert!(matches!(b.poll_frame(), Err(Some(ErrorCode::HttpRequestBodySize(Some(2))))));
    assert!(b.buffer.is_empty());
    let mut ok = OutgoingRequestBody::new(b"xy".to_vec(), None);
    assert_eq!(ok.poll_frame().unwrap(), b"xy".to_vec());
    assert_eq!(ok.size_hint(), None);
}

#[test]
fn write_after_response_sent() {
    let mut b: Body = OutgoingBody::Created { limit: Some(9), body: Some(sender()) };
    let r = b.write(|| -> (&'static str, u8) { unreachable!() });
    match r {
        Ok(Ok((BodyStream::Writing(OutgoingBodyContentSender { conn, permits, data }), limit))) => {
            assert_eq!((conn, permits, data, limit), (7, 1, 2, Some(9)));
        }
        _ => panic!("unexpected write outcome"),
    }
    assert!(matches!(b, OutgoingBody::Trailers { conn: 7, tx: -3 }));
    // Only one stream per body.
    assert!(matches!(b.write(|| ("w", 0u8)), Ok(Err(()))));
}

#[test]
fn write_before_response_sent() {
    let mut b: Body = OutgoingBody::new(None);
    let r = b.write(|| ("pending", 5u8));
    assert!(matches!(r, Ok(Ok((BodyStream::Pending(5), None)))));
    assert!(matches!(b, OutgoingBody::Pending("pending")));
    let delivered = std::cell::Cell::new(None);
    assert_eq!(b.attach(sender(), |w, cs| delivered.set(Some((w, cs.conn)))), Ok(()));
    assert_eq!(delivered.get(), Some(("pending", 7)));
    assert!(matches!(b, OutgoingBody::Trailers { conn: 7, tx: -3 }));
}

#[test]
fn final_states_fault() {
    let mut b: Body = OutgoingBody::Dropped;
    assert!(matches!(b.write(|| ("w", 0u8)), Err(BodyFault::Dropped)));
    assert!(matches!(b, OutgoingBody::Corrupted));
    let mut f: Body = OutgoingBody::Finished;
    assert_eq!(f.drop(), Err(BodyFault::Finished));
    assert!(matches!(f, OutgoingBody::Dropped));
    let mut c: Body = OutgoingBody::new(None);
    assert_eq!(c.drop(), Ok(()));
    assert_eq!(c.drop(), Err(BodyFault::Dropped));
}

#[test]
fn finish_outcomes() {
    let mut unsent: Body = OutgoingBody::new(None);
    match unsent.finish(|_| true, |_| Ok(None)) {
        Ok(Err(ErrorCode::InternalError(Some(m)))) => assert_eq!(m, "cannot finish an unsent body"),
        _ => panic!("unexpected finish outcome"),
    }
    assert!(matches!(unsent, OutgoingBody::Finished));

    let mut sent: Body = OutgoingBody::Trailers { conn: 1, tx: 2 };
    assert!(matches!(sent.finish(|t| t == 2, |c| if c == 1 { Ok(None) } else { Err(()) }), Ok(Ok(()))));

    let mut dropped_rx: Body = OutgoingBody::Trailers { conn: 1, tx: 2 };
    match dropped_rx.finish(|_| false, |_| Ok(None)) {
        Ok(Err(ErrorCode::InternalError(Some(m)))) => assert_eq!(m, "trailer receiver dropped"),
        _ => panic!("unexpected finish outcome"),
    }

    let mut failed: Body = OutgoingBody::Created { limit: None, body: Some(sender()) };
    assert!(matches!(
        failed.finish(|_| true, |_| Ok(Some(ErrorCode::ConnectionTerminated))),
        Ok(Err(ErrorCode::ConnectionTerminated))
    ));

    let mut contended: Body = OutgoingBody::Trailers { conn: 1, tx: 2 };
    assert!(matches!(contended.finish(|_| true, |_| Err(())), Err(BodyFault::ConnectionLockContended)));

    let mut twice: Body = OutgoingBody::Finished;
    assert!(matches!(twice.finish(|_| true, |_| Ok(None)), Err(BodyFault::Finished)));
}

#[test]
fn attach_outcomes() {
    let mut created: Body = OutgoingBody::new(Some(4));
    assert_eq!(created.attach(sender(), |_, _| unreachable!()), Ok(()));
    assert!(matches!(created, OutgoingBody::Created { limit: Some(4), body: Some(_) }));
    assert_eq!(created.attach(sender(), |_, _| unreachable!()), Err(BodyFault::AlreadySet));
    assert!(matches!(created, OutgoingBody::Corrupted));
    let mut dropped: Body = OutgoingBody::Dropped;
    assert_eq!(dropped.attach(sender(), |_, _| unreachable!()), Ok(()));
    assert!(matches!(dropped, OutgoingBody::Corrupted));
    assert_eq!(dropped.attach(sender(), |_, _| unreachable!()), Err(BodyFault::Corrupted));
}

#[test]
fn incoming_body_stream_once() {
    let mut b: IncomingBody<&str, ()> = IncomingBody::Body("stream");
    assert_eq!(b.stream(), Some("stream"));
    assert!(matches!(b, IncomingBody::Streaming));
    assert_eq!(b.stream(), None);
}

#[test]
fn trailers() {
    assert_eq!(trailers_outcome::<u8>(None).is_none(), true);
    assert!(matches!(trailers_outcome(Some(Ok(Ok(Some(1u8))))), Some(Ok(1))));
    assert!(trailers_outcome::<u8>(Some(Ok(Ok(None)))).is_none());
    assert!(matches!(
        trailers_outcome::<u8>(Some(Ok(Err(ErrorCode::HttpProtocolError)))),
        Some(Err(Some(ErrorCode::HttpProtocolError)))
    ));
    assert!(matches!(trailers_outcome::<u8>(Some(Err(()))), Some(Err(None))));
}

#[test]
fn content_writes() {
    let data = b"hello".to_vec();
    assert!(matches!(
        content_write(Ok(ConnState::Open), data.clone(), |n| Acquired::Permit(n), |v, p| v.len() as u32 == p),
        Ok(Ok(()))
    ));
    assert!(matches!(
        content_write(Ok(ConnState::Open), data.clone(), |n| Acquired::Permit(n), |_, _| false),
        Ok(Err(None))
    ));
    assert!(matches!(
        content_write(Ok(ConnState::Open), data.clone(), |_| Acquired::<u32>::NoPermits, |_, _| true),
        Err(WriteFault::NotPermitted)
    ));
    assert!(matches!(
        content_write(Ok(ConnState::Open), data.clone(), |_| Acquired::<u32>::Closed, |_, _| true),
        Ok(Err(None))
    ));
    assert!(matches!(
        content_write(Ok(ConnState::Failed(ErrorCode::ConnectionReadTimeout)), data.clone(), |_| Acquired::<u32>::Closed, |_, _| true),
        Ok(Err(Some(ErrorCode::ConnectionReadTimeout)))
    ));
    assert!(matches!(
        content_write(Ok(ConnState::Closed), data.clone(), |_| Acquired::<u32>::Closed, |_, _| true),
        Ok(Err(None))
    ));
    assert!(matches!(
        content_write(Err(()), data, |_| Acquired::<u32>::Closed, |_, _| true),
        Err(WriteFault::ConnectionLockContended)
    ));
}

#[test]
fn trailers_received() {
    assert!(matches!(receive_trailers::<u8>(Ok(Some(Ok(Ok(4))))), Some(Ok(4))));
    assert!(matches!(
        receive_trailers::<u8>(Ok(Some(Ok(Err("still shared".to_string()))))),
        Some(Err(Some(ErrorCode::InternalError(Some(ref m))))) if m == "still shared"
    ));
    assert!(matches!(
        receive_trailers::<u8>(Ok(Some(Err(ErrorCode::HttpProtocolError)))),
        Some(Err(Some(ErrorCode::HttpProtocolError)))
    ));
    assert!(receive_trailers::<u8>(Ok(None)).is_none());
    assert!(matches!(receive_trailers::<u8>(Err(())), Some(Err(None))));
}

#[test]
fn incoming_frames_and_read_timeout() {
    let map = |e: &str| ErrorCode::InternalError(Some(e.to_string()));
    let (f, reset) = incoming_frame::<u8, &str, _>(Some(Some(Ok(9))), true, map);
    assert!(matches!(f, IncomingFrame::Ready(Some(Ok(9)))));
    assert!(reset);
    let (f, reset) = incoming_frame::<u8, &str, _>(Some(Some(Err("reset"))), false, map);
    assert!(matches!(f, IncomingFrame::Ready(Some(Err(ErrorCode::InternalError(Some(ref m))))) if m == "reset"));
    assert!(!reset);
    let (f, _) = incoming_frame::<u8, &str, _>(Some(None), true, map);
    assert!(matches!(f, IncomingFrame::Ready(None)));
    let (f, _) = incoming_frame::<u8, &str, _>(None, true, map);
    assert!(matches!(f, IncomingFrame::Ready(Some(Err(ErrorCode::ConnectionReadTimeout)))));
    let (f, reset) = incoming_frame::<u8, &str, _>(None, false, map);
    assert!(matches!(f, IncomingFrame::Pending));
    assert!(!reset);
}
