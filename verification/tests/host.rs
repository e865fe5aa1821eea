use wasmx::host::{trailers_frame, BodyReceiver, ReceiverError,
    dispatched, fetch_plan, fetch_plan_for_scheme, listen_backlog, manifest_deadline,
    permit_granted, proxy_response, proxy_step, take_workload_id, visible_ascii, ProxyAction,
    ProxyEvent, ProxyState, sample_clock_resolution, workload_id, DispatchOutcome,
    FetchError, FetchPlan, PermitOutcome, ProxyFailure, ProxyRejection,
};
use wasmx::engine::wasi::http::ErrorCode;
use wasmx::engine::wasi::http::fields::Fields;

#[test]
fn workload_ids() {
    assert_eq!(workload_id(None), Err(ProxyRejection::MissingId));
    assert_eq!(workload_id(Some(b"echo".to_vec())), Ok(b"echo".to_vec()));
    assert_eq!(workload_id(Some(b"a\tb".to_vec())), Ok(b"a\tb".to_vec()));
    assert_eq!(workload_id(Some(vec![0xc3, 0xa9])), Err(ProxyRejection::InvalidId));
    assert_eq!(workload_id(Some(vec![0x7f])), Err(ProxyRejection::InvalidId));
}

#[test]
fn rejections() {
    assert_eq!(ProxyRejection::MissingId.status(), 400);
    assert_eq!(ProxyRejection::MissingId.message(), "`X-Wasmx-Id` header missing");
    assert_eq!(ProxyRejection::InvalidId.status(), 400);
    assert_eq!(
        ProxyRejection::InvalidId.message(),
        "`X-Wasmx-Id` header value is not valid UTF-8: failed to convert header to a str"
    );
    assert_eq!(ProxyRejection::NoPermits.status(), 503);
    assert_eq!(ProxyRejection::NoPermits.message(), "maximum instance count reached");
    assert_eq!(ProxyRejection::PermitsClosed.status(), 500);
    assert_eq!(ProxyRejection::PermitsClosed.message(), "semaphore closed");
    assert_eq!(ProxyRejection::EngineFull.status(), 503);
    assert_eq!(ProxyRejection::EngineFull.message(), "engine buffer full");
    assert_eq!(ProxyRejection::EngineExited.status(), 500);
    assert_eq!(ProxyRejection::EngineExited.message(), "engine thread exited");
    assert_eq!(permit_granted(PermitOutcome::Acquired), Ok(()));
    assert_eq!(permit_granted(PermitOutcome::NoPermits), Err(ProxyRejection::NoPermits));
    assert_eq!(permit_granted(PermitOutcome::Closed), Err(ProxyRejection::PermitsClosed));
    assert_eq!(dispatched(DispatchOutcome::Sent), Ok(()));
    assert_eq!(dispatched(DispatchOutcome::Full), Err(ProxyRejection::EngineFull));
    assert_eq!(dispatched(DispatchOutcome::Closed), Err(ProxyRejection::EngineExited));
}

#[test]
fn proxy_responses() {
    assert!(matches!(proxy_response::<u8, ()>(Some(Ok(1)), None), Ok(1)));
    assert!(matches!(
        proxy_response::<u8, ()>(Some(Err(ErrorCode::HttpProtocolError)), None),
        Err(ProxyFailure::HandlerFailed(ErrorCode::HttpProtocolError))
    ));
    assert!(matches!(proxy_response::<u8, ()>(None, Some(Ok(()))), Err(ProxyFailure::NoResponse)));
    assert!(matches!(proxy_response::<u8, &str>(None, Some(Err("trap"))), Err(ProxyFailure::Trapped("trap"))));
    assert!(matches!(proxy_response::<u8, ()>(None, None), Err(ProxyFailure::WorkloadExited)));
}

#[test]
fn limits() {
    assert_eq!(listen_backlog(1000), 1000);
    assert_eq!(listen_backlog(usize::MAX), u32::MAX);
    assert_eq!(manifest_deadline(5), 1005);
    assert_eq!(manifest_deadline(u64::MAX - 10), u64::MAX);
}

#[test]
fn fetch_plans() {
    assert_eq!(fetch_plan("./a.wasm"), Ok(FetchPlan::ReadPath));
    assert_eq!(fetch_plan("/abs/a.wasm"), Ok(FetchPlan::ReadPath));
    assert_eq!(fetch_plan("file:///tmp/a.wasm"), Ok(FetchPlan::ReadFileUrl));
    assert_eq!(fetch_plan("https://example.com/a.wasm"), Ok(FetchPlan::HttpGet));
    assert_eq!(fetch_plan("http://example.com/a.wasm"), Ok(FetchPlan::HttpGet));
    assert_eq!(fetch_plan("ftp://example.com/a.wasm"), Err(FetchError::UnsupportedScheme("ftp".to_string())));
    assert_eq!(fetch_plan("a.wasm"), Err(FetchError::InvalidUrl));
    assert_eq!(fetch_plan_for_scheme("gopher".to_string()), Err(FetchError::UnsupportedScheme("gopher".to_string())));
}

#[test]
fn clock_resolution() {
    assert_eq!(sample_clock_resolution(&vec![]), 1);
    assert_eq!(sample_clock_resolution(&vec![5]), 1);
    assert_eq!(sample_clock_resolution(&vec![10, 10, 10]), 1);
    assert_eq!(sample_clock_resolution(&vec![10, 12, 20, 21]), 8);
    assert_eq!(sample_clock_resolution(&vec![10, 5, 6]), 1);
}

#[test]
fn streamed_body_receiver() {
    let mut r = BodyReceiver::new();
    assert!(r.wants_result() && r.wants_data());
    assert!(r.take_result::<()>(None).is_ok());
    assert!(r.wants_result());
    assert!(r.take_result::<()>(Some(Ok(Ok(())))).is_ok());
    assert!(!r.wants_result());
    assert_eq!(r.data_received(Some(vec![1, 2])), Some(vec![1, 2]));
    assert!(r.wants_data());
    assert_eq!(r.data_received(None), None);
    assert!(!r.wants_data());
    let mut failed = BodyReceiver::new();
    assert!(matches!(failed.take_result(Some(Ok(Err("trap")))), Err(ReceiverError::Workload("trap"))));
    assert!(!failed.wants_result());
    let mut closed = BodyReceiver::new();
    assert!(matches!(closed.take_result::<()>(Some(Err(()))), Err(ReceiverError::ResultSenderClosed)));
    assert!(matches!(trailers_frame::<u8, ()>(Ok(Some(3))), Some(Ok(3))));
    assert!(trailers_frame::<u8, ()>(Ok(None)).is_none());
    assert!(matches!(trailers_frame::<u8, ()>(Err(())), Some(Err(ReceiverError::TrailerSenderClosed))));
}

#[test]
fn proxy_steps_in_order() {
    // A valid name: permit first, then the engine, then the response.
    let (s, a) = proxy_step(ProxyState::Received, ProxyEvent::IdHeader(Some(b"echo".to_vec())));
    assert!(matches!(a, ProxyAction::Acquire));
    assert!(matches!(s, ProxyState::AwaitingPermit { ref name } if name == b"echo"));
    // A dispatch outcome before the permit is ignored.
    let (s, a) = proxy_step(s, ProxyEvent::Dispatch(DispatchOutcome::Sent));
    assert!(matches!(a, ProxyAction::Ignore));
    let (s, a) = proxy_step(s, ProxyEvent::Permit(PermitOutcome::Acquired));
    assert!(matches!(a, ProxyAction::Dispatch));
    assert!(matches!(s, ProxyState::AwaitingDispatch { ref name } if name == b"echo"));
    let (s, a) = proxy_step(s, ProxyEvent::Dispatch(DispatchOutcome::Sent));
    assert!(matches!(a, ProxyAction::AwaitResponse));
    assert!(matches!(s, ProxyState::Done));
    let (_, a) = proxy_step(s, ProxyEvent::Permit(PermitOutcome::Acquired));
    assert!(matches!(a, ProxyAction::Ignore));
}

#[test]
fn proxy_rejections() {
    let (s, a) = proxy_step(ProxyState::Received, ProxyEvent::IdHeader(None));
    assert!(matches!(s, ProxyState::Done));
    assert!(matches!(a, ProxyAction::Reject(ProxyRejection::MissingId)));
    let (_, a) = proxy_step(ProxyState::Received, ProxyEvent::IdHeader(Some(vec![0xc3, 0xa9])));
    assert!(matches!(a, ProxyAction::Reject(ProxyRejection::InvalidId)));
    let waiting = || ProxyState::AwaitingPermit { name: b"w".to_vec() };
    let (_, a) = proxy_step(waiting(), ProxyEvent::Permit(PermitOutcome::NoPermits));
    assert!(matches!(a, ProxyAction::Reject(ProxyRejection::NoPermits)));
    let (_, a) = proxy_step(waiting(), ProxyEvent::Permit(PermitOutcome::Closed));
    assert!(matches!(a, ProxyAction::Reject(ProxyRejection::PermitsClosed)));
    let sent = || ProxyState::AwaitingDispatch { name: b"w".to_vec() };
    let (_, a) = proxy_step(sent(), ProxyEvent::Dispatch(DispatchOutcome::Full));
    assert!(matches!(a, ProxyAction::Reject(ProxyRejection::EngineFull)));
    let (_, a) = proxy_step(sent(), ProxyEvent::Dispatch(DispatchOutcome::Closed));
    assert!(matches!(a, ProxyAction::Reject(ProxyRejection::EngineExited)));
    assert!(visible_ascii(&b"a b\t".to_vec()));
    assert!(!visible_ascii(&vec![0x7f]));
}

#[test]
fn id_header_is_taken_out() {
    let mut h = Fields::from_list(vec![
        ("Accept".to_string(), b"*/*".to_vec()),
        ("X-Wasmx-Id".to_string(), b"echo".to_vec()),
        ("x-wasmx-id".to_string(), b"other".to_vec()),
    ])
    .unwrap();
    assert_eq!(take_workload_id(&mut h), Some(b"echo".to_vec()));
    assert!(!h.has("x-wasmx-id"));
    assert_eq!(h.get("accept"), vec![b"*/*".to_vec()]);
    assert_eq!(h.name_count(), 1);
    assert_eq!(take_workload_id(&mut h), None);
}
