use wasmx::engine::wasi::io::{clone_input_stream, try_clone_output_stream, InputStream, OutputStream,
    check_poll_list, merge_deadline, poll_wait, ready_indices, stream_result, PollError, PollWait,
    StreamError,
};

#[test]
fn stream_results() {
    assert_eq!(stream_result::<u8, u8, u32, _>(Ok(1), |_| panic!()), Ok(1));
    assert_eq!(stream_result::<u8, u8, u32, _>(Err(None), |_| panic!()), Err(StreamError::Closed));
    assert_eq!(
        stream_result::<u8, u8, u32, _>(Err(Some(3)), |x| x as u32 + 10),
        Err(StreamError::LastOperationFailed(13))
    );
}

#[test]
fn poll_lists() {
    assert_eq!(check_poll_list(0), Err(PollError::Empty));
    assert_eq!(check_poll_list(1), Ok(()));
    assert_eq!(ready_indices(&vec![false, true, false, true]), vec![1, 3]);
    assert_eq!(ready_indices(&vec![false, false]), Vec::<u32>::new());
}

#[test]
fn deadlines() {
    assert_eq!(merge_deadline(0, 0), 0);
    assert_eq!(merge_deadline(0, 7), 7);
    assert_eq!(merge_deadline(9, 0), 9);
    assert_eq!(merge_deadline(9, 7), 7);
    assert_eq!(merge_deadline(5, 7), 5);
    let mut d = 0;
    assert_eq!(poll_wait(&mut d, 0, 100), PollWait::Wait { sleep_millis: None, watch_shutdown: true });
    let mut d = 150;
    assert_eq!(poll_wait(&mut d, 0, 100), PollWait::Wait { sleep_millis: Some(50), watch_shutdown: true });
    let mut d = 150;
    assert_eq!(poll_wait(&mut d, 120, 100), PollWait::Wait { sleep_millis: Some(20), watch_shutdown: false });
    assert_eq!(d, 120);
    let mut d = 100;
    assert_eq!(poll_wait(&mut d, 0, 100), PollWait::Expired);
    let mut d = 0;
    assert_eq!(poll_wait(&mut d, 90, 100), PollWait::Expired);
    assert_eq!(d, 90);
}

#[test]
fn output_stream_clones() {
    type S = OutputStream<u8, u16, ()>;
    let limited: S = OutputStream::Limited { budget: 9, stream: Box::new(OutputStream::TcpStream(3)) };
    match try_clone_output_stream(&limited) {
        Some(OutputStream::Limited { budget: 9, stream }) => assert!(matches!(*stream, OutputStream::TcpStream(3))),
        _ => panic!("unexpected clone"),
    }
    let pending: S = OutputStream::Limited { budget: 1, stream: Box::new(OutputStream::HttpPending(())) };
    assert!(try_clone_output_stream(&pending).is_none());
    let stdout: S = OutputStream::Stdout;
    assert!(matches!(try_clone_output_stream(&stdout), Some(OutputStream::Stdout)));
    let writing: S = OutputStream::HttpWriting(4);
    assert!(matches!(try_clone_output_stream(&writing), Some(OutputStream::HttpWriting(4))));
}

#[test]
fn stdin_copies() {
    let shared = std::rc::Rc::new(5u8);
    let tcp: InputStream<std::rc::Rc<u8>, u16> = InputStream::TcpStream(shared.clone());
    match clone_input_stream(&tcp) {
        InputStream::TcpStream(n) => assert!(std::rc::Rc::ptr_eq(&n, &shared)),
        other => panic!("unexpected {other:?}"),
    }
    let bytes: InputStream<u8, u16> = InputStream::Bytes(b"abc".to_vec());
    assert!(matches!(clone_input_stream(&bytes), InputStream::Bytes(ref b) if b == b"abc"));
    assert!(matches!(clone_input_stream(&InputStream::<u8, u16>::Http(3)), InputStream::Http(3)));
    assert!(matches!(clone_input_stream(&InputStream::<u8, u16>::Stdin), InputStream::Stdin));
    assert!(matches!(clone_input_stream(&InputStream::<u8, u16>::Empty), InputStream::Empty));
}
