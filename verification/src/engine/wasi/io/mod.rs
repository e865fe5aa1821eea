//! `wasi:io`: what a stream operation reports, and when `poll` gives up.
use vstd::prelude::*;

verus! {

/// `wasi:io/streams.stream-error`, over the handle `E` of the error resource.
#[derive(Clone, Copy, Debug, PartialEq, Eq, Structural)]
pub enum StreamError<E> {
    /// The last operation failed; the error says why.
    LastOperationFailed(E),
    /// The stream is closed.
    Closed,
}

/// How a stream operation reports its outcome to the guest: success as it
/// is, a closed stream as `closed`, and a failure through an error resource
/// that `push_error` makes.
pub fn stream_result<T, X, E, F: FnOnce(X) -> E>(r: Result<T, Option<X>>, push_error: F) -> (out:
    Result<T, StreamError<E>>)
    requires
        forall|x: X| call_requires(push_error, (x,)),
    ensures
        r matches Ok(v) ==> out == Ok::<T, StreamError<E>>(v),
        r matches Err(None) ==> out == Err::<T, StreamError<E>>(StreamError::Closed),
        r matches Err(Some(x)) ==> (out matches Err(StreamError::LastOperationFailed(e))
            && call_ensures(push_error, (x,), e)),
{
    match r {
        Ok(v) => Ok(v),
        Err(None) => Err(StreamError::Closed),
        Err(Some(x)) => Err(StreamError::LastOperationFailed(push_error(x))),
    }
}

/// Why `poll` was refused or gave up.
#[derive(Clone, Copy, Debug, PartialEq, Eq, Structural)]
pub enum PollError {
    /// The list of pollables is empty.
    Empty,
    /// The list holds more pollables than a `u32` counts.
    TooMany,
    /// The execution deadline passed while waiting.
    DeadlineReached,
    /// The host shut down while waiting.
    ForcedShutdown,
}

/// Checks the length of a list of pollables.
pub fn check_poll_list(len: usize) -> (r: Result<(), PollError>)
    ensures
        len == 0 ==> r == Err::<(), PollError>(PollError::Empty),
        0 < len <= u32::MAX ==> r is Ok,
        len > u32::MAX ==> r == Err::<(), PollError>(PollError::TooMany),
{
    if len == 0 {
        Err(PollError::Empty)
    } else if len as u64 > u32::MAX as u64 {
        Err(PollError::TooMany)
    } else {
        Ok(())
    }
}

/// The positions of the pollables that are ready, in order.
pub fn ready_indices(ready: &Vec<bool>) -> (r: Vec<u32>)
    requires
        ready.len() <= u32::MAX,
    ensures
        forall|i: int| 0 <= i < r.len() ==> ready@[r@[i] as int],
        forall|i: int, j: int| 0 <= i < j < r.len() ==> r@[i] < r@[j],
        forall|k: int| 0 <= k < ready.len() && ready@[k] ==> r@.contains(k as u32),
        forall|i: int| 0 <= i < r.len() ==> r@[i] < ready.len(),
{
    let mut r: Vec<u32> = Vec::new();
    let mut k: usize = 0;
    while k < ready.len()
        invariant
            k <= ready.len(),
            ready.len() <= u32::MAX,
            forall|i: int| 0 <= i < r.len() ==> r@[i] < k,
            forall|i: int| 0 <= i < r.len() ==> ready@[r@[i] as int],
            forall|i: int, j: int| 0 <= i < j < r.len() ==> r@[i] < r@[j],
            forall|m: int| 0 <= m < k && ready@[m] ==> r@.contains(m as u32),
        decreases ready.len() - k,
    {
        if ready[k] {
            let ghost before = r@;
            r.push(k as u32);
            proof {
                assert forall|m: int| 0 <= m < k + 1 && ready@[m] implies r@.contains(m as u32) by {
                    if m < k {
                        let i = choose|i: int| 0 <= i < before.len() && before[i] == m as u32;
                        assert(r@[i] == m as u32);
                    } else {
                        assert(r@[r@.len() - 1] == m as u32);
                    }
                }
            }
        }
        k += 1;
    }
    r
}

/// The deadline of a guest that has the deadline `deadline` when the host
/// asks for shutdown by `shutdown` (`0`: none): the earlier of the two.
pub open spec fn merged_deadline(deadline: u64, shutdown: u64) -> u64 {
    if deadline != 0 && shutdown != 0 {
        if shutdown < deadline {
            shutdown
        } else {
            deadline
        }
    } else if deadline == 0 {
        shutdown
    } else {
        deadline
    }
}

/// Merges a shutdown request into a guest's deadline (`0`: none).
pub fn merge_deadline(deadline: u64, shutdown: u64) -> (r: u64)
    ensures
        r == merged_deadline(deadline, shutdown),
{
    if deadline != 0 && shutdown != 0 {
        if shutdown < deadline {
            shutdown
        } else {
            deadline
        }
    } else if deadline == 0 {
        shutdown
    } else {
        deadline
    }
}

/// What `poll` does while nothing is ready.
#[derive(Clone, Copy, Debug, PartialEq, Eq, Structural)]
pub enum PollWait {
    /// Give up: the deadline has passed.
    Expired,
    /// Wait: at most `sleep_millis` where there is a deadline, and for a
    /// shutdown request where none was made yet.
    Wait { sleep_millis: Option<u64>, watch_shutdown: bool },
}

/// One round of `poll` waiting at the time `now` (in milliseconds of the
/// host's clock): the deadline takes in the shutdown request, then either
/// has passed or gives the time left to sleep.
pub fn poll_wait(deadline: &mut u64, shutdown: u64, now: u64) -> (r: PollWait)
    ensures
        *final(deadline) == merged_deadline(*old(deadline), shutdown),
        *final(deadline) > 0 && *final(deadline) <= now ==> r == PollWait::Expired,
        *final(deadline) > now ==> r == (PollWait::Wait {
            sleep_millis: Some((*final(deadline) - now) as u64),
            watch_shutdown: shutdown == 0,
        }),
        *final(deadline) == 0 ==> r == (PollWait::Wait {
            sleep_millis: None,
            watch_shutdown: shutdown == 0,
        }),
{
    *deadline = merge_deadline(*deadline, shutdown);
    if *deadline > 0 {
        let d = deadline.saturating_sub(now);
        if d == 0 {
            return PollWait::Expired;
        }
        PollWait::Wait { sleep_millis: Some(d), watch_shutdown: shutdown == 0 }
    } else {
        PollWait::Wait { sleep_millis: None, watch_shutdown: shutdown == 0 }
    }
}


/// A shutdown request only ever brings a guest's deadline forward, and
/// taking the same request in again changes nothing.
pub proof fn lemma_deadline_only_earlier(deadline: u64, shutdown: u64)
    ensures
        deadline != 0 ==> 0 < merged_deadline(deadline, shutdown) <= deadline,
        shutdown != 0 ==> 0 < merged_deadline(deadline, shutdown) <= shutdown,
        deadline == 0 && shutdown == 0 ==> merged_deadline(deadline, shutdown) == 0,
        merged_deadline(deadline, shutdown) == deadline || merged_deadline(deadline, shutdown)
            == shutdown,
        merged_deadline(merged_deadline(deadline, shutdown), shutdown) == merged_deadline(
            deadline,
            shutdown,
        ),
{
}


/// Where an output stream's writes go, over the shared handles `N` of
/// network sockets, `W` of a response body being written, and `P` of one
/// that waits for its response.
#[derive(Debug)]
pub enum OutputStream<N, W, P> {
    Discard,
    Stdout,
    Stderr,
    TcpStream(N),
    UdpSocket(N),
    /// At most `budget` more bytes go to `stream`.
    Limited { budget: u64, stream: Box<OutputStream<N, W, P>> },
    HttpPending(P),
    HttpWriting(W),
}

/// Whether a stream writes, somewhere inside, to a body that waits for its
/// response.
pub open spec fn holds_pending<N, W, P>(s: OutputStream<N, W, P>) -> bool
    decreases s,
{
    match s {
        OutputStream::Limited { stream, .. } => holds_pending(*stream),
        OutputStream::HttpPending(_) => true,
        _ => false,
    }
}

/// Whether `c` is a copy of `s`: the same kind of stream with the same
/// budgets, over clones of the same handles.
pub open spec fn is_stream_copy<N: Clone, W: Clone, P>(
    s: OutputStream<N, W, P>,
    c: OutputStream<N, W, P>,
) -> bool
    decreases s,
{
    match s {
        OutputStream::Discard => c is Discard,
        OutputStream::Stdout => c is Stdout,
        OutputStream::Stderr => c is Stderr,
        OutputStream::TcpStream(n) => c matches OutputStream::TcpStream(m) && cloned(n, m),
        OutputStream::UdpSocket(n) => c matches OutputStream::UdpSocket(m) && cloned(n, m),
        OutputStream::Limited { budget, stream } => c matches OutputStream::Limited {
            budget: b2,
            stream: s2,
        } && b2 == budget && is_stream_copy(*stream, *s2),
        OutputStream::HttpPending(_) => false,
        OutputStream::HttpWriting(w) => c matches OutputStream::HttpWriting(v) && cloned(w, v),
    }
}

/// Whether `c` writes to the same kind of place as `s`: the same variant,
/// and for a limited stream the same budget.
pub open spec fn same_destination<N, W, P>(s: OutputStream<N, W, P>, c: OutputStream<N, W, P>) -> bool {
    &&& (s is Discard <==> c is Discard)
    &&& (s is Stdout <==> c is Stdout)
    &&& (s is Stderr <==> c is Stderr)
    &&& (s is TcpStream <==> c is TcpStream)
    &&& (s is UdpSocket <==> c is UdpSocket)
    &&& (s is Limited <==> c is Limited)
    &&& (s is HttpPending <==> c is HttpPending)
    &&& (s is HttpWriting <==> c is HttpWriting)
    &&& (s is Limited ==> s->budget == c->budget)
}

/// A copy of a stream writes where the stream writes: standard output to
/// standard output, standard error to standard error, nowhere to nowhere,
/// a socket to a socket and a body to a body, with the same budget where
/// the writes are limited; and a copy of a stream whose writes are limited
/// is limited in the same way all the way down.
pub proof fn lemma_copies_write_to_the_same_place<N: Clone, W: Clone, P>(
    s: OutputStream<N, W, P>,
    c: OutputStream<N, W, P>,
)
    requires
        is_stream_copy(s, c),
    ensures
        same_destination(s, c),
        s matches OutputStream::Limited { stream, .. } ==> (c matches OutputStream::Limited {
            stream: inner,
            ..
        } && is_stream_copy(*stream, *inner)),
        !(s is HttpPending),
    decreases s,
{
}

/// A second stream that writes where `stream` writes (for the guest's
/// `stdout` and `stderr`); a body that waits for its response cannot have
/// one.
pub fn try_clone_output_stream<N: Clone, W: Clone, P>(stream: &OutputStream<N, W, P>) -> (r:
    Option<OutputStream<N, W, P>>)
    ensures
        r is None <==> holds_pending(*stream),
        r matches Some(c) ==> is_stream_copy(*stream, c),
        r matches Some(c) ==> same_destination(*stream, c),
    decreases stream,
{
    match stream {
        OutputStream::Discard => Some(OutputStream::Discard),
        OutputStream::Stdout => Some(OutputStream::Stdout),
        OutputStream::Stderr => Some(OutputStream::Stderr),
        OutputStream::TcpStream(n) => Some(OutputStream::TcpStream(n.clone())),
        OutputStream::UdpSocket(n) => Some(OutputStream::UdpSocket(n.clone())),
        OutputStream::Limited { budget, stream: inner } => match try_clone_output_stream(&**inner) {
            Some(c) => Some(OutputStream::Limited { budget: *budget, stream: Box::new(c) }),
            None => None,
        },
        OutputStream::HttpPending(_) => None,
        OutputStream::HttpWriting(w) => Some(OutputStream::HttpWriting(w.clone())),
    }
}

/// Where an input stream's reads come from, over the shared handles `N` of
/// network sockets and `H` of a request or response body.
#[derive(Debug)]
pub enum InputStream<N, H> {
    Empty,
    Stdin,
    TcpStream(N),
    UdpSocket(N),
    Http(H),
    /// These bytes, then the end.
    Bytes(Vec<u8>),
}

/// Whether `c` is a copy of `s`: the same kind of stream, over clones of
/// the same handles or the same bytes.
pub open spec fn is_input_copy<N: Clone, H: Clone>(s: InputStream<N, H>, c: InputStream<N, H>) -> bool {
    match s {
        InputStream::Empty => c is Empty,
        InputStream::Stdin => c is Stdin,
        InputStream::TcpStream(n) => c matches InputStream::TcpStream(m) && cloned(n, m),
        InputStream::UdpSocket(n) => c matches InputStream::UdpSocket(m) && cloned(n, m),
        InputStream::Http(h) => c matches InputStream::Http(g) && cloned(h, g),
        InputStream::Bytes(b) => c matches InputStream::Bytes(d) && d@ == b@,
    }
}

/// Whether `c` reads from the same kind of place as `s`: the same variant,
/// and for bytes the same bytes.
pub open spec fn same_source<N, H>(s: InputStream<N, H>, c: InputStream<N, H>) -> bool {
    &&& (s is Empty <==> c is Empty)
    &&& (s is Stdin <==> c is Stdin)
    &&& (s is TcpStream <==> c is TcpStream)
    &&& (s is UdpSocket <==> c is UdpSocket)
    &&& (s is Http <==> c is Http)
    &&& (s is Bytes <==> c is Bytes)
    &&& (s is Bytes ==> s->Bytes_0@ == c->Bytes_0@)
}

/// A copy of an input stream reads from where the stream reads: standard
/// input from standard input, a socket from a socket, a body from a body,
/// and the same bytes from the same bytes.
pub proof fn lemma_input_copies_read_from_the_same_place<N: Clone, H: Clone>(
    s: InputStream<N, H>,
    c: InputStream<N, H>,
)
    requires
        is_input_copy(s, c),
    ensures
        same_source(s, c),
{
}

/// A second stream that reads from where `stream` reads (for the guest's
/// `stdin`).
pub fn clone_input_stream<N: Clone, H: Clone>(stream: &InputStream<N, H>) -> (r: InputStream<N, H>)
    ensures
        is_input_copy(*stream, r),
        same_source(*stream, r),
{
    match stream {
        InputStream::Empty => InputStream::Empty,
        InputStream::Stdin => InputStream::Stdin,
        InputStream::TcpStream(n) => InputStream::TcpStream(n.clone()),
        InputStream::UdpSocket(n) => InputStream::UdpSocket(n.clone()),
        InputStream::Http(h) => InputStream::Http(h.clone()),
        InputStream::Bytes(b) => InputStream::Bytes(b.clone()),
    }
}

} // verus!
