use vstd::prelude::*;

use super::{ErrorCode, IpAddressFamily, SocketAddressFamily};

verus! {

/// Listen queue size used until the guest sets one.
pub const DEFAULT_BACKLOG: u32 = 128;

/// The state of a TCP socket in the bind/listen/accept/connect progression.
///
/// `S` is an unbound or bound socket, `L` a listener, `F` a connection that is
/// being established, `T` an established connection and `A` an accepted
/// connection.
pub enum TcpState<S, L, F, T, A> {
    /// The initial state of a newly created socket.
    Default(S),
    /// Binding started.
    BindStarted(S),
    /// Binding finished. The socket has an address but is not yet listening.
    Bound(S),
    /// Listening started.
    ListenStarted(L),
    /// The socket is listening; an accept result may already be waiting.
    Listening { listener: L, pending_accept: Option<Result<A, ErrorCode>> },
    /// An outgoing connection is started.
    ConnectStarted(F),
    /// An outgoing connection attempt has finished.
    ConnectReady(Result<T, ErrorCode>),
    /// A connection has been established.
    Connected(T),
    Closed,
}

/// The name of the variant of `state`.
pub open spec fn state_name<S, L, F, T, A>(state: TcpState<S, L, F, T, A>) -> Seq<char> {
    match state {
        TcpState::Default(_) => "Default"@,
        TcpState::BindStarted(_) => "BindStarted"@,
        TcpState::Bound(_) => "Bound"@,
        TcpState::ListenStarted(_) => "ListenStarted"@,
        TcpState::Listening { .. } => "Listening"@,
        TcpState::ConnectStarted(_) => "ConnectStarted"@,
        TcpState::ConnectReady(_) => "ConnectReady"@,
        TcpState::Connected(_) => "Connected"@,
        TcpState::Closed => "Closed"@,
    }
}

/// What an operation on a socket's file descriptor acts on in a given state.
pub enum SocketView<'a, S, L, T> {
    Socket(&'a S),
    Listener(&'a L),
    Stream(&'a T),
}

/// `r` is what taking the next connection from `before` gives, with
/// `poll_accept` asked when none is buffered, and `after` the state left.
pub open spec fn accept_outcome<S, L, F, T, A, PA: FnOnce(&L) -> Option<Result<A, ErrorCode>>>(
    before: TcpState<S, L, F, T, A>,
    poll_accept: PA,
    r: Result<A, ErrorCode>,
    after: TcpState<S, L, F, T, A>,
) -> bool {
    match before {
        TcpState::Listening { listener, pending_accept: Some(res) } => r == res && after
            == TcpState::<S, L, F, T, A>::Listening { listener, pending_accept: None },
        TcpState::Listening { listener, pending_accept: None } => after == before && exists|res|
            #![trigger call_ensures(poll_accept, (&listener,), res)]
            {
                &&& call_ensures(poll_accept, (&listener,), res)
                &&& r == match res {
                    Some(res) => res,
                    None => Err(ErrorCode::WouldBlock),
                }
            },
        _ => r == Err::<A, ErrorCode>(ErrorCode::InvalidState) && after == before,
    }
}

/// `listen` turned `s` into a listener and the socket now listens, or it
/// failed and the socket is closed with its error.
pub open spec fn listen_outcome<S, L, F, T, A, LI: FnOnce(S, u32) -> Result<L, ErrorCode>>(
    listen: LI,
    s: S,
    backlog: u32,
    r: Result<(), ErrorCode>,
    after: TcpState<S, L, F, T, A>,
) -> bool {
    exists|res: Result<L, ErrorCode>|
        #![trigger call_ensures(listen, (s, backlog), res)]
        {
            &&& call_ensures(listen, (s, backlog), res)
            &&& match res {
                Ok(l) => r is Ok && after == TcpState::<S, L, F, T, A>::ListenStarted(l),
                Err(e) => r == Err::<(), ErrorCode>(e) && after is Closed,
            }
        }
}

impl<S, L, F, T, A> TcpState<S, L, F, T, A> {
    fn take(&mut self) -> (prev: Self)
        ensures
            prev == *old(self),
            *final(self) matches TcpState::Closed,
    {
        let mut prev = TcpState::Closed;
        core::mem::swap(&mut prev, self);
        prev
    }

    /// Drives a pending accept or connect forward.
    ///
    /// `poll_accept` is asked for an incoming connection while listening with
    /// none buffered, `poll_connect` whether a started connection finished
    /// (`Err` hands back a still pending attempt). Returns whether the socket
    /// is ready.
    pub fn poll<PA, PC>(&mut self, poll_accept: PA, poll_connect: PC) -> (ready: bool)
        where
            PA: FnOnce(&L) -> Option<Result<A, ErrorCode>>,
            PC: FnOnce(F) -> Result<Result<T, ErrorCode>, F>,
        requires
            *old(self) matches TcpState::Listening { listener, pending_accept: None }
                ==> call_requires(poll_accept, (&listener,)),
            *old(self) matches TcpState::ConnectStarted(f) ==> call_requires(poll_connect, (f,)),
        ensures
            match *old(self) {
                TcpState::Listening { listener, pending_accept: None } => exists|res| {
                    &&& call_ensures(poll_accept, (&listener,), res)
                    &&& ready == res is Some
                    &&& *final(self) == TcpState::<S, L, F, T, A>::Listening {
                        listener,
                        pending_accept: res,
                    }
                },
                TcpState::ConnectStarted(f) => exists|res| {
                    &&& call_ensures(poll_connect, (f,), res)
                    &&& ready == res is Ok
                    &&& *final(self) == match res {
                        Ok(r) => TcpState::<S, L, F, T, A>::ConnectReady(r),
                        Err(f2) => TcpState::ConnectStarted(f2),
                    }
                },
                _ => ready && *final(self) == *old(self),
            },
    {
        match self.take() {
            TcpState::Listening { listener, pending_accept: None } => {
                let res = poll_accept(&listener);
                let ready = res.is_some();
                *self = TcpState::Listening { listener, pending_accept: res };
                ready
            },
            TcpState::ConnectStarted(f) => {
                match poll_connect(f) {
                    Ok(r) => {
                        *self = TcpState::ConnectReady(r);
                        true
                    },
                    Err(f) => {
                        *self = TcpState::ConnectStarted(f);
                        false
                    },
                }
            },
            prev => {
                *self = prev;
                true
            },
        }
    }

    /// Which of the socket's handles an option of its file descriptor is read
    /// or set through; none while a connection is in flight or after close.
    pub fn as_std_view(&self) -> (r: Result<SocketView<'_, S, L, T>, ErrorCode>)
        ensures
            match *self {
                TcpState::Default(s) | TcpState::BindStarted(s) | TcpState::Bound(s) =>
                    r matches Ok(SocketView::Socket(v)) && *v == s,
                TcpState::ListenStarted(l) | TcpState::Listening { listener: l, .. } =>
                    r matches Ok(SocketView::Listener(v)) && *v == l,
                TcpState::Connected(t) => r matches Ok(SocketView::Stream(v)) && *v == t,
                _ => r == Err::<SocketView<'_, S, L, T>, ErrorCode>(ErrorCode::InvalidState),
            },
    {
        match self {
            TcpState::Default(s) | TcpState::BindStarted(s) | TcpState::Bound(s) => Ok(
                SocketView::Socket(s),
            ),
            TcpState::Connected(t) => Ok(SocketView::Stream(t)),
            TcpState::ListenStarted(l) | TcpState::Listening { listener: l, .. } => Ok(
                SocketView::Listener(l),
            ),
            _ => Err(ErrorCode::InvalidState),
        }
    }

    /// Starts binding a fresh socket.
    ///
    /// `valid_address` says whether the local address is a unicast address of
    /// the socket's family; `bind` performs the bind.
    pub fn start_bind<B>(&mut self, valid_address: bool, bind: B) -> (r: Result<(), ErrorCode>)
        where
            B: FnOnce(&S) -> Result<(), ErrorCode>,
        requires
            valid_address ==> (*old(self) matches TcpState::Default(s) ==> call_requires(
                bind,
                (&s,),
            )),
        ensures
            !valid_address ==> r == Err::<(), ErrorCode>(ErrorCode::InvalidArgument) && *final(self) == *old(self),
            valid_address ==> match *old(self) {
                TcpState::Default(s) => {
                    &&& call_ensures(bind, (&s,), r)
                    &&& r is Ok ==> *final(self) == TcpState::<S, L, F, T, A>::BindStarted(s)
                    &&& r is Err ==> *final(self) == TcpState::<S, L, F, T, A>::Default(s)
                },
                _ => r == Err::<(), ErrorCode>(ErrorCode::InvalidState) && *final(self) == *old(self),
            },
    {
        if !valid_address {
            return Err(ErrorCode::InvalidArgument);
        }
        match self.take() {
            TcpState::Default(sock) => {
                let r = bind(&sock);
                if r.is_err() {
                    *self = TcpState::Default(sock);
                } else {
                    *self = TcpState::BindStarted(sock);
                }
                r
            },
            state => {
                *self = state;
                Err(ErrorCode::InvalidState)
            },
        }
    }

    /// Completes a started bind.
    pub fn finish_bind(&mut self) -> (r: Result<(), ErrorCode>)
        ensures
            match *old(self) {
                TcpState::BindStarted(s) => r is Ok && *final(self) == TcpState::<
                    S,
                    L,
                    F,
                    T,
                    A,
                >::Bound(s),
                _ => r == Err::<(), ErrorCode>(ErrorCode::NotInProgress) && *final(self) == *old(self),
            },
    {
        match self.take() {
            TcpState::BindStarted(sock) => {
                *self = TcpState::Bound(sock);
                Ok(())
            },
            state => {
                *self = state;
                Err(ErrorCode::NotInProgress)
            },
        }
    }

    /// Starts connecting a socket that is not yet listening or connected.
    ///
    /// `valid_address` says whether the remote address is a unicast address
    /// of the socket's family that names a host and a port; `connect` starts
    /// the connection attempt.
    pub fn start_connect<C>(&mut self, valid_address: bool, connect: C) -> (r: Result<
        (),
        ErrorCode,
    >)
        where
            C: FnOnce(S) -> F,
        requires
            valid_address ==> match *old(self) {
                TcpState::Default(s) | TcpState::BindStarted(s) | TcpState::Bound(s) =>
                    call_requires(connect, (s,)),
                _ => true,
            },
        ensures
            !valid_address ==> r == Err::<(), ErrorCode>(ErrorCode::InvalidArgument) && *final(self) == *old(self),
            valid_address ==> match *old(self) {
                TcpState::Default(s) | TcpState::BindStarted(s) | TcpState::Bound(s) => r is Ok
                    && exists|f: F|
                    call_ensures(connect, (s,), f) && *final(self) == TcpState::<
                        S,
                        L,
                        F,
                        T,
                        A,
                    >::ConnectStarted(f),
                _ => r == Err::<(), ErrorCode>(ErrorCode::InvalidState) && *final(self) == *old(self),
            },
    {
        if !valid_address {
            return Err(ErrorCode::InvalidArgument);
        }
        match self.take() {
            TcpState::Default(sock) | TcpState::BindStarted(sock) | TcpState::Bound(sock) => {
                let f = connect(sock);
                *self = TcpState::ConnectStarted(f);
                Ok(())
            },
            state => {
                *self = state;
                Err(ErrorCode::InvalidState)
            },
        }
    }

    /// Completes a connection attempt.
    ///
    /// A started attempt is polled once through `poll_connect` (`Err` hands
    /// it back, still pending); on success `open` makes the connection's
    /// input and output streams.
    pub fn finish_connect<PC, O, R>(&mut self, poll_connect: PC, open: O) -> (r: Result<
        R,
        ErrorCode,
    >)
        where
            PC: FnOnce(F) -> Result<Result<T, ErrorCode>, F>,
            O: FnOnce(&T) -> R,
        requires
            *old(self) matches TcpState::ConnectStarted(f) ==> call_requires(poll_connect, (f,)),
            forall|t: T| call_requires(open, (&t,)),
        ensures
            match *old(self) {
                TcpState::ConnectStarted(f) => exists|res| {
                    &&& call_ensures(poll_connect, (f,), res)
                    &&& match res {
                        Err(f2) => r == Err::<R, ErrorCode>(ErrorCode::WouldBlock) && *final(self)
                            == TcpState::<S, L, F, T, A>::ConnectStarted(f2),
                        Ok(Err(e)) => r == Err::<R, ErrorCode>(e) && *final(self)
                            matches TcpState::Closed,
                        Ok(Ok(t)) => {
                            &&& *final(self) == TcpState::<S, L, F, T, A>::Connected(t)
                            &&& r matches Ok(streams) && call_ensures(open, (&t,), streams)
                        },
                    }
                },
                TcpState::ConnectReady(Ok(t)) => {
                    &&& *final(self) == TcpState::<S, L, F, T, A>::Connected(t)
                    &&& r matches Ok(streams) && call_ensures(open, (&t,), streams)
                },
                TcpState::ConnectReady(Err(e)) => r == Err::<R, ErrorCode>(e) && *final(self)
                    matches TcpState::Closed,
                _ => r == Err::<R, ErrorCode>(ErrorCode::NotInProgress) && *final(self) == *old(self),
            },
    {
        let stream = match self.take() {
            TcpState::ConnectStarted(f) => match poll_connect(f) {
                Ok(Ok(stream)) => stream,
                Ok(Err(err)) => return Err(err),
                Err(f) => {
                    *self = TcpState::ConnectStarted(f);
                    return Err(ErrorCode::WouldBlock);
                },
            },
            TcpState::ConnectReady(Ok(stream)) => stream,
            TcpState::ConnectReady(Err(err)) => return Err(err),
            prev => {
                *self = prev;
                return Err(ErrorCode::NotInProgress);
            },
        };
        let streams = open(&stream);
        *self = TcpState::Connected(stream);
        Ok(streams)
    }

    /// Starts listening on a bound socket with the given queue size.
    ///
    /// `listen` turns the socket into a listener; when it fails the socket is
    /// gone and the state is closed.
    pub fn start_listen<LI>(&mut self, backlog: u32, listen: LI) -> (r: Result<(), ErrorCode>)
        where
            LI: FnOnce(S, u32) -> Result<L, ErrorCode>,
        requires
            match *old(self) {
                TcpState::BindStarted(s) | TcpState::Bound(s) => call_requires(
                    listen,
                    (s, backlog),
                ),
                _ => true,
            },
        ensures
            match *old(self) {
                TcpState::BindStarted(s) | TcpState::Bound(s) => listen_outcome(
                    listen,
                    s,
                    backlog,
                    r,
                    *final(self),
                ),
                TcpState::ListenStarted(_) => r == Err::<(), ErrorCode>(
                    ErrorCode::ConcurrencyConflict,
                ) && *final(self) == *old(self),
                _ => r == Err::<(), ErrorCode>(ErrorCode::InvalidState) && *final(self) == *old(self),
            },
    {
        match self.take() {
            TcpState::BindStarted(sock) | TcpState::Bound(sock) => {
                let res = listen(sock, backlog);
                let ghost witness = res;
                match res {
                    Ok(listener) => {
                        *self = TcpState::ListenStarted(listener);
                        assert(call_ensures(listen, (sock, backlog), witness));
                        assert(listen_outcome(listen, sock, backlog, Ok(()), *self));
                        Ok(())
                    },
                    Err(err) => {
                        assert(call_ensures(listen, (sock, backlog), witness));
                        assert(listen_outcome(listen, sock, backlog, Err(err), *self));
                        Err(err)
                    },
                }
            },
            TcpState::ListenStarted(listener) => {
                *self = TcpState::ListenStarted(listener);
                Err(ErrorCode::ConcurrencyConflict)
            },
            state => {
                *self = state;
                Err(ErrorCode::InvalidState)
            },
        }
    }

    /// Completes a started listen.
    pub fn finish_listen(&mut self) -> (r: Result<(), ErrorCode>)
        ensures
            match *old(self) {
                TcpState::ListenStarted(l) => r is Ok && *final(self) == TcpState::<
                    S,
                    L,
                    F,
                    T,
                    A,
                >::Listening { listener: l, pending_accept: None },
                _ => r == Err::<(), ErrorCode>(ErrorCode::NotInProgress) && *final(self) == *old(self),
            },
    {
        match self.take() {
            TcpState::ListenStarted(listener) => {
                *self = TcpState::Listening { listener, pending_accept: None };
                Ok(())
            },
            state => {
                *self = state;
                Err(ErrorCode::NotInProgress)
            },
        }
    }

    /// Takes the next incoming connection of a listening socket: one found by
    /// an earlier poll, else whatever `poll_accept` finds now.
    pub fn accept<PA>(&mut self, poll_accept: PA) -> (r: Result<A, ErrorCode>)
        where
            PA: FnOnce(&L) -> Option<Result<A, ErrorCode>>,
        requires
            *old(self) matches TcpState::Listening { listener, pending_accept: None }
                ==> call_requires(poll_accept, (&listener,)),
        ensures
            accept_outcome(*old(self), poll_accept, r, *final(self)),
    {
        match self.take() {
            TcpState::Listening { listener, pending_accept } => {
                let res = match pending_accept {
                    Some(res) => res,
                    None => match poll_accept(&listener) {
                        Some(res) => res,
                        None => Err(ErrorCode::WouldBlock),
                    },
                };
                *self = TcpState::Listening { listener, pending_accept: None };
                res
            },
            state => {
                *self = state;
                Err(ErrorCode::InvalidState)
            },
        }
    }

    /// Shuts a connected socket down through `shutdown`; the outcome of that
    /// call is ignored.
    pub fn shutdown<SH>(&self, shutdown: SH) -> (r: Result<(), ErrorCode>)
        where
            SH: FnOnce(&T),
        requires
            *self matches TcpState::Connected(t) ==> call_requires(shutdown, (&t,)),
        ensures
            match *self {
                TcpState::Connected(t) => r is Ok && call_ensures(shutdown, (&t,), ()),
                _ => r == Err::<(), ErrorCode>(ErrorCode::InvalidState),
            },
    {
        match self {
            TcpState::Connected(stream) => {
                shutdown(stream);
                Ok(())
            },
            _ => Err(ErrorCode::InvalidState),
        }
    }

    /// The handle whose local address the socket reports: none before a bind
    /// started, while a connection is in flight, or after close.
    pub fn local_address(&self) -> (r: Result<SocketView<'_, S, L, T>, ErrorCode>)
        ensures
            match *self {
                TcpState::BindStarted(s) | TcpState::Bound(s) => r matches Ok(
                    SocketView::Socket(v),
                ) && *v == s,
                TcpState::ListenStarted(l) | TcpState::Listening { listener: l, .. } =>
                    r matches Ok(SocketView::Listener(v)) && *v == l,
                TcpState::Connected(t) => r matches Ok(SocketView::Stream(v)) && *v == t,
                _ => r == Err::<SocketView<'_, S, L, T>, ErrorCode>(ErrorCode::InvalidState),
            },
    {
        match self {
            TcpState::BindStarted(s) | TcpState::Bound(s) => Ok(SocketView::Socket(s)),
            TcpState::Connected(t) => Ok(SocketView::Stream(t)),
            TcpState::ListenStarted(l) | TcpState::Listening { listener: l, .. } => Ok(
                SocketView::Listener(l),
            ),
            _ => Err(ErrorCode::InvalidState),
        }
    }

    /// The connection whose peer address the socket reports.
    pub fn remote_address(&self) -> (r: Result<&T, ErrorCode>)
        ensures
            match *self {
                TcpState::Connected(t) => r matches Ok(v) && *v == t,
                _ => r == Err::<&T, ErrorCode>(ErrorCode::InvalidState),
            },
    {
        match self {
            TcpState::Connected(t) => Ok(t),
            _ => Err(ErrorCode::InvalidState),
        }
    }

    /// Whether the socket is listening for connections.
    pub fn is_listening(&self) -> (r: bool)
        ensures
            r == (*self is Listening),
    {
        match self {
            TcpState::Listening { .. } => true,
            _ => false,
        }
    }

    /// The name of the state, as debug output shows it; what the state holds
    /// is left out.
    pub fn debug_name(&self) -> (r: &'static str)
        ensures
            r@ == state_name(*self),
    {
        match self {
            TcpState::Default(_) => "Default",
            TcpState::BindStarted(_) => "BindStarted",
            TcpState::Bound(_) => "Bound",
            TcpState::ListenStarted(_) => "ListenStarted",
            TcpState::Listening { .. } => "Listening",
            TcpState::ConnectStarted(_) => "ConnectStarted",
            TcpState::ConnectReady(_) => "ConnectReady",
            TcpState::Connected(_) => "Connected",
            TcpState::Closed => "Closed",
        }
    }
}

/// Smallest listen queue size a guest can ask for.
pub const MIN_BACKLOG: u32 = 1;

/// Largest listen queue size passed on to the operating system.
pub const MAX_BACKLOG: u32 = 0x7fff_ffff;

/// One second, in nanoseconds.
pub const NANOS_PER_SEC: u64 = 1_000_000_000;

/// Shortest keep-alive idle time and interval passed to the operating system,
/// so that it is never rounded down to zero seconds.
pub const MIN_KEEP_ALIVE_NANOS: u64 = 1_000_000_000;

/// Longest keep-alive idle time and interval passed to the operating system
/// (`i16::MAX` seconds).
pub const MAX_KEEP_ALIVE_NANOS: u64 = 32_767_000_000_000;

/// Largest keep-alive probe count passed to the operating system (`i8::MAX`).
pub const MAX_KEEP_ALIVE_COUNT: u32 = 127;

/// `v` limited to the range `lo..=hi`.
pub open spec fn clamped(v: int, lo: int, hi: int) -> int {
    if v < lo {
        lo
    } else if v > hi {
        hi
    } else {
        v
    }
}

/// The listen queue size a requested `value` becomes: values too large for a
/// `u32` and values above `MAX_BACKLOG` become `MAX_BACKLOG`.
pub open spec fn backlog_for(value: u64) -> u32 {
    if value > u32::MAX {
        MAX_BACKLOG
    } else {
        clamped(value as int, MIN_BACKLOG as int, MAX_BACKLOG as int) as u32
    }
}

/// The idle time the guest's keep-alive request becomes, or the error it gets.
pub fn keep_alive_idle_time_arg(value: u64) -> (r: Result<u64, ErrorCode>)
    ensures
        value == 0 ==> r == Err::<u64, ErrorCode>(ErrorCode::InvalidArgument),
        value != 0 ==> r == Ok::<u64, ErrorCode>(
            clamped(value as int, MIN_KEEP_ALIVE_NANOS as int, MAX_KEEP_ALIVE_NANOS as int) as u64,
        ),
{
    if value == 0 {
        return Err(ErrorCode::InvalidArgument);
    }
    Ok(clamp_u64(value, MIN_KEEP_ALIVE_NANOS, MAX_KEEP_ALIVE_NANOS))
}

/// The keep-alive interval the guest's request becomes, or the error it gets.
pub fn keep_alive_interval_arg(value: u64) -> (r: Result<u64, ErrorCode>)
    ensures
        value == 0 ==> r == Err::<u64, ErrorCode>(ErrorCode::InvalidArgument),
        value != 0 ==> r == Ok::<u64, ErrorCode>(
            clamped(value as int, MIN_KEEP_ALIVE_NANOS as int, MAX_KEEP_ALIVE_NANOS as int) as u64,
        ),
{
    if value == 0 {
        return Err(ErrorCode::InvalidArgument);
    }
    Ok(clamp_u64(value, MIN_KEEP_ALIVE_NANOS, MAX_KEEP_ALIVE_NANOS))
}

/// The keep-alive probe count the guest's request becomes, or the error it
/// gets.
pub fn keep_alive_count_arg(value: u32) -> (r: Result<u32, ErrorCode>)
    ensures
        value == 0 ==> r == Err::<u32, ErrorCode>(ErrorCode::InvalidArgument),
        value != 0 ==> r == Ok::<u32, ErrorCode>(
            clamped(value as int, 1, MAX_KEEP_ALIVE_COUNT as int) as u32,
        ),
{
    if value == 0 {
        return Err(ErrorCode::InvalidArgument);
    }
    if value > MAX_KEEP_ALIVE_COUNT {
        Ok(MAX_KEEP_ALIVE_COUNT)
    } else {
        Ok(value)
    }
}

/// A duration the operating system reports, in nanoseconds, as the `u64`
/// that WASI carries: saturated at `u64::MAX`.
pub fn duration_nanos(nanos: u128) -> (r: u64)
    ensures
        r == if nanos > u64::MAX {
            u64::MAX as int
        } else {
            nanos as int
        },
{
    if nanos > u64::MAX as u128 {
        u64::MAX
    } else {
        nanos as u64
    }
}

fn clamp_u64(v: u64, lo: u64, hi: u64) -> (r: u64)
    requires
        lo <= hi,
    ensures
        r == clamped(v as int, lo as int, hi as int),
{
    if v < lo {
        lo
    } else if v > hi {
        hi
    } else {
        v
    }
}

/// Asking the operating system, through `relisten`, to apply queue size `v`
/// to listener `l` gave `r`, and the kept size went from `before` to `after`:
/// it changes only if the system could apply it.
pub open spec fn relisten_outcome<L, RL: FnOnce(&L, i32) -> bool>(
    relisten: RL,
    l: L,
    v: u32,
    r: Result<(), ErrorCode>,
    before: u32,
    after: u32,
) -> bool {
    exists|ok: bool|
        #![trigger call_ensures(relisten, (&l, v as i32), ok)]
        {
            &&& call_ensures(relisten, (&l, v as i32), ok)
            &&& ok ==> r is Ok && after == v
            &&& !ok ==> r == Err::<(), ErrorCode>(ErrorCode::NotSupported) && after == before
        }
}

/// A host TCP socket, plus associated bookkeeping.
pub struct TcpSocket<S, L, F, T, A> {
    /// The current state in the bind/listen/accept/connect progression.
    pub tcp_state: TcpState<S, L, F, T, A>,
    /// The desired listen queue size.
    pub listen_backlog_size: u32,
    pub family: SocketAddressFamily,
}

impl<S, L, F, T, A> TcpSocket<S, L, F, T, A> {
    /// Creates a socket in `state` with the default listen queue size.
    pub fn from_state(state: TcpState<S, L, F, T, A>, family: SocketAddressFamily) -> (r: Self)
        ensures
            r.tcp_state == state,
            r.family == family,
            r.listen_backlog_size == DEFAULT_BACKLOG,
    {
        TcpSocket { tcp_state: state, listen_backlog_size: DEFAULT_BACKLOG, family }
    }

    /// The socket's address family as WASI reports it.
    pub fn address_family(&self) -> (r: IpAddressFamily)
        ensures
            (r == IpAddressFamily::Ipv4) == (self.family == SocketAddressFamily::Ipv4),
    {
        match self.family {
            SocketAddressFamily::Ipv4 => IpAddressFamily::Ipv4,
            SocketAddressFamily::Ipv6 => IpAddressFamily::Ipv6,
        }
    }

    /// Starts listening with the socket's listen queue size.
    pub fn start_listen<LI>(&mut self, listen: LI) -> (r: Result<(), ErrorCode>)
        where
            LI: FnOnce(S, u32) -> Result<L, ErrorCode>,
        requires
            match old(self).tcp_state {
                TcpState::BindStarted(s) | TcpState::Bound(s) => call_requires(
                    listen,
                    (s, old(self).listen_backlog_size),
                ),
                _ => true,
            },
        ensures
            final(self).listen_backlog_size == old(self).listen_backlog_size,
            final(self).family == old(self).family,
            match old(self).tcp_state {
                TcpState::BindStarted(s) | TcpState::Bound(s) => listen_outcome(
                    listen,
                    s,
                    old(self).listen_backlog_size,
                    r,
                    final(self).tcp_state,
                ),
                TcpState::ListenStarted(_) => r == Err::<(), ErrorCode>(
                    ErrorCode::ConcurrencyConflict,
                ) && final(self).tcp_state == old(self).tcp_state,
                _ => r == Err::<(), ErrorCode>(ErrorCode::InvalidState) && final(self).tcp_state
                    == old(self).tcp_state,
            },
    {
        let backlog = self.listen_backlog_size;
        self.tcp_state.start_listen(backlog, listen)
    }

    /// Accepts a connection and makes a connected socket of the same family
    /// for it; `open` turns the accepted connection into the connection
    /// handle and its streams.
    pub fn accept<PA, O, R>(&mut self, poll_accept: PA, open: O) -> (r: Result<
        (Self, R),
        ErrorCode,
    >)
        where
            PA: FnOnce(&L) -> Option<Result<A, ErrorCode>>,
            O: FnOnce(A) -> (T, R),
        requires
            old(self).tcp_state matches TcpState::Listening { listener, pending_accept: None }
                ==> call_requires(poll_accept, (&listener,)),
            forall|a: A| call_requires(open, (a,)),
        ensures
            final(self).listen_backlog_size == old(self).listen_backlog_size,
            final(self).family == old(self).family,
            exists|res: Result<A, ErrorCode>|
                #![trigger accept_outcome(old(self).tcp_state, poll_accept, res, final(self).tcp_state)]
                {
                    &&& accept_outcome(old(self).tcp_state, poll_accept, res, final(self).tcp_state)
                    &&& match res {
                        Ok(a) => exists|opened: (T, R)|
                            #![trigger call_ensures(open, (a,), opened)]
                            {
                                &&& call_ensures(open, (a,), opened)
                                &&& r matches Ok((sock, streams))
                                &&& streams == opened.1
                                &&& sock == TcpSocket::from_state_spec(
                                    TcpState::<S, L, F, T, A>::Connected(opened.0),
                                    old(self).family,
                                )
                            },
                        Err(e) => r == Err::<(Self, R), ErrorCode>(e),
                    }
                },
    {
        let res = self.tcp_state.accept(poll_accept);
        let ghost witness = res;
        match res {
            Ok(a) => {
                let opened = open(a);
                let ghost opened_ghost = opened;
                let (stream, streams) = opened;
                let sock = Self::from_state(TcpState::Connected(stream), self.family);
                assert(call_ensures(open, (a,), opened_ghost));
                Ok((sock, streams))
            },
            Err(e) => Err(e),
        }
    }

    /// The socket `from_state` makes.
    pub open spec fn from_state_spec(state: TcpState<S, L, F, T, A>, family: SocketAddressFamily) -> Self {
        TcpSocket { tcp_state: state, listen_backlog_size: DEFAULT_BACKLOG, family }
    }

    /// Sets the listen queue size, silently limited to
    /// `MIN_BACKLOG..=MAX_BACKLOG`.
    ///
    /// Before listening the size is kept for the first listen; while
    /// listening `relisten` asks the operating system to apply it, and the
    /// size is kept only if it can.
    pub fn set_listen_backlog_size<RL>(&mut self, value: u64, relisten: RL) -> (r: Result<
        (),
        ErrorCode,
    >)
        where
            RL: FnOnce(&L, i32) -> bool,
        requires
            value != 0 ==> match old(self).tcp_state {
                TcpState::ListenStarted(l) | TcpState::Listening { listener: l, .. } =>
                    call_requires(relisten, (&l, backlog_for(value) as i32)),
                _ => true,
            },
        ensures
            final(self).tcp_state == old(self).tcp_state,
            final(self).family == old(self).family,
            value == 0 ==> r == Err::<(), ErrorCode>(ErrorCode::InvalidArgument)
                && final(self).listen_backlog_size == old(self).listen_backlog_size,
            value != 0 ==> match old(self).tcp_state {
                TcpState::ListenStarted(l) => relisten_outcome(
                    relisten,
                    l,
                    backlog_for(value),
                    r,
                    old(self).listen_backlog_size,
                    final(self).listen_backlog_size,
                ),
                TcpState::Listening { listener: l, .. } => relisten_outcome(
                    relisten,
                    l,
                    backlog_for(value),
                    r,
                    old(self).listen_backlog_size,
                    final(self).listen_backlog_size,
                ),
                TcpState::Default(_) => r is Ok && final(self).listen_backlog_size == backlog_for(value),
                TcpState::BindStarted(_) => r is Ok && final(self).listen_backlog_size == backlog_for(value),
                TcpState::Bound(_) => r is Ok && final(self).listen_backlog_size == backlog_for(value),
                _ => r == Err::<(), ErrorCode>(ErrorCode::InvalidState)
                    && final(self).listen_backlog_size == old(self).listen_backlog_size,
            },
    {
        if value == 0 {
            return Err(ErrorCode::InvalidArgument);
        }
        let requested = value;
        let value: u32 = if value > u32::MAX as u64 {
            MAX_BACKLOG
        } else {
            let v = value as u32;
            if v > MAX_BACKLOG {
                MAX_BACKLOG
            } else {
                v
            }
        };
        assert(value == backlog_for(requested));
        match &self.tcp_state {
            TcpState::Default(..) | TcpState::BindStarted(..) | TcpState::Bound(..) => {
                self.listen_backlog_size = value;
                Ok(())
            },
            TcpState::ListenStarted(listener) | TcpState::Listening { listener, .. } => {
                let ok = relisten(listener, value as i32);
                assert(call_ensures(relisten, (listener, backlog_for(requested) as i32), ok));
                if !ok {
                    return Err(ErrorCode::NotSupported);
                }
                self.listen_backlog_size = value;
                Ok(())
            },
            _ => Err(ErrorCode::InvalidState),
        }
    }
}


/// Whatever the guest asks for, the listen queue size stays between
/// `MIN_BACKLOG` and `MAX_BACKLOG`, and asking for it again keeps it.
pub proof fn lemma_backlog_in_range(value: u64)
    ensures
        MIN_BACKLOG <= backlog_for(value) <= MAX_BACKLOG,
        backlog_for(backlog_for(value) as u64) == backlog_for(value),
{
}

/// Every keep-alive setting that is accepted lies within the range the
/// host allows.
pub proof fn lemma_keep_alive_in_range(value: u64, count: u32)
    ensures
        value != 0 ==> MIN_KEEP_ALIVE_NANOS <= clamped(
            value as int,
            MIN_KEEP_ALIVE_NANOS as int,
            MAX_KEEP_ALIVE_NANOS as int,
        ) <= MAX_KEEP_ALIVE_NANOS,
        count != 0 ==> 1 <= clamped(count as int, 1, MAX_KEEP_ALIVE_COUNT as int)
            <= MAX_KEEP_ALIVE_COUNT,
{
}


/// A requested value that is within the host's range is used as it is; one
/// below it becomes the least, one above it the most the host allows. This
/// holds of the listen queue size, of the keep-alive idle time and interval
/// (in nanoseconds, one second to `i16::MAX` seconds), and of the keep-alive
/// probe count (1 to `i8::MAX`).
pub proof fn lemma_in_range_values_are_kept(value: u64, count: u32)
    ensures
        MIN_BACKLOG <= value <= MAX_BACKLOG ==> backlog_for(value) == value,
        value < MIN_BACKLOG ==> backlog_for(value) == MIN_BACKLOG,
        value > MAX_BACKLOG ==> backlog_for(value) == MAX_BACKLOG,
        MIN_KEEP_ALIVE_NANOS <= value <= MAX_KEEP_ALIVE_NANOS ==> clamped(
            value as int,
            MIN_KEEP_ALIVE_NANOS as int,
            MAX_KEEP_ALIVE_NANOS as int,
        ) == value,
        value < MIN_KEEP_ALIVE_NANOS ==> clamped(
            value as int,
            MIN_KEEP_ALIVE_NANOS as int,
            MAX_KEEP_ALIVE_NANOS as int,
        ) == MIN_KEEP_ALIVE_NANOS,
        value > MAX_KEEP_ALIVE_NANOS ==> clamped(
            value as int,
            MIN_KEEP_ALIVE_NANOS as int,
            MAX_KEEP_ALIVE_NANOS as int,
        ) == MAX_KEEP_ALIVE_NANOS,
        MIN_KEEP_ALIVE_NANOS == 1_000_000_000,
        MAX_KEEP_ALIVE_NANOS == 32767 * 1_000_000_000,
        1 <= count <= MAX_KEEP_ALIVE_COUNT ==> clamped(count as int, 1, MAX_KEEP_ALIVE_COUNT as int)
            == count,
        count > MAX_KEEP_ALIVE_COUNT ==> clamped(count as int, 1, MAX_KEEP_ALIVE_COUNT as int)
            == MAX_KEEP_ALIVE_COUNT,
        MAX_KEEP_ALIVE_COUNT == 127,
{
}

/// A socket has a descriptor whose options can be read or set in every
/// state but while connecting and once closed; the descriptor is the
/// socket itself until it listens, then the listener, and once connected
/// the stream.
pub proof fn lemma_descriptor_follows_the_state<'a, S, L, F, T, A>(
    state: TcpState<S, L, F, T, A>,
    v: SocketView<'a, S, L, T>,
)
    ensures
        !has_std_view(state) <==> (state is ConnectStarted || state is ConnectReady
            || state is Closed),
        is_std_view(state, v) ==> has_std_view(state),
        (state is Default || state is BindStarted || state is Bound) && is_std_view(state, v)
            ==> v is Socket,
        (state is ListenStarted || state is Listening) && is_std_view(state, v) ==> v is Listener,
        state is Connected && is_std_view(state, v) ==> v is Stream,
{
}

/// A connection that was already accepted is handed out once: taking it
/// gives it and leaves none buffered. With none buffered the listener is
/// asked, the state stays as it was, and no answer means `would-block`.
/// A socket that does not listen cannot accept.
pub proof fn lemma_accept_hands_out_once<S, L, F, T, A, PA: FnOnce(&L) -> Option<
    Result<A, ErrorCode>,
>>(
    before: TcpState<S, L, F, T, A>,
    poll_accept: PA,
    r: Result<A, ErrorCode>,
    after: TcpState<S, L, F, T, A>,
)
    requires
        accept_outcome(before, poll_accept, r, after),
    ensures
        before matches TcpState::Listening { listener, pending_accept: Some(res) } ==> (r == res
            && (after matches TcpState::Listening { listener: l2, pending_accept: None } && l2
            == listener)),
        before matches TcpState::Listening { pending_accept: None, .. } ==> after == before,
        !(before is Listening) ==> r == Err::<A, ErrorCode>(ErrorCode::InvalidState) && after
            == before,
        after is Listening ==> after->pending_accept is None,
{
}

/// Whether `v` is the handle through which an option of the descriptor of a
/// socket in `state` is read or set.
pub open spec fn is_std_view<'a, S, L, F, T, A>(
    state: TcpState<S, L, F, T, A>,
    v: SocketView<'a, S, L, T>,
) -> bool {
    match state {
        TcpState::Default(s) => v matches SocketView::Socket(x) && *x == s,
        TcpState::BindStarted(s) => v matches SocketView::Socket(x) && *x == s,
        TcpState::Bound(s) => v matches SocketView::Socket(x) && *x == s,
        TcpState::ListenStarted(l) => v matches SocketView::Listener(x) && *x == l,
        TcpState::Listening { listener, .. } => v matches SocketView::Listener(x) && *x
            == listener,
        TcpState::Connected(t) => v matches SocketView::Stream(x) && *x == t,
        _ => false,
    }
}

/// Whether a socket in `state` has a descriptor whose options can be read
/// or set.
pub open spec fn has_std_view<S, L, F, T, A>(state: TcpState<S, L, F, T, A>) -> bool {
    ||| state is Default
    ||| state is BindStarted
    ||| state is Bound
    ||| state is ListenStarted
    ||| state is Listening
    ||| state is Connected
}

impl<S, L, F, T, A> TcpSocket<S, L, F, T, A> {
    /// Reads or sets an option of the socket's descriptor with `op`;
    /// `invalid-state` where the socket has none.
    pub fn socket_option<'a, R, OP: FnOnce(SocketView<'a, S, L, T>) -> Result<R, ErrorCode>>(
        &'a self,
        op: OP,
    ) -> (r: Result<R, ErrorCode>)
        requires
            forall|v: SocketView<'a, S, L, T>| call_requires(op, (v,)),
        ensures
            !has_std_view(self.tcp_state) ==> r == Err::<R, ErrorCode>(ErrorCode::InvalidState),
            has_std_view(self.tcp_state) ==> exists|v: SocketView<'a, S, L, T>|
                is_std_view(self.tcp_state, v) && #[trigger] call_ensures(op, (v,), r),
    {
        match self.tcp_state.as_std_view() {
            Ok(v) => {
                let ghost w = v;
                let r = op(v);
                assert(is_std_view(self.tcp_state, w) && call_ensures(op, (w,), r));
                r
            },
            Err(e) => Err(e),
        }
    }

    /// Sets an option of the socket's descriptor to `value` with `set`;
    /// `invalid-state` where the socket has none.
    pub fn set_socket_option<'a, V, OP: FnOnce(SocketView<'a, S, L, T>, V) -> Result<(), ErrorCode>>(
        &'a self,
        value: V,
        set: OP,
    ) -> (r: Result<(), ErrorCode>)
        requires
            forall|v: SocketView<'a, S, L, T>, x: V| call_requires(set, (v, x)),
        ensures
            set_option_outcome(self.tcp_state, set, value, r),
    {
        match self.tcp_state.as_std_view() {
            Ok(v) => {
                let ghost w = v;
                let ghost x = value;
                let r = set(v, value);
                assert(is_std_view(self.tcp_state, w) && call_ensures(set, (w, x), r));
                r
            },
            Err(e) => Err(e),
        }
    }

    /// `tcp-socket.set-keep-alive-idle-time`: the descriptor first, then the
    /// value, which must not be 0 and is kept within what the host allows,
    /// then `set` with both.
    pub fn set_keep_alive_idle_time<'a, OP: FnOnce(SocketView<'a, S, L, T>, u64) -> Result<
        (),
        ErrorCode,
    >>(&'a self, value: u64, set: OP) -> (r: Result<(), ErrorCode>)
        requires
            forall|v: SocketView<'a, S, L, T>, n: u64| call_requires(set, (v, n)),
        ensures
            !has_std_view(self.tcp_state) ==> r == Err::<(), ErrorCode>(ErrorCode::InvalidState),
            has_std_view(self.tcp_state) && value == 0 ==> r == Err::<(), ErrorCode>(
                ErrorCode::InvalidArgument,
            ),
            has_std_view(self.tcp_state) && value != 0 ==> exists|v: SocketView<'a, S, L, T>|
                is_std_view(self.tcp_state, v) && #[trigger] call_ensures(
                    set,
                    (
                        v,
                        clamped(
                            value as int,
                            MIN_KEEP_ALIVE_NANOS as int,
                            MAX_KEEP_ALIVE_NANOS as int,
                        ) as u64,
                    ),
                    r,
                ),
    {
        let v = match self.tcp_state.as_std_view() {
            Ok(v) => v,
            Err(e) => return Err(e),
        };
        let n = match keep_alive_idle_time_arg(value) {
            Ok(n) => n,
            Err(e) => return Err(e),
        };
        let ghost w = v;
        let r = set(v, n);
        assert(is_std_view(self.tcp_state, w) && call_ensures(set, (w, n), r));
        r
    }

    /// `tcp-socket.set-keep-alive-interval`: the descriptor first, then the
    /// value, which must not be 0 and is kept within what the host allows,
    /// then `set` with both.
    pub fn set_keep_alive_interval<'a, OP: FnOnce(SocketView<'a, S, L, T>, u64) -> Result<
        (),
        ErrorCode,
    >>(&'a self, value: u64, set: OP) -> (r: Result<(), ErrorCode>)
        requires
            forall|v: SocketView<'a, S, L, T>, n: u64| call_requires(set, (v, n)),
        ensures
            !has_std_view(self.tcp_state) ==> r == Err::<(), ErrorCode>(ErrorCode::InvalidState),
            has_std_view(self.tcp_state) && value == 0 ==> r == Err::<(), ErrorCode>(
                ErrorCode::InvalidArgument,
            ),
            has_std_view(self.tcp_state) && value != 0 ==> exists|v: SocketView<'a, S, L, T>|
                is_std_view(self.tcp_state, v) && #[trigger] call_ensures(
                    set,
                    (
                        v,
                        clamped(
                            value as int,
                            MIN_KEEP_ALIVE_NANOS as int,
                            MAX_KEEP_ALIVE_NANOS as int,
                        ) as u64,
                    ),
                    r,
                ),
    {
        let v = match self.tcp_state.as_std_view() {
            Ok(v) => v,
            Err(e) => return Err(e),
        };
        let n = match keep_alive_interval_arg(value) {
            Ok(n) => n,
            Err(e) => return Err(e),
        };
        let ghost w = v;
        let r = set(v, n);
        assert(is_std_view(self.tcp_state, w) && call_ensures(set, (w, n), r));
        r
    }

    /// `tcp-socket.set-keep-alive-count`: the descriptor first, then the
    /// value, which must not be 0 and is capped at what the host allows, then
    /// `set` with both.
    pub fn set_keep_alive_count<'a, OP: FnOnce(SocketView<'a, S, L, T>, u32) -> Result<
        (),
        ErrorCode,
    >>(&'a self, value: u32, set: OP) -> (r: Result<(), ErrorCode>)
        requires
            forall|v: SocketView<'a, S, L, T>, n: u32| call_requires(set, (v, n)),
        ensures
            !has_std_view(self.tcp_state) ==> r == Err::<(), ErrorCode>(ErrorCode::InvalidState),
            has_std_view(self.tcp_state) && value == 0 ==> r == Err::<(), ErrorCode>(
                ErrorCode::InvalidArgument,
            ),
            has_std_view(self.tcp_state) && value != 0 ==> exists|v: SocketView<'a, S, L, T>|
                is_std_view(self.tcp_state, v) && #[trigger] call_ensures(
                    set,
                    (v, clamped(value as int, 1, MAX_KEEP_ALIVE_COUNT as int) as u32),
                    r,
                ),
    {
        let v = match self.tcp_state.as_std_view() {
            Ok(v) => v,
            Err(e) => return Err(e),
        };
        let n = match keep_alive_count_arg(value) {
            Ok(n) => n,
            Err(e) => return Err(e),
        };
        let ghost w = v;
        let r = set(v, n);
        assert(is_std_view(self.tcp_state, w) && call_ensures(set, (w, n), r));
        r
    }

    /// A keep-alive duration of the descriptor, which `get` reads in
    /// nanoseconds, as WASI carries it: saturated at `u64::MAX`.
    pub fn keep_alive_duration<'a, OP: FnOnce(SocketView<'a, S, L, T>) -> Result<u128, ErrorCode>>(
        &'a self,
        get: OP,
    ) -> (r: Result<u64, ErrorCode>)
        requires
            forall|v: SocketView<'a, S, L, T>| call_requires(get, (v,)),
        ensures
            !has_std_view(self.tcp_state) ==> r == Err::<u64, ErrorCode>(ErrorCode::InvalidState),
            has_std_view(self.tcp_state) ==> exists|v: SocketView<'a, S, L, T>, raw: Result<u128, ErrorCode>|
                #![trigger call_ensures(get, (v,), raw)]
                is_std_view(self.tcp_state, v) && call_ensures(get, (v,), raw) && match raw {
                    Ok(n) => r == Ok::<u64, ErrorCode>(
                        if n > u64::MAX {
                            u64::MAX
                        } else {
                            n as u64
                        },
                    ),
                    Err(e) => r == Err::<u64, ErrorCode>(e),
                },
    {
        let v = match self.tcp_state.as_std_view() {
            Ok(v) => v,
            Err(e) => return Err(e),
        };
        let ghost w = v;
        let raw = get(v);
        assert(is_std_view(self.tcp_state, w) && call_ensures(get, (w,), raw));
        match raw {
            Ok(n) => Ok(duration_nanos(n)),
            Err(e) => Err(e),
        }
    }
}


/// What reading or setting an option of the descriptor of a socket in
/// `state` with `op` answers: `invalid-state` where it has none, else what
/// `op` answered for its descriptor.
pub open spec fn option_outcome<'a, S, L, F, T, A, R, OP: FnOnce(SocketView<'a, S, L, T>) -> Result<
    R,
    ErrorCode,
>>(state: TcpState<S, L, F, T, A>, op: OP, r: Result<R, ErrorCode>) -> bool where
    S: 'a,
    L: 'a,
    T: 'a,
 {
    &&& !has_std_view(state) ==> r == Err::<R, ErrorCode>(ErrorCode::InvalidState)
    &&& has_std_view(state) ==> exists|v: SocketView<'a, S, L, T>|
        is_std_view(state, v) && #[trigger] call_ensures(op, (v,), r)
}

/// What setting an option of the descriptor of a socket in `state` to
/// `value` with `set` answers: `invalid-state` where it has none, else what
/// `set` answered for its descriptor and `value`.
pub open spec fn set_option_outcome<'a, S, L, F, T, A, V, OP: FnOnce(SocketView<'a, S, L, T>, V) -> Result<
    (),
    ErrorCode,
>>(state: TcpState<S, L, F, T, A>, set: OP, value: V, r: Result<(), ErrorCode>) -> bool where
    S: 'a,
    L: 'a,
    T: 'a,
 {
    &&& !has_std_view(state) ==> r == Err::<(), ErrorCode>(ErrorCode::InvalidState)
    &&& has_std_view(state) ==> exists|v: SocketView<'a, S, L, T>|
        is_std_view(state, v) && #[trigger] call_ensures(set, (v, value), r)
}

impl<S, L, F, T, A> TcpSocket<S, L, F, T, A> {
    /// `tcp-socket.keep-alive-enabled`: `get` reads whether keep-alive is on of the socket's
    /// descriptor; `invalid-state` where the socket has none.
    pub fn keep_alive_enabled<'a, OP: FnOnce(SocketView<'a, S, L, T>) -> Result<bool, ErrorCode>>(
        &'a self,
        get: OP,
    ) -> (r: Result<bool, ErrorCode>)
        requires
            forall|v: SocketView<'a, S, L, T>| call_requires(get, (v,)),
        ensures
            option_outcome(self.tcp_state, get, r),
    {
        self.socket_option(get)
    }

    /// `tcp-socket.set-keep-alive-enabled`: `set` turns keep-alive on or off of the socket's
    /// descriptor to `value`; `invalid-state` where the socket has none.
    pub fn set_keep_alive_enabled<'a, OP: FnOnce(SocketView<'a, S, L, T>, bool) -> Result<(), ErrorCode>>(
        &'a self,
        value: bool,
        set: OP,
    ) -> (r: Result<(), ErrorCode>)
        requires
            forall|v: SocketView<'a, S, L, T>, x: bool| call_requires(set, (v, x)),
        ensures
            set_option_outcome(self.tcp_state, set, value, r),
    {
        self.set_socket_option(value, set)
    }

    /// `tcp-socket.hop-limit`: `get` reads the unicast hop limit of the socket's
    /// descriptor; `invalid-state` where the socket has none.
    pub fn hop_limit<'a, OP: FnOnce(SocketView<'a, S, L, T>) -> Result<u8, ErrorCode>>(
        &'a self,
        get: OP,
    ) -> (r: Result<u8, ErrorCode>)
        requires
            forall|v: SocketView<'a, S, L, T>| call_requires(get, (v,)),
        ensures
            option_outcome(self.tcp_state, get, r),
    {
        self.socket_option(get)
    }

    /// `tcp-socket.set-hop-limit`: `set` sets the unicast hop limit of the socket's
    /// descriptor to `value`; `invalid-state` where the socket has none.
    pub fn set_hop_limit<'a, OP: FnOnce(SocketView<'a, S, L, T>, u8) -> Result<(), ErrorCode>>(
        &'a self,
        value: u8,
        set: OP,
    ) -> (r: Result<(), ErrorCode>)
        requires
            forall|v: SocketView<'a, S, L, T>, x: u8| call_requires(set, (v, x)),
        ensures
            set_option_outcome(self.tcp_state, set, value, r),
    {
        self.set_socket_option(value, set)
    }

    /// `tcp-socket.receive-buffer-size`: `get` reads the receive buffer size of the socket's
    /// descriptor; `invalid-state` where the socket has none.
    pub fn receive_buffer_size<'a, OP: FnOnce(SocketView<'a, S, L, T>) -> Result<u64, ErrorCode>>(
        &'a self,
        get: OP,
    ) -> (r: Result<u64, ErrorCode>)
        requires
            forall|v: SocketView<'a, S, L, T>| call_requires(get, (v,)),
        ensures
            option_outcome(self.tcp_state, get, r),
    {
        self.socket_option(get)
    }

    /// `tcp-socket.set-receive-buffer-size`: `set` sets the receive buffer size of the socket's
    /// descriptor to `value`; `invalid-state` where the socket has none.
    pub fn set_receive_buffer_size<'a, OP: FnOnce(SocketView<'a, S, L, T>, u64) -> Result<(), ErrorCode>>(
        &'a self,
        value: u64,
        set: OP,
    ) -> (r: Result<(), ErrorCode>)
        requires
            forall|v: SocketView<'a, S, L, T>, x: u64| call_requires(set, (v, x)),
        ensures
            set_option_outcome(self.tcp_state, set, value, r),
    {
        self.set_socket_option(value, set)
    }

    /// `tcp-socket.send-buffer-size`: `get` reads the send buffer size of the socket's
    /// descriptor; `invalid-state` where the socket has none.
    pub fn send_buffer_size<'a, OP: FnOnce(SocketView<'a, S, L, T>) -> Result<u64, ErrorCode>>(
        &'a self,
        get: OP,
    ) -> (r: Result<u64, ErrorCode>)
        requires
            forall|v: SocketView<'a, S, L, T>| call_requires(get, (v,)),
        ensures
            option_outcome(self.tcp_state, get, r),
    {
        self.socket_option(get)
    }

    /// `tcp-socket.set-send-buffer-size`: `set` sets the send buffer size of the socket's
    /// descriptor to `value`; `invalid-state` where the socket has none.
    pub fn set_send_buffer_size<'a, OP: FnOnce(SocketView<'a, S, L, T>, u64) -> Result<(), ErrorCode>>(
        &'a self,
        value: u64,
        set: OP,
    ) -> (r: Result<(), ErrorCode>)
        requires
            forall|v: SocketView<'a, S, L, T>, x: u64| call_requires(set, (v, x)),
        ensures
            set_option_outcome(self.tcp_state, set, value, r),
    {
        self.set_socket_option(value, set)
    }

    /// `tcp-socket.keep-alive-count`: `get` reads the keep-alive probe count of the socket's
    /// descriptor; `invalid-state` where the socket has none.
    pub fn keep_alive_count<'a, OP: FnOnce(SocketView<'a, S, L, T>) -> Result<u32, ErrorCode>>(
        &'a self,
        get: OP,
    ) -> (r: Result<u32, ErrorCode>)
        requires
            forall|v: SocketView<'a, S, L, T>| call_requires(get, (v,)),
        ensures
            option_outcome(self.tcp_state, get, r),
    {
        self.socket_option(get)
    }

    /// `tcp-socket.keep-alive-idle-time`, which `get` reads in nanoseconds:
    /// saturated at `u64::MAX`.
    pub fn keep_alive_idle_time<'a, OP: FnOnce(SocketView<'a, S, L, T>) -> Result<u128, ErrorCode>>(
        &'a self,
        get: OP,
    ) -> (r: Result<u64, ErrorCode>)
        requires
            forall|v: SocketView<'a, S, L, T>| call_requires(get, (v,)),
        ensures
            !has_std_view(self.tcp_state) ==> r == Err::<u64, ErrorCode>(ErrorCode::InvalidState),
            has_std_view(self.tcp_state) ==> exists|v: SocketView<'a, S, L, T>, raw: Result<u128, ErrorCode>|
                #![trigger call_ensures(get, (v,), raw)]
                is_std_view(self.tcp_state, v) && call_ensures(get, (v,), raw) && match raw {
                    Ok(n) => r == Ok::<u64, ErrorCode>(
                        if n > u64::MAX {
                            u64::MAX
                        } else {
                            n as u64
                        },
                    ),
                    Err(e) => r == Err::<u64, ErrorCode>(e),
                },
    {
        self.keep_alive_duration(get)
    }

    /// `tcp-socket.keep-alive-interval`, which `get` reads in nanoseconds:
    /// saturated at `u64::MAX`.
    pub fn keep_alive_interval<'a, OP: FnOnce(SocketView<'a, S, L, T>) -> Result<u128, ErrorCode>>(
        &'a self,
        get: OP,
    ) -> (r: Result<u64, ErrorCode>)
        requires
            forall|v: SocketView<'a, S, L, T>| call_requires(get, (v,)),
        ensures
            !has_std_view(self.tcp_state) ==> r == Err::<u64, ErrorCode>(ErrorCode::InvalidState),
            has_std_view(self.tcp_state) ==> exists|v: SocketView<'a, S, L, T>, raw: Result<u128, ErrorCode>|
                #![trigger call_ensures(get, (v,), raw)]
                is_std_view(self.tcp_state, v) && call_ensures(get, (v,), raw) && match raw {
                    Ok(n) => r == Ok::<u64, ErrorCode>(
                        if n > u64::MAX {
                            u64::MAX
                        } else {
                            n as u64
                        },
                    ),
                    Err(e) => r == Err::<u64, ErrorCode>(e),
                },
    {
        self.keep_alive_duration(get)
    }
}

} // verus!
