//! The readiness decisions of the TCP futures.
//!
//! Each TCP future tries its non-blocking operation once per poll. The
//! outcome decides the poll: a result completes the future, "would block"
//! leaves it pending with its task registered for readiness, and any other
//! error completes it with that error.
use crate::reactor::{
    has_free_token, least_free_token, lemma_least_free_token, wakes, Reactor,
};
use vstd::prelude::*;

verus! {

/// The outcome of one attempt of a non-blocking operation.
pub enum IoAttempt<T, E> {
    /// The operation finished with this value.
    Done(T),
    /// The operation cannot go on before the socket becomes ready.
    WouldBlock,
    /// The operation failed with this error.
    Failed(E),
}

/// What a TCP future does after an attempt.
pub enum IoStep<T, E> {
    /// The future completes with this result.
    Ready(Result<T, E>),
    /// The future registers its task for readiness and stays pending.
    Wait,
}

/// The step that follows an attempt: finished and failed attempts complete
/// the future, an attempt that would block makes it wait.
pub fn io_step<T, E>(attempt: IoAttempt<T, E>) -> (step: IoStep<T, E>)
    ensures
        match attempt {
            IoAttempt::Done(v) => step == IoStep::<T, E>::Ready(Ok(v)),
            IoAttempt::WouldBlock => step is Wait,
            IoAttempt::Failed(e) => step == IoStep::<T, E>::Ready(Err(e)),
        },
{
    match attempt {
        IoAttempt::Done(v) => IoStep::Ready(Ok(v)),
        IoAttempt::WouldBlock => IoStep::Wait,
        IoAttempt::Failed(e) => IoStep::Ready(Err(e)),
    }
}

/// One poll of a TCP operation (accepting, reading or writing): `operation`
/// makes one non-blocking attempt, and its outcome decides the poll as
/// `io_step` says. Only when the attempt would block is `wait_for_readiness`
/// called, to register the task for the socket's readiness before the poll
/// returns; otherwise it is not called and is handed back.
pub fn poll_io<T, E, O, G>(operation: O, wait_for_readiness: G) -> (res: (IoStep<T, E>, Option<G>))
    where
        O: FnOnce() -> IoAttempt<T, E>,
        G: FnOnce(),
    requires
        operation.requires(()),
        wait_for_readiness.requires(()),
    ensures
        res.0 is Wait ==> res.1 is None,
        !(res.0 is Wait) ==> res.1 == Some(wait_for_readiness),
        exists|attempt: IoAttempt<T, E>|
            {
                &&& #[trigger] operation.ensures((), attempt)
                &&& match attempt {
                    IoAttempt::Done(v) => res.0 == IoStep::<T, E>::Ready(Ok(v)),
                    IoAttempt::WouldBlock => res.0 is Wait && wait_for_readiness.ensures((), ()),
                    IoAttempt::Failed(e) => res.0 == IoStep::<T, E>::Ready(Err(e)),
                }
            },
{
    let attempt = operation();
    let step = io_step(attempt);
    if let IoStep::Wait = step {
        wait_for_readiness();
        (step, None)
    } else {
        (step, Some(wait_for_readiness))
    }
}

/// Makes sure a socket is registered with `reactor` for `waker`, the waker of
/// the task whose poll is pending, given the token its earlier registration
/// got, if any.
///
/// A socket that holds a token has its registration with the event loop
/// renewed under that token by `reregister_source`, and the reactor then
/// wakes `waker` for it, as `Reactor::reregister` says; the socket keeps the
/// token. A socket without one is registered afresh by `register_source`
/// under the least free token, as `Reactor::register` says; on success the
/// token is stored in the slot, on failure the slot stays empty. Either way
/// the error of the call made is returned, and the callback not called is
/// handed back.
pub fn register_with_reactor<W, E, RR, RG>(
    reactor: &mut Reactor<W>,
    token_slot: &mut Option<usize>,
    waker: W,
    reregister_source: RR,
    register_source: RG,
) -> (res: (Result<(), E>, Option<RR>, Option<RG>))
    where
        RR: FnOnce(usize) -> Result<(), E>,
        RG: FnOnce(usize) -> Result<(), E>,
    requires
        *old(token_slot) matches Some(t) ==> reregister_source.requires((t,)),
        *old(token_slot) is None ==> has_free_token(old(reactor)@.dom())
            && register_source.requires((least_free_token(old(reactor)@.dom()),)),
    ensures
        old(reactor).well_formed() ==> final(reactor).well_formed(),
        match *old(token_slot) {
            Some(t) => {
                &&& *final(token_slot) == Some(t)
                &&& reregister_source.ensures((t,), res.0)
                &&& res.1 is None
                &&& res.2 == Some(register_source)
                &&& res.0 is Ok && old(reactor)@.contains_key(t) ==> final(reactor)@ == old(
                    reactor,
                )@.insert(t, waker)
                &&& !(res.0 is Ok && old(reactor)@.contains_key(t)) ==> final(reactor)@ == old(
                    reactor,
                )@
            },
            None => {
                let t = least_free_token(old(reactor)@.dom());
                &&& res.1 == Some(reregister_source)
                &&& res.2 is None
                &&& register_source.ensures((t,), res.0)
                &&& res.0 is Ok ==> *final(token_slot) == Some(t) && final(reactor)@ == old(
                    reactor,
                )@.insert(t, waker)
                &&& res.0 is Err ==> *final(token_slot) is None && final(reactor)@ == old(reactor)@
            },
        },
        res.0 is Ok && old(reactor).well_formed() ==> match *final(token_slot) {
            Some(t) => final(reactor)@.contains_key(t) ==> {
                &&& final(reactor)@[t] == waker
                &&& wakes(final(reactor)@.dom(), t)
            },
            None => false,
        },
{
    match *token_slot {
        Some(existing) => {
            let renewed = reactor.reregister(reregister_source, existing, waker);
            (renewed, None, Some(register_source))
        },
        None => {
            proof {
                lemma_least_free_token(reactor@.dom());
            }
            match reactor.register(register_source, waker) {
                Ok(token) => {
                    *token_slot = Some(token);
                    (Ok(()), Some(reregister_source), None)
                },
                Err(e) => (Err(e), Some(reregister_source), None),
            }
        },
    }
}

/// The answer of the socket's peer address to a connection in progress.
pub enum PeerAddr<E> {
    /// The socket has a peer: it is connected.
    Connected,
    /// The socket is not connected yet.
    NotConnected,
    /// Asking for the peer address failed otherwise.
    Failed(E),
}

/// How a connection in progress stands, given the socket's pending error
/// (taken from the socket, or the failure to take it) and then its peer
/// address: a pending error, or a failure to read it, fails the connection;
/// otherwise a peer means connected, no peer yet means waiting for
/// writability, and any other answer fails the connection.
pub open spec fn connect_outcome<E>(socket_error: Result<Option<E>, E>, peer: PeerAddr<E>) -> IoAttempt<(), E> {
    match socket_error {
        Err(e) => IoAttempt::Failed(e),
        Ok(Some(e)) => IoAttempt::Failed(e),
        Ok(None) => match peer {
            PeerAddr::Connected => IoAttempt::Done(()),
            PeerAddr::NotConnected => IoAttempt::WouldBlock,
            PeerAddr::Failed(e) => IoAttempt::Failed(e),
        },
    }
}

/// Decides how a connection in progress stands, as `connect_outcome` says.
pub fn connect_attempt<E>(socket_error: Result<Option<E>, E>, peer: PeerAddr<E>) -> (attempt:
    IoAttempt<(), E>)
    ensures
        attempt == connect_outcome(socket_error, peer),
{
    match socket_error {
        Err(e) => IoAttempt::Failed(e),
        Ok(Some(e)) => IoAttempt::Failed(e),
        Ok(None) => match peer {
            PeerAddr::Connected => IoAttempt::Done(()),
            PeerAddr::NotConnected => IoAttempt::WouldBlock,
            PeerAddr::Failed(e) => IoAttempt::Failed(e),
        },
    }
}

/// A connection whose socket reports a pending error (a refused connect, say)
/// completes with that error, whatever its peer address answers; one still
/// waits only while the socket reports no error and no peer.
pub proof fn law_refused_connect_completes<E>(e: E, peer: PeerAddr<E>)
    ensures
        connect_outcome(Ok(Some(e)), peer) == IoAttempt::<(), E>::Failed(e),
        connect_outcome(Err(e), peer) == IoAttempt::<(), E>::Failed(e),
        forall|err: Result<Option<E>, E>, p: PeerAddr<E>|
            #[trigger] connect_outcome(err, p) is WouldBlock ==> err == Ok::<Option<E>, E>(None)
                && p is NotConnected,
{
}

/// A connection being established to `addr`: the socket once it exists,
/// and the token under which it waits for writability once it has one.
pub struct ConnectFuture<A, S> {
    addr: A,
    stream: Option<S>,
    token: Option<usize>,
}

impl<A, S> ConnectFuture<A, S> {
    /// The address being connected to.
    pub closed spec fn spec_addr(&self) -> A {
        self.addr
    }

    /// The socket, once the connection has been started.
    pub closed spec fn spec_stream(&self) -> Option<S> {
        self.stream
    }

    /// The reactor token of the socket, once it has been registered.
    pub closed spec fn spec_token(&self) -> Option<usize> {
        self.token
    }

    /// A connection to `addr` that has not been started.
    pub fn new(addr: A) -> (c: Self)
        ensures
            c.spec_addr() == addr,
            c.spec_stream() is None,
            c.spec_token() is None,
    {
        ConnectFuture { addr, stream: None, token: None }
    }
}

/// What a poll does once the connection has the socket `s` and the token
/// `token`: `after` holds `s`; `probe` was asked about `s` for its pending
/// error and its peer address, and `connect_outcome` of those answers
/// decides the poll. A connected socket completes it with a copy of `s` and
/// `token`; a socket still connecting is registered through `register` and
/// keeps the token that comes back; any other error completes it with that
/// error.
pub open spec fn probed<A, S: Clone, E, P, R>(
    after: ConnectFuture<A, S>,
    s: S,
    token: Option<usize>,
    probe: P,
    register: R,
    step: IoStep<(S, Option<usize>), E>,
) -> bool where
    P: FnOnce(&S) -> (Result<Option<E>, E>, PeerAddr<E>),
    R: FnOnce(&S, Option<usize>) -> Option<usize>,
 {
    &&& after.spec_stream() == Some(s)
    &&& exists|seen: (Result<Option<E>, E>, PeerAddr<E>)|
        {
            &&& #[trigger] probe.ensures((&s,), seen)
            &&& match connect_outcome(seen.0, seen.1) {
                IoAttempt::Done(_) => {
                    &&& after.spec_token() == token
                    &&& step matches IoStep::Ready(Ok((handle, t))) && cloned(s, handle) && t == token
                },
                IoAttempt::WouldBlock => {
                    &&& step is Wait
                    &&& exists|kept: Option<usize>|
                        #[trigger] register.ensures((&s, token), kept) && after.spec_token() == kept
                },
                IoAttempt::Failed(e) => {
                    &&& step == IoStep::<(S, Option<usize>), E>::Ready(Err(e))
                    &&& after.spec_token() == token
                },
            }
        }
}

impl<A: Copy, S: Clone> ConnectFuture<A, S> {
    /// One poll of the connection.
    ///
    /// The socket is created by `connect` only when none exists yet; if that
    /// fails, the poll completes with its error. Once a socket exists,
    /// `connect` is not called and is handed back, so one connection makes
    /// one socket. Then `probe` reads the socket's pending error and its peer
    /// address, and `connect_outcome` says how the connection stands. A
    /// connected socket completes the poll with a handle to the socket and
    /// the token it was registered under, if any. A socket still connecting
    /// is registered for writability by `register`, given the token it holds,
    /// and the token that comes back is kept for the next poll; on every
    /// other path `register` is not called and is handed back. A failed
    /// connection, a refused one among them, completes the poll with its
    /// error.
    pub fn poll<E, C, P, R>(&mut self, connect: C, probe: P, register: R) -> (res: (
        IoStep<(S, Option<usize>), E>,
        Option<C>,
        Option<R>,
    ))
        where
            C: FnOnce(A) -> Result<S, E>,
            P: FnOnce(&S) -> (Result<Option<E>, E>, PeerAddr<E>),
            R: FnOnce(&S, Option<usize>) -> Option<usize>,
        requires
            connect.requires((old(self).spec_addr(),)),
            forall|s: &S| probe.requires((s,)),
            forall|s: &S, t: Option<usize>| register.requires((s, t)),
        ensures
            final(self).spec_addr() == old(self).spec_addr(),
            old(self).spec_stream() is Some ==> res.1 == Some(connect),
            old(self).spec_stream() is None ==> res.1 is None,
            res.0 is Wait ==> res.2 is None,
            !(res.0 is Wait) ==> res.2 == Some(register),
            match old(self).spec_stream() {
                Some(s) => probed(*final(self), s, old(self).spec_token(), probe, register, res.0),
                None => exists|made: Result<S, E>|
                    {
                        &&& #[trigger] connect.ensures((old(self).spec_addr(),), made)
                        &&& match made {
                            Ok(s) => probed(*final(self), s, old(self).spec_token(), probe, register, res.0),
                            Err(e) => {
                                &&& res.0 == IoStep::<(S, Option<usize>), E>::Ready(Err(e))
                                &&& final(self).spec_stream() is None
                                &&& final(self).spec_token() == old(self).spec_token()
                            },
                        }
                    },
            },
    {
        let unused_connect = if self.stream.is_none() {
            match connect(self.addr) {
                Ok(s) => {
                    self.stream = Some(s);
                },
                Err(e) => {
                    return (IoStep::Ready(Err(e)), None, Some(register));
                },
            }
            None
        } else {
            Some(connect)
        };
        let stream = self.stream.as_ref().unwrap();
        let (socket_error, peer) = probe(stream);
        match connect_attempt(socket_error, peer) {
            IoAttempt::Done(()) => (
                IoStep::Ready(Ok((stream.clone(), self.token))),
                unused_connect,
                Some(register),
            ),
            IoAttempt::WouldBlock => {
                let token = register(stream, self.token);
                self.token = token;
                (IoStep::Wait, unused_connect, None)
            },
            IoAttempt::Failed(e) => (IoStep::Ready(Err(e)), unused_connect, Some(register)),
        }
    }
}

} // verus!
