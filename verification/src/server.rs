//! The server's main loop and the loop of a transaction's thread.
use crate::error::ServerError;
use crate::header::{parse_transaction_id, transaction_id, Header};
use crate::request::{Fate, Reply};
use vstd::prelude::*;
use vstd::string::*;

verus! {

/// Where an HTTP server listens: at an IP address, or at a Unix socket, given by its text.
#[derive(Debug, PartialEq, Eq)]
pub enum ListenAddr<A> {
    IP(A),
    Unix(String),
}

/// A generic server for receiving requests and transfers from a client. `A` is the type of
/// the address that it is bound to.
#[derive(Debug, PartialEq, Eq)]
pub struct Server<A> {
    addr: A,
}

/// What the server's main thread has to do next.
#[derive(Debug, PartialEq, Eq)]
pub enum Listen {
    /// Receive a request, then ask [`Listen::received`].
    Receive,
    /// Dispatch the request to the thread of this transaction, then ask [`Listen::settled`].
    Dispatch(u64),
    /// Deal with the request here, with a handler of its own; then ask [`Listen::settled`].
    HandleHere,
    /// Answer the request, then ask [`Listen::settled`].
    Respond(Reply),
    /// The server has been shut down.
    Stopped,
}

impl<A> Server<A> {
    /// The address of the server.
    pub closed spec fn spec_addr(&self) -> A {
        self.addr
    }

    /// A server, given where its HTTP server listens, or the text of the error that binding it
    /// gave. A Unix socket will not do.
    pub fn new(bound: Result<ListenAddr<A>, String>) -> (r: Result<Self, ServerError>)
        ensures
            match bound {
                Ok(ListenAddr::IP(addr)) => r matches Ok(server) && server.spec_addr() == addr,
                Ok(ListenAddr::Unix(text)) => r == Err::<Self, _>(
                    ServerError::UnixSocketBindAttempt(text),
                ),
                Err(text) => r == Err::<Self, _>(ServerError::AddressBindFailed(text)),
            },
    {
        match bound {
            Ok(ListenAddr::IP(addr)) => Ok(Server { addr }),
            Ok(ListenAddr::Unix(text)) => Err(ServerError::UnixSocketBindAttempt(text)),
            Err(text) => Err(ServerError::AddressBindFailed(text)),
        }
    }

    /// Begins to serve.
    pub fn start(&mut self) -> (r: Listen)
        ensures
            r == Listen::Receive,
            *final(self) == *old(self),
    {
        Listen::listen()
    }
}

impl<A: Copy> Server<A> {
    /// The address that clients reach the server at.
    pub fn addr(&self) -> (r: A)
        ensures
            r == self.spec_addr(),
    {
        self.addr
    }
}

/// The error of a transaction id that is no number.
pub open spec fn bad_id() -> (crate::error::ErrorKind, Seq<char>) {
    (
        crate::error::ErrorKind::Anyhow,
        "error parsing 'TransactionID' into TransactionID"@,
    )
}

impl Listen {
    /// What the main thread does after a request.
    pub open spec fn after_request(shutdown: bool) -> Self {
        if shutdown {
            Listen::Stopped
        } else {
            Listen::Receive
        }
    }

    /// Begins to listen.
    pub fn listen() -> (r: Self)
        ensures
            r == Listen::Receive,
    {
        Listen::Receive
    }

    /// A request with these headers has come in. If it names a transaction, it goes to the thread
    /// of that transaction; if it names none, it is dealt with in the main thread.
    pub fn received(headers: &Vec<Header>) -> (r: Self)
        ensures
            match crate::header::transaction_id_text(headers@) {
                Some(text) => match crate::header::parsed_id(text) {
                    Some(id) => r == Listen::Dispatch(id),
                    None => r matches Listen::Respond(Reply::Failure(error)) && error@ == bad_id(),
                },
                None => r == Listen::HandleHere,
            },
    {
        match transaction_id(headers) {
            Some(text) => match parse_transaction_id(text) {
                Some(id) => Listen::Dispatch(id),
                None => Listen::Respond(
                    Reply::respond_err(
                        ServerError::Anyhow(
                            "error parsing 'TransactionID' into TransactionID".to_owned(),
                        ),
                    ),
                ),
            },
            None => Listen::HandleHere,
        }
    }

    /// The request is out of the main thread's hands; `shutdown` is the shutdown flag, which the
    /// request may have raised.
    pub fn settled(shutdown: bool) -> (r: Self)
        ensures
            r == Self::after_request(shutdown),
    {
        if shutdown {
            Listen::Stopped
        } else {
            Listen::Receive
        }
    }
}

/// How many requests the main thread receives, if after each of them the shutdown flag is as
/// `flags` says.
pub open spec fn received_until(flags: Seq<bool>) -> nat
    decreases flags.len(),
{
    if flags.len() == 0 {
        0
    } else {
        match Listen::after_request(flags[0]) {
            Listen::Receive => 1 + received_until(flags.drop_first()),
            _ => 1,
        }
    }
}

/// The server stops with the first request after which the shutdown flag is up: it receives that
/// one and no other after it.
pub proof fn law_server_stops_at_shutdown(flags: Seq<bool>, n: int)
    requires
        0 <= n < flags.len(),
        flags[n],
        forall|i: int| 0 <= i < n ==> !#[trigger] flags[i],
    ensures
        received_until(flags) == n + 1,
    decreases n,
{
    if n > 0 {
        assert(!flags[0]);
        assert forall|i: int| 0 <= i < n - 1 implies !#[trigger] flags.drop_first()[i] by {
            assert(flags.drop_first()[i] == flags[i + 1]);
        }
        law_server_stops_at_shutdown(flags.drop_first(), n - 1);
    }
}

/// What the thread of a transaction has to do next.
#[derive(Debug, Clone, Copy, PartialEq, Eq)]
pub enum TransactionLoop {
    /// Receive a request through the channel, then ask [`TransactionLoop::received`].
    Receive,
    /// Deal with the request, then ask [`TransactionLoop::settled`].
    Handle,
    /// The thread is done with the transaction.
    Exit,
}

impl TransactionLoop {
    /// What a thread does at the head of its loop.
    pub open spec fn at_head(shutdown: bool) -> Self {
        if shutdown {
            TransactionLoop::Exit
        } else {
            TransactionLoop::Receive
        }
    }

    /// What a thread does after it waited for a request.
    pub open spec fn after_wait(arrived: bool) -> Self {
        if arrived {
            TransactionLoop::Handle
        } else {
            TransactionLoop::Exit
        }
    }

    /// What a thread does after a request.
    pub open spec fn after_request(fate: Fate, shutdown: bool) -> Self {
        match fate {
            Fate::Over => TransactionLoop::Exit,
            Fate::Open => Self::at_head(shutdown),
        }
    }

    /// Begins to serve a transaction; `shutdown` is the shutdown flag.
    pub fn listen_transaction(shutdown: bool) -> (r: Self)
        ensures
            r == Self::at_head(shutdown),
    {
        // Another thread has triggered a shutdown. We must quit.
        if shutdown {
            TransactionLoop::Exit
        } else {
            TransactionLoop::Receive
        }
    }

    /// The wait for a request is over; `arrived` says whether one came, or the channel has closed.
    pub fn received(arrived: bool) -> (r: Self)
        ensures
            r == Self::after_wait(arrived),
    {
        if arrived {
            TransactionLoop::Handle
        } else {
            TransactionLoop::Exit
        }
    }

    /// A request has been dealt with, and has left the transaction open or over.
    pub fn settled(fate: Fate, shutdown: bool) -> (r: Self)
        ensures
            r == Self::after_request(fate, shutdown),
    {
        match fate {
            Fate::Over => TransactionLoop::Exit,
            Fate::Open => Self::listen_transaction(shutdown),
        }
    }
}

/// One round of a thread's loop: whether the shutdown flag is up at its head, whether a request
/// comes then, and what the request makes of the transaction.
pub struct Turn {
    pub shutdown: bool,
    pub arrived: bool,
    pub fate: Fate,
}

impl Turn {
    /// A request is dealt with in this round.
    pub open spec fn serves(self) -> bool {
        !self.shutdown && self.arrived
    }

    /// The thread comes back to the head of its loop after this round.
    pub open spec fn goes_on(self) -> bool {
        self.serves() && self.fate == Fate::Open
    }
}

/// How many requests a thread deals with that finds `turns` one after the other.
pub open spec fn served(turns: Seq<Turn>) -> nat
    decreases turns.len(), 1nat,
{
    if turns.len() == 0 {
        0
    } else {
        match TransactionLoop::at_head(turns[0].shutdown) {
            TransactionLoop::Receive => match TransactionLoop::after_wait(turns[0].arrived) {
                TransactionLoop::Handle => 1 + served_after(turns),
                _ => 0,
            },
            _ => 0,
        }
    }
}

/// How many requests it deals with after that of the first turn.
pub open spec fn served_after(turns: Seq<Turn>) -> nat
    decreases turns.len(), 0nat,
{
    if turns.len() <= 1 {
        0
    } else {
        match TransactionLoop::after_request(turns[0].fate, turns[1].shutdown) {
            TransactionLoop::Exit => 0,
            _ => served(turns.drop_first()),
        }
    }
}

/// A thread serves its transaction up to the first round that ends it, by a shutdown, a closed
/// channel, or a request after which the transaction is over; it deals with the request of that
/// round only in the last of the three cases, and with none that comes later.
pub proof fn law_thread_lives_for_its_transaction(turns: Seq<Turn>, n: int)
    requires
        0 <= n < turns.len(),
        forall|i: int| 0 <= i < n ==> (#[trigger] turns[i]).goes_on(),
        !turns[n].goes_on(),
    ensures
        served(turns) == if turns[n].serves() {
            n + 1
        } else {
            n
        },
    decreases n,
{
    reveal_with_fuel(served, 2);
    reveal_with_fuel(served_after, 2);
    if n > 0 {
        let rest = turns.drop_first();
        assert forall|i: int| 0 <= i < n - 1 implies (#[trigger] rest[i]).goes_on() by {
            assert(rest[i] == turns[i + 1]);
        }
        assert(rest[n - 1] == turns[n]);
        law_thread_lives_for_its_transaction(rest, n - 1);
        assert(turns[0].goes_on());
        assert(n == 1 || turns[1].goes_on());
    }
}

/// Every request whose first transaction header holds the decimal text of `id` goes to the thread
/// of transaction `id`.
pub proof fn law_requests_find_their_transaction(headers: Seq<Header>, n: int, id: u64)
    requires
        0 <= n < headers.len(),
        headers[n].field@ == crate::header::lowercased(crate::header::TRANSACTION_ID_HEADER@),
        headers[n].value@ == crate::header::decimal_text(id as nat),
        forall|i: int|
            0 <= i < n ==> #[trigger] headers[i].field@ != crate::header::lowercased(
                crate::header::TRANSACTION_ID_HEADER@,
            ),
    ensures
        crate::header::transaction_id_text(headers) matches Some(text)
            && crate::header::parsed_id(text) == Some(id),
{
    crate::header::law_first_header_decides(headers, n);
    crate::header::law_id_read_back(id);
}

/// A thread serves its transaction round after round, for as long as the shutdown flag is down, a
/// request arrives, and the request leaves the transaction open. A round in which the flag is up,
/// or in which none arrives, serves no request; one whose request ends the transaction is the last.
pub proof fn law_threads_come_to_their_end(turns: Seq<Turn>, n: int)
    requires
        0 <= n < turns.len(),
        forall|i: int|
            0 <= i < n ==> !(#[trigger] turns[i]).shutdown && turns[i].arrived && turns[i].fate
                == Fate::Open,
    ensures
        turns[n].shutdown ==> served(turns) == n,
        !turns[n].arrived ==> served(turns) == n,
        !turns[n].shutdown && turns[n].arrived && turns[n].fate == Fate::Over ==> served(turns) == n
            + 1,
{
    assert forall|i: int| 0 <= i < n implies (#[trigger] turns[i]).goes_on() by {}
    if !turns[n].goes_on() {
        law_thread_lives_for_its_transaction(turns, n);
    }
}

/// The server receives every request for as long as the shutdown flag is down after each.
pub proof fn law_server_serves_until_shutdown(flags: Seq<bool>)
    requires
        forall|i: int| 0 <= i < flags.len() ==> !#[trigger] flags[i],
    ensures
        received_until(flags) == flags.len(),
    decreases flags.len(),
{
    if flags.len() > 0 {
        assert(!flags[0]);
        let rest = flags.drop_first();
        assert forall|i: int| 0 <= i < rest.len() implies !#[trigger] rest[i] by {
            assert(rest[i] == flags[i + 1]);
        }
        law_server_serves_until_shutdown(rest);
    }
}

/// A client whose transaction id is no number is told so.
pub proof fn law_bad_ids_are_explained()
    ensures
        crate::error::error_text(bad_id()) == "unexpected error: "@
            + "error parsing 'TransactionID' into TransactionID"@,
{
}

} // verus!
