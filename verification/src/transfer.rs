//! How the server receives the requests that a client sends through a pipe.
use crate::error::{ErrorKind, ServerError};
use crate::request::TransactionState;
use vstd::prelude::*;
use vstd::string::*;

verus! {

/// What has to be done next in a transfer.
#[derive(Debug, PartialEq, Eq)]
pub enum Transfer<T> {
    /// Read the next request off the pipe and then the shutdown flag; ask [`Transfer::read`].
    Read,
    /// Let the handler work on the request, then ask [`Transfer::handled`].
    Handle(T),
    /// The transfer is over.
    Finished(Result<TransactionState, ServerError>),
}

/// How a transfer ends: with the state of its transaction, or with an error.
pub type Verdict = Result<TransactionState, (ErrorKind, Seq<char>)>;

/// A [`Transfer`] with the view of its error.
pub enum TransferView<T> {
    Read,
    Handle(T),
    Finished(Verdict),
}

/// A verdict with the view of its error.
pub open spec fn verdict_view(verdict: Result<TransactionState, ServerError>) -> Verdict {
    match verdict {
        Ok(state) => Ok(state),
        Err(error) => Err(error@),
    }
}

impl<T> View for Transfer<T> {
    type V = TransferView<T>;

    open spec fn view(&self) -> TransferView<T> {
        match *self {
            Transfer::Read => TransferView::Read,
            Transfer::Handle(request) => TransferView::Handle(request),
            Transfer::Finished(verdict) => TransferView::Finished(verdict_view(verdict)),
        }
    }
}

/// The error of a transfer that a shutdown interrupts.
pub open spec fn interrupted() -> (ErrorKind, Seq<char>) {
    (
        ErrorKind::Anyhow,
        "writer server transaction thread received shutdown during insert"@,
    )
}

/// What comes after a read of the pipe: nothing, at its end; an error, if the server is shutting
/// down or the read went wrong; or else the handler's work.
pub open spec fn after_read<T>(
    item: Option<Result<T, ServerError>>,
    shutdown: bool,
) -> TransferView<T> {
    match item {
        None => TransferView::Finished(Ok(TransactionState::Continue)),
        Some(_) if shutdown => TransferView::Finished(Err(interrupted())),
        Some(Err(error)) => TransferView::Finished(Err(error@)),
        Some(Ok(request)) => TransferView::Handle(request),
    }
}

/// What comes after the handler's work: the next read, unless the handler failed or completed the
/// transaction.
pub open spec fn after_handling<T>(outcome: Result<TransactionState, String>) -> TransferView<T> {
    match outcome {
        Ok(TransactionState::Continue) => TransferView::Read,
        Ok(TransactionState::Complete) => TransferView::Finished(Ok(TransactionState::Complete)),
        Err(text) => TransferView::Finished(Err((ErrorKind::Anyhow, text@))),
    }
}

impl<T> Transfer<T> {
    /// Begins a transfer, given whether the pipe could be opened.
    pub fn listen_transfer(opened: Result<(), ServerError>) -> (r: Self)
        ensures
            r == match opened {
                Ok(_) => Transfer::<T>::Read,
                Err(error) => Transfer::Finished(Err(error)),
            },
    {
        match opened {
            Ok(_) => Transfer::Read,
            Err(error) => Transfer::Finished(Err(error)),
        }
    }

    /// The pipe gave `item`, or is at its end; `shutdown` is the shutdown flag read after that.
    pub fn read(item: Option<Result<T, ServerError>>, shutdown: bool) -> (r: Self)
        ensures
            r@ == after_read(item, shutdown),
    {
        match item {
            None => Transfer::Finished(Ok(TransactionState::Continue)),
            Some(incoming) => {
                // Another thread has triggered a shutdown. We must quit.
                if shutdown {
                    let message =
                        "writer server transaction thread received shutdown during insert".to_owned();
                    return Transfer::Finished(Err(ServerError::Anyhow(message)));
                }
                match incoming {
                    Ok(request) => Transfer::Handle(request),
                    Err(error) => Transfer::Finished(Err(error)),
                }
            },
        }
    }

    /// The handler has worked on the request.
    pub fn handled(outcome: Result<TransactionState, String>) -> (r: Self)
        ensures
            r@ == after_handling::<T>(outcome),
    {
        match outcome {
            // Not expected: a transfer should only be used for inserts, not for commits.
            Ok(TransactionState::Complete) => Transfer::Finished(Ok(TransactionState::Complete)),
            Ok(TransactionState::Continue) => Transfer::Read,
            Err(text) => Transfer::Finished(Err(ServerError::Anyhow(text))),
        }
    }
}

/// One round of a transfer: what is read off the pipe, whether the shutdown flag is up by then,
/// and what the handler makes of it, should it come to that.
pub struct Round<T> {
    pub item: Result<T, ServerError>,
    pub shutdown: bool,
    pub outcome: Result<TransactionState, String>,
}

impl<T> Round<T> {
    /// The round's request goes to the handler.
    pub open spec fn is_handled(self) -> bool {
        !self.shutdown && self.item is Ok
    }

    /// The transfer goes on after this round.
    pub open spec fn goes_on(self) -> bool {
        self.is_handled() && self.outcome == Ok::<_, String>(TransactionState::Continue)
    }

    /// How the transfer ends with this round, if it does.
    pub open spec fn verdict(self) -> Verdict {
        if self.shutdown {
            Err(interrupted())
        } else {
            match self.item {
                Err(error) => Err(error@),
                Ok(_) => match self.outcome {
                    Ok(state) => Ok(state),
                    Err(text) => Err((ErrorKind::Anyhow, text@)),
                },
            }
        }
    }
}

/// The course of a transfer whose pipe holds the items of `rounds` and then ends: the requests
/// that the handler gets, and the verdict.
pub open spec fn transfer_run<T>(rounds: Seq<Round<T>>) -> (Seq<T>, Verdict)
    decreases rounds.len(),
{
    if rounds.len() == 0 {
        match after_read::<T>(None, false) {
            TransferView::Finished(verdict) => (Seq::empty(), verdict),
            _ => arbitrary(),
        }
    } else {
        match after_read(Some(rounds[0].item), rounds[0].shutdown) {
            TransferView::Handle(request) => match after_handling::<T>(rounds[0].outcome) {
                TransferView::Read => {
                    let rest = transfer_run(rounds.drop_first());
                    (seq![request] + rest.0, rest.1)
                },
                TransferView::Finished(verdict) => (seq![request], verdict),
                TransferView::Handle(_) => arbitrary(),
            },
            TransferView::Finished(verdict) => (Seq::empty(), verdict),
            TransferView::Read => arbitrary(),
        }
    }
}

/// A transfer in which nothing goes wrong hands every request to the handler, in order, and
/// leaves the transaction open.
pub proof fn law_whole_transfer<T>(rounds: Seq<Round<T>>)
    requires
        forall|i: int| 0 <= i < rounds.len() ==> (#[trigger] rounds[i]).goes_on(),
    ensures
        transfer_run(rounds).0 == rounds.map_values(|round: Round<T>| round.item->Ok_0),
        transfer_run(rounds).1 == Ok::<_, (ErrorKind, Seq<char>)>(TransactionState::Continue),
    decreases rounds.len(),
{
    let items = |round: Round<T>| round.item->Ok_0;
    if rounds.len() == 0 {
        assert(rounds.map_values(items) =~= Seq::empty());
    } else {
        let rest = rounds.drop_first();
        assert forall|i: int| 0 <= i < rest.len() implies (#[trigger] rest[i]).goes_on() by {
            assert(rest[i] == rounds[i + 1]);
        }
        law_whole_transfer(rest);
        assert(rounds[0].goes_on());
        assert(rounds.map_values(items) =~= seq![rounds[0].item->Ok_0] + rest.map_values(items));
    }
}

/// The first round that does not let a transfer go on ends it: with that round's verdict, and
/// with the handler having got, in order, the requests of the rounds before it and that round's
/// own only if no shutdown and no failed read kept it back.
pub proof fn law_transfer_stops<T>(rounds: Seq<Round<T>>, n: int)
    requires
        0 <= n < rounds.len(),
        forall|i: int| 0 <= i < n ==> (#[trigger] rounds[i]).goes_on(),
        !rounds[n].goes_on(),
    ensures
        transfer_run(rounds).1 == rounds[n].verdict(),
        transfer_run(rounds).0 == rounds.take(
            if rounds[n].is_handled() {
                n + 1
            } else {
                n
            },
        ).map_values(|round: Round<T>| round.item->Ok_0),
    decreases n,
{
    let items = |round: Round<T>| round.item->Ok_0;
    if n == 0 {
        assert(rounds.take(0).map_values(items) =~= Seq::empty());
        assert(rounds.take(1).map_values(items) =~= seq![rounds[0].item->Ok_0]);
    } else {
        let rest = rounds.drop_first();
        assert forall|i: int| 0 <= i < n - 1 implies (#[trigger] rest[i]).goes_on() by {
            assert(rest[i] == rounds[i + 1]);
        }
        assert(rest[n - 1] == rounds[n]);
        law_transfer_stops(rest, n - 1);
        assert(rounds[0].goes_on());
        let k = if rounds[n].is_handled() {
            n + 1
        } else {
            n
        };
        assert(rounds.take(k).map_values(items) =~= seq![rounds[0].item->Ok_0] + rest.take(
            k - 1,
        ).map_values(items));
    }
}

/// How a transfer goes, round by round. Up to some round every request was read with the shutdown
/// flag down, and the handler left the transaction open. If that round is the end of the pipe, the
/// transfer leaves the transaction open. If the flag is up, or nothing could be read, the transfer
/// fails, and the handler does not get the round's request; or else it gets that too, and the
/// transfer fails or completes the transaction as the handler does. The handler gets each request
/// once, in the order of the pipe.
pub proof fn law_transfers_come_to_their_end<T>(rounds: Seq<Round<T>>, n: int)
    requires
        0 <= n <= rounds.len(),
        forall|i: int|
            0 <= i < n ==> !(#[trigger] rounds[i]).shutdown && rounds[i].item is Ok
                && rounds[i].outcome == Ok::<_, String>(TransactionState::Continue),
        n < rounds.len() ==> rounds[n].shutdown || rounds[n].item is Err || rounds[n].outcome
            != Ok::<_, String>(TransactionState::Continue),
    ensures
        ({
            let (given, verdict) = transfer_run(rounds);
            &&& forall|i: int|
                0 <= i < given.len() ==> rounds[i].item is Ok && #[trigger] given[i]
                    == rounds[i].item->Ok_0
            &&& if n == rounds.len() {
                given.len() == n && verdict == Ok::<_, (ErrorKind, Seq<char>)>(
                    TransactionState::Continue,
                )
            } else if rounds[n].shutdown {
                given.len() == n && verdict == Err::<TransactionState, _>(
                    (
                        ErrorKind::Anyhow,
                        "writer server transaction thread received shutdown during insert"@,
                    ),
                )
            } else {
                match (rounds[n].item, rounds[n].outcome) {
                    (Err(error), _) => given.len() == n && verdict == Err::<TransactionState, _>(
                        error@,
                    ),
                    (Ok(_), Ok(_)) => given.len() == n + 1 && verdict == Ok::<
                        _,
                        (ErrorKind, Seq<char>),
                    >(TransactionState::Complete),
                    (Ok(_), Err(text)) => given.len() == n + 1 && verdict == Err::<
                        TransactionState,
                        _,
                    >((ErrorKind::Anyhow, text@)),
                }
            }
        }),
{
    assert forall|i: int| 0 <= i < n implies (#[trigger] rounds[i]).goes_on() by {}
    if n == rounds.len() {
        law_whole_transfer(rounds);
    } else {
        law_transfer_stops(rounds, n);
    }
}

/// A step of a transfer is viewed as what it is: the read, the request to handle, or the end, with
/// the state of the transaction or the error.
pub proof fn law_steps_are_viewed_whole<T>(step: Transfer<T>)
    ensures
        match step {
            Transfer::Read => step@ is Read,
            Transfer::Handle(request) => step@ == TransferView::Handle(request),
            Transfer::Finished(Ok(state)) => step@ == TransferView::<T>::Finished(Ok(state)),
            Transfer::Finished(Err(error)) => step@ == TransferView::<T>::Finished(Err(error@)),
        },
{
}

} // verus!
