//! The threads that serve the transactions in progress, and the channels that lead to them.
use crate::error::{joined, ServerError};
use crate::request::Reply;
use std::collections::HashMap;
use vstd::prelude::*;
use vstd::string::*;

verus! {

broadcast use vstd::std_specs::hash::group_hash_axioms;

/// What has to be done next to get a request to the thread of its transaction.
#[derive(Debug, PartialEq, Eq)]
pub enum Dispatch {
    /// Start a thread for the transaction, then ask [`Channels::spawned`].
    Spawn,
    /// Send the request through the transaction's channel, then ask [`Dispatch::sent`].
    Send,
    /// Give the request back to the client with this answer.
    Respond(Reply),
    /// The request is with its thread.
    Finished,
}

/// What a client is told whose request did not reach the thread of its transaction.
pub open spec fn undispatched() -> Seq<char> {
    "unexpected error sending request data to server transaction thread"@
}

/// A [`Dispatch`] that gives the request back with an error of this text.
pub open spec fn gives_back(step: Dispatch, text: Seq<char>) -> bool {
    step matches Dispatch::Respond(Reply::Failure(error)) && error@ == (
        crate::error::ErrorKind::Anyhow,
        text,
    )
}

/// The channels of the transactions in progress, by transaction id.
pub struct Channels<S> {
    senders: HashMap<u64, S>,
}

impl<S> View for Channels<S> {
    type V = Map<u64, S>;

    closed spec fn view(&self) -> Map<u64, S> {
        self.senders@
    }
}

/// Where a request of transaction `id` goes: to the thread of the transaction if it is in
/// progress, or else to a new thread.
pub open spec fn destination<S>(channels: Map<u64, S>, id: u64) -> Dispatch {
    if channels.contains_key(id) {
        Dispatch::Send
    } else {
        Dispatch::Spawn
    }
}

impl<S> Channels<S> {
    /// No transaction is in progress.
    pub fn new() -> (r: Self)
        ensures
            r@ == Map::<u64, S>::empty(),
    {
        Channels { senders: HashMap::new() }
    }

    /// Begins to dispatch a request of transaction `id`, given the channels, or the text of the
    /// error that locking them gave.
    pub fn dispatch_transaction_thread(channels: Result<&Self, String>, id: u64) -> (r: Dispatch)
        ensures
            match channels {
                Ok(channels) => r == destination(channels@, id),
                Err(text) => gives_back(r, undispatched() + ": "@ + text@),
            },
    {
        match channels {
            Ok(channels) => {
                // If the sender already exists, there is a transaction already in progress. If no
                // sender exists, this is the first request in the transaction.
                if channels.senders.contains_key(&id) {
                    Dispatch::Send
                } else {
                    Dispatch::Spawn
                }
            },
            Err(text) => {
                let error = joined(
                    "unexpected error sending request data to server transaction thread",
                    ": ",
                );
                let message = joined(error.as_str(), text.as_str());
                Dispatch::Respond(Reply::respond_err(ServerError::Anyhow(message)))
            },
        }
    }

    /// A thread for transaction `id` has started; `sender` leads to it.
    pub fn spawned(&mut self, id: u64, sender: S) -> (r: Dispatch)
        requires
            !old(self)@.contains_key(id),
        ensures
            final(self)@ == old(self)@.insert(id, sender),
            r == Dispatch::Send,
    {
        self.senders.insert(id, sender);
        Dispatch::Send
    }

    /// The channel to the thread of transaction `id`, if that is in progress.
    pub fn sender(&self, id: u64) -> (r: Option<&S>)
        ensures
            match r {
                Some(sender) => self@.contains_key(id) && *sender == self@[id],
                None => !self@.contains_key(id),
            },
    {
        self.senders.get(&id)
    }

    /// The thread of transaction `id` is done: its channel is forgotten.
    pub fn ended(&mut self, id: u64)
        ensures
            final(self)@ == old(self)@.remove(id),
    {
        self.senders.remove(&id);
    }
}

impl Dispatch {
    /// The request was sent through the channel; `accepted` says whether the thread at its other
    /// end still takes requests.
    pub fn sent(accepted: bool) -> (r: Self)
        ensures
            accepted ==> r == Dispatch::Finished,
            !accepted ==> gives_back(r, undispatched()),
    {
        if accepted {
            Dispatch::Finished
        } else {
            let message =
                "unexpected error sending request data to server transaction thread".to_owned();
            Dispatch::Respond(Reply::respond_err(ServerError::Anyhow(message)))
        }
    }
}

/// What happens to the threads of transactions: one starts, or one ends.
pub enum ThreadEvent<S> {
    Spawned(u64, S),
    Ended(u64),
}

/// The channels after the events of `history`, the latest of which stands last.
pub open spec fn channels_after<S>(history: Seq<ThreadEvent<S>>) -> Map<u64, S>
    decreases history.len(),
{
    if history.len() == 0 {
        Map::empty()
    } else {
        match history.last() {
            ThreadEvent::Spawned(id, sender) => channels_after(history.drop_last()).insert(
                id,
                sender,
            ),
            ThreadEvent::Ended(id) => channels_after(history.drop_last()).remove(id),
        }
    }
}

/// How many threads of transaction `id` have started and not yet ended.
pub open spec fn live_threads<S>(history: Seq<ThreadEvent<S>>, id: u64) -> int
    decreases history.len(),
{
    if history.len() == 0 {
        0
    } else {
        live_threads(history.drop_last(), id) + match history.last() {
            ThreadEvent::Spawned(of, _) => if of == id {
                1int
            } else {
                0
            },
            ThreadEvent::Ended(of) => if of == id {
                -1int
            } else {
                0
            },
        }
    }
}

/// A history that the server can have: a thread starts only where dispatching calls for one, and
/// only a thread that has started ends.
pub open spec fn possible<S>(history: Seq<ThreadEvent<S>>) -> bool
    decreases history.len(),
{
    history.len() > 0 ==> {
        let before = history.drop_last();
        &&& possible(before)
        &&& match history.last() {
            ThreadEvent::Spawned(id, _) => destination(channels_after(before), id)
                == Dispatch::Spawn,
            ThreadEvent::Ended(id) => live_threads(before, id) > 0,
        }
    }
}

/// A transaction never has two threads at a time, and it has a channel exactly while it has a
/// thread: so a request goes to the one thread of its transaction, and starts one if there is
/// none.
pub proof fn law_one_thread_per_transaction<S>(history: Seq<ThreadEvent<S>>, id: u64)
    requires
        possible(history),
    ensures
        0 <= live_threads(history, id) <= 1,
        channels_after(history).contains_key(id) <==> live_threads(history, id) == 1,
        destination(channels_after(history), id) == Dispatch::Send <==> live_threads(history, id)
            == 1,
    decreases history.len(),
{
    if history.len() > 0 {
        law_one_thread_per_transaction(history.drop_last(), id);
    }
}

/// The thread that starts for a transaction serves it until that thread ends: whatever happens to
/// other transactions meanwhile, the channel stays the same.
pub proof fn law_thread_keeps_its_transaction<S>(
    history: Seq<ThreadEvent<S>>,
    start: int,
    id: u64,
    sender: S,
)
    requires
        possible(history),
        0 <= start < history.len(),
        history[start] == ThreadEvent::Spawned(id, sender),
        forall|i: int|
            start < i < history.len() ==> #[trigger] history[i] != ThreadEvent::<S>::Ended(id),
    ensures
        channels_after(history).contains_key(id),
        channels_after(history)[id] == sender,
    decreases history.len(),
{
    let before = history.drop_last();
    if start < history.len() - 1 {
        assert forall|i: int| start < i < before.len() implies #[trigger] before[i]
            != ThreadEvent::<S>::Ended(id) by {
            assert(before[i] == history[i]);
        }
        law_thread_keeps_its_transaction(before, start, id, sender);
        assert(history.last() != ThreadEvent::<S>::Ended(id));
    }
}

/// A client whose request does not reach its thread gets an answer with status 500 that says so.
pub proof fn law_undelivered_requests_are_explained(step: Dispatch, text: Seq<char>)
    requires
        gives_back(step, text),
    ensures
        undispatched() == "unexpected error sending request data to server transaction thread"@,
        step matches Dispatch::Respond(reply) && reply.status_spec() == 500 && reply.body_spec()
            == "unexpected error: "@ + text,
{
}

} // verus!
