//! How the server deals with one request.
//!
//! The server alternates between deciding and doing: it decodes a request, lets the transaction's
//! handler work on it, and answers the client. An [`Exchange`] is what has to be done next; each
//! function here takes the outcome of doing it and says what comes then.
use crate::error::ServerError;
use vstd::prelude::*;
use vstd::string::*;

verus! {

/// Whether a handler has more to do for its transaction.
#[derive(Debug, Clone, Copy, PartialEq, Eq)]
pub enum TransactionState {
    /// More requests may follow.
    Continue,
    /// The transaction is over.
    Complete,
}

/// A request to the server: one for its handler, the announcement of a transfer of many such
/// requests through a pipe, or the order to shut down.
#[derive(Debug, PartialEq, Eq)]
pub enum ServerRequest<T, P> {
    Request(T),
    Transfer(P),
    Shutdown,
}

/// The answer to a request.
#[derive(Debug, PartialEq, Eq)]
pub enum Reply {
    Success,
    Failure(ServerError),
}

impl Reply {
    /// The HTTP status of the answer.
    pub open spec fn status_spec(&self) -> u16 {
        match self {
            Reply::Success => 200,
            Reply::Failure(_) => 500,
        }
    }

    /// The body of the answer.
    pub open spec fn body_spec(&self) -> Seq<char> {
        match self {
            Reply::Success => Seq::empty(),
            Reply::Failure(error) => crate::error::error_text(error@),
        }
    }

    /// The answer to a request that went well.
    pub fn response_ok() -> (r: Reply)
        ensures
            r == Reply::Success,
            r.status_spec() == 200,
            r.body_spec().len() == 0,
    {
        Reply::Success
    }

    /// The answer to a request that failed.
    pub fn respond_err(error: ServerError) -> (r: Reply)
        ensures
            r == Reply::Failure(error),
            r.status_spec() == 500,
            r.body_spec() == crate::error::error_text(error@),
    {
        Reply::Failure(error)
    }

    /// The HTTP status of the answer: 200 or 500.
    pub fn status(&self) -> (r: u16)
        ensures
            r == self.status_spec(),
    {
        match self {
            Reply::Success => 200,
            Reply::Failure(_) => 500,
        }
    }

    /// The body of the answer: empty, or the text of the error.
    pub fn body(&self) -> (r: String)
        ensures
            r@ == self.body_spec(),
    {
        match self {
            Reply::Success => String::new(),
            Reply::Failure(error) => error.message(),
        }
    }
}

/// Whether the thread that serves a transaction has more to do for it after a request.
#[derive(Debug, Clone, Copy, PartialEq, Eq)]
pub enum Fate {
    /// The thread awaits the transaction's next request.
    Open,
    /// The transaction is over, and its thread exits.
    Over,
}

/// What is left to do about a request once its answer is sent.
#[derive(Debug, PartialEq, Eq)]
pub enum Then<P> {
    /// Receive what comes through the pipe, if the client has the answer.
    Stream(P),
    /// Nothing: the shutdown was acknowledged.
    Acknowledged,
    /// Nothing: the handler has done its work and left the transaction in this state.
    Handled(TransactionState),
    /// Nothing: the request was refused.
    Refused,
}

/// What the server has to do next about a request.
#[derive(Debug, PartialEq, Eq)]
pub enum Exchange<T, P> {
    /// Set the shutdown flag, then ask [`Exchange::raised`].
    RaiseShutdown,
    /// Let the handler work on the request, then ask [`Exchange::handled`].
    Handle(T),
    /// Send the answer, then ask [`Exchange::responded`].
    Respond { reply: Reply, then: Then<P> },
    /// Receive the requests that come through the pipe, then ask [`Exchange::streamed`].
    Stream(P),
    /// The request is dealt with.
    Finished(Fate),
}

impl<T, P> Exchange<T, P> {
    /// The answer to a request that is refused with `error`.
    pub open spec fn refusal(error: ServerError) -> Self {
        Exchange::Respond { reply: Reply::Failure(error), then: Then::Refused }
    }

    /// What a request that was just read calls for, given what it decoded to.
    pub open spec fn first(decoded: Result<ServerRequest<T, P>, String>) -> Self {
        match decoded {
            Ok(ServerRequest::Shutdown) => Exchange::RaiseShutdown,
            Ok(ServerRequest::Transfer(pipe)) => Exchange::Respond {
                reply: Reply::Success,
                then: Then::Stream(pipe),
            },
            Ok(ServerRequest::Request(request)) => Exchange::Handle(request),
            Err(text) => Self::refusal(ServerError::Unexpected(text)),
        }
    }

    /// What comes after the handler's work: the answer that tells of it.
    pub open spec fn after_handling(outcome: Result<TransactionState, String>) -> Self {
        match outcome {
            Ok(state) => Exchange::Respond { reply: Reply::Success, then: Then::Handled(state) },
            Err(text) => Self::refusal(ServerError::Anyhow(text)),
        }
    }

    /// What comes after an answer. A transaction goes on if the answer reached the client and the
    /// handler did not complete it. A shutdown leaves the transaction open, whether or not its
    /// answer arrives: the thread finds the flag up before its next request.
    pub open spec fn after_reply(then: Then<P>, delivered: bool) -> Self {
        match then {
            Then::Stream(pipe) => if delivered {
                Exchange::Stream(pipe)
            } else {
                Exchange::Finished(Fate::Over)
            },
            Then::Acknowledged => Exchange::Finished(Fate::Open),
            Then::Handled(state) => Exchange::Finished(
                if delivered && state == TransactionState::Continue {
                    Fate::Open
                } else {
                    Fate::Over
                },
            ),
            Then::Refused => Exchange::Finished(Fate::Over),
        }
    }

    /// What comes after a transfer: the transaction goes on if the transfer went well and did not
    /// complete it.
    pub open spec fn after_stream(outcome: Result<TransactionState, ServerError>) -> Self {
        Exchange::Finished(
            if outcome == Ok::<_, ServerError>(TransactionState::Continue) {
                Fate::Open
            } else {
                Fate::Over
            },
        )
    }

    /// Begins to deal with a request: `decoded` is the request, or the text of the error that
    /// decoding it gave.
    pub fn handle_request(decoded: Result<ServerRequest<T, P>, String>) -> (r: Self)
        ensures
            r == Self::first(decoded),
    {
        match decoded {
            Ok(ServerRequest::Shutdown) => Exchange::RaiseShutdown,
            // The answer must reach the client before the transfer is initiated.
            Ok(ServerRequest::Transfer(pipe)) => Exchange::Respond {
                reply: Reply::response_ok(),
                then: Then::Stream(pipe),
            },
            Ok(ServerRequest::Request(request)) => Exchange::Handle(request),
            Err(text) => Exchange::Respond {
                reply: Reply::respond_err(ServerError::Unexpected(text)),
                then: Then::Refused,
            },
        }
    }

    /// The shutdown flag is set.
    pub fn raised() -> (r: Self)
        ensures
            r == (Exchange::<T, P>::Respond { reply: Reply::Success, then: Then::Acknowledged }),
    {
        Exchange::Respond { reply: Reply::response_ok(), then: Then::Acknowledged }
    }

    /// The handler has worked on the request; `outcome` is what it returned, or the text of its
    /// error.
    pub fn handled(outcome: Result<TransactionState, String>) -> (r: Self)
        ensures
            r == Self::after_handling(outcome),
    {
        match outcome {
            Ok(state) => Exchange::Respond {
                reply: Reply::response_ok(),
                then: Then::Handled(state),
            },
            Err(text) => Exchange::Respond {
                reply: Reply::respond_err(ServerError::Anyhow(text)),
                then: Then::Refused,
            },
        }
    }

    /// The answer was sent; `delivered` says whether that went well.
    pub fn responded(then: Then<P>, delivered: bool) -> (r: Self)
        ensures
            r == Self::after_reply(then, delivered),
    {
        match then {
            Then::Stream(pipe) => {
                if delivered {
                    Exchange::Stream(pipe)
                } else {
                    Exchange::Finished(Fate::Over)
                }
            },
            Then::Acknowledged => Exchange::Finished(Fate::Open),
            Then::Handled(state) => {
                // If we cannot respond to the client, or the handler indicates that the
                // transaction is complete, the thread must exit.
                match state {
                    TransactionState::Continue if delivered => Exchange::Finished(Fate::Open),
                    _ => Exchange::Finished(Fate::Over),
                }
            },
            Then::Refused => Exchange::Finished(Fate::Over),
        }
    }

    /// The transfer is over.
    pub fn streamed(outcome: Result<TransactionState, ServerError>) -> (r: Self)
        ensures
            r == Self::after_stream(outcome),
    {
        match outcome {
            Ok(TransactionState::Continue) => Exchange::Finished(Fate::Open),
            _ => Exchange::Finished(Fate::Over),
        }
    }
}

/// How the world answers while the server deals with one request: what the handler returns,
/// whether the answer reaches the client, and how a transfer ends.
pub struct Outcomes {
    pub handled: Result<TransactionState, String>,
    pub delivered: bool,
    pub streamed: Result<TransactionState, ServerError>,
}

/// What comes after `step` has been done.
pub open spec fn next_step<T, P>(step: Exchange<T, P>, outcomes: Outcomes) -> Exchange<T, P> {
    match step {
        Exchange::RaiseShutdown => Exchange::Respond {
            reply: Reply::Success,
            then: Then::Acknowledged,
        },
        Exchange::Handle(_) => Exchange::after_handling(outcomes.handled),
        Exchange::Respond { reply, then } => Exchange::after_reply(then, outcomes.delivered),
        Exchange::Stream(_) => Exchange::after_stream(outcomes.streamed),
        Exchange::Finished(fate) => Exchange::Finished(fate),
    }
}

/// Everything that is done about a request from `step` on, at most `fuel` steps of it, with the
/// end that it comes to.
pub open spec fn steps_from<T, P>(step: Exchange<T, P>, outcomes: Outcomes, fuel: nat) -> Seq<
    Exchange<T, P>,
>
    decreases fuel,
{
    if fuel == 0 || step is Finished {
        seq![step]
    } else {
        seq![step] + steps_from(next_step(step, outcomes), outcomes, (fuel - 1) as nat)
    }
}

/// Everything that is done about a request that decoded to `decoded`, in order, with the end that
/// it comes to.
pub open spec fn all_steps<T, P>(
    decoded: Result<ServerRequest<T, P>, String>,
    outcomes: Outcomes,
) -> Seq<Exchange<T, P>> {
    steps_from(Exchange::first(decoded), outcomes, 2)
}

/// The answer that a request is due.
pub open spec fn due_reply<T, P>(
    decoded: Result<ServerRequest<T, P>, String>,
    outcomes: Outcomes,
) -> Reply {
    match decoded {
        Ok(ServerRequest::Request(_)) => match outcomes.handled {
            Ok(_) => Reply::Success,
            Err(text) => Reply::Failure(ServerError::Anyhow(text)),
        },
        Ok(_) => Reply::Success,
        Err(text) => Reply::Failure(ServerError::Unexpected(text)),
    }
}

/// What becomes of the transaction with a request: it goes on after a shutdown request, which
/// stops the thread by the flag, and after a request or a transfer that went well to the end and
/// did not complete it.
pub open spec fn due_fate<T, P>(
    decoded: Result<ServerRequest<T, P>, String>,
    outcomes: Outcomes,
) -> Fate {
    let goes_on = match decoded {
        Ok(ServerRequest::Shutdown) => true,
        Ok(ServerRequest::Transfer(_)) => outcomes.delivered && outcomes.streamed == Ok::<
            _,
            ServerError,
        >(TransactionState::Continue),
        Ok(ServerRequest::Request(_)) => outcomes.delivered && outcomes.handled == Ok::<_, String>(
            TransactionState::Continue,
        ),
        Err(_) => false,
    };
    if goes_on {
        Fate::Open
    } else {
        Fate::Over
    }
}

/// What is done about each kind of request, in order. A shutdown raises the flag and is then
/// acknowledged; a transfer is acknowledged and, if that reached the client, received; any other
/// request is handled and then answered; and what cannot be decoded is only answered. That is all
/// in at most two steps, and then the transaction is open or over as is due.
pub proof fn law_course_of_a_request<T, P>(
    decoded: Result<ServerRequest<T, P>, String>,
    outcomes: Outcomes,
)
    ensures
        all_steps(decoded, outcomes) == match decoded {
            Ok(ServerRequest::Shutdown) => seq![
                Exchange::RaiseShutdown,
                Exchange::Respond { reply: Reply::Success, then: Then::Acknowledged },
                Exchange::Finished(due_fate(decoded, outcomes)),
            ],
            Ok(ServerRequest::Transfer(pipe)) => if outcomes.delivered {
                seq![
                    Exchange::Respond { reply: Reply::Success, then: Then::Stream(pipe) },
                    Exchange::Stream(pipe),
                    Exchange::Finished(due_fate(decoded, outcomes)),
                ]
            } else {
                seq![
                    Exchange::Respond { reply: Reply::Success, then: Then::Stream(pipe) },
                    Exchange::Finished(due_fate(decoded, outcomes)),
                ]
            },
            Ok(ServerRequest::Request(request)) => seq![
                Exchange::Handle(request),
                Exchange::after_handling(outcomes.handled),
                Exchange::Finished(due_fate(decoded, outcomes)),
            ],
            Err(text) => seq![
                Exchange::refusal(ServerError::Unexpected(text)),
                Exchange::Finished(due_fate(decoded, outcomes)),
            ],
        },
{
    reveal_with_fuel(steps_from, 3);
    let first = Exchange::<T, P>::first(decoded);
    let second = next_step(first, outcomes);
    let third = next_step(second, outcomes);
    assert(third == Exchange::<T, P>::Finished(due_fate(decoded, outcomes)));
    if second is Finished {
        assert(all_steps(decoded, outcomes) =~= seq![first, second]);
    } else {
        assert(all_steps(decoded, outcomes) =~= seq![first, second, third]);
    }
}

/// Every request is answered exactly once, and with the answer that it is due: success for a
/// shutdown, for a transfer and for what the handler accepted; an error, with its text, for what
/// the handler refused and for what could not be decoded.
pub proof fn law_one_answer<T, P>(
    decoded: Result<ServerRequest<T, P>, String>,
    outcomes: Outcomes,
)
    ensures
        exists|i: int|
            #![trigger all_steps(decoded, outcomes)[i]]
            0 <= i < all_steps(decoded, outcomes).len() && {
                &&& all_steps(decoded, outcomes)[i] matches Exchange::Respond { reply, .. }
                &&& reply == due_reply(decoded, outcomes)
            },
        forall|i: int, j: int|
            0 <= i < all_steps(decoded, outcomes).len()
                && 0 <= j < all_steps(decoded, outcomes).len()
                && #[trigger] all_steps(decoded, outcomes)[i] is Respond
                && #[trigger] all_steps(decoded, outcomes)[j] is Respond ==> i == j,
{
    law_course_of_a_request(decoded, outcomes);
    let steps = all_steps(decoded, outcomes);
    let at: int = match decoded {
        Ok(ServerRequest::Transfer(_)) => 0,
        Ok(_) => 1,
        Err(_) => 0,
    };
    assert(steps[at] is Respond);
}

/// A refused request is answered with the status of an error and the error's text: what the
/// handler said, or why the request could not be decoded.
pub proof fn law_refusals_are_explained<T, P>(
    decoded: Result<ServerRequest<T, P>, String>,
    outcomes: Outcomes,
)
    ensures
        due_reply(decoded, outcomes).status_spec() == 200 || due_reply(
            decoded,
            outcomes,
        ).status_spec() == 500,
        decoded matches Err(text) ==> due_reply(decoded, outcomes).status_spec() == 500
            && due_reply(decoded, outcomes).body_spec() == "unexpected error: "@ + text@,
        (decoded matches Ok(ServerRequest::Request(_)) && outcomes.handled matches Err(text)) ==> {
            &&& due_reply(decoded, outcomes).status_spec() == 500
            &&& due_reply(decoded, outcomes).body_spec() == "unexpected error: "@
                + outcomes.handled->Err_0@
        },
        (decoded matches Ok(ServerRequest::Request(_)) && outcomes.handled is Ok) ==> due_reply(
            decoded,
            outcomes,
        ).status_spec() == 200,
{
}

/// A transfer begins only after the client has received a success.
pub proof fn law_transfer_after_answer<T, P>(
    decoded: Result<ServerRequest<T, P>, String>,
    outcomes: Outcomes,
    i: int,
)
    requires
        0 <= i < all_steps(decoded, outcomes).len(),
        all_steps(decoded, outcomes)[i] is Stream,
    ensures
        i == 1,
        outcomes.delivered,
        all_steps(decoded, outcomes)[0] matches Exchange::Respond { reply, .. } && reply
            == Reply::Success,
{
    law_course_of_a_request(decoded, outcomes);
}

/// The shutdown flag is raised for a shutdown request and for no other, before anything else is
/// done about it.
pub proof fn law_only_shutdown_raises<T, P>(
    decoded: Result<ServerRequest<T, P>, String>,
    outcomes: Outcomes,
    i: int,
)
    requires
        0 <= i < all_steps(decoded, outcomes).len(),
    ensures
        all_steps(decoded, outcomes)[i] is RaiseShutdown <==> i == 0 && decoded == Ok::<
            ServerRequest<T, P>,
            String,
        >(ServerRequest::Shutdown),
{
    law_course_of_a_request(decoded, outcomes);
}

/// What comes of each kind of request, from its first step to its last. The handler gets the very
/// request that was sent, and only that one; the client is told that it went well, with status 200
/// and nothing more, or what went wrong, with status 500; and the transaction stays open if and
/// only if the request is a shutdown, or went well to the end, with its answer delivered, and did
/// not complete it.
pub proof fn law_requests_come_to_their_end<T, P>(
    decoded: Result<ServerRequest<T, P>, String>,
    outcomes: Outcomes,
)
    ensures
        ({
            let steps = all_steps(decoded, outcomes);
            let n = steps.len() as int;
            let open = Exchange::<T, P>::Finished(Fate::Open);
            let over = Exchange::<T, P>::Finished(Fate::Over);
            match decoded {
                Ok(ServerRequest::Shutdown) => {
                    &&& n == 3
                    &&& steps[0] is RaiseShutdown
                    &&& steps[1] matches Exchange::Respond { reply, .. } && reply.status_spec()
                        == 200 && reply.body_spec() == Seq::<char>::empty()
                    &&& steps[2] == open
                },
                Ok(ServerRequest::Transfer(pipe)) => {
                    &&& steps[0] matches Exchange::Respond { reply, .. } && reply.status_spec()
                        == 200 && reply.body_spec() == Seq::<char>::empty()
                    &&& !outcomes.delivered ==> n == 2 && steps[1] == over
                    &&& outcomes.delivered ==> {
                        &&& n == 3
                        &&& steps[1] == Exchange::<T, P>::Stream(pipe)
                        &&& outcomes.streamed matches Ok(TransactionState::Continue) ==> steps[2]
                            == open
                        &&& outcomes.streamed matches Ok(TransactionState::Complete) ==> steps[2]
                            == over
                        &&& outcomes.streamed is Err ==> steps[2] == over
                    }
                },
                Ok(ServerRequest::Request(request)) => {
                    &&& n == 3
                    &&& steps[0] == Exchange::<T, P>::Handle(request)
                    &&& outcomes.handled is Ok ==> (steps[1] matches Exchange::Respond { reply, .. }
                        && reply.status_spec() == 200 && reply.body_spec() == Seq::<char>::empty())
                    &&& outcomes.handled matches Err(text) ==> {
                        &&& steps[1] matches Exchange::Respond { reply, .. } && reply.status_spec()
                            == 500 && reply.body_spec() == "unexpected error: "@ + text@
                        &&& steps[2] == over
                    }
                    &&& outcomes.handled matches Ok(TransactionState::Complete) ==> steps[2] == over
                    &&& outcomes.handled matches Ok(TransactionState::Continue) ==> steps[2] == if
                        outcomes.delivered {
                        open
                    } else {
                        over
                    }
                },
                Err(text) => {
                    &&& n == 2
                    &&& steps[0] matches Exchange::Respond { reply, .. } && reply.status_spec()
                        == 500 && reply.body_spec() == "unexpected error: "@ + text@
                    &&& steps[1] == over
                },
            }
        }),
{
    law_course_of_a_request(decoded, outcomes);
}

} // verus!
