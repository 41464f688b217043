use pg_search::error::ServerError;
use pg_search::request::{Exchange, Fate, Reply, ServerRequest, Then, TransactionState};
use pg_search::transfer::Transfer;

type Step = Exchange<u32, &'static str>;

/// Deals with a request: the steps taken, with what came of each, and the fate of the transaction.
fn course(
    decoded: Result<ServerRequest<u32, &'static str>, String>,
    handled: Result<TransactionState, String>,
    delivered: bool,
    streamed: Result<TransactionState, ServerError>,
) -> (Vec<String>, Fate) {
    let mut handled = Some(handled);
    let mut streamed = Some(streamed);
    let mut steps = Vec::new();
    let mut step: Step = Exchange::handle_request(decoded);
    loop {
        step = match step {
            Exchange::RaiseShutdown => {
                steps.push("raise".to_string());
                Exchange::raised()
            }
            Exchange::Handle(request) => {
                steps.push(format!("handle {request}"));
                Exchange::handled(handled.take().unwrap())
            }
            Exchange::Respond { reply, then } => {
                steps.push(format!("respond {} {}", reply.status(), reply.body()));
                Exchange::responded(then, delivered)
            }
            Exchange::Stream(pipe) => {
                steps.push(format!("stream {pipe}"));
                Exchange::streamed(streamed.take().unwrap())
            }
            Exchange::Finished(fate) => return (steps, fate),
        };
    }
}

fn ok() -> Result<TransactionState, String> {
    Ok(TransactionState::Continue)
}

fn streamed_ok() -> Result<TransactionState, ServerError> {
    Ok(TransactionState::Continue)
}

#[test]
fn shutdown_raises_the_flag_and_is_acknowledged() {
    for delivered in [true, false] {
        let (steps, fate) = course(Ok(ServerRequest::Shutdown), ok(), delivered, streamed_ok());
        assert_eq!(steps, ["raise", "respond 200 "]);
        assert_eq!(fate, Fate::Open);
    }
}

#[test]
fn transfer_is_acknowledged_before_it_begins() {
    let (steps, fate) = course(Ok(ServerRequest::Transfer("pipe")), ok(), true, streamed_ok());
    assert_eq!(steps, ["respond 200 ", "stream pipe"]);
    assert_eq!(fate, Fate::Open);
}

#[test]
fn transfer_does_not_begin_without_an_answer() {
    let (steps, fate) = course(Ok(ServerRequest::Transfer("pipe")), ok(), false, streamed_ok());
    assert_eq!(steps, ["respond 200 "]);
    assert_eq!(fate, Fate::Over);
}

#[test]
fn transfer_that_fails_or_completes_ends_the_transaction() {
    let request = || Ok(ServerRequest::Transfer("pipe"));
    let failed = Err(ServerError::IOError("broken".to_string()));
    assert_eq!(course(request(), ok(), true, failed).1, Fate::Over);
    let complete = Ok(TransactionState::Complete);
    assert_eq!(course(request(), ok(), true, complete).1, Fate::Over);
}

#[test]
fn request_is_handled_then_answered() {
    let (steps, fate) = course(Ok(ServerRequest::Request(5)), ok(), true, streamed_ok());
    assert_eq!(steps, ["handle 5", "respond 200 "]);
    assert_eq!(fate, Fate::Open);
}

#[test]
fn request_that_completes_ends_the_transaction() {
    let complete = Ok(TransactionState::Complete);
    let (steps, fate) = course(Ok(ServerRequest::Request(5)), complete, true, streamed_ok());
    assert_eq!(steps, ["handle 5", "respond 200 "]);
    assert_eq!(fate, Fate::Over);
}

#[test]
fn request_whose_answer_is_lost_ends_the_transaction() {
    let (_, fate) = course(Ok(ServerRequest::Request(5)), ok(), false, streamed_ok());
    assert_eq!(fate, Fate::Over);
}

#[test]
fn refused_request_is_answered_with_the_error() {
    let refused = Err("no such index".to_string());
    let (steps, fate) = course(Ok(ServerRequest::Request(5)), refused, true, streamed_ok());
    assert_eq!(steps, ["handle 5", "respond 500 unexpected error: no such index"]);
    assert_eq!(fate, Fate::Over);
}

#[test]
fn undecodable_request_is_answered_with_the_error() {
    let (steps, fate) = course(Err("bad bytes".to_string()), ok(), true, streamed_ok());
    assert_eq!(steps, ["respond 500 unexpected error: bad bytes"]);
    assert_eq!(fate, Fate::Over);
}

#[test]
fn replies_have_a_status_and_a_body() {
    assert_eq!(Reply::response_ok(), Reply::Success);
    assert_eq!(Reply::response_ok().status(), 200);
    assert_eq!(Reply::response_ok().body(), "");
    let reply = Reply::respond_err(ServerError::IOError("disk full".to_string()));
    assert_eq!(reply.status(), 500);
    assert_eq!(reply.body(), "disk full");
    let last: Step = Exchange::responded(Then::Refused, true);
    assert_eq!(last, Exchange::Finished(Fate::Over));
}

/// Runs a transfer over `rounds`: what is read, the flag, and what the handler makes of it.
fn transfer(
    rounds: Vec<(Result<u32, ServerError>, bool, Result<TransactionState, String>)>,
) -> (Vec<u32>, Result<TransactionState, ServerError>) {
    let mut rounds = rounds.into_iter();
    let mut handled = Vec::new();
    let mut outcome = None;
    let mut step: Transfer<u32> = Transfer::listen_transfer(Ok(()));
    loop {
        step = match step {
            Transfer::Read => match rounds.next() {
                Some((item, shutdown, result)) => {
                    outcome = Some(result);
                    Transfer::read(Some(item), shutdown)
                }
                None => Transfer::read(None, true),
            },
            Transfer::Handle(request) => {
                handled.push(request);
                Transfer::handled(outcome.take().unwrap())
            }
            Transfer::Finished(verdict) => return (handled, verdict),
        };
    }
}

#[test]
fn transfer_hands_every_request_to_the_handler() {
    let (handled, verdict) = transfer(vec![
        (Ok(1), false, ok()),
        (Ok(2), false, ok()),
        (Ok(3), false, ok()),
    ]);
    assert_eq!(handled, [1, 2, 3]);
    assert_eq!(verdict, Ok(TransactionState::Continue));
    assert_eq!(transfer(vec![]), (vec![], Ok(TransactionState::Continue)));
}

#[test]
fn transfer_stops_at_shutdown() {
    let (handled, verdict) = transfer(vec![
        (Ok(1), false, ok()),
        (Ok(2), true, ok()),
        (Ok(3), false, ok()),
    ]);
    assert_eq!(handled, [1]);
    assert_eq!(
        verdict.unwrap_err().message(),
        "unexpected error: writer server transaction thread received shutdown during insert"
    );
    // The flag goes before a failed read.
    let broken = Err(ServerError::IOError("broken pipe".to_string()));
    let (_, verdict) = transfer(vec![(broken, true, ok())]);
    assert!(matches!(verdict, Err(ServerError::Anyhow(_))));
}

#[test]
fn transfer_stops_at_a_failed_read() {
    let broken = Err(ServerError::IOError("broken pipe".to_string()));
    let (handled, verdict) = transfer(vec![(Ok(1), false, ok()), (broken, false, ok())]);
    assert_eq!(handled, [1]);
    assert_eq!(verdict, Err(ServerError::IOError("broken pipe".to_string())));
}

#[test]
fn transfer_stops_at_a_failed_handler() {
    let (handled, verdict) = transfer(vec![
        (Ok(1), false, Err("disk full".to_string())),
        (Ok(2), false, ok()),
    ]);
    assert_eq!(handled, [1]);
    assert_eq!(verdict, Err(ServerError::Anyhow("disk full".to_string())));
}

#[test]
fn transfer_stops_when_complete() {
    let (handled, verdict) = transfer(vec![
        (Ok(1), false, Ok(TransactionState::Complete)),
        (Ok(2), false, ok()),
    ]);
    assert_eq!(handled, [1]);
    assert_eq!(verdict, Ok(TransactionState::Complete));
}

#[test]
fn transfer_fails_without_its_pipe() {
    let error = ServerError::OpenPipeFile("no such file".to_string());
    let step: Transfer<u32> = Transfer::listen_transfer(Err(error));
    assert_eq!(
        step,
        Transfer::Finished(Err(ServerError::OpenPipeFile("no such file".to_string())))
    );
}
