//! What comes of a request to change an index, from its first operation to its last.
use crate::request::{Fate, Outcomes, ServerRequest, TransactionState};
use crate::writer::{
    Answers, CreationView, JobView, OpView, Outcome, WriterDirectory, WriterError, WriterRequest,
};
use vstd::prelude::*;

verus! {

/// What has come of a job: the operations performed, in order, the writer that is cached after
/// them, and how the job has ended, if it has.
pub struct Course<W, D, F, S, P, I, R> {
    pub done: Seq<OpView<D, F, S, P, I, R>>,
    pub cached: Option<W>,
    pub verdict: Option<Result<TransactionState, WriterError>>,
}

/// What comes of a job whose operations come out, one after the other, as `outcomes`.
pub open spec fn course<W, D, F, S, P, I, R>(
    job: JobView<D, F, S, P, I, R>,
    cached: Option<W>,
    outcomes: Seq<Outcome<W, S, P, I, R>>,
) -> Course<W, D, F, S, P, I, R>
    decreases outcomes.len(),
{
    if job.todo.len() == 0 {
        Course { done: Seq::empty(), cached, verdict: Some(job.verdict()) }
    } else if outcomes.len() == 0 {
        Course { done: Seq::empty(), cached, verdict: None }
    } else {
        let (after, cached_after) = job.asked().reported(cached, outcomes[0]);
        let rest = course(after, cached_after, outcomes.drop_first());
        Course { done: seq![job.todo[0]] + rest.done, ..rest }
    }
}

/// What comes of a request to a writer that has `cached` open.
pub open spec fn request_course<W, D, F, S, P, I, R>(
    request: WriterRequest<D, F>,
    cached: Option<W>,
    outcomes: Seq<Outcome<W, S, P, I, R>>,
) -> Course<W, D, F, S, P, I, R> {
    course(JobView::starting(request, cached), kept(request, cached), outcomes)
}

/// The writer that is still open once a request has begun.
pub open spec fn kept<W, D, F>(request: WriterRequest<D, F>, cached: Option<W>) -> Option<W> {
    if request.drops_writer() {
        None
    } else {
        cached
    }
}

/// The first `n` operations of a request come out well, as `outcomes`, and are answered with
/// `answers`.
pub open spec fn smooth<W, D, F, S, P, I, R>(
    request: WriterRequest<D, F>,
    cached: Option<W>,
    answers: Answers<S, P, I, R>,
    outcomes: Seq<Outcome<W, S, P, I, R>>,
    n: int,
) -> bool {
    let ops = request.all_ops(cached, answers);
    &&& 0 <= n <= ops.len()
    &&& n <= outcomes.len()
    &&& forall|i: int|
        0 <= i < n ==> {
            &&& (#[trigger] ops[i]).step().admits(outcomes[i])
            &&& !(outcomes[i] is Failed)
            &&& answers.agrees(outcomes[i])
        }
}

/// The writer that is cached after an operation that came out as `outcome`, given the one before.
pub open spec fn cached_by<W, S, P, I, R>(
    cached: Option<W>,
    outcome: Outcome<W, S, P, I, R>,
) -> Option<W> {
    match outcome {
        Outcome::Opened(writer) => Some(writer),
        Outcome::Found(false) => None,
        _ => cached,
    }
}

/// The writer that is cached after operations that came out as `outcomes`, given the one before.
pub open spec fn cached_through<W, S, P, I, R>(
    cached: Option<W>,
    outcomes: Seq<Outcome<W, S, P, I, R>>,
) -> Option<W>
    decreases outcomes.len(),
{
    if outcomes.len() == 0 {
        cached
    } else {
        cached_by(cached_through(cached, outcomes.drop_last()), outcomes.last())
    }
}

/// The creation that a request asks for after its first `n` operations have been answered with
/// `answers`.
pub open spec fn creation_after<D, F, S, P, I, R>(
    request: WriterRequest<D, F>,
    answers: Answers<S, P, I, R>,
    n: int,
) -> Option<CreationView<S, I>> {
    let schema = answers.schema;
    match request {
        WriterRequest::CreateIndex { directory, uuid, .. } => if n <= 1 {
            Some(CreationView::Schema { directory, uuid })
        } else if n == 2 {
            Some(CreationView::Path { directory, uuid, schema })
        } else if n == 3 {
            Some(CreationView::Index { directory, uuid, schema })
        } else if n == 4 {
            Some(CreationView::Tokenizers { directory, uuid, schema })
        } else if n == 5 {
            Some(CreationView::Reader { directory, uuid, schema, index: answers.index })
        } else {
            None
        },
        _ => None,
    }
}

/// The job of a request after its first `n` operations have come out well and been answered with
/// `answers`.
pub open spec fn job_after<W, D, F, S, P, I, R>(
    request: WriterRequest<D, F>,
    cached: Option<W>,
    answers: Answers<S, P, I, R>,
    n: int,
) -> JobView<D, F, S, P, I, R> {
    let ops = request.all_ops(cached, answers);
    JobView {
        todo: if n == 0 {
            request.first_ops(cached)
        } else if request is CreateIndex && n < ops.len() {
            seq![ops[n]]
        } else {
            ops.skip(n)
        },
        creation: creation_after(request, answers, n),
        ..JobView::starting(request, cached)
    }
}

/// A request goes from one operation that comes out well to the next.
proof fn lemma_step<W, D, F, S, P, I, R>(
    request: WriterRequest<D, F>,
    cached: Option<W>,
    answers: Answers<S, P, I, R>,
    outcomes: Seq<Outcome<W, S, P, I, R>>,
    n: int,
)
    requires
        smooth(request, cached, answers, outcomes, n + 1),
        0 <= n,
    ensures
        ({
            let job = job_after(request, cached, answers, n);
            let before = cached_through(kept(request, cached), outcomes.take(n));
            &&& job.todo.len() > 0
            &&& job.todo[0] == request.all_ops(cached, answers)[n]
            &&& job.asked().reported(before, outcomes[n]) == (
                job_after(request, cached, answers, n + 1),
                cached_by(before, outcomes[n]),
            )
        }),
{
    let ops = request.all_ops(cached, answers);
    let job = job_after(request, cached, answers, n);
    let next = job_after(request, cached, answers, n + 1);
    let before = cached_through(kept(request, cached), outcomes.take(n));
    let after = job.asked().reported(before, outcomes[n]).0;
    assert(ops[n].step().admits(outcomes[n]));
    if n == 0 {
        assert(outcomes.take(0) =~= Seq::empty());
    }
    assert(after.todo =~= next.todo);
    assert(after =~= next);
}

/// A request whose first `n` operations come out well performs them in order, and goes on from
/// there.
pub(crate) proof fn lemma_smooth_request<W, D, F, S, P, I, R>(
    request: WriterRequest<D, F>,
    cached: Option<W>,
    answers: Answers<S, P, I, R>,
    outcomes: Seq<Outcome<W, S, P, I, R>>,
    n: int,
)
    requires
        smooth(request, cached, answers, outcomes, n),
    ensures
        ({
            let later = course(
                job_after(request, cached, answers, n),
                cached_through(kept(request, cached), outcomes.take(n)),
                outcomes.skip(n),
            );
            request_course(request, cached, outcomes) == Course {
                done: request.all_ops(cached, answers).take(n) + later.done,
                ..later
            }
        }),
    decreases n,
{
    let ops = request.all_ops(cached, answers);
    if n == 0 {
        assert(outcomes.skip(0) =~= outcomes);
        assert(outcomes.take(0) =~= Seq::empty());
        let whole = request_course(request, cached, outcomes);
        assert(ops.take(0) + whole.done =~= whole.done);
    } else {
        assert(smooth(request, cached, answers, outcomes, n - 1));
        lemma_smooth_request(request, cached, answers, outcomes, n - 1);
        lemma_step(request, cached, answers, outcomes, n - 1);
        assert(outcomes.skip(n - 1)[0] == outcomes[n - 1]);
        assert(outcomes.skip(n - 1).drop_first() =~= outcomes.skip(n));
        assert(outcomes.take(n).drop_last() =~= outcomes.take(n - 1));
        assert(outcomes.take(n).last() == outcomes[n - 1]);
        let later = course(
            job_after(request, cached, answers, n),
            cached_through(kept(request, cached), outcomes.take(n)),
            outcomes.skip(n),
        );
        assert(ops.take(n - 1) + (seq![ops[n - 1]] + later.done) =~= ops.take(n) + later.done);
    }
}

/// A request whose operations all come out well performs all of them, in order, and leaves its
/// transaction complete if it is a commit or an abort, and open otherwise.
pub proof fn law_request_runs_through<W, D, F, S, P, I, R>(
    request: WriterRequest<D, F>,
    cached: Option<W>,
    answers: Answers<S, P, I, R>,
    outcomes: Seq<Outcome<W, S, P, I, R>>,
)
    requires
        smooth(
            request,
            cached,
            answers,
            outcomes,
            request.all_ops(cached, answers).len() as int,
        ),
    ensures
        request_course(request, cached, outcomes).done == request.all_ops(cached, answers),
        request_course(request, cached, outcomes).verdict == Some(
            Ok::<_, WriterError>(
                if request is Commit || request is Abort {
                    TransactionState::Complete
                } else {
                    TransactionState::Continue
                },
            ),
        ),
{
    let ops = request.all_ops(cached, answers);
    let n = ops.len() as int;
    lemma_smooth_request(request, cached, answers, outcomes, n);
    assert(ops.take(n) + Seq::empty() =~= ops);
    assert(ops.skip(n) =~= Seq::empty());
}

/// An index whose creation goes well is created with the very schema that was built, in the place
/// that was made for it, and gets the tokenizers of that schema; the reader is opened on that
/// index; and they all are saved together, under the id that the request gives. What was in the
/// directory before is removed first, and no writer is left open on it.
pub proof fn law_index_is_saved_as_made<W, D, F, S, P, I, R>(
    directory: WriterDirectory,
    fields: Vec<F>,
    uuid: String,
    key_field_index: usize,
    cached: Option<W>,
    answers: Answers<S, P, I, R>,
)
    ensures
        ({
            let schema = answers.schema;
            let index = answers.index;
            request_course(
                WriterRequest::<D, F>::CreateIndex { directory, fields, uuid, key_field_index },
                cached,
                seq![
                    Outcome::Done,
                    Outcome::Built(schema),
                    Outcome::Made(answers.path),
                    Outcome::Created(answers.created),
                    Outcome::Registered(index),
                    Outcome::Reading(answers.reader),
                    Outcome::Done,
                ],
            ) == Course {
                done: seq![
                    OpView::<D, F, S, P, I, R>::RemoveDirectory(directory),
                    OpView::BuildSchema { fields, key_field_index },
                    OpView::MakeIndexDirectory(directory),
                    OpView::CreateIndex { schema, path: answers.path },
                    OpView::RegisterTokenizers { created: answers.created, schema },
                    OpView::OpenReader { index },
                    OpView::SaveIndex { directory, uuid, schema, index, reader: answers.reader },
                ],
                cached: None::<W>,
                verdict: Some(Ok(TransactionState::Continue)),
            }
        }),
{
    let request = WriterRequest::<D, F>::CreateIndex { directory, fields, uuid, key_field_index };
    let outcomes: Seq<Outcome<W, S, P, I, R>> = seq![
        Outcome::Done,
        Outcome::Built(answers.schema),
        Outcome::Made(answers.path),
        Outcome::Created(answers.created),
        Outcome::Registered(answers.index),
        Outcome::Reading(answers.reader),
        Outcome::Done,
    ];
    let done = request_course(request, cached, outcomes).done;
    assert(smooth(request, cached, answers, outcomes, 7));
    law_request_runs_through(request, cached, answers, outcomes);
    law_writer_stays_cached(request, cached, answers, outcomes);
    assert(done =~= seq![
        OpView::<D, F, S, P, I, R>::RemoveDirectory(directory),
        OpView::BuildSchema { fields, key_field_index },
        OpView::MakeIndexDirectory(directory),
        OpView::CreateIndex { schema: answers.schema, path: answers.path },
        OpView::RegisterTokenizers { created: answers.created, schema: answers.schema },
        OpView::OpenReader { index: answers.index },
        OpView::SaveIndex {
            directory,
            uuid,
            schema: answers.schema,
            index: answers.index,
            reader: answers.reader,
        },
    ]);
}

/// The first operation that fails ends its request: nothing is done after it, and the request
/// fails with an error that says which operation it was and carries the text of its error.
pub proof fn law_request_stops_at_failure<W, D, F, S, P, I, R>(
    request: WriterRequest<D, F>,
    cached: Option<W>,
    answers: Answers<S, P, I, R>,
    outcomes: Seq<Outcome<W, S, P, I, R>>,
    n: int,
    text: String,
)
    requires
        smooth(request, cached, answers, outcomes, n),
        n < request.all_ops(cached, answers).len(),
        n < outcomes.len(),
        outcomes[n] == Outcome::<W, S, P, I, R>::Failed(text),
    ensures
        request_course(request, cached, outcomes).done == request.all_ops(cached, answers).take(
            n + 1,
        ),
        request_course(request, cached, outcomes).verdict == Some(
            Err::<TransactionState, _>(
                request.all_ops(cached, answers)[n].step().failure(request.directory(), text),
            ),
        ),
{
    let ops = request.all_ops(cached, answers);
    lemma_smooth_request(request, cached, answers, outcomes, n);
    reveal_with_fuel(course, 2);
    let job = job_after(request, cached, answers, n);
    let failing = outcomes.skip(n);
    assert(failing[0] == outcomes[n]);
    assert(job.todo[0] == ops[n]);
    assert(ops.take(n) + (seq![ops[n]] + Seq::empty()) =~= ops.take(n + 1));
}

/// The writer is cached after the first `n` operations of a request if the request kept it or one
/// of these operations opened it.
proof fn lemma_cached_after<W, D, F, S, P, I, R>(
    request: WriterRequest<D, F>,
    cached: Option<W>,
    answers: Answers<S, P, I, R>,
    outcomes: Seq<Outcome<W, S, P, I, R>>,
    n: int,
)
    requires
        smooth(request, cached, answers, outcomes, n),
    ensures
        request_course(request, cached, outcomes.take(n)).cached == cached_through(
            kept(request, cached),
            outcomes.take(n),
        ),
{
    lemma_smooth_request(request, cached, answers, outcomes.take(n), n);
    assert(outcomes.take(n).take(n) =~= outcomes.take(n));
    assert(outcomes.take(n).skip(n) =~= Seq::empty());
}

proof fn lemma_opened_or_kept<W, D, F, S, P, I, R>(
    request: WriterRequest<D, F>,
    cached: Option<W>,
    answers: Answers<S, P, I, R>,
    outcomes: Seq<Outcome<W, S, P, I, R>>,
    n: int,
)
    requires
        smooth(request, cached, answers, outcomes, n),
    ensures
        cached_through(kept(request, cached), outcomes.take(n)) == {
            let ops = request.all_ops(cached, answers);
            if n >= 1 && ops[0] is OpenWriter {
                Some(outcomes[0]->Opened_0)
            } else if n >= 2 && ops[1] is OpenWriter {
                Some(outcomes[1]->Opened_0)
            } else if n >= 1 && request is Commit && !answers.present {
                None
            } else {
                kept(request, cached)
            }
        },
    decreases n,
{
    if n > 0 {
        let ops = request.all_ops(cached, answers);
        assert(smooth(request, cached, answers, outcomes, n - 1));
        lemma_opened_or_kept(request, cached, answers, outcomes, n - 1);
        assert(outcomes.take(n).drop_last() =~= outcomes.take(n - 1));
        assert(outcomes.take(n).last() == outcomes[n - 1]);
        assert(ops[n - 1].step().admits(outcomes[n - 1]));
        if n >= 2 {
            assert(ops[1].step().admits(outcomes[1]));
        }
        assert(ops[0].step().admits(outcomes[0]));
    } else {
        assert(outcomes.take(0) =~= Seq::empty());
    }
}

/// No operation reaches for an index writer that is not there: whenever one goes through the
/// writer, a writer is cached by then.
pub proof fn law_writer_is_there<W, D, F, S, P, I, R>(
    request: WriterRequest<D, F>,
    cached: Option<W>,
    answers: Answers<S, P, I, R>,
    outcomes: Seq<Outcome<W, S, P, I, R>>,
    n: int,
)
    requires
        smooth(request, cached, answers, outcomes, n),
        n < request.all_ops(cached, answers).len(),
        request.all_ops(cached, answers)[n].needs_writer(),
    ensures
        request_course(request, cached, outcomes.take(n)).cached is Some,
{
    lemma_cached_after(request, cached, answers, outcomes, n);
    lemma_opened_or_kept(request, cached, answers, outcomes, n);
}

/// A writer is opened only where none is cached, at most once for a request, and never to abort.
pub proof fn law_writer_is_opened_once<W, D, F, S, P, I, R>(
    request: WriterRequest<D, F>,
    cached: Option<W>,
    answers: Answers<S, P, I, R>,
    n: int,
)
    requires
        0 <= n < request.all_ops(cached, answers).len(),
        request.all_ops(cached, answers)[n] is OpenWriter,
    ensures
        cached is None,
        !(request is Abort),
        forall|m: int|
            0 <= m < request.all_ops(cached, answers).len() && m != n ==> !((
            #[trigger] request.all_ops(cached, answers)[m]) is OpenWriter),
{
}

/// What a request that runs through leaves cached. Dropping an index, creating one and committing
/// to one that does not exist leave no writer; every other request keeps the writer that was
/// cached; and where none was, inserting, deleting, committing and vacuuming leave the very one
/// that they have opened, so that the next request need not open it.
pub proof fn law_writer_stays_cached<W, D, F, S, P, I, R>(
    request: WriterRequest<D, F>,
    cached: Option<W>,
    answers: Answers<S, P, I, R>,
    outcomes: Seq<Outcome<W, S, P, I, R>>,
)
    requires
        outcomes.len() == request.all_ops(cached, answers).len(),
        smooth(request, cached, answers, outcomes, outcomes.len() as int),
    ensures
        ({
            let after = request_course(request, cached, outcomes).cached;
            if request is DropIndex || request is CreateIndex || (request is Commit
                && !answers.present) {
                after is None
            } else if request is Abort || cached is Some {
                after == cached
            } else {
                // A commit first asks for the directory.
                let opening: int = if request is Commit {
                    1
                } else {
                    0
                };
                &&& opening < outcomes.len()
                &&& request.all_ops(cached, answers)[opening] is OpenWriter
                &&& outcomes[opening] matches Outcome::Opened(writer) && after == Some(writer)
            }
        }),
{
    let n = outcomes.len() as int;
    assert(outcomes.take(n) =~= outcomes);
    lemma_cached_after(request, cached, answers, outcomes, n);
    lemma_opened_or_kept(request, cached, answers, outcomes, n);
}

/// A commit and an abort that succeed and whose answer reaches the client end the server's
/// transaction; any other request leaves it open.
pub proof fn law_commit_and_abort_end_the_transaction<W, D, F, S, P, I, R, T>(
    request: WriterRequest<D, F>,
    cached: Option<W>,
    answers: Answers<S, P, I, R>,
    outcomes: Seq<Outcome<W, S, P, I, R>>,
    exchange: Outcomes,
)
    requires
        smooth(
            request,
            cached,
            answers,
            outcomes,
            request.all_ops(cached, answers).len() as int,
        ),
        exchange.delivered,
        exchange.handled matches Ok(state) && request_course(request, cached, outcomes).verdict
            == Some(Ok::<_, WriterError>(state)),
    ensures
        crate::request::due_fate::<WriterRequest<D, F>, T>(
            Ok(ServerRequest::Request(request)),
            exchange,
        ) == if request is Commit || request is Abort {
            Fate::Over
        } else {
            Fate::Open
        },
{
    law_request_runs_through(request, cached, answers, outcomes);
}

/// What a request that fails leaves cached: the writer that was cached stays, as does one that the
/// request had opened by then; but to drop an index or to create one gives the writer up before
/// anything else, and so does a commit once it has found no directory.
pub proof fn law_failures_keep_the_writer<W, D, F, S, P, I, R>(
    request: WriterRequest<D, F>,
    cached: Option<W>,
    answers: Answers<S, P, I, R>,
    outcomes: Seq<Outcome<W, S, P, I, R>>,
    n: int,
    text: String,
)
    requires
        smooth(request, cached, answers, outcomes, n),
        n < request.all_ops(cached, answers).len(),
        n < outcomes.len(),
        outcomes[n] == Outcome::<W, S, P, I, R>::Failed(text),
    ensures
        ({
            let after = request_course(request, cached, outcomes).cached;
            let opening: int = if request is Commit {
                1
            } else {
                0
            };
            if request is DropIndex || request is CreateIndex || (request is Commit && n > 0
                && !answers.present) {
                after is None
            } else if cached is Some {
                after == cached
            } else if request is Abort || n <= opening {
                after is None
            } else {
                outcomes[opening] matches Outcome::Opened(writer) && after == Some(writer)
            }
        }),
{
    lemma_smooth_request(request, cached, answers, outcomes, n);
    lemma_opened_or_kept(request, cached, answers, outcomes, n);
    reveal_with_fuel(course, 2);
    let ops = request.all_ops(cached, answers);
    let job = job_after(request, cached, answers, n);
    assert(outcomes.skip(n)[0] == outcomes[n]);
    assert(job.todo[0] == ops[n]);
    if n > 0 {
        assert(ops[0].step().admits(outcomes[0]));
    }
    if n > 1 {
        assert(ops[1].step().admits(outcomes[1]));
    }
}

} // verus!
