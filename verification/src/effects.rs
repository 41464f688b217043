//! What each request to change an index does when it succeeds, whatever writer is cached and
//! whatever its operations come out as.
use crate::request::TransactionState;
use crate::writer::{Answers, OpView, Outcome, WriterDirectory, WriterError, WriterRequest};
use vstd::prelude::*;

verus! {

/// The request succeeds, and each operation that it performs comes out as one that such an
/// operation can come to.
pub open spec fn succeeds<W, D, F, S, P, I, R>(
    request: WriterRequest<D, F>,
    cached: Option<W>,
    outcomes: Seq<Outcome<W, S, P, I, R>>,
) -> bool {
    let course = crate::course::request_course(request, cached, outcomes);
    &&& course.verdict matches Some(verdict) && verdict is Ok
    &&& forall|i: int|
        0 <= i < course.done.len() ==> (#[trigger] course.done[i]).step().admits(outcomes[i])
}

/// The operations that a request performs.
pub open spec fn performed<W, D, F, S, P, I, R>(
    request: WriterRequest<D, F>,
    cached: Option<W>,
    outcomes: Seq<Outcome<W, S, P, I, R>>,
) -> Seq<OpView<D, F, S, P, I, R>> {
    crate::course::request_course(request, cached, outcomes).done
}

/// What the operations of a request are answered that come out as `outcomes`.
spec fn answers_of<W, S, P, I, R>(outcomes: Seq<Outcome<W, S, P, I, R>>) -> Answers<S, P, I, R> {
    Answers {
        present: outcomes[0]->Found_0,
        schema: outcomes[1]->Built_0,
        path: outcomes[2]->Made_0,
        created: outcomes[3]->Created_0,
        index: outcomes[4]->Registered_0,
        reader: outcomes[5]->Reading_0,
    }
}

/// The first `n` operations of a request that succeeds come out well.
proof fn lemma_smooth_if_successful<W, D, F, S, P, I, R>(
    request: WriterRequest<D, F>,
    cached: Option<W>,
    outcomes: Seq<Outcome<W, S, P, I, R>>,
    n: int,
)
    requires
        succeeds(request, cached, outcomes),
        0 <= n <= request.all_ops(cached, answers_of(outcomes)).len(),
    ensures
        crate::course::smooth(request, cached, answers_of(outcomes), outcomes, n),
    decreases n,
{
    if n > 0 {
        let k = n - 1;
        let answers = answers_of(outcomes);
        let ops = request.all_ops(cached, answers);
        let done = performed(request, cached, outcomes);
        lemma_smooth_if_successful(request, cached, outcomes, k);
        crate::course::lemma_smooth_request(request, cached, answers, outcomes, k);
        let job = crate::course::job_after(request, cached, answers, k);
        assert(job.todo[0] == ops[k]);
        assert(outcomes.skip(k).len() > 0);
        assert(outcomes.skip(k)[0] == outcomes[k]);
        assert(done[k] == ops[k]);
        if let Outcome::Failed(text) = outcomes[k] {
            crate::course::law_request_stops_at_failure(
                request,
                cached,
                answers,
                outcomes,
                k,
                text,
            );
        }
    }
}

/// A request that succeeds has performed all its operations, and they have all come out well.
proof fn lemma_all_performed<W, D, F, S, P, I, R>(
    request: WriterRequest<D, F>,
    cached: Option<W>,
    outcomes: Seq<Outcome<W, S, P, I, R>>,
)
    requires
        succeeds(request, cached, outcomes),
    ensures
        performed(request, cached, outcomes) == request.all_ops(cached, answers_of(outcomes)),
        performed(request, cached, outcomes).len() <= outcomes.len(),
        forall|i: int|
            0 <= i < performed(request, cached, outcomes).len() ==> !((
            #[trigger] outcomes[i]) is Failed),
{
    let answers = answers_of(outcomes);
    let ops = request.all_ops(cached, answers);
    lemma_smooth_if_successful(request, cached, outcomes, ops.len() as int);
    crate::course::law_request_runs_through(request, cached, answers, outcomes);
    assert forall|i: int| 0 <= i < ops.len() implies !((#[trigger] outcomes[i]) is Failed) by {
        assert(ops[i].step().admits(outcomes[i]));
    }
}

/// A request whose operations all come out well succeeds.
pub proof fn law_requests_can_succeed<W, D, F, S, P, I, R>(
    request: WriterRequest<D, F>,
    cached: Option<W>,
    answers: Answers<S, P, I, R>,
    outcomes: Seq<Outcome<W, S, P, I, R>>,
)
    requires
        crate::course::smooth(
            request,
            cached,
            answers,
            outcomes,
            request.all_ops(cached, answers).len() as int,
        ),
    ensures
        succeeds(request, cached, outcomes),
{
    crate::course::law_request_runs_through(request, cached, answers, outcomes);
}

/// A request succeeds only if none of the operations that it performs fails, and what succeeds
/// ends the transaction if it is a commit or an abort, and leaves it open otherwise.
pub proof fn law_success_takes_every_operation<W, D, F, S, P, I, R>(
    request: WriterRequest<D, F>,
    cached: Option<W>,
    outcomes: Seq<Outcome<W, S, P, I, R>>,
)
    requires
        succeeds(request, cached, outcomes),
    ensures
        forall|i: int|
            0 <= i < performed(request, cached, outcomes).len() ==> !((
            #[trigger] outcomes[i]) is Failed),
        crate::course::request_course(request, cached, outcomes).verdict == Some(
            Ok::<_, WriterError>(
                if request is Commit || request is Abort {
                    TransactionState::Complete
                } else {
                    TransactionState::Continue
                },
            ),
        ),
{
    lemma_all_performed(request, cached, outcomes);
    let answers = answers_of(outcomes);
    let ops = request.all_ops(cached, answers);
    lemma_smooth_if_successful(request, cached, outcomes, ops.len() as int);
    crate::course::law_request_runs_through(request, cached, answers, outcomes);
}

/// An insertion adds its document, and no other, once; all that it may do before is to open a
/// writer on its directory, if none is cached.
pub proof fn law_insert_adds_its_document<W, D, F, S, P, I, R>(
    directory: WriterDirectory,
    document: D,
    cached: Option<W>,
    outcomes: Seq<Outcome<W, S, P, I, R>>,
)
    requires
        succeeds(WriterRequest::<D, F>::Insert { directory, document }, cached, outcomes),
    ensures
        ({
            let done = performed(
                WriterRequest::<D, F>::Insert { directory, document },
                cached,
                outcomes,
            );
            &&& done.len() > 0
            &&& done.last() == OpView::<D, F, S, P, I, R>::AddDocument(document)
            &&& cached is Some ==> done.len() == 1
            &&& cached is None ==> done.len() == 2 && done[0] == OpView::<
                D,
                F,
                S,
                P,
                I,
                R,
            >::OpenWriter(directory)
        }),
{
    lemma_all_performed(
        WriterRequest::<D, F>::Insert { directory, document },
        cached,
        outcomes,
    );
}

/// A deletion deletes by one term for each of its ctids, in their order: the term of that very
/// ctid in the given field. So the term of a value in a field is deleted exactly if the field is
/// that of the request and the value is one of its ctids. Besides, a writer is opened first if none
/// is cached, and that is all.
pub proof fn law_delete_deletes_its_ctids<W, D, F, S, P, I, R>(
    directory: WriterDirectory,
    field: u32,
    ctids: Vec<u64>,
    cached: Option<W>,
    outcomes: Seq<Outcome<W, S, P, I, R>>,
)
    requires
        succeeds(WriterRequest::<D, F>::Delete { directory, field, ctids }, cached, outcomes),
    ensures
        ({
            let done = performed(
                WriterRequest::<D, F>::Delete { directory, field, ctids },
                cached,
                outcomes,
            );
            let opened: int = if cached is None {
                1
            } else {
                0
            };
            &&& done.len() == opened + ctids@.len()
            &&& cached is None ==> done[0] == OpView::<D, F, S, P, I, R>::OpenWriter(directory)
            &&& forall|i: int|
                0 <= i < ctids@.len() ==> done[opened + i] == OpView::<
                    D,
                    F,
                    S,
                    P,
                    I,
                    R,
                >::DeleteTerm(crate::term::term_bytes(field, #[trigger] ctids@[i]))
            &&& forall|f: u32, v: u64|
                done.contains(
                    OpView::<D, F, S, P, I, R>::DeleteTerm(
                        #[trigger] crate::term::term_bytes(f, v),
                    ),
                ) <==> f == field && ctids@.contains(v)
        }),
{
    let request = WriterRequest::<D, F>::Delete { directory, field, ctids };
    lemma_all_performed(request, cached, outcomes);
    let done = performed(request, cached, outcomes);
    let opened: int = if cached is None {
        1
    } else {
        0
    };
    assert forall|i: int| 0 <= i < ctids@.len() implies done[opened + i] == OpView::<
        D,
        F,
        S,
        P,
        I,
        R,
    >::DeleteTerm(crate::term::term_bytes(field, #[trigger] ctids@[i])) by {}
    assert forall|f: u32, v: u64|
        done.contains(
            OpView::<D, F, S, P, I, R>::DeleteTerm(#[trigger] crate::term::term_bytes(f, v)),
        ) <==> f == field && ctids@.contains(v) by {
        let deletion = OpView::<D, F, S, P, I, R>::DeleteTerm(crate::term::term_bytes(f, v));
        if done.contains(deletion) {
            let n = choose|n: int| 0 <= n < done.len() && done[n] == deletion;
            let ctid = ctids@[n - opened];
            assert(done[opened + (n - opened)] == OpView::<D, F, S, P, I, R>::DeleteTerm(
                crate::term::term_bytes(field, ctid),
            ));
            crate::term::law_terms_are_distinct(f, v, field, ctid);
        }
        if f == field && ctids@.contains(v) {
            let i = choose|i: int| 0 <= i < ctids@.len() && ctids@[i] == v;
            assert(done[opened + i] == deletion);
        }
    }
}

/// A commit first asks whether its directory exists. If it does, the last two things done are to
/// prepare the commit and to commit, and a writer is opened before them if none is cached. If it
/// does not, the directory is removed and nothing is committed.
pub proof fn law_commit_commits<W, D, F, S, P, I, R>(
    directory: WriterDirectory,
    cached: Option<W>,
    outcomes: Seq<Outcome<W, S, P, I, R>>,
)
    requires
        succeeds(WriterRequest::<D, F>::Commit { directory }, cached, outcomes),
    ensures
        ({
            let done = performed(WriterRequest::<D, F>::Commit { directory }, cached, outcomes);
            let n = done.len() as int;
            &&& n > 0
            &&& done[0] == OpView::<D, F, S, P, I, R>::FindDirectory(directory)
            &&& outcomes[0] is Found
            &&& outcomes[0] == Outcome::<W, S, P, I, R>::Found(true) ==> {
                &&& n == if cached is None {
                    4int
                } else {
                    3
                }
                &&& done[n - 2] == OpView::<D, F, S, P, I, R>::PrepareCommit
                &&& done[n - 1] == OpView::<D, F, S, P, I, R>::Commit
                &&& cached is None ==> done[1] == OpView::<D, F, S, P, I, R>::OpenWriter(directory)
            }
            &&& outcomes[0] == Outcome::<W, S, P, I, R>::Found(false) ==> {
                &&& n == 2
                &&& done[1] == OpView::<D, F, S, P, I, R>::RemoveDirectory(directory)
            }
        }),
{
    let request = WriterRequest::<D, F>::Commit { directory };
    lemma_all_performed(request, cached, outcomes);
    let done = performed(request, cached, outcomes);
    assert(done[0] == OpView::<D, F, S, P, I, R>::FindDirectory(directory));
    assert(done[0].step().admits(outcomes[0]));
}

/// An abort rolls back the writer that is cached, and does nothing else; with none cached, it does
/// nothing at all.
pub proof fn law_abort_rolls_back<W, D, F, S, P, I, R>(
    directory: WriterDirectory,
    cached: Option<W>,
    outcomes: Seq<Outcome<W, S, P, I, R>>,
)
    requires
        succeeds(WriterRequest::<D, F>::Abort { directory }, cached, outcomes),
    ensures
        ({
            let done = performed(WriterRequest::<D, F>::Abort { directory }, cached, outcomes);
            &&& cached is Some ==> done.len() == 1 && done[0] == OpView::<
                D,
                F,
                S,
                P,
                I,
                R,
            >::Rollback
            &&& cached is None ==> done.len() == 0
        }),
{
    lemma_all_performed(WriterRequest::<D, F>::Abort { directory }, cached, outcomes);
}

/// A vacuum collects garbage exactly once, as the last thing that it does, whatever writer is
/// cached; all that it may do before is to open a writer on its directory, if none is.
pub proof fn law_vacuum_collects_garbage<W, D, F, S, P, I, R>(
    directory: WriterDirectory,
    cached: Option<W>,
    outcomes: Seq<Outcome<W, S, P, I, R>>,
)
    requires
        succeeds(WriterRequest::<D, F>::Vacuum { directory }, cached, outcomes),
    ensures
        ({
            let done = performed(WriterRequest::<D, F>::Vacuum { directory }, cached, outcomes);
            &&& done.len() > 0
            &&& forall|i: int|
                0 <= i < done.len() ==> ((#[trigger] done[i]) is CollectGarbage <==> i
                    == done.len() - 1)
            &&& forall|i: int|
                0 <= i < done.len() - 1 ==> cached is None && #[trigger] done[i] == OpView::<
                    D,
                    F,
                    S,
                    P,
                    I,
                    R,
                >::OpenWriter(directory)
            &&& done.len() == if cached is None {
                2int
            } else {
                1
            }
        }),
{
    lemma_all_performed(WriterRequest::<D, F>::Vacuum { directory }, cached, outcomes);
}

/// To drop an index removes its directory, and does nothing else; no writer is left cached.
pub proof fn law_drop_removes_the_directory<W, D, F, S, P, I, R>(
    directory: WriterDirectory,
    cached: Option<W>,
    outcomes: Seq<Outcome<W, S, P, I, R>>,
)
    requires
        succeeds(WriterRequest::<D, F>::DropIndex { directory }, cached, outcomes),
    ensures
        ({
            let request = WriterRequest::<D, F>::DropIndex { directory };
            let done = performed(request, cached, outcomes);
            &&& done.len() == 1
            &&& done[0] == OpView::<D, F, S, P, I, R>::RemoveDirectory(directory)
            &&& crate::course::request_course(request, cached, outcomes).cached is None
        }),
{
    let request = WriterRequest::<D, F>::DropIndex { directory };
    lemma_all_performed(request, cached, outcomes);
    let done = performed(request, cached, outcomes);
    assert(done[0].step().admits(outcomes[0]));
    reveal_with_fuel(crate::course::course, 2);
}

/// To create an index removes what was in its directory first, builds a schema of the fields and
/// the key field that it was given, and saves last, under the id that it was given: the schema that
/// was built, the index as it was given its tokenizers, and its reader. In between, the index is
/// created with that schema in the place that was made for it.
pub proof fn law_create_builds_and_saves<W, D, F, S, P, I, R>(
    directory: WriterDirectory,
    fields: Vec<F>,
    uuid: String,
    key_field_index: usize,
    cached: Option<W>,
    outcomes: Seq<Outcome<W, S, P, I, R>>,
)
    requires
        succeeds(
            WriterRequest::<D, F>::CreateIndex { directory, fields, uuid, key_field_index },
            cached,
            outcomes,
        ),
    ensures
        ({
            let done = performed(
                WriterRequest::<D, F>::CreateIndex { directory, fields, uuid, key_field_index },
                cached,
                outcomes,
            );
            &&& done.len() == 7
            &&& done[0] == OpView::<D, F, S, P, I, R>::RemoveDirectory(directory)
            &&& done[1] == (OpView::<D, F, S, P, I, R>::BuildSchema { fields, key_field_index })
            &&& done[2] == OpView::<D, F, S, P, I, R>::MakeIndexDirectory(directory)
            &&& outcomes[1] matches Outcome::Built(schema) && outcomes[2] matches Outcome::Made(
                path,
            ) && outcomes[3] matches Outcome::Created(created)
                && outcomes[4] matches Outcome::Registered(index)
                && outcomes[5] matches Outcome::Reading(reader) && {
                &&& done[3] == (OpView::<D, F, S, P, I, R>::CreateIndex { schema, path })
                &&& done[4] == (OpView::<D, F, S, P, I, R>::RegisterTokenizers { created, schema })
                &&& done[5] == (OpView::<D, F, S, P, I, R>::OpenReader { index })
                &&& done[6] == (OpView::<D, F, S, P, I, R>::SaveIndex {
                    directory,
                    uuid,
                    schema,
                    index,
                    reader,
                })
            }
        }),
{
    let request = WriterRequest::<D, F>::CreateIndex { directory, fields, uuid, key_field_index };
    lemma_all_performed(request, cached, outcomes);
    let done = performed(request, cached, outcomes);
    assert(done[1].step().admits(outcomes[1]));
    assert(done[2].step().admits(outcomes[2]));
    assert(done[3].step().admits(outcomes[3]));
    assert(done[4].step().admits(outcomes[4]));
    assert(done[5].step().admits(outcomes[5]));
}

/// The error of a request says at which operation it failed, and holds the text of what went
/// wrong; that no writer could be opened is said with the directory.
pub proof fn law_errors_name_their_operation<D, F, S, P, I, R>(
    op: OpView<D, F, S, P, I, R>,
    directory: WriterDirectory,
    text: String,
)
    ensures
        ({
            let error = op.step().failure(directory, text);
            match op {
                OpView::OpenWriter(_) => error == WriterError::GetWriterFailed(directory, text),
                OpView::PrepareCommit => error == WriterError::PrepareCommit(text),
                OpView::Commit => error == WriterError::Commit(text),
                OpView::AddDocument(_) => error == WriterError::Index(text),
                OpView::DeleteTerm(_) => error == WriterError::Other(text),
                OpView::Rollback => error == WriterError::Index(text),
                OpView::CollectGarbage => error == WriterError::Index(text),
                OpView::RemoveDirectory(_) => error == WriterError::Index(text),
                OpView::FindDirectory(_) => error == WriterError::Other(text),
                OpView::BuildSchema { .. } => error == WriterError::Other(text),
                OpView::MakeIndexDirectory(_) => error == WriterError::Other(text),
                OpView::CreateIndex { .. } => error == WriterError::Other(text),
                OpView::RegisterTokenizers { .. } => error == WriterError::Other(text),
                OpView::OpenReader { .. } => error == WriterError::Other(text),
                OpView::SaveIndex { .. } => error == WriterError::Other(text),
            }
        }),
{
}

} // verus!
