//! How requests change an index.
//!
//! A [`Writer`] turns a request into a [`Job`]: a row of operations on the index and on the
//! directory that holds it. Whoever runs the job asks it for its next operation, performs that, and
//! reports the outcome to the writer, until the job is finished.
use crate::request::TransactionState;
use crate::term::term_from_field_u64;
use std::collections::VecDeque;
use std::sync::Arc;
use vstd::prelude::*;

verus! {

/// The directory of an index, which the object id of the index determines.
#[derive(Debug, Clone, Copy, PartialEq, Eq)]
pub struct WriterDirectory {
    pub index_oid: u32,
}

/// A request to change an index. `D` is the type of a document, `F` that of the definition of a
/// field.
#[derive(Debug, PartialEq, Eq)]
pub enum WriterRequest<D, F> {
    Insert { directory: WriterDirectory, document: D },
    Delete { directory: WriterDirectory, field: u32, ctids: Vec<u64> },
    CreateIndex {
        directory: WriterDirectory,
        fields: Vec<F>,
        uuid: String,
        key_field_index: usize,
    },
    DropIndex { directory: WriterDirectory },
    Commit { directory: WriterDirectory },
    Abort { directory: WriterDirectory },
    Vacuum { directory: WriterDirectory },
}

/// An operation on an index or on its directory. Besides those of a request, the types are `S` of
/// a schema, `P` of the place of an index's files, `I` of an index, and `R` of a reader.
#[derive(Debug, PartialEq, Eq)]
pub enum Op<D, F, S, P, I, R> {
    /// Open an index writer on the index in the directory.
    OpenWriter(WriterDirectory),
    /// Add a document through the writer.
    AddDocument(D),
    /// Delete, through the writer, the documents that hold the term with these bytes.
    DeleteTerm(Vec<u8>),
    /// Find out whether the directory exists.
    FindDirectory(WriterDirectory),
    /// Prepare a commit of what was done through the writer.
    PrepareCommit,
    /// Commit what was done through the writer.
    Commit,
    /// Undo what was done through the writer since the last commit.
    Rollback,
    /// Remove, through the writer, the files that are no longer used, and wait for that.
    CollectGarbage,
    /// Remove the directory, with all that is in it.
    RemoveDirectory(WriterDirectory),
    /// Build the schema of an index with these fields.
    BuildSchema { fields: Vec<F>, key_field_index: usize },
    /// Make sure that the directory has a place for the files of an index, and say where it is.
    MakeIndexDirectory(WriterDirectory),
    /// Create an index of this schema in this place.
    CreateIndex { schema: Arc<S>, path: P },
    /// Give the new index the tokenizers of its schema.
    RegisterTokenizers { created: I, schema: Arc<S> },
    /// Open a reader on the new index.
    OpenReader { index: Arc<I> },
    /// Save the new index in the directory, where other connections find it.
    SaveIndex {
        directory: WriterDirectory,
        uuid: String,
        schema: Arc<S>,
        index: Arc<I>,
        reader: R,
    },
}

/// The kinds of operations.
#[derive(Debug, Clone, Copy, PartialEq, Eq)]
pub enum Step {
    OpenWriter,
    AddDocument,
    DeleteTerm,
    FindDirectory,
    PrepareCommit,
    Commit,
    Rollback,
    CollectGarbage,
    RemoveDirectory,
    BuildSchema,
    MakeIndexDirectory,
    CreateIndex,
    RegisterTokenizers,
    OpenReader,
    SaveIndex,
}

/// What came of an operation. `W` is the type of an index writer.
#[derive(Debug, PartialEq, Eq)]
pub enum Outcome<W, S, P, I, R> {
    /// The operation went well.
    Done,
    /// The index writer is open.
    Opened(W),
    /// The directory exists, or it does not.
    Found(bool),
    /// The schema is built.
    Built(S),
    /// The place of the index's files is there.
    Made(P),
    /// The index is created.
    Created(I),
    /// The index has its tokenizers.
    Registered(I),
    /// The reader is open.
    Reading(R),
    /// The operation failed, with an error of this text.
    Failed(String),
}

/// Why a request failed.
#[derive(Debug, PartialEq, Eq)]
pub enum WriterError {
    /// No index writer could be opened on the directory.
    GetWriterFailed(WriterDirectory, String),
    /// The index, or the removal of its directory, gave an error.
    Index(String),
    /// A commit could not be prepared.
    PrepareCommit(String),
    /// A commit failed.
    Commit(String),
    /// The error of another part of the program.
    Other(String),
}

/// An [`Op`] with the view of its term, and with what it shares.
pub enum OpView<D, F, S, P, I, R> {
    OpenWriter(WriterDirectory),
    AddDocument(D),
    DeleteTerm(Seq<u8>),
    FindDirectory(WriterDirectory),
    PrepareCommit,
    Commit,
    Rollback,
    CollectGarbage,
    RemoveDirectory(WriterDirectory),
    BuildSchema { fields: Vec<F>, key_field_index: usize },
    MakeIndexDirectory(WriterDirectory),
    CreateIndex { schema: S, path: P },
    RegisterTokenizers { created: I, schema: S },
    OpenReader { index: I },
    SaveIndex { directory: WriterDirectory, uuid: String, schema: S, index: I, reader: R },
}

impl<D, F, S, P, I, R> View for Op<D, F, S, P, I, R> {
    type V = OpView<D, F, S, P, I, R>;

    open spec fn view(&self) -> OpView<D, F, S, P, I, R> {
        match *self {
            Op::OpenWriter(directory) => OpView::OpenWriter(directory),
            Op::AddDocument(document) => OpView::AddDocument(document),
            Op::DeleteTerm(bytes) => OpView::DeleteTerm(bytes@),
            Op::FindDirectory(directory) => OpView::FindDirectory(directory),
            Op::PrepareCommit => OpView::PrepareCommit,
            Op::Commit => OpView::Commit,
            Op::Rollback => OpView::Rollback,
            Op::CollectGarbage => OpView::CollectGarbage,
            Op::RemoveDirectory(directory) => OpView::RemoveDirectory(directory),
            Op::BuildSchema { fields, key_field_index } => OpView::BuildSchema {
                fields,
                key_field_index,
            },
            Op::MakeIndexDirectory(directory) => OpView::MakeIndexDirectory(directory),
            Op::CreateIndex { schema, path } => OpView::CreateIndex { schema: *schema, path },
            Op::RegisterTokenizers { created, schema } => OpView::RegisterTokenizers {
                created,
                schema: *schema,
            },
            Op::OpenReader { index } => OpView::OpenReader { index: *index },
            Op::SaveIndex { directory, uuid, schema, index, reader } => OpView::SaveIndex {
                directory,
                uuid,
                schema: *schema,
                index: *index,
                reader,
            },
        }
    }
}

/// The views of a row of operations.
pub open spec fn op_views<D, F, S, P, I, R>(
    ops: Seq<Op<D, F, S, P, I, R>>,
) -> Seq<OpView<D, F, S, P, I, R>> {
    ops.map_values(|op: Op<D, F, S, P, I, R>| op@)
}

impl<D, F, S, P, I, R> OpView<D, F, S, P, I, R> {
    /// The operation goes through the index writer.
    pub open spec fn needs_writer(self) -> bool {
        self is AddDocument || self is DeleteTerm || self is PrepareCommit || self is Commit
            || self is Rollback || self is CollectGarbage
    }

    /// The kind of the operation.
    pub open spec fn step(self) -> Step {
        match self {
            OpView::OpenWriter(_) => Step::OpenWriter,
            OpView::AddDocument(_) => Step::AddDocument,
            OpView::DeleteTerm(_) => Step::DeleteTerm,
            OpView::FindDirectory(_) => Step::FindDirectory,
            OpView::PrepareCommit => Step::PrepareCommit,
            OpView::Commit => Step::Commit,
            OpView::Rollback => Step::Rollback,
            OpView::CollectGarbage => Step::CollectGarbage,
            OpView::RemoveDirectory(_) => Step::RemoveDirectory,
            OpView::BuildSchema { .. } => Step::BuildSchema,
            OpView::MakeIndexDirectory(_) => Step::MakeIndexDirectory,
            OpView::CreateIndex { .. } => Step::CreateIndex,
            OpView::RegisterTokenizers { .. } => Step::RegisterTokenizers,
            OpView::OpenReader { .. } => Step::OpenReader,
            OpView::SaveIndex { .. } => Step::SaveIndex,
        }
    }
}

impl<D, F, S, P, I, R> Op<D, F, S, P, I, R> {
    /// The kind of the operation.
    pub fn step(&self) -> (r: Step)
        ensures
            r == self@.step(),
    {
        match self {
            Op::OpenWriter(_) => Step::OpenWriter,
            Op::AddDocument(_) => Step::AddDocument,
            Op::DeleteTerm(_) => Step::DeleteTerm,
            Op::FindDirectory(_) => Step::FindDirectory,
            Op::PrepareCommit => Step::PrepareCommit,
            Op::Commit => Step::Commit,
            Op::Rollback => Step::Rollback,
            Op::CollectGarbage => Step::CollectGarbage,
            Op::RemoveDirectory(_) => Step::RemoveDirectory,
            Op::BuildSchema { .. } => Step::BuildSchema,
            Op::MakeIndexDirectory(_) => Step::MakeIndexDirectory,
            Op::CreateIndex { .. } => Step::CreateIndex,
            Op::RegisterTokenizers { .. } => Step::RegisterTokenizers,
            Op::OpenReader { .. } => Step::OpenReader,
            Op::SaveIndex { .. } => Step::SaveIndex,
        }
    }
}

impl Step {
    /// The operation can fail. The others cannot, or the program stops where they do.
    pub open spec fn can_fail(self) -> bool {
        !(self is DeleteTerm || self is CreateIndex || self is RegisterTokenizers)
    }

    /// `outcome` can come of the operation.
    pub open spec fn admits<W, S, P, I, R>(self, outcome: Outcome<W, S, P, I, R>) -> bool {
        match outcome {
            Outcome::Failed(_) => self.can_fail(),
            Outcome::Opened(_) => self is OpenWriter,
            Outcome::Found(_) => self is FindDirectory,
            Outcome::Built(_) => self is BuildSchema,
            Outcome::Made(_) => self is MakeIndexDirectory,
            Outcome::Created(_) => self is CreateIndex,
            Outcome::Registered(_) => self is RegisterTokenizers,
            Outcome::Reading(_) => self is OpenReader,
            Outcome::Done => !(self is OpenWriter || self is FindDirectory || self.makes_part()),
        }
    }

    /// The operation makes a part of a new index.
    pub open spec fn makes_part(self) -> bool {
        self is BuildSchema || self is MakeIndexDirectory || self is CreateIndex
            || self is RegisterTokenizers || self is OpenReader
    }

    /// The error of a request that fails at this operation.
    pub open spec fn failure(self, directory: WriterDirectory, text: String) -> WriterError {
        match self {
            Step::OpenWriter => WriterError::GetWriterFailed(directory, text),
            Step::AddDocument => WriterError::Index(text),
            Step::Rollback => WriterError::Index(text),
            Step::CollectGarbage => WriterError::Index(text),
            Step::RemoveDirectory => WriterError::Index(text),
            Step::PrepareCommit => WriterError::PrepareCommit(text),
            Step::Commit => WriterError::Commit(text),
            _ => WriterError::Other(text),
        }
    }

    /// The error of a request that fails at this operation.
    fn fail(self, directory: WriterDirectory, text: String) -> (r: WriterError)
        ensures
            r == self.failure(directory, text),
    {
        match self {
            Step::OpenWriter => WriterError::GetWriterFailed(directory, text),
            Step::AddDocument => WriterError::Index(text),
            Step::Rollback => WriterError::Index(text),
            Step::CollectGarbage => WriterError::Index(text),
            Step::RemoveDirectory => WriterError::Index(text),
            Step::PrepareCommit => WriterError::PrepareCommit(text),
            Step::Commit => WriterError::Commit(text),
            _ => WriterError::Other(text),
        }
    }
}

impl Clone for WriterError {
    fn clone(&self) -> (r: Self)
        ensures
            r == *self,
    {
        match self {
            WriterError::GetWriterFailed(directory, text) => WriterError::GetWriterFailed(
                *directory,
                text.clone(),
            ),
            WriterError::Index(text) => WriterError::Index(text.clone()),
            WriterError::PrepareCommit(text) => WriterError::PrepareCommit(text.clone()),
            WriterError::Commit(text) => WriterError::Commit(text.clone()),
            WriterError::Other(text) => WriterError::Other(text.clone()),
        }
    }
}

impl WriterError {
    /// What a failed commit is reported as, in place of the text of its cause.
    pub fn context(&self) -> (r: Option<&'static str>)
        ensures
            match self {
                WriterError::PrepareCommit(_) => r matches Some(text) && text@
                    == "error preparing commit to tantivy index"@,
                WriterError::Commit(_) => r matches Some(text) && text@
                    == "error committing to tantivy index"@,
                _ => r is None,
            },
    {
        match self {
            WriterError::PrepareCommit(_) => Some("error preparing commit to tantivy index"),
            WriterError::Commit(_) => Some("error committing to tantivy index"),
            _ => None,
        }
    }
}

/// What it takes to have a writer: nothing if one is cached, or else to open one.
pub open spec fn get_writer_ops<W, D, F, S, P, I, R>(
    cached: Option<W>,
    directory: WriterDirectory,
) -> Seq<OpView<D, F, S, P, I, R>> {
    match cached {
        Some(_) => Seq::empty(),
        None => seq![OpView::OpenWriter(directory)],
    }
}

/// What it takes to insert a document.
pub open spec fn insert_ops<W, D, F, S, P, I, R>(
    cached: Option<W>,
    directory: WriterDirectory,
    document: D,
) -> Seq<OpView<D, F, S, P, I, R>> {
    get_writer_ops(cached, directory).push(OpView::AddDocument(document))
}

/// What it takes to delete the documents whose `field` holds one of `ctids`: one deletion for each
/// of them, in order.
pub open spec fn delete_ops<W, D, F, S, P, I, R>(
    cached: Option<W>,
    directory: WriterDirectory,
    field: u32,
    ctids: Seq<u64>,
) -> Seq<OpView<D, F, S, P, I, R>> {
    get_writer_ops(cached, directory) + ctids.map_values(
        |ctid: u64| OpView::DeleteTerm(crate::term::term_bytes(field, ctid)),
    )
}

/// What it takes to commit: first of all, to find out whether there is an index at all.
pub open spec fn commit_ops<D, F, S, P, I, R>(
    directory: WriterDirectory,
) -> Seq<OpView<D, F, S, P, I, R>> {
    seq![OpView::FindDirectory(directory)]
}

/// What it takes to commit once that is known. If the directory does not exist, then the index
/// does not exist anymore, and it is dropped to free the space.
pub open spec fn commit_found_ops<W, D, F, S, P, I, R>(
    cached: Option<W>,
    directory: WriterDirectory,
    present: bool,
) -> Seq<OpView<D, F, S, P, I, R>> {
    if present {
        get_writer_ops(cached, directory).push(OpView::PrepareCommit).push(OpView::Commit)
    } else {
        drop_index_ops(directory)
    }
}

/// What it takes to abort: to roll back the cached writer, if there is one.
pub open spec fn abort_ops<W, D, F, S, P, I, R>(
    cached: Option<W>,
) -> Seq<OpView<D, F, S, P, I, R>> {
    match cached {
        Some(_) => seq![OpView::Rollback],
        None => Seq::empty(),
    }
}

/// What it takes to vacuum an index.
pub open spec fn vacuum_ops<W, D, F, S, P, I, R>(
    cached: Option<W>,
    directory: WriterDirectory,
) -> Seq<OpView<D, F, S, P, I, R>> {
    get_writer_ops(cached, directory).push(OpView::CollectGarbage)
}

/// What it takes to drop an index, once no writer is cached.
pub open spec fn drop_index_ops<D, F, S, P, I, R>(
    directory: WriterDirectory,
) -> Seq<OpView<D, F, S, P, I, R>> {
    seq![OpView::RemoveDirectory(directory)]
}

/// What the operations of a request are answered: whether the directory of a commit exists; and,
/// of an index that is created, its schema, the place of its files, the index as it was created and
/// as it was given its tokenizers, and its reader.
pub struct Answers<S, P, I, R> {
    pub present: bool,
    pub schema: S,
    pub path: P,
    pub created: I,
    pub index: I,
    pub reader: R,
}

impl<S, P, I, R> Answers<S, P, I, R> {
    /// `outcome` is one of these answers, or none at all.
    pub open spec fn agrees<W>(self, outcome: Outcome<W, S, P, I, R>) -> bool {
        match outcome {
            Outcome::Found(present) => present == self.present,
            Outcome::Built(schema) => schema == self.schema,
            Outcome::Made(path) => path == self.path,
            Outcome::Created(index) => index == self.created,
            Outcome::Registered(index) => index == self.index,
            Outcome::Reading(reader) => reader == self.reader,
            _ => true,
        }
    }
}

/// What it takes to begin to create an index where there is none.
pub open spec fn create_index_start<D, F, S, P, I, R>(
    fields: Vec<F>,
    key_field_index: usize,
) -> Seq<OpView<D, F, S, P, I, R>> {
    seq![OpView::BuildSchema { fields, key_field_index }]
}

/// What it takes to create an index where there is none. The index is created with the schema that
/// was built, in the place that was made for it; it gets the tokenizers of that schema, and then a
/// reader; and all of these are what is saved.
pub open spec fn create_index_ops<D, F, S, P, I, R>(
    directory: WriterDirectory,
    fields: Vec<F>,
    uuid: String,
    key_field_index: usize,
    answers: Answers<S, P, I, R>,
) -> Seq<OpView<D, F, S, P, I, R>> {
    seq![
        OpView::BuildSchema { fields, key_field_index },
        OpView::MakeIndexDirectory(directory),
        OpView::CreateIndex { schema: answers.schema, path: answers.path },
        OpView::RegisterTokenizers { created: answers.created, schema: answers.schema },
        OpView::OpenReader { index: answers.index },
        OpView::SaveIndex {
            directory,
            uuid,
            schema: answers.schema,
            index: answers.index,
            reader: answers.reader,
        },
    ]
}

impl<D, F> WriterRequest<D, F> {
    /// The directory of the index that the request changes.
    pub open spec fn directory(self) -> WriterDirectory {
        match self {
            WriterRequest::Insert { directory, .. } => directory,
            WriterRequest::Delete { directory, .. } => directory,
            WriterRequest::CreateIndex { directory, .. } => directory,
            WriterRequest::DropIndex { directory } => directory,
            WriterRequest::Commit { directory } => directory,
            WriterRequest::Abort { directory } => directory,
            WriterRequest::Vacuum { directory } => directory,
        }
    }

    /// The request gives up the cached writer before anything else.
    pub open spec fn drops_writer(self) -> bool {
        self is DropIndex || self is CreateIndex
    }

    /// All the operations of a request whose operations are answered with `answers`.
    pub open spec fn all_ops<W, S, P, I, R>(
        self,
        cached: Option<W>,
        answers: Answers<S, P, I, R>,
    ) -> Seq<OpView<D, F, S, P, I, R>> {
        match self {
            WriterRequest::Commit { directory } => commit_ops(directory) + commit_found_ops(
                cached,
                directory,
                answers.present,
            ),
            WriterRequest::CreateIndex { directory, fields, uuid, key_field_index } =>
                drop_index_ops(directory) + create_index_ops(
                    directory,
                    fields,
                    uuid,
                    key_field_index,
                    answers,
                ),
            _ => self.first_ops(cached),
        }
    }

    /// What a request that succeeds makes of its transaction: a commit and an abort complete it.
    pub open spec fn ending(self) -> TransactionState {
        if self is Commit || self is Abort {
            TransactionState::Complete
        } else {
            TransactionState::Continue
        }
    }

    /// What the creation of an index that a request asks for begins with.
    pub open spec fn first_creation<S, I>(self) -> Option<CreationView<S, I>> {
        match self {
            WriterRequest::CreateIndex { directory, uuid, .. } => Some(
                CreationView::Schema { directory, uuid },
            ),
            _ => None,
        }
    }

    /// The operations that a request begins with. They are all of it, but for a commit and for the
    /// creation of an index.
    pub open spec fn first_ops<W, S, P, I, R>(self, cached: Option<W>) -> Seq<
        OpView<D, F, S, P, I, R>,
    > {
        match self {
            WriterRequest::Insert { directory, document } => insert_ops(
                cached,
                directory,
                document,
            ),
            WriterRequest::Delete { directory, field, ctids } => delete_ops(
                cached,
                directory,
                field,
                ctids@,
            ),
            WriterRequest::CreateIndex { directory, fields, key_field_index, .. } =>
                drop_index_ops(directory) + create_index_start(fields, key_field_index),
            WriterRequest::DropIndex { directory } => drop_index_ops(directory),
            WriterRequest::Commit { directory } => commit_ops(directory),
            WriterRequest::Abort { directory } => abort_ops(cached),
            WriterRequest::Vacuum { directory } => vacuum_ops(cached, directory),
        }
    }
}

/// The creation of an index: the part of the index that is made next, and what was made before
/// it and is needed later.
#[derive(Debug, PartialEq, Eq)]
pub enum Creation<S, I> {
    Schema { directory: WriterDirectory, uuid: String },
    Path { directory: WriterDirectory, uuid: String, schema: Arc<S> },
    Index { directory: WriterDirectory, uuid: String, schema: Arc<S> },
    Tokenizers { directory: WriterDirectory, uuid: String, schema: Arc<S> },
    Reader { directory: WriterDirectory, uuid: String, schema: Arc<S>, index: Arc<I> },
}

/// A [`Creation`] with what it shares.
pub enum CreationView<S, I> {
    Schema { directory: WriterDirectory, uuid: String },
    Path { directory: WriterDirectory, uuid: String, schema: S },
    Index { directory: WriterDirectory, uuid: String, schema: S },
    Tokenizers { directory: WriterDirectory, uuid: String, schema: S },
    Reader { directory: WriterDirectory, uuid: String, schema: S, index: I },
}

impl<S, I> View for Creation<S, I> {
    type V = CreationView<S, I>;

    open spec fn view(&self) -> CreationView<S, I> {
        match *self {
            Creation::Schema { directory, uuid } => CreationView::Schema { directory, uuid },
            Creation::Path { directory, uuid, schema } => CreationView::Path {
                directory,
                uuid,
                schema: *schema,
            },
            Creation::Index { directory, uuid, schema } => CreationView::Index {
                directory,
                uuid,
                schema: *schema,
            },
            Creation::Tokenizers { directory, uuid, schema } => CreationView::Tokenizers {
                directory,
                uuid,
                schema: *schema,
            },
            Creation::Reader { directory, uuid, schema, index } => CreationView::Reader {
                directory,
                uuid,
                schema: *schema,
                index: *index,
            },
        }
    }
}

/// The view of a creation, if there is one.
pub open spec fn creation_view<S, I>(creation: Option<Creation<S, I>>) -> Option<
    CreationView<S, I>,
> {
    match creation {
        Some(creation) => Some(creation@),
        None => None,
    }
}

impl<S, I> CreationView<S, I> {
    /// The operation that makes the part that comes next.
    pub open spec fn awaited(self) -> Step {
        match self {
            CreationView::Schema { .. } => Step::BuildSchema,
            CreationView::Path { .. } => Step::MakeIndexDirectory,
            CreationView::Index { .. } => Step::CreateIndex,
            CreationView::Tokenizers { .. } => Step::RegisterTokenizers,
            CreationView::Reader { .. } => Step::OpenReader,
        }
    }

    /// The operation that comes after the one that was awaited and came out as `outcome`, and the
    /// creation from there on. Nothing is awaited of the last operation, which saves the index.
    pub open spec fn advanced<W, D, F, P, R>(
        self,
        outcome: Outcome<W, S, P, I, R>,
    ) -> (OpView<D, F, S, P, I, R>, Option<CreationView<S, I>>) {
        match self {
            CreationView::Schema { directory, uuid } => (
                OpView::MakeIndexDirectory(directory),
                Some(CreationView::Path { directory, uuid, schema: outcome->Built_0 }),
            ),
            CreationView::Path { directory, uuid, schema } => (
                OpView::CreateIndex { schema, path: outcome->Made_0 },
                Some(CreationView::Index { directory, uuid, schema }),
            ),
            CreationView::Index { directory, uuid, schema } => (
                OpView::RegisterTokenizers { created: outcome->Created_0, schema },
                Some(CreationView::Tokenizers { directory, uuid, schema }),
            ),
            CreationView::Tokenizers { directory, uuid, schema } => (
                OpView::OpenReader { index: outcome->Registered_0 },
                Some(
                    CreationView::Reader {
                        directory,
                        uuid,
                        schema,
                        index: outcome->Registered_0,
                    },
                ),
            ),
            CreationView::Reader { directory, uuid, schema, index } => (
                OpView::SaveIndex { directory, uuid, schema, index, reader: outcome->Reading_0 },
                None,
            ),
        }
    }
}

impl<S, I> Creation<S, I> {
    /// The part that comes next is made: what to do then, and how the creation goes on.
    pub fn advance<W, D, F, P, R>(
        self,
        outcome: Outcome<W, S, P, I, R>,
    ) -> (r: (Op<D, F, S, P, I, R>, Option<Self>))
        requires
            self@.awaited().admits(outcome),
            !(outcome is Failed),
        ensures
            (r.0@, creation_view(r.1)) == self@.advanced::<W, D, F, P, R>(outcome),
    {
        match (self, outcome) {
            (Creation::Schema { directory, uuid }, Outcome::Built(schema)) => (
                Op::MakeIndexDirectory(directory),
                Some(Creation::Path { directory, uuid, schema: Arc::new(schema) }),
            ),
            (Creation::Path { directory, uuid, schema }, Outcome::Made(path)) => (
                Op::CreateIndex { schema: schema.clone(), path },
                Some(Creation::Index { directory, uuid, schema }),
            ),
            (Creation::Index { directory, uuid, schema }, Outcome::Created(index)) => (
                Op::RegisterTokenizers { created: index, schema: schema.clone() },
                Some(Creation::Tokenizers { directory, uuid, schema }),
            ),
            (Creation::Tokenizers { directory, uuid, schema }, Outcome::Registered(index)) => {
                let index = Arc::new(index);
                (
                    Op::OpenReader { index: index.clone() },
                    Some(Creation::Reader { directory, uuid, schema, index }),
                )
            },
            (Creation::Reader { directory, uuid, schema, index }, Outcome::Reading(reader)) => (
                Op::SaveIndex { directory, uuid, schema, index, reader },
                None,
            ),
            _ => vstd::pervasive::unreached(),
        }
    }
}

/// The operations that deal with a request, as far as they have been worked out.
pub struct Job<D, F, S, P, I, R> {
    directory: WriterDirectory,
    todo: VecDeque<Op<D, F, S, P, I, R>>,
    creation: Option<Creation<S, I>>,
    doing: Option<Step>,
    failure: Option<WriterError>,
    ending: TransactionState,
}

/// A job: its directory, the operations that are still to be asked for, the index that is being
/// created, the operation that is being performed, the error that has ended the job, and the state
/// in which it leaves the transaction if none does.
#[verifier::ext_equal]
pub struct JobView<D, F, S, P, I, R> {
    pub directory: WriterDirectory,
    pub todo: Seq<OpView<D, F, S, P, I, R>>,
    pub creation: Option<CreationView<S, I>>,
    pub doing: Option<Step>,
    pub failure: Option<WriterError>,
    pub ending: TransactionState,
}

impl<D, F, S, P, I, R> View for Job<D, F, S, P, I, R> {
    type V = JobView<D, F, S, P, I, R>;

    closed spec fn view(&self) -> JobView<D, F, S, P, I, R> {
        JobView {
            directory: self.directory,
            todo: op_views(self.todo@),
            creation: creation_view(self.creation),
            doing: self.doing,
            failure: self.failure,
            ending: self.ending,
        }
    }
}

impl<D, F, S, P, I, R> JobView<D, F, S, P, I, R> {
    /// The job of a request to a writer that has `cached` open.
    pub open spec fn starting<W>(request: WriterRequest<D, F>, cached: Option<W>) -> Self {
        JobView {
            directory: request.directory(),
            todo: request.first_ops(cached),
            creation: request.first_creation(),
            doing: None,
            failure: None,
            ending: request.ending(),
        }
    }

    /// An operation that makes a part of a new index is the last one of the job that is worked
    /// out, and its part is the one that the creation awaits.
    pub open spec fn coherent(self) -> bool {
        &&& forall|i: int|
            0 <= i < self.todo.len() && (#[trigger] self.todo[i]).step().makes_part() ==> {
                &&& i == self.todo.len() - 1
                &&& self.creation matches Some(creation) && creation.awaited()
                    == self.todo[i].step()
            }
        &&& (self.doing matches Some(step) && step.makes_part()) ==> {
            &&& self.todo.len() == 0
            &&& self.creation matches Some(creation) && creation.awaited() == self.doing->0
        }
    }

    /// The job once its next operation has been asked for.
    pub open spec fn asked(self) -> Self {
        JobView { todo: self.todo.drop_first(), doing: Some(self.todo[0].step()), ..self }
    }

    /// How the job ends, with no operation left.
    pub open spec fn verdict(self) -> Result<TransactionState, WriterError> {
        match self.failure {
            Some(error) => Err(error),
            None => Ok(self.ending),
        }
    }

    /// The job and the cached writer after the operation that is being performed came out as
    /// `outcome`. A failure leaves nothing to do. A commit goes on as the directory that it asks
    /// for exists or not; if it does not, the cached writer is given up. The creation of an index
    /// goes on with the part that was made.
    pub open spec fn reported<W>(self, cached: Option<W>, outcome: Outcome<W, S, P, I, R>) -> (
        Self,
        Option<W>,
    ) {
        let settled = JobView { doing: None, ..self };
        match outcome {
            Outcome::Done => (settled, cached),
            Outcome::Opened(writer) => (settled, Some(writer)),
            Outcome::Found(present) => (
                JobView { todo: commit_found_ops(cached, self.directory, present), ..settled },
                if present {
                    cached
                } else {
                    None
                },
            ),
            Outcome::Failed(text) => (
                JobView {
                    todo: Seq::empty(),
                    creation: None,
                    failure: Some(self.doing->0.failure(self.directory, text)),
                    ..settled
                },
                cached,
            ),
            _ => {
                let (op, creation) = self.creation->0.advanced(outcome);
                (JobView { todo: seq![op], creation, ..settled }, cached)
            },
        }
    }
}

/// What has to be done next about a job.
#[derive(Debug, PartialEq, Eq)]
pub enum Progress<D, F, S, P, I, R> {
    /// Perform the operation, then report its outcome with [`Writer::report`].
    Perform(Op<D, F, S, P, I, R>),
    /// The request is dealt with.
    Finished(Result<TransactionState, WriterError>),
}

impl<D, F, S, P, I, R> Job<D, F, S, P, I, R> {
    /// Asks for the next operation. A job that is finished stays so, and says the same again.
    pub fn next(&mut self) -> (r: Progress<D, F, S, P, I, R>)
        requires
            old(self)@.doing is None,
        ensures
            old(self)@.coherent() ==> final(self)@.coherent(),
            match r {
                Progress::Perform(op) => {
                    &&& old(self)@.todo.len() > 0
                    &&& op@ == old(self)@.todo[0]
                    &&& final(self)@ == old(self)@.asked()
                },
                Progress::Finished(verdict) => {
                    &&& old(self)@.todo.len() == 0
                    &&& verdict == old(self)@.verdict()
                    &&& final(self)@ == old(self)@
                },
            },
    {
        match self.todo.pop_front() {
            Some(op) => {
                self.doing = Some(op.step());
                proof {
                    assert(op_views(self.todo@) =~= op_views(old(self).todo@).drop_first());
                }
                Progress::Perform(op)
            },
            None => match &self.failure {
                Some(error) => Progress::Finished(Err(error.clone())),
                None => Progress::Finished(Ok(self.ending)),
            },
        }
    }
}

/// The entity that interfaces with indexes. It keeps the index writer `W` that it has opened from
/// one request to the next.
#[derive(Debug, PartialEq, Eq)]
pub struct Writer<W> {
    tantivy_writer: Option<W>,
}

impl<W> Default for Writer<W> {
    fn default() -> (r: Self)
        ensures
            r.cached() is None,
    {
        Writer { tantivy_writer: None }
    }
}

impl<W> Writer<W> {
    /// The index writer that is open, if one is.
    pub closed spec fn cached(&self) -> Option<W> {
        self.tantivy_writer
    }

    /// The index writer that is open, if one is.
    pub fn tantivy_writer(&mut self) -> (r: Option<&mut W>)
        ensures
            match r {
                Some(writer) => old(self).cached() == Some(*writer) && final(self).cached() == Some(
                    *final(writer),
                ),
                None => old(self).cached() is None && final(self).cached() is None,
            },
    {
        self.tantivy_writer.as_mut()
    }

    /// Checks the cache for an open writer. If there is none, one has to be opened.
    pub fn get_writer<D, F, S, P, I, R>(
        &self,
        directory: WriterDirectory,
    ) -> (r: VecDeque<Op<D, F, S, P, I, R>>)
        ensures
            op_views(r@) == get_writer_ops::<W, D, F, S, P, I, R>(self.cached(), directory),
    {
        let mut ops: VecDeque<Op<D, F, S, P, I, R>> = VecDeque::new();
        if self.tantivy_writer.is_none() {
            ops.push_back(Op::OpenWriter(directory));
        }
        ops
    }

    /// Inserts a document.
    pub fn insert<D, F, S, P, I, R>(
        &self,
        directory: WriterDirectory,
        document: D,
    ) -> (r: VecDeque<Op<D, F, S, P, I, R>>)
        ensures
            op_views(r@) == insert_ops::<W, D, F, S, P, I, R>(self.cached(), directory, document),
    {
        let mut ops = self.get_writer(directory);
        ops.push_back(Op::AddDocument(document));
        ops
    }

    /// Deletes the documents whose `ctid_field` holds one of `ctid_values`.
    pub fn delete<D, F, S, P, I, R>(
        &self,
        directory: WriterDirectory,
        ctid_field: u32,
        ctid_values: &Vec<u64>,
    ) -> (r: VecDeque<Op<D, F, S, P, I, R>>)
        ensures
            op_views(r@) == delete_ops::<W, D, F, S, P, I, R>(
                self.cached(),
                directory,
                ctid_field,
                ctid_values@,
            ),
    {
        let mut ops = self.get_writer(directory);
        let mut i: usize = 0;
        while i < ctid_values.len()
            invariant
                i <= ctid_values.len(),
                op_views(ops@) == delete_ops::<W, D, F, S, P, I, R>(
                    self.cached(),
                    directory,
                    ctid_field,
                    ctid_values@.take(i as int),
                ),
            decreases ctid_values.len() - i,
        {
            let bytes = term_from_field_u64(ctid_field, ctid_values[i]);
            let ghost before = ops@;
            ops.push_back(Op::DeleteTerm(bytes));
            i = i + 1;
            proof {
                let deletion = OpView::<D, F, S, P, I, R>::DeleteTerm(
                    crate::term::term_bytes(ctid_field, ctid_values@[i - 1]),
                );
                assert(op_views(ops@) =~= op_views(before).push(deletion));
                assert(ctid_values@.take(i as int) =~= ctid_values@.take(i - 1).push(
                    ctid_values@[i - 1],
                ));
            }
        }
        assert(ctid_values@.take(i as int) =~= ctid_values@);
        ops
    }

    /// Begins to commit.
    pub fn commit<D, F, S, P, I, R>(
        &self,
        directory: WriterDirectory,
    ) -> (r: VecDeque<Op<D, F, S, P, I, R>>)
        ensures
            op_views(r@) == commit_ops::<D, F, S, P, I, R>(directory),
    {
        let mut ops: VecDeque<Op<D, F, S, P, I, R>> = VecDeque::new();
        ops.push_back(Op::FindDirectory(directory));
        ops
    }

    /// Goes on to commit, given whether the directory exists.
    pub fn commit_found<D, F, S, P, I, R>(
        &mut self,
        directory: WriterDirectory,
        present: bool,
    ) -> (r: VecDeque<Op<D, F, S, P, I, R>>)
        ensures
            op_views(r@) == commit_found_ops::<W, D, F, S, P, I, R>(
                old(self).cached(),
                directory,
                present,
            ),
            final(self).cached() == if present {
                old(self).cached()
            } else {
                None
            },
    {
        if present {
            let mut ops = self.get_writer(directory);
            ops.push_back(Op::PrepareCommit);
            ops.push_back(Op::Commit);
            ops
        } else {
            // If the directory doesn't exist, then the index doesn't exist anymore. Rare, but
            // possible if a previous delete failed. Drop it to free the space.
            self.drop_index(directory)
        }
    }

    /// Rolls the writer back to the last commit. Otherwise, partially written data could stick
    /// around for the next transaction.
    pub fn abort<D, F, S, P, I, R>(&self) -> (r: VecDeque<Op<D, F, S, P, I, R>>)
        ensures
            op_views(r@) == abort_ops::<W, D, F, S, P, I, R>(self.cached()),
    {
        let mut ops: VecDeque<Op<D, F, S, P, I, R>> = VecDeque::new();
        if self.tantivy_writer.is_some() {
            ops.push_back(Op::Rollback);
        }
        ops
    }

    /// Removes the files that an index no longer uses.
    pub fn vacuum<D, F, S, P, I, R>(
        &self,
        directory: WriterDirectory,
    ) -> (r: VecDeque<Op<D, F, S, P, I, R>>)
        ensures
            op_views(r@) == vacuum_ops::<W, D, F, S, P, I, R>(self.cached(), directory),
    {
        let mut ops = self.get_writer(directory);
        ops.push_back(Op::CollectGarbage);
        ops
    }

    /// Begins to create an index where there is none.
    pub fn create_index<D, F, S, P, I, R>(
        &mut self,
        directory: WriterDirectory,
        fields: Vec<F>,
        uuid: String,
        key_field_index: usize,
    ) -> (r: (VecDeque<Op<D, F, S, P, I, R>>, Creation<S, I>))
        ensures
            op_views(r.0@) == create_index_start::<D, F, S, P, I, R>(fields, key_field_index),
            r.1@ == (CreationView::<S, I>::Schema { directory, uuid }),
            final(self).cached() == old(self).cached(),
    {
        let mut ops: VecDeque<Op<D, F, S, P, I, R>> = VecDeque::new();
        ops.push_back(Op::BuildSchema { fields, key_field_index });
        (ops, Creation::Schema { directory, uuid })
    }

    /// Closes the writer and drops the index.
    pub fn drop_index<D, F, S, P, I, R>(
        &mut self,
        directory: WriterDirectory,
    ) -> (r: VecDeque<Op<D, F, S, P, I, R>>)
        ensures
            op_views(r@) == drop_index_ops::<D, F, S, P, I, R>(directory),
            final(self).cached() is None,
    {
        self.tantivy_writer = None;
        let mut ops: VecDeque<Op<D, F, S, P, I, R>> = VecDeque::new();
        ops.push_back(Op::RemoveDirectory(directory));
        ops
    }

    /// Begins to deal with a request.
    pub fn handle<D, F, S, P, I, R>(
        &mut self,
        request: WriterRequest<D, F>,
    ) -> (r: Job<D, F, S, P, I, R>)
        ensures
            r@ == JobView::<D, F, S, P, I, R>::starting(request, old(self).cached()),
            r@.coherent(),
            final(self).cached() == if request.drops_writer() {
                None
            } else {
                old(self).cached()
            },
    {
        let mut creation: Option<Creation<S, I>> = None;
        // All requests leave the transaction open, other than a commit and an abort.
        let (directory, todo, ending) = match request {
            WriterRequest::Insert { directory, document } => (
                directory,
                self.insert(directory, document),
                TransactionState::Continue,
            ),
            WriterRequest::Delete { directory, field, ctids } => (
                directory,
                self.delete(directory, field, &ctids),
                TransactionState::Continue,
            ),
            WriterRequest::CreateIndex { directory, fields, uuid, key_field_index } => {
                // Creating an index takes a fresh directory. There can be an old one after a
                // VACUUM FULL, where the index needs to be rebuilt.
                let mut ops = self.drop_index(directory);
                let (mut first, awaited) = self.create_index(
                    directory,
                    fields,
                    uuid,
                    key_field_index,
                );
                ops.append(&mut first);
                creation = Some(awaited);
                (directory, ops, TransactionState::Continue)
            },
            WriterRequest::DropIndex { directory } => (
                directory,
                self.drop_index(directory),
                TransactionState::Continue,
            ),
            WriterRequest::Commit { directory } => (
                directory,
                self.commit(directory),
                TransactionState::Complete,
            ),
            WriterRequest::Abort { directory } => (
                directory,
                self.abort(),
                TransactionState::Complete,
            ),
            WriterRequest::Vacuum { directory } => (
                directory,
                self.vacuum(directory),
                TransactionState::Continue,
            ),
        };
        Job { directory, todo, creation, doing: None, failure: None, ending }
    }

    /// Takes note of what came of the operation that a job asked for.
    pub fn report<D, F, S, P, I, R>(
        &mut self,
        job: &mut Job<D, F, S, P, I, R>,
        outcome: Outcome<W, S, P, I, R>,
    )
        requires
            old(job)@.doing matches Some(step) && step.admits(outcome),
            old(job)@.coherent(),
        ensures
            final(job)@.coherent(),
            (final(job)@, final(self).cached()) == old(job)@.reported(old(self).cached(), outcome),
    {
        if let Some(step) = job.doing {
            job.doing = None;
            match outcome {
                Outcome::Done => {},
                Outcome::Opened(writer) => {
                    self.tantivy_writer = Some(writer);
                },
                Outcome::Found(present) => {
                    job.todo = self.commit_found(job.directory, present);
                },
                Outcome::Failed(text) => {
                    job.failure = Some(step.fail(job.directory, text));
                    job.todo = VecDeque::new();
                    job.creation = None;
                },
                part => {
                    if let Some(creation) = job.creation.take() {
                        let (op, creation) = creation.advance(part);
                        job.todo = VecDeque::new();
                        job.todo.push_back(op);
                        job.creation = creation;
                    }
                },
            }
        }
    }
}

/// An operation is viewed as what it does and what it does it with; so is each of a row of them.
pub proof fn law_operations_are_viewed_whole<D, F, S, P, I, R>(
    op: Op<D, F, S, P, I, R>,
    ops: Seq<Op<D, F, S, P, I, R>>,
)
    ensures
        match op {
            Op::OpenWriter(at) => op@ == OpView::<D, F, S, P, I, R>::OpenWriter(at),
            Op::AddDocument(document) => op@ == OpView::<D, F, S, P, I, R>::AddDocument(document),
            Op::DeleteTerm(bytes) => op@ == OpView::<D, F, S, P, I, R>::DeleteTerm(bytes@),
            Op::FindDirectory(at) => op@ == OpView::<D, F, S, P, I, R>::FindDirectory(at),
            Op::PrepareCommit => op@ is PrepareCommit,
            Op::Commit => op@ is Commit,
            Op::Rollback => op@ is Rollback,
            Op::CollectGarbage => op@ is CollectGarbage,
            Op::RemoveDirectory(at) => op@ == OpView::<D, F, S, P, I, R>::RemoveDirectory(at),
            Op::BuildSchema { fields, key_field_index } => op@ matches OpView::BuildSchema {
                fields: viewed,
                key_field_index: at,
            } && viewed == fields && at == key_field_index,
            Op::MakeIndexDirectory(at) => op@ == OpView::<D, F, S, P, I, R>::MakeIndexDirectory(at),
            Op::CreateIndex { schema, path } => op@ matches OpView::CreateIndex {
                schema: s,
                path: p,
            } && s == *schema && p == path,
            Op::RegisterTokenizers { created, schema } => op@ matches OpView::RegisterTokenizers {
                created: i,
                schema: s,
            } && i == created && s == *schema,
            Op::OpenReader { index } => op@ matches OpView::OpenReader { index: i } && i == *index,
            Op::SaveIndex { directory, uuid, schema, index, reader } => op@ matches
                OpView::SaveIndex { directory: d, uuid: u, schema: s, index: i, reader: r } && d
                == directory && u == uuid && s == *schema && i == *index && r == reader,
        },
        op_views(ops).len() == ops.len(),
        forall|i: int| 0 <= i < ops.len() ==> #[trigger] op_views(ops)[i] == ops[i]@,
{
}

/// Every kind of operation has a step of its own name.
pub proof fn law_steps_name_operations<D, F, S, P, I, R>(op: OpView<D, F, S, P, I, R>)
    ensures
        op is OpenWriter <==> op.step() is OpenWriter,
        op is AddDocument <==> op.step() is AddDocument,
        op is DeleteTerm <==> op.step() is DeleteTerm,
        op is FindDirectory <==> op.step() is FindDirectory,
        op is PrepareCommit <==> op.step() is PrepareCommit,
        op is Commit <==> op.step() is Commit,
        op is Rollback <==> op.step() is Rollback,
        op is CollectGarbage <==> op.step() is CollectGarbage,
        op is RemoveDirectory <==> op.step() is RemoveDirectory,
        op is BuildSchema <==> op.step() is BuildSchema,
        op is MakeIndexDirectory <==> op.step() is MakeIndexDirectory,
        op is CreateIndex <==> op.step() is CreateIndex,
        op is RegisterTokenizers <==> op.step() is RegisterTokenizers,
        op is OpenReader <==> op.step() is OpenReader,
        op is SaveIndex <==> op.step() is SaveIndex,
{
}

/// The directory of a request is the one that the request names.
pub proof fn law_requests_name_their_directory<D, F>(request: WriterRequest<D, F>)
    ensures
        request matches WriterRequest::Insert { directory, .. } ==> request.directory()
            == directory,
        request matches WriterRequest::Delete { directory, .. } ==> request.directory()
            == directory,
        request matches WriterRequest::CreateIndex { directory, .. } ==> request.directory()
            == directory,
        request matches WriterRequest::DropIndex { directory } ==> request.directory() == directory,
        request matches WriterRequest::Commit { directory } ==> request.directory() == directory,
        request matches WriterRequest::Abort { directory } ==> request.directory() == directory,
        request matches WriterRequest::Vacuum { directory } ==> request.directory() == directory,
{
}

} // verus!
