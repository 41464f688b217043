use pg_search::request::TransactionState;
use pg_search::writer::{Op, Outcome, Progress, Writer, WriterDirectory, WriterError, WriterRequest};
use std::sync::Arc;
use tantivy::schema::{Field, Schema, INDEXED, STORED, TEXT};
use tantivy::{Index, IndexWriter, TantivyDocument, Term};

const DIRECTORY: WriterDirectory = WriterDirectory { index_oid: 16384 };

type Text = &'static str;
type Request = WriterRequest<Text, Text>;

/// An operation on an index whose schema, place, self and reader are given by texts.
type Operation = Op<Text, Text, Text, Text, Text, Text>;

/// Deals with a request whose operations all go well but the one at `failing`; `present` says
/// whether the directory exists.
fn run(
    writer: &mut Writer<u32>,
    request: Request,
    present: bool,
    failing: Option<usize>,
) -> (Vec<Operation>, Result<TransactionState, WriterError>) {
    let mut job = writer.handle(request);
    let mut done = Vec::new();
    loop {
        match job.next() {
            Progress::Perform(op) => {
                let outcome = if failing == Some(done.len()) {
                    Outcome::Failed("broken".to_string())
                } else {
                    match op {
                        Op::OpenWriter(_) => Outcome::Opened(99),
                        Op::FindDirectory(_) => Outcome::Found(present),
                        Op::BuildSchema { .. } => Outcome::Built("schema"),
                        Op::MakeIndexDirectory(_) => Outcome::Made("path"),
                        Op::CreateIndex { .. } => Outcome::Created("created"),
                        Op::RegisterTokenizers { .. } => Outcome::Registered("index"),
                        Op::OpenReader { .. } => Outcome::Reading("reader"),
                        _ => Outcome::Done,
                    }
                };
                done.push(op);
                writer.report(&mut job, outcome);
            }
            Progress::Finished(verdict) => return (done, verdict),
        }
    }
}

fn insert() -> Request {
    WriterRequest::Insert { directory: DIRECTORY, document: "doc" }
}

fn commit() -> Request {
    WriterRequest::Commit { directory: DIRECTORY }
}

fn create() -> Request {
    WriterRequest::CreateIndex {
        directory: DIRECTORY,
        fields: vec!["title"],
        uuid: "uuid".to_string(),
        key_field_index: 0,
    }
}

fn opened() -> Writer<u32> {
    let mut writer = Writer::default();
    run(&mut writer, insert(), true, None).1.unwrap();
    assert_eq!(writer.tantivy_writer(), Some(&mut 99));
    writer
}

#[test]
fn writer_is_opened_once() {
    let mut writer = Writer::default();
    assert_eq!(writer.tantivy_writer(), None);
    let (ops, verdict) = run(&mut writer, insert(), true, None);
    assert_eq!(ops, [Op::OpenWriter(DIRECTORY), Op::AddDocument("doc")]);
    assert_eq!(verdict, Ok(TransactionState::Continue));
    let (ops, _) = run(&mut writer, insert(), true, None);
    assert_eq!(ops, [Op::AddDocument("doc")]);
}

#[test]
fn delete_deletes_by_one_term_for_each_ctid() {
    let mut writer = opened();
    let request = WriterRequest::Delete { directory: DIRECTORY, field: 3, ctids: vec![7, 0, u64::MAX] };
    let (ops, verdict) = run(&mut writer, request, true, None);
    let term = |ctid: u64| {
        let term = Term::from_field_u64(Field::from_field_id(3), ctid);
        Op::DeleteTerm(term.serialized_term().to_vec())
    };
    assert_eq!(ops, [term(7), term(0), term(u64::MAX)]);
    assert_eq!(
        ops[0],
        Op::DeleteTerm(vec![0, 0, 0, 3, b'u', 0, 0, 0, 0, 0, 0, 0, 7])
    );
    assert_eq!(verdict, Ok(TransactionState::Continue));
}

#[test]
fn commit_commits_to_an_index_that_exists() {
    let (ops, verdict) = run(&mut opened(), commit(), true, None);
    assert_eq!(ops, [Op::FindDirectory(DIRECTORY), Op::PrepareCommit, Op::Commit]);
    assert_eq!(verdict, Ok(TransactionState::Complete));
    let (ops, _) = run(&mut Writer::default(), commit(), true, None);
    assert_eq!(
        ops,
        [Op::FindDirectory(DIRECTORY), Op::OpenWriter(DIRECTORY), Op::PrepareCommit, Op::Commit]
    );
}

#[test]
fn commit_drops_an_index_that_is_gone() {
    let mut writer = opened();
    let (ops, verdict) = run(&mut writer, commit(), false, None);
    assert_eq!(ops, [Op::FindDirectory(DIRECTORY), Op::RemoveDirectory(DIRECTORY)]);
    assert_eq!(verdict, Ok(TransactionState::Complete));
    assert_eq!(writer.tantivy_writer(), None);
}

#[test]
fn abort_rolls_back_an_open_writer() {
    let mut writer = opened();
    let abort = || WriterRequest::Abort { directory: DIRECTORY };
    let (ops, verdict) = run(&mut writer, abort(), true, None);
    assert_eq!(ops, [Op::Rollback]);
    assert_eq!(verdict, Ok(TransactionState::Complete));
    assert_eq!(writer.tantivy_writer(), Some(&mut 99));
    let (ops, verdict) = run(&mut Writer::default(), abort(), true, None);
    assert_eq!(ops, []);
    assert_eq!(verdict, Ok(TransactionState::Complete));
}

#[test]
fn vacuum_collects_garbage() {
    let (ops, verdict) = run(&mut opened(), WriterRequest::Vacuum { directory: DIRECTORY }, true, None);
    assert_eq!(ops, [Op::CollectGarbage]);
    assert_eq!(verdict, Ok(TransactionState::Continue));
}

#[test]
fn drop_index_closes_the_writer() {
    let mut writer = opened();
    let drop = WriterRequest::DropIndex { directory: DIRECTORY };
    let (ops, verdict) = run(&mut writer, drop, true, Some(0));
    assert_eq!(ops, [Op::RemoveDirectory(DIRECTORY)]);
    assert_eq!(verdict, Err(WriterError::Index("broken".to_string())));
    assert_eq!(writer.tantivy_writer(), None);
}

#[test]
fn create_index_starts_afresh() {
    let mut writer = opened();
    let (ops, verdict) = run(&mut writer, create(), true, None);
    assert_eq!(
        ops,
        [
            Op::RemoveDirectory(DIRECTORY),
            Op::BuildSchema { fields: vec!["title"], key_field_index: 0 },
            Op::MakeIndexDirectory(DIRECTORY),
            Op::CreateIndex { schema: Arc::new("schema"), path: "path" },
            Op::RegisterTokenizers { created: "created", schema: Arc::new("schema") },
            Op::OpenReader { index: Arc::new("index") },
            Op::SaveIndex {
                directory: DIRECTORY,
                uuid: "uuid".to_string(),
                schema: Arc::new("schema"),
                index: Arc::new("index"),
                reader: "reader",
            },
        ]
    );
    assert_eq!(verdict, Ok(TransactionState::Continue));
    assert_eq!(writer.tantivy_writer(), None);
}

#[test]
fn failures_end_a_request() {
    let broken = || "broken".to_string();
    let mut closed = Writer::default();
    let (ops, verdict) = run(&mut closed, insert(), true, Some(0));
    assert_eq!(ops, [Op::OpenWriter(DIRECTORY)]);
    assert_eq!(verdict, Err(WriterError::GetWriterFailed(DIRECTORY, broken())));
    assert_eq!(closed.tantivy_writer(), None);

    let (_, verdict) = run(&mut opened(), insert(), true, Some(0));
    assert_eq!(verdict, Err(WriterError::Index(broken())));

    let (ops, verdict) = run(&mut opened(), commit(), true, Some(0));
    assert_eq!(ops, [Op::FindDirectory(DIRECTORY)]);
    let error = verdict.unwrap_err();
    assert_eq!(error, WriterError::Other(broken()));
    assert_eq!(error.context(), None);

    let (ops, verdict) = run(&mut opened(), commit(), true, Some(1));
    assert_eq!(ops, [Op::FindDirectory(DIRECTORY), Op::PrepareCommit]);
    let error = verdict.unwrap_err();
    assert_eq!(error, WriterError::PrepareCommit(broken()));
    assert_eq!(error.context(), Some("error preparing commit to tantivy index"));

    let (_, verdict) = run(&mut opened(), commit(), true, Some(2));
    let error = verdict.unwrap_err();
    assert_eq!(error, WriterError::Commit(broken()));
    assert_eq!(error.context(), Some("error committing to tantivy index"));

    for step in [1, 2, 5, 6] {
        let (ops, verdict) = run(&mut opened(), create(), true, Some(step));
        assert_eq!(ops.len(), step + 1);
        assert_eq!(verdict, Err(WriterError::Other(broken())));
    }
}

/// An index in memory that performs the operations of jobs.
struct Memory {
    index: Index,
    writer: Writer<IndexWriter>,
}

impl Memory {
    fn new(schema: Schema) -> Memory {
        Memory { index: Index::create_in_ram(schema), writer: Writer::default() }
    }

    fn handle(
        &mut self,
        request: WriterRequest<TantivyDocument, String>,
    ) -> Result<TransactionState, WriterError> {
        let mut job = self.writer.handle::<_, _, (), (), (), ()>(request);
        loop {
            let op = match job.next() {
                Progress::Perform(op) => op,
                Progress::Finished(verdict) => return verdict,
            };
            let outcome = match op {
                Op::OpenWriter(_) => {
                    Outcome::Opened(self.index.writer_with_num_threads(1, 15_000_000).unwrap())
                }
                Op::FindDirectory(_) => Outcome::Found(true),
                op => {
                    let writer = self.writer.tantivy_writer().unwrap();
                    match op {
                        Op::AddDocument(document) => {
                            writer.add_document(document).unwrap();
                        }
                        Op::DeleteTerm(bytes) => {
                            writer.delete_term(Term::wrap(bytes));
                        }
                        Op::PrepareCommit => {
                            writer.prepare_commit().unwrap();
                        }
                        Op::Commit => {
                            writer.commit().unwrap();
                        }
                        Op::Rollback => {
                            writer.rollback().unwrap();
                        }
                        Op::CollectGarbage => {
                            writer.garbage_collect_files().wait().unwrap();
                        }
                        other => panic!("{other:?}"),
                    }
                    Outcome::Done
                }
            };
            self.writer.report(&mut job, outcome);
        }
    }

    fn num_docs(&self) -> u64 {
        self.index.reader().unwrap().searcher().num_docs()
    }
}

fn simple_schema() -> (Schema, Field, Field) {
    let mut builder = Schema::builder();
    let title = builder.add_text_field("title", TEXT | STORED);
    let ctid = builder.add_u64_field("ctid", INDEXED | STORED);
    (builder.build(), title, ctid)
}

#[test]
fn test_index_commit() {
    let (schema, title, ctid) = simple_schema();
    let mut memory = Memory::new(schema);
    let mut document = TantivyDocument::new();
    document.add_text(title, "a simple document");
    document.add_u64(ctid, 1);
    let insert = WriterRequest::Insert { directory: DIRECTORY, document };
    assert_eq!(memory.handle(insert), Ok(TransactionState::Continue));
    assert_eq!(memory.num_docs(), 0);
    let commit = WriterRequest::Commit { directory: DIRECTORY };
    assert_eq!(memory.handle(commit), Ok(TransactionState::Complete));
    assert_eq!(memory.num_docs(), 1);
}

#[test]
fn deleted_and_aborted_documents_are_gone() {
    let (schema, _, ctid) = simple_schema();
    let mut memory = Memory::new(schema);
    let insert = |n: u64| {
        let mut document = TantivyDocument::new();
        document.add_u64(ctid, n);
        WriterRequest::Insert { directory: DIRECTORY, document }
    };
    for n in 0..5 {
        memory.handle(insert(n)).unwrap();
    }
    memory.handle(WriterRequest::Commit { directory: DIRECTORY }).unwrap();
    assert_eq!(memory.num_docs(), 5);

    memory.handle(insert(9)).unwrap();
    memory.handle(WriterRequest::Abort { directory: DIRECTORY }).unwrap();
    memory
        .handle(WriterRequest::Delete {
            directory: DIRECTORY,
            field: ctid.field_id(),
            ctids: vec![1, 3, 77],
        })
        .unwrap();
    memory.handle(WriterRequest::Commit { directory: DIRECTORY }).unwrap();
    assert_eq!(memory.num_docs(), 3);
    memory.handle(WriterRequest::Vacuum { directory: DIRECTORY }).unwrap();
    assert_eq!(memory.num_docs(), 3);
}

#[test]
fn terms_are_distinct() {
    let writer: Writer<u32> = Writer::default();
    let mut terms: Vec<Operation> = Vec::new();
    for field in [0, 1, 256, u32::MAX] {
        for op in writer.delete(DIRECTORY, field, &vec![0, 1, 256, u64::MAX]) {
            if op != Op::OpenWriter(DIRECTORY) {
                assert!(!terms.contains(&op), "{op:?}");
                terms.push(op);
            }
        }
    }
    assert_eq!(terms.len(), 16);
}

#[test]
fn requests_leave_the_writer_cached() {
    let mut writer: Writer<u32> = Writer::default();
    run(&mut writer, WriterRequest::Abort { directory: DIRECTORY }, true, None).1.unwrap();
    assert_eq!(writer.tantivy_writer(), None);
    run(&mut writer, commit(), true, None).1.unwrap();
    assert_eq!(writer.tantivy_writer(), Some(&mut 99));
    run(&mut writer, create(), true, None).1.unwrap();
    assert_eq!(writer.tantivy_writer(), None);
    run(&mut writer, WriterRequest::Vacuum { directory: DIRECTORY }, true, None).1.unwrap();
    assert_eq!(writer.tantivy_writer(), Some(&mut 99));
}

#[test]
fn a_finished_job_stays_finished() {
    let mut writer: Writer<u32> = Writer::default();
    let request: Request = WriterRequest::DropIndex { directory: DIRECTORY };
    let mut job = writer.handle::<_, _, (), (), (), ()>(request);
    assert_eq!(job.next(), Progress::Perform(Op::RemoveDirectory(DIRECTORY)));
    writer.report(&mut job, Outcome::Failed("broken".to_string()));
    for _ in 0..3 {
        let error = WriterError::Index("broken".to_string());
        assert_eq!(job.next(), Progress::Finished(Err(error)));
    }
}
