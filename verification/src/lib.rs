//! Full-text search for Postgres: the server through which clients change search indexes, and the
//! search state through which rows are matched.
//!
//! The modules here decide; they do no input or output. Where the work of a function alternates
//! between deciding and doing, its decisions are a row of small functions: each returns what has to
//! be done next, and the next one takes what came of it.
//!
//! - [`server`] holds the main loop and the loop of a transaction's thread; [`header`] reads the
//!   transaction off a request, [`channels`] gets the request to the transaction's thread,
//!   [`request`] deals with one request and [`transfer`] with many that come through a pipe.
//! - [`writer`] turns a request to change an index into operations on it, [`course`] states what
//!   comes of them, [`effects`] what each request does with them, and [`term`] builds the terms to
//!   delete by.
//! - [`state`] sets up a search, [`fast_field`] reads the values of what it finds, and
//!   [`operator`] tells which rows match, by the [`value`]s of their keys and a set of such
//!   [`keys`].
pub mod channels;
pub mod course;
pub mod effects;
pub mod error;
pub mod fast_field;
pub mod header;
pub mod keys;
pub mod operator;
pub mod request;
pub mod server;
pub mod state;
pub mod term;
pub mod transfer;
pub mod value;
pub mod writer;
