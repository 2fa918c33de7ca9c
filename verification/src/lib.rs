//! Typed schemas over a shared CRDT document.
//!
//! A schema names record types with required and optional fields. A
//! preliminary value of such a type is written into the document as one map
//! node per record and one array node per collection; a materialized handle
//! reads the fields back by name and decodes them on every access.
//!
//! - [`doc`] is the boundary to the CRDT engine: what is taken on trust.
//! - [`read_txn`] reads a document through either kind of transaction.
//! - [`schema`] describes record types, and [`prelim`] the values that are
//!   written as them.
//! - [`yrs_struct`] validates and reads what a document holds, and
//!   [`materialize`] writes into it.
//! - [`laws`] relates the two: what was written reads back as it was.
//! - [`try_from_yrs_value`], [`yrs_basic_types`], [`yrs_vec`], [`ybox`] and
//!   [`uuid`] are the typed handles and codecs, and [`state`] is the schema
//!   of the application built from them.

pub mod doc;
pub mod laws;
pub mod materialize;
pub mod prelim;
pub mod read_txn;
pub mod schema;
pub mod state;
pub mod try_from_yrs_value;
pub mod uuid;
pub mod ybox;
pub mod yrs_basic_types;
pub mod yrs_struct;
pub mod yrs_vec;
pub mod yrs_wrapper_error;
