//! A campaign store for a tabletop game: player characters, combat encounters and the
//! participations that link them, kept in three tables of a relational store.
//!
//! Every entity has an exact mapping to and from its row, and each operation reports
//! its failure as a [`error::StoreError`]. What the store itself answers is outside
//! the proofs: the contracts say what is made of every answer it can give.

pub mod character;
pub mod clock;
pub mod encounter;
pub mod error;
pub mod ident;
pub mod pool;
pub mod row;
pub mod sql;
pub mod storage;
