//! The canonical changelog record of a commit.
//!
//! A located commit, together with the label of its category and the
//! resolved name of its author, is turned into a record of ten named
//! fields in a fixed order. The record is plain data: any self-describing
//! format can encode it, field by field, in the order given.

pub mod commit;
pub mod release;
pub mod record;
pub mod serialize;
pub mod tag;
