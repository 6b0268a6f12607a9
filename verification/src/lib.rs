//! Flat records of game content as text, and back.
//!
//! A record is written either as one line of values separated by single
//! spaces, or as one section of key and value entries under a header. The
//! modules [`parser`] and [`serializer`] hold the two codecs, which work on a
//! table of fields that a record declares; [`item`], [`magictype`] and
//! [`monster`] are the records. [`text`] and [`decimal`] say what a word and
//! what the text of an integer is, [`document`] is the boundary to the
//! `ini` crate, and [`laws`] states what holds of reading and writing
//! together.

pub mod decimal;
pub mod document;
pub mod item;
pub mod laws;
pub mod magictype;
pub mod monster;
pub mod parser;
pub mod serializer;
pub mod text;
