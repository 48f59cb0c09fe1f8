//! Building blocks for telling license texts apart by the words they share.

pub mod ngram;
