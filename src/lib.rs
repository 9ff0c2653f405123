//! Native core of a Japanese morphological analyzer binding: mode selection,
//! the text rendering of analysis results, sentence-list finalisation and the
//! step plan of dictionary builds, each stated over plain values.

pub mod builder;
pub mod error;
pub mod mode;
pub mod report;
pub mod morpheme;
pub mod sentences;
pub mod text;
