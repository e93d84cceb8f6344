//! A line filter that is tolerant of colour codes.
//!
//! Each line is cleaned of terminal styling sequences, the cleaned form is
//! tested against a regular expression, and the line as it was read is passed
//! on when the cleaned form matches.
//!
//! * [`strip`] removes the styling sequences from a buffer.
//! * [`pattern`] holds the compiled regular expression.
//! * [`pump`] decides, line by line, what a streaming loop has to do.

pub mod pattern;
pub mod pump;
pub mod strip;
