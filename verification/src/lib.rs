//! A micro-benchmark harness comparing a heap-allocating string type against
//! several compact string types that keep short text in an inline buffer.
//! Each case constructs one million values of a fixed phrase in one
//! representation, appends them to a sequence, searches every value for a
//! fixed substring, and folds the sequence length and the found offsets into
//! one checksum, all under a wall-clock timer. The checksum, the substring
//! search, and every printed line are specified and verified; the compact
//! string types and the clock stand behind trusted wrappers.

pub mod driver;
pub mod grouping;
pub mod render;
pub mod repr;
pub mod search;
pub mod timing;
