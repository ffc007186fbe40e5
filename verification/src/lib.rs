//! The tag set of a part-of-speech tagger: the closed set of tags, the text
//! each tag is written as, and the table that reads that text back.

pub mod pos;
