//! The codecs of the two fields that are written in a form of their own, and
//! a number written out.
pub mod datetime;
pub mod decimal;
pub mod media;
