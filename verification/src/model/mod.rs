//! The entities that a message is made of.
pub mod coordinates;
pub mod entity;
pub mod hashtag;
pub mod limit;
pub mod media;
pub mod place;
pub mod poll;
pub mod symbol;
pub mod tweet;
pub mod url;
pub mod user;
pub mod user_mention;
