//! Typed model of the messages of a social-media stream.
//!
//! One message is one JSON object: a status, or a notice that statuses were
//! withheld. [`TwitterResponse`] tells the two apart by shape. Every type of
//! the model is read from and written to JSON by its [`wire::Wire`] codec, and
//! a [`Tweet`] answers questions that reconcile the forms in which upstream
//! has held text and media over the years.
use vstd::prelude::*;

pub mod error;
pub mod json;
pub mod model;
pub mod util;
pub mod wire;

pub use crate::error::{Cause, MalformedPayload, Step};
pub use crate::json::{Json, JsonNumber};
pub use crate::model::coordinates::Coordinates;
pub use crate::model::entity::{Entity, ExtendedEntity};
pub use crate::model::hashtag::Hashtag;
pub use crate::model::limit::{Limit, LimitFields};
pub use crate::model::media::{
    AdditionalMediaInfo, Media, MediaType, Size, Sizes, Variant, VideoInfo,
};
pub use crate::model::place::{BoundingBox, Place};
pub use crate::model::poll::{Poll, PollOption};
pub use crate::model::symbol::Symbol;
pub use crate::model::tweet::{ExtendedTweet, Tweet};
pub use crate::model::url::{LegacyUrl, UnwoundUrl, Url};
pub use crate::model::user::User;
pub use crate::model::user_mention::UserMention;
pub use crate::util::datetime::{checked_instant, datefmt_de, datefmt_ser, Timestamp};
pub use crate::wire::Wire;

use crate::error::Fault;
use crate::json::{lemma_member_push, member, JsonView};
use crate::model::limit::LimitView;
use crate::model::tweet::TweetView;
use crate::wire::{decode_text, decoded_text, encode_text, encoded_text, view_result};

verus! {

/// One message of the stream.
#[derive(Debug, PartialEq, Eq)]
pub enum TwitterResponse {
    /// A status.
    Tweet(Tweet),
    /// A notice that statuses were withheld.
    Limit(Limit),
}

/// The mathematical value of a [`TwitterResponse`].
pub enum TwitterResponseView {
    Tweet(TweetView),
    Limit(LimitView),
}

impl DeepView for TwitterResponse {
    type V = TwitterResponseView;

    open spec fn deep_view(&self) -> TwitterResponseView {
        match self {
            TwitterResponse::Tweet(status) => TwitterResponseView::Tweet(status.deep_view()),
            TwitterResponse::Limit(notice) => TwitterResponseView::Limit(notice.deep_view()),
        }
    }
}

/// The wire form of a status is never read as a limit notice: it has no
/// member `limit`.
pub proof fn lemma_status_is_no_notice(status: TweetView)
    ensures
        Limit::decoded(Tweet::encoding(status)) is Err,
{
    broadcast use lemma_member_push;

    reveal(Limit::from_members);
    Tweet::lemma_names();
    Limit::lemma_names();
    assert(member(Tweet::encoding(status)->Object_0, "limit"@) is None);
}

/// The wire form of a limit notice is never read as a status: it has none of
/// the members that a status must have. So for what the library writes it
/// does not matter which shape is tried first.
pub proof fn lemma_notice_is_no_status(notice: LimitView)
    ensures
        Tweet::decoded(Limit::encoding(notice)) is Err,
{
    broadcast use lemma_member_push;

    reveal(Tweet::from_members);
    reveal(Tweet::identity_of);
    Tweet::lemma_names();
    Limit::lemma_names();
    assert(member(Limit::encoding(notice)->Object_0, "created_at"@) is None);
}

impl Wire for TwitterResponse {
    /// A message is a status where it decodes as one; else a limit notice
    /// where it decodes as one; else it has neither shape.
    open spec fn decoded(j: JsonView) -> Result<TwitterResponseView, Fault> {
        match Tweet::decoded(j) {
            Ok(status) => Ok(TwitterResponseView::Tweet(status)),
            Err(_) => match Limit::decoded(j) {
                Ok(notice) => Ok(TwitterResponseView::Limit(notice)),
                Err(_) => Err(Fault::at(Cause::NoVariantMatched)),
            },
        }
    }

    open spec fn encodable(v: TwitterResponseView) -> bool {
        match v {
            TwitterResponseView::Tweet(status) => Tweet::encodable(status),
            TwitterResponseView::Limit(notice) => Limit::encodable(notice),
        }
    }

    /// A message is written as what it holds, with no tag around it.
    open spec fn encoding(v: TwitterResponseView) -> JsonView {
        match v {
            TwitterResponseView::Tweet(status) => Tweet::encoding(status),
            TwitterResponseView::Limit(notice) => Limit::encoding(notice),
        }
    }

    open spec fn canonical(v: TwitterResponseView) -> bool {
        match v {
            TwitterResponseView::Tweet(status) => Tweet::canonical(status),
            TwitterResponseView::Limit(notice) => Limit::canonical(notice),
        }
    }

    fn decode(j: &Json) -> (r: Result<TwitterResponse, MalformedPayload>) {
        match Tweet::decode(j) {
            Ok(status) => Ok(TwitterResponse::Tweet(status)),
            Err(_) => match Limit::decode(j) {
                Ok(notice) => Ok(TwitterResponse::Limit(notice)),
                Err(_) => Err(MalformedPayload::at(Cause::NoVariantMatched)),
            },
        }
    }

    fn encode(&self) -> (r: Option<Json>) {
        match self {
            TwitterResponse::Tweet(status) => status.encode(),
            TwitterResponse::Limit(notice) => notice.encode(),
        }
    }

    proof fn round_trip(v: TwitterResponseView) {
        match v {
            TwitterResponseView::Tweet(status) => {
                Tweet::round_trip(status);
            },
            TwitterResponseView::Limit(notice) => {
                Limit::round_trip(notice);
                lemma_notice_is_no_status(notice);
            },
        }
    }

    proof fn decoded_canonical(j: JsonView) {
        Tweet::decoded_canonical(j);
        Limit::decoded_canonical(j);
    }

    proof fn writable_encoding(v: TwitterResponseView) {
        match v {
            TwitterResponseView::Tweet(status) => {
                Tweet::writable_encoding(status);
            },
            TwitterResponseView::Limit(notice) => {
                Limit::writable_encoding(notice);
            },
        }
    }
}

impl TwitterResponse {
    /// Decodes one message from JSON text, as a status or as a limit notice.
    pub fn from_str(s: &str) -> (r: Result<TwitterResponse, MalformedPayload>)
        ensures
            view_result(r) == decoded_text::<TwitterResponse>(s@),
    {
        decode_text::<TwitterResponse>(s)
    }

    /// Writes the message as JSON text, if it has a wire form.
    pub fn to_text(&self) -> (r: Option<String>)
        ensures
            r is Some <==> TwitterResponse::encodable(self.deep_view()),
            match r {
                Some(text) => encoded_text::<TwitterResponse>(self.deep_view()) == Some(text@),
                None => encoded_text::<TwitterResponse>(self.deep_view()) is None,
            },
    {
        encode_text(self)
    }
}

} // verus!
