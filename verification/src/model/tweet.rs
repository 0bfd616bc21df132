//! Statuses, and what can be asked of one.
use vstd::prelude::*;
use vstd::string::StringExecFns;
use vstd::hash_set::StringHashSet;
use crate::error::{Cause, Fault, MalformedPayload};
use crate::json::{
    get, lemma_member_push, lemma_member_smaller, lemma_members_writable_push, member, members_view,
    members_writable, writable, Json, JsonView, Members,
};
use crate::model::coordinates::{Coordinates, CoordinatesView};
use crate::model::entity::{Entity, EntityView, ExtendedEntity, ExtendedEntityView};
use crate::model::media::MediaView;
use crate::model::place::{Place, PlaceView};
use crate::model::url::{LegacyUrl, LegacyUrlView};
use crate::model::user::{User, UserView};
use crate::util::datetime::Timestamp;
use crate::util::decimal::{decimal, decimal_text};
use crate::wire::{
    decode_text, decoded_text, encode_text, encoded_text, optional_canonical, optional_encodable,
    optional_encoding, optional_field, put_optional, put_required, required_field, take_optional,
    take_required, view_result, Wire,
};

verus! {

/// One post in the feed.
#[derive(Debug, PartialEq, Eq)]
pub struct Tweet {
    /// When the status was posted.
    pub created_at: Timestamp,
    /// The identifier of the status.
    pub id: u64,
    /// The identifier of the status, as text.
    pub id_str: String,
    /// The body, cut short where `truncated` says so.
    pub text: String,
    /// The client that posted the status.
    pub source: String,
    /// Whether `text` was cut short.
    pub truncated: bool,
    /// The status that this one answers.
    pub in_reply_to_status_id: Option<u64>,
    /// The identifier of that status, as text.
    pub in_reply_to_status_id_str: Option<String>,
    /// The author of the status that this one answers.
    pub in_reply_to_user_id: Option<u64>,
    /// The identifier of that author, as text.
    pub in_reply_to_user_id_str: Option<String>,
    /// The handle of that author.
    pub in_reply_to_screen_name: Option<String>,
    /// The author, as of posting.
    pub user: User,
    /// The whole text where the body did not hold it.
    pub extended_tweet: Option<ExtendedTweet>,
    /// Where the status was posted from.
    pub coordinates: Option<Coordinates>,
    /// The place that the status is tied to.
    pub place: Option<Place>,
    /// The status that this one quotes.
    pub quoted_status_id: Option<u64>,
    /// The identifier of that status, as text.
    pub quoted_status_id_str: Option<String>,
    /// Whether the status quotes another.
    pub is_quote_status: bool,
    /// The quoted status itself.
    pub quoted_status: Option<Box<Tweet>>,
    /// The status that this one reshares.
    pub retweeted_status: Option<Box<Tweet>>,
    /// About how often the status was quoted.
    pub quote_count: Option<u32>,
    /// How often the status was answered.
    pub reply_count: Option<u32>,
    /// How often the status was reshared.
    pub retweet_count: Option<u32>,
    /// How often the status was marked as a favorite.
    pub favorite_count: Option<u32>,
    /// What was parsed out of the text.
    pub entities: Option<Entity>,
    /// The full list of media, where the status has any.
    pub extended_entities: Option<ExtendedEntity>,
    /// Whether the viewer marked the status as a favorite.
    pub favorited: Option<bool>,
    /// Whether the viewer reshared the status.
    pub retweeted: bool,
    /// Whether a link in the status may lead to sensitive content.
    pub possibly_sensitive: Option<bool>,
    /// The filter level of the status: `none`, `low` or `medium`.
    pub filter_level: String,
    /// The language that was detected in the text, as a BCP 47 tag.
    pub lang: Option<String>,
    /// Whether content was taken down on a copyright claim.
    pub withheld_copyright: Option<bool>,
    /// The countries in which the status is withheld.
    pub withheld_in_countries: Option<Vec<String>>,
    /// What is withheld: `status` or `user`.
    pub withheld_scope: Option<String>,
    /// Legacy: the contributors.
    pub contributors: Option<String>,
    /// Legacy: where in the text the part to display begins and ends.
    pub display_text_range: Option<(u32, u32)>,
    /// Legacy: where the status was posted from; see `coordinates`.
    pub geo: Option<Coordinates>,
    /// Legacy: the permalink of the quoted status.
    pub quoted_status_permalink: Option<LegacyUrl>,
    /// Legacy: when the status was posted, in milliseconds, as text; see ///
    /// `created_at`.
    pub timestamp_ms: Option<String>,
}

/// The mathematical value of a [`Tweet`].
pub struct TweetView {
    pub created_at: Timestamp,
    pub id: u64,
    pub id_str: Seq<char>,
    pub text: Seq<char>,
    pub source: Seq<char>,
    pub truncated: bool,
    pub in_reply_to_status_id: Option<u64>,
    pub in_reply_to_status_id_str: Option<Seq<char>>,
    pub in_reply_to_user_id: Option<u64>,
    pub in_reply_to_user_id_str: Option<Seq<char>>,
    pub in_reply_to_screen_name: Option<Seq<char>>,
    pub user: UserView,
    pub extended_tweet: Option<ExtendedTweetView>,
    pub coordinates: Option<CoordinatesView>,
    pub place: Option<PlaceView>,
    pub quoted_status_id: Option<u64>,
    pub quoted_status_id_str: Option<Seq<char>>,
    pub is_quote_status: bool,
    pub quoted_status: Option<Box<TweetView>>,
    pub retweeted_status: Option<Box<TweetView>>,
    pub quote_count: Option<u32>,
    pub reply_count: Option<u32>,
    pub retweet_count: Option<u32>,
    pub favorite_count: Option<u32>,
    pub entities: Option<EntityView>,
    pub extended_entities: Option<ExtendedEntityView>,
    pub favorited: Option<bool>,
    pub retweeted: bool,
    pub possibly_sensitive: Option<bool>,
    pub filter_level: Seq<char>,
    pub lang: Option<Seq<char>>,
    pub withheld_copyright: Option<bool>,
    pub withheld_in_countries: Option<Seq<Seq<char>>>,
    pub withheld_scope: Option<Seq<char>>,
    pub contributors: Option<Seq<char>>,
    pub display_text_range: Option<(u32, u32)>,
    pub geo: Option<CoordinatesView>,
    pub quoted_status_permalink: Option<LegacyUrlView>,
    pub timestamp_ms: Option<Seq<char>>,
}

/// The fields of a status that say what the status is.
pub type Identity = (Timestamp, u64, String, String, String, bool);

/// The mathematical value of a [`Identity`].
pub type IdentityView = (Timestamp, u64, Seq<char>, Seq<char>, Seq<char>, bool);

/// The fields of a status that say what the status answers.
pub type Reply = (Option<u64>, Option<String>, Option<u64>, Option<String>, Option<String>);

/// The mathematical value of a [`Reply`].
pub type ReplyView = (
    Option<u64>,
    Option<Seq<char>>,
    Option<u64>,
    Option<Seq<char>>,
    Option<Seq<char>>,
);

/// The fields of a status that say who posted the status, from where, and its
/// whole text.
pub type Origin = (User, Option<ExtendedTweet>, Option<Coordinates>, Option<Place>);

/// The mathematical value of a [`Origin`].
pub type OriginView = (
    UserView,
    Option<ExtendedTweetView>,
    Option<CoordinatesView>,
    Option<PlaceView>,
);

/// The fields of a status that hold the statuses that the status quotes or
/// reshares.
pub type Embedded = (Option<u64>, Option<String>, bool, Option<Box<Tweet>>, Option<Box<Tweet>>);

/// The mathematical value of a [`Embedded`].
pub type EmbeddedView = (
    Option<u64>,
    Option<Seq<char>>,
    bool,
    Option<Box<TweetView>>,
    Option<Box<TweetView>>,
);

/// The fields of a status that count the reactions to the status.
pub type Counts = (Option<u32>, Option<u32>, Option<u32>, Option<u32>);

/// The mathematical value of a [`Counts`].
pub type CountsView = (Option<u32>, Option<u32>, Option<u32>, Option<u32>);

/// The fields of a status that say what the text holds and how it is rated.
pub type Content = (
    Option<Entity>,
    Option<ExtendedEntity>,
    Option<bool>,
    bool,
    Option<bool>,
    String,
    Option<String>,
);

/// The mathematical value of a [`Content`].
pub type ContentView = (
    Option<EntityView>,
    Option<ExtendedEntityView>,
    Option<bool>,
    bool,
    Option<bool>,
    Seq<char>,
    Option<Seq<char>>,
);

/// The fields of a status that say where the status is withheld.
pub type Withheld = (Option<bool>, Option<Vec<String>>, Option<String>);

/// The mathematical value of a [`Withheld`].
pub type WithheldView = (Option<bool>, Option<Seq<Seq<char>>>, Option<Seq<char>>);

/// The fields of a status that are kept for older captures.
pub type Legacy = (
    Option<String>,
    Option<(u32, u32)>,
    Option<Coordinates>,
    Option<LegacyUrl>,
    Option<String>,
);

/// The mathematical value of a [`Legacy`].
pub type LegacyView = (
    Option<Seq<char>>,
    Option<(u32, u32)>,
    Option<CoordinatesView>,
    Option<LegacyUrlView>,
    Option<Seq<char>>,
);

impl DeepView for Tweet {
    type V = TweetView;

    open spec fn deep_view(&self) -> TweetView
        decreases self,
    {
        TweetView {
            created_at: self.created_at.deep_view(),
            id: self.id.deep_view(),
            id_str: self.id_str.deep_view(),
            text: self.text.deep_view(),
            source: self.source.deep_view(),
            truncated: self.truncated.deep_view(),
            in_reply_to_status_id: self.in_reply_to_status_id.deep_view(),
            in_reply_to_status_id_str: self.in_reply_to_status_id_str.deep_view(),
            in_reply_to_user_id: self.in_reply_to_user_id.deep_view(),
            in_reply_to_user_id_str: self.in_reply_to_user_id_str.deep_view(),
            in_reply_to_screen_name: self.in_reply_to_screen_name.deep_view(),
            user: self.user.deep_view(),
            extended_tweet: self.extended_tweet.deep_view(),
            coordinates: self.coordinates.deep_view(),
            place: self.place.deep_view(),
            quoted_status_id: self.quoted_status_id.deep_view(),
            quoted_status_id_str: self.quoted_status_id_str.deep_view(),
            is_quote_status: self.is_quote_status.deep_view(),
            quoted_status: Tweet::nested_view(self.quoted_status),
            retweeted_status: Tweet::nested_view(self.retweeted_status),
            quote_count: self.quote_count.deep_view(),
            reply_count: self.reply_count.deep_view(),
            retweet_count: self.retweet_count.deep_view(),
            favorite_count: self.favorite_count.deep_view(),
            entities: self.entities.deep_view(),
            extended_entities: self.extended_entities.deep_view(),
            favorited: self.favorited.deep_view(),
            retweeted: self.retweeted.deep_view(),
            possibly_sensitive: self.possibly_sensitive.deep_view(),
            filter_level: self.filter_level.deep_view(),
            lang: self.lang.deep_view(),
            withheld_copyright: self.withheld_copyright.deep_view(),
            withheld_in_countries: self.withheld_in_countries.deep_view(),
            withheld_scope: self.withheld_scope.deep_view(),
            contributors: self.contributors.deep_view(),
            display_text_range: self.display_text_range.deep_view(),
            geo: self.geo.deep_view(),
            quoted_status_permalink: self.quoted_status_permalink.deep_view(),
            timestamp_ms: self.timestamp_ms.deep_view(),
        }
    }
}

impl Tweet {
    /// The length and the first character of the name of each member, by
    /// which the names are told apart.
    pub proof fn lemma_names()
        ensures
            "created_at"@.len() == 10 && "created_at"@[0] == 'c',
            "id"@.len() == 2 && "id"@[0] == 'i',
            "id_str"@.len() == 6 && "id_str"@[0] == 'i',
            "text"@.len() == 4 && "text"@[0] == 't',
            "source"@.len() == 6 && "source"@[0] == 's',
            "truncated"@.len() == 9 && "truncated"@[0] == 't',
            "in_reply_to_status_id"@.len() == 21 && "in_reply_to_status_id"@[0] == 'i',
            "in_reply_to_status_id_str"@.len() == 25 && "in_reply_to_status_id_str"@[0] == 'i',
            "in_reply_to_user_id"@.len() == 19 && "in_reply_to_user_id"@[0] == 'i',
            "in_reply_to_user_id_str"@.len() == 23 && "in_reply_to_user_id_str"@[0] == 'i',
            "in_reply_to_screen_name"@.len() == 23 && "in_reply_to_screen_name"@[0] == 'i',
            "user"@.len() == 4 && "user"@[0] == 'u',
            "extended_tweet"@.len() == 14 && "extended_tweet"@[0] == 'e',
            "coordinates"@.len() == 11 && "coordinates"@[0] == 'c',
            "place"@.len() == 5 && "place"@[0] == 'p',
            "quoted_status_id"@.len() == 16 && "quoted_status_id"@[0] == 'q',
            "quoted_status_id_str"@.len() == 20 && "quoted_status_id_str"@[0] == 'q',
            "is_quote_status"@.len() == 15 && "is_quote_status"@[0] == 'i',
            "quoted_status"@.len() == 13 && "quoted_status"@[0] == 'q',
            "retweeted_status"@.len() == 16 && "retweeted_status"@[0] == 'r',
            "quote_count"@.len() == 11 && "quote_count"@[0] == 'q',
            "reply_count"@.len() == 11 && "reply_count"@[0] == 'r',
            "retweet_count"@.len() == 13 && "retweet_count"@[0] == 'r',
            "favorite_count"@.len() == 14 && "favorite_count"@[0] == 'f',
            "entities"@.len() == 8 && "entities"@[0] == 'e',
            "extended_entities"@.len() == 17 && "extended_entities"@[0] == 'e',
            "favorited"@.len() == 9 && "favorited"@[0] == 'f',
            "retweeted"@.len() == 9 && "retweeted"@[0] == 'r',
            "possibly_sensitive"@.len() == 18 && "possibly_sensitive"@[0] == 'p',
            "filter_level"@.len() == 12 && "filter_level"@[0] == 'f',
            "lang"@.len() == 4 && "lang"@[0] == 'l',
            "withheld_copyright"@.len() == 18 && "withheld_copyright"@[0] == 'w',
            "withheld_in_countries"@.len() == 21 && "withheld_in_countries"@[0] == 'w',
            "withheld_scope"@.len() == 14 && "withheld_scope"@[0] == 'w',
            "contributors"@.len() == 12 && "contributors"@[0] == 'c',
            "display_text_range"@.len() == 18 && "display_text_range"@[0] == 'd',
            "geo"@.len() == 3 && "geo"@[0] == 'g',
            "quoted_status_permalink"@.len() == 23 && "quoted_status_permalink"@[0] == 'q',
            "timestamp_ms"@.len() == 12 && "timestamp_ms"@[0] == 't',
            "in_reply_to_user_id_str"@[12] == 'u',
            "in_reply_to_screen_name"@[12] == 's',
    {
        reveal_strlit("created_at");
        reveal_strlit("id");
        reveal_strlit("id_str");
        reveal_strlit("text");
        reveal_strlit("source");
        reveal_strlit("truncated");
        reveal_strlit("in_reply_to_status_id");
        reveal_strlit("in_reply_to_status_id_str");
        reveal_strlit("in_reply_to_user_id");
        reveal_strlit("in_reply_to_user_id_str");
        reveal_strlit("in_reply_to_screen_name");
        reveal_strlit("user");
        reveal_strlit("extended_tweet");
        reveal_strlit("coordinates");
        reveal_strlit("place");
        reveal_strlit("quoted_status_id");
        reveal_strlit("quoted_status_id_str");
        reveal_strlit("is_quote_status");
        reveal_strlit("quoted_status");
        reveal_strlit("retweeted_status");
        reveal_strlit("quote_count");
        reveal_strlit("reply_count");
        reveal_strlit("retweet_count");
        reveal_strlit("favorite_count");
        reveal_strlit("entities");
        reveal_strlit("extended_entities");
        reveal_strlit("favorited");
        reveal_strlit("retweeted");
        reveal_strlit("possibly_sensitive");
        reveal_strlit("filter_level");
        reveal_strlit("lang");
        reveal_strlit("withheld_copyright");
        reveal_strlit("withheld_in_countries");
        reveal_strlit("withheld_scope");
        reveal_strlit("contributors");
        reveal_strlit("display_text_range");
        reveal_strlit("geo");
        reveal_strlit("quoted_status_permalink");
        reveal_strlit("timestamp_ms");
    }

    /// Each member of the wire form is found under its name.
    pub proof fn lemma_members(v: TweetView)
        ensures
            member(Tweet::encoding(v)->Object_0, "created_at"@) == Some(
                Timestamp::encoding(v.created_at),
            ),
            member(Tweet::encoding(v)->Object_0, "id"@) == Some(u64::encoding(v.id)),
            member(Tweet::encoding(v)->Object_0, "id_str"@) == Some(String::encoding(v.id_str)),
            member(Tweet::encoding(v)->Object_0, "text"@) == Some(String::encoding(v.text)),
            member(Tweet::encoding(v)->Object_0, "source"@) == Some(String::encoding(v.source)),
            member(Tweet::encoding(v)->Object_0, "truncated"@) == Some(bool::encoding(v.truncated)),
            member(Tweet::encoding(v)->Object_0, "in_reply_to_status_id"@) == Some(
                optional_encoding::<u64>(v.in_reply_to_status_id),
            ),
            member(Tweet::encoding(v)->Object_0, "in_reply_to_status_id_str"@) == Some(
                optional_encoding::<String>(v.in_reply_to_status_id_str),
            ),
            member(Tweet::encoding(v)->Object_0, "in_reply_to_user_id"@) == Some(
                optional_encoding::<u64>(v.in_reply_to_user_id),
            ),
            member(Tweet::encoding(v)->Object_0, "in_reply_to_user_id_str"@) == Some(
                optional_encoding::<String>(v.in_reply_to_user_id_str),
            ),
            member(Tweet::encoding(v)->Object_0, "in_reply_to_screen_name"@) == Some(
                optional_encoding::<String>(v.in_reply_to_screen_name),
            ),
            member(Tweet::encoding(v)->Object_0, "user"@) == Some(User::encoding(v.user)),
            member(Tweet::encoding(v)->Object_0, "extended_tweet"@) == Some(
                optional_encoding::<ExtendedTweet>(v.extended_tweet),
            ),
            member(Tweet::encoding(v)->Object_0, "coordinates"@) == Some(
                optional_encoding::<Coordinates>(v.coordinates),
            ),
            member(Tweet::encoding(v)->Object_0, "place"@) == Some(
                optional_encoding::<Place>(v.place),
            ),
            member(Tweet::encoding(v)->Object_0, "quoted_status_id"@) == Some(
                optional_encoding::<u64>(v.quoted_status_id),
            ),
            member(Tweet::encoding(v)->Object_0, "quoted_status_id_str"@) == Some(
                optional_encoding::<String>(v.quoted_status_id_str),
            ),
            member(Tweet::encoding(v)->Object_0, "is_quote_status"@) == Some(
                bool::encoding(v.is_quote_status),
            ),
            member(Tweet::encoding(v)->Object_0, "quoted_status"@) == Some(
                Tweet::nested_encoding(v.quoted_status),
            ),
            member(Tweet::encoding(v)->Object_0, "retweeted_status"@) == Some(
                Tweet::nested_encoding(v.retweeted_status),
            ),
            member(Tweet::encoding(v)->Object_0, "quote_count"@) == Some(
                optional_encoding::<u32>(v.quote_count),
            ),
            member(Tweet::encoding(v)->Object_0, "reply_count"@) == Some(
                optional_encoding::<u32>(v.reply_count),
            ),
            member(Tweet::encoding(v)->Object_0, "retweet_count"@) == Some(
                optional_encoding::<u32>(v.retweet_count),
            ),
            member(Tweet::encoding(v)->Object_0, "favorite_count"@) == Some(
                optional_encoding::<u32>(v.favorite_count),
            ),
            member(Tweet::encoding(v)->Object_0, "entities"@) == Some(
                optional_encoding::<Entity>(v.entities),
            ),
            member(Tweet::encoding(v)->Object_0, "extended_entities"@) == Some(
                optional_encoding::<ExtendedEntity>(v.extended_entities),
            ),
            member(Tweet::encoding(v)->Object_0, "favorited"@) == Some(
                optional_encoding::<bool>(v.favorited),
            ),
            member(Tweet::encoding(v)->Object_0, "retweeted"@) == Some(bool::encoding(v.retweeted)),
            member(Tweet::encoding(v)->Object_0, "possibly_sensitive"@) == Some(
                optional_encoding::<bool>(v.possibly_sensitive),
            ),
            member(Tweet::encoding(v)->Object_0, "filter_level"@) == Some(
                String::encoding(v.filter_level),
            ),
            member(Tweet::encoding(v)->Object_0, "lang"@) == Some(
                optional_encoding::<String>(v.lang),
            ),
            member(Tweet::encoding(v)->Object_0, "withheld_copyright"@) == Some(
                optional_encoding::<bool>(v.withheld_copyright),
            ),
            member(Tweet::encoding(v)->Object_0, "withheld_in_countries"@) == Some(
                optional_encoding::<Vec<String>>(v.withheld_in_countries),
            ),
            member(Tweet::encoding(v)->Object_0, "withheld_scope"@) == Some(
                optional_encoding::<String>(v.withheld_scope),
            ),
            member(Tweet::encoding(v)->Object_0, "contributors"@) == Some(
                optional_encoding::<String>(v.contributors),
            ),
            member(Tweet::encoding(v)->Object_0, "display_text_range"@) == Some(
                optional_encoding::<(u32, u32)>(v.display_text_range),
            ),
            member(Tweet::encoding(v)->Object_0, "geo"@) == Some(
                optional_encoding::<Coordinates>(v.geo),
            ),
            member(Tweet::encoding(v)->Object_0, "quoted_status_permalink"@) == Some(
                optional_encoding::<LegacyUrl>(v.quoted_status_permalink),
            ),
            member(Tweet::encoding(v)->Object_0, "timestamp_ms"@) == Some(
                optional_encoding::<String>(v.timestamp_ms),
            ),
    {
        broadcast use lemma_member_push;

        Self::lemma_names();
    }

    /// The mathematical value of a field that holds a nested status.
    pub open spec fn nested_view(value: Option<Box<Tweet>>) -> Option<Box<TweetView>>
        decreases value,
    {
        match value {
            Some(inner) => Some(Box::new((*inner).deep_view())),
            None => None,
        }
    }

    /// What the member `key` of an object gives to a field that holds a
    /// nested status: nothing where it is missing or `null`.
    pub open spec fn nested_field(m: Members, key: Seq<char>) -> Result<
        Option<Box<TweetView>>,
        Fault,
    >
        decreases m, 0nat,
    {
        match member(m, key) {
            None => Ok(None),
            Some(JsonView::Null) => Ok(None),
            Some(j) => {
                proof {
                    lemma_member_smaller(m, key);
                }
                match Tweet::decoded(j) {
                    Ok(value) => Ok(Some(Box::new(value))),
                    Err(e) => Err(e.under_key(key)),
                }
            },
        }
    }

    /// The wire form of a field that holds a nested status.
    pub open spec fn nested_encoding(v: Option<Box<TweetView>>) -> JsonView
        decreases v,
    {
        match v {
            Some(inner) => Tweet::encoding(*inner),
            None => JsonView::Null,
        }
    }

    fn take_nested(members: &Vec<(String, Json)>, key: &str) -> (r: Result<
        Option<Box<Tweet>>,
        MalformedPayload,
    >)
        ensures
            match r {
                Ok(value) => Tweet::nested_field(members_view(members@), key@) == Ok::<
                    Option<Box<TweetView>>,
                    Fault,
                >(Tweet::nested_view(value)),
                Err(e) => Tweet::nested_field(members_view(members@), key@) == Err::<
                    Option<Box<TweetView>>,
                    Fault,
                >(e.deep_view()),
            },
        decreases members, 0nat,
    {
        match get(members, key) {
            None => Ok(None),
            Some(Json::Null) => Ok(None),
            Some(j) => match Tweet::decode(j) {
                Ok(value) => Ok(Some(Box::new(value))),
                Err(e) => Err(e.under_key(key)),
            },
        }
    }

    fn put_nested(
        members: &mut Vec<(String, Json)>,
        key: &str,
        value: &Option<Box<Tweet>>,
    ) -> (done: Option<()>)
        ensures
            done is Some <==> (Tweet::nested_view(*value) matches Some(inner) ==> Tweet::encodable(
                *inner,
            )),
            done is Some ==> members_view(final(members)@) == members_view(old(members)@).push(
                (key@, Tweet::nested_encoding(Tweet::nested_view(*value))),
            ),
            done is None ==> final(members)@ == old(members)@,
        decreases value,
    {
        let ghost before = members_view(members@);
        let encoded = match value {
            Some(inner) => inner.encode(),
            None => Some(Json::Null),
        };
        match encoded {
            Some(j) => {
                let ghost added = (key@, j.deep_view());
                members.push((String::from_str(key), j));
                assert(members_view(members@) =~= before.push(added));
                Some(())
            },
            None => None,
        }
    }

    proof fn lemma_nested_round_trip(v: TweetView)
        ensures
            Tweet::encodable(v) && Tweet::canonical(v) ==> Tweet::nested_field(
                Tweet::encoding(v)->Object_0,
                "quoted_status"@,
            ) == Ok::<Option<Box<TweetView>>, Fault>(v.quoted_status),
            Tweet::encodable(v) && Tweet::canonical(v) ==> Tweet::nested_field(
                Tweet::encoding(v)->Object_0,
                "retweeted_status"@,
            ) == Ok::<Option<Box<TweetView>>, Fault>(v.retweeted_status),
        decreases v, 0nat,
    {
        Self::lemma_members(v);
        if let Some(inner) = v.quoted_status {
            Tweet::round_trip(*inner);
        }
        if let Some(inner) = v.retweeted_status {
            Tweet::round_trip(*inner);
        }
    }

    /// What the members of an object give to the fields that say what the
    /// status is.
    #[verifier::opaque]
    pub open spec fn identity_of(m: Members) -> Result<IdentityView, Fault> {
        let created_at = required_field::<Timestamp>(m, "created_at"@);
        let id = required_field::<u64>(m, "id"@);
        let id_str = required_field::<String>(m, "id_str"@);
        let text = required_field::<String>(m, "text"@);
        let source = required_field::<String>(m, "source"@);
        let truncated = required_field::<bool>(m, "truncated"@);
        if created_at is Err {
            Err(created_at->Err_0)
        } else if id is Err {
            Err(id->Err_0)
        } else if id_str is Err {
            Err(id_str->Err_0)
        } else if text is Err {
            Err(text->Err_0)
        } else if source is Err {
            Err(source->Err_0)
        } else if truncated is Err {
            Err(truncated->Err_0)
        } else {
            Ok(
                (
                    created_at->Ok_0,
                    id->Ok_0,
                    id_str->Ok_0,
                    text->Ok_0,
                    source->Ok_0,
                    truncated->Ok_0,
                ),
            )
        }
    }

    fn take_identity(members: &Vec<(String, Json)>) -> (r: Result<Identity, MalformedPayload>)
        ensures
            view_result(r) == Tweet::identity_of(members_view(members@)),
    {
        reveal(Tweet::identity_of);
        let created_at = take_required::<Timestamp>(members, "created_at")?;
        let id = take_required::<u64>(members, "id")?;
        let id_str = take_required::<String>(members, "id_str")?;
        let text = take_required::<String>(members, "text")?;
        let source = take_required::<String>(members, "source")?;
        let truncated = take_required::<bool>(members, "truncated")?;
        Ok((created_at, id, id_str, text, source, truncated))
    }

    proof fn lemma_identity_round_trip(v: TweetView)
        ensures
            Tweet::encodable(v) && Tweet::canonical(v) ==> Tweet::identity_of(
                Tweet::encoding(v)->Object_0,
            ) == Ok::<IdentityView, Fault>(
                (v.created_at, v.id, v.id_str, v.text, v.source, v.truncated),
            ),
    {
        reveal(Tweet::identity_of);
        Self::lemma_members(v);
        Timestamp::round_trip(v.created_at);
    }

    proof fn lemma_identity_canonical(m: Members)
        ensures
            Tweet::identity_of(m) matches Ok(got) ==> {
                &&& Timestamp::encodable(got.0)
                &&& Timestamp::canonical(got.0)
                &&& u64::encodable(got.1)
                &&& u64::canonical(got.1)
                &&& String::encodable(got.2)
                &&& String::canonical(got.2)
                &&& String::encodable(got.3)
                &&& String::canonical(got.3)
                &&& String::encodable(got.4)
                &&& String::canonical(got.4)
                &&& bool::encodable(got.5)
                &&& bool::canonical(got.5)
            },
    {
        reveal(Tweet::identity_of);
        Timestamp::decoded_canonical(member(m, "created_at"@).unwrap());
    }

    proof fn lemma_identity_by_name(a: Members, b: Members)
        requires
            member(a, "created_at"@) == member(b, "created_at"@),
            member(a, "id"@) == member(b, "id"@),
            member(a, "id_str"@) == member(b, "id_str"@),
            member(a, "text"@) == member(b, "text"@),
            member(a, "source"@) == member(b, "source"@),
            member(a, "truncated"@) == member(b, "truncated"@),
        ensures
            Tweet::identity_of(a) == Tweet::identity_of(b),
    {
        reveal(Tweet::identity_of);
    }

    /// What the members of an object give to the fields that say what the
    /// status answers.
    #[verifier::opaque]
    pub open spec fn reply_of(m: Members) -> Result<ReplyView, Fault> {
        let in_reply_to_status_id = optional_field::<u64>(m, "in_reply_to_status_id"@);
        let in_reply_to_status_id_str = optional_field::<String>(m, "in_reply_to_status_id_str"@);
        let in_reply_to_user_id = optional_field::<u64>(m, "in_reply_to_user_id"@);
        let in_reply_to_user_id_str = optional_field::<String>(m, "in_reply_to_user_id_str"@);
        let in_reply_to_screen_name = optional_field::<String>(m, "in_reply_to_screen_name"@);
        if in_reply_to_status_id is Err {
            Err(in_reply_to_status_id->Err_0)
        } else if in_reply_to_status_id_str is Err {
            Err(in_reply_to_status_id_str->Err_0)
        } else if in_reply_to_user_id is Err {
            Err(in_reply_to_user_id->Err_0)
        } else if in_reply_to_user_id_str is Err {
            Err(in_reply_to_user_id_str->Err_0)
        } else if in_reply_to_screen_name is Err {
            Err(in_reply_to_screen_name->Err_0)
        } else {
            Ok(
                (
                    in_reply_to_status_id->Ok_0,
                    in_reply_to_status_id_str->Ok_0,
                    in_reply_to_user_id->Ok_0,
                    in_reply_to_user_id_str->Ok_0,
                    in_reply_to_screen_name->Ok_0,
                ),
            )
        }
    }

    fn take_reply(members: &Vec<(String, Json)>) -> (r: Result<Reply, MalformedPayload>)
        ensures
            view_result(r) == Tweet::reply_of(members_view(members@)),
    {
        reveal(Tweet::reply_of);
        let in_reply_to_status_id = take_optional::<u64>(members, "in_reply_to_status_id")?;
        let in_reply_to_status_id_str = take_optional::<String>(
            members,
            "in_reply_to_status_id_str",
        )?;
        let in_reply_to_user_id = take_optional::<u64>(members, "in_reply_to_user_id")?;
        let in_reply_to_user_id_str = take_optional::<String>(members, "in_reply_to_user_id_str")?;
        let in_reply_to_screen_name = take_optional::<String>(members, "in_reply_to_screen_name")?;
        Ok(
            (
                in_reply_to_status_id,
                in_reply_to_status_id_str,
                in_reply_to_user_id,
                in_reply_to_user_id_str,
                in_reply_to_screen_name,
            ),
        )
    }

    proof fn lemma_reply_round_trip(v: TweetView)
        ensures
            Tweet::encodable(v) && Tweet::canonical(v) ==> Tweet::reply_of(
                Tweet::encoding(v)->Object_0,
            ) == Ok::<ReplyView, Fault>(
                (
                    v.in_reply_to_status_id,
                    v.in_reply_to_status_id_str,
                    v.in_reply_to_user_id,
                    v.in_reply_to_user_id_str,
                    v.in_reply_to_screen_name,
                ),
            ),
    {
        reveal(Tweet::reply_of);
        Self::lemma_members(v);
    }

    proof fn lemma_reply_canonical(m: Members)
        ensures
            Tweet::reply_of(m) matches Ok(got) ==> {
                &&& optional_encodable::<u64>(got.0)
                &&& optional_canonical::<u64>(got.0)
                &&& optional_encodable::<String>(got.1)
                &&& optional_canonical::<String>(got.1)
                &&& optional_encodable::<u64>(got.2)
                &&& optional_canonical::<u64>(got.2)
                &&& optional_encodable::<String>(got.3)
                &&& optional_canonical::<String>(got.3)
                &&& optional_encodable::<String>(got.4)
                &&& optional_canonical::<String>(got.4)
            },
    {
        reveal(Tweet::reply_of);
    }

    proof fn lemma_reply_by_name(a: Members, b: Members)
        requires
            member(a, "in_reply_to_status_id"@) == member(b, "in_reply_to_status_id"@),
            member(a, "in_reply_to_status_id_str"@) == member(b, "in_reply_to_status_id_str"@),
            member(a, "in_reply_to_user_id"@) == member(b, "in_reply_to_user_id"@),
            member(a, "in_reply_to_user_id_str"@) == member(b, "in_reply_to_user_id_str"@),
            member(a, "in_reply_to_screen_name"@) == member(b, "in_reply_to_screen_name"@),
        ensures
            Tweet::reply_of(a) == Tweet::reply_of(b),
    {
        reveal(Tweet::reply_of);
    }

    /// What the members of an object give to the fields that say who posted the
    /// status, from where, and its whole text.
    #[verifier::opaque]
    pub open spec fn origin_of(m: Members) -> Result<OriginView, Fault> {
        let user = required_field::<User>(m, "user"@);
        let extended_tweet = optional_field::<ExtendedTweet>(m, "extended_tweet"@);
        let coordinates = optional_field::<Coordinates>(m, "coordinates"@);
        let place = optional_field::<Place>(m, "place"@);
        if user is Err {
            Err(user->Err_0)
        } else if extended_tweet is Err {
            Err(extended_tweet->Err_0)
        } else if coordinates is Err {
            Err(coordinates->Err_0)
        } else if place is Err {
            Err(place->Err_0)
        } else {
            Ok((user->Ok_0, extended_tweet->Ok_0, coordinates->Ok_0, place->Ok_0))
        }
    }

    fn take_origin(members: &Vec<(String, Json)>) -> (r: Result<Origin, MalformedPayload>)
        ensures
            view_result(r) == Tweet::origin_of(members_view(members@)),
    {
        reveal(Tweet::origin_of);
        let user = take_required::<User>(members, "user")?;
        let extended_tweet = take_optional::<ExtendedTweet>(members, "extended_tweet")?;
        let coordinates = take_optional::<Coordinates>(members, "coordinates")?;
        let place = take_optional::<Place>(members, "place")?;
        Ok((user, extended_tweet, coordinates, place))
    }

    proof fn lemma_origin_round_trip(v: TweetView)
        ensures
            Tweet::encodable(v) && Tweet::canonical(v) ==> Tweet::origin_of(
                Tweet::encoding(v)->Object_0,
            ) == Ok::<OriginView, Fault>(
                (v.user, v.extended_tweet, v.coordinates, v.place),
            ),
    {
        reveal(Tweet::origin_of);
        Self::lemma_members(v);
        User::round_trip(v.user);
        if let Some(inner) = v.extended_tweet {
            ExtendedTweet::round_trip(inner);
        }
        if let Some(inner) = v.coordinates {
            Coordinates::round_trip(inner);
        }
        if let Some(inner) = v.place {
            Place::round_trip(inner);
        }
    }

    proof fn lemma_origin_canonical(m: Members)
        ensures
            Tweet::origin_of(m) matches Ok(got) ==> {
                &&& User::encodable(got.0)
                &&& User::canonical(got.0)
                &&& optional_encodable::<ExtendedTweet>(got.1)
                &&& optional_canonical::<ExtendedTweet>(got.1)
                &&& optional_encodable::<Coordinates>(got.2)
                &&& optional_canonical::<Coordinates>(got.2)
                &&& optional_encodable::<Place>(got.3)
                &&& optional_canonical::<Place>(got.3)
            },
    {
        reveal(Tweet::origin_of);
        User::decoded_canonical(member(m, "user"@).unwrap());
        ExtendedTweet::decoded_canonical(member(m, "extended_tweet"@).unwrap());
        Coordinates::decoded_canonical(member(m, "coordinates"@).unwrap());
        Place::decoded_canonical(member(m, "place"@).unwrap());
    }

    proof fn lemma_origin_by_name(a: Members, b: Members)
        requires
            member(a, "user"@) == member(b, "user"@),
            member(a, "extended_tweet"@) == member(b, "extended_tweet"@),
            member(a, "coordinates"@) == member(b, "coordinates"@),
            member(a, "place"@) == member(b, "place"@),
        ensures
            Tweet::origin_of(a) == Tweet::origin_of(b),
    {
        reveal(Tweet::origin_of);
    }

    /// What the members of an object give to the fields that hold the statuses
    /// that the status quotes or reshares. What the nested statuses decode to
    /// is handed in.
    #[verifier::opaque]
    pub open spec fn embedded_of(
        m: Members,
        quoted_status: Result<Option<Box<TweetView>>, Fault>,
        retweeted_status: Result<Option<Box<TweetView>>, Fault>,
    ) -> Result<EmbeddedView, Fault> {
        let quoted_status_id = optional_field::<u64>(m, "quoted_status_id"@);
        let quoted_status_id_str = optional_field::<String>(m, "quoted_status_id_str"@);
        let is_quote_status = required_field::<bool>(m, "is_quote_status"@);
        if quoted_status_id is Err {
            Err(quoted_status_id->Err_0)
        } else if quoted_status_id_str is Err {
            Err(quoted_status_id_str->Err_0)
        } else if is_quote_status is Err {
            Err(is_quote_status->Err_0)
        } else if quoted_status is Err {
            Err(quoted_status->Err_0)
        } else if retweeted_status is Err {
            Err(retweeted_status->Err_0)
        } else {
            Ok(
                (
                    quoted_status_id->Ok_0,
                    quoted_status_id_str->Ok_0,
                    is_quote_status->Ok_0,
                    quoted_status->Ok_0,
                    retweeted_status->Ok_0,
                ),
            )
        }
    }

    /// The mathematical value of the fields that hold the statuses that the
    /// status quotes or reshares.
    pub open spec fn embedded_view(got: Embedded) -> EmbeddedView {
        (
            got.0.deep_view(),
            got.1.deep_view(),
            got.2.deep_view(),
            Tweet::nested_view(got.3),
            Tweet::nested_view(got.4),
        )
    }

    fn take_embedded(members: &Vec<(String, Json)>) -> (r: Result<Embedded, MalformedPayload>)
        ensures
            match r {
                Ok(got) => Tweet::embedded_of(
                    members_view(members@),
                    Tweet::nested_field(members_view(members@), "quoted_status"@),
                    Tweet::nested_field(members_view(members@), "retweeted_status"@),
                ) == Ok::<EmbeddedView, Fault>(Tweet::embedded_view(got)),
                Err(e) => Tweet::embedded_of(
                    members_view(members@),
                    Tweet::nested_field(members_view(members@), "quoted_status"@),
                    Tweet::nested_field(members_view(members@), "retweeted_status"@),
                ) == Err::<EmbeddedView, Fault>(e.deep_view()),
            },
        decreases members, 1nat,
    {
        reveal(Tweet::embedded_of);
        let quoted_status_id = take_optional::<u64>(members, "quoted_status_id")?;
        let quoted_status_id_str = take_optional::<String>(members, "quoted_status_id_str")?;
        let is_quote_status = take_required::<bool>(members, "is_quote_status")?;
        let quoted_status = Tweet::take_nested(members, "quoted_status")?;
        let retweeted_status = Tweet::take_nested(members, "retweeted_status")?;
        Ok(
            (
                quoted_status_id,
                quoted_status_id_str,
                is_quote_status,
                quoted_status,
                retweeted_status,
            ),
        )
    }

    proof fn lemma_embedded_round_trip(v: TweetView)
        ensures
            Tweet::encodable(v) && Tweet::canonical(v) ==> Tweet::embedded_of(
                Tweet::encoding(v)->Object_0, Ok(v.quoted_status), Ok(v.retweeted_status),
            ) == Ok::<EmbeddedView, Fault>(
                (
                    v.quoted_status_id,
                    v.quoted_status_id_str,
                    v.is_quote_status,
                    v.quoted_status,
                    v.retweeted_status,
                ),
            ),
    {
        reveal(Tweet::embedded_of);
        Self::lemma_members(v);
    }

    proof fn lemma_embedded_canonical(
        m: Members,
        quoted_status: Result<Option<Box<TweetView>>, Fault>,
        retweeted_status: Result<Option<Box<TweetView>>, Fault>,
    )
        ensures
            Tweet::embedded_of(m, quoted_status, retweeted_status) matches Ok(got) ==> {
                &&& optional_encodable::<u64>(got.0)
                &&& optional_canonical::<u64>(got.0)
                &&& optional_encodable::<String>(got.1)
                &&& optional_canonical::<String>(got.1)
                &&& bool::encodable(got.2)
                &&& bool::canonical(got.2)
                &&& quoted_status == Ok::<Option<Box<TweetView>>, Fault>(got.3)
                &&& retweeted_status == Ok::<Option<Box<TweetView>>, Fault>(got.4)
            },
    {
        reveal(Tweet::embedded_of);
    }

    proof fn lemma_embedded_by_name(
        a: Members,
        b: Members,
        quoted_status: Result<Option<Box<TweetView>>, Fault>,
        retweeted_status: Result<Option<Box<TweetView>>, Fault>,
    )
        requires
            member(a, "quoted_status_id"@) == member(b, "quoted_status_id"@),
            member(a, "quoted_status_id_str"@) == member(b, "quoted_status_id_str"@),
            member(a, "is_quote_status"@) == member(b, "is_quote_status"@),
        ensures
            Tweet::embedded_of(a, quoted_status, retweeted_status) == Tweet::embedded_of(
                b, quoted_status, retweeted_status,
            ),
    {
        reveal(Tweet::embedded_of);
    }

    /// What the members of an object give to the fields that count the
    /// reactions to the status.
    #[verifier::opaque]
    pub open spec fn counts_of(m: Members) -> Result<CountsView, Fault> {
        let quote_count = optional_field::<u32>(m, "quote_count"@);
        let reply_count = optional_field::<u32>(m, "reply_count"@);
        let retweet_count = optional_field::<u32>(m, "retweet_count"@);
        let favorite_count = optional_field::<u32>(m, "favorite_count"@);
        if quote_count is Err {
            Err(quote_count->Err_0)
        } else if reply_count is Err {
            Err(reply_count->Err_0)
        } else if retweet_count is Err {
            Err(retweet_count->Err_0)
        } else if favorite_count is Err {
            Err(favorite_count->Err_0)
        } else {
            Ok((quote_count->Ok_0, reply_count->Ok_0, retweet_count->Ok_0, favorite_count->Ok_0))
        }
    }

    fn take_counts(members: &Vec<(String, Json)>) -> (r: Result<Counts, MalformedPayload>)
        ensures
            view_result(r) == Tweet::counts_of(members_view(members@)),
    {
        reveal(Tweet::counts_of);
        let quote_count = take_optional::<u32>(members, "quote_count")?;
        let reply_count = take_optional::<u32>(members, "reply_count")?;
        let retweet_count = take_optional::<u32>(members, "retweet_count")?;
        let favorite_count = take_optional::<u32>(members, "favorite_count")?;
        Ok((quote_count, reply_count, retweet_count, favorite_count))
    }

    proof fn lemma_counts_round_trip(v: TweetView)
        ensures
            Tweet::encodable(v) && Tweet::canonical(v) ==> Tweet::counts_of(
                Tweet::encoding(v)->Object_0,
            ) == Ok::<CountsView, Fault>(
                (v.quote_count, v.reply_count, v.retweet_count, v.favorite_count),
            ),
    {
        reveal(Tweet::counts_of);
        Self::lemma_members(v);
    }

    proof fn lemma_counts_canonical(m: Members)
        ensures
            Tweet::counts_of(m) matches Ok(got) ==> {
                &&& optional_encodable::<u32>(got.0)
                &&& optional_canonical::<u32>(got.0)
                &&& optional_encodable::<u32>(got.1)
                &&& optional_canonical::<u32>(got.1)
                &&& optional_encodable::<u32>(got.2)
                &&& optional_canonical::<u32>(got.2)
                &&& optional_encodable::<u32>(got.3)
                &&& optional_canonical::<u32>(got.3)
            },
    {
        reveal(Tweet::counts_of);
    }

    proof fn lemma_counts_by_name(a: Members, b: Members)
        requires
            member(a, "quote_count"@) == member(b, "quote_count"@),
            member(a, "reply_count"@) == member(b, "reply_count"@),
            member(a, "retweet_count"@) == member(b, "retweet_count"@),
            member(a, "favorite_count"@) == member(b, "favorite_count"@),
        ensures
            Tweet::counts_of(a) == Tweet::counts_of(b),
    {
        reveal(Tweet::counts_of);
    }

    /// What the members of an object give to the fields that say what the text
    /// holds and how it is rated.
    #[verifier::opaque]
    pub open spec fn content_of(m: Members) -> Result<ContentView, Fault> {
        let entities = optional_field::<Entity>(m, "entities"@);
        let extended_entities = optional_field::<ExtendedEntity>(m, "extended_entities"@);
        let favorited = optional_field::<bool>(m, "favorited"@);
        let retweeted = required_field::<bool>(m, "retweeted"@);
        let possibly_sensitive = optional_field::<bool>(m, "possibly_sensitive"@);
        let filter_level = required_field::<String>(m, "filter_level"@);
        let lang = optional_field::<String>(m, "lang"@);
        if entities is Err {
            Err(entities->Err_0)
        } else if extended_entities is Err {
            Err(extended_entities->Err_0)
        } else if favorited is Err {
            Err(favorited->Err_0)
        } else if retweeted is Err {
            Err(retweeted->Err_0)
        } else if possibly_sensitive is Err {
            Err(possibly_sensitive->Err_0)
        } else if filter_level is Err {
            Err(filter_level->Err_0)
        } else if lang is Err {
            Err(lang->Err_0)
        } else {
            Ok(
                (
                    entities->Ok_0,
                    extended_entities->Ok_0,
                    favorited->Ok_0,
                    retweeted->Ok_0,
                    possibly_sensitive->Ok_0,
                    filter_level->Ok_0,
                    lang->Ok_0,
                ),
            )
        }
    }

    fn take_content(members: &Vec<(String, Json)>) -> (r: Result<Content, MalformedPayload>)
        ensures
            view_result(r) == Tweet::content_of(members_view(members@)),
    {
        reveal(Tweet::content_of);
        let entities = take_optional::<Entity>(members, "entities")?;
        let extended_entities = take_optional::<ExtendedEntity>(members, "extended_entities")?;
        let favorited = take_optional::<bool>(members, "favorited")?;
        let retweeted = take_required::<bool>(members, "retweeted")?;
        let possibly_sensitive = take_optional::<bool>(members, "possibly_sensitive")?;
        let filter_level = take_required::<String>(members, "filter_level")?;
        let lang = take_optional::<String>(members, "lang")?;
        Ok(
            (
                entities,
                extended_entities,
                favorited,
                retweeted,
                possibly_sensitive,
                filter_level,
                lang,
            ),
        )
    }

    proof fn lemma_content_round_trip(v: TweetView)
        ensures
            Tweet::encodable(v) && Tweet::canonical(v) ==> Tweet::content_of(
                Tweet::encoding(v)->Object_0,
            ) == Ok::<ContentView, Fault>(
                (
                    v.entities,
                    v.extended_entities,
                    v.favorited,
                    v.retweeted,
                    v.possibly_sensitive,
                    v.filter_level,
                    v.lang,
                ),
            ),
    {
        reveal(Tweet::content_of);
        Self::lemma_members(v);
        if let Some(inner) = v.entities {
            Entity::round_trip(inner);
        }
        if let Some(inner) = v.extended_entities {
            ExtendedEntity::round_trip(inner);
        }
    }

    proof fn lemma_content_canonical(m: Members)
        ensures
            Tweet::content_of(m) matches Ok(got) ==> {
                &&& optional_encodable::<Entity>(got.0)
                &&& optional_canonical::<Entity>(got.0)
                &&& optional_encodable::<ExtendedEntity>(got.1)
                &&& optional_canonical::<ExtendedEntity>(got.1)
                &&& optional_encodable::<bool>(got.2)
                &&& optional_canonical::<bool>(got.2)
                &&& bool::encodable(got.3)
                &&& bool::canonical(got.3)
                &&& optional_encodable::<bool>(got.4)
                &&& optional_canonical::<bool>(got.4)
                &&& String::encodable(got.5)
                &&& String::canonical(got.5)
                &&& optional_encodable::<String>(got.6)
                &&& optional_canonical::<String>(got.6)
            },
    {
        reveal(Tweet::content_of);
        Entity::decoded_canonical(member(m, "entities"@).unwrap());
        ExtendedEntity::decoded_canonical(member(m, "extended_entities"@).unwrap());
    }

    proof fn lemma_content_by_name(a: Members, b: Members)
        requires
            member(a, "entities"@) == member(b, "entities"@),
            member(a, "extended_entities"@) == member(b, "extended_entities"@),
            member(a, "favorited"@) == member(b, "favorited"@),
            member(a, "retweeted"@) == member(b, "retweeted"@),
            member(a, "possibly_sensitive"@) == member(b, "possibly_sensitive"@),
            member(a, "filter_level"@) == member(b, "filter_level"@),
            member(a, "lang"@) == member(b, "lang"@),
        ensures
            Tweet::content_of(a) == Tweet::content_of(b),
    {
        reveal(Tweet::content_of);
    }

    /// What the members of an object give to the fields that say where the
    /// status is withheld.
    #[verifier::opaque]
    pub open spec fn withheld_of(m: Members) -> Result<WithheldView, Fault> {
        let withheld_copyright = optional_field::<bool>(m, "withheld_copyright"@);
        let withheld_in_countries = optional_field::<Vec<String>>(m, "withheld_in_countries"@);
        let withheld_scope = optional_field::<String>(m, "withheld_scope"@);
        if withheld_copyright is Err {
            Err(withheld_copyright->Err_0)
        } else if withheld_in_countries is Err {
            Err(withheld_in_countries->Err_0)
        } else if withheld_scope is Err {
            Err(withheld_scope->Err_0)
        } else {
            Ok((withheld_copyright->Ok_0, withheld_in_countries->Ok_0, withheld_scope->Ok_0))
        }
    }

    fn take_withheld(members: &Vec<(String, Json)>) -> (r: Result<Withheld, MalformedPayload>)
        ensures
            view_result(r) == Tweet::withheld_of(members_view(members@)),
    {
        reveal(Tweet::withheld_of);
        let withheld_copyright = take_optional::<bool>(members, "withheld_copyright")?;
        let withheld_in_countries = take_optional::<Vec<String>>(members, "withheld_in_countries")?;
        let withheld_scope = take_optional::<String>(members, "withheld_scope")?;
        Ok((withheld_copyright, withheld_in_countries, withheld_scope))
    }

    proof fn lemma_withheld_round_trip(v: TweetView)
        ensures
            Tweet::encodable(v) && Tweet::canonical(v) ==> Tweet::withheld_of(
                Tweet::encoding(v)->Object_0,
            ) == Ok::<WithheldView, Fault>(
                (v.withheld_copyright, v.withheld_in_countries, v.withheld_scope),
            ),
    {
        reveal(Tweet::withheld_of);
        Self::lemma_members(v);
        if let Some(inner) = v.withheld_in_countries {
            Vec::<String>::round_trip(inner);
        }
    }

    proof fn lemma_withheld_canonical(m: Members)
        ensures
            Tweet::withheld_of(m) matches Ok(got) ==> {
                &&& optional_encodable::<bool>(got.0)
                &&& optional_canonical::<bool>(got.0)
                &&& optional_encodable::<Vec<String>>(got.1)
                &&& optional_canonical::<Vec<String>>(got.1)
                &&& optional_encodable::<String>(got.2)
                &&& optional_canonical::<String>(got.2)
            },
    {
        reveal(Tweet::withheld_of);
        Vec::<String>::decoded_canonical(member(m, "withheld_in_countries"@).unwrap());
    }

    proof fn lemma_withheld_by_name(a: Members, b: Members)
        requires
            member(a, "withheld_copyright"@) == member(b, "withheld_copyright"@),
            member(a, "withheld_in_countries"@) == member(b, "withheld_in_countries"@),
            member(a, "withheld_scope"@) == member(b, "withheld_scope"@),
        ensures
            Tweet::withheld_of(a) == Tweet::withheld_of(b),
    {
        reveal(Tweet::withheld_of);
    }

    /// What the members of an object give to the fields that are kept for older
    /// captures.
    #[verifier::opaque]
    pub open spec fn legacy_of(m: Members) -> Result<LegacyView, Fault> {
        let contributors = optional_field::<String>(m, "contributors"@);
        let display_text_range = optional_field::<(u32, u32)>(m, "display_text_range"@);
        let geo = optional_field::<Coordinates>(m, "geo"@);
        let quoted_status_permalink = optional_field::<LegacyUrl>(m, "quoted_status_permalink"@);
        let timestamp_ms = optional_field::<String>(m, "timestamp_ms"@);
        if contributors is Err {
            Err(contributors->Err_0)
        } else if display_text_range is Err {
            Err(display_text_range->Err_0)
        } else if geo is Err {
            Err(geo->Err_0)
        } else if quoted_status_permalink is Err {
            Err(quoted_status_permalink->Err_0)
        } else if timestamp_ms is Err {
            Err(timestamp_ms->Err_0)
        } else {
            Ok(
                (
                    contributors->Ok_0,
                    display_text_range->Ok_0,
                    geo->Ok_0,
                    quoted_status_permalink->Ok_0,
                    timestamp_ms->Ok_0,
                ),
            )
        }
    }

    fn take_legacy(members: &Vec<(String, Json)>) -> (r: Result<Legacy, MalformedPayload>)
        ensures
            view_result(r) == Tweet::legacy_of(members_view(members@)),
    {
        reveal(Tweet::legacy_of);
        let contributors = take_optional::<String>(members, "contributors")?;
        let display_text_range = take_optional::<(u32, u32)>(members, "display_text_range")?;
        let geo = take_optional::<Coordinates>(members, "geo")?;
        let quoted_status_permalink = take_optional::<LegacyUrl>(
            members,
            "quoted_status_permalink",
        )?;
        let timestamp_ms = take_optional::<String>(members, "timestamp_ms")?;
        Ok((contributors, display_text_range, geo, quoted_status_permalink, timestamp_ms))
    }

    proof fn lemma_legacy_round_trip(v: TweetView)
        ensures
            Tweet::encodable(v) && Tweet::canonical(v) ==> Tweet::legacy_of(
                Tweet::encoding(v)->Object_0,
            ) == Ok::<LegacyView, Fault>(
                (
                    v.contributors,
                    v.display_text_range,
                    v.geo,
                    v.quoted_status_permalink,
                    v.timestamp_ms,
                ),
            ),
    {
        reveal(Tweet::legacy_of);
        Self::lemma_members(v);
        if let Some(inner) = v.display_text_range {
            <(u32, u32)>::round_trip(inner);
        }
        if let Some(inner) = v.geo {
            Coordinates::round_trip(inner);
        }
        if let Some(inner) = v.quoted_status_permalink {
            LegacyUrl::round_trip(inner);
        }
    }

    proof fn lemma_legacy_canonical(m: Members)
        ensures
            Tweet::legacy_of(m) matches Ok(got) ==> {
                &&& optional_encodable::<String>(got.0)
                &&& optional_canonical::<String>(got.0)
                &&& optional_encodable::<(u32, u32)>(got.1)
                &&& optional_canonical::<(u32, u32)>(got.1)
                &&& optional_encodable::<Coordinates>(got.2)
                &&& optional_canonical::<Coordinates>(got.2)
                &&& optional_encodable::<LegacyUrl>(got.3)
                &&& optional_canonical::<LegacyUrl>(got.3)
                &&& optional_encodable::<String>(got.4)
                &&& optional_canonical::<String>(got.4)
            },
    {
        reveal(Tweet::legacy_of);
        <(u32, u32)>::decoded_canonical(member(m, "display_text_range"@).unwrap());
        Coordinates::decoded_canonical(member(m, "geo"@).unwrap());
        LegacyUrl::decoded_canonical(member(m, "quoted_status_permalink"@).unwrap());
    }

    proof fn lemma_legacy_by_name(a: Members, b: Members)
        requires
            member(a, "contributors"@) == member(b, "contributors"@),
            member(a, "display_text_range"@) == member(b, "display_text_range"@),
            member(a, "geo"@) == member(b, "geo"@),
            member(a, "quoted_status_permalink"@) == member(b, "quoted_status_permalink"@),
            member(a, "timestamp_ms"@) == member(b, "timestamp_ms"@),
        ensures
            Tweet::legacy_of(a) == Tweet::legacy_of(b),
    {
        reveal(Tweet::legacy_of);
    }

    /// The status that is made of its fields, section by section.
    #[verifier::opaque]
    pub open spec fn assembled(
        identity: IdentityView,
        reply: ReplyView,
        origin: OriginView,
        embedded: EmbeddedView,
        counts: CountsView,
        content: ContentView,
        withheld: WithheldView,
        legacy: LegacyView,
    ) -> TweetView {
        TweetView {
            created_at: identity.0,
            id: identity.1,
            id_str: identity.2,
            text: identity.3,
            source: identity.4,
            truncated: identity.5,
            in_reply_to_status_id: reply.0,
            in_reply_to_status_id_str: reply.1,
            in_reply_to_user_id: reply.2,
            in_reply_to_user_id_str: reply.3,
            in_reply_to_screen_name: reply.4,
            user: origin.0,
            extended_tweet: origin.1,
            coordinates: origin.2,
            place: origin.3,
            quoted_status_id: embedded.0,
            quoted_status_id_str: embedded.1,
            is_quote_status: embedded.2,
            quoted_status: embedded.3,
            retweeted_status: embedded.4,
            quote_count: counts.0,
            reply_count: counts.1,
            retweet_count: counts.2,
            favorite_count: counts.3,
            entities: content.0,
            extended_entities: content.1,
            favorited: content.2,
            retweeted: content.3,
            possibly_sensitive: content.4,
            filter_level: content.5,
            lang: content.6,
            withheld_copyright: withheld.0,
            withheld_in_countries: withheld.1,
            withheld_scope: withheld.2,
            contributors: legacy.0,
            display_text_range: legacy.1,
            geo: legacy.2,
            quoted_status_permalink: legacy.3,
            timestamp_ms: legacy.4,
        }
    }

    fn assemble(
        identity: Identity,
        reply: Reply,
        origin: Origin,
        embedded: Embedded,
        counts: Counts,
        content: Content,
        withheld: Withheld,
        legacy: Legacy,
    ) -> (status: Tweet)
        ensures
            status.deep_view() == Tweet::assembled(
                identity.deep_view(),
                reply.deep_view(),
                origin.deep_view(),
                Tweet::embedded_view(embedded),
                counts.deep_view(),
                content.deep_view(),
                withheld.deep_view(),
                legacy.deep_view(),
            ),
    {
        reveal(Tweet::assembled);
        Tweet {
            created_at: identity.0,
            id: identity.1,
            id_str: identity.2,
            text: identity.3,
            source: identity.4,
            truncated: identity.5,
            in_reply_to_status_id: reply.0,
            in_reply_to_status_id_str: reply.1,
            in_reply_to_user_id: reply.2,
            in_reply_to_user_id_str: reply.3,
            in_reply_to_screen_name: reply.4,
            user: origin.0,
            extended_tweet: origin.1,
            coordinates: origin.2,
            place: origin.3,
            quoted_status_id: embedded.0,
            quoted_status_id_str: embedded.1,
            is_quote_status: embedded.2,
            quoted_status: embedded.3,
            retweeted_status: embedded.4,
            quote_count: counts.0,
            reply_count: counts.1,
            retweet_count: counts.2,
            favorite_count: counts.3,
            entities: content.0,
            extended_entities: content.1,
            favorited: content.2,
            retweeted: content.3,
            possibly_sensitive: content.4,
            filter_level: content.5,
            lang: content.6,
            withheld_copyright: withheld.0,
            withheld_in_countries: withheld.1,
            withheld_scope: withheld.2,
            contributors: legacy.0,
            display_text_range: legacy.1,
            geo: legacy.2,
            quoted_status_permalink: legacy.3,
            timestamp_ms: legacy.4,
        }
    }

    /// The members of the wire form can be written exactly when the wire
    /// form of each field can.
    proof fn lemma_members_writable(v: TweetView)
        ensures
            members_writable(Tweet::encoding(v)->Object_0) <==> {
                &&& writable(Timestamp::encoding(v.created_at))
                &&& writable(u64::encoding(v.id))
                &&& writable(String::encoding(v.id_str))
                &&& writable(String::encoding(v.text))
                &&& writable(String::encoding(v.source))
                &&& writable(bool::encoding(v.truncated))
                &&& writable(optional_encoding::<u64>(v.in_reply_to_status_id))
                &&& writable(optional_encoding::<String>(v.in_reply_to_status_id_str))
                &&& writable(optional_encoding::<u64>(v.in_reply_to_user_id))
                &&& writable(optional_encoding::<String>(v.in_reply_to_user_id_str))
                &&& writable(optional_encoding::<String>(v.in_reply_to_screen_name))
                &&& writable(User::encoding(v.user))
                &&& writable(optional_encoding::<ExtendedTweet>(v.extended_tweet))
                &&& writable(optional_encoding::<Coordinates>(v.coordinates))
                &&& writable(optional_encoding::<Place>(v.place))
                &&& writable(optional_encoding::<u64>(v.quoted_status_id))
                &&& writable(optional_encoding::<String>(v.quoted_status_id_str))
                &&& writable(bool::encoding(v.is_quote_status))
                &&& writable(Tweet::nested_encoding(v.quoted_status))
                &&& writable(Tweet::nested_encoding(v.retweeted_status))
                &&& writable(optional_encoding::<u32>(v.quote_count))
                &&& writable(optional_encoding::<u32>(v.reply_count))
                &&& writable(optional_encoding::<u32>(v.retweet_count))
                &&& writable(optional_encoding::<u32>(v.favorite_count))
                &&& writable(optional_encoding::<Entity>(v.entities))
                &&& writable(optional_encoding::<ExtendedEntity>(v.extended_entities))
                &&& writable(optional_encoding::<bool>(v.favorited))
                &&& writable(bool::encoding(v.retweeted))
                &&& writable(optional_encoding::<bool>(v.possibly_sensitive))
                &&& writable(String::encoding(v.filter_level))
                &&& writable(optional_encoding::<String>(v.lang))
                &&& writable(optional_encoding::<bool>(v.withheld_copyright))
                &&& writable(optional_encoding::<Vec<String>>(v.withheld_in_countries))
                &&& writable(optional_encoding::<String>(v.withheld_scope))
                &&& writable(optional_encoding::<String>(v.contributors))
                &&& writable(optional_encoding::<(u32, u32)>(v.display_text_range))
                &&& writable(optional_encoding::<Coordinates>(v.geo))
                &&& writable(optional_encoding::<LegacyUrl>(v.quoted_status_permalink))
                &&& writable(optional_encoding::<String>(v.timestamp_ms))
            },
    {
        broadcast use lemma_members_writable_push;

        assert(members_writable(Seq::<(Seq<char>, JsonView)>::empty()));
    }

    proof fn lemma_identity_writable(v: TweetView)
        ensures
            Tweet::encodable(v) ==> writable(Timestamp::encoding(v.created_at)),
            Tweet::encodable(v) ==> writable(u64::encoding(v.id)),
            Tweet::encodable(v) ==> writable(String::encoding(v.id_str)),
            Tweet::encodable(v) ==> writable(String::encoding(v.text)),
            Tweet::encodable(v) ==> writable(String::encoding(v.source)),
            Tweet::encodable(v) ==> writable(bool::encoding(v.truncated)),
    {
        Timestamp::writable_encoding(v.created_at);
    }

    proof fn lemma_reply_writable(v: TweetView)
        ensures
            Tweet::encodable(v) ==> writable(optional_encoding::<u64>(v.in_reply_to_status_id)),
            Tweet::encodable(v) ==> writable(
                optional_encoding::<String>(v.in_reply_to_status_id_str),
            ),
            Tweet::encodable(v) ==> writable(optional_encoding::<u64>(v.in_reply_to_user_id)),
            Tweet::encodable(v) ==> writable(
                optional_encoding::<String>(v.in_reply_to_user_id_str),
            ),
            Tweet::encodable(v) ==> writable(
                optional_encoding::<String>(v.in_reply_to_screen_name),
            ),
    {
    }

    proof fn lemma_origin_writable(v: TweetView)
        ensures
            Tweet::encodable(v) ==> writable(User::encoding(v.user)),
            Tweet::encodable(v) ==> writable(optional_encoding::<ExtendedTweet>(v.extended_tweet)),
            Tweet::encodable(v) ==> writable(optional_encoding::<Coordinates>(v.coordinates)),
            Tweet::encodable(v) ==> writable(optional_encoding::<Place>(v.place)),
    {
        User::writable_encoding(v.user);
        if let Some(inner) = v.extended_tweet {
            ExtendedTweet::writable_encoding(inner);
        }
        if let Some(inner) = v.coordinates {
            Coordinates::writable_encoding(inner);
        }
        if let Some(inner) = v.place {
            Place::writable_encoding(inner);
        }
    }

    proof fn lemma_embedded_writable(v: TweetView)
        ensures
            Tweet::encodable(v) ==> writable(optional_encoding::<u64>(v.quoted_status_id)),
            Tweet::encodable(v) ==> writable(optional_encoding::<String>(v.quoted_status_id_str)),
            Tweet::encodable(v) ==> writable(bool::encoding(v.is_quote_status)),
            Tweet::encodable(v) ==> writable(Tweet::nested_encoding(v.quoted_status)),
            Tweet::encodable(v) ==> writable(Tweet::nested_encoding(v.retweeted_status)),
        decreases v, 0nat,
    {
        if let Some(inner) = v.quoted_status {
            Tweet::writable_encoding(*inner);
        }
        if let Some(inner) = v.retweeted_status {
            Tweet::writable_encoding(*inner);
        }
    }

    proof fn lemma_counts_writable(v: TweetView)
        ensures
            Tweet::encodable(v) ==> writable(optional_encoding::<u32>(v.quote_count)),
            Tweet::encodable(v) ==> writable(optional_encoding::<u32>(v.reply_count)),
            Tweet::encodable(v) ==> writable(optional_encoding::<u32>(v.retweet_count)),
            Tweet::encodable(v) ==> writable(optional_encoding::<u32>(v.favorite_count)),
    {
    }

    proof fn lemma_content_writable(v: TweetView)
        ensures
            Tweet::encodable(v) ==> writable(optional_encoding::<Entity>(v.entities)),
            Tweet::encodable(v) ==> writable(
                optional_encoding::<ExtendedEntity>(v.extended_entities),
            ),
            Tweet::encodable(v) ==> writable(optional_encoding::<bool>(v.favorited)),
            Tweet::encodable(v) ==> writable(bool::encoding(v.retweeted)),
            Tweet::encodable(v) ==> writable(optional_encoding::<bool>(v.possibly_sensitive)),
            Tweet::encodable(v) ==> writable(String::encoding(v.filter_level)),
            Tweet::encodable(v) ==> writable(optional_encoding::<String>(v.lang)),
    {
        if let Some(inner) = v.entities {
            Entity::writable_encoding(inner);
        }
        if let Some(inner) = v.extended_entities {
            ExtendedEntity::writable_encoding(inner);
        }
    }

    proof fn lemma_withheld_writable(v: TweetView)
        ensures
            Tweet::encodable(v) ==> writable(optional_encoding::<bool>(v.withheld_copyright)),
            Tweet::encodable(v) ==> writable(
                optional_encoding::<Vec<String>>(v.withheld_in_countries),
            ),
            Tweet::encodable(v) ==> writable(optional_encoding::<String>(v.withheld_scope)),
    {
        if let Some(inner) = v.withheld_in_countries {
            Vec::<String>::writable_encoding(inner);
        }
    }

    proof fn lemma_legacy_writable(v: TweetView)
        ensures
            Tweet::encodable(v) ==> writable(optional_encoding::<String>(v.contributors)),
            Tweet::encodable(v) ==> writable(optional_encoding::<(u32, u32)>(v.display_text_range)),
            Tweet::encodable(v) ==> writable(optional_encoding::<Coordinates>(v.geo)),
            Tweet::encodable(v) ==> writable(
                optional_encoding::<LegacyUrl>(v.quoted_status_permalink),
            ),
            Tweet::encodable(v) ==> writable(optional_encoding::<String>(v.timestamp_ms)),
    {
        if let Some(inner) = v.display_text_range {
            <(u32, u32)>::writable_encoding(inner);
        }
        if let Some(inner) = v.geo {
            Coordinates::writable_encoding(inner);
        }
        if let Some(inner) = v.quoted_status_permalink {
            LegacyUrl::writable_encoding(inner);
        }
    }

    /// A read goes by the names of the members alone: two objects that give
    /// the same to each name of the model decode alike, whatever else they
    /// hold and in whatever order.
    pub proof fn lemma_reads_by_name(a: Members, b: Members)
        requires
            member(a, "created_at"@) == member(b, "created_at"@),
            member(a, "id"@) == member(b, "id"@),
            member(a, "id_str"@) == member(b, "id_str"@),
            member(a, "text"@) == member(b, "text"@),
            member(a, "source"@) == member(b, "source"@),
            member(a, "truncated"@) == member(b, "truncated"@),
            member(a, "in_reply_to_status_id"@) == member(b, "in_reply_to_status_id"@),
            member(a, "in_reply_to_status_id_str"@) == member(b, "in_reply_to_status_id_str"@),
            member(a, "in_reply_to_user_id"@) == member(b, "in_reply_to_user_id"@),
            member(a, "in_reply_to_user_id_str"@) == member(b, "in_reply_to_user_id_str"@),
            member(a, "in_reply_to_screen_name"@) == member(b, "in_reply_to_screen_name"@),
            member(a, "user"@) == member(b, "user"@),
            member(a, "extended_tweet"@) == member(b, "extended_tweet"@),
            member(a, "coordinates"@) == member(b, "coordinates"@),
            member(a, "place"@) == member(b, "place"@),
            member(a, "quoted_status_id"@) == member(b, "quoted_status_id"@),
            member(a, "quoted_status_id_str"@) == member(b, "quoted_status_id_str"@),
            member(a, "is_quote_status"@) == member(b, "is_quote_status"@),
            member(a, "quoted_status"@) == member(b, "quoted_status"@),
            member(a, "retweeted_status"@) == member(b, "retweeted_status"@),
            member(a, "quote_count"@) == member(b, "quote_count"@),
            member(a, "reply_count"@) == member(b, "reply_count"@),
            member(a, "retweet_count"@) == member(b, "retweet_count"@),
            member(a, "favorite_count"@) == member(b, "favorite_count"@),
            member(a, "entities"@) == member(b, "entities"@),
            member(a, "extended_entities"@) == member(b, "extended_entities"@),
            member(a, "favorited"@) == member(b, "favorited"@),
            member(a, "retweeted"@) == member(b, "retweeted"@),
            member(a, "possibly_sensitive"@) == member(b, "possibly_sensitive"@),
            member(a, "filter_level"@) == member(b, "filter_level"@),
            member(a, "lang"@) == member(b, "lang"@),
            member(a, "withheld_copyright"@) == member(b, "withheld_copyright"@),
            member(a, "withheld_in_countries"@) == member(b, "withheld_in_countries"@),
            member(a, "withheld_scope"@) == member(b, "withheld_scope"@),
            member(a, "contributors"@) == member(b, "contributors"@),
            member(a, "display_text_range"@) == member(b, "display_text_range"@),
            member(a, "geo"@) == member(b, "geo"@),
            member(a, "quoted_status_permalink"@) == member(b, "quoted_status_permalink"@),
            member(a, "timestamp_ms"@) == member(b, "timestamp_ms"@),
        ensures
            Tweet::decoded(JsonView::Object(a)) == Tweet::decoded(JsonView::Object(b)),
    {
        reveal(Tweet::from_members);
        Self::lemma_identity_by_name(a, b);
        Self::lemma_reply_by_name(a, b);
        Self::lemma_origin_by_name(a, b);
        Self::lemma_embedded_by_name(
            a,
            b,
            Tweet::nested_field(a, "quoted_status"@),
            Tweet::nested_field(a, "retweeted_status"@),
        );
        Self::lemma_counts_by_name(a, b);
        Self::lemma_content_by_name(a, b);
        Self::lemma_withheld_by_name(a, b);
        Self::lemma_legacy_by_name(a, b);
    }

    /// What the members of an object decode to: each field from the member of
    /// its name, in the order of the fields, the first fault ending the read.
    /// Members of other names are passed over.
    /// What the nested statuses decode to is handed in.
    #[verifier::opaque]
    pub open spec fn from_members(
        m: Members,
        quoted_status: Result<Option<Box<TweetView>>, Fault>,
        retweeted_status: Result<Option<Box<TweetView>>, Fault>,
    ) -> Result<TweetView, Fault> {
        let identity = Tweet::identity_of(m);
        let reply = Tweet::reply_of(m);
        let origin = Tweet::origin_of(m);
        let embedded = Tweet::embedded_of(m, quoted_status, retweeted_status);
        let counts = Tweet::counts_of(m);
        let content = Tweet::content_of(m);
        let withheld = Tweet::withheld_of(m);
        let legacy = Tweet::legacy_of(m);
        if identity is Err {
            Err(identity->Err_0)
        } else if reply is Err {
            Err(reply->Err_0)
        } else if origin is Err {
            Err(origin->Err_0)
        } else if embedded is Err {
            Err(embedded->Err_0)
        } else if counts is Err {
            Err(counts->Err_0)
        } else if content is Err {
            Err(content->Err_0)
        } else if withheld is Err {
            Err(withheld->Err_0)
        } else if legacy is Err {
            Err(legacy->Err_0)
        } else {
            Ok(Tweet::assembled(
                identity->Ok_0,
                reply->Ok_0,
                origin->Ok_0,
                embedded->Ok_0,
                counts->Ok_0,
                content->Ok_0,
                withheld->Ok_0,
                legacy->Ok_0,
            ))
        }
    }
}

impl Wire for Tweet {
    open spec fn decoded(j: JsonView) -> Result<TweetView, Fault>
        decreases j, 1nat,
    {
        match j {
            JsonView::Object(m) => Tweet::from_members(
                m,
                Tweet::nested_field(m, "quoted_status"@),
                Tweet::nested_field(m, "retweeted_status"@),
            ),
            _ => Err(Fault::at(Cause::TypeMismatch)),
        }
    }

    open spec fn encodable(v: TweetView) -> bool
        decreases v,
    {
        &&& Timestamp::encodable(v.created_at)
        &&& u64::encodable(v.id)
        &&& String::encodable(v.id_str)
        &&& String::encodable(v.text)
        &&& String::encodable(v.source)
        &&& bool::encodable(v.truncated)
        &&& optional_encodable::<u64>(v.in_reply_to_status_id)
        &&& optional_encodable::<String>(v.in_reply_to_status_id_str)
        &&& optional_encodable::<u64>(v.in_reply_to_user_id)
        &&& optional_encodable::<String>(v.in_reply_to_user_id_str)
        &&& optional_encodable::<String>(v.in_reply_to_screen_name)
        &&& User::encodable(v.user)
        &&& optional_encodable::<ExtendedTweet>(v.extended_tweet)
        &&& optional_encodable::<Coordinates>(v.coordinates)
        &&& optional_encodable::<Place>(v.place)
        &&& optional_encodable::<u64>(v.quoted_status_id)
        &&& optional_encodable::<String>(v.quoted_status_id_str)
        &&& bool::encodable(v.is_quote_status)
        &&& (v.quoted_status matches Some(inner) ==> Tweet::encodable(*inner))
        &&& (v.retweeted_status matches Some(inner) ==> Tweet::encodable(*inner))
        &&& optional_encodable::<u32>(v.quote_count)
        &&& optional_encodable::<u32>(v.reply_count)
        &&& optional_encodable::<u32>(v.retweet_count)
        &&& optional_encodable::<u32>(v.favorite_count)
        &&& optional_encodable::<Entity>(v.entities)
        &&& optional_encodable::<ExtendedEntity>(v.extended_entities)
        &&& optional_encodable::<bool>(v.favorited)
        &&& bool::encodable(v.retweeted)
        &&& optional_encodable::<bool>(v.possibly_sensitive)
        &&& String::encodable(v.filter_level)
        &&& optional_encodable::<String>(v.lang)
        &&& optional_encodable::<bool>(v.withheld_copyright)
        &&& optional_encodable::<Vec<String>>(v.withheld_in_countries)
        &&& optional_encodable::<String>(v.withheld_scope)
        &&& optional_encodable::<String>(v.contributors)
        &&& optional_encodable::<(u32, u32)>(v.display_text_range)
        &&& optional_encodable::<Coordinates>(v.geo)
        &&& optional_encodable::<LegacyUrl>(v.quoted_status_permalink)
        &&& optional_encodable::<String>(v.timestamp_ms)
    }

    open spec fn encoding(v: TweetView) -> JsonView
        decreases v,
    {
        JsonView::Object(
            Seq::empty()
                .push(("created_at"@, Timestamp::encoding(v.created_at)))
                .push(("id"@, u64::encoding(v.id)))
                .push(("id_str"@, String::encoding(v.id_str)))
                .push(("text"@, String::encoding(v.text)))
                .push(("source"@, String::encoding(v.source)))
                .push(("truncated"@, bool::encoding(v.truncated)))
                .push(("in_reply_to_status_id"@, optional_encoding::<u64>(v.in_reply_to_status_id)))
                .push(
                    (
                        "in_reply_to_status_id_str"@,
                        optional_encoding::<String>(v.in_reply_to_status_id_str),
                    ),
                )
                .push(("in_reply_to_user_id"@, optional_encoding::<u64>(v.in_reply_to_user_id)))
                .push(
                    (
                        "in_reply_to_user_id_str"@,
                        optional_encoding::<String>(v.in_reply_to_user_id_str),
                    ),
                )
                .push(
                    (
                        "in_reply_to_screen_name"@,
                        optional_encoding::<String>(v.in_reply_to_screen_name),
                    ),
                )
                .push(("user"@, User::encoding(v.user)))
                .push(("extended_tweet"@, optional_encoding::<ExtendedTweet>(v.extended_tweet)))
                .push(("coordinates"@, optional_encoding::<Coordinates>(v.coordinates)))
                .push(("place"@, optional_encoding::<Place>(v.place)))
                .push(("quoted_status_id"@, optional_encoding::<u64>(v.quoted_status_id)))
                .push(
                    ("quoted_status_id_str"@, optional_encoding::<String>(v.quoted_status_id_str)),
                )
                .push(("is_quote_status"@, bool::encoding(v.is_quote_status)))
                .push(("quoted_status"@, Tweet::nested_encoding(v.quoted_status)))
                .push(("retweeted_status"@, Tweet::nested_encoding(v.retweeted_status)))
                .push(("quote_count"@, optional_encoding::<u32>(v.quote_count)))
                .push(("reply_count"@, optional_encoding::<u32>(v.reply_count)))
                .push(("retweet_count"@, optional_encoding::<u32>(v.retweet_count)))
                .push(("favorite_count"@, optional_encoding::<u32>(v.favorite_count)))
                .push(("entities"@, optional_encoding::<Entity>(v.entities)))
                .push(
                    (
                        "extended_entities"@,
                        optional_encoding::<ExtendedEntity>(v.extended_entities),
                    ),
                )
                .push(("favorited"@, optional_encoding::<bool>(v.favorited)))
                .push(("retweeted"@, bool::encoding(v.retweeted)))
                .push(("possibly_sensitive"@, optional_encoding::<bool>(v.possibly_sensitive)))
                .push(("filter_level"@, String::encoding(v.filter_level)))
                .push(("lang"@, optional_encoding::<String>(v.lang)))
                .push(("withheld_copyright"@, optional_encoding::<bool>(v.withheld_copyright)))
                .push(
                    (
                        "withheld_in_countries"@,
                        optional_encoding::<Vec<String>>(v.withheld_in_countries),
                    ),
                )
                .push(("withheld_scope"@, optional_encoding::<String>(v.withheld_scope)))
                .push(("contributors"@, optional_encoding::<String>(v.contributors)))
                .push(
                    ("display_text_range"@, optional_encoding::<(u32, u32)>(v.display_text_range)),
                )
                .push(("geo"@, optional_encoding::<Coordinates>(v.geo)))
                .push(
                    (
                        "quoted_status_permalink"@,
                        optional_encoding::<LegacyUrl>(v.quoted_status_permalink),
                    ),
                )
                .push(("timestamp_ms"@, optional_encoding::<String>(v.timestamp_ms))),
        )
    }

    open spec fn canonical(v: TweetView) -> bool
        decreases v,
    {
        &&& Timestamp::canonical(v.created_at)
        &&& u64::canonical(v.id)
        &&& String::canonical(v.id_str)
        &&& String::canonical(v.text)
        &&& String::canonical(v.source)
        &&& bool::canonical(v.truncated)
        &&& optional_canonical::<u64>(v.in_reply_to_status_id)
        &&& optional_canonical::<String>(v.in_reply_to_status_id_str)
        &&& optional_canonical::<u64>(v.in_reply_to_user_id)
        &&& optional_canonical::<String>(v.in_reply_to_user_id_str)
        &&& optional_canonical::<String>(v.in_reply_to_screen_name)
        &&& User::canonical(v.user)
        &&& optional_canonical::<ExtendedTweet>(v.extended_tweet)
        &&& optional_canonical::<Coordinates>(v.coordinates)
        &&& optional_canonical::<Place>(v.place)
        &&& optional_canonical::<u64>(v.quoted_status_id)
        &&& optional_canonical::<String>(v.quoted_status_id_str)
        &&& bool::canonical(v.is_quote_status)
        &&& (v.quoted_status matches Some(inner) ==> Tweet::canonical(*inner))
        &&& (v.retweeted_status matches Some(inner) ==> Tweet::canonical(*inner))
        &&& optional_canonical::<u32>(v.quote_count)
        &&& optional_canonical::<u32>(v.reply_count)
        &&& optional_canonical::<u32>(v.retweet_count)
        &&& optional_canonical::<u32>(v.favorite_count)
        &&& optional_canonical::<Entity>(v.entities)
        &&& optional_canonical::<ExtendedEntity>(v.extended_entities)
        &&& optional_canonical::<bool>(v.favorited)
        &&& bool::canonical(v.retweeted)
        &&& optional_canonical::<bool>(v.possibly_sensitive)
        &&& String::canonical(v.filter_level)
        &&& optional_canonical::<String>(v.lang)
        &&& optional_canonical::<bool>(v.withheld_copyright)
        &&& optional_canonical::<Vec<String>>(v.withheld_in_countries)
        &&& optional_canonical::<String>(v.withheld_scope)
        &&& optional_canonical::<String>(v.contributors)
        &&& optional_canonical::<(u32, u32)>(v.display_text_range)
        &&& optional_canonical::<Coordinates>(v.geo)
        &&& optional_canonical::<LegacyUrl>(v.quoted_status_permalink)
        &&& optional_canonical::<String>(v.timestamp_ms)
    }

    fn decode(j: &Json) -> (r: Result<Tweet, MalformedPayload>)
        decreases j, 3nat,
    {
        reveal(Tweet::from_members);
        match j {
            Json::Object(members) => {
                let identity = Tweet::take_identity(members)?;
                let reply = Tweet::take_reply(members)?;
                let origin = Tweet::take_origin(members)?;
                let embedded = Tweet::take_embedded(members)?;
                let counts = Tweet::take_counts(members)?;
                let content = Tweet::take_content(members)?;
                let withheld = Tweet::take_withheld(members)?;
                let legacy = Tweet::take_legacy(members)?;
                Ok(Tweet::assemble(
                    identity,
                    reply,
                    origin,
                    embedded,
                    counts,
                    content,
                    withheld,
                    legacy,
                ))
            },
            _ => Err(MalformedPayload::at(Cause::TypeMismatch)),
        }
    }

    fn encode(&self) -> (r: Option<Json>)
        decreases self,
    {
        let mut members: Vec<(String, Json)> = Vec::new();
        assert(members_view(members@) =~= Seq::empty());
        put_required(&mut members, "created_at", &self.created_at)?;
        put_required(&mut members, "id", &self.id)?;
        put_required(&mut members, "id_str", &self.id_str)?;
        put_required(&mut members, "text", &self.text)?;
        put_required(&mut members, "source", &self.source)?;
        put_required(&mut members, "truncated", &self.truncated)?;
        put_optional(&mut members, "in_reply_to_status_id", &self.in_reply_to_status_id)?;
        put_optional(&mut members, "in_reply_to_status_id_str", &self.in_reply_to_status_id_str)?;
        put_optional(&mut members, "in_reply_to_user_id", &self.in_reply_to_user_id)?;
        put_optional(&mut members, "in_reply_to_user_id_str", &self.in_reply_to_user_id_str)?;
        put_optional(&mut members, "in_reply_to_screen_name", &self.in_reply_to_screen_name)?;
        put_required(&mut members, "user", &self.user)?;
        put_optional(&mut members, "extended_tweet", &self.extended_tweet)?;
        put_optional(&mut members, "coordinates", &self.coordinates)?;
        put_optional(&mut members, "place", &self.place)?;
        put_optional(&mut members, "quoted_status_id", &self.quoted_status_id)?;
        put_optional(&mut members, "quoted_status_id_str", &self.quoted_status_id_str)?;
        put_required(&mut members, "is_quote_status", &self.is_quote_status)?;
        Tweet::put_nested(&mut members, "quoted_status", &self.quoted_status)?;
        Tweet::put_nested(&mut members, "retweeted_status", &self.retweeted_status)?;
        put_optional(&mut members, "quote_count", &self.quote_count)?;
        put_optional(&mut members, "reply_count", &self.reply_count)?;
        put_optional(&mut members, "retweet_count", &self.retweet_count)?;
        put_optional(&mut members, "favorite_count", &self.favorite_count)?;
        put_optional(&mut members, "entities", &self.entities)?;
        put_optional(&mut members, "extended_entities", &self.extended_entities)?;
        put_optional(&mut members, "favorited", &self.favorited)?;
        put_required(&mut members, "retweeted", &self.retweeted)?;
        put_optional(&mut members, "possibly_sensitive", &self.possibly_sensitive)?;
        put_required(&mut members, "filter_level", &self.filter_level)?;
        put_optional(&mut members, "lang", &self.lang)?;
        put_optional(&mut members, "withheld_copyright", &self.withheld_copyright)?;
        put_optional(&mut members, "withheld_in_countries", &self.withheld_in_countries)?;
        put_optional(&mut members, "withheld_scope", &self.withheld_scope)?;
        put_optional(&mut members, "contributors", &self.contributors)?;
        put_optional(&mut members, "display_text_range", &self.display_text_range)?;
        put_optional(&mut members, "geo", &self.geo)?;
        put_optional(&mut members, "quoted_status_permalink", &self.quoted_status_permalink)?;
        put_optional(&mut members, "timestamp_ms", &self.timestamp_ms)?;
        Some(Json::Object(members))
    }

    proof fn round_trip(v: TweetView)
        decreases v, 1nat,
    {
        reveal(Tweet::from_members);
        reveal(Tweet::assembled);
        Self::lemma_nested_round_trip(v);
        Self::lemma_identity_round_trip(v);
        Self::lemma_reply_round_trip(v);
        Self::lemma_origin_round_trip(v);
        Self::lemma_embedded_round_trip(v);
        Self::lemma_counts_round_trip(v);
        Self::lemma_content_round_trip(v);
        Self::lemma_withheld_round_trip(v);
        Self::lemma_legacy_round_trip(v);
    }

    proof fn decoded_canonical(j: JsonView)
        decreases j,
    {
        reveal(Tweet::from_members);
        reveal(Tweet::assembled);
        if let JsonView::Object(m) = j {
            Self::lemma_identity_canonical(m);
            Self::lemma_reply_canonical(m);
            Self::lemma_origin_canonical(m);
            Self::lemma_embedded_canonical(
                m,
                Tweet::nested_field(m, "quoted_status"@),
                Tweet::nested_field(m, "retweeted_status"@),
            );
            Self::lemma_counts_canonical(m);
            Self::lemma_content_canonical(m);
            Self::lemma_withheld_canonical(m);
            Self::lemma_legacy_canonical(m);
            if let Some(inner) = member(m, "quoted_status"@) {
                lemma_member_smaller(m, "quoted_status"@);
                Tweet::decoded_canonical(inner);
            }
            if let Some(inner) = member(m, "retweeted_status"@) {
                lemma_member_smaller(m, "retweeted_status"@);
                Tweet::decoded_canonical(inner);
            }
        }
    }

    proof fn writable_encoding(v: TweetView)
        decreases v, 1nat,
    {
        Self::lemma_members_writable(v);
        Self::lemma_identity_writable(v);
        Self::lemma_reply_writable(v);
        Self::lemma_origin_writable(v);
        Self::lemma_embedded_writable(v);
        Self::lemma_counts_writable(v);
        Self::lemma_content_writable(v);
        Self::lemma_withheld_writable(v);
        Self::lemma_legacy_writable(v);
    }
}

/// The whole text of a status whose body was cut short, with what was parsed
/// /// out of it.
#[derive(Debug, PartialEq, Eq)]
pub struct ExtendedTweet {
    /// The text in full.
    pub full_text: String,
    /// Where in the text the part to display begins and ends.
    pub display_text_range: (u32, u32),
    /// What was parsed out of the full text.
    pub entities: Entity,
}

/// The mathematical value of a [`ExtendedTweet`].
pub struct ExtendedTweetView {
    pub full_text: Seq<char>,
    pub display_text_range: (u32, u32),
    pub entities: EntityView,
}

impl DeepView for ExtendedTweet {
    type V = ExtendedTweetView;

    open spec fn deep_view(&self) -> ExtendedTweetView {
        ExtendedTweetView {
            full_text: self.full_text.deep_view(),
            display_text_range: self.display_text_range.deep_view(),
            entities: self.entities.deep_view(),
        }
    }
}

impl ExtendedTweet {
    /// The length and the first character of the name of each member, by
    /// which the names are told apart.
    pub proof fn lemma_names()
        ensures
            "full_text"@.len() == 9 && "full_text"@[0] == 'f',
            "display_text_range"@.len() == 18 && "display_text_range"@[0] == 'd',
            "entities"@.len() == 8 && "entities"@[0] == 'e',
    {
        reveal_strlit("full_text");
        reveal_strlit("display_text_range");
        reveal_strlit("entities");
    }

    /// Each member of the wire form is found under its name.
    pub proof fn lemma_members(v: ExtendedTweetView)
        ensures
            member(ExtendedTweet::encoding(v)->Object_0, "full_text"@) == Some(
                String::encoding(v.full_text),
            ),
            member(ExtendedTweet::encoding(v)->Object_0, "display_text_range"@) == Some(
                <(u32, u32)>::encoding(v.display_text_range),
            ),
            member(ExtendedTweet::encoding(v)->Object_0, "entities"@) == Some(
                Entity::encoding(v.entities),
            ),
    {
        broadcast use lemma_member_push;

        Self::lemma_names();
    }

    /// A read goes by the names of the members alone: two objects that give
    /// the same to each name of the model decode alike, whatever else they
    /// hold and in whatever order.
    pub proof fn lemma_reads_by_name(a: Members, b: Members)
        requires
            member(a, "full_text"@) == member(b, "full_text"@),
            member(a, "display_text_range"@) == member(b, "display_text_range"@),
            member(a, "entities"@) == member(b, "entities"@),
        ensures
            ExtendedTweet::decoded(JsonView::Object(a)) == ExtendedTweet::decoded(
                JsonView::Object(b),
            ),
    {
        reveal(ExtendedTweet::from_members);
    }

    /// What the members of an object decode to: each field from the member of
    /// its name, in the order of the fields, the first fault ending the read.
    /// Members of other names are passed over.
    #[verifier::opaque]
    pub open spec fn from_members(m: Members) -> Result<ExtendedTweetView, Fault> {
        let full_text = required_field::<String>(m, "full_text"@);
        let display_text_range = required_field::<(u32, u32)>(m, "display_text_range"@);
        let entities = required_field::<Entity>(m, "entities"@);
        if full_text is Err {
            Err(full_text->Err_0)
        } else if display_text_range is Err {
            Err(display_text_range->Err_0)
        } else if entities is Err {
            Err(entities->Err_0)
        } else {
            Ok(
                ExtendedTweetView {
                    full_text: full_text->Ok_0,
                    display_text_range: display_text_range->Ok_0,
                    entities: entities->Ok_0,
                },
            )
        }
    }
}

impl Wire for ExtendedTweet {
    open spec fn decoded(j: JsonView) -> Result<ExtendedTweetView, Fault> {
        match j {
            JsonView::Object(m) => ExtendedTweet::from_members(m),
            _ => Err(Fault::at(Cause::TypeMismatch)),
        }
    }

    open spec fn encodable(v: ExtendedTweetView) -> bool {
        &&& String::encodable(v.full_text)
        &&& <(u32, u32)>::encodable(v.display_text_range)
        &&& Entity::encodable(v.entities)
    }

    open spec fn encoding(v: ExtendedTweetView) -> JsonView {
        JsonView::Object(
            Seq::empty()
                .push(("full_text"@, String::encoding(v.full_text)))
                .push(("display_text_range"@, <(u32, u32)>::encoding(v.display_text_range)))
                .push(("entities"@, Entity::encoding(v.entities))),
        )
    }

    open spec fn canonical(v: ExtendedTweetView) -> bool {
        &&& String::canonical(v.full_text)
        &&& <(u32, u32)>::canonical(v.display_text_range)
        &&& Entity::canonical(v.entities)
    }

    fn decode(j: &Json) -> (r: Result<ExtendedTweet, MalformedPayload>) {
        reveal(ExtendedTweet::from_members);
        match j {
            Json::Object(members) => {
                let full_text = take_required::<String>(members, "full_text")?;
                let display_text_range = take_required::<(u32, u32)>(
                    members,
                    "display_text_range",
                )?;
                let entities = take_required::<Entity>(members, "entities")?;
                Ok(ExtendedTweet { full_text, display_text_range, entities })
            },
            _ => Err(MalformedPayload::at(Cause::TypeMismatch)),
        }
    }

    fn encode(&self) -> (r: Option<Json>) {
        let mut members: Vec<(String, Json)> = Vec::new();
        assert(members_view(members@) =~= Seq::empty());
        put_required(&mut members, "full_text", &self.full_text)?;
        put_required(&mut members, "display_text_range", &self.display_text_range)?;
        put_required(&mut members, "entities", &self.entities)?;
        Some(Json::Object(members))
    }

    proof fn round_trip(v: ExtendedTweetView) {
        reveal(ExtendedTweet::from_members);
        Self::lemma_members(v);
        <(u32, u32)>::round_trip(v.display_text_range);
        Entity::round_trip(v.entities);
    }

    proof fn decoded_canonical(j: JsonView) {
        reveal(ExtendedTweet::from_members);
        if let JsonView::Object(m) = j {
            <(u32, u32)>::decoded_canonical(member(m, "display_text_range"@).unwrap());
            Entity::decoded_canonical(member(m, "entities"@).unwrap());
        }
    }

    proof fn writable_encoding(v: ExtendedTweetView) {
        broadcast use lemma_members_writable_push;

        <(u32, u32)>::writable_encoding(v.display_text_range);
        Entity::writable_encoding(v.entities);
        if ExtendedTweet::encodable(v) {
            assert(members_writable(ExtendedTweet::encoding(v)->Object_0));
        }
    }
}

/// `urls`, and after them the address of each item of `media` that has one
/// and is not there yet, in the order of the items.
pub open spec fn with_media(urls: Seq<Seq<char>>, media: Seq<MediaView>) -> Seq<Seq<char>>
    decreases media.len(),
{
    if media.len() == 0 {
        urls
    } else {
        let front = with_media(urls, media.drop_last());
        match media.last().best_url() {
            Some(url) => if front.contains(url) {
                front
            } else {
                front.push(url)
            },
            None => front,
        }
    }
}

impl TweetView {
    /// Whether the status is marked as sensitive; where the mark is absent,
    /// it is not.
    pub open spec fn is_sensitive(self) -> bool {
        self.possibly_sensitive == Some(true)
    }

    /// Whether the status holds a reshared status.
    pub open spec fn is_retweet(self) -> bool {
        self.retweeted_status is Some
    }

    /// Whether the status holds a quoted status.
    pub open spec fn is_quote(self) -> bool {
        self.quoted_status is Some
    }

    /// Whether the status holds its whole text apart from the body.
    pub open spec fn is_extended(self) -> bool {
        self.extended_tweet is Some
    }

    /// Whether the status holds the full list of its media.
    pub open spec fn has_media(self) -> bool {
        self.extended_entities is Some
    }

    /// The identifier of what is shown: that of the reshared status where
    /// there is one, else the status's own.
    pub open spec fn base_id(self) -> u64 {
        match self.retweeted_status {
            Some(reshared) => reshared.id,
            None => self.id,
        }
    }

    /// The address of the status: the author's handle and the identifier in
    /// the link template.
    pub open spec fn permalink(self) -> Seq<char> {
        "https://twitter.com/"@ + self.user.screen_name + "/status/"@ + decimal(self.id as nat)
    }

    /// The whole text: the extended text where there is one; else, for a
    /// reshare, the whole text of the reshared status; else the body.
    pub open spec fn full_text(self) -> Seq<char>
        decreases self,
    {
        match self.extended_tweet {
            Some(extended) => extended.full_text,
            None => match self.retweeted_status {
                Some(reshared) => reshared.full_text(),
                None => self.text,
            },
        }
    }

    /// The addresses of the media: those of the reshared status where there
    /// is one, then those of the status's own media that are not among them
    /// yet, each once.
    pub open spec fn media_urls(self) -> Seq<Seq<char>>
        decreases self,
    {
        let inherited = match self.retweeted_status {
            Some(reshared) => reshared.media_urls(),
            None => Seq::empty(),
        };
        match self.extended_entities {
            Some(extended) => with_media(inherited, extended.media),
            None => inherited,
        }
    }

    /// The text of each hashtag, in the order of the entities.
    pub open spec fn hashtags(self) -> Seq<Seq<char>> {
        match self.entities {
            Some(entities) => Seq::new(entities.hashtags.len(), |i: int| entities.hashtags[i].text),
            None => Seq::empty(),
        }
    }
}

/// Adding media to addresses that are all different leaves them all
/// different, keeps what was there, and adds the address of every item that
/// has one and nothing else.
pub proof fn lemma_with_media(urls: Seq<Seq<char>>, media: Seq<MediaView>)
    requires
        urls.no_duplicates(),
    ensures
        with_media(urls, media).no_duplicates(),
        forall|url: Seq<char>| #[trigger]
            with_media(urls, media).contains(url) <==> urls.contains(url) || exists|i: int|
                0 <= i < media.len() && (#[trigger] media[i]).best_url() == Some(url),
    decreases media.len(),
{
    let all = with_media(urls, media);
    if media.len() > 0 {
        let earlier = media.drop_last();
        let front = with_media(urls, earlier);
        lemma_with_media(urls, earlier);
        assert forall|url: Seq<char>| #[trigger]
            all.contains(url) <==> urls.contains(url) || exists|i: int|
                0 <= i < media.len() && (#[trigger] media[i]).best_url() == Some(url) by {
            if all.contains(url) {
                if front.contains(url) {
                    if !urls.contains(url) {
                        let i = choose|i: int|
                            0 <= i < earlier.len() && (#[trigger] earlier[i]).best_url() == Some(
                                url,
                            );
                        assert(media[i].best_url() == Some(url));
                    }
                } else {
                    let at = choose|k: int| 0 <= k < all.len() && all[k] == url;
                    assert(at == front.len());
                    assert(media[media.len() - 1].best_url() == Some(url));
                }
            }
            if urls.contains(url) {
                assert(front.contains(url));
                let at = choose|k: int| 0 <= k < front.len() && front[k] == url;
                assert(all[at] == url);
            }
            if exists|i: int|
                0 <= i < media.len() && (#[trigger] media[i]).best_url() == Some(url) {
                let i = choose|i: int|
                    0 <= i < media.len() && (#[trigger] media[i]).best_url() == Some(url);
                if i < media.len() - 1 {
                    assert(earlier[i].best_url() == Some(url));
                    assert(front.contains(url));
                    let at = choose|k: int| 0 <= k < front.len() && front[k] == url;
                    assert(all[at] == url);
                } else {
                    if front.contains(url) {
                        let at = choose|k: int| 0 <= k < front.len() && front[k] == url;
                        assert(all[at] == url);
                    } else {
                        assert(all[front.len() as int] == url);
                    }
                }
            }
        }
    }
}

/// The addresses of the media of a status are all different.
pub proof fn lemma_media_urls_distinct(status: TweetView)
    ensures
        status.media_urls().no_duplicates(),
    decreases status,
{
    let inherited = match status.retweeted_status {
        Some(reshared) => reshared.media_urls(),
        None => Seq::empty(),
    };
    if let Some(reshared) = status.retweeted_status {
        lemma_media_urls_distinct(*reshared);
    }
    if let Some(extended) = status.extended_entities {
        lemma_with_media(inherited, extended.media);
    }
}

/// The identifier of a status is that of its value.
proof fn lemma_id(status: &Tweet)
    ensures
        status.deep_view().id == status.id,
{
}

/// An address is among addresses with one more exactly when it is among
/// them or is the one more.
proof fn lemma_contains_push(urls: Seq<Seq<char>>, last: Seq<char>, url: Seq<char>)
    ensures
        urls.push(last).contains(url) <==> urls.contains(url) || url == last,
{
    let longer = urls.push(last);
    if urls.contains(url) {
        let at = choose|k: int| 0 <= k < urls.len() && urls[k] == url;
        assert(longer[at] == url);
    }
    if url == last {
        assert(longer[urls.len() as int] == url);
    }
}

/// The set of the addresses in `urls`.
fn set_of(urls: &Vec<String>) -> (seen: StringHashSet)
    ensures
        forall|url: Seq<char>| seen@.contains(url) <==> urls.deep_view().contains(url),
{
    let ghost all = urls.deep_view();
    let mut seen = StringHashSet::new();
    let mut i: usize = 0;
    while i < urls.len()
        invariant
            i <= urls.len(),
            all == urls.deep_view(),
            forall|url: Seq<char>|
                seen@.contains(url) <==> all.subrange(0, i as int).contains(url),
        decreases urls.len() - i,
    {
        let ghost before = all.subrange(0, i as int);
        let ghost added = urls[i as int]@;
        seen.insert(urls[i].clone());
        i = i + 1;
        proof {
            assert(all.subrange(0, i as int) =~= before.push(added));
            assert forall|url: Seq<char>|
                seen@.contains(url) <==> all.subrange(0, i as int).contains(url) by {
                lemma_contains_push(before, added, url);
            }
        }
    }
    assert(all.subrange(0, i as int) =~= all);
    seen
}

impl Tweet {
    /// Decodes one status from JSON text.
    pub fn from_str(s: &str) -> (r: Result<Tweet, MalformedPayload>)
        ensures
            view_result(r) == decoded_text::<Tweet>(s@),
    {
        decode_text::<Tweet>(s)
    }

    /// Writes the status as JSON text, if it has a wire form.
    pub fn to_text(&self) -> (r: Option<String>)
        ensures
            r is Some <==> Tweet::encodable(self.deep_view()),
            match r {
                Some(text) => encoded_text::<Tweet>(self.deep_view()) == Some(text@),
                None => encoded_text::<Tweet>(self.deep_view()) is None,
            },
    {
        encode_text(self)
    }

    /// Whether the status may lead to sensitive content. Where upstream does
    /// not say, it does not.
    pub fn is_sensitive(&self) -> (r: bool)
        ensures
            r == self.deep_view().is_sensitive(),
    {
        match self.possibly_sensitive {
            Some(flag) => flag,
            None => false,
        }
    }

    /// Whether the status reshares another.
    pub fn is_retweet(&self) -> (r: bool)
        ensures
            r == self.deep_view().is_retweet(),
    {
        self.retweeted_status.is_some()
    }

    /// Whether the status quotes another.
    pub fn is_quote(&self) -> (r: bool)
        ensures
            r == self.deep_view().is_quote(),
    {
        self.quoted_status.is_some()
    }

    /// Whether the status carries its whole text apart from the body.
    pub fn is_extended(&self) -> (r: bool)
        ensures
            r == self.deep_view().is_extended(),
    {
        self.extended_tweet.is_some()
    }

    /// Whether the status has a photo, an animated image or a video.
    pub fn has_media(&self) -> (r: bool)
        ensures
            r == self.deep_view().has_media(),
    {
        self.extended_entities.is_some()
    }

    /// The identifier of the reshared status where there is one, else the
    /// status's own.
    pub fn base_id(&self) -> (r: u64)
        ensures
            r == self.deep_view().base_id(),
    {
        match &self.retweeted_status {
            Some(reshared) => {
                proof {
                    lemma_id(&**reshared);
                }
                reshared.id
            },
            None => self.id,
        }
    }

    /// The address of the status.
    pub fn url(&self) -> (r: String)
        ensures
            r@ == self.deep_view().permalink(),
    {
        let mut link = String::from_str("https://twitter.com/");
        link.append(self.user.screen_name.as_str());
        link.append("/status/");
        let id = decimal_text(self.id);
        link.append(id.as_str());
        link
    }

    /// The whole text of the status, from wherever it is held.
    pub fn full_text(&self) -> (r: String)
        ensures
            r@ == self.deep_view().full_text(),
        decreases self,
    {
        match &self.extended_tweet {
            Some(extended) => extended.full_text.clone(),
            None => match &self.retweeted_status {
                Some(reshared) => reshared.full_text(),
                None => self.text.clone(),
            },
        }
    }

    /// The addresses of all the media of the status, each once. A hash set
    /// of the addresses found tells whether an address is new; the addresses
    /// come out in the order in which they were found.
    pub fn media_urls(&self) -> (r: Vec<String>)
        ensures
            r.deep_view() == self.deep_view().media_urls(),
        decreases self,
    {
        let mut urls: Vec<String> = match &self.retweeted_status {
            Some(reshared) => reshared.media_urls(),
            None => Vec::new(),
        };
        let ghost inherited = urls.deep_view();
        assert(self.retweeted_status is None ==> inherited =~= Seq::<Seq<char>>::empty());
        if let Some(extended) = &self.extended_entities {
            let ghost media = extended.media.deep_view();
            let mut seen = set_of(&urls);
            let mut i: usize = 0;
            assert(media.subrange(0, 0) =~= Seq::<MediaView>::empty());
            while i < extended.media.len()
                invariant
                    i <= extended.media.len(),
                    media == extended.media.deep_view(),
                    urls.deep_view() == with_media(inherited, media.subrange(0, i as int)),
                    forall|url: Seq<char>|
                        seen@.contains(url) <==> urls.deep_view().contains(url),
                decreases extended.media.len() - i,
            {
                let ghost before = urls.deep_view();
                proof {
                    let upto = media.subrange(0, i + 1);
                    assert(upto.drop_last() =~= media.subrange(0, i as int));
                    assert(upto.last() == extended.media[i as int].deep_view());
                }
                if let Some(url) = extended.media[i].url() {
                    let ghost added = url@;
                    if seen.insert(url.clone()) {
                        urls.push(url);
                        proof {
                            assert(urls.deep_view() =~= before.push(added));
                            assert forall|other: Seq<char>|
                                seen@.contains(other) <==> urls.deep_view().contains(other) by {
                                lemma_contains_push(before, added, other);
                            }
                        }
                    }
                }
                i = i + 1;
            }
            assert(media.subrange(0, i as int) =~= media);
        }
        urls
    }

    /// The text of each hashtag of the status, in order; none where nothing
    /// was parsed out of the text.
    pub fn hashtags(&self) -> (r: Vec<String>)
        ensures
            r.deep_view() == self.deep_view().hashtags(),
    {
        let mut tags: Vec<String> = Vec::new();
        match &self.entities {
            Some(entities) => {
                let ghost all = entities.hashtags.deep_view();
                let mut i: usize = 0;
                while i < entities.hashtags.len()
                    invariant
                        i <= entities.hashtags.len(),
                        all == entities.hashtags.deep_view(),
                        tags.len() == i,
                        forall|k: int| 0 <= k < i ==> (#[trigger] tags[k])@ == all[k].text,
                    decreases entities.hashtags.len() - i,
                {
                    tags.push(entities.hashtags[i].text.clone());
                    i = i + 1;
                }
                assert(tags.deep_view() =~= self.deep_view().hashtags());
            },
            None => {
                assert(tags.deep_view() =~= Seq::<Seq<char>>::empty());
            },
        }
        tags
    }
}

} // verus!
