//! What was parsed out of the body of a status.
use vstd::prelude::*;
use crate::error::{Cause, Fault, MalformedPayload};
use crate::json::{
    lemma_member_push, lemma_members_writable_push, member, members_view, members_writable,
    writable, Json, JsonView, Members,
};
use crate::model::hashtag::{Hashtag, HashtagView};
use crate::model::media::{Media, MediaView};
use crate::model::poll::{Poll, PollView};
use crate::model::symbol::{Symbol, SymbolView};
use crate::model::url::{Url, UrlView};
use crate::model::user_mention::{UserMention, UserMentionView};
use crate::wire::{
    optional_canonical, optional_encodable, optional_encoding, optional_field, put_optional,
    put_required, required_field, take_optional, take_required, Wire,
};

verus! {

/// The spans that were parsed out of the text of a status.
#[derive(Debug, PartialEq, Eq)]
pub struct Entity {
    /// The hashtags in the text.
    pub hashtags: Vec<Hashtag>,
    /// The links in the text.
    pub urls: Vec<Url>,
    /// The accounts mentioned in the text.
    pub user_mentions: Vec<UserMention>,
    /// The cashtags in the text.
    pub symbols: Vec<Symbol>,
    /// The media attached to the status.
    pub media: Option<Vec<Media>>,
    /// The polls attached to the status.
    pub polls: Option<Vec<Poll>>,
}

/// The mathematical value of a [`Entity`].
pub struct EntityView {
    pub hashtags: Seq<HashtagView>,
    pub urls: Seq<UrlView>,
    pub user_mentions: Seq<UserMentionView>,
    pub symbols: Seq<SymbolView>,
    pub media: Option<Seq<MediaView>>,
    pub polls: Option<Seq<PollView>>,
}

impl DeepView for Entity {
    type V = EntityView;

    open spec fn deep_view(&self) -> EntityView {
        EntityView {
            hashtags: self.hashtags.deep_view(),
            urls: self.urls.deep_view(),
            user_mentions: self.user_mentions.deep_view(),
            symbols: self.symbols.deep_view(),
            media: self.media.deep_view(),
            polls: self.polls.deep_view(),
        }
    }
}

impl Entity {
    /// The length and the first character of the name of each member, by
    /// which the names are told apart.
    pub proof fn lemma_names()
        ensures
            "hashtags"@.len() == 8 && "hashtags"@[0] == 'h',
            "urls"@.len() == 4 && "urls"@[0] == 'u',
            "user_mentions"@.len() == 13 && "user_mentions"@[0] == 'u',
            "symbols"@.len() == 7 && "symbols"@[0] == 's',
            "media"@.len() == 5 && "media"@[0] == 'm',
            "polls"@.len() == 5 && "polls"@[0] == 'p',
    {
        reveal_strlit("hashtags");
        reveal_strlit("urls");
        reveal_strlit("user_mentions");
        reveal_strlit("symbols");
        reveal_strlit("media");
        reveal_strlit("polls");
    }

    /// Each member of the wire form is found under its name.
    pub proof fn lemma_members(v: EntityView)
        ensures
            member(Entity::encoding(v)->Object_0, "hashtags"@) == Some(
                Vec::<Hashtag>::encoding(v.hashtags),
            ),
            member(Entity::encoding(v)->Object_0, "urls"@) == Some(Vec::<Url>::encoding(v.urls)),
            member(Entity::encoding(v)->Object_0, "user_mentions"@) == Some(
                Vec::<UserMention>::encoding(v.user_mentions),
            ),
            member(Entity::encoding(v)->Object_0, "symbols"@) == Some(
                Vec::<Symbol>::encoding(v.symbols),
            ),
            member(Entity::encoding(v)->Object_0, "media"@) == Some(
                optional_encoding::<Vec<Media>>(v.media),
            ),
            member(Entity::encoding(v)->Object_0, "polls"@) == Some(
                optional_encoding::<Vec<Poll>>(v.polls),
            ),
    {
        broadcast use lemma_member_push;

        Self::lemma_names();
    }

    /// A read goes by the names of the members alone: two objects that give
    /// the same to each name of the model decode alike, whatever else they
    /// hold and in whatever order.
    pub proof fn lemma_reads_by_name(a: Members, b: Members)
        requires
            member(a, "hashtags"@) == member(b, "hashtags"@),
            member(a, "urls"@) == member(b, "urls"@),
            member(a, "user_mentions"@) == member(b, "user_mentions"@),
            member(a, "symbols"@) == member(b, "symbols"@),
            member(a, "media"@) == member(b, "media"@),
            member(a, "polls"@) == member(b, "polls"@),
        ensures
            Entity::decoded(JsonView::Object(a)) == Entity::decoded(JsonView::Object(b)),
    {
        reveal(Entity::from_members);
    }

    /// What the members of an object decode to: each field from the member of
    /// its name, in the order of the fields, the first fault ending the read.
    /// Members of other names are passed over.
    #[verifier::opaque]
    pub open spec fn from_members(m: Members) -> Result<EntityView, Fault> {
        let hashtags = required_field::<Vec<Hashtag>>(m, "hashtags"@);
        let urls = required_field::<Vec<Url>>(m, "urls"@);
        let user_mentions = required_field::<Vec<UserMention>>(m, "user_mentions"@);
        let symbols = required_field::<Vec<Symbol>>(m, "symbols"@);
        let media = optional_field::<Vec<Media>>(m, "media"@);
        let polls = optional_field::<Vec<Poll>>(m, "polls"@);
        if hashtags is Err {
            Err(hashtags->Err_0)
        } else if urls is Err {
            Err(urls->Err_0)
        } else if user_mentions is Err {
            Err(user_mentions->Err_0)
        } else if symbols is Err {
            Err(symbols->Err_0)
        } else if media is Err {
            Err(media->Err_0)
        } else if polls is Err {
            Err(polls->Err_0)
        } else {
            Ok(
                EntityView {
                    hashtags: hashtags->Ok_0,
                    urls: urls->Ok_0,
                    user_mentions: user_mentions->Ok_0,
                    symbols: symbols->Ok_0,
                    media: media->Ok_0,
                    polls: polls->Ok_0,
                },
            )
        }
    }
}

impl Wire for Entity {
    open spec fn decoded(j: JsonView) -> Result<EntityView, Fault> {
        match j {
            JsonView::Object(m) => Entity::from_members(m),
            _ => Err(Fault::at(Cause::TypeMismatch)),
        }
    }

    open spec fn encodable(v: EntityView) -> bool {
        &&& Vec::<Hashtag>::encodable(v.hashtags)
        &&& Vec::<Url>::encodable(v.urls)
        &&& Vec::<UserMention>::encodable(v.user_mentions)
        &&& Vec::<Symbol>::encodable(v.symbols)
        &&& optional_encodable::<Vec<Media>>(v.media)
        &&& optional_encodable::<Vec<Poll>>(v.polls)
    }

    open spec fn encoding(v: EntityView) -> JsonView {
        JsonView::Object(
            Seq::empty()
                .push(("hashtags"@, Vec::<Hashtag>::encoding(v.hashtags)))
                .push(("urls"@, Vec::<Url>::encoding(v.urls)))
                .push(("user_mentions"@, Vec::<UserMention>::encoding(v.user_mentions)))
                .push(("symbols"@, Vec::<Symbol>::encoding(v.symbols)))
                .push(("media"@, optional_encoding::<Vec<Media>>(v.media)))
                .push(("polls"@, optional_encoding::<Vec<Poll>>(v.polls))),
        )
    }

    open spec fn canonical(v: EntityView) -> bool {
        &&& Vec::<Hashtag>::canonical(v.hashtags)
        &&& Vec::<Url>::canonical(v.urls)
        &&& Vec::<UserMention>::canonical(v.user_mentions)
        &&& Vec::<Symbol>::canonical(v.symbols)
        &&& optional_canonical::<Vec<Media>>(v.media)
        &&& optional_canonical::<Vec<Poll>>(v.polls)
    }

    fn decode(j: &Json) -> (r: Result<Entity, MalformedPayload>) {
        reveal(Entity::from_members);
        match j {
            Json::Object(members) => {
                let hashtags = take_required::<Vec<Hashtag>>(members, "hashtags")?;
                let urls = take_required::<Vec<Url>>(members, "urls")?;
                let user_mentions = take_required::<Vec<UserMention>>(members, "user_mentions")?;
                let symbols = take_required::<Vec<Symbol>>(members, "symbols")?;
                let media = take_optional::<Vec<Media>>(members, "media")?;
                let polls = take_optional::<Vec<Poll>>(members, "polls")?;
                Ok(Entity { hashtags, urls, user_mentions, symbols, media, polls })
            },
            _ => Err(MalformedPayload::at(Cause::TypeMismatch)),
        }
    }

    fn encode(&self) -> (r: Option<Json>) {
        let mut members: Vec<(String, Json)> = Vec::new();
        assert(members_view(members@) =~= Seq::empty());
        put_required(&mut members, "hashtags", &self.hashtags)?;
        put_required(&mut members, "urls", &self.urls)?;
        put_required(&mut members, "user_mentions", &self.user_mentions)?;
        put_required(&mut members, "symbols", &self.symbols)?;
        put_optional(&mut members, "media", &self.media)?;
        put_optional(&mut members, "polls", &self.polls)?;
        Some(Json::Object(members))
    }

    proof fn round_trip(v: EntityView) {
        reveal(Entity::from_members);
        Self::lemma_members(v);
        Vec::<Hashtag>::round_trip(v.hashtags);
        Vec::<Url>::round_trip(v.urls);
        Vec::<UserMention>::round_trip(v.user_mentions);
        Vec::<Symbol>::round_trip(v.symbols);
        if let Some(inner) = v.media {
            Vec::<Media>::round_trip(inner);
        }
        if let Some(inner) = v.polls {
            Vec::<Poll>::round_trip(inner);
        }
    }

    proof fn decoded_canonical(j: JsonView) {
        reveal(Entity::from_members);
        if let JsonView::Object(m) = j {
            Vec::<Hashtag>::decoded_canonical(member(m, "hashtags"@).unwrap());
            Vec::<Url>::decoded_canonical(member(m, "urls"@).unwrap());
            Vec::<UserMention>::decoded_canonical(member(m, "user_mentions"@).unwrap());
            Vec::<Symbol>::decoded_canonical(member(m, "symbols"@).unwrap());
            Vec::<Media>::decoded_canonical(member(m, "media"@).unwrap());
            Vec::<Poll>::decoded_canonical(member(m, "polls"@).unwrap());
        }
    }

    proof fn writable_encoding(v: EntityView) {
        broadcast use lemma_members_writable_push;

        Vec::<Hashtag>::writable_encoding(v.hashtags);
        Vec::<Url>::writable_encoding(v.urls);
        Vec::<UserMention>::writable_encoding(v.user_mentions);
        Vec::<Symbol>::writable_encoding(v.symbols);
        if let Some(inner) = v.media {
            Vec::<Media>::writable_encoding(inner);
        }
        if let Some(inner) = v.polls {
            Vec::<Poll>::writable_encoding(inner);
        }
        if Entity::encodable(v) {
            assert(members_writable(Entity::encoding(v)->Object_0));
        }
    }
}

/// The full list of the media of a status. It is there when a status has more
/// /// than one image, a video or an animated image, and then it is the list to
/// /// go by.
#[derive(Debug, PartialEq, Eq)]
pub struct ExtendedEntity {
    /// The media of the status.
    pub media: Vec<Media>,
}

/// The mathematical value of a [`ExtendedEntity`].
pub struct ExtendedEntityView {
    pub media: Seq<MediaView>,
}

impl DeepView for ExtendedEntity {
    type V = ExtendedEntityView;

    open spec fn deep_view(&self) -> ExtendedEntityView {
        ExtendedEntityView {
            media: self.media.deep_view(),
        }
    }
}

impl ExtendedEntity {
    /// The length and the first character of the name of each member, by
    /// which the names are told apart.
    pub proof fn lemma_names()
        ensures
            "media"@.len() == 5 && "media"@[0] == 'm',
    {
        reveal_strlit("media");
    }

    /// Each member of the wire form is found under its name.
    pub proof fn lemma_members(v: ExtendedEntityView)
        ensures
            member(ExtendedEntity::encoding(v)->Object_0, "media"@) == Some(
                Vec::<Media>::encoding(v.media),
            ),
    {
        broadcast use lemma_member_push;

        Self::lemma_names();
    }

    /// A read goes by the names of the members alone: two objects that give
    /// the same to each name of the model decode alike, whatever else they
    /// hold and in whatever order.
    pub proof fn lemma_reads_by_name(a: Members, b: Members)
        requires
            member(a, "media"@) == member(b, "media"@),
        ensures
            ExtendedEntity::decoded(JsonView::Object(a)) == ExtendedEntity::decoded(
                JsonView::Object(b),
            ),
    {
        reveal(ExtendedEntity::from_members);
    }

    /// What the members of an object decode to: each field from the member of
    /// its name, in the order of the fields, the first fault ending the read.
    /// Members of other names are passed over.
    #[verifier::opaque]
    pub open spec fn from_members(m: Members) -> Result<ExtendedEntityView, Fault> {
        let media = required_field::<Vec<Media>>(m, "media"@);
        if media is Err {
            Err(media->Err_0)
        } else {
            Ok(ExtendedEntityView { media: media->Ok_0 })
        }
    }
}

impl Wire for ExtendedEntity {
    open spec fn decoded(j: JsonView) -> Result<ExtendedEntityView, Fault> {
        match j {
            JsonView::Object(m) => ExtendedEntity::from_members(m),
            _ => Err(Fault::at(Cause::TypeMismatch)),
        }
    }

    open spec fn encodable(v: ExtendedEntityView) -> bool {
        &&& Vec::<Media>::encodable(v.media)
    }

    open spec fn encoding(v: ExtendedEntityView) -> JsonView {
        JsonView::Object(
            Seq::empty()
                .push(("media"@, Vec::<Media>::encoding(v.media))),
        )
    }

    open spec fn canonical(v: ExtendedEntityView) -> bool {
        &&& Vec::<Media>::canonical(v.media)
    }

    fn decode(j: &Json) -> (r: Result<ExtendedEntity, MalformedPayload>) {
        reveal(ExtendedEntity::from_members);
        match j {
            Json::Object(members) => {
                let media = take_required::<Vec<Media>>(members, "media")?;
                Ok(ExtendedEntity { media })
            },
            _ => Err(MalformedPayload::at(Cause::TypeMismatch)),
        }
    }

    fn encode(&self) -> (r: Option<Json>) {
        let mut members: Vec<(String, Json)> = Vec::new();
        assert(members_view(members@) =~= Seq::empty());
        put_required(&mut members, "media", &self.media)?;
        Some(Json::Object(members))
    }

    proof fn round_trip(v: ExtendedEntityView) {
        reveal(ExtendedEntity::from_members);
        Self::lemma_members(v);
        Vec::<Media>::round_trip(v.media);
    }

    proof fn decoded_canonical(j: JsonView) {
        reveal(ExtendedEntity::from_members);
        if let JsonView::Object(m) = j {
            Vec::<Media>::decoded_canonical(member(m, "media"@).unwrap());
        }
    }

    proof fn writable_encoding(v: ExtendedEntityView) {
        broadcast use lemma_members_writable_push;

        Vec::<Media>::writable_encoding(v.media);
        if ExtendedEntity::encodable(v) {
            assert(members_writable(ExtendedEntity::encoding(v)->Object_0));
        }
    }
}

} // verus!
