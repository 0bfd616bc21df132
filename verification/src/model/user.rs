//! Accounts.
use vstd::prelude::*;
use crate::error::{Cause, Fault, MalformedPayload};
use crate::json::{
    lemma_member_push, lemma_members_writable_push, member, members_view, members_writable,
    writable, Json, JsonView, Members,
};
use crate::util::datetime::Timestamp;
use crate::wire::{
    optional_canonical, optional_encodable, optional_encoding, optional_field, put_optional,
    put_required, required_field, take_optional, take_required, Wire,
};

verus! {

/// An account, as it was when the status that carries it was posted.
#[derive(Debug, PartialEq, Eq)]
pub struct User {
    /// The identifier of the account.
    pub id: u64,
    /// The identifier of the account, as text.
    pub id_str: String,
    /// The display name.
    pub name: String,
    /// The handle.
    pub screen_name: String,
    /// Where the account says it is.
    pub location: Option<String>,
    /// The link that the account gives in its profile.
    pub url: Option<String>,
    /// What the account says of itself.
    pub description: Option<String>,
    /// Whether the statuses of the account are protected.
    pub protected: bool,
    /// Whether the account is verified.
    pub verified: bool,
    /// How many accounts follow this one.
    pub followers_count: u32,
    /// How many accounts this one follows.
    pub friends_count: u32,
    /// On how many public lists the account stands.
    pub listed_count: u32,
    /// How many statuses the account has marked as favorites.
    pub favourites_count: u32,
    /// How many statuses the account has posted, reshares included.
    pub statuses_count: u32,
    /// When the account was opened.
    pub created_at: Timestamp,
    /// The banner of the profile.
    pub profile_banner_url: Option<String>,
    /// The picture of the profile.
    pub profile_image_url_https: String,
    /// Whether the profile still has the theme it came with.
    pub default_profile: bool,
    /// Whether the profile still has the picture it came with.
    pub default_profile_image: bool,
    /// The countries in which the account is withheld.
    pub withheld_in_countries: Option<Vec<String>>,
    /// What is withheld; for an account, `user`.
    pub withheld_scope: Option<String>,
}

/// The mathematical value of a [`User`].
pub struct UserView {
    pub id: u64,
    pub id_str: Seq<char>,
    pub name: Seq<char>,
    pub screen_name: Seq<char>,
    pub location: Option<Seq<char>>,
    pub url: Option<Seq<char>>,
    pub description: Option<Seq<char>>,
    pub protected: bool,
    pub verified: bool,
    pub followers_count: u32,
    pub friends_count: u32,
    pub listed_count: u32,
    pub favourites_count: u32,
    pub statuses_count: u32,
    pub created_at: Timestamp,
    pub profile_banner_url: Option<Seq<char>>,
    pub profile_image_url_https: Seq<char>,
    pub default_profile: bool,
    pub default_profile_image: bool,
    pub withheld_in_countries: Option<Seq<Seq<char>>>,
    pub withheld_scope: Option<Seq<char>>,
}

impl DeepView for User {
    type V = UserView;

    open spec fn deep_view(&self) -> UserView {
        UserView {
            id: self.id.deep_view(),
            id_str: self.id_str.deep_view(),
            name: self.name.deep_view(),
            screen_name: self.screen_name.deep_view(),
            location: self.location.deep_view(),
            url: self.url.deep_view(),
            description: self.description.deep_view(),
            protected: self.protected.deep_view(),
            verified: self.verified.deep_view(),
            followers_count: self.followers_count.deep_view(),
            friends_count: self.friends_count.deep_view(),
            listed_count: self.listed_count.deep_view(),
            favourites_count: self.favourites_count.deep_view(),
            statuses_count: self.statuses_count.deep_view(),
            created_at: self.created_at.deep_view(),
            profile_banner_url: self.profile_banner_url.deep_view(),
            profile_image_url_https: self.profile_image_url_https.deep_view(),
            default_profile: self.default_profile.deep_view(),
            default_profile_image: self.default_profile_image.deep_view(),
            withheld_in_countries: self.withheld_in_countries.deep_view(),
            withheld_scope: self.withheld_scope.deep_view(),
        }
    }
}

impl User {
    /// The length and the first character of the name of each member, by
    /// which the names are told apart.
    pub proof fn lemma_names()
        ensures
            "id"@.len() == 2 && "id"@[0] == 'i',
            "id_str"@.len() == 6 && "id_str"@[0] == 'i',
            "name"@.len() == 4 && "name"@[0] == 'n',
            "screen_name"@.len() == 11 && "screen_name"@[0] == 's',
            "location"@.len() == 8 && "location"@[0] == 'l',
            "url"@.len() == 3 && "url"@[0] == 'u',
            "description"@.len() == 11 && "description"@[0] == 'd',
            "protected"@.len() == 9 && "protected"@[0] == 'p',
            "verified"@.len() == 8 && "verified"@[0] == 'v',
            "followers_count"@.len() == 15 && "followers_count"@[0] == 'f',
            "friends_count"@.len() == 13 && "friends_count"@[0] == 'f',
            "listed_count"@.len() == 12 && "listed_count"@[0] == 'l',
            "favourites_count"@.len() == 16 && "favourites_count"@[0] == 'f',
            "statuses_count"@.len() == 14 && "statuses_count"@[0] == 's',
            "created_at"@.len() == 10 && "created_at"@[0] == 'c',
            "profile_banner_url"@.len() == 18 && "profile_banner_url"@[0] == 'p',
            "profile_image_url_https"@.len() == 23 && "profile_image_url_https"@[0] == 'p',
            "default_profile"@.len() == 15 && "default_profile"@[0] == 'd',
            "default_profile_image"@.len() == 21 && "default_profile_image"@[0] == 'd',
            "withheld_in_countries"@.len() == 21 && "withheld_in_countries"@[0] == 'w',
            "withheld_scope"@.len() == 14 && "withheld_scope"@[0] == 'w',
    {
        reveal_strlit("id");
        reveal_strlit("id_str");
        reveal_strlit("name");
        reveal_strlit("screen_name");
        reveal_strlit("location");
        reveal_strlit("url");
        reveal_strlit("description");
        reveal_strlit("protected");
        reveal_strlit("verified");
        reveal_strlit("followers_count");
        reveal_strlit("friends_count");
        reveal_strlit("listed_count");
        reveal_strlit("favourites_count");
        reveal_strlit("statuses_count");
        reveal_strlit("created_at");
        reveal_strlit("profile_banner_url");
        reveal_strlit("profile_image_url_https");
        reveal_strlit("default_profile");
        reveal_strlit("default_profile_image");
        reveal_strlit("withheld_in_countries");
        reveal_strlit("withheld_scope");
    }

    /// Each member of the wire form is found under its name.
    pub proof fn lemma_members(v: UserView)
        ensures
            member(User::encoding(v)->Object_0, "id"@) == Some(u64::encoding(v.id)),
            member(User::encoding(v)->Object_0, "id_str"@) == Some(String::encoding(v.id_str)),
            member(User::encoding(v)->Object_0, "name"@) == Some(String::encoding(v.name)),
            member(User::encoding(v)->Object_0, "screen_name"@) == Some(
                String::encoding(v.screen_name),
            ),
            member(User::encoding(v)->Object_0, "location"@) == Some(
                optional_encoding::<String>(v.location),
            ),
            member(User::encoding(v)->Object_0, "url"@) == Some(optional_encoding::<String>(v.url)),
            member(User::encoding(v)->Object_0, "description"@) == Some(
                optional_encoding::<String>(v.description),
            ),
            member(User::encoding(v)->Object_0, "protected"@) == Some(bool::encoding(v.protected)),
            member(User::encoding(v)->Object_0, "verified"@) == Some(bool::encoding(v.verified)),
            member(User::encoding(v)->Object_0, "followers_count"@) == Some(
                u32::encoding(v.followers_count),
            ),
            member(User::encoding(v)->Object_0, "friends_count"@) == Some(
                u32::encoding(v.friends_count),
            ),
            member(User::encoding(v)->Object_0, "listed_count"@) == Some(
                u32::encoding(v.listed_count),
            ),
            member(User::encoding(v)->Object_0, "favourites_count"@) == Some(
                u32::encoding(v.favourites_count),
            ),
            member(User::encoding(v)->Object_0, "statuses_count"@) == Some(
                u32::encoding(v.statuses_count),
            ),
            member(User::encoding(v)->Object_0, "created_at"@) == Some(
                Timestamp::encoding(v.created_at),
            ),
            member(User::encoding(v)->Object_0, "profile_banner_url"@) == Some(
                optional_encoding::<String>(v.profile_banner_url),
            ),
            member(User::encoding(v)->Object_0, "profile_image_url_https"@) == Some(
                String::encoding(v.profile_image_url_https),
            ),
            member(User::encoding(v)->Object_0, "default_profile"@) == Some(
                bool::encoding(v.default_profile),
            ),
            member(User::encoding(v)->Object_0, "default_profile_image"@) == Some(
                bool::encoding(v.default_profile_image),
            ),
            member(User::encoding(v)->Object_0, "withheld_in_countries"@) == Some(
                optional_encoding::<Vec<String>>(v.withheld_in_countries),
            ),
            member(User::encoding(v)->Object_0, "withheld_scope"@) == Some(
                optional_encoding::<String>(v.withheld_scope),
            ),
    {
        broadcast use lemma_member_push;

        Self::lemma_names();
    }

    /// A read goes by the names of the members alone: two objects that give
    /// the same to each name of the model decode alike, whatever else they
    /// hold and in whatever order.
    pub proof fn lemma_reads_by_name(a: Members, b: Members)
        requires
            member(a, "id"@) == member(b, "id"@),
            member(a, "id_str"@) == member(b, "id_str"@),
            member(a, "name"@) == member(b, "name"@),
            member(a, "screen_name"@) == member(b, "screen_name"@),
            member(a, "location"@) == member(b, "location"@),
            member(a, "url"@) == member(b, "url"@),
            member(a, "description"@) == member(b, "description"@),
            member(a, "protected"@) == member(b, "protected"@),
            member(a, "verified"@) == member(b, "verified"@),
            member(a, "followers_count"@) == member(b, "followers_count"@),
            member(a, "friends_count"@) == member(b, "friends_count"@),
            member(a, "listed_count"@) == member(b, "listed_count"@),
            member(a, "favourites_count"@) == member(b, "favourites_count"@),
            member(a, "statuses_count"@) == member(b, "statuses_count"@),
            member(a, "created_at"@) == member(b, "created_at"@),
            member(a, "profile_banner_url"@) == member(b, "profile_banner_url"@),
            member(a, "profile_image_url_https"@) == member(b, "profile_image_url_https"@),
            member(a, "default_profile"@) == member(b, "default_profile"@),
            member(a, "default_profile_image"@) == member(b, "default_profile_image"@),
            member(a, "withheld_in_countries"@) == member(b, "withheld_in_countries"@),
            member(a, "withheld_scope"@) == member(b, "withheld_scope"@),
        ensures
            User::decoded(JsonView::Object(a)) == User::decoded(JsonView::Object(b)),
    {
        reveal(User::from_members);
    }

    /// What the members of an object decode to: each field from the member of
    /// its name, in the order of the fields, the first fault ending the read.
    /// Members of other names are passed over.
    #[verifier::opaque]
    pub open spec fn from_members(m: Members) -> Result<UserView, Fault> {
        let id = required_field::<u64>(m, "id"@);
        let id_str = required_field::<String>(m, "id_str"@);
        let name = required_field::<String>(m, "name"@);
        let screen_name = required_field::<String>(m, "screen_name"@);
        let location = optional_field::<String>(m, "location"@);
        let url = optional_field::<String>(m, "url"@);
        let description = optional_field::<String>(m, "description"@);
        let protected = required_field::<bool>(m, "protected"@);
        let verified = required_field::<bool>(m, "verified"@);
        let followers_count = required_field::<u32>(m, "followers_count"@);
        let friends_count = required_field::<u32>(m, "friends_count"@);
        let listed_count = required_field::<u32>(m, "listed_count"@);
        let favourites_count = required_field::<u32>(m, "favourites_count"@);
        let statuses_count = required_field::<u32>(m, "statuses_count"@);
        let created_at = required_field::<Timestamp>(m, "created_at"@);
        let profile_banner_url = optional_field::<String>(m, "profile_banner_url"@);
        let profile_image_url_https = required_field::<String>(m, "profile_image_url_https"@);
        let default_profile = required_field::<bool>(m, "default_profile"@);
        let default_profile_image = required_field::<bool>(m, "default_profile_image"@);
        let withheld_in_countries = optional_field::<Vec<String>>(m, "withheld_in_countries"@);
        let withheld_scope = optional_field::<String>(m, "withheld_scope"@);
        if id is Err {
            Err(id->Err_0)
        } else if id_str is Err {
            Err(id_str->Err_0)
        } else if name is Err {
            Err(name->Err_0)
        } else if screen_name is Err {
            Err(screen_name->Err_0)
        } else if location is Err {
            Err(location->Err_0)
        } else if url is Err {
            Err(url->Err_0)
        } else if description is Err {
            Err(description->Err_0)
        } else if protected is Err {
            Err(protected->Err_0)
        } else if verified is Err {
            Err(verified->Err_0)
        } else if followers_count is Err {
            Err(followers_count->Err_0)
        } else if friends_count is Err {
            Err(friends_count->Err_0)
        } else if listed_count is Err {
            Err(listed_count->Err_0)
        } else if favourites_count is Err {
            Err(favourites_count->Err_0)
        } else if statuses_count is Err {
            Err(statuses_count->Err_0)
        } else if created_at is Err {
            Err(created_at->Err_0)
        } else if profile_banner_url is Err {
            Err(profile_banner_url->Err_0)
        } else if profile_image_url_https is Err {
            Err(profile_image_url_https->Err_0)
        } else if default_profile is Err {
            Err(default_profile->Err_0)
        } else if default_profile_image is Err {
            Err(default_profile_image->Err_0)
        } else if withheld_in_countries is Err {
            Err(withheld_in_countries->Err_0)
        } else if withheld_scope is Err {
            Err(withheld_scope->Err_0)
        } else {
            Ok(
                UserView {
                    id: id->Ok_0,
                    id_str: id_str->Ok_0,
                    name: name->Ok_0,
                    screen_name: screen_name->Ok_0,
                    location: location->Ok_0,
                    url: url->Ok_0,
                    description: description->Ok_0,
                    protected: protected->Ok_0,
                    verified: verified->Ok_0,
                    followers_count: followers_count->Ok_0,
                    friends_count: friends_count->Ok_0,
                    listed_count: listed_count->Ok_0,
                    favourites_count: favourites_count->Ok_0,
                    statuses_count: statuses_count->Ok_0,
                    created_at: created_at->Ok_0,
                    profile_banner_url: profile_banner_url->Ok_0,
                    profile_image_url_https: profile_image_url_https->Ok_0,
                    default_profile: default_profile->Ok_0,
                    default_profile_image: default_profile_image->Ok_0,
                    withheld_in_countries: withheld_in_countries->Ok_0,
                    withheld_scope: withheld_scope->Ok_0,
                },
            )
        }
    }
}

impl Wire for User {
    open spec fn decoded(j: JsonView) -> Result<UserView, Fault> {
        match j {
            JsonView::Object(m) => User::from_members(m),
            _ => Err(Fault::at(Cause::TypeMismatch)),
        }
    }

    open spec fn encodable(v: UserView) -> bool {
        &&& u64::encodable(v.id)
        &&& String::encodable(v.id_str)
        &&& String::encodable(v.name)
        &&& String::encodable(v.screen_name)
        &&& optional_encodable::<String>(v.location)
        &&& optional_encodable::<String>(v.url)
        &&& optional_encodable::<String>(v.description)
        &&& bool::encodable(v.protected)
        &&& bool::encodable(v.verified)
        &&& u32::encodable(v.followers_count)
        &&& u32::encodable(v.friends_count)
        &&& u32::encodable(v.listed_count)
        &&& u32::encodable(v.favourites_count)
        &&& u32::encodable(v.statuses_count)
        &&& Timestamp::encodable(v.created_at)
        &&& optional_encodable::<String>(v.profile_banner_url)
        &&& String::encodable(v.profile_image_url_https)
        &&& bool::encodable(v.default_profile)
        &&& bool::encodable(v.default_profile_image)
        &&& optional_encodable::<Vec<String>>(v.withheld_in_countries)
        &&& optional_encodable::<String>(v.withheld_scope)
    }

    open spec fn encoding(v: UserView) -> JsonView {
        JsonView::Object(
            Seq::empty()
                .push(("id"@, u64::encoding(v.id)))
                .push(("id_str"@, String::encoding(v.id_str)))
                .push(("name"@, String::encoding(v.name)))
                .push(("screen_name"@, String::encoding(v.screen_name)))
                .push(("location"@, optional_encoding::<String>(v.location)))
                .push(("url"@, optional_encoding::<String>(v.url)))
                .push(("description"@, optional_encoding::<String>(v.description)))
                .push(("protected"@, bool::encoding(v.protected)))
                .push(("verified"@, bool::encoding(v.verified)))
                .push(("followers_count"@, u32::encoding(v.followers_count)))
                .push(("friends_count"@, u32::encoding(v.friends_count)))
                .push(("listed_count"@, u32::encoding(v.listed_count)))
                .push(("favourites_count"@, u32::encoding(v.favourites_count)))
                .push(("statuses_count"@, u32::encoding(v.statuses_count)))
                .push(("created_at"@, Timestamp::encoding(v.created_at)))
                .push(("profile_banner_url"@, optional_encoding::<String>(v.profile_banner_url)))
                .push(("profile_image_url_https"@, String::encoding(v.profile_image_url_https)))
                .push(("default_profile"@, bool::encoding(v.default_profile)))
                .push(("default_profile_image"@, bool::encoding(v.default_profile_image)))
                .push(
                    (
                        "withheld_in_countries"@,
                        optional_encoding::<Vec<String>>(v.withheld_in_countries),
                    ),
                )
                .push(("withheld_scope"@, optional_encoding::<String>(v.withheld_scope))),
        )
    }

    open spec fn canonical(v: UserView) -> bool {
        &&& u64::canonical(v.id)
        &&& String::canonical(v.id_str)
        &&& String::canonical(v.name)
        &&& String::canonical(v.screen_name)
        &&& optional_canonical::<String>(v.location)
        &&& optional_canonical::<String>(v.url)
        &&& optional_canonical::<String>(v.description)
        &&& bool::canonical(v.protected)
        &&& bool::canonical(v.verified)
        &&& u32::canonical(v.followers_count)
        &&& u32::canonical(v.friends_count)
        &&& u32::canonical(v.listed_count)
        &&& u32::canonical(v.favourites_count)
        &&& u32::canonical(v.statuses_count)
        &&& Timestamp::canonical(v.created_at)
        &&& optional_canonical::<String>(v.profile_banner_url)
        &&& String::canonical(v.profile_image_url_https)
        &&& bool::canonical(v.default_profile)
        &&& bool::canonical(v.default_profile_image)
        &&& optional_canonical::<Vec<String>>(v.withheld_in_countries)
        &&& optional_canonical::<String>(v.withheld_scope)
    }

    fn decode(j: &Json) -> (r: Result<User, MalformedPayload>) {
        reveal(User::from_members);
        match j {
            Json::Object(members) => {
                let id = take_required::<u64>(members, "id")?;
                let id_str = take_required::<String>(members, "id_str")?;
                let name = take_required::<String>(members, "name")?;
                let screen_name = take_required::<String>(members, "screen_name")?;
                let location = take_optional::<String>(members, "location")?;
                let url = take_optional::<String>(members, "url")?;
                let description = take_optional::<String>(members, "description")?;
                let protected = take_required::<bool>(members, "protected")?;
                let verified = take_required::<bool>(members, "verified")?;
                let followers_count = take_required::<u32>(members, "followers_count")?;
                let friends_count = take_required::<u32>(members, "friends_count")?;
                let listed_count = take_required::<u32>(members, "listed_count")?;
                let favourites_count = take_required::<u32>(members, "favourites_count")?;
                let statuses_count = take_required::<u32>(members, "statuses_count")?;
                let created_at = take_required::<Timestamp>(members, "created_at")?;
                let profile_banner_url = take_optional::<String>(members, "profile_banner_url")?;
                let profile_image_url_https = take_required::<String>(
                    members,
                    "profile_image_url_https",
                )?;
                let default_profile = take_required::<bool>(members, "default_profile")?;
                let default_profile_image = take_required::<bool>(
                    members,
                    "default_profile_image",
                )?;
                let withheld_in_countries = take_optional::<Vec<String>>(
                    members,
                    "withheld_in_countries",
                )?;
                let withheld_scope = take_optional::<String>(members, "withheld_scope")?;
                Ok(
                    User {
                        id,
                        id_str,
                        name,
                        screen_name,
                        location,
                        url,
                        description,
                        protected,
                        verified,
                        followers_count,
                        friends_count,
                        listed_count,
                        favourites_count,
                        statuses_count,
                        created_at,
                        profile_banner_url,
                        profile_image_url_https,
                        default_profile,
                        default_profile_image,
                        withheld_in_countries,
                        withheld_scope,
                    },
                )
            },
            _ => Err(MalformedPayload::at(Cause::TypeMismatch)),
        }
    }

    fn encode(&self) -> (r: Option<Json>) {
        let mut members: Vec<(String, Json)> = Vec::new();
        assert(members_view(members@) =~= Seq::empty());
        put_required(&mut members, "id", &self.id)?;
        put_required(&mut members, "id_str", &self.id_str)?;
        put_required(&mut members, "name", &self.name)?;
        put_required(&mut members, "screen_name", &self.screen_name)?;
        put_optional(&mut members, "location", &self.location)?;
        put_optional(&mut members, "url", &self.url)?;
        put_optional(&mut members, "description", &self.description)?;
        put_required(&mut members, "protected", &self.protected)?;
        put_required(&mut members, "verified", &self.verified)?;
        put_required(&mut members, "followers_count", &self.followers_count)?;
        put_required(&mut members, "friends_count", &self.friends_count)?;
        put_required(&mut members, "listed_count", &self.listed_count)?;
        put_required(&mut members, "favourites_count", &self.favourites_count)?;
        put_required(&mut members, "statuses_count", &self.statuses_count)?;
        put_required(&mut members, "created_at", &self.created_at)?;
        put_optional(&mut members, "profile_banner_url", &self.profile_banner_url)?;
        put_required(&mut members, "profile_image_url_https", &self.profile_image_url_https)?;
        put_required(&mut members, "default_profile", &self.default_profile)?;
        put_required(&mut members, "default_profile_image", &self.default_profile_image)?;
        put_optional(&mut members, "withheld_in_countries", &self.withheld_in_countries)?;
        put_optional(&mut members, "withheld_scope", &self.withheld_scope)?;
        Some(Json::Object(members))
    }

    proof fn round_trip(v: UserView) {
        reveal(User::from_members);
        Self::lemma_members(v);
        Timestamp::round_trip(v.created_at);
        if let Some(inner) = v.withheld_in_countries {
            Vec::<String>::round_trip(inner);
        }
    }

    proof fn decoded_canonical(j: JsonView) {
        reveal(User::from_members);
        if let JsonView::Object(m) = j {
            Timestamp::decoded_canonical(member(m, "created_at"@).unwrap());
            Vec::<String>::decoded_canonical(member(m, "withheld_in_countries"@).unwrap());
        }
    }

    proof fn writable_encoding(v: UserView) {
        broadcast use lemma_members_writable_push;

        Timestamp::writable_encoding(v.created_at);
        if let Some(inner) = v.withheld_in_countries {
            Vec::<String>::writable_encoding(inner);
        }
        if User::encodable(v) {
            assert(members_writable(User::encoding(v)->Object_0));
        }
    }
}

} // verus!
