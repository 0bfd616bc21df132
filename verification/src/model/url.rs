//! Links.
use vstd::prelude::*;
use crate::error::{Cause, Fault, MalformedPayload};
use crate::json::{
    lemma_member_push, lemma_members_writable_push, member, members_view, members_writable,
    writable, Json, JsonView, Members,
};
use crate::wire::{
    optional_canonical, optional_encodable, optional_encoding, optional_field, put_optional,
    put_required, required_field, take_optional, take_required, Wire,
};

verus! {

/// A link in the body of a status.
#[derive(Debug, PartialEq, Eq)]
pub struct Url {
    /// The link as it is shown to a reader.
    pub display_url: String,
    /// The link written out in full.
    pub expanded_url: String,
    /// Where in the text the link begins and ends.
    pub indices: Vec<u32>,
    /// The shortened link as it stands in the text.
    pub url: String,
    /// What is known of the page that the link leads to.
    pub unwound: Option<UnwoundUrl>,
}

/// The mathematical value of a [`Url`].
pub struct UrlView {
    pub display_url: Seq<char>,
    pub expanded_url: Seq<char>,
    pub indices: Seq<u32>,
    pub url: Seq<char>,
    pub unwound: Option<UnwoundUrlView>,
}

impl DeepView for Url {
    type V = UrlView;

    open spec fn deep_view(&self) -> UrlView {
        UrlView {
            display_url: self.display_url.deep_view(),
            expanded_url: self.expanded_url.deep_view(),
            indices: self.indices.deep_view(),
            url: self.url.deep_view(),
            unwound: self.unwound.deep_view(),
        }
    }
}

impl Url {
    /// The length and the first character of the name of each member, by
    /// which the names are told apart.
    pub proof fn lemma_names()
        ensures
            "display_url"@.len() == 11 && "display_url"@[0] == 'd',
            "expanded_url"@.len() == 12 && "expanded_url"@[0] == 'e',
            "indices"@.len() == 7 && "indices"@[0] == 'i',
            "url"@.len() == 3 && "url"@[0] == 'u',
            "unwound"@.len() == 7 && "unwound"@[0] == 'u',
    {
        reveal_strlit("display_url");
        reveal_strlit("expanded_url");
        reveal_strlit("indices");
        reveal_strlit("url");
        reveal_strlit("unwound");
    }

    /// Each member of the wire form is found under its name.
    pub proof fn lemma_members(v: UrlView)
        ensures
            member(Url::encoding(v)->Object_0, "display_url"@) == Some(
                String::encoding(v.display_url),
            ),
            member(Url::encoding(v)->Object_0, "expanded_url"@) == Some(
                String::encoding(v.expanded_url),
            ),
            member(Url::encoding(v)->Object_0, "indices"@) == Some(Vec::<u32>::encoding(v.indices)),
            member(Url::encoding(v)->Object_0, "url"@) == Some(String::encoding(v.url)),
            member(Url::encoding(v)->Object_0, "unwound"@) == Some(
                optional_encoding::<UnwoundUrl>(v.unwound),
            ),
    {
        broadcast use lemma_member_push;

        Self::lemma_names();
    }

    /// A read goes by the names of the members alone: two objects that give
    /// the same to each name of the model decode alike, whatever else they
    /// hold and in whatever order.
    pub proof fn lemma_reads_by_name(a: Members, b: Members)
        requires
            member(a, "display_url"@) == member(b, "display_url"@),
            member(a, "expanded_url"@) == member(b, "expanded_url"@),
            member(a, "indices"@) == member(b, "indices"@),
            member(a, "url"@) == member(b, "url"@),
            member(a, "unwound"@) == member(b, "unwound"@),
        ensures
            Url::decoded(JsonView::Object(a)) == Url::decoded(JsonView::Object(b)),
    {
        reveal(Url::from_members);
    }

    /// What the members of an object decode to: each field from the member of
    /// its name, in the order of the fields, the first fault ending the read.
    /// Members of other names are passed over.
    #[verifier::opaque]
    pub open spec fn from_members(m: Members) -> Result<UrlView, Fault> {
        let display_url = required_field::<String>(m, "display_url"@);
        let expanded_url = required_field::<String>(m, "expanded_url"@);
        let indices = required_field::<Vec<u32>>(m, "indices"@);
        let url = required_field::<String>(m, "url"@);
        let unwound = optional_field::<UnwoundUrl>(m, "unwound"@);
        if display_url is Err {
            Err(display_url->Err_0)
        } else if expanded_url is Err {
            Err(expanded_url->Err_0)
        } else if indices is Err {
            Err(indices->Err_0)
        } else if url is Err {
            Err(url->Err_0)
        } else if unwound is Err {
            Err(unwound->Err_0)
        } else {
            Ok(
                UrlView {
                    display_url: display_url->Ok_0,
                    expanded_url: expanded_url->Ok_0,
                    indices: indices->Ok_0,
                    url: url->Ok_0,
                    unwound: unwound->Ok_0,
                },
            )
        }
    }
}

impl Wire for Url {
    open spec fn decoded(j: JsonView) -> Result<UrlView, Fault> {
        match j {
            JsonView::Object(m) => Url::from_members(m),
            _ => Err(Fault::at(Cause::TypeMismatch)),
        }
    }

    open spec fn encodable(v: UrlView) -> bool {
        &&& String::encodable(v.display_url)
        &&& String::encodable(v.expanded_url)
        &&& Vec::<u32>::encodable(v.indices)
        &&& String::encodable(v.url)
        &&& optional_encodable::<UnwoundUrl>(v.unwound)
    }

    open spec fn encoding(v: UrlView) -> JsonView {
        JsonView::Object(
            Seq::empty()
                .push(("display_url"@, String::encoding(v.display_url)))
                .push(("expanded_url"@, String::encoding(v.expanded_url)))
                .push(("indices"@, Vec::<u32>::encoding(v.indices)))
                .push(("url"@, String::encoding(v.url)))
                .push(("unwound"@, optional_encoding::<UnwoundUrl>(v.unwound))),
        )
    }

    open spec fn canonical(v: UrlView) -> bool {
        &&& String::canonical(v.display_url)
        &&& String::canonical(v.expanded_url)
        &&& Vec::<u32>::canonical(v.indices)
        &&& String::canonical(v.url)
        &&& optional_canonical::<UnwoundUrl>(v.unwound)
    }

    fn decode(j: &Json) -> (r: Result<Url, MalformedPayload>) {
        reveal(Url::from_members);
        match j {
            Json::Object(members) => {
                let display_url = take_required::<String>(members, "display_url")?;
                let expanded_url = take_required::<String>(members, "expanded_url")?;
                let indices = take_required::<Vec<u32>>(members, "indices")?;
                let url = take_required::<String>(members, "url")?;
                let unwound = take_optional::<UnwoundUrl>(members, "unwound")?;
                Ok(Url { display_url, expanded_url, indices, url, unwound })
            },
            _ => Err(MalformedPayload::at(Cause::TypeMismatch)),
        }
    }

    fn encode(&self) -> (r: Option<Json>) {
        let mut members: Vec<(String, Json)> = Vec::new();
        assert(members_view(members@) =~= Seq::empty());
        put_required(&mut members, "display_url", &self.display_url)?;
        put_required(&mut members, "expanded_url", &self.expanded_url)?;
        put_required(&mut members, "indices", &self.indices)?;
        put_required(&mut members, "url", &self.url)?;
        put_optional(&mut members, "unwound", &self.unwound)?;
        Some(Json::Object(members))
    }

    proof fn round_trip(v: UrlView) {
        reveal(Url::from_members);
        Self::lemma_members(v);
        Vec::<u32>::round_trip(v.indices);
        if let Some(inner) = v.unwound {
            UnwoundUrl::round_trip(inner);
        }
    }

    proof fn decoded_canonical(j: JsonView) {
        reveal(Url::from_members);
        if let JsonView::Object(m) = j {
            Vec::<u32>::decoded_canonical(member(m, "indices"@).unwrap());
            UnwoundUrl::decoded_canonical(member(m, "unwound"@).unwrap());
        }
    }

    proof fn writable_encoding(v: UrlView) {
        broadcast use lemma_members_writable_push;

        Vec::<u32>::writable_encoding(v.indices);
        if let Some(inner) = v.unwound {
            UnwoundUrl::writable_encoding(inner);
        }
        if Url::encodable(v) {
            assert(members_writable(Url::encoding(v)->Object_0));
        }
    }
}

/// The target of a shortened link, with what its page says of itself.
#[derive(Debug, PartialEq, Eq)]
pub struct UnwoundUrl {
    /// The address that the shortened link resolves to.
    pub url: String,
    /// The HTTP status with which the target answered.
    pub status: u32,
    /// The title of the target page.
    pub title: String,
    /// The description of the target page.
    pub description: String,
}

/// The mathematical value of a [`UnwoundUrl`].
pub struct UnwoundUrlView {
    pub url: Seq<char>,
    pub status: u32,
    pub title: Seq<char>,
    pub description: Seq<char>,
}

impl DeepView for UnwoundUrl {
    type V = UnwoundUrlView;

    open spec fn deep_view(&self) -> UnwoundUrlView {
        UnwoundUrlView {
            url: self.url.deep_view(),
            status: self.status.deep_view(),
            title: self.title.deep_view(),
            description: self.description.deep_view(),
        }
    }
}

impl UnwoundUrl {
    /// The length and the first character of the name of each member, by
    /// which the names are told apart.
    pub proof fn lemma_names()
        ensures
            "url"@.len() == 3 && "url"@[0] == 'u',
            "status"@.len() == 6 && "status"@[0] == 's',
            "title"@.len() == 5 && "title"@[0] == 't',
            "description"@.len() == 11 && "description"@[0] == 'd',
    {
        reveal_strlit("url");
        reveal_strlit("status");
        reveal_strlit("title");
        reveal_strlit("description");
    }

    /// Each member of the wire form is found under its name.
    pub proof fn lemma_members(v: UnwoundUrlView)
        ensures
            member(UnwoundUrl::encoding(v)->Object_0, "url"@) == Some(String::encoding(v.url)),
            member(UnwoundUrl::encoding(v)->Object_0, "status"@) == Some(u32::encoding(v.status)),
            member(UnwoundUrl::encoding(v)->Object_0, "title"@) == Some(String::encoding(v.title)),
            member(UnwoundUrl::encoding(v)->Object_0, "description"@) == Some(
                String::encoding(v.description),
            ),
    {
        broadcast use lemma_member_push;

        Self::lemma_names();
    }

    /// A read goes by the names of the members alone: two objects that give
    /// the same to each name of the model decode alike, whatever else they
    /// hold and in whatever order.
    pub proof fn lemma_reads_by_name(a: Members, b: Members)
        requires
            member(a, "url"@) == member(b, "url"@),
            member(a, "status"@) == member(b, "status"@),
            member(a, "title"@) == member(b, "title"@),
            member(a, "description"@) == member(b, "description"@),
        ensures
            UnwoundUrl::decoded(JsonView::Object(a)) == UnwoundUrl::decoded(JsonView::Object(b)),
    {
        reveal(UnwoundUrl::from_members);
    }

    /// What the members of an object decode to: each field from the member of
    /// its name, in the order of the fields, the first fault ending the read.
    /// Members of other names are passed over.
    #[verifier::opaque]
    pub open spec fn from_members(m: Members) -> Result<UnwoundUrlView, Fault> {
        let url = required_field::<String>(m, "url"@);
        let status = required_field::<u32>(m, "status"@);
        let title = required_field::<String>(m, "title"@);
        let description = required_field::<String>(m, "description"@);
        if url is Err {
            Err(url->Err_0)
        } else if status is Err {
            Err(status->Err_0)
        } else if title is Err {
            Err(title->Err_0)
        } else if description is Err {
            Err(description->Err_0)
        } else {
            Ok(
                UnwoundUrlView {
                    url: url->Ok_0,
                    status: status->Ok_0,
                    title: title->Ok_0,
                    description: description->Ok_0,
                },
            )
        }
    }
}

impl Wire for UnwoundUrl {
    open spec fn decoded(j: JsonView) -> Result<UnwoundUrlView, Fault> {
        match j {
            JsonView::Object(m) => UnwoundUrl::from_members(m),
            _ => Err(Fault::at(Cause::TypeMismatch)),
        }
    }

    open spec fn encodable(v: UnwoundUrlView) -> bool {
        &&& String::encodable(v.url)
        &&& u32::encodable(v.status)
        &&& String::encodable(v.title)
        &&& String::encodable(v.description)
    }

    open spec fn encoding(v: UnwoundUrlView) -> JsonView {
        JsonView::Object(
            Seq::empty()
                .push(("url"@, String::encoding(v.url)))
                .push(("status"@, u32::encoding(v.status)))
                .push(("title"@, String::encoding(v.title)))
                .push(("description"@, String::encoding(v.description))),
        )
    }

    open spec fn canonical(v: UnwoundUrlView) -> bool {
        &&& String::canonical(v.url)
        &&& u32::canonical(v.status)
        &&& String::canonical(v.title)
        &&& String::canonical(v.description)
    }

    fn decode(j: &Json) -> (r: Result<UnwoundUrl, MalformedPayload>) {
        reveal(UnwoundUrl::from_members);
        match j {
            Json::Object(members) => {
                let url = take_required::<String>(members, "url")?;
                let status = take_required::<u32>(members, "status")?;
                let title = take_required::<String>(members, "title")?;
                let description = take_required::<String>(members, "description")?;
                Ok(UnwoundUrl { url, status, title, description })
            },
            _ => Err(MalformedPayload::at(Cause::TypeMismatch)),
        }
    }

    fn encode(&self) -> (r: Option<Json>) {
        let mut members: Vec<(String, Json)> = Vec::new();
        assert(members_view(members@) =~= Seq::empty());
        put_required(&mut members, "url", &self.url)?;
        put_required(&mut members, "status", &self.status)?;
        put_required(&mut members, "title", &self.title)?;
        put_required(&mut members, "description", &self.description)?;
        Some(Json::Object(members))
    }

    proof fn round_trip(v: UnwoundUrlView) {
        reveal(UnwoundUrl::from_members);
        Self::lemma_members(v);
    }

    proof fn decoded_canonical(j: JsonView) {
        reveal(UnwoundUrl::from_members);
        if let JsonView::Object(m) = j {
        }
    }

    proof fn writable_encoding(v: UnwoundUrlView) {
        broadcast use lemma_members_writable_push;

        if UnwoundUrl::encodable(v) {
            assert(members_writable(UnwoundUrl::encoding(v)->Object_0));
        }
    }
}

/// A link in the older form, kept for the permalink of a quoted status.
#[derive(Debug, PartialEq, Eq)]
pub struct LegacyUrl {
    /// The link as it is shown to a reader.
    pub display: String,
    /// The link written out in full.
    pub expanded: String,
    /// The shortened link.
    pub url: String,
}

/// The mathematical value of a [`LegacyUrl`].
pub struct LegacyUrlView {
    pub display: Seq<char>,
    pub expanded: Seq<char>,
    pub url: Seq<char>,
}

impl DeepView for LegacyUrl {
    type V = LegacyUrlView;

    open spec fn deep_view(&self) -> LegacyUrlView {
        LegacyUrlView {
            display: self.display.deep_view(),
            expanded: self.expanded.deep_view(),
            url: self.url.deep_view(),
        }
    }
}

impl LegacyUrl {
    /// The length and the first character of the name of each member, by
    /// which the names are told apart.
    pub proof fn lemma_names()
        ensures
            "display"@.len() == 7 && "display"@[0] == 'd',
            "expanded"@.len() == 8 && "expanded"@[0] == 'e',
            "url"@.len() == 3 && "url"@[0] == 'u',
    {
        reveal_strlit("display");
        reveal_strlit("expanded");
        reveal_strlit("url");
    }

    /// Each member of the wire form is found under its name.
    pub proof fn lemma_members(v: LegacyUrlView)
        ensures
            member(LegacyUrl::encoding(v)->Object_0, "display"@) == Some(
                String::encoding(v.display),
            ),
            member(LegacyUrl::encoding(v)->Object_0, "expanded"@) == Some(
                String::encoding(v.expanded),
            ),
            member(LegacyUrl::encoding(v)->Object_0, "url"@) == Some(String::encoding(v.url)),
    {
        broadcast use lemma_member_push;

        Self::lemma_names();
    }

    /// A read goes by the names of the members alone: two objects that give
    /// the same to each name of the model decode alike, whatever else they
    /// hold and in whatever order.
    pub proof fn lemma_reads_by_name(a: Members, b: Members)
        requires
            member(a, "display"@) == member(b, "display"@),
            member(a, "expanded"@) == member(b, "expanded"@),
            member(a, "url"@) == member(b, "url"@),
        ensures
            LegacyUrl::decoded(JsonView::Object(a)) == LegacyUrl::decoded(JsonView::Object(b)),
    {
        reveal(LegacyUrl::from_members);
    }

    /// What the members of an object decode to: each field from the member of
    /// its name, in the order of the fields, the first fault ending the read.
    /// Members of other names are passed over.
    #[verifier::opaque]
    pub open spec fn from_members(m: Members) -> Result<LegacyUrlView, Fault> {
        let display = required_field::<String>(m, "display"@);
        let expanded = required_field::<String>(m, "expanded"@);
        let url = required_field::<String>(m, "url"@);
        if display is Err {
            Err(display->Err_0)
        } else if expanded is Err {
            Err(expanded->Err_0)
        } else if url is Err {
            Err(url->Err_0)
        } else {
            Ok(
                LegacyUrlView {
                    display: display->Ok_0,
                    expanded: expanded->Ok_0,
                    url: url->Ok_0,
                },
            )
        }
    }
}

impl Wire for LegacyUrl {
    open spec fn decoded(j: JsonView) -> Result<LegacyUrlView, Fault> {
        match j {
            JsonView::Object(m) => LegacyUrl::from_members(m),
            _ => Err(Fault::at(Cause::TypeMismatch)),
        }
    }

    open spec fn encodable(v: LegacyUrlView) -> bool {
        &&& String::encodable(v.display)
        &&& String::encodable(v.expanded)
        &&& String::encodable(v.url)
    }

    open spec fn encoding(v: LegacyUrlView) -> JsonView {
        JsonView::Object(
            Seq::empty()
                .push(("display"@, String::encoding(v.display)))
                .push(("expanded"@, String::encoding(v.expanded)))
                .push(("url"@, String::encoding(v.url))),
        )
    }

    open spec fn canonical(v: LegacyUrlView) -> bool {
        &&& String::canonical(v.display)
        &&& String::canonical(v.expanded)
        &&& String::canonical(v.url)
    }

    fn decode(j: &Json) -> (r: Result<LegacyUrl, MalformedPayload>) {
        reveal(LegacyUrl::from_members);
        match j {
            Json::Object(members) => {
                let display = take_required::<String>(members, "display")?;
                let expanded = take_required::<String>(members, "expanded")?;
                let url = take_required::<String>(members, "url")?;
                Ok(LegacyUrl { display, expanded, url })
            },
            _ => Err(MalformedPayload::at(Cause::TypeMismatch)),
        }
    }

    fn encode(&self) -> (r: Option<Json>) {
        let mut members: Vec<(String, Json)> = Vec::new();
        assert(members_view(members@) =~= Seq::empty());
        put_required(&mut members, "display", &self.display)?;
        put_required(&mut members, "expanded", &self.expanded)?;
        put_required(&mut members, "url", &self.url)?;
        Some(Json::Object(members))
    }

    proof fn round_trip(v: LegacyUrlView) {
        reveal(LegacyUrl::from_members);
        Self::lemma_members(v);
    }

    proof fn decoded_canonical(j: JsonView) {
        reveal(LegacyUrl::from_members);
        if let JsonView::Object(m) = j {
        }
    }

    proof fn writable_encoding(v: LegacyUrlView) {
        broadcast use lemma_members_writable_push;

        if LegacyUrl::encodable(v) {
            assert(members_writable(LegacyUrl::encoding(v)->Object_0));
        }
    }
}

} // verus!
