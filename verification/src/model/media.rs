//! Media attachments.
use vstd::prelude::*;
use crate::error::{Cause, Fault, MalformedPayload};
use crate::json::{
    lemma_member_push, lemma_members_writable_push, member, members_view, members_writable,
    writable, Json, JsonView, Members,
};
use crate::wire::{
    optional_canonical, optional_encodable, optional_encoding, optional_field, put_optional,
    put_required, required_field, take_optional, take_required, Wire,
};

verus! {

/// What a media attachment is. A name that the library does not know is kept
/// as it came, so that a kind introduced upstream never fails a decode.
#[derive(Debug, PartialEq, Eq)]
pub enum MediaType {
    Photo,
    Gif,
    Video,
    Unknown(String),
}

/// The mathematical value of a [`MediaType`].
pub enum MediaTypeView {
    Photo,
    Gif,
    Video,
    Unknown(Seq<char>),
}

impl DeepView for MediaType {
    type V = MediaTypeView;

    open spec fn deep_view(&self) -> MediaTypeView {
        match self {
            MediaType::Photo => MediaTypeView::Photo,
            MediaType::Gif => MediaTypeView::Gif,
            MediaType::Video => MediaTypeView::Video,
            MediaType::Unknown(name) => MediaTypeView::Unknown(name@),
        }
    }
}

/// A photo, an animated image or a video attached to a status.
#[derive(Debug, PartialEq, Eq)]
pub struct Media {
    /// The link to the media as it is shown to a reader.
    pub display_url: String,
    /// The link to the media written out in full.
    pub expanded_url: String,
    /// The identifier of the media.
    pub id: u64,
    /// The identifier of the media, as text.
    pub id_str: String,
    /// Where in the text the link to the media begins and ends.
    pub indices: Vec<u32>,
    /// Where the media file lies, over plain HTTP.
    pub media_url: String,
    /// Where the media file lies, over HTTPS.
    pub media_url_https: String,
    /// The sizes in which the media can be had.
    pub sizes: Sizes,
    /// The status that the media was first attached to, if not this one.
    pub source_status_id: Option<u64>,
    /// The identifier of that status, as text.
    pub source_status_id_str: Option<String>,
    /// What the media is.
    pub kind: MediaType,
    /// The shortened link to the media as it stands in the text.
    pub url: String,
    /// For a video or an animated image, its renditions.
    pub video_info: Option<VideoInfo>,
    /// What the publisher says of the media.
    pub additional_media_info: Option<AdditionalMediaInfo>,
}

/// The mathematical value of a [`Media`].
pub struct MediaView {
    pub display_url: Seq<char>,
    pub expanded_url: Seq<char>,
    pub id: u64,
    pub id_str: Seq<char>,
    pub indices: Seq<u32>,
    pub media_url: Seq<char>,
    pub media_url_https: Seq<char>,
    pub sizes: SizesView,
    pub source_status_id: Option<u64>,
    pub source_status_id_str: Option<Seq<char>>,
    pub kind: MediaTypeView,
    pub url: Seq<char>,
    pub video_info: Option<VideoInfoView>,
    pub additional_media_info: Option<AdditionalMediaInfoView>,
}

impl DeepView for Media {
    type V = MediaView;

    open spec fn deep_view(&self) -> MediaView {
        MediaView {
            display_url: self.display_url.deep_view(),
            expanded_url: self.expanded_url.deep_view(),
            id: self.id.deep_view(),
            id_str: self.id_str.deep_view(),
            indices: self.indices.deep_view(),
            media_url: self.media_url.deep_view(),
            media_url_https: self.media_url_https.deep_view(),
            sizes: self.sizes.deep_view(),
            source_status_id: self.source_status_id.deep_view(),
            source_status_id_str: self.source_status_id_str.deep_view(),
            kind: self.kind.deep_view(),
            url: self.url.deep_view(),
            video_info: self.video_info.deep_view(),
            additional_media_info: self.additional_media_info.deep_view(),
        }
    }
}

impl Media {
    /// The length and the first character of the name of each member, by
    /// which the names are told apart.
    pub proof fn lemma_names()
        ensures
            "display_url"@.len() == 11 && "display_url"@[0] == 'd',
            "expanded_url"@.len() == 12 && "expanded_url"@[0] == 'e',
            "id"@.len() == 2 && "id"@[0] == 'i',
            "id_str"@.len() == 6 && "id_str"@[0] == 'i',
            "indices"@.len() == 7 && "indices"@[0] == 'i',
            "media_url"@.len() == 9 && "media_url"@[0] == 'm',
            "media_url_https"@.len() == 15 && "media_url_https"@[0] == 'm',
            "sizes"@.len() == 5 && "sizes"@[0] == 's',
            "source_status_id"@.len() == 16 && "source_status_id"@[0] == 's',
            "source_status_id_str"@.len() == 20 && "source_status_id_str"@[0] == 's',
            "type"@.len() == 4 && "type"@[0] == 't',
            "url"@.len() == 3 && "url"@[0] == 'u',
            "video_info"@.len() == 10 && "video_info"@[0] == 'v',
            "additional_media_info"@.len() == 21 && "additional_media_info"@[0] == 'a',
    {
        reveal_strlit("display_url");
        reveal_strlit("expanded_url");
        reveal_strlit("id");
        reveal_strlit("id_str");
        reveal_strlit("indices");
        reveal_strlit("media_url");
        reveal_strlit("media_url_https");
        reveal_strlit("sizes");
        reveal_strlit("source_status_id");
        reveal_strlit("source_status_id_str");
        reveal_strlit("type");
        reveal_strlit("url");
        reveal_strlit("video_info");
        reveal_strlit("additional_media_info");
    }

    /// Each member of the wire form is found under its name.
    pub proof fn lemma_members(v: MediaView)
        ensures
            member(Media::encoding(v)->Object_0, "display_url"@) == Some(
                String::encoding(v.display_url),
            ),
            member(Media::encoding(v)->Object_0, "expanded_url"@) == Some(
                String::encoding(v.expanded_url),
            ),
            member(Media::encoding(v)->Object_0, "id"@) == Some(u64::encoding(v.id)),
            member(Media::encoding(v)->Object_0, "id_str"@) == Some(String::encoding(v.id_str)),
            member(Media::encoding(v)->Object_0, "indices"@) == Some(
                Vec::<u32>::encoding(v.indices),
            ),
            member(Media::encoding(v)->Object_0, "media_url"@) == Some(
                String::encoding(v.media_url),
            ),
            member(Media::encoding(v)->Object_0, "media_url_https"@) == Some(
                String::encoding(v.media_url_https),
            ),
            member(Media::encoding(v)->Object_0, "sizes"@) == Some(Sizes::encoding(v.sizes)),
            member(Media::encoding(v)->Object_0, "source_status_id"@) == Some(
                optional_encoding::<u64>(v.source_status_id),
            ),
            member(Media::encoding(v)->Object_0, "source_status_id_str"@) == Some(
                optional_encoding::<String>(v.source_status_id_str),
            ),
            member(Media::encoding(v)->Object_0, "type"@) == Some(MediaType::encoding(v.kind)),
            member(Media::encoding(v)->Object_0, "url"@) == Some(String::encoding(v.url)),
            member(Media::encoding(v)->Object_0, "video_info"@) == Some(
                optional_encoding::<VideoInfo>(v.video_info),
            ),
            member(Media::encoding(v)->Object_0, "additional_media_info"@) == Some(
                optional_encoding::<AdditionalMediaInfo>(v.additional_media_info),
            ),
    {
        broadcast use lemma_member_push;

        Self::lemma_names();
    }

    /// A read goes by the names of the members alone: two objects that give
    /// the same to each name of the model decode alike, whatever else they
    /// hold and in whatever order.
    pub proof fn lemma_reads_by_name(a: Members, b: Members)
        requires
            member(a, "display_url"@) == member(b, "display_url"@),
            member(a, "expanded_url"@) == member(b, "expanded_url"@),
            member(a, "id"@) == member(b, "id"@),
            member(a, "id_str"@) == member(b, "id_str"@),
            member(a, "indices"@) == member(b, "indices"@),
            member(a, "media_url"@) == member(b, "media_url"@),
            member(a, "media_url_https"@) == member(b, "media_url_https"@),
            member(a, "sizes"@) == member(b, "sizes"@),
            member(a, "source_status_id"@) == member(b, "source_status_id"@),
            member(a, "source_status_id_str"@) == member(b, "source_status_id_str"@),
            member(a, "type"@) == member(b, "type"@),
            member(a, "url"@) == member(b, "url"@),
            member(a, "video_info"@) == member(b, "video_info"@),
            member(a, "additional_media_info"@) == member(b, "additional_media_info"@),
        ensures
            Media::decoded(JsonView::Object(a)) == Media::decoded(JsonView::Object(b)),
    {
        reveal(Media::from_members);
    }

    /// What the members of an object decode to: each field from the member of
    /// its name, in the order of the fields, the first fault ending the read.
    /// Members of other names are passed over.
    #[verifier::opaque]
    pub open spec fn from_members(m: Members) -> Result<MediaView, Fault> {
        let display_url = required_field::<String>(m, "display_url"@);
        let expanded_url = required_field::<String>(m, "expanded_url"@);
        let id = required_field::<u64>(m, "id"@);
        let id_str = required_field::<String>(m, "id_str"@);
        let indices = required_field::<Vec<u32>>(m, "indices"@);
        let media_url = required_field::<String>(m, "media_url"@);
        let media_url_https = required_field::<String>(m, "media_url_https"@);
        let sizes = required_field::<Sizes>(m, "sizes"@);
        let source_status_id = optional_field::<u64>(m, "source_status_id"@);
        let source_status_id_str = optional_field::<String>(m, "source_status_id_str"@);
        let kind = required_field::<MediaType>(m, "type"@);
        let url = required_field::<String>(m, "url"@);
        let video_info = optional_field::<VideoInfo>(m, "video_info"@);
        let additional_media_info = optional_field::<AdditionalMediaInfo>(
            m,
            "additional_media_info"@,
        );
        if display_url is Err {
            Err(display_url->Err_0)
        } else if expanded_url is Err {
            Err(expanded_url->Err_0)
        } else if id is Err {
            Err(id->Err_0)
        } else if id_str is Err {
            Err(id_str->Err_0)
        } else if indices is Err {
            Err(indices->Err_0)
        } else if media_url is Err {
            Err(media_url->Err_0)
        } else if media_url_https is Err {
            Err(media_url_https->Err_0)
        } else if sizes is Err {
            Err(sizes->Err_0)
        } else if source_status_id is Err {
            Err(source_status_id->Err_0)
        } else if source_status_id_str is Err {
            Err(source_status_id_str->Err_0)
        } else if kind is Err {
            Err(kind->Err_0)
        } else if url is Err {
            Err(url->Err_0)
        } else if video_info is Err {
            Err(video_info->Err_0)
        } else if additional_media_info is Err {
            Err(additional_media_info->Err_0)
        } else {
            Ok(
                MediaView {
                    display_url: display_url->Ok_0,
                    expanded_url: expanded_url->Ok_0,
                    id: id->Ok_0,
                    id_str: id_str->Ok_0,
                    indices: indices->Ok_0,
                    media_url: media_url->Ok_0,
                    media_url_https: media_url_https->Ok_0,
                    sizes: sizes->Ok_0,
                    source_status_id: source_status_id->Ok_0,
                    source_status_id_str: source_status_id_str->Ok_0,
                    kind: kind->Ok_0,
                    url: url->Ok_0,
                    video_info: video_info->Ok_0,
                    additional_media_info: additional_media_info->Ok_0,
                },
            )
        }
    }
}

impl Wire for Media {
    open spec fn decoded(j: JsonView) -> Result<MediaView, Fault> {
        match j {
            JsonView::Object(m) => Media::from_members(m),
            _ => Err(Fault::at(Cause::TypeMismatch)),
        }
    }

    open spec fn encodable(v: MediaView) -> bool {
        &&& String::encodable(v.display_url)
        &&& String::encodable(v.expanded_url)
        &&& u64::encodable(v.id)
        &&& String::encodable(v.id_str)
        &&& Vec::<u32>::encodable(v.indices)
        &&& String::encodable(v.media_url)
        &&& String::encodable(v.media_url_https)
        &&& Sizes::encodable(v.sizes)
        &&& optional_encodable::<u64>(v.source_status_id)
        &&& optional_encodable::<String>(v.source_status_id_str)
        &&& MediaType::encodable(v.kind)
        &&& String::encodable(v.url)
        &&& optional_encodable::<VideoInfo>(v.video_info)
        &&& optional_encodable::<AdditionalMediaInfo>(v.additional_media_info)
    }

    open spec fn encoding(v: MediaView) -> JsonView {
        JsonView::Object(
            Seq::empty()
                .push(("display_url"@, String::encoding(v.display_url)))
                .push(("expanded_url"@, String::encoding(v.expanded_url)))
                .push(("id"@, u64::encoding(v.id)))
                .push(("id_str"@, String::encoding(v.id_str)))
                .push(("indices"@, Vec::<u32>::encoding(v.indices)))
                .push(("media_url"@, String::encoding(v.media_url)))
                .push(("media_url_https"@, String::encoding(v.media_url_https)))
                .push(("sizes"@, Sizes::encoding(v.sizes)))
                .push(("source_status_id"@, optional_encoding::<u64>(v.source_status_id)))
                .push(
                    ("source_status_id_str"@, optional_encoding::<String>(v.source_status_id_str)),
                )
                .push(("type"@, MediaType::encoding(v.kind)))
                .push(("url"@, String::encoding(v.url)))
                .push(("video_info"@, optional_encoding::<VideoInfo>(v.video_info)))
                .push(
                    (
                        "additional_media_info"@,
                        optional_encoding::<AdditionalMediaInfo>(v.additional_media_info),
                    ),
                ),
        )
    }

    open spec fn canonical(v: MediaView) -> bool {
        &&& String::canonical(v.display_url)
        &&& String::canonical(v.expanded_url)
        &&& u64::canonical(v.id)
        &&& String::canonical(v.id_str)
        &&& Vec::<u32>::canonical(v.indices)
        &&& String::canonical(v.media_url)
        &&& String::canonical(v.media_url_https)
        &&& Sizes::canonical(v.sizes)
        &&& optional_canonical::<u64>(v.source_status_id)
        &&& optional_canonical::<String>(v.source_status_id_str)
        &&& MediaType::canonical(v.kind)
        &&& String::canonical(v.url)
        &&& optional_canonical::<VideoInfo>(v.video_info)
        &&& optional_canonical::<AdditionalMediaInfo>(v.additional_media_info)
    }

    fn decode(j: &Json) -> (r: Result<Media, MalformedPayload>) {
        reveal(Media::from_members);
        match j {
            Json::Object(members) => {
                let display_url = take_required::<String>(members, "display_url")?;
                let expanded_url = take_required::<String>(members, "expanded_url")?;
                let id = take_required::<u64>(members, "id")?;
                let id_str = take_required::<String>(members, "id_str")?;
                let indices = take_required::<Vec<u32>>(members, "indices")?;
                let media_url = take_required::<String>(members, "media_url")?;
                let media_url_https = take_required::<String>(members, "media_url_https")?;
                let sizes = take_required::<Sizes>(members, "sizes")?;
                let source_status_id = take_optional::<u64>(members, "source_status_id")?;
                let source_status_id_str = take_optional::<String>(
                    members,
                    "source_status_id_str",
                )?;
                let kind = take_required::<MediaType>(members, "type")?;
                let url = take_required::<String>(members, "url")?;
                let video_info = take_optional::<VideoInfo>(members, "video_info")?;
                let additional_media_info = take_optional::<AdditionalMediaInfo>(
                    members,
                    "additional_media_info",
                )?;
                Ok(
                    Media {
                        display_url,
                        expanded_url,
                        id,
                        id_str,
                        indices,
                        media_url,
                        media_url_https,
                        sizes,
                        source_status_id,
                        source_status_id_str,
                        kind,
                        url,
                        video_info,
                        additional_media_info,
                    },
                )
            },
            _ => Err(MalformedPayload::at(Cause::TypeMismatch)),
        }
    }

    fn encode(&self) -> (r: Option<Json>) {
        let mut members: Vec<(String, Json)> = Vec::new();
        assert(members_view(members@) =~= Seq::empty());
        put_required(&mut members, "display_url", &self.display_url)?;
        put_required(&mut members, "expanded_url", &self.expanded_url)?;
        put_required(&mut members, "id", &self.id)?;
        put_required(&mut members, "id_str", &self.id_str)?;
        put_required(&mut members, "indices", &self.indices)?;
        put_required(&mut members, "media_url", &self.media_url)?;
        put_required(&mut members, "media_url_https", &self.media_url_https)?;
        put_required(&mut members, "sizes", &self.sizes)?;
        put_optional(&mut members, "source_status_id", &self.source_status_id)?;
        put_optional(&mut members, "source_status_id_str", &self.source_status_id_str)?;
        put_required(&mut members, "type", &self.kind)?;
        put_required(&mut members, "url", &self.url)?;
        put_optional(&mut members, "video_info", &self.video_info)?;
        put_optional(&mut members, "additional_media_info", &self.additional_media_info)?;
        Some(Json::Object(members))
    }

    proof fn round_trip(v: MediaView) {
        reveal(Media::from_members);
        Self::lemma_members(v);
        Vec::<u32>::round_trip(v.indices);
        Sizes::round_trip(v.sizes);
        MediaType::round_trip(v.kind);
        if let Some(inner) = v.video_info {
            VideoInfo::round_trip(inner);
        }
        if let Some(inner) = v.additional_media_info {
            AdditionalMediaInfo::round_trip(inner);
        }
    }

    proof fn decoded_canonical(j: JsonView) {
        reveal(Media::from_members);
        if let JsonView::Object(m) = j {
            Vec::<u32>::decoded_canonical(member(m, "indices"@).unwrap());
            Sizes::decoded_canonical(member(m, "sizes"@).unwrap());
            MediaType::decoded_canonical(member(m, "type"@).unwrap());
            VideoInfo::decoded_canonical(member(m, "video_info"@).unwrap());
            AdditionalMediaInfo::decoded_canonical(member(m, "additional_media_info"@).unwrap());
        }
    }

    proof fn writable_encoding(v: MediaView) {
        broadcast use lemma_members_writable_push;

        Vec::<u32>::writable_encoding(v.indices);
        Sizes::writable_encoding(v.sizes);
        MediaType::writable_encoding(v.kind);
        if let Some(inner) = v.video_info {
            VideoInfo::writable_encoding(inner);
        }
        if let Some(inner) = v.additional_media_info {
            AdditionalMediaInfo::writable_encoding(inner);
        }
        if Media::encodable(v) {
            assert(members_writable(Media::encoding(v)->Object_0));
        }
    }
}

/// The renditions of a video or an animated image.
#[derive(Debug, PartialEq, Eq)]
pub struct VideoInfo {
    /// Width to height.
    pub aspect_ratio: (u32, u32),
    /// The running time in milliseconds.
    pub duration_millis: Option<u32>,
    /// The renditions on offer.
    pub variants: Vec<Variant>,
}

/// The mathematical value of a [`VideoInfo`].
pub struct VideoInfoView {
    pub aspect_ratio: (u32, u32),
    pub duration_millis: Option<u32>,
    pub variants: Seq<VariantView>,
}

impl DeepView for VideoInfo {
    type V = VideoInfoView;

    open spec fn deep_view(&self) -> VideoInfoView {
        VideoInfoView {
            aspect_ratio: self.aspect_ratio.deep_view(),
            duration_millis: self.duration_millis.deep_view(),
            variants: self.variants.deep_view(),
        }
    }
}

impl VideoInfo {
    /// The length and the first character of the name of each member, by
    /// which the names are told apart.
    pub proof fn lemma_names()
        ensures
            "aspect_ratio"@.len() == 12 && "aspect_ratio"@[0] == 'a',
            "duration_millis"@.len() == 15 && "duration_millis"@[0] == 'd',
            "variants"@.len() == 8 && "variants"@[0] == 'v',
    {
        reveal_strlit("aspect_ratio");
        reveal_strlit("duration_millis");
        reveal_strlit("variants");
    }

    /// Each member of the wire form is found under its name.
    pub proof fn lemma_members(v: VideoInfoView)
        ensures
            member(VideoInfo::encoding(v)->Object_0, "aspect_ratio"@) == Some(
                <(u32, u32)>::encoding(v.aspect_ratio),
            ),
            member(VideoInfo::encoding(v)->Object_0, "duration_millis"@) == Some(
                optional_encoding::<u32>(v.duration_millis),
            ),
            member(VideoInfo::encoding(v)->Object_0, "variants"@) == Some(
                Vec::<Variant>::encoding(v.variants),
            ),
    {
        broadcast use lemma_member_push;

        Self::lemma_names();
    }

    /// A read goes by the names of the members alone: two objects that give
    /// the same to each name of the model decode alike, whatever else they
    /// hold and in whatever order.
    pub proof fn lemma_reads_by_name(a: Members, b: Members)
        requires
            member(a, "aspect_ratio"@) == member(b, "aspect_ratio"@),
            member(a, "duration_millis"@) == member(b, "duration_millis"@),
            member(a, "variants"@) == member(b, "variants"@),
        ensures
            VideoInfo::decoded(JsonView::Object(a)) == VideoInfo::decoded(JsonView::Object(b)),
    {
        reveal(VideoInfo::from_members);
    }

    /// What the members of an object decode to: each field from the member of
    /// its name, in the order of the fields, the first fault ending the read.
    /// Members of other names are passed over.
    #[verifier::opaque]
    pub open spec fn from_members(m: Members) -> Result<VideoInfoView, Fault> {
        let aspect_ratio = required_field::<(u32, u32)>(m, "aspect_ratio"@);
        let duration_millis = optional_field::<u32>(m, "duration_millis"@);
        let variants = required_field::<Vec<Variant>>(m, "variants"@);
        if aspect_ratio is Err {
            Err(aspect_ratio->Err_0)
        } else if duration_millis is Err {
            Err(duration_millis->Err_0)
        } else if variants is Err {
            Err(variants->Err_0)
        } else {
            Ok(
                VideoInfoView {
                    aspect_ratio: aspect_ratio->Ok_0,
                    duration_millis: duration_millis->Ok_0,
                    variants: variants->Ok_0,
                },
            )
        }
    }
}

impl Wire for VideoInfo {
    open spec fn decoded(j: JsonView) -> Result<VideoInfoView, Fault> {
        match j {
            JsonView::Object(m) => VideoInfo::from_members(m),
            _ => Err(Fault::at(Cause::TypeMismatch)),
        }
    }

    open spec fn encodable(v: VideoInfoView) -> bool {
        &&& <(u32, u32)>::encodable(v.aspect_ratio)
        &&& optional_encodable::<u32>(v.duration_millis)
        &&& Vec::<Variant>::encodable(v.variants)
    }

    open spec fn encoding(v: VideoInfoView) -> JsonView {
        JsonView::Object(
            Seq::empty()
                .push(("aspect_ratio"@, <(u32, u32)>::encoding(v.aspect_ratio)))
                .push(("duration_millis"@, optional_encoding::<u32>(v.duration_millis)))
                .push(("variants"@, Vec::<Variant>::encoding(v.variants))),
        )
    }

    open spec fn canonical(v: VideoInfoView) -> bool {
        &&& <(u32, u32)>::canonical(v.aspect_ratio)
        &&& optional_canonical::<u32>(v.duration_millis)
        &&& Vec::<Variant>::canonical(v.variants)
    }

    fn decode(j: &Json) -> (r: Result<VideoInfo, MalformedPayload>) {
        reveal(VideoInfo::from_members);
        match j {
            Json::Object(members) => {
                let aspect_ratio = take_required::<(u32, u32)>(members, "aspect_ratio")?;
                let duration_millis = take_optional::<u32>(members, "duration_millis")?;
                let variants = take_required::<Vec<Variant>>(members, "variants")?;
                Ok(VideoInfo { aspect_ratio, duration_millis, variants })
            },
            _ => Err(MalformedPayload::at(Cause::TypeMismatch)),
        }
    }

    fn encode(&self) -> (r: Option<Json>) {
        let mut members: Vec<(String, Json)> = Vec::new();
        assert(members_view(members@) =~= Seq::empty());
        put_required(&mut members, "aspect_ratio", &self.aspect_ratio)?;
        put_optional(&mut members, "duration_millis", &self.duration_millis)?;
        put_required(&mut members, "variants", &self.variants)?;
        Some(Json::Object(members))
    }

    proof fn round_trip(v: VideoInfoView) {
        reveal(VideoInfo::from_members);
        Self::lemma_members(v);
        <(u32, u32)>::round_trip(v.aspect_ratio);
        Vec::<Variant>::round_trip(v.variants);
    }

    proof fn decoded_canonical(j: JsonView) {
        reveal(VideoInfo::from_members);
        if let JsonView::Object(m) = j {
            <(u32, u32)>::decoded_canonical(member(m, "aspect_ratio"@).unwrap());
            Vec::<Variant>::decoded_canonical(member(m, "variants"@).unwrap());
        }
    }

    proof fn writable_encoding(v: VideoInfoView) {
        broadcast use lemma_members_writable_push;

        <(u32, u32)>::writable_encoding(v.aspect_ratio);
        Vec::<Variant>::writable_encoding(v.variants);
        if VideoInfo::encodable(v) {
            assert(members_writable(VideoInfo::encoding(v)->Object_0));
        }
    }
}

/// One rendition of a video or an animated image.
#[derive(Debug, PartialEq, Eq)]
pub struct Variant {
    /// The bitrate of the rendition; the higher, the better the quality.
    pub bitrate: Option<u32>,
    /// The media type of the file.
    pub content_type: String,
    /// Where the file lies.
    pub url: String,
}

/// The mathematical value of a [`Variant`].
pub struct VariantView {
    pub bitrate: Option<u32>,
    pub content_type: Seq<char>,
    pub url: Seq<char>,
}

impl DeepView for Variant {
    type V = VariantView;

    open spec fn deep_view(&self) -> VariantView {
        VariantView {
            bitrate: self.bitrate.deep_view(),
            content_type: self.content_type.deep_view(),
            url: self.url.deep_view(),
        }
    }
}

impl Variant {
    /// The length and the first character of the name of each member, by
    /// which the names are told apart.
    pub proof fn lemma_names()
        ensures
            "bitrate"@.len() == 7 && "bitrate"@[0] == 'b',
            "content_type"@.len() == 12 && "content_type"@[0] == 'c',
            "url"@.len() == 3 && "url"@[0] == 'u',
    {
        reveal_strlit("bitrate");
        reveal_strlit("content_type");
        reveal_strlit("url");
    }

    /// Each member of the wire form is found under its name.
    pub proof fn lemma_members(v: VariantView)
        ensures
            member(Variant::encoding(v)->Object_0, "bitrate"@) == Some(
                optional_encoding::<u32>(v.bitrate),
            ),
            member(Variant::encoding(v)->Object_0, "content_type"@) == Some(
                String::encoding(v.content_type),
            ),
            member(Variant::encoding(v)->Object_0, "url"@) == Some(String::encoding(v.url)),
    {
        broadcast use lemma_member_push;

        Self::lemma_names();
    }

    /// A read goes by the names of the members alone: two objects that give
    /// the same to each name of the model decode alike, whatever else they
    /// hold and in whatever order.
    pub proof fn lemma_reads_by_name(a: Members, b: Members)
        requires
            member(a, "bitrate"@) == member(b, "bitrate"@),
            member(a, "content_type"@) == member(b, "content_type"@),
            member(a, "url"@) == member(b, "url"@),
        ensures
            Variant::decoded(JsonView::Object(a)) == Variant::decoded(JsonView::Object(b)),
    {
        reveal(Variant::from_members);
    }

    /// What the members of an object decode to: each field from the member of
    /// its name, in the order of the fields, the first fault ending the read.
    /// Members of other names are passed over.
    #[verifier::opaque]
    pub open spec fn from_members(m: Members) -> Result<VariantView, Fault> {
        let bitrate = optional_field::<u32>(m, "bitrate"@);
        let content_type = required_field::<String>(m, "content_type"@);
        let url = required_field::<String>(m, "url"@);
        if bitrate is Err {
            Err(bitrate->Err_0)
        } else if content_type is Err {
            Err(content_type->Err_0)
        } else if url is Err {
            Err(url->Err_0)
        } else {
            Ok(
                VariantView {
                    bitrate: bitrate->Ok_0,
                    content_type: content_type->Ok_0,
                    url: url->Ok_0,
                },
            )
        }
    }
}

impl Wire for Variant {
    open spec fn decoded(j: JsonView) -> Result<VariantView, Fault> {
        match j {
            JsonView::Object(m) => Variant::from_members(m),
            _ => Err(Fault::at(Cause::TypeMismatch)),
        }
    }

    open spec fn encodable(v: VariantView) -> bool {
        &&& optional_encodable::<u32>(v.bitrate)
        &&& String::encodable(v.content_type)
        &&& String::encodable(v.url)
    }

    open spec fn encoding(v: VariantView) -> JsonView {
        JsonView::Object(
            Seq::empty()
                .push(("bitrate"@, optional_encoding::<u32>(v.bitrate)))
                .push(("content_type"@, String::encoding(v.content_type)))
                .push(("url"@, String::encoding(v.url))),
        )
    }

    open spec fn canonical(v: VariantView) -> bool {
        &&& optional_canonical::<u32>(v.bitrate)
        &&& String::canonical(v.content_type)
        &&& String::canonical(v.url)
    }

    fn decode(j: &Json) -> (r: Result<Variant, MalformedPayload>) {
        reveal(Variant::from_members);
        match j {
            Json::Object(members) => {
                let bitrate = take_optional::<u32>(members, "bitrate")?;
                let content_type = take_required::<String>(members, "content_type")?;
                let url = take_required::<String>(members, "url")?;
                Ok(Variant { bitrate, content_type, url })
            },
            _ => Err(MalformedPayload::at(Cause::TypeMismatch)),
        }
    }

    fn encode(&self) -> (r: Option<Json>) {
        let mut members: Vec<(String, Json)> = Vec::new();
        assert(members_view(members@) =~= Seq::empty());
        put_optional(&mut members, "bitrate", &self.bitrate)?;
        put_required(&mut members, "content_type", &self.content_type)?;
        put_required(&mut members, "url", &self.url)?;
        Some(Json::Object(members))
    }

    proof fn round_trip(v: VariantView) {
        reveal(Variant::from_members);
        Self::lemma_members(v);
    }

    proof fn decoded_canonical(j: JsonView) {
        reveal(Variant::from_members);
        if let JsonView::Object(m) = j {
        }
    }

    proof fn writable_encoding(v: VariantView) {
        broadcast use lemma_members_writable_push;

        if Variant::encodable(v) {
            assert(members_writable(Variant::encoding(v)->Object_0));
        }
    }
}

/// What the publisher says of a piece of media.
#[derive(Debug, PartialEq, Eq)]
pub struct AdditionalMediaInfo {
    /// The title of the content.
    pub title: Option<String>,
    /// A description of the content.
    pub description: Option<String>,
    /// Whether the content may be embedded elsewhere.
    pub embeddable: Option<bool>,
    /// Whether the content may carry advertising.
    pub monetizable: bool,
}

/// The mathematical value of a [`AdditionalMediaInfo`].
pub struct AdditionalMediaInfoView {
    pub title: Option<Seq<char>>,
    pub description: Option<Seq<char>>,
    pub embeddable: Option<bool>,
    pub monetizable: bool,
}

impl DeepView for AdditionalMediaInfo {
    type V = AdditionalMediaInfoView;

    open spec fn deep_view(&self) -> AdditionalMediaInfoView {
        AdditionalMediaInfoView {
            title: self.title.deep_view(),
            description: self.description.deep_view(),
            embeddable: self.embeddable.deep_view(),
            monetizable: self.monetizable.deep_view(),
        }
    }
}

impl AdditionalMediaInfo {
    /// The length and the first character of the name of each member, by
    /// which the names are told apart.
    pub proof fn lemma_names()
        ensures
            "title"@.len() == 5 && "title"@[0] == 't',
            "description"@.len() == 11 && "description"@[0] == 'd',
            "embeddable"@.len() == 10 && "embeddable"@[0] == 'e',
            "monetizable"@.len() == 11 && "monetizable"@[0] == 'm',
    {
        reveal_strlit("title");
        reveal_strlit("description");
        reveal_strlit("embeddable");
        reveal_strlit("monetizable");
    }

    /// Each member of the wire form is found under its name.
    pub proof fn lemma_members(v: AdditionalMediaInfoView)
        ensures
            member(AdditionalMediaInfo::encoding(v)->Object_0, "title"@) == Some(
                optional_encoding::<String>(v.title),
            ),
            member(AdditionalMediaInfo::encoding(v)->Object_0, "description"@) == Some(
                optional_encoding::<String>(v.description),
            ),
            member(AdditionalMediaInfo::encoding(v)->Object_0, "embeddable"@) == Some(
                optional_encoding::<bool>(v.embeddable),
            ),
            member(AdditionalMediaInfo::encoding(v)->Object_0, "monetizable"@) == Some(
                bool::encoding(v.monetizable),
            ),
    {
        broadcast use lemma_member_push;

        Self::lemma_names();
    }

    /// A read goes by the names of the members alone: two objects that give
    /// the same to each name of the model decode alike, whatever else they
    /// hold and in whatever order.
    pub proof fn lemma_reads_by_name(a: Members, b: Members)
        requires
            member(a, "title"@) == member(b, "title"@),
            member(a, "description"@) == member(b, "description"@),
            member(a, "embeddable"@) == member(b, "embeddable"@),
            member(a, "monetizable"@) == member(b, "monetizable"@),
        ensures
            AdditionalMediaInfo::decoded(JsonView::Object(a)) == AdditionalMediaInfo::decoded(
                JsonView::Object(b),
            ),
    {
        reveal(AdditionalMediaInfo::from_members);
    }

    /// What the members of an object decode to: each field from the member of
    /// its name, in the order of the fields, the first fault ending the read.
    /// Members of other names are passed over.
    #[verifier::opaque]
    pub open spec fn from_members(m: Members) -> Result<AdditionalMediaInfoView, Fault> {
        let title = optional_field::<String>(m, "title"@);
        let description = optional_field::<String>(m, "description"@);
        let embeddable = optional_field::<bool>(m, "embeddable"@);
        let monetizable = required_field::<bool>(m, "monetizable"@);
        if title is Err {
            Err(title->Err_0)
        } else if description is Err {
            Err(description->Err_0)
        } else if embeddable is Err {
            Err(embeddable->Err_0)
        } else if monetizable is Err {
            Err(monetizable->Err_0)
        } else {
            Ok(
                AdditionalMediaInfoView {
                    title: title->Ok_0,
                    description: description->Ok_0,
                    embeddable: embeddable->Ok_0,
                    monetizable: monetizable->Ok_0,
                },
            )
        }
    }
}

impl Wire for AdditionalMediaInfo {
    open spec fn decoded(j: JsonView) -> Result<AdditionalMediaInfoView, Fault> {
        match j {
            JsonView::Object(m) => AdditionalMediaInfo::from_members(m),
            _ => Err(Fault::at(Cause::TypeMismatch)),
        }
    }

    open spec fn encodable(v: AdditionalMediaInfoView) -> bool {
        &&& optional_encodable::<String>(v.title)
        &&& optional_encodable::<String>(v.description)
        &&& optional_encodable::<bool>(v.embeddable)
        &&& bool::encodable(v.monetizable)
    }

    open spec fn encoding(v: AdditionalMediaInfoView) -> JsonView {
        JsonView::Object(
            Seq::empty()
                .push(("title"@, optional_encoding::<String>(v.title)))
                .push(("description"@, optional_encoding::<String>(v.description)))
                .push(("embeddable"@, optional_encoding::<bool>(v.embeddable)))
                .push(("monetizable"@, bool::encoding(v.monetizable))),
        )
    }

    open spec fn canonical(v: AdditionalMediaInfoView) -> bool {
        &&& optional_canonical::<String>(v.title)
        &&& optional_canonical::<String>(v.description)
        &&& optional_canonical::<bool>(v.embeddable)
        &&& bool::canonical(v.monetizable)
    }

    fn decode(j: &Json) -> (r: Result<AdditionalMediaInfo, MalformedPayload>) {
        reveal(AdditionalMediaInfo::from_members);
        match j {
            Json::Object(members) => {
                let title = take_optional::<String>(members, "title")?;
                let description = take_optional::<String>(members, "description")?;
                let embeddable = take_optional::<bool>(members, "embeddable")?;
                let monetizable = take_required::<bool>(members, "monetizable")?;
                Ok(AdditionalMediaInfo { title, description, embeddable, monetizable })
            },
            _ => Err(MalformedPayload::at(Cause::TypeMismatch)),
        }
    }

    fn encode(&self) -> (r: Option<Json>) {
        let mut members: Vec<(String, Json)> = Vec::new();
        assert(members_view(members@) =~= Seq::empty());
        put_optional(&mut members, "title", &self.title)?;
        put_optional(&mut members, "description", &self.description)?;
        put_optional(&mut members, "embeddable", &self.embeddable)?;
        put_required(&mut members, "monetizable", &self.monetizable)?;
        Some(Json::Object(members))
    }

    proof fn round_trip(v: AdditionalMediaInfoView) {
        reveal(AdditionalMediaInfo::from_members);
        Self::lemma_members(v);
    }

    proof fn decoded_canonical(j: JsonView) {
        reveal(AdditionalMediaInfo::from_members);
        if let JsonView::Object(m) = j {
        }
    }

    proof fn writable_encoding(v: AdditionalMediaInfoView) {
        broadcast use lemma_members_writable_push;

        if AdditionalMediaInfo::encodable(v) {
            assert(members_writable(AdditionalMediaInfo::encoding(v)->Object_0));
        }
    }
}

/// The four standard sizes of a piece of media.
#[derive(Debug, PartialEq, Eq)]
pub struct Sizes {
    /// The thumbnail.
    pub thumb: Size,
    /// The largest size.
    pub large: Size,
    /// The medium size.
    pub medium: Size,
    /// The small size.
    pub small: Size,
}

/// The mathematical value of a [`Sizes`].
pub struct SizesView {
    pub thumb: SizeView,
    pub large: SizeView,
    pub medium: SizeView,
    pub small: SizeView,
}

impl DeepView for Sizes {
    type V = SizesView;

    open spec fn deep_view(&self) -> SizesView {
        SizesView {
            thumb: self.thumb.deep_view(),
            large: self.large.deep_view(),
            medium: self.medium.deep_view(),
            small: self.small.deep_view(),
        }
    }
}

impl Sizes {
    /// The length and the first character of the name of each member, by
    /// which the names are told apart.
    pub proof fn lemma_names()
        ensures
            "thumb"@.len() == 5 && "thumb"@[0] == 't',
            "large"@.len() == 5 && "large"@[0] == 'l',
            "medium"@.len() == 6 && "medium"@[0] == 'm',
            "small"@.len() == 5 && "small"@[0] == 's',
    {
        reveal_strlit("thumb");
        reveal_strlit("large");
        reveal_strlit("medium");
        reveal_strlit("small");
    }

    /// Each member of the wire form is found under its name.
    pub proof fn lemma_members(v: SizesView)
        ensures
            member(Sizes::encoding(v)->Object_0, "thumb"@) == Some(Size::encoding(v.thumb)),
            member(Sizes::encoding(v)->Object_0, "large"@) == Some(Size::encoding(v.large)),
            member(Sizes::encoding(v)->Object_0, "medium"@) == Some(Size::encoding(v.medium)),
            member(Sizes::encoding(v)->Object_0, "small"@) == Some(Size::encoding(v.small)),
    {
        broadcast use lemma_member_push;

        Self::lemma_names();
    }

    /// A read goes by the names of the members alone: two objects that give
    /// the same to each name of the model decode alike, whatever else they
    /// hold and in whatever order.
    pub proof fn lemma_reads_by_name(a: Members, b: Members)
        requires
            member(a, "thumb"@) == member(b, "thumb"@),
            member(a, "large"@) == member(b, "large"@),
            member(a, "medium"@) == member(b, "medium"@),
            member(a, "small"@) == member(b, "small"@),
        ensures
            Sizes::decoded(JsonView::Object(a)) == Sizes::decoded(JsonView::Object(b)),
    {
        reveal(Sizes::from_members);
    }

    /// What the members of an object decode to: each field from the member of
    /// its name, in the order of the fields, the first fault ending the read.
    /// Members of other names are passed over.
    #[verifier::opaque]
    pub open spec fn from_members(m: Members) -> Result<SizesView, Fault> {
        let thumb = required_field::<Size>(m, "thumb"@);
        let large = required_field::<Size>(m, "large"@);
        let medium = required_field::<Size>(m, "medium"@);
        let small = required_field::<Size>(m, "small"@);
        if thumb is Err {
            Err(thumb->Err_0)
        } else if large is Err {
            Err(large->Err_0)
        } else if medium is Err {
            Err(medium->Err_0)
        } else if small is Err {
            Err(small->Err_0)
        } else {
            Ok(
                SizesView {
                    thumb: thumb->Ok_0,
                    large: large->Ok_0,
                    medium: medium->Ok_0,
                    small: small->Ok_0,
                },
            )
        }
    }
}

impl Wire for Sizes {
    open spec fn decoded(j: JsonView) -> Result<SizesView, Fault> {
        match j {
            JsonView::Object(m) => Sizes::from_members(m),
            _ => Err(Fault::at(Cause::TypeMismatch)),
        }
    }

    open spec fn encodable(v: SizesView) -> bool {
        &&& Size::encodable(v.thumb)
        &&& Size::encodable(v.large)
        &&& Size::encodable(v.medium)
        &&& Size::encodable(v.small)
    }

    open spec fn encoding(v: SizesView) -> JsonView {
        JsonView::Object(
            Seq::empty()
                .push(("thumb"@, Size::encoding(v.thumb)))
                .push(("large"@, Size::encoding(v.large)))
                .push(("medium"@, Size::encoding(v.medium)))
                .push(("small"@, Size::encoding(v.small))),
        )
    }

    open spec fn canonical(v: SizesView) -> bool {
        &&& Size::canonical(v.thumb)
        &&& Size::canonical(v.large)
        &&& Size::canonical(v.medium)
        &&& Size::canonical(v.small)
    }

    fn decode(j: &Json) -> (r: Result<Sizes, MalformedPayload>) {
        reveal(Sizes::from_members);
        match j {
            Json::Object(members) => {
                let thumb = take_required::<Size>(members, "thumb")?;
                let large = take_required::<Size>(members, "large")?;
                let medium = take_required::<Size>(members, "medium")?;
                let small = take_required::<Size>(members, "small")?;
                Ok(Sizes { thumb, large, medium, small })
            },
            _ => Err(MalformedPayload::at(Cause::TypeMismatch)),
        }
    }

    fn encode(&self) -> (r: Option<Json>) {
        let mut members: Vec<(String, Json)> = Vec::new();
        assert(members_view(members@) =~= Seq::empty());
        put_required(&mut members, "thumb", &self.thumb)?;
        put_required(&mut members, "large", &self.large)?;
        put_required(&mut members, "medium", &self.medium)?;
        put_required(&mut members, "small", &self.small)?;
        Some(Json::Object(members))
    }

    proof fn round_trip(v: SizesView) {
        reveal(Sizes::from_members);
        Self::lemma_members(v);
        Size::round_trip(v.thumb);
        Size::round_trip(v.large);
        Size::round_trip(v.medium);
        Size::round_trip(v.small);
    }

    proof fn decoded_canonical(j: JsonView) {
        reveal(Sizes::from_members);
        if let JsonView::Object(m) = j {
            Size::decoded_canonical(member(m, "thumb"@).unwrap());
            Size::decoded_canonical(member(m, "large"@).unwrap());
            Size::decoded_canonical(member(m, "medium"@).unwrap());
            Size::decoded_canonical(member(m, "small"@).unwrap());
        }
    }

    proof fn writable_encoding(v: SizesView) {
        broadcast use lemma_members_writable_push;

        Size::writable_encoding(v.thumb);
        Size::writable_encoding(v.large);
        Size::writable_encoding(v.medium);
        Size::writable_encoding(v.small);
        if Sizes::encodable(v) {
            assert(members_writable(Sizes::encoding(v)->Object_0));
        }
    }
}

/// One size of a piece of media.
#[derive(Debug, PartialEq, Eq)]
pub struct Size {
    /// The width in pixels.
    pub w: u32,
    /// The height in pixels.
    pub h: u32,
    /// How the media was brought to this size.
    pub resize: String,
}

/// The mathematical value of a [`Size`].
pub struct SizeView {
    pub w: u32,
    pub h: u32,
    pub resize: Seq<char>,
}

impl DeepView for Size {
    type V = SizeView;

    open spec fn deep_view(&self) -> SizeView {
        SizeView {
            w: self.w.deep_view(),
            h: self.h.deep_view(),
            resize: self.resize.deep_view(),
        }
    }
}

impl Size {
    /// The length and the first character of the name of each member, by
    /// which the names are told apart.
    pub proof fn lemma_names()
        ensures
            "w"@.len() == 1 && "w"@[0] == 'w',
            "h"@.len() == 1 && "h"@[0] == 'h',
            "resize"@.len() == 6 && "resize"@[0] == 'r',
    {
        reveal_strlit("w");
        reveal_strlit("h");
        reveal_strlit("resize");
    }

    /// Each member of the wire form is found under its name.
    pub proof fn lemma_members(v: SizeView)
        ensures
            member(Size::encoding(v)->Object_0, "w"@) == Some(u32::encoding(v.w)),
            member(Size::encoding(v)->Object_0, "h"@) == Some(u32::encoding(v.h)),
            member(Size::encoding(v)->Object_0, "resize"@) == Some(String::encoding(v.resize)),
    {
        broadcast use lemma_member_push;

        Self::lemma_names();
    }

    /// A read goes by the names of the members alone: two objects that give
    /// the same to each name of the model decode alike, whatever else they
    /// hold and in whatever order.
    pub proof fn lemma_reads_by_name(a: Members, b: Members)
        requires
            member(a, "w"@) == member(b, "w"@),
            member(a, "h"@) == member(b, "h"@),
            member(a, "resize"@) == member(b, "resize"@),
        ensures
            Size::decoded(JsonView::Object(a)) == Size::decoded(JsonView::Object(b)),
    {
        reveal(Size::from_members);
    }

    /// What the members of an object decode to: each field from the member of
    /// its name, in the order of the fields, the first fault ending the read.
    /// Members of other names are passed over.
    #[verifier::opaque]
    pub open spec fn from_members(m: Members) -> Result<SizeView, Fault> {
        let w = required_field::<u32>(m, "w"@);
        let h = required_field::<u32>(m, "h"@);
        let resize = required_field::<String>(m, "resize"@);
        if w is Err {
            Err(w->Err_0)
        } else if h is Err {
            Err(h->Err_0)
        } else if resize is Err {
            Err(resize->Err_0)
        } else {
            Ok(SizeView { w: w->Ok_0, h: h->Ok_0, resize: resize->Ok_0 })
        }
    }
}

impl Wire for Size {
    open spec fn decoded(j: JsonView) -> Result<SizeView, Fault> {
        match j {
            JsonView::Object(m) => Size::from_members(m),
            _ => Err(Fault::at(Cause::TypeMismatch)),
        }
    }

    open spec fn encodable(v: SizeView) -> bool {
        &&& u32::encodable(v.w)
        &&& u32::encodable(v.h)
        &&& String::encodable(v.resize)
    }

    open spec fn encoding(v: SizeView) -> JsonView {
        JsonView::Object(
            Seq::empty()
                .push(("w"@, u32::encoding(v.w)))
                .push(("h"@, u32::encoding(v.h)))
                .push(("resize"@, String::encoding(v.resize))),
        )
    }

    open spec fn canonical(v: SizeView) -> bool {
        &&& u32::canonical(v.w)
        &&& u32::canonical(v.h)
        &&& String::canonical(v.resize)
    }

    fn decode(j: &Json) -> (r: Result<Size, MalformedPayload>) {
        reveal(Size::from_members);
        match j {
            Json::Object(members) => {
                let w = take_required::<u32>(members, "w")?;
                let h = take_required::<u32>(members, "h")?;
                let resize = take_required::<String>(members, "resize")?;
                Ok(Size { w, h, resize })
            },
            _ => Err(MalformedPayload::at(Cause::TypeMismatch)),
        }
    }

    fn encode(&self) -> (r: Option<Json>) {
        let mut members: Vec<(String, Json)> = Vec::new();
        assert(members_view(members@) =~= Seq::empty());
        put_required(&mut members, "w", &self.w)?;
        put_required(&mut members, "h", &self.h)?;
        put_required(&mut members, "resize", &self.resize)?;
        Some(Json::Object(members))
    }

    proof fn round_trip(v: SizeView) {
        reveal(Size::from_members);
        Self::lemma_members(v);
    }

    proof fn decoded_canonical(j: JsonView) {
        reveal(Size::from_members);
        if let JsonView::Object(m) = j {
        }
    }

    proof fn writable_encoding(v: SizeView) {
        broadcast use lemma_members_writable_push;

        if Size::encodable(v) {
            assert(members_writable(Size::encoding(v)->Object_0));
        }
    }
}

/// How a bitrate ranks among others: an absent one below every present one.
pub open spec fn rank(bitrate: Option<u32>) -> int {
    match bitrate {
        Some(rate) => rate as int,
        None => -1,
    }
}

/// The position of the rendition to take: that of the greatest bitrate, and
/// of several that share it the last.
pub open spec fn best_variant(variants: Seq<VariantView>) -> int
    decreases variants.len(),
{
    if variants.len() <= 1 {
        0
    } else {
        let before = best_variant(variants.drop_last());
        if rank(variants.last().bitrate) >= rank(variants[before].bitrate) {
            variants.len() - 1
        } else {
            before
        }
    }
}

/// No rendition has a greater bitrate than the one taken, and none after it
/// has the same.
pub proof fn lemma_best_variant(variants: Seq<VariantView>)
    requires
        variants.len() > 0,
    ensures
        0 <= best_variant(variants) < variants.len(),
        forall|i: int|
            0 <= i < variants.len() ==> rank(#[trigger] variants[i].bitrate) <= rank(
                variants[best_variant(variants)].bitrate,
            ),
        forall|i: int|
            best_variant(variants) < i < variants.len() ==> rank(#[trigger] variants[i].bitrate)
                < rank(variants[best_variant(variants)].bitrate),
    decreases variants.len(),
{
    if variants.len() > 1 {
        lemma_best_variant(variants.drop_last());
        let front = variants.drop_last();
        assert forall|i: int| 0 <= i < variants.len() - 1 implies front[i] == variants[i] by {}
    }
}

fn outranks(later: Option<u32>, earlier: Option<u32>) -> (r: bool)
    ensures
        r == (rank(later) >= rank(earlier)),
{
    match later {
        Some(a) => match earlier {
            Some(b) => a >= b,
            None => true,
        },
        None => earlier.is_none(),
    }
}

impl MediaView {
    /// Where the media is to be fetched from: for a photo its HTTPS address,
    /// for anything else the address of its best rendition, if it has one.
    pub open spec fn best_url(self) -> Option<Seq<char>> {
        if self.kind is Photo {
            Some(self.media_url_https)
        } else {
            match self.video_info {
                Some(info) => if info.variants.len() == 0 {
                    None
                } else {
                    Some(info.variants[best_variant(info.variants)].url)
                },
                None => None,
            }
        }
    }
}

impl Media {
    /// Where the media is to be fetched from, if anywhere.
    pub fn url(&self) -> (r: Option<String>)
        ensures
            r.deep_view() == self.deep_view().best_url(),
    {
        if let MediaType::Photo = self.kind {
            return Some(self.media_url_https.clone());
        }
        match &self.video_info {
            Some(info) => {
                let ghost all = info.variants.deep_view();
                if info.variants.len() == 0 {
                    return None;
                }
                let mut best: usize = 0;
                let mut i: usize = 1;
                while i < info.variants.len()
                    invariant
                        1 <= i <= info.variants.len(),
                        all == info.variants.deep_view(),
                        best < i,
                        best == best_variant(all.subrange(0, i as int)),
                    decreases info.variants.len() - i,
                {
                    proof {
                        let upto = all.subrange(0, i + 1);
                        assert(upto.drop_last() =~= all.subrange(0, i as int));
                        assert(upto.last() == info.variants[i as int].deep_view());
                        assert(upto[best as int] == info.variants[best as int].deep_view());
                    }
                    if outranks(info.variants[i].bitrate, info.variants[best].bitrate) {
                        best = i;
                    }
                    i = i + 1;
                }
                assert(all.subrange(0, i as int) =~= all);
                Some(info.variants[best].url.clone())
            },
            None => None,
        }
    }
}

} // verus!
