//! The media kind codec: three known names, and every other name kept as it
//! came.
use vstd::prelude::*;
use vstd::string::StringExecFns;
use crate::error::{Cause, Fault, MalformedPayload};
use crate::json::{same_text, Json, JsonView};
use crate::model::media::{MediaType, MediaTypeView};
use crate::wire::Wire;

verus! {

/// The kind that a wire name stands for.
pub open spec fn kind_of(name: Seq<char>) -> MediaTypeView {
    if name == "photo"@ {
        MediaTypeView::Photo
    } else if name == "gif"@ {
        MediaTypeView::Gif
    } else if name == "video"@ {
        MediaTypeView::Video
    } else {
        MediaTypeView::Unknown(name)
    }
}

/// The wire name of a kind.
pub open spec fn name_of(kind: MediaTypeView) -> Seq<char> {
    match kind {
        MediaTypeView::Photo => "photo"@,
        MediaTypeView::Gif => "gif"@,
        MediaTypeView::Video => "video"@,
        MediaTypeView::Unknown(name) => name,
    }
}

/// Whether a kind is the one that its wire name stands for: every kind but an
/// unknown one that carries a known name.
pub open spec fn is_plain(kind: MediaTypeView) -> bool {
    kind matches MediaTypeView::Unknown(name) ==> name != "photo"@ && name != "gif"@ && name
        != "video"@
}

impl MediaType {
    /// The kind that a wire name stands for. Names are told apart by case.
    pub fn from_name(name: &str) -> (kind: MediaType)
        ensures
            kind.deep_view() == kind_of(name@),
    {
        if same_text(name, "photo") {
            MediaType::Photo
        } else if same_text(name, "gif") {
            MediaType::Gif
        } else if same_text(name, "video") {
            MediaType::Video
        } else {
            MediaType::Unknown(String::from_str(name))
        }
    }

    /// The wire name of the kind.
    pub fn name(&self) -> (name: String)
        ensures
            name@ == name_of(self.deep_view()),
    {
        match self {
            MediaType::Photo => String::from_str("photo"),
            MediaType::Gif => String::from_str("gif"),
            MediaType::Video => String::from_str("video"),
            MediaType::Unknown(name) => name.clone(),
        }
    }
}

/// Every wire name is the name of the kind that it stands for: no name is
/// lost on the way through the model, known or not.
pub proof fn lemma_name_survives(name: Seq<char>)
    ensures
        name_of(kind_of(name)) == name,
{
}

/// A kind is the kind of its own wire name exactly when it is plain.
pub proof fn lemma_kind_survives(kind: MediaTypeView)
    ensures
        kind_of(name_of(kind)) == kind <==> is_plain(kind),
{
    reveal_strlit("photo");
    reveal_strlit("gif");
    reveal_strlit("video");
    assert("photo"@.len() == 5);
    assert("gif"@.len() == 3);
    assert("video"@.len() == 5 && "video"@[0] == 'v' && "photo"@[0] == 'p');
}

impl Wire for MediaType {
    open spec fn decoded(j: JsonView) -> Result<MediaTypeView, Fault> {
        match j {
            JsonView::String(name) => Ok(kind_of(name)),
            _ => Err(Fault::at(Cause::TypeMismatch)),
        }
    }

    open spec fn encodable(v: MediaTypeView) -> bool {
        true
    }

    open spec fn encoding(v: MediaTypeView) -> JsonView {
        JsonView::String(name_of(v))
    }

    open spec fn canonical(v: MediaTypeView) -> bool {
        is_plain(v)
    }

    fn decode(j: &Json) -> (r: Result<MediaType, MalformedPayload>) {
        match j {
            Json::String(name) => Ok(MediaType::from_name(name.as_str())),
            _ => Err(MalformedPayload::at(Cause::TypeMismatch)),
        }
    }

    fn encode(&self) -> (r: Option<Json>) {
        Some(Json::String(self.name()))
    }

    proof fn round_trip(v: MediaTypeView) {
        lemma_kind_survives(v);
    }

    proof fn decoded_canonical(j: JsonView) {
    }

    proof fn writable_encoding(v: Self::V) {
    }
}

} // verus!
