//! Limit notices.
use vstd::prelude::*;
use crate::error::{Cause, Fault, MalformedPayload};
use crate::json::{
    lemma_member_push, lemma_members_writable_push, member, members_view, members_writable,
    writable, Json, JsonView, Members,
};
use crate::wire::{
    decode_text, decoded_text, encode_text, encoded_text, put_required, required_field,
    take_required, view_result, Wire,
};

verus! {

/// A notice that takes the place of a status: upstream had more to deliver than
/// /// the connection was allowed to carry.
#[derive(Debug, PartialEq, Eq)]
pub struct Limit {
    /// What the notice reports.
    pub limit: LimitFields,
}

/// The mathematical value of a [`Limit`].
pub struct LimitView {
    pub limit: LimitFieldsView,
}

impl DeepView for Limit {
    type V = LimitView;

    open spec fn deep_view(&self) -> LimitView {
        LimitView {
            limit: self.limit.deep_view(),
        }
    }
}

impl Limit {
    /// The length and the first character of the name of each member, by
    /// which the names are told apart.
    pub proof fn lemma_names()
        ensures
            "limit"@.len() == 5 && "limit"@[0] == 'l',
    {
        reveal_strlit("limit");
    }

    /// Each member of the wire form is found under its name.
    pub proof fn lemma_members(v: LimitView)
        ensures
            member(Limit::encoding(v)->Object_0, "limit"@) == Some(LimitFields::encoding(v.limit)),
    {
        broadcast use lemma_member_push;

        Self::lemma_names();
    }

    /// A read goes by the names of the members alone: two objects that give
    /// the same to each name of the model decode alike, whatever else they
    /// hold and in whatever order.
    pub proof fn lemma_reads_by_name(a: Members, b: Members)
        requires
            member(a, "limit"@) == member(b, "limit"@),
        ensures
            Limit::decoded(JsonView::Object(a)) == Limit::decoded(JsonView::Object(b)),
    {
        reveal(Limit::from_members);
    }

    /// What the members of an object decode to: each field from the member of
    /// its name, in the order of the fields, the first fault ending the read.
    /// Members of other names are passed over.
    #[verifier::opaque]
    pub open spec fn from_members(m: Members) -> Result<LimitView, Fault> {
        let limit = required_field::<LimitFields>(m, "limit"@);
        if limit is Err {
            Err(limit->Err_0)
        } else {
            Ok(LimitView { limit: limit->Ok_0 })
        }
    }
}

impl Wire for Limit {
    open spec fn decoded(j: JsonView) -> Result<LimitView, Fault> {
        match j {
            JsonView::Object(m) => Limit::from_members(m),
            _ => Err(Fault::at(Cause::TypeMismatch)),
        }
    }

    open spec fn encodable(v: LimitView) -> bool {
        &&& LimitFields::encodable(v.limit)
    }

    open spec fn encoding(v: LimitView) -> JsonView {
        JsonView::Object(
            Seq::empty()
                .push(("limit"@, LimitFields::encoding(v.limit))),
        )
    }

    open spec fn canonical(v: LimitView) -> bool {
        &&& LimitFields::canonical(v.limit)
    }

    fn decode(j: &Json) -> (r: Result<Limit, MalformedPayload>) {
        reveal(Limit::from_members);
        match j {
            Json::Object(members) => {
                let limit = take_required::<LimitFields>(members, "limit")?;
                Ok(Limit { limit })
            },
            _ => Err(MalformedPayload::at(Cause::TypeMismatch)),
        }
    }

    fn encode(&self) -> (r: Option<Json>) {
        let mut members: Vec<(String, Json)> = Vec::new();
        assert(members_view(members@) =~= Seq::empty());
        put_required(&mut members, "limit", &self.limit)?;
        Some(Json::Object(members))
    }

    proof fn round_trip(v: LimitView) {
        reveal(Limit::from_members);
        Self::lemma_members(v);
        LimitFields::round_trip(v.limit);
    }

    proof fn decoded_canonical(j: JsonView) {
        reveal(Limit::from_members);
        if let JsonView::Object(m) = j {
            LimitFields::decoded_canonical(member(m, "limit"@).unwrap());
        }
    }

    proof fn writable_encoding(v: LimitView) {
        broadcast use lemma_members_writable_push;

        LimitFields::writable_encoding(v.limit);
        if Limit::encodable(v) {
            assert(members_writable(Limit::encoding(v)->Object_0));
        }
    }
}

/// The body of a limit notice.
#[derive(Debug, PartialEq, Eq)]
pub struct LimitFields {
    /// How many statuses were withheld since the connection was opened.
    pub track: u32,
    /// When the notice was issued, in milliseconds, as text.
    pub timestamp_ms: String,
}

/// The mathematical value of a [`LimitFields`].
pub struct LimitFieldsView {
    pub track: u32,
    pub timestamp_ms: Seq<char>,
}

impl DeepView for LimitFields {
    type V = LimitFieldsView;

    open spec fn deep_view(&self) -> LimitFieldsView {
        LimitFieldsView {
            track: self.track.deep_view(),
            timestamp_ms: self.timestamp_ms.deep_view(),
        }
    }
}

impl LimitFields {
    /// The length and the first character of the name of each member, by
    /// which the names are told apart.
    pub proof fn lemma_names()
        ensures
            "track"@.len() == 5 && "track"@[0] == 't',
            "timestamp_ms"@.len() == 12 && "timestamp_ms"@[0] == 't',
    {
        reveal_strlit("track");
        reveal_strlit("timestamp_ms");
    }

    /// Each member of the wire form is found under its name.
    pub proof fn lemma_members(v: LimitFieldsView)
        ensures
            member(LimitFields::encoding(v)->Object_0, "track"@) == Some(u32::encoding(v.track)),
            member(LimitFields::encoding(v)->Object_0, "timestamp_ms"@) == Some(
                String::encoding(v.timestamp_ms),
            ),
    {
        broadcast use lemma_member_push;

        Self::lemma_names();
    }

    /// A read goes by the names of the members alone: two objects that give
    /// the same to each name of the model decode alike, whatever else they
    /// hold and in whatever order.
    pub proof fn lemma_reads_by_name(a: Members, b: Members)
        requires
            member(a, "track"@) == member(b, "track"@),
            member(a, "timestamp_ms"@) == member(b, "timestamp_ms"@),
        ensures
            LimitFields::decoded(JsonView::Object(a)) == LimitFields::decoded(JsonView::Object(b)),
    {
        reveal(LimitFields::from_members);
    }

    /// What the members of an object decode to: each field from the member of
    /// its name, in the order of the fields, the first fault ending the read.
    /// Members of other names are passed over.
    #[verifier::opaque]
    pub open spec fn from_members(m: Members) -> Result<LimitFieldsView, Fault> {
        let track = required_field::<u32>(m, "track"@);
        let timestamp_ms = required_field::<String>(m, "timestamp_ms"@);
        if track is Err {
            Err(track->Err_0)
        } else if timestamp_ms is Err {
            Err(timestamp_ms->Err_0)
        } else {
            Ok(LimitFieldsView { track: track->Ok_0, timestamp_ms: timestamp_ms->Ok_0 })
        }
    }
}

impl Wire for LimitFields {
    open spec fn decoded(j: JsonView) -> Result<LimitFieldsView, Fault> {
        match j {
            JsonView::Object(m) => LimitFields::from_members(m),
            _ => Err(Fault::at(Cause::TypeMismatch)),
        }
    }

    open spec fn encodable(v: LimitFieldsView) -> bool {
        &&& u32::encodable(v.track)
        &&& String::encodable(v.timestamp_ms)
    }

    open spec fn encoding(v: LimitFieldsView) -> JsonView {
        JsonView::Object(
            Seq::empty()
                .push(("track"@, u32::encoding(v.track)))
                .push(("timestamp_ms"@, String::encoding(v.timestamp_ms))),
        )
    }

    open spec fn canonical(v: LimitFieldsView) -> bool {
        &&& u32::canonical(v.track)
        &&& String::canonical(v.timestamp_ms)
    }

    fn decode(j: &Json) -> (r: Result<LimitFields, MalformedPayload>) {
        reveal(LimitFields::from_members);
        match j {
            Json::Object(members) => {
                let track = take_required::<u32>(members, "track")?;
                let timestamp_ms = take_required::<String>(members, "timestamp_ms")?;
                Ok(LimitFields { track, timestamp_ms })
            },
            _ => Err(MalformedPayload::at(Cause::TypeMismatch)),
        }
    }

    fn encode(&self) -> (r: Option<Json>) {
        let mut members: Vec<(String, Json)> = Vec::new();
        assert(members_view(members@) =~= Seq::empty());
        put_required(&mut members, "track", &self.track)?;
        put_required(&mut members, "timestamp_ms", &self.timestamp_ms)?;
        Some(Json::Object(members))
    }

    proof fn round_trip(v: LimitFieldsView) {
        reveal(LimitFields::from_members);
        Self::lemma_members(v);
    }

    proof fn decoded_canonical(j: JsonView) {
        reveal(LimitFields::from_members);
        if let JsonView::Object(m) = j {
        }
    }

    proof fn writable_encoding(v: LimitFieldsView) {
        broadcast use lemma_members_writable_push;

        if LimitFields::encodable(v) {
            assert(members_writable(LimitFields::encoding(v)->Object_0));
        }
    }
}

impl Limit {
    /// Decodes one limit notice from JSON text.
    pub fn from_str(s: &str) -> (r: Result<Limit, MalformedPayload>)
        ensures
            view_result(r) == decoded_text::<Limit>(s@),
    {
        decode_text::<Limit>(s)
    }

    /// Writes the notice as JSON text, if it has a wire form.
    pub fn to_text(&self) -> (r: Option<String>)
        ensures
            r is Some <==> Limit::encodable(self.deep_view()),
            match r {
                Some(text) => encoded_text::<Limit>(self.deep_view()) == Some(text@),
                None => encoded_text::<Limit>(self.deep_view()) is None,
            },
    {
        encode_text(self)
    }
}

} // verus!
