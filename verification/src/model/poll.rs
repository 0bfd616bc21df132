//! Polls.
use vstd::prelude::*;
use crate::error::{Cause, Fault, MalformedPayload};
use crate::json::{
    lemma_member_push, lemma_members_writable_push, member, members_view, members_writable,
    writable, Json, JsonView, Members,
};
use crate::util::datetime::Timestamp;
use crate::wire::{put_required, required_field, take_required, Wire};

verus! {

/// A poll attached to a status.
#[derive(Debug, PartialEq, Eq)]
pub struct Poll {
    /// The choices, in order.
    pub options: Vec<PollOption>,
    /// When the poll closes.
    pub end_datetime: Timestamp,
    /// For how many minutes the poll runs.
    pub duration_minutes: String,
}

/// The mathematical value of a [`Poll`].
pub struct PollView {
    pub options: Seq<PollOptionView>,
    pub end_datetime: Timestamp,
    pub duration_minutes: Seq<char>,
}

impl DeepView for Poll {
    type V = PollView;

    open spec fn deep_view(&self) -> PollView {
        PollView {
            options: self.options.deep_view(),
            end_datetime: self.end_datetime.deep_view(),
            duration_minutes: self.duration_minutes.deep_view(),
        }
    }
}

impl Poll {
    /// The length and the first character of the name of each member, by
    /// which the names are told apart.
    pub proof fn lemma_names()
        ensures
            "options"@.len() == 7 && "options"@[0] == 'o',
            "end_datetime"@.len() == 12 && "end_datetime"@[0] == 'e',
            "duration_minutes"@.len() == 16 && "duration_minutes"@[0] == 'd',
    {
        reveal_strlit("options");
        reveal_strlit("end_datetime");
        reveal_strlit("duration_minutes");
    }

    /// Each member of the wire form is found under its name.
    pub proof fn lemma_members(v: PollView)
        ensures
            member(Poll::encoding(v)->Object_0, "options"@) == Some(
                Vec::<PollOption>::encoding(v.options),
            ),
            member(Poll::encoding(v)->Object_0, "end_datetime"@) == Some(
                Timestamp::encoding(v.end_datetime),
            ),
            member(Poll::encoding(v)->Object_0, "duration_minutes"@) == Some(
                String::encoding(v.duration_minutes),
            ),
    {
        broadcast use lemma_member_push;

        Self::lemma_names();
    }

    /// A read goes by the names of the members alone: two objects that give
    /// the same to each name of the model decode alike, whatever else they
    /// hold and in whatever order.
    pub proof fn lemma_reads_by_name(a: Members, b: Members)
        requires
            member(a, "options"@) == member(b, "options"@),
            member(a, "end_datetime"@) == member(b, "end_datetime"@),
            member(a, "duration_minutes"@) == member(b, "duration_minutes"@),
        ensures
            Poll::decoded(JsonView::Object(a)) == Poll::decoded(JsonView::Object(b)),
    {
        reveal(Poll::from_members);
    }

    /// What the members of an object decode to: each field from the member of
    /// its name, in the order of the fields, the first fault ending the read.
    /// Members of other names are passed over.
    #[verifier::opaque]
    pub open spec fn from_members(m: Members) -> Result<PollView, Fault> {
        let options = required_field::<Vec<PollOption>>(m, "options"@);
        let end_datetime = required_field::<Timestamp>(m, "end_datetime"@);
        let duration_minutes = required_field::<String>(m, "duration_minutes"@);
        if options is Err {
            Err(options->Err_0)
        } else if end_datetime is Err {
            Err(end_datetime->Err_0)
        } else if duration_minutes is Err {
            Err(duration_minutes->Err_0)
        } else {
            Ok(
                PollView {
                    options: options->Ok_0,
                    end_datetime: end_datetime->Ok_0,
                    duration_minutes: duration_minutes->Ok_0,
                },
            )
        }
    }
}

impl Wire for Poll {
    open spec fn decoded(j: JsonView) -> Result<PollView, Fault> {
        match j {
            JsonView::Object(m) => Poll::from_members(m),
            _ => Err(Fault::at(Cause::TypeMismatch)),
        }
    }

    open spec fn encodable(v: PollView) -> bool {
        &&& Vec::<PollOption>::encodable(v.options)
        &&& Timestamp::encodable(v.end_datetime)
        &&& String::encodable(v.duration_minutes)
    }

    open spec fn encoding(v: PollView) -> JsonView {
        JsonView::Object(
            Seq::empty()
                .push(("options"@, Vec::<PollOption>::encoding(v.options)))
                .push(("end_datetime"@, Timestamp::encoding(v.end_datetime)))
                .push(("duration_minutes"@, String::encoding(v.duration_minutes))),
        )
    }

    open spec fn canonical(v: PollView) -> bool {
        &&& Vec::<PollOption>::canonical(v.options)
        &&& Timestamp::canonical(v.end_datetime)
        &&& String::canonical(v.duration_minutes)
    }

    fn decode(j: &Json) -> (r: Result<Poll, MalformedPayload>) {
        reveal(Poll::from_members);
        match j {
            Json::Object(members) => {
                let options = take_required::<Vec<PollOption>>(members, "options")?;
                let end_datetime = take_required::<Timestamp>(members, "end_datetime")?;
                let duration_minutes = take_required::<String>(members, "duration_minutes")?;
                Ok(Poll { options, end_datetime, duration_minutes })
            },
            _ => Err(MalformedPayload::at(Cause::TypeMismatch)),
        }
    }

    fn encode(&self) -> (r: Option<Json>) {
        let mut members: Vec<(String, Json)> = Vec::new();
        assert(members_view(members@) =~= Seq::empty());
        put_required(&mut members, "options", &self.options)?;
        put_required(&mut members, "end_datetime", &self.end_datetime)?;
        put_required(&mut members, "duration_minutes", &self.duration_minutes)?;
        Some(Json::Object(members))
    }

    proof fn round_trip(v: PollView) {
        reveal(Poll::from_members);
        Self::lemma_members(v);
        Vec::<PollOption>::round_trip(v.options);
        Timestamp::round_trip(v.end_datetime);
    }

    proof fn decoded_canonical(j: JsonView) {
        reveal(Poll::from_members);
        if let JsonView::Object(m) = j {
            Vec::<PollOption>::decoded_canonical(member(m, "options"@).unwrap());
            Timestamp::decoded_canonical(member(m, "end_datetime"@).unwrap());
        }
    }

    proof fn writable_encoding(v: PollView) {
        broadcast use lemma_members_writable_push;

        Vec::<PollOption>::writable_encoding(v.options);
        Timestamp::writable_encoding(v.end_datetime);
        if Poll::encodable(v) {
            assert(members_writable(Poll::encoding(v)->Object_0));
        }
    }
}

/// One choice of a poll.
#[derive(Debug, PartialEq, Eq)]
pub struct PollOption {
    /// The place of the choice among the others.
    pub position: u32,
    /// What the choice says.
    pub text: String,
}

/// The mathematical value of a [`PollOption`].
pub struct PollOptionView {
    pub position: u32,
    pub text: Seq<char>,
}

impl DeepView for PollOption {
    type V = PollOptionView;

    open spec fn deep_view(&self) -> PollOptionView {
        PollOptionView {
            position: self.position.deep_view(),
            text: self.text.deep_view(),
        }
    }
}

impl PollOption {
    /// The length and the first character of the name of each member, by
    /// which the names are told apart.
    pub proof fn lemma_names()
        ensures
            "position"@.len() == 8 && "position"@[0] == 'p',
            "text"@.len() == 4 && "text"@[0] == 't',
    {
        reveal_strlit("position");
        reveal_strlit("text");
    }

    /// Each member of the wire form is found under its name.
    pub proof fn lemma_members(v: PollOptionView)
        ensures
            member(PollOption::encoding(v)->Object_0, "position"@) == Some(
                u32::encoding(v.position),
            ),
            member(PollOption::encoding(v)->Object_0, "text"@) == Some(String::encoding(v.text)),
    {
        broadcast use lemma_member_push;

        Self::lemma_names();
    }

    /// A read goes by the names of the members alone: two objects that give
    /// the same to each name of the model decode alike, whatever else they
    /// hold and in whatever order.
    pub proof fn lemma_reads_by_name(a: Members, b: Members)
        requires
            member(a, "position"@) == member(b, "position"@),
            member(a, "text"@) == member(b, "text"@),
        ensures
            PollOption::decoded(JsonView::Object(a)) == PollOption::decoded(JsonView::Object(b)),
    {
        reveal(PollOption::from_members);
    }

    /// What the members of an object decode to: each field from the member of
    /// its name, in the order of the fields, the first fault ending the read.
    /// Members of other names are passed over.
    #[verifier::opaque]
    pub open spec fn from_members(m: Members) -> Result<PollOptionView, Fault> {
        let position = required_field::<u32>(m, "position"@);
        let text = required_field::<String>(m, "text"@);
        if position is Err {
            Err(position->Err_0)
        } else if text is Err {
            Err(text->Err_0)
        } else {
            Ok(PollOptionView { position: position->Ok_0, text: text->Ok_0 })
        }
    }
}

impl Wire for PollOption {
    open spec fn decoded(j: JsonView) -> Result<PollOptionView, Fault> {
        match j {
            JsonView::Object(m) => PollOption::from_members(m),
            _ => Err(Fault::at(Cause::TypeMismatch)),
        }
    }

    open spec fn encodable(v: PollOptionView) -> bool {
        &&& u32::encodable(v.position)
        &&& String::encodable(v.text)
    }

    open spec fn encoding(v: PollOptionView) -> JsonView {
        JsonView::Object(
            Seq::empty()
                .push(("position"@, u32::encoding(v.position)))
                .push(("text"@, String::encoding(v.text))),
        )
    }

    open spec fn canonical(v: PollOptionView) -> bool {
        &&& u32::canonical(v.position)
        &&& String::canonical(v.text)
    }

    fn decode(j: &Json) -> (r: Result<PollOption, MalformedPayload>) {
        reveal(PollOption::from_members);
        match j {
            Json::Object(members) => {
                let position = take_required::<u32>(members, "position")?;
                let text = take_required::<String>(members, "text")?;
                Ok(PollOption { position, text })
            },
            _ => Err(MalformedPayload::at(Cause::TypeMismatch)),
        }
    }

    fn encode(&self) -> (r: Option<Json>) {
        let mut members: Vec<(String, Json)> = Vec::new();
        assert(members_view(members@) =~= Seq::empty());
        put_required(&mut members, "position", &self.position)?;
        put_required(&mut members, "text", &self.text)?;
        Some(Json::Object(members))
    }

    proof fn round_trip(v: PollOptionView) {
        reveal(PollOption::from_members);
        Self::lemma_members(v);
    }

    proof fn decoded_canonical(j: JsonView) {
        reveal(PollOption::from_members);
        if let JsonView::Object(m) = j {
        }
    }

    proof fn writable_encoding(v: PollOptionView) {
        broadcast use lemma_members_writable_push;

        if PollOption::encodable(v) {
            assert(members_writable(PollOption::encoding(v)->Object_0));
        }
    }
}

} // verus!
