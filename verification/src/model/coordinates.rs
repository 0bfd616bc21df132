//! Points on the map.
use vstd::prelude::*;
use crate::error::{Cause, Fault, MalformedPayload};
use crate::json::{
    lemma_member_push, lemma_members_writable_push, member, members_view, members_writable,
    writable, Json, JsonNumber, JsonView, Members, NumberView,
};
use crate::wire::{put_required, required_field, take_required, Wire};

verus! {

/// A point on the map, as the author's client reported it.
#[derive(Debug, PartialEq, Eq)]
pub struct Coordinates {
    /// The two coordinates of the point, each the number that the wire gave.
    pub coordinates: (JsonNumber, JsonNumber),
    /// The coordinate system in which the point is given.
    pub kind: String,
}

/// The mathematical value of a [`Coordinates`].
pub struct CoordinatesView {
    pub coordinates: (NumberView, NumberView),
    pub kind: Seq<char>,
}

impl DeepView for Coordinates {
    type V = CoordinatesView;

    open spec fn deep_view(&self) -> CoordinatesView {
        CoordinatesView {
            coordinates: self.coordinates.deep_view(),
            kind: self.kind.deep_view(),
        }
    }
}

impl Coordinates {
    /// The length and the first character of the name of each member, by
    /// which the names are told apart.
    pub proof fn lemma_names()
        ensures
            "coordinates"@.len() == 11 && "coordinates"@[0] == 'c',
            "type"@.len() == 4 && "type"@[0] == 't',
    {
        reveal_strlit("coordinates");
        reveal_strlit("type");
    }

    /// Each member of the wire form is found under its name.
    pub proof fn lemma_members(v: CoordinatesView)
        ensures
            member(Coordinates::encoding(v)->Object_0, "coordinates"@) == Some(
                <(JsonNumber, JsonNumber)>::encoding(v.coordinates),
            ),
            member(Coordinates::encoding(v)->Object_0, "type"@) == Some(String::encoding(v.kind)),
    {
        broadcast use lemma_member_push;

        Self::lemma_names();
    }

    /// A read goes by the names of the members alone: two objects that give
    /// the same to each name of the model decode alike, whatever else they
    /// hold and in whatever order.
    pub proof fn lemma_reads_by_name(a: Members, b: Members)
        requires
            member(a, "coordinates"@) == member(b, "coordinates"@),
            member(a, "type"@) == member(b, "type"@),
        ensures
            Coordinates::decoded(JsonView::Object(a)) == Coordinates::decoded(JsonView::Object(b)),
    {
        reveal(Coordinates::from_members);
    }

    /// What the members of an object decode to: each field from the member of
    /// its name, in the order of the fields, the first fault ending the read.
    /// Members of other names are passed over.
    #[verifier::opaque]
    pub open spec fn from_members(m: Members) -> Result<CoordinatesView, Fault> {
        let coordinates = required_field::<(JsonNumber, JsonNumber)>(m, "coordinates"@);
        let kind = required_field::<String>(m, "type"@);
        if coordinates is Err {
            Err(coordinates->Err_0)
        } else if kind is Err {
            Err(kind->Err_0)
        } else {
            Ok(CoordinatesView { coordinates: coordinates->Ok_0, kind: kind->Ok_0 })
        }
    }
}

impl Wire for Coordinates {
    open spec fn decoded(j: JsonView) -> Result<CoordinatesView, Fault> {
        match j {
            JsonView::Object(m) => Coordinates::from_members(m),
            _ => Err(Fault::at(Cause::TypeMismatch)),
        }
    }

    open spec fn encodable(v: CoordinatesView) -> bool {
        &&& <(JsonNumber, JsonNumber)>::encodable(v.coordinates)
        &&& String::encodable(v.kind)
    }

    open spec fn encoding(v: CoordinatesView) -> JsonView {
        JsonView::Object(
            Seq::empty()
                .push(("coordinates"@, <(JsonNumber, JsonNumber)>::encoding(v.coordinates)))
                .push(("type"@, String::encoding(v.kind))),
        )
    }

    open spec fn canonical(v: CoordinatesView) -> bool {
        &&& <(JsonNumber, JsonNumber)>::canonical(v.coordinates)
        &&& String::canonical(v.kind)
    }

    fn decode(j: &Json) -> (r: Result<Coordinates, MalformedPayload>) {
        reveal(Coordinates::from_members);
        match j {
            Json::Object(members) => {
                let coordinates = take_required::<(JsonNumber, JsonNumber)>(
                    members,
                    "coordinates",
                )?;
                let kind = take_required::<String>(members, "type")?;
                Ok(Coordinates { coordinates, kind })
            },
            _ => Err(MalformedPayload::at(Cause::TypeMismatch)),
        }
    }

    fn encode(&self) -> (r: Option<Json>) {
        let mut members: Vec<(String, Json)> = Vec::new();
        assert(members_view(members@) =~= Seq::empty());
        put_required(&mut members, "coordinates", &self.coordinates)?;
        put_required(&mut members, "type", &self.kind)?;
        Some(Json::Object(members))
    }

    proof fn round_trip(v: CoordinatesView) {
        reveal(Coordinates::from_members);
        Self::lemma_members(v);
        <(JsonNumber, JsonNumber)>::round_trip(v.coordinates);
    }

    proof fn decoded_canonical(j: JsonView) {
        reveal(Coordinates::from_members);
        if let JsonView::Object(m) = j {
            <(JsonNumber, JsonNumber)>::decoded_canonical(member(m, "coordinates"@).unwrap());
        }
    }

    proof fn writable_encoding(v: CoordinatesView) {
        broadcast use lemma_members_writable_push;

        <(JsonNumber, JsonNumber)>::writable_encoding(v.coordinates);
        if Coordinates::encodable(v) {
            assert(members_writable(Coordinates::encoding(v)->Object_0));
        }
    }
}

} // verus!
