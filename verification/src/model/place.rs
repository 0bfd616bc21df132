//! Named places.
use vstd::prelude::*;
use crate::error::{Cause, Fault, MalformedPayload};
use crate::json::{
    lemma_member_push, lemma_members_writable_push, member, members_view, members_writable,
    writable, Json, JsonNumber, JsonView, Members, NumberView,
};
use crate::wire::{put_required, required_field, take_required, Wire};

verus! {

/// A named region that a status is tied to.
#[derive(Debug, PartialEq, Eq)]
pub struct Place {
    /// The identifier of the place.
    pub id: String,
    /// Where more about the place can be fetched.
    pub url: String,
    /// What sort of place it is: a city, a country and so on.
    pub place_type: String,
    /// The short name of the place.
    pub name: String,
    /// The full name of the place.
    pub full_name: String,
    /// The code of the country in which the place lies.
    pub country_code: String,
    /// The name of that country.
    pub country: String,
    /// The polygon that encloses the place.
    pub bounding_box: BoundingBox,
}

/// The mathematical value of a [`Place`].
pub struct PlaceView {
    pub id: Seq<char>,
    pub url: Seq<char>,
    pub place_type: Seq<char>,
    pub name: Seq<char>,
    pub full_name: Seq<char>,
    pub country_code: Seq<char>,
    pub country: Seq<char>,
    pub bounding_box: BoundingBoxView,
}

impl DeepView for Place {
    type V = PlaceView;

    open spec fn deep_view(&self) -> PlaceView {
        PlaceView {
            id: self.id.deep_view(),
            url: self.url.deep_view(),
            place_type: self.place_type.deep_view(),
            name: self.name.deep_view(),
            full_name: self.full_name.deep_view(),
            country_code: self.country_code.deep_view(),
            country: self.country.deep_view(),
            bounding_box: self.bounding_box.deep_view(),
        }
    }
}

impl Place {
    /// The length and the first character of the name of each member, by
    /// which the names are told apart.
    pub proof fn lemma_names()
        ensures
            "id"@.len() == 2 && "id"@[0] == 'i',
            "url"@.len() == 3 && "url"@[0] == 'u',
            "place_type"@.len() == 10 && "place_type"@[0] == 'p',
            "name"@.len() == 4 && "name"@[0] == 'n',
            "full_name"@.len() == 9 && "full_name"@[0] == 'f',
            "country_code"@.len() == 12 && "country_code"@[0] == 'c',
            "country"@.len() == 7 && "country"@[0] == 'c',
            "bounding_box"@.len() == 12 && "bounding_box"@[0] == 'b',
    {
        reveal_strlit("id");
        reveal_strlit("url");
        reveal_strlit("place_type");
        reveal_strlit("name");
        reveal_strlit("full_name");
        reveal_strlit("country_code");
        reveal_strlit("country");
        reveal_strlit("bounding_box");
    }

    /// Each member of the wire form is found under its name.
    pub proof fn lemma_members(v: PlaceView)
        ensures
            member(Place::encoding(v)->Object_0, "id"@) == Some(String::encoding(v.id)),
            member(Place::encoding(v)->Object_0, "url"@) == Some(String::encoding(v.url)),
            member(Place::encoding(v)->Object_0, "place_type"@) == Some(
                String::encoding(v.place_type),
            ),
            member(Place::encoding(v)->Object_0, "name"@) == Some(String::encoding(v.name)),
            member(Place::encoding(v)->Object_0, "full_name"@) == Some(
                String::encoding(v.full_name),
            ),
            member(Place::encoding(v)->Object_0, "country_code"@) == Some(
                String::encoding(v.country_code),
            ),
            member(Place::encoding(v)->Object_0, "country"@) == Some(String::encoding(v.country)),
            member(Place::encoding(v)->Object_0, "bounding_box"@) == Some(
                BoundingBox::encoding(v.bounding_box),
            ),
    {
        broadcast use lemma_member_push;

        Self::lemma_names();
    }

    /// A read goes by the names of the members alone: two objects that give
    /// the same to each name of the model decode alike, whatever else they
    /// hold and in whatever order.
    pub proof fn lemma_reads_by_name(a: Members, b: Members)
        requires
            member(a, "id"@) == member(b, "id"@),
            member(a, "url"@) == member(b, "url"@),
            member(a, "place_type"@) == member(b, "place_type"@),
            member(a, "name"@) == member(b, "name"@),
            member(a, "full_name"@) == member(b, "full_name"@),
            member(a, "country_code"@) == member(b, "country_code"@),
            member(a, "country"@) == member(b, "country"@),
            member(a, "bounding_box"@) == member(b, "bounding_box"@),
        ensures
            Place::decoded(JsonView::Object(a)) == Place::decoded(JsonView::Object(b)),
    {
        reveal(Place::from_members);
    }

    /// What the members of an object decode to: each field from the member of
    /// its name, in the order of the fields, the first fault ending the read.
    /// Members of other names are passed over.
    #[verifier::opaque]
    pub open spec fn from_members(m: Members) -> Result<PlaceView, Fault> {
        let id = required_field::<String>(m, "id"@);
        let url = required_field::<String>(m, "url"@);
        let place_type = required_field::<String>(m, "place_type"@);
        let name = required_field::<String>(m, "name"@);
        let full_name = required_field::<String>(m, "full_name"@);
        let country_code = required_field::<String>(m, "country_code"@);
        let country = required_field::<String>(m, "country"@);
        let bounding_box = required_field::<BoundingBox>(m, "bounding_box"@);
        if id is Err {
            Err(id->Err_0)
        } else if url is Err {
            Err(url->Err_0)
        } else if place_type is Err {
            Err(place_type->Err_0)
        } else if name is Err {
            Err(name->Err_0)
        } else if full_name is Err {
            Err(full_name->Err_0)
        } else if country_code is Err {
            Err(country_code->Err_0)
        } else if country is Err {
            Err(country->Err_0)
        } else if bounding_box is Err {
            Err(bounding_box->Err_0)
        } else {
            Ok(
                PlaceView {
                    id: id->Ok_0,
                    url: url->Ok_0,
                    place_type: place_type->Ok_0,
                    name: name->Ok_0,
                    full_name: full_name->Ok_0,
                    country_code: country_code->Ok_0,
                    country: country->Ok_0,
                    bounding_box: bounding_box->Ok_0,
                },
            )
        }
    }
}

impl Wire for Place {
    open spec fn decoded(j: JsonView) -> Result<PlaceView, Fault> {
        match j {
            JsonView::Object(m) => Place::from_members(m),
            _ => Err(Fault::at(Cause::TypeMismatch)),
        }
    }

    open spec fn encodable(v: PlaceView) -> bool {
        &&& String::encodable(v.id)
        &&& String::encodable(v.url)
        &&& String::encodable(v.place_type)
        &&& String::encodable(v.name)
        &&& String::encodable(v.full_name)
        &&& String::encodable(v.country_code)
        &&& String::encodable(v.country)
        &&& BoundingBox::encodable(v.bounding_box)
    }

    open spec fn encoding(v: PlaceView) -> JsonView {
        JsonView::Object(
            Seq::empty()
                .push(("id"@, String::encoding(v.id)))
                .push(("url"@, String::encoding(v.url)))
                .push(("place_type"@, String::encoding(v.place_type)))
                .push(("name"@, String::encoding(v.name)))
                .push(("full_name"@, String::encoding(v.full_name)))
                .push(("country_code"@, String::encoding(v.country_code)))
                .push(("country"@, String::encoding(v.country)))
                .push(("bounding_box"@, BoundingBox::encoding(v.bounding_box))),
        )
    }

    open spec fn canonical(v: PlaceView) -> bool {
        &&& String::canonical(v.id)
        &&& String::canonical(v.url)
        &&& String::canonical(v.place_type)
        &&& String::canonical(v.name)
        &&& String::canonical(v.full_name)
        &&& String::canonical(v.country_code)
        &&& String::canonical(v.country)
        &&& BoundingBox::canonical(v.bounding_box)
    }

    fn decode(j: &Json) -> (r: Result<Place, MalformedPayload>) {
        reveal(Place::from_members);
        match j {
            Json::Object(members) => {
                let id = take_required::<String>(members, "id")?;
                let url = take_required::<String>(members, "url")?;
                let place_type = take_required::<String>(members, "place_type")?;
                let name = take_required::<String>(members, "name")?;
                let full_name = take_required::<String>(members, "full_name")?;
                let country_code = take_required::<String>(members, "country_code")?;
                let country = take_required::<String>(members, "country")?;
                let bounding_box = take_required::<BoundingBox>(members, "bounding_box")?;
                Ok(
                    Place {
                        id,
                        url,
                        place_type,
                        name,
                        full_name,
                        country_code,
                        country,
                        bounding_box,
                    },
                )
            },
            _ => Err(MalformedPayload::at(Cause::TypeMismatch)),
        }
    }

    fn encode(&self) -> (r: Option<Json>) {
        let mut members: Vec<(String, Json)> = Vec::new();
        assert(members_view(members@) =~= Seq::empty());
        put_required(&mut members, "id", &self.id)?;
        put_required(&mut members, "url", &self.url)?;
        put_required(&mut members, "place_type", &self.place_type)?;
        put_required(&mut members, "name", &self.name)?;
        put_required(&mut members, "full_name", &self.full_name)?;
        put_required(&mut members, "country_code", &self.country_code)?;
        put_required(&mut members, "country", &self.country)?;
        put_required(&mut members, "bounding_box", &self.bounding_box)?;
        Some(Json::Object(members))
    }

    proof fn round_trip(v: PlaceView) {
        reveal(Place::from_members);
        Self::lemma_members(v);
        BoundingBox::round_trip(v.bounding_box);
    }

    proof fn decoded_canonical(j: JsonView) {
        reveal(Place::from_members);
        if let JsonView::Object(m) = j {
            BoundingBox::decoded_canonical(member(m, "bounding_box"@).unwrap());
        }
    }

    proof fn writable_encoding(v: PlaceView) {
        broadcast use lemma_members_writable_push;

        BoundingBox::writable_encoding(v.bounding_box);
        if Place::encodable(v) {
            assert(members_writable(Place::encoding(v)->Object_0));
        }
    }
}

/// A polygon on the map: rings of points, each point a pair of coordinates.
#[derive(Debug, PartialEq, Eq)]
pub struct BoundingBox {
    /// The rings of the polygon, each the points on it in order.
    pub coordinates: Vec<Vec<(JsonNumber, JsonNumber)>>,
}

/// The mathematical value of a [`BoundingBox`].
pub struct BoundingBoxView {
    pub coordinates: Seq<Seq<(NumberView, NumberView)>>,
}

impl DeepView for BoundingBox {
    type V = BoundingBoxView;

    open spec fn deep_view(&self) -> BoundingBoxView {
        BoundingBoxView {
            coordinates: self.coordinates.deep_view(),
        }
    }
}

impl BoundingBox {
    /// The length and the first character of the name of each member, by
    /// which the names are told apart.
    pub proof fn lemma_names()
        ensures
            "coordinates"@.len() == 11 && "coordinates"@[0] == 'c',
    {
        reveal_strlit("coordinates");
    }

    /// Each member of the wire form is found under its name.
    pub proof fn lemma_members(v: BoundingBoxView)
        ensures
            member(BoundingBox::encoding(v)->Object_0, "coordinates"@) == Some(
                Vec::<Vec<(JsonNumber, JsonNumber)>>::encoding(v.coordinates),
            ),
    {
        broadcast use lemma_member_push;

        Self::lemma_names();
    }

    /// A read goes by the names of the members alone: two objects that give
    /// the same to each name of the model decode alike, whatever else they
    /// hold and in whatever order.
    pub proof fn lemma_reads_by_name(a: Members, b: Members)
        requires
            member(a, "coordinates"@) == member(b, "coordinates"@),
        ensures
            BoundingBox::decoded(JsonView::Object(a)) == BoundingBox::decoded(JsonView::Object(b)),
    {
        reveal(BoundingBox::from_members);
    }

    /// What the members of an object decode to: each field from the member of
    /// its name, in the order of the fields, the first fault ending the read.
    /// Members of other names are passed over.
    #[verifier::opaque]
    pub open spec fn from_members(m: Members) -> Result<BoundingBoxView, Fault> {
        let coordinates = required_field::<Vec<Vec<(JsonNumber, JsonNumber)>>>(m, "coordinates"@);
        if coordinates is Err {
            Err(coordinates->Err_0)
        } else {
            Ok(BoundingBoxView { coordinates: coordinates->Ok_0 })
        }
    }
}

impl Wire for BoundingBox {
    open spec fn decoded(j: JsonView) -> Result<BoundingBoxView, Fault> {
        match j {
            JsonView::Object(m) => BoundingBox::from_members(m),
            _ => Err(Fault::at(Cause::TypeMismatch)),
        }
    }

    open spec fn encodable(v: BoundingBoxView) -> bool {
        &&& Vec::<Vec<(JsonNumber, JsonNumber)>>::encodable(v.coordinates)
    }

    open spec fn encoding(v: BoundingBoxView) -> JsonView {
        JsonView::Object(
            Seq::empty()
                .push(
                    ("coordinates"@, Vec::<Vec<(JsonNumber, JsonNumber)>>::encoding(v.coordinates)),
                ),
        )
    }

    open spec fn canonical(v: BoundingBoxView) -> bool {
        &&& Vec::<Vec<(JsonNumber, JsonNumber)>>::canonical(v.coordinates)
    }

    fn decode(j: &Json) -> (r: Result<BoundingBox, MalformedPayload>) {
        reveal(BoundingBox::from_members);
        match j {
            Json::Object(members) => {
                let coordinates = take_required::<Vec<Vec<(JsonNumber, JsonNumber)>>>(
                    members,
                    "coordinates",
                )?;
                Ok(BoundingBox { coordinates })
            },
            _ => Err(MalformedPayload::at(Cause::TypeMismatch)),
        }
    }

    fn encode(&self) -> (r: Option<Json>) {
        let mut members: Vec<(String, Json)> = Vec::new();
        assert(members_view(members@) =~= Seq::empty());
        put_required(&mut members, "coordinates", &self.coordinates)?;
        Some(Json::Object(members))
    }

    proof fn round_trip(v: BoundingBoxView) {
        reveal(BoundingBox::from_members);
        Self::lemma_members(v);
        Vec::<Vec<(JsonNumber, JsonNumber)>>::round_trip(v.coordinates);
    }

    proof fn decoded_canonical(j: JsonView) {
        reveal(BoundingBox::from_members);
        if let JsonView::Object(m) = j {
            Vec::<Vec<(JsonNumber, JsonNumber)>>::decoded_canonical(
                member(m, "coordinates"@).unwrap(),
            );
        }
    }

    proof fn writable_encoding(v: BoundingBoxView) {
        broadcast use lemma_members_writable_push;

        Vec::<Vec<(JsonNumber, JsonNumber)>>::writable_encoding(v.coordinates);
        if BoundingBox::encodable(v) {
            assert(members_writable(BoundingBox::encoding(v)->Object_0));
        }
    }
}

} // verus!
