//! Mentions.
use vstd::prelude::*;
use crate::error::{Cause, Fault, MalformedPayload};
use crate::json::{
    lemma_member_push, lemma_members_writable_push, member, members_view, members_writable,
    writable, Json, JsonView, Members,
};
use crate::wire::{
    optional_canonical, optional_encodable, optional_encoding, optional_field, put_optional,
    put_required, required_field, take_optional, take_required, Wire,
};

verus! {

/// An `@mention` in the body of a status. Only the handle is always there: ///
/// an account may be partly redacted.
#[derive(Debug, PartialEq, Eq)]
pub struct UserMention {
    /// The identifier of the account.
    pub id: Option<u64>,
    /// The identifier of the account, as text.
    pub id_str: Option<String>,
    /// Where in the text the mention begins and ends.
    pub indices: Vec<u32>,
    /// The display name of the account.
    pub name: Option<String>,
    /// The handle of the account.
    pub screen_name: String,
}

/// The mathematical value of a [`UserMention`].
pub struct UserMentionView {
    pub id: Option<u64>,
    pub id_str: Option<Seq<char>>,
    pub indices: Seq<u32>,
    pub name: Option<Seq<char>>,
    pub screen_name: Seq<char>,
}

impl DeepView for UserMention {
    type V = UserMentionView;

    open spec fn deep_view(&self) -> UserMentionView {
        UserMentionView {
            id: self.id.deep_view(),
            id_str: self.id_str.deep_view(),
            indices: self.indices.deep_view(),
            name: self.name.deep_view(),
            screen_name: self.screen_name.deep_view(),
        }
    }
}

impl UserMention {
    /// The length and the first character of the name of each member, by
    /// which the names are told apart.
    pub proof fn lemma_names()
        ensures
            "id"@.len() == 2 && "id"@[0] == 'i',
            "id_str"@.len() == 6 && "id_str"@[0] == 'i',
            "indices"@.len() == 7 && "indices"@[0] == 'i',
            "name"@.len() == 4 && "name"@[0] == 'n',
            "screen_name"@.len() == 11 && "screen_name"@[0] == 's',
    {
        reveal_strlit("id");
        reveal_strlit("id_str");
        reveal_strlit("indices");
        reveal_strlit("name");
        reveal_strlit("screen_name");
    }

    /// Each member of the wire form is found under its name.
    pub proof fn lemma_members(v: UserMentionView)
        ensures
            member(UserMention::encoding(v)->Object_0, "id"@) == Some(
                optional_encoding::<u64>(v.id),
            ),
            member(UserMention::encoding(v)->Object_0, "id_str"@) == Some(
                optional_encoding::<String>(v.id_str),
            ),
            member(UserMention::encoding(v)->Object_0, "indices"@) == Some(
                Vec::<u32>::encoding(v.indices),
            ),
            member(UserMention::encoding(v)->Object_0, "name"@) == Some(
                optional_encoding::<String>(v.name),
            ),
            member(UserMention::encoding(v)->Object_0, "screen_name"@) == Some(
                String::encoding(v.screen_name),
            ),
    {
        broadcast use lemma_member_push;

        Self::lemma_names();
    }

    /// A read goes by the names of the members alone: two objects that give
    /// the same to each name of the model decode alike, whatever else they
    /// hold and in whatever order.
    pub proof fn lemma_reads_by_name(a: Members, b: Members)
        requires
            member(a, "id"@) == member(b, "id"@),
            member(a, "id_str"@) == member(b, "id_str"@),
            member(a, "indices"@) == member(b, "indices"@),
            member(a, "name"@) == member(b, "name"@),
            member(a, "screen_name"@) == member(b, "screen_name"@),
        ensures
            UserMention::decoded(JsonView::Object(a)) == UserMention::decoded(JsonView::Object(b)),
    {
        reveal(UserMention::from_members);
    }

    /// What the members of an object decode to: each field from the member of
    /// its name, in the order of the fields, the first fault ending the read.
    /// Members of other names are passed over.
    #[verifier::opaque]
    pub open spec fn from_members(m: Members) -> Result<UserMentionView, Fault> {
        let id = optional_field::<u64>(m, "id"@);
        let id_str = optional_field::<String>(m, "id_str"@);
        let indices = required_field::<Vec<u32>>(m, "indices"@);
        let name = optional_field::<String>(m, "name"@);
        let screen_name = required_field::<String>(m, "screen_name"@);
        if id is Err {
            Err(id->Err_0)
        } else if id_str is Err {
            Err(id_str->Err_0)
        } else if indices is Err {
            Err(indices->Err_0)
        } else if name is Err {
            Err(name->Err_0)
        } else if screen_name is Err {
            Err(screen_name->Err_0)
        } else {
            Ok(
                UserMentionView {
                    id: id->Ok_0,
                    id_str: id_str->Ok_0,
                    indices: indices->Ok_0,
                    name: name->Ok_0,
                    screen_name: screen_name->Ok_0,
                },
            )
        }
    }
}

impl Wire for UserMention {
    open spec fn decoded(j: JsonView) -> Result<UserMentionView, Fault> {
        match j {
            JsonView::Object(m) => UserMention::from_members(m),
            _ => Err(Fault::at(Cause::TypeMismatch)),
        }
    }

    open spec fn encodable(v: UserMentionView) -> bool {
        &&& optional_encodable::<u64>(v.id)
        &&& optional_encodable::<String>(v.id_str)
        &&& Vec::<u32>::encodable(v.indices)
        &&& optional_encodable::<String>(v.name)
        &&& String::encodable(v.screen_name)
    }

    open spec fn encoding(v: UserMentionView) -> JsonView {
        JsonView::Object(
            Seq::empty()
                .push(("id"@, optional_encoding::<u64>(v.id)))
                .push(("id_str"@, optional_encoding::<String>(v.id_str)))
                .push(("indices"@, Vec::<u32>::encoding(v.indices)))
                .push(("name"@, optional_encoding::<String>(v.name)))
                .push(("screen_name"@, String::encoding(v.screen_name))),
        )
    }

    open spec fn canonical(v: UserMentionView) -> bool {
        &&& optional_canonical::<u64>(v.id)
        &&& optional_canonical::<String>(v.id_str)
        &&& Vec::<u32>::canonical(v.indices)
        &&& optional_canonical::<String>(v.name)
        &&& String::canonical(v.screen_name)
    }

    fn decode(j: &Json) -> (r: Result<UserMention, MalformedPayload>) {
        reveal(UserMention::from_members);
        match j {
            Json::Object(members) => {
                let id = take_optional::<u64>(members, "id")?;
                let id_str = take_optional::<String>(members, "id_str")?;
                let indices = take_required::<Vec<u32>>(members, "indices")?;
                let name = take_optional::<String>(members, "name")?;
                let screen_name = take_required::<String>(members, "screen_name")?;
                Ok(UserMention { id, id_str, indices, name, screen_name })
            },
            _ => Err(MalformedPayload::at(Cause::TypeMismatch)),
        }
    }

    fn encode(&self) -> (r: Option<Json>) {
        let mut members: Vec<(String, Json)> = Vec::new();
        assert(members_view(members@) =~= Seq::empty());
        put_optional(&mut members, "id", &self.id)?;
        put_optional(&mut members, "id_str", &self.id_str)?;
        put_required(&mut members, "indices", &self.indices)?;
        put_optional(&mut members, "name", &self.name)?;
        put_required(&mut members, "screen_name", &self.screen_name)?;
        Some(Json::Object(members))
    }

    proof fn round_trip(v: UserMentionView) {
        reveal(UserMention::from_members);
        Self::lemma_members(v);
        Vec::<u32>::round_trip(v.indices);
    }

    proof fn decoded_canonical(j: JsonView) {
        reveal(UserMention::from_members);
        if let JsonView::Object(m) = j {
            Vec::<u32>::decoded_canonical(member(m, "indices"@).unwrap());
        }
    }

    proof fn writable_encoding(v: UserMentionView) {
        broadcast use lemma_members_writable_push;

        Vec::<u32>::writable_encoding(v.indices);
        if UserMention::encodable(v) {
            assert(members_writable(UserMention::encoding(v)->Object_0));
        }
    }
}

} // verus!
