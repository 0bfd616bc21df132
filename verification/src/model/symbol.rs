//! Cashtags.
use vstd::prelude::*;
use crate::error::{Cause, Fault, MalformedPayload};
use crate::json::{
    lemma_member_push, lemma_members_writable_push, member, members_view, members_writable,
    writable, Json, JsonView, Members,
};
use crate::wire::{put_required, required_field, take_required, Wire};

verus! {

/// A `$cashtag` in the body of a status.
#[derive(Debug, PartialEq, Eq)]
pub struct Symbol {
    /// Where in the text the symbol begins and ends.
    pub indices: Vec<u32>,
    /// The symbol without its `$`.
    pub text: String,
}

/// The mathematical value of a [`Symbol`].
pub struct SymbolView {
    pub indices: Seq<u32>,
    pub text: Seq<char>,
}

impl DeepView for Symbol {
    type V = SymbolView;

    open spec fn deep_view(&self) -> SymbolView {
        SymbolView {
            indices: self.indices.deep_view(),
            text: self.text.deep_view(),
        }
    }
}

impl Symbol {
    /// The length and the first character of the name of each member, by
    /// which the names are told apart.
    pub proof fn lemma_names()
        ensures
            "indices"@.len() == 7 && "indices"@[0] == 'i',
            "text"@.len() == 4 && "text"@[0] == 't',
    {
        reveal_strlit("indices");
        reveal_strlit("text");
    }

    /// Each member of the wire form is found under its name.
    pub proof fn lemma_members(v: SymbolView)
        ensures
            member(Symbol::encoding(v)->Object_0, "indices"@) == Some(
                Vec::<u32>::encoding(v.indices),
            ),
            member(Symbol::encoding(v)->Object_0, "text"@) == Some(String::encoding(v.text)),
    {
        broadcast use lemma_member_push;

        Self::lemma_names();
    }

    /// A read goes by the names of the members alone: two objects that give
    /// the same to each name of the model decode alike, whatever else they
    /// hold and in whatever order.
    pub proof fn lemma_reads_by_name(a: Members, b: Members)
        requires
            member(a, "indices"@) == member(b, "indices"@),
            member(a, "text"@) == member(b, "text"@),
        ensures
            Symbol::decoded(JsonView::Object(a)) == Symbol::decoded(JsonView::Object(b)),
    {
        reveal(Symbol::from_members);
    }

    /// What the members of an object decode to: each field from the member of
    /// its name, in the order of the fields, the first fault ending the read.
    /// Members of other names are passed over.
    #[verifier::opaque]
    pub open spec fn from_members(m: Members) -> Result<SymbolView, Fault> {
        let indices = required_field::<Vec<u32>>(m, "indices"@);
        let text = required_field::<String>(m, "text"@);
        if indices is Err {
            Err(indices->Err_0)
        } else if text is Err {
            Err(text->Err_0)
        } else {
            Ok(SymbolView { indices: indices->Ok_0, text: text->Ok_0 })
        }
    }
}

impl Wire for Symbol {
    open spec fn decoded(j: JsonView) -> Result<SymbolView, Fault> {
        match j {
            JsonView::Object(m) => Symbol::from_members(m),
            _ => Err(Fault::at(Cause::TypeMismatch)),
        }
    }

    open spec fn encodable(v: SymbolView) -> bool {
        &&& Vec::<u32>::encodable(v.indices)
        &&& String::encodable(v.text)
    }

    open spec fn encoding(v: SymbolView) -> JsonView {
        JsonView::Object(
            Seq::empty()
                .push(("indices"@, Vec::<u32>::encoding(v.indices)))
                .push(("text"@, String::encoding(v.text))),
        )
    }

    open spec fn canonical(v: SymbolView) -> bool {
        &&& Vec::<u32>::canonical(v.indices)
        &&& String::canonical(v.text)
    }

    fn decode(j: &Json) -> (r: Result<Symbol, MalformedPayload>) {
        reveal(Symbol::from_members);
        match j {
            Json::Object(members) => {
                let indices = take_required::<Vec<u32>>(members, "indices")?;
                let text = take_required::<String>(members, "text")?;
                Ok(Symbol { indices, text })
            },
            _ => Err(MalformedPayload::at(Cause::TypeMismatch)),
        }
    }

    fn encode(&self) -> (r: Option<Json>) {
        let mut members: Vec<(String, Json)> = Vec::new();
        assert(members_view(members@) =~= Seq::empty());
        put_required(&mut members, "indices", &self.indices)?;
        put_required(&mut members, "text", &self.text)?;
        Some(Json::Object(members))
    }

    proof fn round_trip(v: SymbolView) {
        reveal(Symbol::from_members);
        Self::lemma_members(v);
        Vec::<u32>::round_trip(v.indices);
    }

    proof fn decoded_canonical(j: JsonView) {
        reveal(Symbol::from_members);
        if let JsonView::Object(m) = j {
            Vec::<u32>::decoded_canonical(member(m, "indices"@).unwrap());
        }
    }

    proof fn writable_encoding(v: SymbolView) {
        broadcast use lemma_members_writable_push;

        Vec::<u32>::writable_encoding(v.indices);
        if Symbol::encodable(v) {
            assert(members_writable(Symbol::encoding(v)->Object_0));
        }
    }
}

} // verus!
