//! JSON values: the tree that the codecs read and write.
use vstd::prelude::*;

verus! {

/// A JSON number: an integer, or a number with a fraction or an exponent,
/// which is held as its decimal text.
#[derive(Debug, PartialEq, Eq)]
pub enum JsonNumber {
    Int(i128),
    Real(String),
}

/// The mathematical value of a [`JsonNumber`].
pub enum NumberView {
    Int(int),
    Real(Seq<char>),
}

impl DeepView for JsonNumber {
    type V = NumberView;

    open spec fn deep_view(&self) -> NumberView {
        match self {
            JsonNumber::Int(i) => NumberView::Int(*i as int),
            JsonNumber::Real(text) => NumberView::Real(text@),
        }
    }
}

impl JsonNumber {
    /// The same number again.
    pub fn copy(&self) -> (n: JsonNumber)
        ensures
            n.deep_view() == self.deep_view(),
    {
        match self {
            JsonNumber::Int(i) => JsonNumber::Int(*i),
            JsonNumber::Real(text) => JsonNumber::Real(text.clone()),
        }
    }
}

/// A JSON value. An object keeps its members in the order in which they stand.
#[derive(Debug, PartialEq, Eq)]
pub enum Json {
    Null,
    Bool(bool),
    Number(JsonNumber),
    String(String),
    Array(Vec<Json>),
    Object(Vec<(String, Json)>),
}

/// The mathematical value that a [`Json`] stands for.
pub enum JsonView {
    Null,
    Bool(bool),
    Number(NumberView),
    String(Seq<char>),
    Array(Seq<JsonView>),
    Object(Members),
}

/// The members of an object: each a name and a value, in order.
pub type Members = Seq<(Seq<char>, JsonView)>;

impl DeepView for Json {
    type V = JsonView;

    open spec fn deep_view(&self) -> JsonView
        decreases self,
    {
        match self {
            Json::Null => JsonView::Null,
            Json::Bool(b) => JsonView::Bool(*b),
            Json::Number(n) => JsonView::Number(n.deep_view()),
            Json::String(s) => JsonView::String(s@),
            Json::Array(items) => JsonView::Array(items_view(items@)),
            Json::Object(members) => JsonView::Object(members_view(members@)),
        }
    }
}

/// The values of the items of an array, in order.
pub open spec fn items_view(items: Seq<Json>) -> Seq<JsonView>
    decreases items,
{
    Seq::new(
        items.len(),
        |i: int|
            if 0 <= i < items.len() {
                items[i].deep_view()
            } else {
                JsonView::Null
            },
    )
}

/// The names and values of the members of an object, in order.
pub open spec fn members_view(members: Seq<(String, Json)>) -> Members
    decreases members,
{
    Seq::new(
        members.len(),
        |i: int|
            if 0 <= i < members.len() {
                (members[i].0@, members[i].1.deep_view())
            } else {
                (Seq::empty(), JsonView::Null)
            },
    )
}

/// The value that `members` give to `key`: that of the last member so named.
pub open spec fn member(members: Members, key: Seq<char>) -> Option<JsonView>
    decreases members.len(),
{
    if members.len() == 0 {
        None
    } else if members.last().0 == key {
        Some(members.last().1)
    } else {
        member(members.drop_last(), key)
    }
}

/// What a lookup finds is smaller than the members that it was found in.
pub proof fn lemma_member_smaller(members: Members, key: Seq<char>)
    ensures
        member(members, key) matches Some(found) ==> decreases_to!(members => found),
    decreases members.len(),
{
    if members.len() > 0 && members.last().0 != key {
        lemma_member_smaller(members.drop_last(), key);
    }
}

/// Whether two names differ in length or in their first character: what
/// tells the names of the model's members apart with few exceptions.
pub open spec fn plainly_differ(a: Seq<char>, b: Seq<char>) -> bool {
    a.len() != b.len() || a[0] != b[0]
}

/// A lookup passes over a last member of another name, and stops at one of
/// the name that it looks for.
pub broadcast proof fn lemma_member_push(
    members: Members,
    name: Seq<char>,
    value: JsonView,
    key: Seq<char>,
)
    ensures
        #[trigger] member(members.push((name, value)), key) == if plainly_differ(name, key) {
            member(members, key)
        } else if name == key {
            Some(value)
        } else {
            member(members, key)
        },
{
    assert(members.push((name, value)).drop_last() =~= members);
}

/// Whether two strings hold the same characters (`str`'s `==`).
#[verifier::external_body]
pub(crate) fn same_text(a: &str, b: &str) -> (same: bool)
    ensures
        same == (a@ == b@),
{
    a == b
}

/// Looks `key` up among the members of an object. What is found is a part of
/// the members, so that a decoder may go on into it.
pub fn get<'a>(members: &'a Vec<(String, Json)>, key: &str) -> (found: Option<&'a Json>)
    ensures
        found.deep_view() == member(members_view(members@), key@),
        found matches Some(j) ==> decreases_to!(members => j),
{
    let ghost all = members_view(members@);
    let mut i: usize = members.len();
    assert(all.subrange(0, i as int) =~= all);
    while i > 0
        invariant
            i <= members.len(),
            all == members_view(members@),
            member(all, key@) == member(all.subrange(0, i as int), key@),
        decreases i,
    {
        i = i - 1;
        proof {
            let upto = all.subrange(0, i + 1);
            assert(upto.drop_last() =~= all.subrange(0, i as int));
            assert(upto.last() == all[i as int]);
        }
        if same_text(members[i].0.as_str(), key) {
            return Some(&members[i].1);
        }
    }
    None
}

/// What `serde_json::from_str` makes of a text: the value that it parses
/// to, or nothing where it refuses the text.
pub uninterp spec fn parsed_json(text: Seq<char>) -> Option<JsonView>;

/// What `serde_json::to_string` writes for a value that can be written.
pub uninterp spec fn rendered_json(json: JsonView) -> Seq<char>;

/// Whether `str::parse` reads a text as a `serde_json::Number`.
pub uninterp spec fn number_text(text: Seq<char>) -> bool;

#[verifier::external_type_specification]
#[verifier::external_body]
pub struct ExJsonError(serde_json::Error);

#[verifier::external_type_specification]
#[verifier::external_body]
pub struct ExJsonValue(serde_json::Value);

#[verifier::external_type_specification]
#[verifier::external_body]
pub struct ExJsonNumber(serde_json::Number);

/// `str::parse` at `serde_json::Number`: whether it takes the text. The
/// contract gives the outcome its name: the same text is always read alike.
#[verifier::external_body]
fn reads_as_number(text: &str) -> (read: bool)
    ensures
        read == number_text(text@),
{
    text.parse::<serde_json::Number>().is_ok()
}

/// `serde_json::Number::as_i128` and, for a number that is no integer,
/// `to_string`: the number as the library holds it. Nothing is claimed of it.
#[verifier::external_body]
fn number_of_value(number: &serde_json::Number) -> JsonNumber {
    match number.as_i128() {
        Some(i) => JsonNumber::Int(i),
        None => JsonNumber::Real(number.to_string()),
    }
}

/// A `serde_json::Value` as the library's own tree, variant by variant, the
/// members of an object in the order in which `serde_json::Map` hands them
/// out. Nothing is claimed of it.
#[verifier::external_body]
fn json_of_value(value: serde_json::Value) -> Json {
    match value {
        serde_json::Value::Null => Json::Null,
        serde_json::Value::Bool(b) => Json::Bool(b),
        serde_json::Value::Number(n) => Json::Number(number_of_value(&n)),
        serde_json::Value::String(s) => Json::String(s),
        serde_json::Value::Array(a) => Json::Array(a.into_iter().map(json_of_value).collect()),
        serde_json::Value::Object(m) => Json::Object(
            m.into_iter().map(|(k, v)| (k, json_of_value(v))).collect(),
        ),
    }
}

/// The library's number as a `serde_json::Value`: `Number::from_i128` for an
/// integer, `str::parse` for a decimal text; nothing where `serde_json` gives
/// none. Nothing is claimed of it.
#[verifier::external_body]
fn value_of_number(number: &JsonNumber) -> Option<serde_json::Value> {
    match number {
        JsonNumber::Int(i) => serde_json::Number::from_i128(*i).map(serde_json::Value::Number),
        JsonNumber::Real(text) => text.parse().ok().map(serde_json::Value::Number),
    }
}

/// The library's tree as a `serde_json::Value`, variant by variant; nothing
/// where a number in it has none. Nothing is claimed of it.
#[verifier::external_body]
fn value_of_json(json: &Json) -> Option<serde_json::Value> {
    Some(match json {
        Json::Null => serde_json::Value::Null,
        Json::Bool(b) => serde_json::Value::Bool(*b),
        Json::Number(n) => value_of_number(n)?,
        Json::String(s) => serde_json::Value::String(s.clone()),
        Json::Array(a) => serde_json::Value::Array(
            a.iter().map(value_of_json).collect::<Option<_>>()?,
        ),
        Json::Object(m) => serde_json::Value::Object(
            m.iter().map(|(k, v)| Some((k.clone(), value_of_json(v)?))).collect::<Option<_>>()?,
        ),
    })
}

/// `serde_json::from_str` at `serde_json::Value`. The contract gives the
/// outcome its name: the same text always parses alike.
#[verifier::external_body]
fn parse_text(text: &str) -> (r: Result<Json, serde_json::Error>)
    ensures
        match r {
            Ok(json) => parsed_json(text@) == Some(json.deep_view()),
            Err(_) => parsed_json(text@) is None,
        },
{
    serde_json::from_str::<serde_json::Value>(text).map(json_of_value)
}

/// `serde_json::to_string` of the tree as a `serde_json::Value`. A tree that
/// is writable has a `Value`: `Number::from_i128` takes every integer from
/// the least `i64` to the greatest `u64`, and `str::parse` every text that
/// `number_text` holds of. Writing a `Value` into memory does not fail: its
/// keys are strings and its `Serialize` returns no error of its own. The
/// contract gives the text its name: the same tree is always written alike.
#[verifier::external_body]
pub(crate) fn render_text(json: &Json) -> (r: Option<String>)
    requires
        writable(json.deep_view()),
    ensures
        r is Some,
        r matches Some(text) ==> text@ == rendered_json(json.deep_view()),
{
    serde_json::to_string(&value_of_json(json)?).ok()
}

/// Whether a number is one that `serde_json` holds: an integer from the least
/// `i64` to the greatest `u64`, or a text that it reads as a number.
pub open spec fn number_writable(n: NumberView) -> bool {
    match n {
        NumberView::Int(i) => i64::MIN <= i <= u64::MAX,
        NumberView::Real(text) => number_text(text),
    }
}

/// Whether a tree can be written as text: whether every number in it is one
/// that `serde_json` holds.
pub open spec fn writable(j: JsonView) -> bool
    decreases j,
{
    match j {
        JsonView::Number(n) => number_writable(n),
        JsonView::Array(items) => items_writable(items),
        JsonView::Object(members) => members_writable(members),
        _ => true,
    }
}

/// Whether every item can be written.
pub open spec fn items_writable(items: Seq<JsonView>) -> bool
    decreases items,
{
    items.len() > 0 ==> items_writable(items.drop_last()) && writable(items.last())
}

/// Whether the value of every member can be written.
pub open spec fn members_writable(members: Members) -> bool
    decreases members,
{
    members.len() > 0 ==> members_writable(members.drop_last()) && writable(members.last().1)
}

/// Items can be written exactly when each of them can.
pub proof fn lemma_items_writable(items: Seq<JsonView>)
    ensures
        items_writable(items) <==> forall|i: int|
            0 <= i < items.len() ==> writable(#[trigger] items[i]),
    decreases items.len(),
{
    if items.len() > 0 {
        let front = items.drop_last();
        lemma_items_writable(front);
        assert forall|i: int| 0 <= i < front.len() implies front[i] == items[i] by {}
        if items_writable(items) {
            assert forall|i: int| 0 <= i < items.len() implies writable(#[trigger] items[i]) by {
                if i < front.len() {
                    assert(writable(front[i]));
                }
            }
        }
        if forall|i: int| 0 <= i < items.len() ==> writable(#[trigger] items[i]) {
            assert forall|i: int| 0 <= i < front.len() implies writable(#[trigger] front[i]) by {
                assert(writable(items[i]));
            }
        }
    }
}

/// Members can be written exactly when the value of each of them can.
pub proof fn lemma_members_writable(members: Members)
    ensures
        members_writable(members) <==> forall|i: int|
            0 <= i < members.len() ==> writable((#[trigger] members[i]).1),
    decreases members.len(),
{
    if members.len() > 0 {
        let front = members.drop_last();
        lemma_members_writable(front);
        assert forall|i: int| 0 <= i < front.len() implies front[i] == members[i] by {}
        if members_writable(members) {
            assert forall|i: int| 0 <= i < members.len() implies writable(
                (#[trigger] members[i]).1,
            ) by {
                if i < front.len() {
                    assert(writable(front[i].1));
                }
            }
        }
        if forall|i: int| 0 <= i < members.len() ==> writable((#[trigger] members[i]).1) {
            assert forall|i: int| 0 <= i < front.len() implies writable(
                (#[trigger] front[i]).1,
            ) by {
                assert(writable(members[i].1));
            }
        }
    }
}

/// Members with one more can be written exactly when they can and the value
/// of the one more can.
pub broadcast proof fn lemma_members_writable_push(
    members: Members,
    name: Seq<char>,
    value: JsonView,
)
    ensures
        #[trigger] members_writable(members.push((name, value))) == (members_writable(members)
            && writable(value)),
{
    assert(members.push((name, value)).drop_last() =~= members);
}

impl JsonNumber {
    /// Whether the number is one that `serde_json` holds.
    pub fn is_writable(&self) -> (r: bool)
        ensures
            r == number_writable(self.deep_view()),
    {
        match self {
            JsonNumber::Int(i) => i64::MIN as i128 <= *i && *i <= u64::MAX as i128,
            JsonNumber::Real(text) => reads_as_number(text.as_str()),
        }
    }
}

impl Json {
    /// Parses a text as one JSON value.
    pub fn parse(text: &str) -> (r: Option<Json>)
        ensures
            match r {
                Some(json) => parsed_json(text@) == Some(json.deep_view()),
                None => parsed_json(text@) is None,
            },
    {
        match parse_text(text) {
            Ok(json) => Some(json),
            Err(_) => None,
        }
    }

    /// Whether the tree can be written as text.
    pub fn is_writable(&self) -> (r: bool)
        ensures
            r == writable(self.deep_view()),
        decreases self,
    {
        match self {
            Json::Number(n) => n.is_writable(),
            Json::Array(items) => {
                let ghost all = items_view(items@);
                proof {
                    lemma_items_writable(all);
                }
                let mut i: usize = 0;
                while i < items.len()
                    invariant
                        i <= items.len(),
                        all == items_view(items@),
                        self.deep_view() == JsonView::Array(all),
                        decreases_to!(self => items),
                        items_writable(all) <==> forall|k: int|
                            0 <= k < all.len() ==> writable(#[trigger] all[k]),
                        forall|k: int| 0 <= k < i ==> writable(#[trigger] all[k]),
                    decreases items.len() - i,
                {
                    if !items[i].is_writable() {
                        assert(!writable(all[i as int]));
                        return false;
                    }
                    i = i + 1;
                }
                true
            },
            Json::Object(members) => {
                let ghost all = members_view(members@);
                proof {
                    lemma_members_writable(all);
                }
                let mut i: usize = 0;
                while i < members.len()
                    invariant
                        i <= members.len(),
                        all == members_view(members@),
                        self.deep_view() == JsonView::Object(all),
                        decreases_to!(self => members),
                        members_writable(all) <==> forall|k: int|
                            0 <= k < all.len() ==> writable((#[trigger] all[k]).1),
                        forall|k: int| 0 <= k < i ==> writable((#[trigger] all[k]).1),
                    decreases members.len() - i,
                {
                    if !members[i].1.is_writable() {
                        assert(!writable(all[i as int].1));
                        return false;
                    }
                    i = i + 1;
                }
                true
            },
            _ => true,
        }
    }

    /// Writes the tree as JSON text, if it can be written.
    pub fn render(&self) -> (r: Option<String>)
        ensures
            r is Some <==> writable(self.deep_view()),
            r matches Some(text) ==> text@ == rendered_json(self.deep_view()),
    {
        if self.is_writable() {
            render_text(self)
        } else {
            None
        }
    }
}

} // verus!
