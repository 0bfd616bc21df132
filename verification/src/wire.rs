//! The codec that every type of the model has: how a value is read from a
//! JSON tree and written to one.
use vstd::prelude::*;
use crate::error::{Cause, Fault, MalformedPayload, Step, StepView};
use crate::json::{
    get, items_view, lemma_items_writable, member, members_view, number_writable, parsed_json,
    render_text, rendered_json, writable, Json, JsonNumber, JsonView, Members, NumberView,
};

verus! {

/// The mathematical value of a decoder's result.
pub open spec fn view_result<T: DeepView>(r: Result<T, MalformedPayload>) -> Result<T::V, Fault> {
    match r {
        Ok(value) => Ok(value.deep_view()),
        Err(e) => Err(e.deep_view()),
    }
}

/// A type with a wire form.
pub trait Wire: DeepView + Sized {
    /// What decoding `j` gives: the value, or where and why `j` is refused.
    spec fn decoded(j: JsonView) -> Result<Self::V, Fault>;

    /// Whether `v` has a wire form at all.
    spec fn encodable(v: Self::V) -> bool;

    /// The wire form of `v`, where it has one.
    spec fn encoding(v: Self::V) -> JsonView;

    /// Whether the wire form of `v` stands for `v` and for nothing else.
    spec fn canonical(v: Self::V) -> bool;

    /// Reads a value from a JSON tree.
    fn decode(j: &Json) -> (r: Result<Self, MalformedPayload>)
        ensures
            view_result(r) == Self::decoded(j.deep_view()),
    ;

    /// Writes the value as a JSON tree, if it has a wire form.
    fn encode(&self) -> (r: Option<Json>)
        ensures
            r is Some <==> Self::encodable(self.deep_view()),
            r matches Some(j) ==> j.deep_view() == Self::encoding(self.deep_view()),
    ;

    /// Decoding the wire form of a canonical value gives the value back, and
    /// no wire form is `null`.
    proof fn round_trip(v: Self::V)
        ensures
            Self::encodable(v) && Self::canonical(v) ==> Self::decoded(Self::encoding(v)) == Ok::<
                Self::V,
                Fault,
            >(v),
            Self::encoding(v) != JsonView::Null,
    ;

    /// What a decode gives has a wire form and is canonical.
    proof fn decoded_canonical(j: JsonView)
        ensures
            Self::decoded(j) matches Ok(v) ==> Self::encodable(v) && Self::canonical(v),
    ;

    /// The wire form of a value that has one can be written as text.
    proof fn writable_encoding(v: Self::V)
        ensures
            Self::encodable(v) ==> writable(Self::encoding(v)),
    ;
}

/// Whatever was decoded can be encoded, and decodes from its wire form as the
/// same value again.
pub proof fn lemma_decoded_survives<T: Wire>(j: JsonView)
    ensures
        T::decoded(j) matches Ok(v) ==> T::encodable(v) && T::decoded(T::encoding(v)) == Ok::<
            T::V,
            Fault,
        >(v),
{
    T::decoded_canonical(j);
    if let Ok(v) = T::decoded(j) {
        T::round_trip(v);
    }
}

/// The integer that `j` holds, if it is one and lies between `lo` and `hi`.
pub open spec fn integer_within(j: JsonView, lo: int, hi: int) -> Option<int> {
    match j {
        JsonView::Number(NumberView::Int(i)) => if lo <= i <= hi {
            Some(i)
        } else {
            None
        },
        _ => None,
    }
}

impl Wire for u64 {
    open spec fn decoded(j: JsonView) -> Result<u64, Fault> {
        match integer_within(j, 0, u64::MAX as int) {
            Some(i) => Ok(i as u64),
            None => Err(Fault::at(Cause::TypeMismatch)),
        }
    }

    open spec fn encodable(v: u64) -> bool {
        true
    }

    open spec fn encoding(v: u64) -> JsonView {
        JsonView::Number(NumberView::Int(v as int))
    }

    open spec fn canonical(v: u64) -> bool {
        true
    }

    fn decode(j: &Json) -> (r: Result<u64, MalformedPayload>) {
        match j {
            Json::Number(JsonNumber::Int(i)) => {
                if 0 <= *i && *i <= u64::MAX as i128 {
                    Ok(*i as u64)
                } else {
                    Err(MalformedPayload::at(Cause::TypeMismatch))
                }
            },
            _ => Err(MalformedPayload::at(Cause::TypeMismatch)),
        }
    }

    fn encode(&self) -> (r: Option<Json>) {
        Some(Json::Number(JsonNumber::Int(*self as i128)))
    }

    proof fn round_trip(v: u64) {
    }

    proof fn decoded_canonical(j: JsonView) {
    }

    proof fn writable_encoding(v: u64) {
    }
}

impl Wire for u32 {
    open spec fn decoded(j: JsonView) -> Result<u32, Fault> {
        match integer_within(j, 0, u32::MAX as int) {
            Some(i) => Ok(i as u32),
            None => Err(Fault::at(Cause::TypeMismatch)),
        }
    }

    open spec fn encodable(v: u32) -> bool {
        true
    }

    open spec fn encoding(v: u32) -> JsonView {
        JsonView::Number(NumberView::Int(v as int))
    }

    open spec fn canonical(v: u32) -> bool {
        true
    }

    fn decode(j: &Json) -> (r: Result<u32, MalformedPayload>) {
        match j {
            Json::Number(JsonNumber::Int(i)) => {
                if 0 <= *i && *i <= u32::MAX as i128 {
                    Ok(*i as u32)
                } else {
                    Err(MalformedPayload::at(Cause::TypeMismatch))
                }
            },
            _ => Err(MalformedPayload::at(Cause::TypeMismatch)),
        }
    }

    fn encode(&self) -> (r: Option<Json>) {
        Some(Json::Number(JsonNumber::Int(*self as i128)))
    }

    proof fn round_trip(v: u32) {
    }

    proof fn decoded_canonical(j: JsonView) {
    }

    proof fn writable_encoding(v: u32) {
    }
}

impl Wire for bool {
    open spec fn decoded(j: JsonView) -> Result<bool, Fault> {
        match j {
            JsonView::Bool(b) => Ok(b),
            _ => Err(Fault::at(Cause::TypeMismatch)),
        }
    }

    open spec fn encodable(v: bool) -> bool {
        true
    }

    open spec fn encoding(v: bool) -> JsonView {
        JsonView::Bool(v)
    }

    open spec fn canonical(v: bool) -> bool {
        true
    }

    fn decode(j: &Json) -> (r: Result<bool, MalformedPayload>) {
        match j {
            Json::Bool(b) => Ok(*b),
            _ => Err(MalformedPayload::at(Cause::TypeMismatch)),
        }
    }

    fn encode(&self) -> (r: Option<Json>) {
        Some(Json::Bool(*self))
    }

    proof fn round_trip(v: bool) {
    }

    proof fn decoded_canonical(j: JsonView) {
    }

    proof fn writable_encoding(v: bool) {
    }
}

impl Wire for String {
    open spec fn decoded(j: JsonView) -> Result<Seq<char>, Fault> {
        match j {
            JsonView::String(text) => Ok(text),
            _ => Err(Fault::at(Cause::TypeMismatch)),
        }
    }

    open spec fn encodable(v: Seq<char>) -> bool {
        true
    }

    open spec fn encoding(v: Seq<char>) -> JsonView {
        JsonView::String(v)
    }

    open spec fn canonical(v: Seq<char>) -> bool {
        true
    }

    fn decode(j: &Json) -> (r: Result<String, MalformedPayload>) {
        match j {
            Json::String(text) => Ok(text.clone()),
            _ => Err(MalformedPayload::at(Cause::TypeMismatch)),
        }
    }

    fn encode(&self) -> (r: Option<Json>) {
        Some(Json::String(self.clone()))
    }

    proof fn round_trip(v: Seq<char>) {
    }

    proof fn decoded_canonical(j: JsonView) {
    }

    proof fn writable_encoding(v: Seq<char>) {
    }
}

/// What decoding each of `items` gives: the values in order, or the fault of
/// the first item that is refused, under its position.
pub open spec fn decoded_items<T: Wire>(items: Seq<JsonView>) -> Result<Seq<T::V>, Fault>
    decreases items.len(),
{
    if items.len() == 0 {
        Ok(Seq::empty())
    } else {
        match decoded_items::<T>(items.drop_last()) {
            Err(e) => Err(e),
            Ok(front) => match T::decoded(items.last()) {
                Ok(value) => Ok(front.push(value)),
                Err(e) => Err(e.under(StepView::Index((items.len() - 1) as nat))),
            },
        }
    }
}

impl<T: Wire> Wire for Vec<T> {
    open spec fn decoded(j: JsonView) -> Result<Seq<T::V>, Fault> {
        match j {
            JsonView::Array(items) => decoded_items::<T>(items),
            _ => Err(Fault::at(Cause::TypeMismatch)),
        }
    }

    open spec fn encodable(v: Seq<T::V>) -> bool {
        forall|i: int| 0 <= i < v.len() ==> T::encodable(#[trigger] v[i])
    }

    open spec fn encoding(v: Seq<T::V>) -> JsonView {
        JsonView::Array(Seq::new(v.len(), |i: int| T::encoding(v[i])))
    }

    open spec fn canonical(v: Seq<T::V>) -> bool {
        forall|i: int| 0 <= i < v.len() ==> T::canonical(#[trigger] v[i])
    }

    fn decode(j: &Json) -> (r: Result<Vec<T>, MalformedPayload>) {
        match j {
            Json::Array(items) => {
                let ghost all = items_view(items@);
                let mut out: Vec<T> = Vec::new();
                let mut i: usize = 0;
                assert(all.subrange(0, 0) =~= Seq::empty());
                assert(out.deep_view() =~= Seq::empty());
                while i < items.len()
                    invariant
                        i <= items.len(),
                        all == items_view(items@),
                        j.deep_view() == JsonView::Array(all),
                        decoded_items::<T>(all.subrange(0, i as int)) == Ok::<Seq<T::V>, Fault>(
                            out.deep_view(),
                        ),
                    decreases items.len() - i,
                {
                    let ghost before = out.deep_view();
                    proof {
                        let upto = all.subrange(0, i + 1);
                        assert(upto.drop_last() =~= all.subrange(0, i as int));
                        assert(upto.last() == items[i as int].deep_view());
                    }
                    match T::decode(&items[i]) {
                        Ok(value) => {
                            let ghost v = value.deep_view();
                            out.push(value);
                            assert(out.deep_view() =~= before.push(v));
                        },
                        Err(e) => {
                            proof {
                                lemma_decoded_items_prefix::<T>(all, i + 1);
                            }
                            return Err(e.under(Step::Index(i)));
                        },
                    }
                    i = i + 1;
                }
                assert(all.subrange(0, i as int) =~= all);
                Ok(out)
            },
            _ => Err(MalformedPayload::at(Cause::TypeMismatch)),
        }
    }

    fn encode(&self) -> (r: Option<Json>) {
        let ghost all = self.deep_view();
        let mut out: Vec<Json> = Vec::new();
        let mut i: usize = 0;
        while i < self.len()
            invariant
                i <= self.len(),
                all == self.deep_view(),
                out.len() == i,
                forall|k: int| 0 <= k < i ==> T::encodable(#[trigger] all[k]),
                forall|k: int|
                    0 <= k < i ==> (#[trigger] out[k]).deep_view() == T::encoding(all[k]),
            decreases self.len() - i,
        {
            match self[i].encode() {
                Some(j) => {
                    out.push(j);
                },
                None => {
                    assert(!T::encodable(all[i as int]));
                    return None;
                },
            }
            i = i + 1;
        }
        let json = Json::Array(out);
        assert(json.deep_view()->Array_0 =~= Seq::new(all.len(), |i: int| T::encoding(all[i])));
        Some(json)
    }

    proof fn round_trip(v: Seq<T::V>) {
        if Self::encodable(v) && Self::canonical(v) {
            lemma_items_round_trip::<T>(v, v.len());
            let items = Seq::new(v.len(), |i: int| T::encoding(v[i]));
            assert(items.subrange(0, v.len() as int) =~= items);
            assert(v.subrange(0, v.len() as int) =~= v);
        }
    }

    proof fn decoded_canonical(j: JsonView) {
        if let JsonView::Array(items) = j {
            lemma_decoded_items::<T>(items);
        }
    }

    proof fn writable_encoding(v: Seq<T::V>) {
        let items = Self::encoding(v)->Array_0;
        lemma_items_writable(items);
        if Self::encodable(v) {
            assert forall|i: int| 0 <= i < items.len() implies writable(#[trigger] items[i]) by {
                T::writable_encoding(v[i]);
            }
        }
    }
}

/// Where every item decodes, there is one value for each, that of its item,
/// and each has a wire form and is canonical.
pub proof fn lemma_decoded_items<T: Wire>(items: Seq<JsonView>)
    ensures
        decoded_items::<T>(items) matches Ok(values) ==> {
            &&& values.len() == items.len()
            &&& forall|i: int|
                0 <= i < values.len() ==> T::decoded(items[i]) == Ok::<T::V, Fault>(
                    #[trigger] values[i],
                )
            &&& forall|i: int| 0 <= i < values.len() ==> T::encodable(#[trigger] values[i])
            &&& forall|i: int| 0 <= i < values.len() ==> T::canonical(#[trigger] values[i])
        },
    decreases items.len(),
{
    if items.len() > 0 {
        lemma_decoded_items::<T>(items.drop_last());
        T::decoded_canonical(items.last());
    }
}

/// Whether the item at `k` is the first that is refused.
pub open spec fn first_refused<T: Wire>(items: Seq<JsonView>, k: int) -> bool {
    &&& 0 <= k < items.len()
    &&& T::decoded(items[k]) is Err
    &&& forall|i: int| 0 <= i < k ==> (#[trigger] T::decoded(items[i])) is Ok
}

/// Where not every item decodes, the fault is that of the first item that is
/// refused, under its position.
pub proof fn lemma_first_fault<T: Wire>(items: Seq<JsonView>) -> (k: int)
    requires
        decoded_items::<T>(items) is Err,
    ensures
        first_refused::<T>(items, k),
        decoded_items::<T>(items) == Err::<Seq<T::V>, Fault>(
            T::decoded(items[k])->Err_0.under(StepView::Index(k as nat)),
        ),
    decreases items.len(),
{
    let front = items.drop_last();
    if decoded_items::<T>(front) is Err {
        let k = lemma_first_fault::<T>(front);
        assert forall|i: int| 0 <= i <= k implies front[i] == items[i] by {}
        k
    } else {
        lemma_decoded_items::<T>(front);
        let values = decoded_items::<T>(front)->Ok_0;
        assert forall|i: int| 0 <= i < front.len() implies (#[trigger] T::decoded(items[i]))
            is Ok by {
            assert(front[i] == items[i]);
            assert(T::decoded(front[i]) == Ok::<T::V, Fault>(values[i]));
        }
        items.len() - 1
    }
}

/// A fault among the first `n` items is the fault of the whole sequence.
pub proof fn lemma_decoded_items_prefix<T: Wire>(items: Seq<JsonView>, n: int)
    requires
        0 <= n <= items.len(),
        decoded_items::<T>(items.subrange(0, n)) is Err,
    ensures
        decoded_items::<T>(items) == decoded_items::<T>(items.subrange(0, n)),
    decreases items.len() - n,
{
    if n < items.len() {
        let longer = items.subrange(0, n + 1);
        assert(longer.drop_last() =~= items.subrange(0, n));
        lemma_decoded_items_prefix::<T>(items, n + 1);
    } else {
        assert(items.subrange(0, n) =~= items);
    }
}

proof fn lemma_items_round_trip<T: Wire>(v: Seq<T::V>, n: nat)
    requires
        n <= v.len(),
        forall|i: int| 0 <= i < v.len() ==> T::encodable(#[trigger] v[i]),
        forall|i: int| 0 <= i < v.len() ==> T::canonical(#[trigger] v[i]),
    ensures
        decoded_items::<T>(Seq::new(v.len(), |i: int| T::encoding(v[i])).subrange(0, n as int))
            == Ok::<Seq<T::V>, Fault>(v.subrange(0, n as int)),
    decreases n,
{
    let items = Seq::new(v.len(), |i: int| T::encoding(v[i]));
    if n == 0 {
        assert(v.subrange(0, 0) =~= Seq::empty());
        assert(items.subrange(0, 0) =~= Seq::empty());
    } else {
        lemma_items_round_trip::<T>(v, (n - 1) as nat);
        T::round_trip(v[n - 1]);
        assert(items.subrange(0, n as int).drop_last() =~= items.subrange(0, n - 1));
        assert(v.subrange(0, n - 1).push(v[n - 1]) =~= v.subrange(0, n as int));
    }
}

impl<A: Wire, B: Wire> Wire for (A, B) {
    open spec fn decoded(j: JsonView) -> Result<(A::V, B::V), Fault> {
        match j {
            JsonView::Array(items) => if items.len() != 2 {
                Err(Fault::at(Cause::TypeMismatch))
            } else {
                match A::decoded(items[0]) {
                    Err(e) => Err(e.under(StepView::Index(0))),
                    Ok(first) => match B::decoded(items[1]) {
                        Err(e) => Err(e.under(StepView::Index(1))),
                        Ok(second) => Ok((first, second)),
                    },
                }
            },
            _ => Err(Fault::at(Cause::TypeMismatch)),
        }
    }

    open spec fn encodable(v: (A::V, B::V)) -> bool {
        A::encodable(v.0) && B::encodable(v.1)
    }

    open spec fn encoding(v: (A::V, B::V)) -> JsonView {
        JsonView::Array(Seq::empty().push(A::encoding(v.0)).push(B::encoding(v.1)))
    }

    open spec fn canonical(v: (A::V, B::V)) -> bool {
        A::canonical(v.0) && B::canonical(v.1)
    }

    fn decode(j: &Json) -> (r: Result<(A, B), MalformedPayload>) {
        match j {
            Json::Array(items) => {
                if items.len() != 2 {
                    return Err(MalformedPayload::at(Cause::TypeMismatch));
                }
                let first = match A::decode(&items[0]) {
                    Ok(value) => value,
                    Err(e) => {
                        return Err(e.under(Step::Index(0)));
                    },
                };
                let second = match B::decode(&items[1]) {
                    Ok(value) => value,
                    Err(e) => {
                        return Err(e.under(Step::Index(1)));
                    },
                };
                Ok((first, second))
            },
            _ => Err(MalformedPayload::at(Cause::TypeMismatch)),
        }
    }

    fn encode(&self) -> (r: Option<Json>) {
        let first = self.0.encode()?;
        let second = self.1.encode()?;
        let ghost both = Seq::empty().push(first.deep_view()).push(second.deep_view());
        let mut items: Vec<Json> = Vec::new();
        items.push(first);
        items.push(second);
        assert(items_view(items@) =~= both);
        Some(Json::Array(items))
    }

    proof fn round_trip(v: (A::V, B::V)) {
        A::round_trip(v.0);
        B::round_trip(v.1);
    }

    proof fn decoded_canonical(j: JsonView) {
        if let JsonView::Array(items) = j {
            A::decoded_canonical(items[0]);
            B::decoded_canonical(items[1]);
        }
    }

    proof fn writable_encoding(v: (A::V, B::V)) {
        A::writable_encoding(v.0);
        B::writable_encoding(v.1);
        lemma_items_writable(Self::encoding(v)->Array_0);
    }
}

impl Wire for JsonNumber {
    /// A number is taken as it stands, if it is one that can be written again.
    open spec fn decoded(j: JsonView) -> Result<NumberView, Fault> {
        match j {
            JsonView::Number(n) => if number_writable(n) {
                Ok(n)
            } else {
                Err(Fault::at(Cause::TypeMismatch))
            },
            _ => Err(Fault::at(Cause::TypeMismatch)),
        }
    }

    open spec fn encodable(v: NumberView) -> bool {
        number_writable(v)
    }

    open spec fn encoding(v: NumberView) -> JsonView {
        JsonView::Number(v)
    }

    open spec fn canonical(v: NumberView) -> bool {
        true
    }

    fn decode(j: &Json) -> (r: Result<JsonNumber, MalformedPayload>) {
        match j {
            Json::Number(n) => if n.is_writable() {
                Ok(n.copy())
            } else {
                Err(MalformedPayload::at(Cause::TypeMismatch))
            },
            _ => Err(MalformedPayload::at(Cause::TypeMismatch)),
        }
    }

    fn encode(&self) -> (r: Option<Json>) {
        if self.is_writable() {
            Some(Json::Number(self.copy()))
        } else {
            None
        }
    }

    proof fn round_trip(v: NumberView) {
    }

    proof fn decoded_canonical(j: JsonView) {
    }

    proof fn writable_encoding(v: NumberView) {
    }
}

/// What the member `key` of an object gives to a field that must be there.
pub open spec fn required_field<T: Wire>(members: Members, key: Seq<char>) -> Result<T::V, Fault> {
    match member(members, key) {
        None => Err(Fault::at(Cause::MissingField).under_key(key)),
        Some(j) => match T::decoded(j) {
            Ok(value) => Ok(value),
            Err(e) => Err(e.under_key(key)),
        },
    }
}

/// What the member `key` of an object gives to a field that may be absent:
/// nothing where it is missing or `null`.
pub open spec fn optional_field<T: Wire>(members: Members, key: Seq<char>) -> Result<
    Option<T::V>,
    Fault,
> {
    match member(members, key) {
        None => Ok(None),
        Some(JsonView::Null) => Ok(None),
        Some(j) => match T::decoded(j) {
            Ok(value) => Ok(Some(value)),
            Err(e) => Err(e.under_key(key)),
        },
    }
}

/// The wire form of a field that may be absent.
pub open spec fn optional_encoding<T: Wire>(v: Option<T::V>) -> JsonView {
    match v {
        Some(value) => T::encoding(value),
        None => JsonView::Null,
    }
}

/// Whether a field that may be absent has a wire form.
pub open spec fn optional_encodable<T: Wire>(v: Option<T::V>) -> bool {
    v matches Some(value) ==> T::encodable(value)
}

/// Whether a field that may be absent is canonical.
pub open spec fn optional_canonical<T: Wire>(v: Option<T::V>) -> bool {
    v matches Some(value) ==> T::canonical(value)
}

/// Reads a field that must be there from the member `key`.
pub fn take_required<T: Wire>(members: &Vec<(String, Json)>, key: &str) -> (r: Result<
    T,
    MalformedPayload,
>)
    ensures
        view_result(r) == required_field::<T>(members_view(members@), key@),
{
    match get(members, key) {
        None => Err(MalformedPayload::at(Cause::MissingField).under_key(key)),
        Some(j) => match T::decode(j) {
            Ok(value) => Ok(value),
            Err(e) => Err(e.under_key(key)),
        },
    }
}

/// Reads a field that may be absent from the member `key`.
pub fn take_optional<T: Wire>(members: &Vec<(String, Json)>, key: &str) -> (r: Result<
    Option<T>,
    MalformedPayload,
>)
    ensures
        view_result(r) == optional_field::<T>(members_view(members@), key@),
{
    match get(members, key) {
        None => Ok(None),
        Some(Json::Null) => Ok(None),
        Some(j) => match T::decode(j) {
            Ok(value) => Ok(Some(value)),
            Err(e) => Err(e.under_key(key)),
        },
    }
}

/// Adds the member `key` with the wire form of `value`, if it has one.
pub fn put_required<T: Wire>(
    members: &mut Vec<(String, Json)>,
    key: &str,
    value: &T,
) -> (done: Option<()>)
    ensures
        done is Some <==> T::encodable(value.deep_view()),
        done is Some ==> members_view(final(members)@) == members_view(old(members)@).push(
            (key@, T::encoding(value.deep_view())),
        ),
        done is None ==> final(members)@ == old(members)@,
{
    let ghost before = members_view(members@);
    match value.encode() {
        Some(j) => {
            let ghost added = (key@, j.deep_view());
            members.push((String::from_str(key), j));
            assert(members_view(members@) =~= before.push(added));
            Some(())
        },
        None => None,
    }
}

/// Adds the member `key` with the wire form of `value`, or with `null` where
/// there is no value.
pub fn put_optional<T: Wire>(
    members: &mut Vec<(String, Json)>,
    key: &str,
    value: &Option<T>,
) -> (done: Option<()>)
    ensures
        done is Some <==> optional_encodable::<T>(value.deep_view()),
        done is Some ==> members_view(final(members)@) == members_view(old(members)@).push(
            (key@, optional_encoding::<T>(value.deep_view())),
        ),
        done is None ==> final(members)@ == old(members)@,
{
    let ghost before = members_view(members@);
    let encoded = match value {
        Some(inner) => inner.encode(),
        None => Some(Json::Null),
    };
    match encoded {
        Some(j) => {
            let ghost added = (key@, j.deep_view());
            members.push((String::from_str(key), j));
            assert(members_view(members@) =~= before.push(added));
            Some(())
        },
        None => None,
    }
}

/// What decoding a text gives: what its JSON value decodes to, or a syntax
/// fault at the root where the text is not JSON.
pub open spec fn decoded_text<T: Wire>(text: Seq<char>) -> Result<T::V, Fault> {
    match parsed_json(text) {
        Some(j) => T::decoded(j),
        None => Err(Fault::at(Cause::Syntax)),
    }
}

/// The text of a value on the wire, where it has a wire form.
pub open spec fn encoded_text<T: Wire>(v: T::V) -> Option<Seq<char>> {
    if T::encodable(v) {
        Some(rendered_json(T::encoding(v)))
    } else {
        None
    }
}

/// Reading the text that was written for a canonical value gives the value
/// back, where the text parses to a tree that decodes as the wire form
/// itself does. That much is asked of the parser and the writer of the text;
/// nothing here says that they grant it.
pub proof fn lemma_text_round_trip<T: Wire>(v: T::V)
    ensures
        T::encodable(v) && T::canonical(v) && (parsed_json(rendered_json(T::encoding(v)))
            matches Some(j) && T::decoded(j) == T::decoded(T::encoding(v))) ==> decoded_text::<T>(
            encoded_text::<T>(v)->0,
        ) == Ok::<T::V, Fault>(v),
{
    T::round_trip(v);
}

/// Decodes a value from JSON text.
pub fn decode_text<T: Wire>(text: &str) -> (r: Result<T, MalformedPayload>)
    ensures
        view_result(r) == decoded_text::<T>(text@),
{
    match Json::parse(text) {
        Some(j) => T::decode(&j),
        None => Err(MalformedPayload::at(Cause::Syntax)),
    }
}

/// Encodes a value as JSON text: there is a text exactly when the value has a
/// wire form.
pub fn encode_text<T: Wire>(value: &T) -> (r: Option<String>)
    ensures
        r is Some <==> T::encodable(value.deep_view()),
        match r {
            Some(text) => encoded_text::<T>(value.deep_view()) == Some(text@),
            None => encoded_text::<T>(value.deep_view()) is None,
        },
{
    match value.encode() {
        Some(j) => {
            proof {
                T::writable_encoding(value.deep_view());
            }
            render_text(&j)
        },
        None => None,
    }
}

} // verus!
