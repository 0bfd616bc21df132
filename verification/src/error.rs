//! What a failed decode reports.
use vstd::prelude::*;
use vstd::string::StringExecFns;

verus! {

/// Why a payload was refused.
#[derive(Clone, Copy, Debug, PartialEq, Eq, Structural)]
pub enum Cause {
    /// A value of another JSON type stands where one was expected,
    /// or a number lies outside the range of its field.
    TypeMismatch,
    /// A field that must be there is not.
    MissingField,
    /// A timestamp is not written in the fixed format.
    FormatMismatch,
    /// The payload has neither of the known shapes.
    NoVariantMatched,
    /// The text is not JSON.
    Syntax,
}

/// One step on the way from the payload's root to a value inside it.
#[derive(Debug, PartialEq, Eq)]
pub enum Step {
    /// Into the member of an object that has this name.
    Key(String),
    /// Into the element of an array at this position.
    Index(usize),
}

/// The mathematical value of a [`Step`].
pub enum StepView {
    Key(Seq<char>),
    Index(nat),
}

impl DeepView for Step {
    type V = StepView;

    open spec fn deep_view(&self) -> StepView {
        match self {
            Step::Key(name) => StepView::Key(name@),
            Step::Index(i) => StepView::Index(*i as nat),
        }
    }
}

/// The error of every decoder: where the payload is at fault, and why.
#[derive(Debug, PartialEq, Eq)]
pub struct MalformedPayload {
    /// The steps from the root to the offending value, outermost first.
    pub path: Vec<Step>,
    /// What is wrong with that value.
    pub cause: Cause,
}

/// The mathematical value of a [`MalformedPayload`].
pub struct Fault {
    pub path: Seq<StepView>,
    pub cause: Cause,
}

impl DeepView for MalformedPayload {
    type V = Fault;

    open spec fn deep_view(&self) -> Fault {
        Fault { path: self.path.deep_view(), cause: self.cause }
    }
}

impl Fault {
    /// A fault at the value itself.
    pub open spec fn at(cause: Cause) -> Fault {
        Fault { path: Seq::empty(), cause }
    }

    /// The same fault, seen from one step further out.
    pub open spec fn under(self, step: StepView) -> Fault {
        Fault { path: seq![step] + self.path, cause: self.cause }
    }

    /// The same fault, seen from the object whose member `key` it lies in.
    pub open spec fn under_key(self, key: Seq<char>) -> Fault {
        self.under(StepView::Key(key))
    }
}

impl MalformedPayload {
    /// A fault at the value itself.
    pub fn at(cause: Cause) -> (e: MalformedPayload)
        ensures
            e.deep_view() == Fault::at(cause),
    {
        let e = MalformedPayload { path: Vec::new(), cause };
        assert(e.path.deep_view() =~= Seq::<StepView>::empty());
        e
    }

    /// The same fault, seen from one step further out.
    pub fn under(self, step: Step) -> (e: MalformedPayload)
        ensures
            e.deep_view() == self.deep_view().under(step.deep_view()),
    {
        let ghost before = self.path.deep_view();
        let ghost first = step.deep_view();
        let mut path = self.path;
        path.insert(0, step);
        let e = MalformedPayload { path, cause: self.cause };
        assert(e.path.deep_view() =~= seq![first] + before);
        e
    }

    /// The same fault, seen from the object whose member `key` it lies in.
    pub fn under_key(self, key: &str) -> (e: MalformedPayload)
        ensures
            e.deep_view() == self.deep_view().under_key(key@),
    {
        self.under(Step::Key(String::from_str(key)))
    }
}

} // verus!
