//! Error taxonomy of the job slot, and the structured validation errors the
//! execution engine reports.

use vstd::prelude::*;

verus! {

/// One field-level failure reported by the execution engine's validation.
#[derive(Debug)]
pub struct ValidationError {
    /// Where in the request the invalid field sits (for example
    /// `["body", "input"]`); `None` until a location has been filled in.
    pub loc: Option<Vec<String>>,
    /// Human-readable description of the failure.
    pub message: String,
}

/// Mathematical model of a [`ValidationError`].
#[verifier::ext_equal]
pub ghost struct ValidationErrorView {
    pub loc: Option<Seq<Seq<char>>>,
    pub message: Seq<char>,
}

impl View for ValidationError {
    type V = ValidationErrorView;

    open spec fn view(&self) -> ValidationErrorView {
        ValidationErrorView { loc: self.loc.deep_view(), message: self.message@ }
    }
}

impl DeepView for ValidationError {
    type V = ValidationErrorView;

    open spec fn deep_view(&self) -> ValidationErrorView {
        self.view()
    }
}

/// The set of field-level failures one validation run produced.
#[derive(Debug)]
pub struct ValidationErrorSet {
    pub errors: Vec<ValidationError>,
}

impl View for ValidationErrorSet {
    type V = Seq<ValidationErrorView>;

    open spec fn view(&self) -> Seq<ValidationErrorView> {
        self.errors.deep_view()
    }
}

/// The view of a slice of path segments, segment by segment.
pub open spec fn locs_view(loc: Seq<&str>) -> Seq<Seq<char>> {
    Seq::new(loc.len(), |i: int| loc[i]@)
}

/// What filling a location into a set of errors means: every error that
/// carries no location receives `loc`; errors that already carry one keep it.
pub open spec fn spec_fill_loc(errors: Seq<ValidationErrorView>, loc: Seq<Seq<char>>) -> Seq<
    ValidationErrorView,
> {
    errors.map_values(
        |e: ValidationErrorView|
            if e.loc is Some {
                e
            } else {
                ValidationErrorView { loc: Some(loc), message: e.message }
            },
    )
}

/// Every error in the set carries a location.
pub open spec fn all_located(errors: Seq<ValidationErrorView>) -> bool {
    forall|i: int| 0 <= i < errors.len() ==> errors[i].loc is Some
}

/// Filling a location leaves no error without one.
pub proof fn lemma_fill_loc_all_located(errors: Seq<ValidationErrorView>, loc: Seq<Seq<char>>)
    ensures
        all_located(spec_fill_loc(errors, loc)),
{
}

/// Turns borrowed path segments into owned ones.
fn owned_loc(loc: &[&str]) -> (v: Vec<String>)
    ensures
        v.deep_view() == locs_view(loc@),
{
    let mut v: Vec<String> = Vec::new();
    let mut i: usize = 0;
    while i < loc.len()
        invariant
            i <= loc@.len(),
            v@.len() == i,
            forall|j: int| 0 <= j < i ==> v@[j]@ == loc@[j]@,
        decreases loc@.len() - i,
    {
        v.push(String::from_str(loc[i]));
        i = i + 1;
    }
    assert(v.deep_view() =~~= locs_view(loc@));
    v
}

impl ValidationErrorSet {
    /// Annotates every error that lacks a location with `loc`, so that
    /// downstream formatting can report exactly where in the request the
    /// invalid field was.
    pub fn fill_loc(self, loc: &[&str]) -> (r: Self)
        ensures
            r@ == spec_fill_loc(self@, locs_view(loc@)),
    {
        let mut out: Vec<ValidationError> = Vec::new();
        let mut i: usize = 0;
        while i < self.errors.len()
            invariant
                i <= self.errors@.len(),
                out@.len() == i,
                forall|j: int| 0 <= j < i ==> out@[j]@ == spec_fill_loc(
                    self.errors.deep_view(),
                    locs_view(loc@),
                )[j],
            decreases self.errors@.len() - i,
        {
            let e = &self.errors[i];
            let filled: ValidationError = match &e.loc {
                Some(l) => {
                    let kept = l.clone();
                    assert(kept.deep_view() =~~= l.deep_view());
                    ValidationError { loc: Some(kept), message: e.message.clone() }
                },
                None => ValidationError { loc: Some(owned_loc(loc)), message: e.message.clone() },
            };
            assert(filled@ =~~= spec_fill_loc(self.errors.deep_view(), locs_view(loc@))[i as int]);
            out.push(filled);
            i = i + 1;
        }
        let r = ValidationErrorSet { errors: out };
        assert(r@ =~~= spec_fill_loc(self@, locs_view(loc@)));
        r
    }
}

/// Everything an operation on the job slot can fail with.
#[derive(Debug)]
pub enum Error {
    /// The operation is invalid for the slot's current status: the slot is
    /// occupied, or no job is actively producing a result.
    AlreadyRunning,
    /// A result was requested before the job reached a terminal status.
    NotComplete,
    /// The id does not name the slot's current job, or the job vanished
    /// without producing a value.
    Unknown,
    /// The completion channel failed structurally while waiting.
    ReceiverError,
    /// The input failed validation; carries the field-level errors.
    Validation(ValidationErrorSet),
}

} // verus!
