//! Errors: a message, and the causes under it.
use vstd::prelude::*;

use crate::text::{is_nothing, texts};

verus! {

/// An error.
#[derive(Debug)]
pub struct Failure {
    /// What failed.
    pub message: String,
    /// Why, each cause under the one before it.
    pub causes: Vec<String>,
}

/// The model of an error.
#[verifier::ext_equal]
pub struct FailureView {
    pub message: Seq<char>,
    pub causes: Seq<Seq<char>>,
}

impl View for Failure {
    type V = FailureView;

    open spec fn view(&self) -> FailureView {
        FailureView { message: self.message@, causes: texts(self.causes@) }
    }
}

impl FailureView {
    /// The error without a cause.
    pub open spec fn new(message: Seq<char>) -> FailureView {
        FailureView { message, causes: Seq::empty() }
    }

    /// The error of which this one is the cause.
    pub open spec fn under(self, message: Seq<char>) -> FailureView {
        FailureView { message, causes: seq![self.message] + self.causes }
    }

    /// The error with its cause; an empty text is no cause.
    pub open spec fn because(message: Seq<char>, why: Seq<char>) -> FailureView {
        if why.len() == 0 {
            FailureView::new(message)
        } else {
            FailureView::new(why).under(message)
        }
    }
}

impl Failure {
    /// The error without a cause.
    pub fn new(message: String) -> (r: Failure)
        ensures
            r@ == FailureView::new(message@),
    {
        let r = Failure { message, causes: Vec::new() };
        assert(r@ =~= FailureView::new(message@));
        r
    }

    /// The error of which this one is the cause.
    pub fn under(self, message: String) -> (r: Failure)
        ensures
            r@ == self@.under(message@),
    {
        let ghost before = self@;
        let mut causes: Vec<String> = Vec::new();
        let mut rest = self.causes;
        causes.push(self.message);
        causes.append(&mut rest);
        let r = Failure { message, causes };
        assert(r@ =~= before.under(message@));
        r
    }

    /// The error with its cause; an empty text is no cause.
    pub fn because(message: String, why: &str) -> (r: Failure)
        ensures
            r@ == FailureView::because(message@, why@),
    {
        if is_nothing(why) {
            Failure::new(message)
        } else {
            Failure::new(why.to_owned()).under(message)
        }
    }
}

} // verus!
