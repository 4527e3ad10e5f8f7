//! The data carried through a submission: the raw input and the stored
//! record's externally visible projection.

use vstd::prelude::*;

verus! {

/// A raw contact-form submission as received from a client.
#[derive(Debug)]
pub struct FormData {
    pub name: String,
    pub email: String,
    pub message: String,
}

/// The mathematical content of a [`FormData`]: each field as its sequence of
/// characters.
pub ghost struct FormDataView {
    pub name: Seq<char>,
    pub email: Seq<char>,
    pub message: Seq<char>,
}

impl View for FormData {
    type V = FormDataView;

    open spec fn view(&self) -> FormDataView {
        FormDataView { name: self.name@, email: self.email@, message: self.message@ }
    }
}

/// The externally visible projection of a stored submission: the input fields
/// together with the identifier the store generated for the record.
#[derive(Debug)]
pub struct SubmissionResponse {
    pub id: String,
    pub name: String,
    pub email: String,
    pub message: String,
}

/// The mathematical content of a [`SubmissionResponse`].
pub ghost struct SubmissionResponseView {
    pub id: Seq<char>,
    pub name: Seq<char>,
    pub email: Seq<char>,
    pub message: Seq<char>,
}

impl View for SubmissionResponse {
    type V = SubmissionResponseView;

    open spec fn view(&self) -> SubmissionResponseView {
        SubmissionResponseView {
            id: self.id@,
            name: self.name@,
            email: self.email@,
            message: self.message@,
        }
    }
}

} // verus!
