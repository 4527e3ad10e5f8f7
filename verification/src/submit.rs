//! The submission pipeline: validate, persist through the caller's store,
//! shape the outcome.
//!
//! The persistence engine lives outside this library and its create call is
//! the one suspending operation of a request. The caller therefore drives
//! the pipeline in two steps: it runs [`crate::validate::validate_form_data`]
//! first and performs the create call only on validated input; then it hands
//! the call's outcome — the ids of the created records, or the failure's
//! description — to [`complete_submission`], which builds the response. The
//! spec function [`submit_spec`] ties the two steps together: it is the
//! result of the whole pipeline for a given input and store outcome.

use vstd::prelude::*;

use crate::form::{FormData, FormDataView, SubmissionResponse, SubmissionResponseView};
use crate::validate::{validate_spec, ValidationError};

verus! {

/// Why a submission did not produce a stored record.
#[derive(Debug, PartialEq, Eq)]
pub enum SubmitError {
    /// The input broke a validation rule; nothing was persisted.
    Validation(ValidationError),
    /// The persistence engine failed; the field carries the shaped message.
    Storage(String),
    /// The persistence engine reported success but returned no record,
    /// breaking its contract of one record per create call.
    Internal,
}

/// The mathematical content of a [`SubmitError`].
pub ghost enum SubmitErrorView {
    Validation(ValidationError),
    Storage(Seq<char>),
    Internal,
}

impl View for SubmitError {
    type V = SubmitErrorView;

    open spec fn view(&self) -> SubmitErrorView {
        match self {
            SubmitError::Validation(e) => SubmitErrorView::Validation(*e),
            SubmitError::Storage(m) => SubmitErrorView::Storage(m@),
            SubmitError::Internal => SubmitErrorView::Internal,
        }
    }
}

/// The store's outcome lifted to sequences: the ids of the created records
/// on success, the failure's description otherwise.
pub open spec fn outcome_view(outcome: Result<Vec<String>, String>) -> Result<
    Seq<Seq<char>>,
    Seq<char>,
> {
    match outcome {
        Ok(ids) => Ok(ids.deep_view()),
        Err(e) => Err(e@),
    }
}

/// A submission result lifted to views.
pub open spec fn submit_result_view(r: Result<SubmissionResponse, SubmitError>) -> Result<
    SubmissionResponseView,
    SubmitErrorView,
> {
    match r {
        Ok(resp) => Ok(resp@),
        Err(e) => Err(e@),
    }
}

/// The message shown for a persistence failure: the underlying description
/// behind a fixed prefix.
pub open spec fn storage_message(description: Seq<char>) -> Seq<char> {
    "Database error: "@ + description
}

/// How a validated submission's outcome is shaped: a storage failure keeps
/// its description, an empty record list is the store breaking its contract,
/// and otherwise the response combines the first record's id with the
/// original field values.
pub open spec fn complete_spec(d: FormDataView, outcome: Result<Seq<Seq<char>>, Seq<char>>) -> Result<
    SubmissionResponseView,
    SubmitErrorView,
> {
    match outcome {
        Err(e) => Err(SubmitErrorView::Storage(storage_message(e))),
        Ok(ids) => if ids.len() == 0 {
            Err(SubmitErrorView::Internal)
        } else {
            Ok(
                SubmissionResponseView {
                    id: ids[0],
                    name: d.name,
                    email: d.email,
                    message: d.message,
                },
            )
        },
    }
}

/// The whole pipeline for one request: an input that fails validation is
/// rejected outright — the store is never consulted — and a validated input
/// is shaped by [`complete_spec`] from the store's outcome.
pub open spec fn submit_spec(d: FormDataView, outcome: Result<Seq<Seq<char>>, Seq<char>>) -> Result<
    SubmissionResponseView,
    SubmitErrorView,
> {
    match validate_spec(d) {
        Err(e) => Err(SubmitErrorView::Validation(e)),
        Ok(_) => complete_spec(d, outcome),
    }
}

/// Shape the store's outcome for a validated submission: wrap a failure's
/// description, reject an empty record list as an internal fault, and
/// otherwise combine the first created record's id with the original,
/// unmodified field values.
pub fn complete_submission(data: &FormData, outcome: Result<Vec<String>, String>) -> (r: Result<
    SubmissionResponse,
    SubmitError,
>)
    requires
        validate_spec(data@) is Ok,
    ensures
        submit_result_view(r) == submit_spec(data@, outcome_view(outcome)),
{
    match outcome {
        Err(e) => {
            let msg = "Database error: ".to_owned().concat(e.as_str());
            Err(SubmitError::Storage(msg))
        },
        Ok(ids) => {
            if ids.len() == 0 {
                Err(SubmitError::Internal)
            } else {
                let id = ids[0].clone();
                Ok(
                    SubmissionResponse {
                        id,
                        name: data.name.clone(),
                        email: data.email.clone(),
                        message: data.message.clone(),
                    },
                )
            }
        },
    }
}

/// Law: an input that breaks a validation rule is rejected with that rule's
/// error, and the store's outcome plays no part in the result — the pipeline
/// answers the same whatever the store would have said, so nothing is
/// persisted for invalid input.
pub proof fn lemma_invalid_input_rejected(
    d: FormDataView,
    e: ValidationError,
    outcome1: Result<Seq<Seq<char>>, Seq<char>>,
    outcome2: Result<Seq<Seq<char>>, Seq<char>>,
)
    requires
        validate_spec(d) == Err::<(), ValidationError>(e),
    ensures
        submit_spec(d, outcome1) == Err::<SubmissionResponseView, SubmitErrorView>(
            SubmitErrorView::Validation(e),
        ),
        submit_spec(d, outcome1) == submit_spec(d, outcome2),
{
}

/// Law: a validated submission whose create call returned at least one
/// record succeeds, its response echoes the input fields exactly, and its id
/// is the first id the store generated — non-empty whenever that id is.
pub proof fn lemma_success_echoes_input(d: FormDataView, ids: Seq<Seq<char>>)
    requires
        validate_spec(d) is Ok,
        ids.len() >= 1,
    ensures
        submit_spec(d, Ok(ids)) matches Ok(resp) && resp.name == d.name && resp.email == d.email
            && resp.message == d.message && resp.id == ids[0],
        ids[0].len() > 0 ==> submit_spec(d, Ok(ids))->Ok_0.id.len() > 0,
{
}

/// Law: a successful submission's id is distinct from every prior
/// submission's id, provided the store generated it fresh — distinct from
/// all the ids it handed out before, which is the store's own guarantee.
pub proof fn lemma_id_distinct_from_prior(
    d: FormDataView,
    ids: Seq<Seq<char>>,
    prior: Seq<Seq<char>>,
)
    requires
        validate_spec(d) is Ok,
        ids.len() >= 1,
        forall|j: int| 0 <= j < prior.len() ==> #[trigger] prior[j] != ids[0],
    ensures
        submit_spec(d, Ok(ids)) is Ok,
        forall|j: int|
            0 <= j < prior.len() ==> #[trigger] prior[j] != submit_spec(d, Ok(ids))->Ok_0.id,
{
}

/// Law: the service never deduplicates. Two successful submissions — even of
/// identical data — carry distinct ids whenever the store generated distinct
/// ids for the two create calls, and generating a fresh id for every record
/// is the store's own guarantee.
pub proof fn lemma_no_dedup(d: FormDataView, ids1: Seq<Seq<char>>, ids2: Seq<Seq<char>>)
    requires
        validate_spec(d) is Ok,
        ids1.len() >= 1,
        ids2.len() >= 1,
        ids1[0] != ids2[0],
    ensures
        submit_spec(d, Ok(ids1)) is Ok,
        submit_spec(d, Ok(ids2)) is Ok,
        submit_spec(d, Ok(ids1))->Ok_0.id != submit_spec(d, Ok(ids2))->Ok_0.id,
{
}

} // verus!
