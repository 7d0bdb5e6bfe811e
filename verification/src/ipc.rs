//! The command boundary. A payload is first decoded from JSON into its request shape
//! (unknown fields and wrong types are decoding failures); what was decoded is then
//! checked here before any storage work.
use crate::dto::{
    CreateNoteRequest, CreatePlannerLineRequest, CreateTaskTemplateRequest, DeleteNoteRequest,
    DeletePlannerLineRequest, DeleteTaskTemplateRequest, GetDailyPageRequest,
    InsertTaskTemplateCopyRequest, MovePlannerLineRequest, SaveDailyPageRequest,
    SetPlannerLineCollapsedRequest, SetPlannerLineTimeRequest, UpdateNoteRequest,
    UpdatePlannerLineRequest, UpdateTaskTemplateRequest, Validate,
};
use crate::error::{code_message, error_for, AppError};
use vstd::prelude::*;

pub use crate::error::AppErrorCode;

verus! {

/// What the boundary answers for a decoded payload: a payload that did not decode is
/// refused as invalid, a decoded request with a refusal gets that refusal, and any other
/// request passes unchanged.
pub open spec fn payload_outcome<T: Validate>(decoded: Option<T>) -> Result<T, AppError> {
    match decoded {
        None => Err(error_for(AppErrorCode::InvalidPayload)),
        Some(request) => match request.validation_error() {
            None => Ok(request),
            Some(code) => Err(error_for(code)),
        },
    }
}

/// What the boundary answers, said plainly: a payload that did not decode is refused as an
/// invalid payload; a decoded request that validation refuses is answered with the error
/// of that refusal, code and fixed message; any other request is passed on unchanged.
pub proof fn lemma_boundary_answers<T: Validate>(decoded: Option<T>)
    ensures
        decoded is None ==> (payload_outcome(decoded) matches Err(e) && e.code
            == AppErrorCode::InvalidPayload && e.message == code_message(
            AppErrorCode::InvalidPayload,
        )),
        decoded matches Some(request) ==> match request.validation_error() {
            None => payload_outcome(decoded) == Ok::<T, AppError>(request),
            Some(code) => (payload_outcome(decoded) matches Err(e) && e.code == code
                && e.message == code_message(code)),
        },
{
}

fn accept_payload<T: Validate>(decoded: Option<T>) -> (result: Result<T, AppError>)
    ensures
        result == payload_outcome(decoded),
{
    match decoded {
        None => Err(AppError::invalid_payload()),
        Some(request) => {
            match request.validate() {
                Ok(()) => Ok(request),
                Err(error) => Err(error),
            }
        },
    }
}

/// Checks a decoded `GetDailyPageRequest`; `None` stands for a payload that did not decode.
pub fn parse_get_daily_page_request(decoded: Option<GetDailyPageRequest>) -> (result: Result<GetDailyPageRequest, AppError>)
    ensures
        result == payload_outcome(decoded),
{
    accept_payload(decoded)
}

/// Checks a decoded `CreateNoteRequest`; `None` stands for a payload that did not decode.
pub fn parse_create_note_request(decoded: Option<CreateNoteRequest>) -> (result: Result<CreateNoteRequest, AppError>)
    ensures
        result == payload_outcome(decoded),
{
    accept_payload(decoded)
}

/// Checks a decoded `SaveDailyPageRequest`; `None` stands for a payload that did not decode.
pub fn parse_save_daily_page_request(decoded: Option<SaveDailyPageRequest>) -> (result: Result<SaveDailyPageRequest, AppError>)
    ensures
        result == payload_outcome(decoded),
{
    accept_payload(decoded)
}

/// Checks a decoded `UpdateNoteRequest`; `None` stands for a payload that did not decode.
pub fn parse_update_note_request(decoded: Option<UpdateNoteRequest>) -> (result: Result<UpdateNoteRequest, AppError>)
    ensures
        result == payload_outcome(decoded),
{
    accept_payload(decoded)
}

/// Checks a decoded `DeleteNoteRequest`; `None` stands for a payload that did not decode.
pub fn parse_delete_note_request(decoded: Option<DeleteNoteRequest>) -> (result: Result<DeleteNoteRequest, AppError>)
    ensures
        result == payload_outcome(decoded),
{
    accept_payload(decoded)
}

/// Checks a decoded `CreatePlannerLineRequest`; `None` stands for a payload that did not decode.
pub fn parse_create_planner_line_request(decoded: Option<CreatePlannerLineRequest>) -> (result: Result<CreatePlannerLineRequest, AppError>)
    ensures
        result == payload_outcome(decoded),
{
    accept_payload(decoded)
}

/// Checks a decoded `UpdatePlannerLineRequest`; `None` stands for a payload that did not decode.
pub fn parse_update_planner_line_request(decoded: Option<UpdatePlannerLineRequest>) -> (result: Result<UpdatePlannerLineRequest, AppError>)
    ensures
        result == payload_outcome(decoded),
{
    accept_payload(decoded)
}

/// Checks a decoded `DeletePlannerLineRequest`; `None` stands for a payload that did not decode.
pub fn parse_delete_planner_line_request(decoded: Option<DeletePlannerLineRequest>) -> (result: Result<DeletePlannerLineRequest, AppError>)
    ensures
        result == payload_outcome(decoded),
{
    accept_payload(decoded)
}

/// Checks a decoded `MovePlannerLineRequest`; `None` stands for a payload that did not decode.
pub fn parse_move_planner_line_request(decoded: Option<MovePlannerLineRequest>) -> (result: Result<MovePlannerLineRequest, AppError>)
    ensures
        result == payload_outcome(decoded),
{
    accept_payload(decoded)
}

/// Checks a decoded `SetPlannerLineCollapsedRequest`; `None` stands for a payload that did not decode.
pub fn parse_set_planner_line_collapsed_request(decoded: Option<SetPlannerLineCollapsedRequest>) -> (result: Result<SetPlannerLineCollapsedRequest, AppError>)
    ensures
        result == payload_outcome(decoded),
{
    accept_payload(decoded)
}

/// Checks a decoded `SetPlannerLineTimeRequest`; `None` stands for a payload that did not decode.
pub fn parse_set_planner_line_time_request(decoded: Option<SetPlannerLineTimeRequest>) -> (result: Result<SetPlannerLineTimeRequest, AppError>)
    ensures
        result == payload_outcome(decoded),
{
    accept_payload(decoded)
}

/// Checks a decoded `CreateTaskTemplateRequest`; `None` stands for a payload that did not decode.
pub fn parse_create_task_template_request(decoded: Option<CreateTaskTemplateRequest>) -> (result: Result<CreateTaskTemplateRequest, AppError>)
    ensures
        result == payload_outcome(decoded),
{
    accept_payload(decoded)
}

/// Checks a decoded `UpdateTaskTemplateRequest`; `None` stands for a payload that did not decode.
pub fn parse_update_task_template_request(decoded: Option<UpdateTaskTemplateRequest>) -> (result: Result<UpdateTaskTemplateRequest, AppError>)
    ensures
        result == payload_outcome(decoded),
{
    accept_payload(decoded)
}

/// Checks a decoded `DeleteTaskTemplateRequest`; `None` stands for a payload that did not decode.
pub fn parse_delete_task_template_request(decoded: Option<DeleteTaskTemplateRequest>) -> (result: Result<DeleteTaskTemplateRequest, AppError>)
    ensures
        result == payload_outcome(decoded),
{
    accept_payload(decoded)
}

/// Checks a decoded `InsertTaskTemplateCopyRequest`; `None` stands for a payload that did not decode.
pub fn parse_insert_task_template_copy_request(decoded: Option<InsertTaskTemplateCopyRequest>) -> (result: Result<InsertTaskTemplateCopyRequest, AppError>)
    ensures
        result == payload_outcome(decoded),
{
    accept_payload(decoded)
}

} // verus!
