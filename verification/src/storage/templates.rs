//! The checks around storing task templates and copying them into a day.
use super::{checked_id, checked_time, single_row_changed};
use super::outline::stored_time;
use crate::dto::{
    date_error, first_error, id_error, sibling_key_error, template_time, time_error,
    CreateTaskTemplateRequest, InsertTaskTemplateCopyRequest, PlannerLineDescription,
    PlannerLineDto, PlannerLineId, PlannerLineTitle, TaskTemplateDto, TaskTemplateId,
    TimeOfDayMinutes, UpdateTaskTemplateRequest,
};
use crate::error::{error_for, AppError, AppErrorCode};
use vstd::prelude::*;

verus! {

fn minutes_of(value: Option<u16>) -> (minutes: Option<TimeOfDayMinutes>)
    ensures
        minutes == template_time(value),
{
    match value {
        Some(m) => Some(TimeOfDayMinutes(m)),
        None => None,
    }
}

/// Before a template is created: its time. The stored time is returned.
pub fn check_new_template(request: &CreateTaskTemplateRequest) -> (result: Result<
    Option<i64>,
    AppError,
>)
    ensures
        time_error(template_time(request.time_of_day_minutes)) is None ==> result == Ok::<
            Option<i64>,
            AppError,
        >(stored_time(template_time(request.time_of_day_minutes))),
        time_error(template_time(request.time_of_day_minutes)) is Some ==> result == Err::<
            Option<i64>,
            AppError,
        >(error_for(AppErrorCode::InvalidTimeOfDay)),
{
    checked_time(minutes_of(request.time_of_day_minutes))
}

/// The template that a create request stores under the identifier `id`.
pub fn created_template(id: TaskTemplateId, request: &CreateTaskTemplateRequest) -> (template:
    TaskTemplateDto)
    ensures
        template.id == id,
        template.title.0 == request.title.0,
        template.body.0 == request.body.0,
        template.time_of_day_minutes == template_time(request.time_of_day_minutes),
{
    TaskTemplateDto {
        id,
        title: crate::dto::TaskTemplateTitle(request.title.0.clone()),
        body: crate::dto::TaskTemplateBody(request.body.0.clone()),
        time_of_day_minutes: minutes_of(request.time_of_day_minutes),
    }
}

/// Before a template is updated: its identifier, then its time. The stored time is
/// returned.
pub fn check_template_update(request: &UpdateTaskTemplateRequest) -> (result: Result<
    Option<i64>,
    AppError,
>)
    ensures
        ({
            let refusal = first_error(
                id_error(request.id.0@, false),
                time_error(template_time(request.time_of_day_minutes)),
            );
            &&& refusal is None ==> result == Ok::<Option<i64>, AppError>(
                stored_time(template_time(request.time_of_day_minutes)),
            )
            &&& refusal matches Some(code) ==> result == Err::<Option<i64>, AppError>(
                error_for(code),
            )
        }),
{
    checked_id(request.id.0.as_str())?;
    checked_time(minutes_of(request.time_of_day_minutes))
}

/// After the delete statement ran: an injected failure abandons it; otherwise exactly one
/// row must have gone.
pub fn template_delete_outcome(injected_failure: bool, changed_rows: usize) -> (result: Result<
    (),
    AppError,
>)
    ensures
        injected_failure ==> result == Err::<(), AppError>(
            error_for(AppErrorCode::StorageWriteFailed),
        ),
        !injected_failure && changed_rows == 1 ==> result == Ok::<(), AppError>(()),
        !injected_failure && changed_rows != 1 ==> result == Err::<(), AppError>(
            error_for(AppErrorCode::StorageNotFound),
        ),
{
    if injected_failure {
        return Err(AppError::storage_write_failed());
    }
    match single_row_changed(changed_rows) {
        Ok(()) => Ok(()),
        Err(error) => Err(error),
    }
}

/// Before a template is copied into a day: the template identifier, the date, then the
/// sibling key.
pub fn check_template_copy(request: &InsertTaskTemplateCopyRequest) -> (result: Result<
    (),
    AppError,
>)
    ensures
        ({
            let refusal = first_error(
                id_error(request.template_id.0@, false),
                first_error(date_error(request.date), sibling_key_error(request.sibling_key.0@)),
            );
            &&& result is Ok <==> refusal is None
            &&& result matches Err(e) ==> refusal == Some(e.code) && e == error_for(e.code)
        }),
{
    checked_id(request.template_id.0.as_str())?;
    request.date.as_str()?;
    super::checked_key(request.sibling_key.0.as_str())
}

/// A stored template time as the copied line carries it; a stored value outside the
/// minutes type becomes 0.
pub fn copied_time(value: Option<i64>) -> (minutes: Option<TimeOfDayMinutes>)
    ensures
        minutes == match value {
            Some(m) => Some(
                TimeOfDayMinutes(
                    if 0 <= m <= u16::MAX {
                        m as u16
                    } else {
                        0
                    },
                ),
            ),
            None => None,
        },
{
    match value {
        Some(m) => {
            if 0 <= m && m <= 65535 {
                Some(TimeOfDayMinutes(m as u16))
            } else {
                Some(TimeOfDayMinutes(0))
            }
        },
        None => None,
    }
}

/// The line that copying a template stores under the identifier `id`: the template's
/// title, its body as the description, its time; the request's day, parent and key; not
/// collapsed.
pub fn copied_template_line(
    id: PlannerLineId,
    request: &InsertTaskTemplateCopyRequest,
    title: String,
    body: String,
    time_of_day_minutes: Option<i64>,
) -> (line: PlannerLineDto)
    ensures
        line == (PlannerLineDto {
            id,
            date: request.date,
            parent_id: request.parent_id,
            sibling_key: request.sibling_key,
            title: PlannerLineTitle(title),
            description: Some(PlannerLineDescription(body)),
            time_of_day_minutes: match time_of_day_minutes {
                Some(m) => Some(
                    TimeOfDayMinutes(
                        if 0 <= m <= u16::MAX {
                            m as u16
                        } else {
                            0
                        },
                    ),
                ),
                None => None,
            },
            is_collapsed: false,
        }),
{
    PlannerLineDto {
        id,
        date: request.date.clone(),
        parent_id: request.parent_id.clone(),
        sibling_key: request.sibling_key.clone(),
        title: PlannerLineTitle(title),
        description: Some(PlannerLineDescription(body)),
        time_of_day_minutes: copied_time(time_of_day_minutes),
        is_collapsed: false,
    }
}

} // verus!
