//! The checks around storing planner lines.
use super::{checked_identifier, checked_key, checked_time};
use crate::dto::{
    date_error, first_error, id_error, optional_id_error, sibling_key_error, time_error,
    CivilDateInput, CreatePlannerLineRequest, MovePlannerLineRequest, PlannerLineDto,
    PlannerLineId, SetPlannerLineTimeRequest, UpdatePlannerLineRequest,
};
use crate::error::{error_for, AppError, AppErrorCode};
use vstd::prelude::*;

verus! {

/// The stored time of a line or template: `None`, or the minutes as an integer.
pub open spec fn stored_time(value: Option<crate::dto::TimeOfDayMinutes>) -> Option<i64> {
    match value {
        Some(minutes) => Some(minutes.0 as i64),
        None => None,
    }
}

/// Before a new line is stored: its date, its sibling key, its time and (when it has a
/// parent) the parent's identifier are checked in that order. The stored time is returned.
pub fn check_new_planner_line(request: &CreatePlannerLineRequest) -> (result: Result<
    Option<i64>,
    AppError,
>)
    ensures
        ({
            let refusal = first_error(
                date_error(request.date),
                first_error(
                    sibling_key_error(request.sibling_key.0@),
                    first_error(
                        time_error(request.time_of_day_minutes),
                        optional_id_error(request.parent_id),
                    ),
                ),
            );
            &&& refusal is None ==> result == Ok::<Option<i64>, AppError>(
                stored_time(request.time_of_day_minutes),
            )
            &&& refusal matches Some(code) ==> result == Err::<Option<i64>, AppError>(
                error_for(code),
            )
        }),
{
    request.date.as_str()?;
    checked_key(request.sibling_key.0.as_str())?;
    let time = checked_time(request.time_of_day_minutes)?;
    match &request.parent_id {
        Some(parent) => checked_identifier(parent)?,
        None => {},
    }
    Ok(time)
}

/// Whether two dates are the same day (or both invalid).
pub(crate) fn same_date(a: &CivilDateInput, b: &CivilDateInput) -> (same: bool)
    ensures
        same == (a@ == b@),
{
    match (a, b) {
        (CivilDateInput::Valid(x), CivilDateInput::Valid(y)) => x.same_day(y),
        (CivilDateInput::Invalid, CivilDateInput::Invalid) => true,
        _ => false,
    }
}

/// The parent that a new line names must exist and be on the new line's day.
pub fn check_new_line_parent(date: &CivilDateInput, parent: &Option<PlannerLineDto>) -> (result:
    Result<(), AppError>)
    ensures
        result is Ok <==> (parent matches Some(line) && line.date@ == date@),
        result matches Err(e) ==> e == error_for(AppErrorCode::InvalidPlannerLineParent),
{
    match parent {
        None => Err(AppError::invalid_planner_line_parent()),
        Some(line) => {
            if !same_date(&line.date, date) {
                Err(AppError::invalid_planner_line_parent())
            } else {
                Ok(())
            }
        },
    }
}

/// The line that a create request stores under the identifier `id`: the request's
/// fields, expanded.
pub fn created_planner_line(id: PlannerLineId, request: &CreatePlannerLineRequest) -> (line:
    PlannerLineDto)
    ensures
        line == (PlannerLineDto {
            id,
            date: request.date,
            parent_id: request.parent_id,
            sibling_key: request.sibling_key,
            title: request.title,
            description: request.description,
            time_of_day_minutes: request.time_of_day_minutes,
            is_collapsed: false,
        }),
{
    PlannerLineDto {
        id,
        date: request.date.clone(),
        parent_id: request.parent_id.clone(),
        sibling_key: request.sibling_key.clone(),
        title: request.title.clone(),
        description: request.description.clone(),
        time_of_day_minutes: request.time_of_day_minutes,
        is_collapsed: false,
    }
}

/// Before a line's title, description and time are updated: its identifier, then its
/// time. The stored time is returned.
pub fn check_line_update(request: &UpdatePlannerLineRequest) -> (result: Result<
    Option<i64>,
    AppError,
>)
    ensures
        ({
            let refusal = first_error(
                id_error(request.id.0@, false),
                time_error(request.time_of_day_minutes),
            );
            &&& refusal is None ==> result == Ok::<Option<i64>, AppError>(
                stored_time(request.time_of_day_minutes),
            )
            &&& refusal matches Some(code) ==> result == Err::<Option<i64>, AppError>(
                error_for(code),
            )
        }),
{
    checked_identifier(&request.id)?;
    checked_time(request.time_of_day_minutes)
}

/// Before a line's time is set: its identifier, then its time. The stored time is
/// returned.
pub fn check_line_time(request: &SetPlannerLineTimeRequest) -> (result: Result<
    Option<i64>,
    AppError,
>)
    ensures
        ({
            let refusal = first_error(
                id_error(request.id.0@, false),
                time_error(request.time_of_day_minutes),
            );
            &&& refusal is None ==> result == Ok::<Option<i64>, AppError>(
                stored_time(request.time_of_day_minutes),
            )
            &&& refusal matches Some(code) ==> result == Err::<Option<i64>, AppError>(
                error_for(code),
            )
        }),
{
    checked_identifier(&request.id)?;
    checked_time(request.time_of_day_minutes)
}

// ---------------------------------------------------------------------------
// Moving a line: the checks between the reads
// ---------------------------------------------------------------------------
/// What a move does once the moved line has been read.
#[derive(Debug, Clone, PartialEq, Eq)]
pub enum MoveCheck {
    /// The line becomes a root: write the move.
    Write,
    /// Read this new parent and check it.
    CheckParent(PlannerLineId),
}

/// Before anything is read: the moved line's identifier, then the new sibling key.
pub fn begin_move(request: &MovePlannerLineRequest) -> (result: Result<(), AppError>)
    ensures
        ({
            let refusal = first_error(
                id_error(request.id.0@, false),
                sibling_key_error(request.sibling_key.0@),
            );
            &&& result is Ok <==> refusal is None
            &&& result matches Err(e) ==> refusal == Some(e.code) && e == error_for(e.code)
        }),
{
    checked_identifier(&request.id)?;
    checked_key(request.sibling_key.0.as_str())
}

/// Once the moved line has been looked up: a missing line is not found; a move to the top
/// level is written at once; a new parent's identifier is checked and the parent is read.
pub fn after_moved_line(request: &MovePlannerLineRequest, line: &Option<PlannerLineDto>) -> (result:
    Result<MoveCheck, AppError>)
    ensures
        line is None ==> result == Err::<MoveCheck, AppError>(
            error_for(AppErrorCode::StorageNotFound),
        ),
        line is Some ==> match request.parent_id {
            None => result == Ok::<MoveCheck, AppError>(MoveCheck::Write),
            Some(parent) => if id_error(parent.0@, false) is None {
                result == Ok::<MoveCheck, AppError>(MoveCheck::CheckParent(parent))
            } else {
                result == Err::<MoveCheck, AppError>(error_for(AppErrorCode::InvalidIdentifier))
            },
        },
{
    if line.is_none() {
        return Err(AppError::storage_not_found());
    }
    match &request.parent_id {
        None => Ok(MoveCheck::Write),
        Some(parent) => {
            checked_identifier(parent)?;
            Ok(MoveCheck::CheckParent(parent.clone()))
        },
    }
}

/// Once the new parent has been looked up: it must exist, be on the moved line's day and
/// not be the moved line itself.
pub fn after_new_parent(
    request: &MovePlannerLineRequest,
    line: &PlannerLineDto,
    parent: &Option<PlannerLineDto>,
) -> (result: Result<(), AppError>)
    requires
        request.parent_id is Some,
    ensures
        result is Ok <==> (parent matches Some(p) && p.date@ == line.date@
            && (request.parent_id matches Some(np) && np.0@ != request.id.0@)),
        result matches Err(e) ==> e == error_for(AppErrorCode::InvalidPlannerLineParent),
{
    let parent_line = match parent {
        Some(value) => value,
        None => return Err(AppError::invalid_planner_line_parent()),
    };
    let new_parent = match &request.parent_id {
        Some(id) => id,
        None => return Err(AppError::invalid_planner_line_parent()),
    };
    if !same_date(&parent_line.date, &line.date) || new_parent.0 == request.id.0 {
        return Err(AppError::invalid_planner_line_parent());
    }
    Ok(())
}

/// What one step of the walk over the new parent's ancestors answers at `cursor`, for the
/// line with identifier `moved_id`: the walk ends and the move may be written (`false`),
/// the line under the cursor must be read and the walk goes on (`true`), or the move is
/// refused because the cursor reached the moved line.
pub open spec fn walk_step(moved_id: Seq<char>, cursor: Option<PlannerLineId>) -> Result<
    bool,
    AppError,
> {
    match cursor {
        None => Ok(false),
        Some(c) => if c.0@ == moved_id {
            Err(error_for(AppErrorCode::InvalidPlannerLineParent))
        } else {
            Ok(true)
        },
    }
}

/// Where the walk goes after reading a line: to its parent, or nowhere when the line was
/// not found or is a root.
pub open spec fn walk_next(loaded: Option<PlannerLineDto>) -> Option<PlannerLineId> {
    match loaded {
        Some(line) => line.parent_id,
        None => None,
    }
}

/// One step up the new parent's ancestors, starting at the new parent itself. Meeting the
/// moved line refuses the move, since the line would become its own descendant; `None`
/// (the walk passed the top) lets the move be written; otherwise the walk reads this
/// line and continues with its parent.
pub fn ancestor_step(request: &MovePlannerLineRequest, cursor: &Option<PlannerLineId>) -> (result:
    Result<bool, AppError>)
    ensures
        result == walk_step(request.id.0@, *cursor),
        cursor is None ==> result == Ok::<bool, AppError>(false),
        cursor matches Some(c) ==> (c.0@ == request.id.0@ ==> result == Err::<bool, AppError>(
            error_for(AppErrorCode::InvalidPlannerLineParent),
        )),
        cursor matches Some(c) ==> (c.0@ != request.id.0@ ==> result == Ok::<bool, AppError>(
            true,
        )),
{
    match cursor {
        None => Ok(false),
        Some(candidate) => {
            if candidate.0 == request.id.0 {
                Err(AppError::invalid_planner_line_parent())
            } else {
                Ok(true)
            }
        },
    }
}

/// The next line of the walk: the parent of the line just read, or `None` when it was
/// not found or has no parent.
pub fn next_ancestor(loaded: &Option<PlannerLineDto>) -> (next: Option<PlannerLineId>)
    ensures
        next == walk_next(*loaded),
{
    match loaded {
        Some(line) => line.parent_id.clone(),
        None => None,
    }
}

} // verus!
