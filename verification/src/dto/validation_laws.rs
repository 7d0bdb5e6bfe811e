//! What validation refuses, request by request, stated from the rules themselves: the
//! character limits, the UUID spellings, the sibling-key alphabet, the day's minutes and
//! canonical dates, in the order in which a request's fields are checked.
use super::{
    is_ascii_alphanumeric_byte, is_uuid_text, CreateNoteRequest, CreatePlannerLineRequest,
    CreateTaskTemplateRequest, DeleteNoteRequest, DeletePlannerLineRequest,
    DeleteTaskTemplateRequest, GetDailyPageRequest, InsertTaskTemplateCopyRequest,
    MovePlannerLineRequest, PlannerLineDescription, PlannerLineId, SaveDailyPageRequest,
    SetPlannerLineCollapsedRequest, SetPlannerLineTimeRequest, TimeOfDayMinutes,
    UpdateNoteRequest, UpdatePlannerLineRequest, UpdateTaskTemplateRequest, Validate,
};
use crate::error::AppErrorCode;
use vstd::prelude::*;
use vstd::utf8::encode_utf8;

verus! {

/// The text is not one of the UUID spellings.
pub open spec fn not_a_uuid(text: Seq<char>) -> bool {
    !is_uuid_text(encode_utf8(text))
}

/// A planner-line identifier that is present and not a UUID.
pub open spec fn bad_parent(parent: Option<PlannerLineId>) -> bool {
    parent matches Some(id) && not_a_uuid(id.0@)
}

/// A sibling key that is empty or holds a byte other than an ASCII letter or digit.
pub open spec fn bad_key(key: Seq<char>) -> bool {
    key.len() == 0 || exists|i: int|
        0 <= i < encode_utf8(key).len() && !is_ascii_alphanumeric_byte(
            #[trigger] encode_utf8(key)[i],
        )
}

/// A description longer than 10 000 characters.
pub open spec fn long_description(description: Option<PlannerLineDescription>) -> bool {
    description matches Some(d) && d.0@.len() > 10000
}

/// A local time of 1440 minutes or more.
pub open spec fn late_time(minutes: Option<TimeOfDayMinutes>) -> bool {
    minutes matches Some(m) && m.0 >= 1440
}

/// A template time of 1440 minutes or more; no time is no refusal.
pub open spec fn late_minutes(minutes: Option<u16>) -> bool {
    minutes matches Some(m) && m >= 1440
}

/// Reading a page: only a canonical day passes.
pub proof fn lemma_get_daily_page_refusals(r: GetDailyPageRequest)
    ensures
        r.validation_error() == if r.date@ is None {
            Some(AppErrorCode::InvalidDate)
        } else {
            None
        },
{
}

/// Saving a page: a date that is not a canonical day, then prose over 10 000 characters.
pub proof fn lemma_save_daily_page_refusals(r: SaveDailyPageRequest)
    ensures
        r.validation_error() == if r.date@ is None {
            Some(AppErrorCode::InvalidDate)
        } else if r.content@.len() > 10000 {
            Some(AppErrorCode::BodyTooLong)
        } else {
            None
        },
{
}

/// Creating a note: a title over 200 characters, then a body over 10 000 characters.
pub proof fn lemma_create_note_refusals(r: CreateNoteRequest)
    ensures
        r.validation_error() == if r.title.0@.len() > 200 {
            Some(AppErrorCode::TitleTooLong)
        } else if r.body.0@.len() > 10000 {
            Some(AppErrorCode::BodyTooLong)
        } else {
            None
        },
{
}

/// Updating a note: a title over 200 characters, then a body over 10 000 characters.
pub proof fn lemma_update_note_refusals(r: UpdateNoteRequest)
    ensures
        r.validation_error() == if r.title.0@.len() > 200 {
            Some(AppErrorCode::TitleTooLong)
        } else if r.body.0@.len() > 10000 {
            Some(AppErrorCode::BodyTooLong)
        } else {
            None
        },
{
}

/// Deleting a note is never refused by validation.
pub proof fn lemma_delete_note_refusals(r: DeleteNoteRequest)
    ensures
        r.validation_error() is None,
{
}

/// Creating a planner line: a date that is not a canonical day, a parent that is not a
/// UUID, a bad sibling key, a title over 200 characters, a description over 10 000
/// characters, a time of 1440 minutes or more. No parent, description or time is no
/// refusal.
pub proof fn lemma_create_planner_line_refusals(r: CreatePlannerLineRequest)
    ensures
        r.validation_error() == if r.date@ is None {
            Some(AppErrorCode::InvalidDate)
        } else if bad_parent(r.parent_id) {
            Some(AppErrorCode::InvalidIdentifier)
        } else if bad_key(r.sibling_key.0@) {
            Some(AppErrorCode::InvalidSiblingKey)
        } else if r.title.0@.len() > 200 {
            Some(AppErrorCode::TitleTooLong)
        } else if long_description(r.description) {
            Some(AppErrorCode::BodyTooLong)
        } else if late_time(r.time_of_day_minutes) {
            Some(AppErrorCode::InvalidTimeOfDay)
        } else {
            None
        },
{
}

/// Updating a planner line: an identifier that is not a UUID, a title over 200
/// characters, a description over 10 000 characters, a time of 1440 minutes or more.
pub proof fn lemma_update_planner_line_refusals(r: UpdatePlannerLineRequest)
    ensures
        r.validation_error() == if not_a_uuid(r.id.0@) {
            Some(AppErrorCode::InvalidIdentifier)
        } else if r.title.0@.len() > 200 {
            Some(AppErrorCode::TitleTooLong)
        } else if long_description(r.description) {
            Some(AppErrorCode::BodyTooLong)
        } else if late_time(r.time_of_day_minutes) {
            Some(AppErrorCode::InvalidTimeOfDay)
        } else {
            None
        },
{
}

/// Deleting a planner line: an identifier that is not a UUID.
pub proof fn lemma_delete_planner_line_refusals(r: DeletePlannerLineRequest)
    ensures
        r.validation_error() == if not_a_uuid(r.id.0@) {
            Some(AppErrorCode::InvalidIdentifier)
        } else {
            None
        },
{
}

/// Moving a planner line: an identifier that is not a UUID, a new parent that is not a
/// UUID, a bad sibling key.
pub proof fn lemma_move_planner_line_refusals(r: MovePlannerLineRequest)
    ensures
        r.validation_error() == if not_a_uuid(r.id.0@) || bad_parent(r.parent_id) {
            Some(AppErrorCode::InvalidIdentifier)
        } else if bad_key(r.sibling_key.0@) {
            Some(AppErrorCode::InvalidSiblingKey)
        } else {
            None
        },
{
}

/// Collapsing a planner line: an identifier that is not a UUID.
pub proof fn lemma_set_planner_line_collapsed_refusals(r: SetPlannerLineCollapsedRequest)
    ensures
        r.validation_error() == if not_a_uuid(r.id.0@) {
            Some(AppErrorCode::InvalidIdentifier)
        } else {
            None
        },
{
}

/// Setting a line's time: an identifier that is not a UUID, then a time of 1440 minutes or
/// more; clearing the time is no refusal.
pub proof fn lemma_set_planner_line_time_refusals(r: SetPlannerLineTimeRequest)
    ensures
        r.validation_error() == if not_a_uuid(r.id.0@) {
            Some(AppErrorCode::InvalidIdentifier)
        } else if late_time(r.time_of_day_minutes) {
            Some(AppErrorCode::InvalidTimeOfDay)
        } else {
            None
        },
{
}

/// Creating a task template: a title over 200 characters, a body over 10 000 characters,
/// a time of 1440 minutes or more. A template without a time is no refusal.
pub proof fn lemma_create_task_template_refusals(r: CreateTaskTemplateRequest)
    ensures
        r.validation_error() == if r.title.0@.len() > 200 {
            Some(AppErrorCode::TitleTooLong)
        } else if r.body.0@.len() > 10000 {
            Some(AppErrorCode::BodyTooLong)
        } else if late_minutes(r.time_of_day_minutes) {
            Some(AppErrorCode::InvalidTimeOfDay)
        } else {
            None
        },
{
}

/// Updating a task template: an identifier that is empty or not a UUID, a title over 200
/// characters, a body over 10 000 characters, a time of 1440 minutes or more.
pub proof fn lemma_update_task_template_refusals(r: UpdateTaskTemplateRequest)
    ensures
        r.validation_error() == if not_a_uuid(r.id.0@) || r.id.0@.len() == 0 {
            Some(AppErrorCode::InvalidIdentifier)
        } else if r.title.0@.len() > 200 {
            Some(AppErrorCode::TitleTooLong)
        } else if r.body.0@.len() > 10000 {
            Some(AppErrorCode::BodyTooLong)
        } else if late_minutes(r.time_of_day_minutes) {
            Some(AppErrorCode::InvalidTimeOfDay)
        } else {
            None
        },
{
}

/// Deleting a task template: an identifier that is empty or not a UUID.
pub proof fn lemma_delete_task_template_refusals(r: DeleteTaskTemplateRequest)
    ensures
        r.validation_error() == if not_a_uuid(r.id.0@) || r.id.0@.len() == 0 {
            Some(AppErrorCode::InvalidIdentifier)
        } else {
            None
        },
{
}

/// Copying a template into a day: a template identifier that is empty or not a UUID, a
/// date that is not a canonical day, a parent that is not a UUID, a bad sibling key.
pub proof fn lemma_insert_task_template_copy_refusals(r: InsertTaskTemplateCopyRequest)
    ensures
        r.validation_error() == if not_a_uuid(r.template_id.0@) || r.template_id.0@.len() == 0 {
            Some(AppErrorCode::InvalidIdentifier)
        } else if r.date@ is None {
            Some(AppErrorCode::InvalidDate)
        } else if bad_parent(r.parent_id) {
            Some(AppErrorCode::InvalidIdentifier)
        } else if bad_key(r.sibling_key.0@) {
            Some(AppErrorCode::InvalidSiblingKey)
        } else {
            None
        },
{
}

} // verus!
