use super::{
    body_error, date_error, first_error, title_error, CivilDateInput, Validate,
    MAX_NOTE_BODY_LENGTH, MAX_NOTE_TITLE_LENGTH,
};
use crate::error::{error_for, AppError, AppErrorCode};
use vstd::prelude::*;
use vstd::string::StrSliceExecFns;
use vstd::string::StringSliceAdditionalSpecFns;
use vstd::utf8::encode_utf8;

verus! {

#[derive(Debug, PartialEq, Eq)]
pub struct PlannerLineId(pub String);

impl Clone for PlannerLineId {
    fn clone(&self) -> (copy: Self)
        ensures
            copy == *self,
    {
        PlannerLineId(self.0.clone())
    }
}

#[derive(Debug, PartialEq, Eq)]
pub struct PlannerLineTitle(pub String);

impl Clone for PlannerLineTitle {
    fn clone(&self) -> (copy: Self)
        ensures
            copy == *self,
    {
        PlannerLineTitle(self.0.clone())
    }
}

#[derive(Debug, PartialEq, Eq)]
pub struct PlannerLineDescription(pub String);

impl Clone for PlannerLineDescription {
    fn clone(&self) -> (copy: Self)
        ensures
            copy == *self,
    {
        PlannerLineDescription(self.0.clone())
    }
}

#[derive(Debug, PartialEq, Eq)]
pub struct SiblingKey(pub String);

impl Clone for SiblingKey {
    fn clone(&self) -> (copy: Self)
        ensures
            copy == *self,
    {
        SiblingKey(self.0.clone())
    }
}

#[derive(Debug, Clone, Copy, PartialEq, Eq, Structural)]
pub struct TimeOfDayMinutes(pub u16);

#[derive(Debug, Clone, PartialEq, Eq)]
pub struct TaskTemplateId(pub String);

#[derive(Debug, Clone, PartialEq, Eq)]
pub struct TaskTemplateTitle(pub String);

#[derive(Debug, Clone, PartialEq, Eq)]
pub struct TaskTemplateBody(pub String);

#[derive(Debug, Clone, PartialEq, Eq)]
pub struct CreatePlannerLineRequest {
    pub date: CivilDateInput,
    pub parent_id: Option<PlannerLineId>,
    pub sibling_key: SiblingKey,
    pub title: PlannerLineTitle,
    pub description: Option<PlannerLineDescription>,
    pub time_of_day_minutes: Option<TimeOfDayMinutes>,
}

#[derive(Debug, Clone, PartialEq, Eq)]
pub struct UpdatePlannerLineRequest {
    pub id: PlannerLineId,
    pub title: PlannerLineTitle,
    pub description: Option<PlannerLineDescription>,
    pub time_of_day_minutes: Option<TimeOfDayMinutes>,
}

#[derive(Debug, Clone, PartialEq, Eq)]
pub struct DeletePlannerLineRequest {
    pub id: PlannerLineId,
}

#[derive(Debug, Clone, PartialEq, Eq)]
pub struct MovePlannerLineRequest {
    pub id: PlannerLineId,
    pub parent_id: Option<PlannerLineId>,
    pub sibling_key: SiblingKey,
}

#[derive(Debug, Clone, PartialEq, Eq)]
pub struct SetPlannerLineCollapsedRequest {
    pub id: PlannerLineId,
    pub is_collapsed: bool,
}

#[derive(Debug, Clone, PartialEq, Eq)]
pub struct SetPlannerLineTimeRequest {
    pub id: PlannerLineId,
    pub time_of_day_minutes: Option<TimeOfDayMinutes>,
}

#[derive(Debug, PartialEq, Eq)]
pub struct PlannerLineDto {
    pub id: PlannerLineId,
    pub date: CivilDateInput,
    pub parent_id: Option<PlannerLineId>,
    pub sibling_key: SiblingKey,
    pub title: PlannerLineTitle,
    pub description: Option<PlannerLineDescription>,
    pub time_of_day_minutes: Option<TimeOfDayMinutes>,
    pub is_collapsed: bool,
}

impl Clone for PlannerLineDto {
    fn clone(&self) -> (copy: Self)
        ensures
            copy == *self,
    {
        PlannerLineDto {
            id: self.id.clone(),
            date: self.date.clone(),
            parent_id: self.parent_id.clone(),
            sibling_key: self.sibling_key.clone(),
            title: self.title.clone(),
            description: self.description.clone(),
            time_of_day_minutes: self.time_of_day_minutes,
            is_collapsed: self.is_collapsed,
        }
    }
}

#[derive(Debug, Clone, PartialEq, Eq)]
pub struct CreateTaskTemplateRequest {
    pub title: TaskTemplateTitle,
    pub body: TaskTemplateBody,
    pub time_of_day_minutes: Option<u16>,
}

#[derive(Debug, Clone, PartialEq, Eq)]
pub struct UpdateTaskTemplateRequest {
    pub id: TaskTemplateId,
    pub title: TaskTemplateTitle,
    pub body: TaskTemplateBody,
    pub time_of_day_minutes: Option<u16>,
}

#[derive(Debug, Clone, PartialEq, Eq)]
pub struct DeleteTaskTemplateRequest {
    pub id: TaskTemplateId,
}

#[derive(Debug, Clone, PartialEq, Eq)]
pub struct InsertTaskTemplateCopyRequest {
    pub template_id: TaskTemplateId,
    pub date: CivilDateInput,
    pub parent_id: Option<PlannerLineId>,
    pub sibling_key: SiblingKey,
}

#[derive(Debug, Clone, PartialEq, Eq)]
pub struct TaskTemplateDto {
    pub id: TaskTemplateId,
    pub title: TaskTemplateTitle,
    pub body: TaskTemplateBody,
    pub time_of_day_minutes: Option<TimeOfDayMinutes>,
}

// ---------------------------------------------------------------------------
// Equality of records by their contents
// ---------------------------------------------------------------------------
pub open spec fn optional_id_text(id: Option<PlannerLineId>) -> Option<Seq<char>> {
    match id {
        Some(value) => Some(value.0@),
        None => None,
    }
}

pub open spec fn optional_description_text(description: Option<PlannerLineDescription>) -> Option<
    Seq<char>,
> {
    match description {
        Some(value) => Some(value.0@),
        None => None,
    }
}

/// Two planner lines with the same contents, field by field.
pub open spec fn same_line(a: PlannerLineDto, b: PlannerLineDto) -> bool {
    &&& a.id.0@ == b.id.0@
    &&& a.date@ == b.date@
    &&& optional_id_text(a.parent_id) == optional_id_text(b.parent_id)
    &&& a.sibling_key.0@ == b.sibling_key.0@
    &&& a.title.0@ == b.title.0@
    &&& optional_description_text(a.description) == optional_description_text(b.description)
    &&& a.time_of_day_minutes == b.time_of_day_minutes
    &&& a.is_collapsed == b.is_collapsed
}

/// Two lists of planner lines with the same contents, in the same order.
pub open spec fn same_lines(a: Seq<PlannerLineDto>, b: Seq<PlannerLineDto>) -> bool {
    &&& a.len() == b.len()
    &&& forall|i: int| 0 <= i < a.len() ==> same_line(#[trigger] a[i], b[i])
}

/// Two templates with the same contents, field by field.
pub open spec fn same_template(a: TaskTemplateDto, b: TaskTemplateDto) -> bool {
    &&& a.id.0@ == b.id.0@
    &&& a.title.0@ == b.title.0@
    &&& a.body.0@ == b.body.0@
    &&& a.time_of_day_minutes == b.time_of_day_minutes
}

/// Two planner lines count as the same exactly when no field tells them apart: the same
/// identifier, day, parent (both without one, or both with the same), sibling key, title,
/// description (both without one, or both with the same), time and collapsed flag. A line
/// that came back with its collapsed flag flipped, or any other field changed, is not the
/// same line.
pub proof fn lemma_same_line_is_field_equality(a: PlannerLineDto, b: PlannerLineDto)
    ensures
        same_line(a, b) <==> {
            &&& a.id.0@ == b.id.0@
            &&& a.date@ == b.date@
            &&& match (a.parent_id, b.parent_id) {
                (Some(p), Some(q)) => p.0@ == q.0@,
                (None, None) => true,
                _ => false,
            }
            &&& a.sibling_key.0@ == b.sibling_key.0@
            &&& a.title.0@ == b.title.0@
            &&& match (a.description, b.description) {
                (Some(d), Some(e)) => d.0@ == e.0@,
                (None, None) => true,
                _ => false,
            }
            &&& a.time_of_day_minutes == b.time_of_day_minutes
            &&& a.is_collapsed == b.is_collapsed
        },
{
}

/// Two lists of planner lines count as the same exactly when they have the same length and
/// agree line by line, field by field, in order.
pub proof fn lemma_same_lines_is_pointwise(a: Seq<PlannerLineDto>, b: Seq<PlannerLineDto>)
    ensures
        same_lines(a, b) <==> (a.len() == b.len() && forall|i: int|
            0 <= i < a.len() ==> {
                &&& (#[trigger] a[i]).id.0@ == b[i].id.0@
                &&& a[i].date@ == b[i].date@
                &&& optional_id_text(a[i].parent_id) == optional_id_text(b[i].parent_id)
                &&& a[i].sibling_key.0@ == b[i].sibling_key.0@
                &&& a[i].title.0@ == b[i].title.0@
                &&& optional_description_text(a[i].description) == optional_description_text(
                    b[i].description,
                )
                &&& a[i].time_of_day_minutes == b[i].time_of_day_minutes
                &&& a[i].is_collapsed == b[i].is_collapsed
            }),
{
}

/// Two templates count as the same exactly when identifier, title, body and time agree.
pub proof fn lemma_same_template_is_field_equality(a: TaskTemplateDto, b: TaskTemplateDto)
    ensures
        same_template(a, b) <==> (a.id.0@ == b.id.0@ && a.title.0@ == b.title.0@ && a.body.0@
            == b.body.0@ && a.time_of_day_minutes == b.time_of_day_minutes),
{
}

/// The optional identifier text tells absent from present and present identifiers apart
/// by their text.
pub proof fn lemma_optional_texts_tell_apart(
    p: Option<PlannerLineId>,
    q: Option<PlannerLineId>,
    d: Option<PlannerLineDescription>,
    e: Option<PlannerLineDescription>,
)
    ensures
        optional_id_text(p) == optional_id_text(q) <==> match (p, q) {
            (Some(x), Some(y)) => x.0@ == y.0@,
            (None, None) => true,
            _ => false,
        },
        optional_description_text(d) == optional_description_text(e) <==> match (d, e) {
            (Some(x), Some(y)) => x.0@ == y.0@,
            (None, None) => true,
            _ => false,
        },
{
}

// ---------------------------------------------------------------------------
// Identifiers: the texts that the uuid crate parses
// ---------------------------------------------------------------------------
pub open spec fn is_hex_byte(byte: u8) -> bool {
    (48 <= byte <= 57) || (97 <= byte <= 102) || (65 <= byte <= 70)
}

/// `xxxxxxxx-xxxx-xxxx-xxxx-xxxxxxxxxxxx` with hexadecimal digits of either case.
pub open spec fn is_hyphenated_uuid(bytes: Seq<u8>) -> bool {
    &&& bytes.len() == 36
    &&& forall|i: int|
        0 <= i < 36 ==> if i == 8 || i == 13 || i == 18 || i == 23 {
            #[trigger] bytes[i] == 45
        } else {
            is_hex_byte(bytes[i])
        }
}

/// Thirty-two hexadecimal digits.
pub open spec fn is_simple_uuid(bytes: Seq<u8>) -> bool {
    bytes.len() == 32 && forall|i: int| 0 <= i < 32 ==> is_hex_byte(#[trigger] bytes[i])
}

pub open spec fn ascii_lowercase(byte: u8) -> u8 {
    if 65 <= byte <= 90 {
        (byte + 32) as u8
    } else {
        byte
    }
}

/// The bytes of `urn:uuid:`.
pub open spec fn urn_prefix() -> Seq<u8> {
    seq![117u8, 114u8, 110u8, 58u8, 117u8, 117u8, 105u8, 100u8, 58u8]
}

/// The UUID spellings that `uuid::Uuid::parse_str` accepts: simple, hyphenated, braced
/// `{...}` hyphenated, and `urn:uuid:` (in any case) followed by a hyphenated one.
pub open spec fn is_uuid_text(bytes: Seq<u8>) -> bool {
    ||| is_simple_uuid(bytes)
    ||| is_hyphenated_uuid(bytes)
    ||| (bytes.len() == 38 && bytes[0] == 123 && bytes[37] == 125 && is_hyphenated_uuid(
        bytes.subrange(1, 37),
    ))
    ||| (bytes.len() == 45 && bytes.subrange(0, 9).map_values(|b: u8| ascii_lowercase(b))
        == urn_prefix() && is_hyphenated_uuid(bytes.subrange(9, 45)))
}

/// Calls `uuid::Uuid::parse_str` and reports whether it accepted the text. The contract
/// restates the four spellings that the crate's parser accepts (by length: 32 simple,
/// 36 hyphenated, 38 braced, 45 URN).
#[verifier::external_body]
fn uuid_parses(value: &str) -> (ok: bool)
    ensures
        ok == is_uuid_text(value.spec_bytes()),
{
    uuid::Uuid::parse_str(value).is_ok()
}

/// The refusal for a record identifier that is not a UUID (an empty template identifier
/// is refused as well).
pub open spec fn id_error(value: Seq<char>, template: bool) -> Option<AppErrorCode> {
    if !is_uuid_text(encode_utf8(value)) || (template && value.len() == 0) {
        Some(AppErrorCode::InvalidIdentifier)
    } else {
        None
    }
}

pub open spec fn is_ascii_alphanumeric_byte(byte: u8) -> bool {
    (48 <= byte <= 57) || (65 <= byte <= 90) || (97 <= byte <= 122)
}

/// The refusal for a sibling key: it must be non-empty and made of ASCII letters and
/// digits only.
pub open spec fn sibling_key_error(key: Seq<char>) -> Option<AppErrorCode> {
    if key.len() == 0 || !(forall|i: int|
        0 <= i < encode_utf8(key).len() ==> is_ascii_alphanumeric_byte(
            #[trigger] encode_utf8(key)[i],
        )) {
        Some(AppErrorCode::InvalidSiblingKey)
    } else {
        None
    }
}

/// The refusal for a local time: 1440 minutes or more.
pub open spec fn time_error(minutes: Option<TimeOfDayMinutes>) -> Option<AppErrorCode> {
    match minutes {
        Some(value) => if value.0 >= 1440 {
            Some(AppErrorCode::InvalidTimeOfDay)
        } else {
            None
        },
        None => None,
    }
}

/// The refusal for a title and an optional body, checked in that order.
pub open spec fn text_error(title: Seq<char>, body: Seq<char>) -> Option<AppErrorCode> {
    first_error(title_error(title), body_error(body))
}

pub open spec fn optional_text(value: Option<PlannerLineDescription>) -> Seq<char> {
    match value {
        Some(description) => description.0@,
        None => Seq::empty(),
    }
}

pub open spec fn optional_id_error(value: Option<PlannerLineId>) -> Option<AppErrorCode> {
    match value {
        Some(id) => id_error(id.0@, false),
        None => None,
    }
}

pub open spec fn template_time(value: Option<u16>) -> Option<TimeOfDayMinutes> {
    match value {
        Some(minutes) => Some(TimeOfDayMinutes(minutes)),
        None => None,
    }
}

pub fn validate_id(value: &str, template: bool) -> (result: Result<(), AppError>)
    ensures
        result is Ok <==> id_error(value@, template) is None,
        result matches Err(e) ==> e == error_for(AppErrorCode::InvalidIdentifier),
{
    if !uuid_parses(value) || (template && value.is_empty()) {
        Err(AppError::invalid_identifier())
    } else {
        Ok(())
    }
}

pub fn validate_sibling_key(value: &str) -> (result: Result<(), AppError>)
    ensures
        result is Ok <==> sibling_key_error(value@) is None,
        result matches Err(e) ==> e == error_for(AppErrorCode::InvalidSiblingKey),
{
    if value.is_empty() {
        return Err(AppError::invalid_sibling_key());
    }
    let bytes = value.as_bytes();
    let mut i: usize = 0;
    while i < bytes.len()
        invariant
            bytes@ == encode_utf8(value@),
            i <= bytes@.len(),
            forall|j: int| 0 <= j < i ==> is_ascii_alphanumeric_byte(#[trigger] bytes@[j]),
        decreases bytes@.len() - i,
    {
        let byte = bytes[i];
        if !((48 <= byte && byte <= 57) || (65 <= byte && byte <= 90) || (97 <= byte && byte
            <= 122)) {
            return Err(AppError::invalid_sibling_key());
        }
        i = i + 1;
    }
    Ok(())
}

pub fn validate_time(value: Option<TimeOfDayMinutes>) -> (result: Result<(), AppError>)
    ensures
        result is Ok <==> time_error(value) is None,
        result matches Err(e) ==> e == error_for(AppErrorCode::InvalidTimeOfDay),
{
    match value {
        Some(minutes) if minutes.0 >= 1440 => Err(AppError::invalid_time_of_day()),
        _ => Ok(()),
    }
}

pub fn validate_text(title: &str, body: &str) -> (result: Result<(), AppError>)
    ensures
        result is Ok <==> text_error(title@, body@) is None,
        result matches Err(e) ==> text_error(title@, body@) == Some(e.code) && e == error_for(
            e.code,
        ),
{
    if title.unicode_len() > MAX_NOTE_TITLE_LENGTH {
        return Err(AppError::title_too_long());
    }
    if body.unicode_len() > MAX_NOTE_BODY_LENGTH {
        return Err(AppError::body_too_long());
    }
    Ok(())
}

fn validate_optional_id(value: &Option<PlannerLineId>) -> (result: Result<(), AppError>)
    ensures
        result is Ok <==> optional_id_error(*value) is None,
        result matches Err(e) ==> e == error_for(AppErrorCode::InvalidIdentifier),
{
    match value {
        Some(parent) => validate_id(parent.0.as_str(), false),
        None => Ok(()),
    }
}

fn description_text(value: &Option<PlannerLineDescription>) -> (text: &str)
    ensures
        text@ == optional_text(*value),
{
    match value {
        Some(description) => description.0.as_str(),
        None => {
            proof {
                reveal_strlit("");
            }
            ""
        },
    }
}

fn template_minutes(value: Option<u16>) -> (minutes: Option<TimeOfDayMinutes>)
    ensures
        minutes == template_time(value),
{
    match value {
        Some(minutes) => Some(TimeOfDayMinutes(minutes)),
        None => None,
    }
}

impl Validate for CreatePlannerLineRequest {
    open spec fn validation_error(&self) -> Option<AppErrorCode> {
        first_error(
            date_error(self.date),
            first_error(
                optional_id_error(self.parent_id),
                first_error(
                    sibling_key_error(self.sibling_key.0@),
                    first_error(
                        text_error(self.title.0@, optional_text(self.description)),
                        time_error(self.time_of_day_minutes),
                    ),
                ),
            ),
        )
    }

    fn validate(&self) -> (result: Result<(), AppError>) {
        self.date.as_str()?;
        validate_optional_id(&self.parent_id)?;
        validate_sibling_key(self.sibling_key.0.as_str())?;
        validate_text(self.title.0.as_str(), description_text(&self.description))?;
        validate_time(self.time_of_day_minutes)
    }
}

impl Validate for UpdatePlannerLineRequest {
    open spec fn validation_error(&self) -> Option<AppErrorCode> {
        first_error(
            id_error(self.id.0@, false),
            first_error(
                text_error(self.title.0@, optional_text(self.description)),
                time_error(self.time_of_day_minutes),
            ),
        )
    }

    fn validate(&self) -> (result: Result<(), AppError>) {
        validate_id(self.id.0.as_str(), false)?;
        validate_text(self.title.0.as_str(), description_text(&self.description))?;
        validate_time(self.time_of_day_minutes)
    }
}

impl Validate for DeletePlannerLineRequest {
    open spec fn validation_error(&self) -> Option<AppErrorCode> {
        id_error(self.id.0@, false)
    }

    fn validate(&self) -> (result: Result<(), AppError>) {
        validate_id(self.id.0.as_str(), false)
    }
}

impl Validate for MovePlannerLineRequest {
    open spec fn validation_error(&self) -> Option<AppErrorCode> {
        first_error(
            id_error(self.id.0@, false),
            first_error(
                optional_id_error(self.parent_id),
                sibling_key_error(self.sibling_key.0@),
            ),
        )
    }

    fn validate(&self) -> (result: Result<(), AppError>) {
        validate_id(self.id.0.as_str(), false)?;
        validate_optional_id(&self.parent_id)?;
        validate_sibling_key(self.sibling_key.0.as_str())
    }
}

impl Validate for SetPlannerLineCollapsedRequest {
    open spec fn validation_error(&self) -> Option<AppErrorCode> {
        id_error(self.id.0@, false)
    }

    fn validate(&self) -> (result: Result<(), AppError>) {
        validate_id(self.id.0.as_str(), false)
    }
}

impl Validate for SetPlannerLineTimeRequest {
    open spec fn validation_error(&self) -> Option<AppErrorCode> {
        first_error(id_error(self.id.0@, false), time_error(self.time_of_day_minutes))
    }

    fn validate(&self) -> (result: Result<(), AppError>) {
        validate_id(self.id.0.as_str(), false)?;
        validate_time(self.time_of_day_minutes)
    }
}

impl Validate for CreateTaskTemplateRequest {
    open spec fn validation_error(&self) -> Option<AppErrorCode> {
        first_error(
            text_error(self.title.0@, self.body.0@),
            time_error(template_time(self.time_of_day_minutes)),
        )
    }

    fn validate(&self) -> (result: Result<(), AppError>) {
        validate_text(self.title.0.as_str(), self.body.0.as_str())?;
        validate_time(template_minutes(self.time_of_day_minutes))
    }
}

impl Validate for UpdateTaskTemplateRequest {
    open spec fn validation_error(&self) -> Option<AppErrorCode> {
        first_error(
            id_error(self.id.0@, true),
            first_error(
                text_error(self.title.0@, self.body.0@),
                time_error(template_time(self.time_of_day_minutes)),
            ),
        )
    }

    fn validate(&self) -> (result: Result<(), AppError>) {
        validate_id(self.id.0.as_str(), true)?;
        validate_text(self.title.0.as_str(), self.body.0.as_str())?;
        validate_time(template_minutes(self.time_of_day_minutes))
    }
}

impl Validate for DeleteTaskTemplateRequest {
    open spec fn validation_error(&self) -> Option<AppErrorCode> {
        id_error(self.id.0@, true)
    }

    fn validate(&self) -> (result: Result<(), AppError>) {
        validate_id(self.id.0.as_str(), true)
    }
}

impl Validate for InsertTaskTemplateCopyRequest {
    open spec fn validation_error(&self) -> Option<AppErrorCode> {
        first_error(
            id_error(self.template_id.0@, true),
            first_error(
                date_error(self.date),
                first_error(
                    optional_id_error(self.parent_id),
                    sibling_key_error(self.sibling_key.0@),
                ),
            ),
        )
    }

    fn validate(&self) -> (result: Result<(), AppError>) {
        validate_id(self.template_id.0.as_str(), true)?;
        self.date.as_str()?;
        validate_optional_id(&self.parent_id)?;
        validate_sibling_key(self.sibling_key.0.as_str())
    }
}

} // verus!
