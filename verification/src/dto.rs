use crate::civil_date::{is_canonical_date_text, next_date, text_date, CivilDate};
use crate::error::{error_for, AppError, AppErrorCode};
use vstd::prelude::*;
use vstd::string::StrSliceExecFns;

mod outline;
pub mod validation_laws;
pub use outline::{
    PlannerLineId, PlannerLineTitle, PlannerLineDescription, SiblingKey, TimeOfDayMinutes, TaskTemplateId, TaskTemplateTitle, TaskTemplateBody, CreatePlannerLineRequest, UpdatePlannerLineRequest, DeletePlannerLineRequest, MovePlannerLineRequest, SetPlannerLineCollapsedRequest, SetPlannerLineTimeRequest, PlannerLineDto, CreateTaskTemplateRequest, UpdateTaskTemplateRequest, DeleteTaskTemplateRequest, InsertTaskTemplateCopyRequest, TaskTemplateDto, optional_id_text, optional_description_text, same_line, same_lines, same_template, is_hex_byte, is_hyphenated_uuid, is_simple_uuid, ascii_lowercase, urn_prefix, is_uuid_text, id_error, is_ascii_alphanumeric_byte, sibling_key_error, time_error, text_error, optional_text, optional_id_error, template_time, validate_id, validate_sibling_key, validate_time, validate_text,
};

verus! {

pub const MAX_NOTE_TITLE_LENGTH: usize = 200;

pub const MAX_NOTE_BODY_LENGTH: usize = 10_000;

/// A date as it arrives from the frontend: either a canonical civil date or a text that
/// is not one (kept so that the refusal can carry the date error).
#[derive(Debug, PartialEq, Eq)]
pub enum CivilDateInput {
    Valid(CivilDate),
    Invalid,
}

#[derive(Debug, Clone, PartialEq, Eq)]
pub struct NoteId(pub String);

#[derive(Debug, Clone, PartialEq, Eq)]
pub struct NoteTitle(pub String);

#[derive(Debug, Clone, PartialEq, Eq)]
pub struct NoteBody(pub String);

#[derive(Debug, Clone, PartialEq, Eq)]
pub struct GetDailyPageRequest {
    pub date: CivilDateInput,
}

#[derive(Debug, Clone, PartialEq, Eq)]
pub struct SaveDailyPageRequest {
    pub date: CivilDateInput,
    pub content: String,
}

#[derive(Debug, Clone, PartialEq, Eq)]
pub struct CreateNoteRequest {
    pub title: NoteTitle,
    pub body: NoteBody,
}

#[derive(Debug, Clone, PartialEq, Eq)]
pub struct UpdateNoteRequest {
    pub id: NoteId,
    pub title: NoteTitle,
    pub body: NoteBody,
}

#[derive(Debug, Clone, PartialEq, Eq)]
pub struct DeleteNoteRequest {
    pub id: NoteId,
}

#[derive(Debug, Clone, PartialEq, Eq)]
pub struct DailyPageDto {
    pub date: CivilDateInput,
    pub content: String,
    pub created_at_ms: i64,
    pub updated_at_ms: i64,
}

#[derive(Debug, Clone, PartialEq, Eq)]
pub struct NoteDto {
    pub id: NoteId,
    pub title: NoteTitle,
    pub body: NoteBody,
}

// ---------------------------------------------------------------------------
// Validation
// ---------------------------------------------------------------------------
/// The first refusal of two checks made in order.
pub open spec fn first_error(
    first: Option<AppErrorCode>,
    second: Option<AppErrorCode>,
) -> Option<AppErrorCode> {
    if first is Some {
        first
    } else {
        second
    }
}

/// A request whose fields are checked before any storage work.
pub trait Validate {
    /// The refusal that the request earns, or `None` when it is acceptable.
    spec fn validation_error(&self) -> Option<AppErrorCode>;

    fn validate(&self) -> (result: Result<(), AppError>)
        ensures
            result is Ok <==> self.validation_error() is None,
            result matches Err(e) ==> self.validation_error() == Some(e.code) && e == error_for(
                e.code,
            ),
    ;
}

/// The refusal for a date: only a canonical civil date passes.
pub open spec fn date_error(date: CivilDateInput) -> Option<AppErrorCode> {
    match date {
        CivilDateInput::Valid(_) => None,
        CivilDateInput::Invalid => Some(AppErrorCode::InvalidDate),
    }
}

/// The refusal for a note title: more than 200 characters.
pub open spec fn title_error(title: Seq<char>) -> Option<AppErrorCode> {
    if title.len() > MAX_NOTE_TITLE_LENGTH {
        Some(AppErrorCode::TitleTooLong)
    } else {
        None
    }
}

/// The refusal for a note body or page: more than 10 000 characters.
pub open spec fn body_error(body: Seq<char>) -> Option<AppErrorCode> {
    if body.len() > MAX_NOTE_BODY_LENGTH {
        Some(AppErrorCode::BodyTooLong)
    } else {
        None
    }
}

impl Validate for GetDailyPageRequest {
    open spec fn validation_error(&self) -> Option<AppErrorCode> {
        date_error(self.date)
    }

    fn validate(&self) -> (result: Result<(), AppError>) {
        self.date.validate()
    }
}

impl Validate for SaveDailyPageRequest {
    open spec fn validation_error(&self) -> Option<AppErrorCode> {
        first_error(date_error(self.date), body_error(self.content@))
    }

    fn validate(&self) -> (result: Result<(), AppError>) {
        self.date.validate()?;
        if self.content.as_str().unicode_len() > MAX_NOTE_BODY_LENGTH {
            return Err(AppError::body_too_long());
        }
        Ok(())
    }
}

impl Validate for CreateNoteRequest {
    open spec fn validation_error(&self) -> Option<AppErrorCode> {
        first_error(title_error(self.title.0@), body_error(self.body.0@))
    }

    fn validate(&self) -> (result: Result<(), AppError>) {
        self.title.validate()?;
        self.body.validate()
    }
}

impl Validate for UpdateNoteRequest {
    open spec fn validation_error(&self) -> Option<AppErrorCode> {
        first_error(title_error(self.title.0@), body_error(self.body.0@))
    }

    fn validate(&self) -> (result: Result<(), AppError>) {
        self.title.validate()?;
        self.body.validate()
    }
}

impl Validate for DeleteNoteRequest {
    open spec fn validation_error(&self) -> Option<AppErrorCode> {
        None
    }

    fn validate(&self) -> (result: Result<(), AppError>) {
        Ok(())
    }
}

// ---------------------------------------------------------------------------
// CivilDateInput
// ---------------------------------------------------------------------------
impl View for CivilDateInput {
    /// The canonical text of a valid date; `None` for an invalid one.
    type V = Option<Seq<char>>;

    open spec fn view(&self) -> Option<Seq<char>> {
        match self {
            CivilDateInput::Valid(date) => Some(date@),
            CivilDateInput::Invalid => None,
        }
    }
}

impl Clone for CivilDateInput {
    fn clone(&self) -> (copy: Self)
        ensures
            copy == *self,
    {
        match self {
            CivilDateInput::Valid(date) => CivilDateInput::Valid(date.clone()),
            CivilDateInput::Invalid => CivilDateInput::Invalid,
        }
    }
}

/// The date `count` calendar days after `(year, month, day)`.
pub open spec fn date_after_days(year: int, month: int, day: int, count: nat) -> (int, int, int)
    decreases count,
{
    if count == 0 {
        (year, month, day)
    } else {
        let before = date_after_days(year, month, day, (count - 1) as nat);
        next_date(before.0, before.1, before.2)
    }
}

/// Stepping `count` days forward from the date passes no last day of year 9999.
pub open spec fn stays_within_four_digit_years(date: (int, int, int), count: nat) -> bool {
    forall|k: nat|
        k < count ==> #[trigger] date_after_days(date.0, date.1, date.2, k) != (
            9999int,
            12int,
            31int,
        )
}

/// Counting days composes: `a` days and then `b` more land on the same day as `a + b`
/// days.
pub proof fn lemma_date_after_days_adds(year: int, month: int, day: int, a: nat, b: nat)
    ensures
        date_after_days(year, month, day, a + b) == date_after_days(
            date_after_days(year, month, day, a).0,
            date_after_days(year, month, day, a).1,
            date_after_days(year, month, day, a).2,
            b,
        ),
    decreases b,
{
    if b > 0 {
        lemma_date_after_days_adds(year, month, day, a, (b - 1) as nat);
        assert((a + b - 1) as nat == a + (b - 1) as nat);
    }
}

/// Adding days twice is adding their sum. Stepping `a + b` days from a date stays within
/// four-digit years exactly when stepping `a` days does and stepping `b` more from there
/// does; and then both ways reach the same day. With the contract of `add_days`, for a
/// valid input, `x.add_days(a)` followed by `add_days(b)` succeeds exactly when
/// `x.add_days(a + b)` does, and gives the same day.
pub proof fn lemma_add_days_composes(date: (int, int, int), a: nat, b: nat)
    ensures
        ({
            let middle = date_after_days(date.0, date.1, date.2, a);
            &&& date_after_days(date.0, date.1, date.2, a + b) == date_after_days(
                middle.0,
                middle.1,
                middle.2,
                b,
            )
            &&& stays_within_four_digit_years(date, a + b) == (stays_within_four_digit_years(
                date,
                a,
            ) && stays_within_four_digit_years(middle, b))
        }),
{
    let middle = date_after_days(date.0, date.1, date.2, a);
    lemma_date_after_days_adds(date.0, date.1, date.2, a, b);
    assert forall|j: nat| j < b implies #[trigger] date_after_days(middle.0, middle.1, middle.2, j)
        == date_after_days(date.0, date.1, date.2, a + j) by {
        lemma_date_after_days_adds(date.0, date.1, date.2, a, j);
    }
    if stays_within_four_digit_years(date, a + b) {
        assert forall|k: nat| k < a implies #[trigger] date_after_days(date.0, date.1, date.2, k)
            != (9999int, 12int, 31int) by {
            assert(k < a + b);
        }
        assert forall|j: nat| j < b implies #[trigger] date_after_days(
            middle.0,
            middle.1,
            middle.2,
            j,
        ) != (9999int, 12int, 31int) by {
            assert(a + j < a + b);
            assert(date_after_days(date.0, date.1, date.2, (a + j) as nat) != (9999int, 12int, 31int));
        }
    }
    if stays_within_four_digit_years(date, a) && stays_within_four_digit_years(middle, b) {
        assert forall|k: nat| k < a + b implies #[trigger] date_after_days(
            date.0,
            date.1,
            date.2,
            k,
        ) != (9999int, 12int, 31int) by {
            if k >= a {
                let j = (k - a) as nat;
                assert(date_after_days(middle.0, middle.1, middle.2, j) != (9999int, 12int, 31int));
                assert(k == a + j);
            }
        }
    }
}

impl CivilDateInput {
    /// A valid input for a canonical date text; any other text is refused.
    pub fn parse(value: &str) -> (result: Result<Self, AppError>)
        ensures
            result is Ok <==> is_canonical_date_text(value@),
            result matches Ok(date) ==> date@ == Some(value@),
            result matches Err(e) ==> e == error_for(AppErrorCode::InvalidDate),
    {
        match CivilDate::parse(value) {
            Ok(date) => Ok(CivilDateInput::Valid(date)),
            Err(error) => Err(error),
        }
    }

    /// The input that a date text in a payload decodes to: valid when the text is a
    /// canonical civil date, invalid otherwise (the refusal comes with validation).
    pub fn from_payload_text(value: &str) -> (input: Self)
        ensures
            is_canonical_date_text(value@) ==> input@ == Some(value@),
            !is_canonical_date_text(value@) ==> input@ is None,
    {
        match CivilDate::parse(value) {
            Ok(date) => CivilDateInput::Valid(date),
            Err(_) => CivilDateInput::Invalid,
        }
    }

    /// The canonical text of a valid date; an invalid date is refused.
    pub fn as_str(&self) -> (result: Result<&str, AppError>)
        ensures
            result is Ok <==> self@ is Some,
            result matches Ok(text) ==> self@ == Some(text@),
            result matches Err(e) ==> e == error_for(AppErrorCode::InvalidDate),
    {
        match self {
            CivilDateInput::Valid(date) => Ok(date.as_str()),
            CivilDateInput::Invalid => Err(AppError::invalid_date()),
        }
    }

    fn validate(&self) -> (result: Result<(), AppError>)
        ensures
            result is Ok <==> date_error(*self) is None,
            result matches Err(e) ==> e == error_for(AppErrorCode::InvalidDate),
    {
        match self.as_str() {
            Ok(_) => Ok(()),
            Err(error) => Err(error),
        }
    }

    /// The date `days` calendar days later. An invalid input stays invalid when no day is
    /// added and is refused otherwise; stepping past 9999-12-31 is refused.
    pub fn add_days(&self, days: u16) -> (result: Result<Self, AppError>)
        ensures
            self@ is None ==> (result is Ok <==> days == 0),
            self@ is None && days == 0 ==> (result matches Ok(d) && d@ is None),
            self@ matches Some(text) ==> (result is Ok <==> stays_within_four_digit_years(
                text_date(text),
                days as nat,
            )),
            self@ matches Some(text) ==> (result matches Ok(d) ==> d@ matches Some(t)
                && is_canonical_date_text(t) && text_date(t) == date_after_days(
                text_date(text).0,
                text_date(text).1,
                text_date(text).2,
                days as nat,
            )),
            result matches Err(e) ==> e == error_for(AppErrorCode::InvalidDate),
    {
        let mut date = self.clone();
        let mut step: u16 = 0;
        if days > 0 {
            if let CivilDateInput::Invalid = self {
                return Err(AppError::invalid_date());
            }
        }
        let ghost start = self@;
        if let CivilDateInput::Valid(first) = self {
            first.lemma_canonical();
        }
        while step < days
            invariant
                step <= days,
                days > 0 ==> start is Some,
                start == self@,
                start is None ==> date@ is None,
                start matches Some(text) ==> is_canonical_date_text(text),
                start matches Some(text) ==> (date@ matches Some(t) && is_canonical_date_text(t)
                    && text_date(t) == date_after_days(
                    text_date(text).0,
                    text_date(text).1,
                    text_date(text).2,
                    step as nat,
                )),
                start matches Some(text) ==> stays_within_four_digit_years(
                    text_date(text),
                    step as nat,
                ),
            decreases days - step,
        {
            let current = match date {
                CivilDateInput::Valid(value) => value,
                CivilDateInput::Invalid => return Err(AppError::invalid_date()),
            };
            match current.next_day() {
                Ok(next) => {
                    proof {
                        let text = start->0;
                        let base = text_date(text);
                        assert forall|k: nat| k < (step + 1) as nat implies #[trigger] date_after_days(
                            base.0,
                            base.1,
                            base.2,
                            k,
                        ) != (9999int, 12int, 31int) by {
                            if k < step as nat {
                                assert(date_after_days(base.0, base.1, base.2, k) != (
                                    9999int,
                                    12int,
                                    31int,
                                ));
                            }
                        }
                    }
                    date = CivilDateInput::Valid(next);
                },
                Err(error) => {
                    proof {
                        let text = start->0;
                        let base = text_date(text);
                        assert(date_after_days(base.0, base.1, base.2, step as nat) == (
                            9999int,
                            12int,
                            31int,
                        ));
                        assert(!stays_within_four_digit_years(base, days as nat));
                    }
                    return Err(error);
                },
            }
            step = step + 1;
        }
        Ok(date)
    }
}

impl NoteTitle {
    fn validate(&self) -> (result: Result<(), AppError>)
        ensures
            result is Ok <==> title_error(self.0@) is None,
            result matches Err(e) ==> e == error_for(AppErrorCode::TitleTooLong),
    {
        if self.0.as_str().unicode_len() > MAX_NOTE_TITLE_LENGTH {
            return Err(AppError::title_too_long());
        }
        Ok(())
    }
}

impl NoteBody {
    fn validate(&self) -> (result: Result<(), AppError>)
        ensures
            result is Ok <==> body_error(self.0@) is None,
            result matches Err(e) ==> e == error_for(AppErrorCode::BodyTooLong),
    {
        if self.0.as_str().unicode_len() > MAX_NOTE_BODY_LENGTH {
            return Err(AppError::body_too_long());
        }
        Ok(())
    }
}

} // verus!
