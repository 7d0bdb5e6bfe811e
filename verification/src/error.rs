use vstd::prelude::*;

verus! {

/// The stable, machine-readable reason attached to every error that crosses the
/// command boundary.
#[derive(Debug, Clone, Copy, PartialEq, Eq, Structural)]
pub enum AppErrorCode {
    InvalidPayload,
    InvalidDate,
    TitleTooLong,
    BodyTooLong,
    FeatureUnavailable,
    StorageOpenFailed,
    StorageMigrationFailed,
    StorageReadFailed,
    StorageWriteFailed,
    StorageNotFound,
    InvalidIdentifier,
    InvalidSiblingKey,
    InvalidPlannerLineParent,
    InvalidTimeOfDay,
}

/// An error returned to the frontend: a stable code and a fixed, human-readable message.
#[derive(Debug, Clone, PartialEq, Eq)]
pub struct AppError {
    pub code: AppErrorCode,
    pub message: &'static str,
}

/// The snake_case name under which a code is reported to the frontend.
pub open spec fn code_name(code: AppErrorCode) -> &'static str {
    match code {
        AppErrorCode::InvalidPayload => "invalid_payload",
        AppErrorCode::InvalidDate => "invalid_date",
        AppErrorCode::TitleTooLong => "title_too_long",
        AppErrorCode::BodyTooLong => "body_too_long",
        AppErrorCode::FeatureUnavailable => "feature_unavailable",
        AppErrorCode::StorageOpenFailed => "storage_open_failed",
        AppErrorCode::StorageMigrationFailed => "storage_migration_failed",
        AppErrorCode::StorageReadFailed => "storage_read_failed",
        AppErrorCode::StorageWriteFailed => "storage_write_failed",
        AppErrorCode::StorageNotFound => "storage_not_found",
        AppErrorCode::InvalidIdentifier => "invalid_identifier",
        AppErrorCode::InvalidSiblingKey => "invalid_sibling_key",
        AppErrorCode::InvalidPlannerLineParent => "invalid_planner_line_parent",
        AppErrorCode::InvalidTimeOfDay => "invalid_time_of_day",
    }
}

/// The fixed message that accompanies each code.
pub open spec fn code_message(code: AppErrorCode) -> &'static str {
    match code {
        AppErrorCode::InvalidPayload => "The command payload is invalid.",
        AppErrorCode::InvalidDate => "The date must be a valid YYYY-MM-DD calendar date.",
        AppErrorCode::TitleTooLong => "The note title exceeds the supported length.",
        AppErrorCode::BodyTooLong => "The note body exceeds the supported length.",
        AppErrorCode::FeatureUnavailable =>
            "This command is not available until its storage workflow is installed.",
        AppErrorCode::StorageOpenFailed => "Local storage could not be opened.",
        AppErrorCode::StorageMigrationFailed =>
            "Local storage could not be migrated without preserving its data.",
        AppErrorCode::StorageReadFailed => "Local storage could not be read.",
        AppErrorCode::StorageWriteFailed => "Local storage could not be updated.",
        AppErrorCode::StorageNotFound => "The requested local storage record no longer exists.",
        AppErrorCode::InvalidIdentifier => "The record identifier must be a UUID.",
        AppErrorCode::InvalidSiblingKey => "The sibling ordering key is invalid.",
        AppErrorCode::InvalidPlannerLineParent =>
            "The planner line parent must be on the same day and outside the line subtree.",
        AppErrorCode::InvalidTimeOfDay => "The local time must be between 0 and 1439 minutes.",
    }
}

/// The one error value that carries `code`.
pub open spec fn error_for(code: AppErrorCode) -> AppError {
    AppError { code, message: code_message(code) }
}

impl AppErrorCode {
    /// The snake_case name of the code, as the frontend sees it.
    pub fn as_str(&self) -> (name: &'static str)
        ensures
            name == code_name(*self),
    {
        match self {
            AppErrorCode::InvalidPayload => "invalid_payload",
            AppErrorCode::InvalidDate => "invalid_date",
            AppErrorCode::TitleTooLong => "title_too_long",
            AppErrorCode::BodyTooLong => "body_too_long",
            AppErrorCode::FeatureUnavailable => "feature_unavailable",
            AppErrorCode::StorageOpenFailed => "storage_open_failed",
            AppErrorCode::StorageMigrationFailed => "storage_migration_failed",
            AppErrorCode::StorageReadFailed => "storage_read_failed",
            AppErrorCode::StorageWriteFailed => "storage_write_failed",
            AppErrorCode::StorageNotFound => "storage_not_found",
            AppErrorCode::InvalidIdentifier => "invalid_identifier",
            AppErrorCode::InvalidSiblingKey => "invalid_sibling_key",
            AppErrorCode::InvalidPlannerLineParent => "invalid_planner_line_parent",
            AppErrorCode::InvalidTimeOfDay => "invalid_time_of_day",
        }
    }
}

impl AppError {
    pub fn invalid_payload() -> (e: Self)
        ensures
            e == error_for(AppErrorCode::InvalidPayload),
    {
        Self { code: AppErrorCode::InvalidPayload, message: "The command payload is invalid." }
    }

    pub fn invalid_date() -> (e: Self)
        ensures
            e == error_for(AppErrorCode::InvalidDate),
    {
        Self {
            code: AppErrorCode::InvalidDate,
            message: "The date must be a valid YYYY-MM-DD calendar date.",
        }
    }

    pub fn title_too_long() -> (e: Self)
        ensures
            e == error_for(AppErrorCode::TitleTooLong),
    {
        Self {
            code: AppErrorCode::TitleTooLong,
            message: "The note title exceeds the supported length.",
        }
    }

    pub fn body_too_long() -> (e: Self)
        ensures
            e == error_for(AppErrorCode::BodyTooLong),
    {
        Self {
            code: AppErrorCode::BodyTooLong,
            message: "The note body exceeds the supported length.",
        }
    }

    pub fn feature_unavailable() -> (e: Self)
        ensures
            e == error_for(AppErrorCode::FeatureUnavailable),
    {
        Self {
            code: AppErrorCode::FeatureUnavailable,
            message: "This command is not available until its storage workflow is installed.",
        }
    }

    pub fn storage_open_failed() -> (e: Self)
        ensures
            e == error_for(AppErrorCode::StorageOpenFailed),
    {
        Self {
            code: AppErrorCode::StorageOpenFailed,
            message: "Local storage could not be opened.",
        }
    }

    pub fn storage_migration_failed() -> (e: Self)
        ensures
            e == error_for(AppErrorCode::StorageMigrationFailed),
    {
        Self {
            code: AppErrorCode::StorageMigrationFailed,
            message: "Local storage could not be migrated without preserving its data.",
        }
    }

    pub fn storage_read_failed() -> (e: Self)
        ensures
            e == error_for(AppErrorCode::StorageReadFailed),
    {
        Self { code: AppErrorCode::StorageReadFailed, message: "Local storage could not be read." }
    }

    pub fn storage_write_failed() -> (e: Self)
        ensures
            e == error_for(AppErrorCode::StorageWriteFailed),
    {
        Self {
            code: AppErrorCode::StorageWriteFailed,
            message: "Local storage could not be updated.",
        }
    }

    pub fn storage_not_found() -> (e: Self)
        ensures
            e == error_for(AppErrorCode::StorageNotFound),
    {
        Self {
            code: AppErrorCode::StorageNotFound,
            message: "The requested local storage record no longer exists.",
        }
    }

    pub fn invalid_identifier() -> (e: Self)
        ensures
            e == error_for(AppErrorCode::InvalidIdentifier),
    {
        Self {
            code: AppErrorCode::InvalidIdentifier,
            message: "The record identifier must be a UUID.",
        }
    }

    pub fn invalid_sibling_key() -> (e: Self)
        ensures
            e == error_for(AppErrorCode::InvalidSiblingKey),
    {
        Self {
            code: AppErrorCode::InvalidSiblingKey,
            message: "The sibling ordering key is invalid.",
        }
    }

    pub fn invalid_planner_line_parent() -> (e: Self)
        ensures
            e == error_for(AppErrorCode::InvalidPlannerLineParent),
    {
        Self {
            code: AppErrorCode::InvalidPlannerLineParent,
            message: "The planner line parent must be on the same day and outside the line subtree.",
        }
    }

    pub fn invalid_time_of_day() -> (e: Self)
        ensures
            e == error_for(AppErrorCode::InvalidTimeOfDay),
    {
        Self {
            code: AppErrorCode::InvalidTimeOfDay,
            message: "The local time must be between 0 and 1439 minutes.",
        }
    }

    /// The error as it is displayed: `"<code>: <message>"`.
    pub fn to_display_string(&self) -> (text: String)
        ensures
            text@ == code_name(self.code)@ + ": "@ + self.message@,
    {
        let mut text = String::from_str(self.code.as_str());
        text.append(": ");
        text.append(self.message);
        text
    }
}

} // verus!
