//! A local notes and day planner: civil dates, notes, planner outlines and task templates,
//! with the checks that guard them and the decisions of their storage.
use vstd::prelude::*;

pub mod civil_date;
pub mod dto;
pub mod error;
pub mod ipc;
pub mod outline;
pub mod storage;

verus! {

/// The event that tells the frontend the local day may have changed.
pub const LOCAL_TODAY_CHANGED_EVENT: &'static str = "planner://local-today-changed";

/// The line that a successful packaged self-test prints.
pub const PACKAGE_SELF_TEST_SUCCESS_LOG: &'static str =
    "PACKAGE_SELF_TEST_OK title_description_template_mapping_after_restart";

} // verus!
