use notes_planner_desktop::{LOCAL_TODAY_CHANGED_EVENT, PACKAGE_SELF_TEST_SUCCESS_LOG};

#[test]
fn package_self_test_reports_title_description_template_mapping_after_restart() {
    let expected = "PACKAGE_SELF_TEST_OK title_description_template_mapping_after_restart";

    let actual = PACKAGE_SELF_TEST_SUCCESS_LOG;

    assert_eq!(actual, expected);
}

#[test]
fn local_today_event_name_is_stable() {
    assert_eq!(LOCAL_TODAY_CHANGED_EVENT, "planner://local-today-changed");
}
