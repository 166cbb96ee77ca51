use testlist::definition::{ChecklistItem, Meta, Test, Testlist};
use testlist::results::{
    checklist_key, ChecklistSection, OldResults, ResultsMeta, Status, TestResult, TestlistResults,
};

fn make_testlist() -> Testlist {
    Testlist {
        meta: Meta {
            title: "Test".to_string(),
            description: "".to_string(),
            created: "".to_string(),
            version: "1".to_string(),
        },
        tests: vec![Test {
            id: "t1".to_string(),
            title: "Test 1".to_string(),
            description: "".to_string(),
            setup: vec![
                ChecklistItem { id: "setup-0".to_string(), text: "Step A".to_string() },
                ChecklistItem { id: "setup-1".to_string(), text: "Step B".to_string() },
            ],
            action: "Do it".to_string(),
            verify: vec![ChecklistItem { id: "verify-0".to_string(), text: "Check A".to_string() }],
            suggested_command: None,
        }],
    }
}

#[test]
fn results_test_status_default() {
    assert_eq!(Status::default(), Status::Pending);
}

#[test]
fn results_test_new_pending_result() {
    let testlist = make_testlist();
    let result = TestResult::new_pending(&testlist.tests[0]);
    assert_eq!(result.test_id, "t1");
    assert_eq!(result.status, Status::Pending);
    assert!(result.setup_checked.is_none());
    assert!(result.verify_checked.is_none());
}

#[test]
fn test_new_for_testlist() {
    let testlist = make_testlist();
    let results = TestlistResults::new_for_testlist(&testlist, "test.ron", "alice");
    assert_eq!(results.meta.tester, "alice");
    assert_eq!(results.results.len(), 1);
    assert!(results.checklist_results.is_empty());
}

#[test]
fn test_get_result_mut() {
    let testlist = make_testlist();
    let mut results = TestlistResults::new_for_testlist(&testlist, "test.ron", "tester");
    assert!(results.get_result_mut("t1").is_some());
    assert!(results.get_result_mut("nonexistent").is_none());
    results.get_result_mut("t1").unwrap().status = Status::Passed;
    assert_eq!(results.results[0].status, Status::Passed);
}

#[test]
fn test_checklist_key() {
    assert_eq!(
        checklist_key("build", ChecklistSection::Setup, "setup-0"),
        "build:setup:setup-0"
    );
    assert_eq!(checklist_key("login", ChecklistSection::Verify, "v1"), "login:verify:v1");
}

#[test]
fn test_parse_old_format_results() {
    let old = OldResults {
        meta: ResultsMeta {
            testlist: "test.ron".to_string(),
            tester: "alice".to_string(),
            started: "2025-01-24T14:30:00Z".to_string(),
            completed: None,
        },
        results: vec![TestResult {
            test_id: "t1".to_string(),
            status: Status::Passed,
            notes: Some("Worked fine".to_string()),
            screenshots: vec![],
            completed_at: Some("2025-01-24T14:32:00Z".to_string()),
            setup_checked: Some(vec![true, false]),
            verify_checked: Some(vec![true]),
        }],
    };
    let testlist = make_testlist();
    let migrated = TestlistResults::migrate_from_old(old, &testlist);

    assert_eq!(migrated.meta.tester, "alice");
    assert_eq!(migrated.results[0].status, Status::Passed);
    assert!(migrated.results[0].setup_checked.is_none()); // Cleared
    assert_eq!(migrated.checklist_results.get("t1:setup:setup-0"), Some(true));
    assert_eq!(migrated.checklist_results.get("t1:setup:setup-1"), Some(false));
    assert_eq!(migrated.checklist_results.get("t1:verify:verify-0"), Some(true));
}

#[test]
fn migrate_ignores_results_of_unknown_tests() {
    let old = OldResults {
        meta: ResultsMeta {
            testlist: "test.ron".to_string(),
            tester: "bob".to_string(),
            started: "2025-01-24".to_string(),
            completed: None,
        },
        results: vec![TestResult {
            test_id: "ghost".to_string(),
            status: Status::Failed,
            notes: None,
            screenshots: vec![],
            completed_at: None,
            setup_checked: Some(vec![true]),
            verify_checked: None,
        }],
    };
    let testlist = make_testlist();
    let migrated = TestlistResults::migrate_from_old(old, &testlist);
    assert_eq!(migrated.results.len(), 1);
    assert_eq!(migrated.results[0].status, Status::Failed);
    assert!(migrated.checklist_results.is_empty());
}

#[test]
fn migrate_truncates_extra_check_states() {
    // Two recorded setup states but only two items, three verify states but
    // one item: only states with a matching item survive.
    let old = OldResults {
        meta: ResultsMeta {
            testlist: "test.ron".to_string(),
            tester: "eve".to_string(),
            started: "2025-01-24".to_string(),
            completed: None,
        },
        results: vec![TestResult {
            test_id: "t1".to_string(),
            status: Status::Pending,
            notes: None,
            screenshots: vec![],
            completed_at: None,
            setup_checked: Some(vec![true]),
            verify_checked: Some(vec![true, true, false]),
        }],
    };
    let testlist = make_testlist();
    let migrated = TestlistResults::migrate_from_old(old, &testlist);
    assert_eq!(migrated.checklist_results.get("t1:setup:setup-0"), Some(true));
    assert_eq!(migrated.checklist_results.get("t1:setup:setup-1"), None);
    assert_eq!(migrated.checklist_results.get("t1:verify:verify-0"), Some(true));
}

#[test]
fn checklist_map_replaces_equal_keys() {
    let testlist = make_testlist();
    let mut results = TestlistResults::new_for_testlist(&testlist, "test.ron", "tester");
    results.checklist_results.insert("t1:setup:setup-0".to_string(), true);
    results.checklist_results.insert("t1:verify:verify-0".to_string(), false);
    results.checklist_results.insert("t1:setup:setup-0".to_string(), false);
    assert_eq!(results.checklist_results.get("t1:setup:setup-0"), Some(false));
    assert_eq!(results.checklist_results.get("t1:verify:verify-0"), Some(false));
    assert_eq!(results.checklist_results.entries().len(), 2);
}
