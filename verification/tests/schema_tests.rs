use testlist::schema::{Meta, Results, Status, Test, Testlist, TestResult};

fn make_test() -> Test {
    Test {
        id: "test1".to_string(),
        title: "Test".to_string(),
        description: "Desc".to_string(),
        setup: vec!["Step 1".to_string(), "Step 2".to_string()],
        action: "Do it".to_string(),
        verify: vec!["Check 1".to_string()],
        suggested_command: None,
    }
}

#[test]
fn schema_test_status_default() {
    assert_eq!(Status::default(), Status::Pending);
}

#[test]
fn schema_test_new_pending_result() {
    let test = make_test();
    let result = TestResult::new_pending(&test);
    assert_eq!(result.test_id, "test1");
    assert_eq!(result.status, Status::Pending);
    assert_eq!(result.setup_checked, Some(vec![false, false]));
    assert_eq!(result.verify_checked, Some(vec![false]));
}

#[test]
fn test_new_pending_result_no_setup_verify() {
    let test = Test {
        id: "simple".to_string(),
        title: "Simple Test".to_string(),
        description: "A test with no setup or verify".to_string(),
        setup: vec![],
        action: "Just do it".to_string(),
        verify: vec![],
        suggested_command: Some("echo test".to_string()),
    };
    let result = TestResult::new_pending(&test);
    assert_eq!(result.test_id, "simple");
    assert_eq!(result.status, Status::Pending);
    assert!(result.setup_checked.is_none());
    assert!(result.verify_checked.is_none());
}

#[test]
fn test_results_new_for_testlist() {
    let testlist = Testlist {
        meta: Meta {
            title: "Test".to_string(),
            description: "Desc".to_string(),
            created: "2025-01-24".to_string(),
            version: "1".to_string(),
        },
        tests: vec![
            Test {
                id: "t1".to_string(),
                title: "Test 1".to_string(),
                description: "".to_string(),
                setup: vec![],
                action: "Act".to_string(),
                verify: vec![],
                suggested_command: None,
            },
            Test {
                id: "t2".to_string(),
                title: "Test 2".to_string(),
                description: "".to_string(),
                setup: vec!["Step".to_string()],
                action: "Act".to_string(),
                verify: vec![],
                suggested_command: None,
            },
        ],
    };
    let results = Results::new_for_testlist(&testlist, "test.ron", "tester");
    assert_eq!(results.meta.testlist, "test.ron");
    assert_eq!(results.meta.tester, "tester");
    assert!(results.meta.completed.is_none());
    assert_eq!(results.results.len(), 2);
    assert_eq!(results.results[0].test_id, "t1");
    assert!(results.results[0].setup_checked.is_none());
    assert_eq!(results.results[1].setup_checked, Some(vec![false]));
}

#[test]
fn test_results_get_result_mut() {
    let testlist = Testlist {
        meta: Meta {
            title: "Test".to_string(),
            description: "".to_string(),
            created: "".to_string(),
            version: "1".to_string(),
        },
        tests: vec![Test {
            id: "existing".to_string(),
            title: "Test".to_string(),
            description: "".to_string(),
            setup: vec![],
            action: "Act".to_string(),
            verify: vec![],
            suggested_command: None,
        }],
    };
    let mut results = Results::new_for_testlist(&testlist, "test.ron", "tester");
    assert!(results.get_result_mut("existing").is_some());
    assert!(results.get_result_mut("nonexistent").is_none());
    results.get_result_mut("existing").unwrap().status = Status::Passed;
    assert_eq!(results.results[0].status, Status::Passed);
}
