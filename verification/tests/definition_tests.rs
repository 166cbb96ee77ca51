use testlist::definition::{checklist_items_with_ids, ChecklistItem, RawStep};

#[test]
fn test_parse_testlist_mixed_backward_compat() {
    // Old-style plain strings get generated IDs; the wording is kept.
    let setup = checklist_items_with_ids(
        "setup",
        vec![
            RawStep::Text("Step A".to_string()),
            RawStep::Text("Step B".to_string()),
        ],
    );
    assert_eq!(setup[0].id, "setup-0");
    assert_eq!(setup[0].text, "Step A");
    assert_eq!(setup[1].id, "setup-1");

    let verify = checklist_items_with_ids(
        "verify",
        vec![
            RawStep::Text("Verify A".to_string()),
            RawStep::Text("Verify B".to_string()),
            RawStep::Text("Verify C".to_string()),
        ],
    );
    assert_eq!(verify[0].id, "verify-0");
    assert_eq!(verify[2].id, "verify-2");
}

#[test]
fn items_with_own_ids_pass_unchanged() {
    let items = checklist_items_with_ids(
        "setup",
        vec![
            RawStep::Item(ChecklistItem { id: "s1".to_string(), text: "Step one".to_string() }),
            RawStep::Text("Step two".to_string()),
        ],
    );
    assert_eq!(items[0].id, "s1");
    assert_eq!(items[0].text, "Step one");
    assert_eq!(items[1].id, "setup-1");
    assert_eq!(items[1].text, "Step two");
}

#[test]
fn generated_ids_count_in_decimal() {
    let steps: Vec<RawStep> = (0..12).map(|i| RawStep::Text(format!("Step {}", i))).collect();
    let items = checklist_items_with_ids("item", steps);
    assert_eq!(items[9].id, "item-9");
    assert_eq!(items[10].id, "item-10");
    assert_eq!(items[11].id, "item-11");
}
