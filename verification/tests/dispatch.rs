use boxbuddy::dispatch::{
    action_invocation, action_outcome, box_row_actions, confirm_delete, delete_plan,
    terminal_invocation, waits_for_exit, Action, ActionFailed, RowContext,
};

#[test]
fn delete_is_issued_only_on_the_delete_response() {
    let planned = delete_plan("foo", "delete").expect("confirmed deletion must be issued");
    assert_eq!(planned.program, "distrobox");
    assert_eq!(planned.args, vec!["rm".to_string(), "foo".to_string()]);
    assert_eq!(delete_plan("foo", "cancel"), None);
    assert_eq!(delete_plan("foo", ""), None);
    assert_eq!(delete_plan("foo", "Delete"), None);
}

#[test]
fn confirm_delete_accepts_exactly_the_delete_response() {
    assert!(confirm_delete("delete"));
    assert!(!confirm_delete("cancel"));
    assert!(!confirm_delete("delete "));
}

#[test]
fn shell_special_names_stay_one_literal_argument() {
    let name = "a;rm -rf";
    let inv = action_invocation(Action::Delete, name).unwrap();
    assert_eq!(inv.args, vec!["rm".to_string(), name.to_string()]);
    let up = action_invocation(Action::Upgrade, "$(boom) && echo").unwrap();
    assert_eq!(up.args, vec!["upgrade".to_string(), "$(boom) && echo".to_string()]);
    let term = terminal_invocation("xterm", "a|b>c");
    assert_eq!(term.program, "xterm");
    assert_eq!(
        term.args,
        vec![
            "-e".to_string(),
            "distrobox".to_string(),
            "enter".to_string(),
            "a|b>c".to_string(),
        ]
    );
}

#[test]
fn create_hands_off_to_the_interactive_flow() {
    let inv = action_invocation(Action::Create, "ignored").unwrap();
    assert_eq!(inv.program, "distrobox");
    assert_eq!(inv.args, vec!["create".to_string()]);
}

#[test]
fn open_terminal_enters_the_named_box() {
    let inv = action_invocation(Action::OpenTerminal, "mybox").unwrap();
    assert_eq!(inv.args, vec!["enter".to_string(), "mybox".to_string()]);
}

#[test]
fn show_applications_invokes_nothing() {
    assert_eq!(action_invocation(Action::ShowApplications, "mybox"), None);
}

#[test]
fn only_open_terminal_is_detached() {
    assert!(waits_for_exit(Action::Create));
    assert!(waits_for_exit(Action::Delete));
    assert!(waits_for_exit(Action::Upgrade));
    assert!(waits_for_exit(Action::ShowApplications));
    assert!(!waits_for_exit(Action::OpenTerminal));
}

#[test]
fn box_tab_rows_come_in_display_order() {
    assert_eq!(
        box_row_actions(),
        vec![Action::OpenTerminal, Action::Upgrade, Action::ShowApplications, Action::Delete]
    );
}

#[test]
fn a_row_plans_the_same_invocation_as_a_direct_dispatch() {
    let row = RowContext { box_name: "mybox".to_string(), action: Action::Upgrade };
    assert_eq!(row.plan(), action_invocation(Action::Upgrade, "mybox"));
    let stub = RowContext { box_name: "mybox".to_string(), action: Action::ShowApplications };
    assert_eq!(stub.plan(), None);
}

#[test]
fn nonzero_exit_is_a_failure_signal_not_a_fault() {
    let r = action_outcome(Action::Upgrade, "box1", Some(1));
    assert_eq!(
        r,
        Err(ActionFailed {
            action: Action::Upgrade,
            box_name: "box1".to_string(),
            exit_code: Some(1),
        })
    );
}

#[test]
fn zero_exit_is_success() {
    assert_eq!(action_outcome(Action::Upgrade, "box1", Some(0)), Ok(()));
}

#[test]
fn launch_failure_is_reported_with_no_exit_code() {
    let r = action_outcome(Action::Delete, "box2", None);
    assert_eq!(
        r,
        Err(ActionFailed {
            action: Action::Delete,
            box_name: "box2".to_string(),
            exit_code: None,
        })
    );
}
