use boxbuddy::record::BoxRecord;
use boxbuddy::registry::{
    list_boxes, list_invocation, not_installed_detail, not_installed_title, parse_line,
    parse_list_output, startup_plan, ListError, StartupPlan,
};

fn record(name: &str, distro_id: &str, status: &str) -> BoxRecord {
    BoxRecord {
        name: name.to_string(),
        distro_id: distro_id.to_string(),
        status: status.to_string(),
    }
}

#[test]
fn well_formed_output_gives_one_record_per_line_in_order() {
    let out = "NAME | IMAGE | STATUS\n\
               ubuntu-box | ubuntu:22.04 | Up 2 hours\n\
               fedora-box | fedora:39 | Exited (0)";
    let records = parse_list_output(out);
    assert_eq!(
        records,
        vec![
            record("ubuntu-box", "ubuntu:22.04", "Up 2 hours"),
            record("fedora-box", "fedora:39", "Exited (0)"),
        ]
    );
}

#[test]
fn malformed_line_is_dropped_and_surrounding_lines_kept() {
    let out = "NAME | IMAGE | STATUS\n\
               first | img1 | running\n\
               not a record\n\
               third | img3 | stopped";
    let records = parse_list_output(out);
    assert_eq!(
        records,
        vec![record("first", "img1", "running"), record("third", "img3", "stopped")]
    );
}

#[test]
fn trailing_newline_adds_no_record() {
    let out = "NAME | IMAGE | STATUS\nalpha | alpine:3.19 | running\n";
    let records = parse_list_output(out);
    assert_eq!(records, vec![record("alpha", "alpine:3.19", "running")]);
}

#[test]
fn empty_output_gives_no_records() {
    assert_eq!(parse_list_output(""), vec![]);
}

#[test]
fn header_only_output_gives_no_records() {
    assert_eq!(parse_list_output("NAME | IMAGE | STATUS"), vec![]);
}

#[test]
fn fields_past_the_third_are_ignored() {
    let out = "h\nbox1 | img | up | extra | more";
    assert_eq!(parse_list_output(out), vec![record("box1", "img", "up")]);
}

#[test]
fn parse_line_trims_each_field() {
    let rec = parse_line("  spaced  |  debian:12  |  stopped  ").unwrap();
    assert_eq!(rec, record("spaced", "debian:12", "stopped"));
}

#[test]
fn parse_line_rejects_too_few_fields() {
    assert_eq!(parse_line("only-name | only-image"), None);
    assert_eq!(parse_line(""), None);
}

#[test]
fn parse_line_rejects_empty_name() {
    assert_eq!(parse_line("   | img | up"), None);
}

#[test]
fn list_boxes_fails_only_when_nothing_was_captured() {
    assert_eq!(list_boxes(None), Err(ListError::ToolUnavailable));
    let out = "NAME | IMAGE | STATUS\nbox1 | img | up";
    assert_eq!(list_boxes(Some(out)), Ok(vec![record("box1", "img", "up")]));
    assert_eq!(list_boxes(Some("")), Ok(vec![]));
}

#[test]
fn list_invocation_is_the_machine_friendly_list_query() {
    let inv = list_invocation();
    assert_eq!(inv.program, "distrobox");
    assert_eq!(inv.args, vec!["list".to_string(), "--no-color".to_string()]);
}

#[test]
fn absent_tool_means_no_query_and_the_unavailable_state() {
    match startup_plan(false) {
        StartupPlan::ShowNotInstalled => {}
        StartupPlan::QueryRegistry(_) => panic!("query issued although the tool is absent"),
    }
    assert_eq!(not_installed_title(), "Distrobox not found!");
    assert_eq!(
        not_installed_detail(),
        "Distrobox could not be found, please ensure it is installed!"
    );
}

#[test]
fn present_tool_means_the_list_query() {
    match startup_plan(true) {
        StartupPlan::QueryRegistry(inv) => {
            assert_eq!(inv.program, "distrobox");
            assert_eq!(inv.args, vec!["list".to_string(), "--no-color".to_string()]);
        }
        StartupPlan::ShowNotInstalled => panic!("tool present but no query planned"),
    }
}
