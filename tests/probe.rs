use service_monitor::matching::{find_by_exact, find_by_substring};
use service_monitor::monitor::{ExactService, Service};
use service_monitor::process_table::ProcessTable;
use service_monitor::signal::{report, Action};

fn names(list: &[&str]) -> Vec<String> {
    list.iter().map(|s| s.to_string()).collect()
}

fn down(name: &str) -> Action {
    Action::Notify { diagnostic: Some(format!("{} is down", name)) }
}

#[test]
fn new_keeps_name_verbatim() {
    assert_eq!(Service::new("Nginx").process_name, "Nginx");
    assert_eq!(ExactService::new("Nginx").process_name, "Nginx");
    assert_eq!(Service::new(" top ").process_name, " top ");
}

#[test]
fn report_up_is_nothing() {
    assert_eq!(report("nginx", true), Action::Nothing);
}

#[test]
fn report_down_names_the_process() {
    assert_eq!(
        report("nginx", false),
        Action::Notify { diagnostic: Some("nginx is down".to_string()) }
    );
    assert_eq!(report("", false), Action::Notify { diagnostic: Some(" is down".to_string()) });
}

#[test]
fn substring_present_is_up() {
    let probe = Service::new("nginx");
    assert_eq!(probe.check_names(&names(&["bash", "nginx-worker"])), Action::Nothing);
    assert_eq!(probe.check_names(&names(&["nginx"])), Action::Nothing);
}

#[test]
fn substring_absent_is_down() {
    let probe = Service::new("nginx");
    assert_eq!(probe.check_names(&names(&["bash", "sshd"])), down("nginx"));
}

#[test]
fn substring_is_case_sensitive() {
    let probe = Service::new("Nginx");
    assert_eq!(probe.check_names(&names(&["nginx"])), down("Nginx"));
}

#[test]
fn exact_requires_whole_name() {
    let probe = ExactService::new("nginx");
    assert_eq!(probe.check_names(&names(&["nginx-worker"])), down("nginx"));
    assert_eq!(probe.check_names(&names(&["bash", "nginx"])), Action::Nothing);
}

#[test]
fn same_table_gives_same_signal() {
    let table = names(&["htop", "bash"]);
    let sub = Service::new("top");
    assert_eq!(sub.check_names(&table), sub.check_names(&table));
    let exact = ExactService::new("top");
    assert_eq!(exact.check_names(&table), exact.check_names(&table));
    let mut missing = ExactService::new("no-such-process-name-qx");
    let first = missing.check();
    let second = missing.check();
    assert_eq!(first, second);
}

#[test]
fn substring_matches_htop_for_top() {
    let table = names(&["htop"]);
    assert_eq!(Service::new("top").check_names(&table), Action::Nothing);
    assert_eq!(ExactService::new("top").check_names(&table), down("top"));
}

#[test]
fn empty_snapshot_is_down() {
    let table: Vec<String> = Vec::new();
    assert_eq!(Service::new("top").check_names(&table), down("top"));
    assert_eq!(ExactService::new("top").check_names(&table), down("top"));
    assert_eq!(Service::new("").check_names(&table), down(""));
}

#[test]
fn find_by_substring_on_names() {
    let table = names(&["htop", "sshd"]);
    assert!(find_by_substring(&table, "top"));
    assert!(find_by_substring(&table, "ssh"));
    assert!(find_by_substring(&table, ""));
    assert!(!find_by_substring(&table, "tops"));
    assert!(!find_by_substring(&Vec::new(), ""));
}

#[test]
fn find_by_exact_on_names() {
    let table = names(&["htop", "sshd"]);
    assert!(find_by_exact(&table, "sshd"));
    assert!(!find_by_exact(&table, "top"));
    assert!(!find_by_exact(&table, "SSHD"));
}

#[test]
fn new_table_is_empty_until_refresh() {
    let table = ProcessTable::new();
    assert!(!table.find_by_substring(""));
    assert!(!table.find_by_exact(""));
}

#[test]
fn refreshed_table_sees_running_processes() {
    let mut table = ProcessTable::new();
    table.refresh();
    assert!(table.find_by_substring(""));
    assert!(!table.find_by_exact("no-such-process-name-qx"));
}

#[test]
fn live_check_reports_missing_process_down() {
    let mut sub = Service::new("no-such-process-name-qx");
    assert_eq!(sub.check(), down("no-such-process-name-qx"));
    let mut exact = ExactService::new("no-such-process-name-qx");
    assert_eq!(exact.check(), down("no-such-process-name-qx"));
}

#[test]
fn live_check_reports_running_process_up() {
    let mut any = Service::new("");
    assert_eq!(any.check(), Action::Nothing);
    assert_eq!(any.process_name, "");
}
