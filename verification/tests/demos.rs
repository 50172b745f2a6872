use demo_runner::dispatch::{run_all, run_each, runners, Demo};
use demo_runner::irun::IRunner;
use demo_runner::module::iborrow;
use demo_runner::module::ienum;
use demo_runner::module::ilifetime;
use demo_runner::module::istring;

fn strings(lines: &[&str]) -> Vec<String> {
    lines.iter().map(|s| s.to_string()).collect()
}

#[test]
fn lifetime_demo_lines() {
    assert_eq!(ilifetime::Runner::new().run(), strings(&["lifetime run"]));
}

#[test]
fn enum_demo_lines() {
    assert_eq!(
        ienum::Runner::new().run(),
        strings(&["enum run", "result match 1", "option match 1"])
    );
}

#[test]
fn string_demo_lines() {
    assert_eq!(istring::Runner::new().run(), strings(&["string runner", "len:6"]));
}

#[test]
fn borrow_demo_lines() {
    assert_eq!(
        iborrow::Runner::new().run(),
        strings(&["rust language", "s2:rust language !", "s:rust language !"])
    );
}

#[test]
fn every_demo_gives_at_least_one_line() {
    assert!(!ilifetime::Runner::new().run().is_empty());
    assert!(!ienum::Runner::new().run().is_empty());
    assert!(!istring::Runner::new().run().is_empty());
    assert!(!iborrow::Runner::new().run().is_empty());
    for demo in runners() {
        assert!(!demo.run().is_empty());
    }
}

#[test]
fn registry_holds_each_demo_once_in_order() {
    let rs = runners();
    assert_eq!(rs.len(), 4);
    assert!(matches!(rs[0], Demo::Lifetime(_)));
    assert!(matches!(rs[1], Demo::Tagged(_)));
    assert!(matches!(rs[2], Demo::Text(_)));
    assert!(matches!(rs[3], Demo::Borrow(_)));
}

#[test]
fn program_lines_follow_registration_order() {
    assert_eq!(
        run_all(),
        strings(&[
            "lifetime run",
            "enum run",
            "result match 1",
            "option match 1",
            "string runner",
            "len:6",
            "rust language",
            "s2:rust language !",
            "s:rust language !",
        ])
    );
}

#[test]
fn pass_is_the_demos_one_after_another() {
    let mut expected = ilifetime::Runner::new().run();
    expected.extend(ienum::Runner::new().run());
    expected.extend(istring::Runner::new().run());
    expected.extend(iborrow::Runner::new().run());
    assert_eq!(run_each(&runners()), expected);
}

#[test]
fn pass_follows_the_order_of_its_entries() {
    let rs = vec![
        Demo::Text(istring::Runner::new()),
        Demo::Lifetime(ilifetime::Runner::new()),
        Demo::Text(istring::Runner::new()),
    ];
    assert_eq!(
        run_each(&rs),
        strings(&["string runner", "len:6", "lifetime run", "string runner", "len:6"])
    );
}

#[test]
fn pass_over_nothing_gives_nothing() {
    assert!(run_each(&Vec::new()).is_empty());
}

#[test]
fn two_runs_give_the_same_lines() {
    let first = run_all();
    let second = run_all();
    assert_eq!(first, second);
    assert_eq!(run_each(&runners()), first);
}

#[test]
fn get_node_keeps_id_and_name() {
    let owner = String::from("head");
    let node = ilifetime::get_node(1, &owner);
    assert_eq!(node.id, 1);
    assert_eq!(node.name, "head");
    let other = ilifetime::get_node(-7, "");
    assert_eq!(other.id, -7);
    assert_eq!(other.name, "");
}

#[test]
fn reference_demo_reads_the_buffer() {
    assert_eq!(iborrow::testReference(), strings(&["rust language"]));
}

#[test]
fn borrow_demo_appends_to_the_buffer() {
    assert_eq!(iborrow::testBorrow(), "hello rust!");
}

#[test]
fn mut_borrow_demo_shows_view_and_buffer() {
    assert_eq!(
        iborrow::testMutBorrow(),
        strings(&["s2:rust language !", "s:rust language !"])
    );
}
