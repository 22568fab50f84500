use agent_tree::ipc::WorkRequest;
use agent_tree::prompt::build_l2_prompt;

fn request(task: &str, context: Option<&str>, tests: &[&str], base_ref: Option<&str>) -> WorkRequest {
    WorkRequest {
        task: task.to_string(),
        context: context.map(str::to_string),
        tests: tests.iter().map(|t| t.to_string()).collect(),
        base_ref: base_ref.map(str::to_string),
    }
}

#[test]
fn bare_task_is_the_prompt() {
    assert_eq!(build_l2_prompt(&request("do thing", None, &[], None)), "do thing");
    assert_eq!(build_l2_prompt(&request("", None, &[], None)), "");
}

#[test]
fn context_follows_the_task() {
    assert_eq!(
        build_l2_prompt(&request("do thing", Some("  be careful "), &[], None)),
        "do thing\n\n---\n\nContext:\n  be careful "
    );
}

#[test]
fn blank_context_adds_no_section() {
    assert_eq!(build_l2_prompt(&request("do thing", Some(""), &[], None)), "do thing");
    assert_eq!(
        build_l2_prompt(&request("do thing", Some(" \t\r\n\u{a0}\u{3000}"), &[], None)),
        "do thing"
    );
}

#[test]
fn tests_come_last_one_to_a_line() {
    assert_eq!(
        build_l2_prompt(&request("do thing", None, &["cargo test", "cargo clippy"], None)),
        "do thing\n\n---\n\nPreferred tests:\n- cargo test\n- cargo clippy\n"
    );
}

#[test]
fn context_comes_before_tests() {
    assert_eq!(
        build_l2_prompt(&request("t", Some("c"), &["x"], None)),
        "t\n\n---\n\nContext:\nc\n\n---\n\nPreferred tests:\n- x\n"
    );
}

#[test]
fn base_ref_does_not_enter_the_prompt() {
    let with = build_l2_prompt(&request("t", Some("c"), &["x"], Some("main")));
    let without = build_l2_prompt(&request("t", Some("c"), &["x"], None));
    assert_eq!(with, without);
    assert_eq!(with, build_l2_prompt(&request("t", Some("c"), &["x"], Some("main"))));
}
