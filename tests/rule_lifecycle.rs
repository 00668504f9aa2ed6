use sriov_udev_rule::command::{parse_args, usage_message, Action};
use sriov_udev_rule::lifecycle::{rule_file_after, RuleFileError};
use sriov_udev_rule::plan::{plan, resync_steps, Step};
use sriov_udev_rule::rule::{device_sys_path, rule_content, PROPERTY_KEY, RULE_PATH};

const ETH0_RULE: &str = "ENV{INTERFACE}==\"eth0\", ENV{NM_SRIOV_UNMANAGED}=\"1\"";

fn argv(words: &[&str]) -> Vec<String> {
    words.iter().map(|w| w.to_string()).collect()
}

fn steps_for(words: &[&str]) -> Vec<Step> {
    plan(&parse_args(&argv(words)), RULE_PATH)
}

fn strings(words: &[&str]) -> Vec<String> {
    argv(words)
}

#[test]
fn rule_content_is_exact_line() {
    assert_eq!(rule_content("eth0"), ETH0_RULE);
    assert_eq!(
        rule_content("ens1f0v3"),
        "ENV{INTERFACE}==\"ens1f0v3\", ENV{NM_SRIOV_UNMANAGED}=\"1\""
    );
}

#[test]
fn rule_content_does_not_escape_quotes() {
    assert_eq!(
        rule_content("a\"b"),
        "ENV{INTERFACE}==\"a\"b\", ENV{NM_SRIOV_UNMANAGED}=\"1\""
    );
}

#[test]
fn device_path_is_under_sys_class_net() {
    assert_eq!(device_sys_path("eth0"), "/sys/class/net/eth0");
}

#[test]
fn fixed_path_and_key() {
    assert_eq!(RULE_PATH, "/etc/udev/rules.d/98-sriov-operator.rules");
    assert_eq!(PROPERTY_KEY, "NM_SRIOV_UNMANAGED");
}

#[test]
fn parse_set_and_unset() {
    match parse_args(&argv(&["tool", "set", "eth0"])) {
        Action::SetRule(name) => assert_eq!(name, "eth0"),
        _ => panic!("expected set"),
    }
    match parse_args(&argv(&["tool", "unset", "eth1"])) {
        Action::UnsetRule(name) => assert_eq!(name, "eth1"),
        _ => panic!("expected unset"),
    }
}

#[test]
fn wrong_argument_count_asks_for_usage() {
    assert!(matches!(parse_args(&argv(&[])), Action::ShowUsage));
    assert!(matches!(parse_args(&argv(&["tool"])), Action::ShowUsage));
    assert!(matches!(parse_args(&argv(&["tool", "set"])), Action::ShowUsage));
    assert!(matches!(
        parse_args(&argv(&["tool", "set", "eth0", "extra"])),
        Action::ShowUsage
    ));
}

#[test]
fn unknown_action_asks_for_usage() {
    assert!(matches!(parse_args(&argv(&["tool", "foo", "eth0"])), Action::ShowUsage));
    assert!(matches!(parse_args(&argv(&["tool", "SET", "eth0"])), Action::ShowUsage));
}

#[test]
fn usage_has_no_steps_and_leaves_file() {
    for words in [
        &["tool"][..],
        &["tool", "set"][..],
        &["tool", "set", "eth0", "x"][..],
        &["tool", "foo", "eth0"][..],
    ] {
        let steps = steps_for(words);
        assert!(steps.is_empty());
        assert_eq!(rule_file_after(None, RULE_PATH, &steps), Ok(None));
        assert_eq!(
            rule_file_after(Some("old".to_string()), RULE_PATH, &steps),
            Ok(Some("old".to_string()))
        );
    }
}

#[test]
fn usage_message_names_program() {
    assert_eq!(usage_message("tool"), "Usage: tool set|unset <interface_name>");
}

#[test]
fn resync_runs_three_udevadm_commands_in_order() {
    let steps = resync_steps("eth0");
    assert_eq!(steps.len(), 3);
    let expected = [
        strings(&["control", "--reload-rules"]),
        strings(&["trigger", "--action", "change", "/sys/class/net/eth0"]),
        strings(&["settle"]),
    ];
    for (step, want) in steps.iter().zip(expected.iter()) {
        match step {
            Step::RunUdevadm { args } => assert_eq!(args, want),
            _ => panic!("expected a udevadm run"),
        }
    }
}

#[test]
fn set_plan_writes_then_resyncs_then_reads_back() {
    let steps = steps_for(&["tool", "set", "eth0"]);
    assert_eq!(steps.len(), 5);
    match &steps[0] {
        Step::WriteRule { path, content } => {
            assert_eq!(path, RULE_PATH);
            assert_eq!(content, ETH0_RULE);
        }
        _ => panic!("expected the rule to be written first"),
    }
    assert!(matches!(&steps[1], Step::RunUdevadm { args } if args == &strings(&["control", "--reload-rules"])));
    assert!(matches!(&steps[3], Step::RunUdevadm { args } if args == &strings(&["settle"])));
    match &steps[4] {
        Step::ReadProperty { syspath, key } => {
            assert_eq!(syspath, "/sys/class/net/eth0");
            assert_eq!(key, "NM_SRIOV_UNMANAGED");
        }
        _ => panic!("expected the property to be read last"),
    }
}

#[test]
fn unset_plan_removes_then_resyncs_then_reads_back() {
    let steps = steps_for(&["tool", "unset", "eth0"]);
    assert_eq!(steps.len(), 5);
    assert!(matches!(&steps[0], Step::RemoveRule { path } if path == RULE_PATH));
    assert!(matches!(
        &steps[2],
        Step::RunUdevadm { args } if args == &strings(&["trigger", "--action", "change", "/sys/class/net/eth0"])
    ));
    assert!(matches!(&steps[4], Step::ReadProperty { syspath, .. } if syspath == "/sys/class/net/eth0"));
}

#[test]
fn set_creates_file_with_exact_rule() {
    let steps = steps_for(&["tool", "set", "eth0"]);
    assert_eq!(
        rule_file_after(None, RULE_PATH, &steps),
        Ok(Some(ETH0_RULE.to_string()))
    );
    assert_eq!(
        rule_file_after(Some("something else".to_string()), RULE_PATH, &steps),
        Ok(Some(ETH0_RULE.to_string()))
    );
}

#[test]
fn unset_removes_file_and_second_unset_fails() {
    let steps = steps_for(&["tool", "unset", "eth0"]);
    let after = rule_file_after(Some(ETH0_RULE.to_string()), RULE_PATH, &steps);
    assert_eq!(after, Ok(None));
    assert_eq!(
        rule_file_after(None, RULE_PATH, &steps),
        Err(RuleFileError::NotFound)
    );
}

#[test]
fn second_set_overwrites_first() {
    let first = steps_for(&["tool", "set", "eth0"]);
    let second = steps_for(&["tool", "set", "eth1"]);
    let after_first = rule_file_after(None, RULE_PATH, &first).unwrap();
    assert_eq!(
        rule_file_after(after_first, RULE_PATH, &second),
        Ok(Some("ENV{INTERFACE}==\"eth1\", ENV{NM_SRIOV_UNMANAGED}=\"1\"".to_string()))
    );
}

#[test]
fn set_unset_unset_scenario() {
    let set = steps_for(&["tool", "set", "eth0"]);
    let unset = steps_for(&["tool", "unset", "eth0"]);
    let file = rule_file_after(None, RULE_PATH, &set).unwrap();
    assert_eq!(file, Some(ETH0_RULE.to_string()));
    let file = rule_file_after(file, RULE_PATH, &unset).unwrap();
    assert_eq!(file, None);
    assert_eq!(
        rule_file_after(file, RULE_PATH, &unset),
        Err(RuleFileError::NotFound)
    );
}

#[test]
fn steps_on_another_path_leave_rule_file_alone() {
    let steps = plan(&parse_args(&argv(&["tool", "unset", "eth0"])), "/tmp/other.rules");
    assert_eq!(
        rule_file_after(Some("kept".to_string()), RULE_PATH, &steps),
        Ok(Some("kept".to_string()))
    );
    assert_eq!(
        rule_file_after(None, "/tmp/other.rules", &steps),
        Err(RuleFileError::NotFound)
    );
}
