use dictation::rules::{
    apply_regex_rules, apply_rule, apply_rules, builtin_rules, id_listed, replace_or_keep, Rule,
    RuleType,
};

#[test]
fn builtin_rules_returns_two_rules() {
    let rules = builtin_rules();
    assert_eq!(rules.len(), 2);
}

#[test]
fn builtin_rules_all_disabled_by_default() {
    let rules = builtin_rules();
    for rule in &rules {
        assert!(!rule.enabled, "Rule '{}' should be disabled by default", rule.name);
    }
}

#[test]
fn builtin_rules_have_correct_ids() {
    let rules = builtin_rules();
    assert_eq!(rules[0].id, "remove-fillers");
    assert_eq!(rules[1].id, "smart-punctuation");
}

#[test]
fn builtin_rules_sorted_by_sort_order() {
    let rules = builtin_rules();
    for i in 1..rules.len() {
        assert!(
            rules[i].sort_order > rules[i - 1].sort_order,
            "Rules should be sorted by sort_order"
        );
    }
}

#[test]
fn apply_regex_rules_no_rules_enabled() {
    let text = "um hello like world";
    let rules = builtin_rules(); // all disabled
    let result = apply_regex_rules(text, &rules);
    assert_eq!(result, text); // no change
}

#[test]
fn apply_regex_rules_filler_removal() {
    let text = "um hello like world";
    let mut rules = builtin_rules();
    rules[0].enabled = true; // enable "remove-fillers"
    let result = apply_regex_rules(text, &rules);
    assert_eq!(result, "hello world");
}

#[test]
fn apply_regex_rules_punctuation() {
    let text = "hello world. this is a test";
    let mut rules = builtin_rules();
    rules[1].enabled = true; // enable "smart-punctuation"
    let result = apply_regex_rules(text, &rules);
    assert_eq!(result, "Hello world. This is a test.");
}

#[test]
fn apply_regex_rules_chained_filler_then_punctuation() {
    let text = "um hello world. like this is a test";
    let mut rules = builtin_rules();
    rules[0].enabled = true; // fillers
    rules[1].enabled = true; // punctuation
    let result = apply_regex_rules(text, &rules);
    assert_eq!(result, "Hello world. This is a test.");
}

#[test]
fn apply_regex_rules_custom_regex_rule() {
    let text = "foo bar baz";
    let rules = vec![Rule {
        id: "custom-test".into(),
        name: "Replace foo".into(),
        rule_type: RuleType::RegexReplace {
            pattern: r"foo".into(),
            replacement: "qux".into(),
        },
        enabled: true,
        sort_order: 0,
    }];
    let result = apply_regex_rules(text, &rules);
    assert_eq!(result, "qux bar baz");
}

#[test]
fn apply_regex_rules_invalid_regex_is_skipped() {
    let text = "hello world";
    let rules = vec![Rule {
        id: "bad-regex".into(),
        name: "Invalid".into(),
        rule_type: RuleType::RegexReplace {
            pattern: r"[invalid".into(), // invalid regex
            replacement: "x".into(),
        },
        enabled: true,
        sort_order: 0,
    }];
    let result = apply_regex_rules(text, &rules);
    assert_eq!(result, text); // gracefully skipped
}

#[test]
fn apply_rules_no_enabled_ids() {
    let result = apply_rules("um hello world".into(), vec![]).unwrap();
    assert_eq!(result, "um hello world"); // nothing enabled → no changes
}

#[test]
fn apply_rules_with_filler_removal() {
    let result = apply_rules("um so like I think".into(), vec!["remove-fillers".into()]).unwrap();
    assert_eq!(result, "I think");
}

#[test]
fn apply_rules_with_punctuation() {
    let result = apply_rules("hello world".into(), vec!["smart-punctuation".into()]).unwrap();
    assert_eq!(result, "Hello world.");
}

#[test]
fn apply_rules_both_filler_and_punctuation() {
    let result = apply_rules(
        "um hello world".into(),
        vec!["remove-fillers".into(), "smart-punctuation".into()],
    )
    .unwrap();
    assert_eq!(result, "Hello world.");
}

#[test]
fn apply_rules_unknown_rule_id_ignored() {
    let result = apply_rules("hello world".into(), vec!["nonexistent-rule".into()]).unwrap();
    assert_eq!(result, "hello world");
}

#[test]
fn builtin_rules_carry_their_patterns() {
    let rules = builtin_rules();
    assert_eq!(rules[0].name, "Remove Filler Words");
    assert_eq!(rules[1].name, "Smart Punctuation");
    assert_eq!(rules[0].sort_order, 0);
    assert_eq!(rules[1].sort_order, 1);
    match &rules[0].rule_type {
        RuleType::RegexReplace { pattern, replacement } => {
            assert!(pattern.starts_with("(?i)\\b(um|uh|uhm"));
            assert_eq!(replacement, "");
        }
    }
    match &rules[1].rule_type {
        RuleType::RegexReplace { pattern, replacement } => {
            assert_eq!(pattern, "");
            assert_eq!(replacement, "");
        }
    }
}

#[test]
fn replace_or_keep_replaces_every_match() {
    assert_eq!(replace_or_keep("a+", "caaandaa".to_string(), "-"), "c-nd-");
    assert_eq!(replace_or_keep("(", "text".to_string(), "-"), "text");
    assert_eq!(replace_or_keep("(\\w+) (\\w+)", "one two".to_string(), "$2 $1"), "two one");
}

#[test]
fn a_disabled_rule_changes_nothing() {
    let rule = Rule {
        id: "custom".into(),
        name: "Custom".into(),
        rule_type: RuleType::RegexReplace { pattern: "o".into(), replacement: "0".into() },
        enabled: false,
        sort_order: 3,
    };
    assert_eq!(apply_rule("foo".to_string(), &rule), "foo");
    let enabled = Rule { enabled: true, ..rule.clone_rule() };
    assert_eq!(apply_rule("foo".to_string(), &enabled), "f00");
}

#[test]
fn rules_apply_in_the_order_of_the_chain() {
    let first = Rule {
        id: "a".into(),
        name: "a".into(),
        rule_type: RuleType::RegexReplace { pattern: "x".into(), replacement: "y".into() },
        enabled: true,
        sort_order: 0,
    };
    let second = Rule {
        id: "b".into(),
        name: "b".into(),
        rule_type: RuleType::RegexReplace { pattern: "y".into(), replacement: "z".into() },
        enabled: true,
        sort_order: 1,
    };
    assert_eq!(apply_regex_rules("xy", &vec![first.clone_rule(), second.clone_rule()]), "zz");
    assert_eq!(apply_regex_rules("xy", &vec![second, first]), "yz");
}

#[test]
fn id_listed_compares_whole_identifiers() {
    let ids = vec!["remove-fillers".to_string(), "x".to_string()];
    assert!(id_listed(&ids, "x"));
    assert!(id_listed(&ids, "remove-fillers"));
    assert!(!id_listed(&ids, "remove"));
    assert!(!id_listed(&vec![], "x"));
}
