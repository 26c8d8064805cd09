//! Text rules applied to a transcript: the built-in ones and custom
//! replacements by regular expression, in a chain.

use crate::text::{str_eq, views};
use vstd::prelude::*;
use vstd::string::*;

pub mod filler;
pub mod punctuation;

verus! {

/// What a rule does.
#[derive(Debug, Clone, PartialEq, Eq)]
pub enum RuleType {
    /// Every match of `pattern` is replaced by `replacement`.
    RegexReplace { pattern: String, replacement: String },
}

/// A rule of the chain.
#[derive(Debug, Clone, PartialEq, Eq)]
pub struct Rule {
    pub id: String,
    pub name: String,
    pub rule_type: RuleType,
    pub enabled: bool,
    pub sort_order: i32,
}

/// A rule, with its texts as sequences of characters.
pub struct RuleView {
    pub id: Seq<char>,
    pub name: Seq<char>,
    pub pattern: Seq<char>,
    pub replacement: Seq<char>,
    pub enabled: bool,
    pub sort_order: i32,
}

impl View for Rule {
    type V = RuleView;

    open spec fn view(&self) -> RuleView {
        RuleView {
            id: self.id@,
            name: self.name@,
            pattern: self.rule_type->pattern@,
            replacement: self.rule_type->replacement@,
            enabled: self.enabled,
            sort_order: self.sort_order,
        }
    }
}

/// What a list of rules says.
pub open spec fn rule_views(rules: Seq<Rule>) -> Seq<RuleView> {
    Seq::new(rules.len(), |i: int| rules[i]@)
}

/// Whether `Regex::new` accepts a pattern.
pub uninterp spec fn regex_accepts(pattern: Seq<char>) -> bool;

/// What `Regex::replace_all` gives for a pattern, a text to search and a
/// replacement text.
pub uninterp spec fn regex_replaced(
    pattern: Seq<char>,
    haystack: Seq<char>,
    replacement: Seq<char>,
) -> Seq<char>;

/// `haystack` with every match of `pattern` replaced, where the pattern is
/// one; `haystack` itself where it is none.
pub open spec fn replaced_or_kept(
    pattern: Seq<char>,
    haystack: Seq<char>,
    replacement: Seq<char>,
) -> Seq<char> {
    if regex_accepts(pattern) {
        regex_replaced(pattern, haystack, replacement)
    } else {
        haystack
    }
}

/// The built-in rules as they are offered: filler removal, then smart
/// punctuation, both switched off.
pub open spec fn builtin_rule_views() -> Seq<RuleView> {
    seq![
        RuleView {
            id: "remove-fillers"@,
            name: "Remove Filler Words"@,
            pattern: filler::FILLER_PATTERN@,
            replacement: Seq::empty(),
            enabled: false,
            sort_order: 0,
        },
        RuleView {
            id: "smart-punctuation"@,
            name: "Smart Punctuation"@,
            pattern: Seq::empty(),
            replacement: Seq::empty(),
            enabled: false,
            sort_order: 1,
        },
    ]
}

/// What one rule makes of a text: nothing while it is switched off; the
/// two built-in rules, known by their identifiers, do their own work; any
/// other rule replaces by its pattern, and is passed over if its pattern
/// is none.
pub open spec fn rule_applied(text: Seq<char>, rule: RuleView) -> Seq<char> {
    if !rule.enabled {
        text
    } else if rule.id == "remove-fillers"@ {
        filler::fillers_removed(text)
    } else if rule.id == "smart-punctuation"@ {
        punctuation::punctuation_fixed(text)
    } else {
        replaced_or_kept(rule.pattern, text, rule.replacement)
    }
}

/// What the first `upto` rules of a chain make of a text, one after the
/// other.
pub open spec fn rules_applied(text: Seq<char>, rules: Seq<RuleView>, upto: int) -> Seq<char>
    decreases upto,
{
    if upto <= 0 || upto > rules.len() {
        text
    } else {
        rule_applied(rules_applied(text, rules, upto - 1), rules[upto - 1])
    }
}

/// The built-in rules with those switched on whose identifier is among
/// `enabled_ids`.
pub open spec fn builtin_rules_enabled(enabled_ids: Seq<Seq<char>>) -> Seq<RuleView> {
    Seq::new(
        builtin_rule_views().len(),
        |i: int|
            RuleView {
                enabled: enabled_ids.contains(builtin_rule_views()[i].id),
                ..builtin_rule_views()[i]
            },
    )
}

/// Compiles `pattern` with `Regex::new` and, if that succeeds, calls
/// `Regex::replace_all` on `haystack` with `replacement` as the replacement
/// text. `None` means that the pattern was refused. Both outcomes depend
/// on the arguments alone and are named `regex_accepts` and
/// `regex_replaced`.
#[verifier::external_body]
pub(crate) fn regex_replace_all(pattern: &str, haystack: &str, replacement: &str) -> (out: Option<
    String,
>)
    ensures
        out is Some == regex_accepts(pattern@),
        out matches Some(text) ==> text@ == regex_replaced(pattern@, haystack@, replacement@),
{
    match regex::Regex::new(pattern) {
        Ok(re) => Some(re.replace_all(haystack, replacement).into_owned()),
        Err(_) => None,
    }
}

/// Replaces every match of `pattern` in `text`, or hands `text` back if
/// `pattern` is no pattern.
pub fn replace_or_keep(pattern: &str, text: String, replacement: &str) -> (out: String)
    ensures
        out@ == replaced_or_kept(pattern@, text@, replacement@),
{
    match regex_replace_all(pattern, text.as_str(), replacement) {
        Some(replaced) => replaced,
        None => text,
    }
}

fn builtin_rule(id: &str, name: &str, pattern: &str, sort_order: i32) -> (rule: Rule)
    ensures
        rule@ == (RuleView {
            id: id@,
            name: name@,
            pattern: pattern@,
            replacement: Seq::empty(),
            enabled: false,
            sort_order,
        }),
{
    Rule {
        id: String::from_str(id),
        name: String::from_str(name),
        rule_type: RuleType::RegexReplace {
            pattern: String::from_str(pattern),
            replacement: String::new(),
        },
        enabled: false,
        sort_order,
    }
}

/// The built-in rules.
pub fn builtin_rules() -> (rules: Vec<Rule>)
    ensures
        rule_views(rules@) == builtin_rule_views(),
{
    proof {
        reveal_strlit("");
    }
    let mut rules: Vec<Rule> = Vec::new();
    rules.push(builtin_rule("remove-fillers", "Remove Filler Words", filler::FILLER_PATTERN, 0));
    rules.push(builtin_rule("smart-punctuation", "Smart Punctuation", "", 1));
    assert(""@ =~= Seq::<char>::empty());
    assert(rule_views(rules@) =~= builtin_rule_views());
    rules
}

/// Applies one rule to a text.
pub fn apply_rule(text: String, rule: &Rule) -> (out: String)
    ensures
        out@ == rule_applied(text@, rule@),
{
    if !rule.enabled {
        return text;
    }
    if str_eq(rule.id.as_str(), "remove-fillers") {
        return filler::remove_fillers(text.as_str());
    }
    if str_eq(rule.id.as_str(), "smart-punctuation") {
        return punctuation::fix_punctuation(text.as_str());
    }
    match &rule.rule_type {
        RuleType::RegexReplace { pattern, replacement } => replace_or_keep(
            pattern.as_str(),
            text,
            replacement.as_str(),
        ),
    }
}

/// Applies the rules of a chain that are switched on, in the chain's
/// order.
pub fn apply_regex_rules(text: &str, rules: &Vec<Rule>) -> (out: String)
    ensures
        out@ == rules_applied(text@, rule_views(rules@), rules@.len() as int),
{
    let mut result = String::from_str(text);
    let mut i: usize = 0;
    while i < rules.len()
        invariant
            i <= rules.len(),
            result@ == rules_applied(text@, rule_views(rules@), i as int),
        decreases rules.len() - i,
    {
        result = apply_rule(result, &rules[i]);
        i += 1;
    }
    result
}

/// Whether `id` is among `ids`.
pub fn id_listed(ids: &Vec<String>, id: &str) -> (listed: bool)
    ensures
        listed == views(ids@).contains(id@),
{
    let key = String::from_str(id);
    let mut i: usize = 0;
    while i < ids.len()
        invariant
            i <= ids.len(),
            key@ == id@,
            forall|j: int| 0 <= j < i ==> views(ids@)[j] != id@,
        decreases ids.len() - i,
    {
        if ids[i] == key {
            assert(views(ids@)[i as int] == id@);
            return true;
        }
        i += 1;
    }
    false
}

/// Applies the built-in rules named in `enabled_rule_ids` to `text`.
/// Identifiers that name no rule are passed over. Never fails.
pub fn apply_rules(text: String, enabled_rule_ids: Vec<String>) -> (out: Result<String, String>)
    ensures
        out matches Ok(result) && result@ == rules_applied(
            text@,
            builtin_rules_enabled(views(enabled_rule_ids@)),
            builtin_rule_views().len() as int,
        ),
{
    let mut rules = builtin_rules();
    let ghost offered = rule_views(rules@);
    let mut i: usize = 0;
    let total = rules.len();
    while i < total
        invariant
            i <= total,
            total == rules.len(),
            offered == builtin_rule_views(),
            rule_views(rules@).len() == offered.len(),
            forall|j: int|
                0 <= j < i ==> #[trigger] rule_views(rules@)[j] == builtin_rules_enabled(
                    views(enabled_rule_ids@),
                )[j],
            forall|j: int| i <= j < total ==> #[trigger] rule_views(rules@)[j] == offered[j],
        decreases total - i,
    {
        let listed = id_listed(&enabled_rule_ids, rules[i].id.as_str());
        let ghost before = rules@;
        assert(rule_views(before)[i as int] == offered[i as int]);
        let mut rule = rules[i].clone_rule();
        rule.enabled = listed;
        rules.set(i, rule);
        assert forall|j: int| 0 <= j < total && j != i implies #[trigger] rule_views(rules@)[j]
            == rule_views(before)[j] by {}
        assert(rule_views(rules@)[i as int] == builtin_rules_enabled(
            views(enabled_rule_ids@),
        )[i as int]);
        i += 1;
    }
    assert(rule_views(rules@) =~= builtin_rules_enabled(views(enabled_rule_ids@)));
    Ok(apply_regex_rules(text.as_str(), &rules))
}

impl Rule {
    /// A copy of the rule.
    pub fn clone_rule(&self) -> (copy: Rule)
        ensures
            copy@ == self@,
    {
        match &self.rule_type {
            RuleType::RegexReplace { pattern, replacement } => Rule {
                id: self.id.clone(),
                name: self.name.clone(),
                rule_type: RuleType::RegexReplace {
                    pattern: pattern.clone(),
                    replacement: replacement.clone(),
                },
                enabled: self.enabled,
                sort_order: self.sort_order,
            },
        }
    }
}

} // verus!
