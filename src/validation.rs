//! Rules that screen a line of user text before it is run or opened.

use vstd::prelude::*;
use vstd::string::StringExecFns;
use crate::errors::{concat, ValidationError};
use crate::text::{contains_text, first_word, first_word_of, occurs_at, occurs_in};

verus! {

/// A check on a line of text.
pub trait ValidationRule {
    /// The message of the rejection of `input`, `None` where it passes.
    spec fn verdict(&self, input: Seq<char>) -> Option<Seq<char>>;

    fn validate(&self, input: &str) -> (r: Result<(), ValidationError>)
        ensures
            rejects(r, self.verdict(input@)),
    ;

    fn rule_name(&self) -> &'static str;
}

/// Whether `r` is the outcome that `verdict` calls for.
pub open spec fn rejects(r: Result<(), ValidationError>, verdict: Option<Seq<char>>) -> bool {
    match verdict {
        None => r is Ok,
        Some(m) => r matches Err(ValidationError::InvalidInput { message }) && message@ == m,
    }
}

fn invalid(message: String) -> (r: Result<(), ValidationError>)
    ensures
        r matches Err(ValidationError::InvalidInput { message: m }) && m == message,
{
    Err(ValidationError::InvalidInput { message })
}

/// Admits commands: no `..`, none of `;`, `&`, `|`, and, where a list of
/// allowed commands is given, a first word from that list.
pub struct CommandValidationRule {
    pub allowed_commands: Vec<String>,
}

/// Whether `word` is one of `allowed`.
pub open spec fn listed(allowed: Seq<String>, word: Seq<char>) -> bool {
    exists|i: int| 0 <= i < allowed.len() && (#[trigger] allowed[i])@ == word
}

pub open spec fn command_verdict(allowed: Seq<String>, s: Seq<char>) -> Option<Seq<char>> {
    if occurs_in(s, ".."@) {
        Some("Path traversal detected"@)
    } else if occurs_in(s, ";"@) || occurs_in(s, "&"@) || occurs_in(s, "|"@) {
        Some("Dangerous characters detected"@)
    } else if allowed.len() > 0 && !listed(allowed, first_word_of(s)) {
        Some("Command not allowed: "@ + first_word_of(s))
    } else {
        None
    }
}

impl CommandValidationRule {
    pub fn new(allowed_commands: Vec<String>) -> (r: CommandValidationRule)
        ensures
            r.allowed_commands == allowed_commands,
    {
        CommandValidationRule { allowed_commands }
    }

    fn is_listed(&self, word: &str) -> (r: bool)
        ensures
            r == listed(self.allowed_commands@, word@),
    {
        let mut i: usize = 0;
        while i < self.allowed_commands.len()
            invariant
                i <= self.allowed_commands@.len(),
                forall|k: int| 0 <= k < i ==> (#[trigger] self.allowed_commands@[k])@ != word@,
            decreases self.allowed_commands@.len() - i,
        {
            if crate::json::text_eq(self.allowed_commands[i].as_str(), word) {
                return true;
            }
            i += 1;
        }
        false
    }
}

impl ValidationRule for CommandValidationRule {
    open spec fn verdict(&self, input: Seq<char>) -> Option<Seq<char>> {
        command_verdict(self.allowed_commands@, input)
    }

    fn validate(&self, input: &str) -> (r: Result<(), ValidationError>) {
        if contains_text(input, "..") {
            return invalid(String::from_str("Path traversal detected"));
        }
        if contains_text(input, ";") || contains_text(input, "&") || contains_text(input, "|") {
            return invalid(String::from_str("Dangerous characters detected"));
        }
        let command = first_word(input);
        if self.allowed_commands.len() > 0 && !self.is_listed(command.as_str()) {
            return invalid(concat("Command not allowed: ", command.as_str()));
        }
        Ok(())
    }

    fn rule_name(&self) -> &'static str {
        "CommandValidationRule"
    }
}

/// Admits relative paths that do not climb out with `..`.
pub struct PathValidationRule;

pub open spec fn path_verdict(s: Seq<char>) -> Option<Seq<char>> {
    if occurs_in(s, ".."@) {
        Some("Path traversal detected"@)
    } else if occurs_at(s, "/"@, 0) || occurs_at(s, "\\"@, 0) {
        Some("Absolute paths not allowed"@)
    } else {
        None
    }
}

impl PathValidationRule {
    pub fn new() -> (r: PathValidationRule) {
        PathValidationRule
    }
}

impl ValidationRule for PathValidationRule {
    open spec fn verdict(&self, input: Seq<char>) -> Option<Seq<char>> {
        path_verdict(input)
    }

    fn validate(&self, input: &str) -> (r: Result<(), ValidationError>) {
        if contains_text(input, "..") {
            return invalid(String::from_str("Path traversal detected"));
        }
        if crate::text::starts_with_text(input, "/") || crate::text::starts_with_text(input, "\\") {
            return invalid(String::from_str("Absolute paths not allowed"));
        }
        Ok(())
    }

    fn rule_name(&self) -> &'static str {
        "PathValidationRule"
    }
}

/// A rule held by an `InputValidator`.
pub enum Rule {
    Command(CommandValidationRule),
    Path(PathValidationRule),
}

impl Rule {
    pub open spec fn verdict(&self, input: Seq<char>) -> Option<Seq<char>> {
        match self {
            Rule::Command(r) => r.verdict(input),
            Rule::Path(r) => r.verdict(input),
        }
    }

    pub fn validate(&self, input: &str) -> (r: Result<(), ValidationError>)
        ensures
            rejects(r, self.verdict(input@)),
    {
        match self {
            Rule::Command(r) => r.validate(input),
            Rule::Path(r) => r.validate(input),
        }
    }
}

/// A list of rules, applied in the order they were added.
pub struct InputValidator {
    pub rules: Vec<Rule>,
}

/// The verdict of the first rule among `rules` that rejects `input`.
pub open spec fn first_rejection(rules: Seq<Rule>, input: Seq<char>) -> Option<Seq<char>>
    decreases rules.len(),
{
    if rules.len() == 0 {
        None
    } else if rules[0].verdict(input) is Some {
        rules[0].verdict(input)
    } else {
        first_rejection(rules.drop_first(), input)
    }
}

proof fn lemma_first_rejection_skip(rules: Seq<Rule>, input: Seq<char>, i: int)
    requires
        0 <= i <= rules.len(),
        forall|k: int| 0 <= k < i ==> (#[trigger] rules[k]).verdict(input) is None,
    ensures
        first_rejection(rules, input) == first_rejection(rules.subrange(i, rules.len() as int), input),
    decreases i,
{
    if i > 0 {
        lemma_first_rejection_skip(rules.drop_first(), input, i - 1);
        assert(rules.drop_first().subrange(i - 1, rules.len() - 1) =~= rules.subrange(i, rules.len() as int));
    } else {
        assert(rules.subrange(0, rules.len() as int) =~= rules);
    }
}

impl InputValidator {
    pub fn new() -> (r: InputValidator)
        ensures
            r.rules@.len() == 0,
    {
        InputValidator { rules: Vec::new() }
    }

    pub fn add_rule(&mut self, rule: Rule)
        ensures
            final(self).rules@ == old(self).rules@.push(rule),
    {
        self.rules.push(rule);
    }

    /// Applies every rule in order; the first rejection is the result.
    pub fn validate(&self, input: &str) -> (r: Result<(), ValidationError>)
        ensures
            rejects(r, first_rejection(self.rules@, input@)),
    {
        let mut i: usize = 0;
        while i < self.rules.len()
            invariant
                i <= self.rules@.len(),
                forall|k: int| 0 <= k < i ==> (#[trigger] self.rules@[k]).verdict(input@) is None,
            decreases self.rules@.len() - i,
        {
            let r = self.rules[i].validate(input);
            if r.is_err() {
                proof {
                    lemma_first_rejection_skip(self.rules@, input@, i as int);
                    let rest = self.rules@.subrange(i as int, self.rules@.len() as int);
                    assert(rest[0] == self.rules@[i as int]);
                }
                return r;
            }
            i += 1;
        }
        proof {
            lemma_first_rejection_skip(self.rules@, input@, i as int);
        }
        Ok(())
    }
}

} // verus!
