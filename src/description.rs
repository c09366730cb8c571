//! The description of an animal: mandatory, at most forty graphemes by default.
use crate::field::{check_profile, profile_outcome, ValidationCheck};
use crate::inspector::StringInspector;
use crate::locale::{ErrorCollector, ErrorStore, TokenView};
use crate::string_rules::{StringLengthRule, StringMandatoryRule};
use vstd::prelude::*;

verus! {

/// The rule profile of a description.
pub struct DescriptionRules {
    pub is_mandatory: bool,
    pub min_length: Option<usize>,
    pub max_length: Option<usize>,
}

impl DescriptionRules {
    pub open spec fn mandatory_rule(&self) -> StringMandatoryRule {
        StringMandatoryRule { is_mandatory: self.is_mandatory }
    }

    pub open spec fn length_rule(&self) -> StringLengthRule {
        StringLengthRule { min_length: self.min_length, max_length: self.max_length }
    }

    /// Outcome of parsing `s` under these rules.
    pub open spec fn outcome(&self, s: Seq<char>) -> Result<Seq<char>, Seq<TokenView>> {
        profile_outcome(self.mandatory_rule(), self.length_rule(), s)
    }

    pub open spec fn default_spec() -> DescriptionRules {
        DescriptionRules { is_mandatory: true, min_length: None, max_length: Some(40) }
    }

    pub fn rules(&self) -> (r: (StringMandatoryRule, StringLengthRule))
        ensures
            r.0 == self.mandatory_rule(),
            r.1 == self.length_rule(),
    {
        (
            StringMandatoryRule { is_mandatory: self.is_mandatory },
            StringLengthRule { min_length: self.min_length, max_length: self.max_length },
        )
    }

    fn check(&self, msgs: &mut ErrorCollector, subject: &StringInspector)
        ensures
            final(msgs)@ == old(msgs)@ + crate::field::profile_errors(
                self.mandatory_rule(),
                self.length_rule(),
                subject@,
            ),
    {
        let (mandatory_rule, length_rule) = self.rules();
        check_profile(&mandatory_rule, &length_rule, msgs, subject);
    }
}

impl Default for DescriptionRules {
    fn default() -> (r: Self)
        ensures
            r == DescriptionRules::default_spec(),
    {
        DescriptionRules { is_mandatory: true, min_length: None, max_length: Some(40) }
    }
}

/// Outcome of `Description::parse` on `s`.
pub open spec fn description_outcome(s: Seq<char>) -> Result<Seq<char>, Seq<TokenView>> {
    DescriptionRules::default_spec().outcome(s)
}

/// The tokens reported for a description; never empty when built by parsing.
#[derive(Debug, PartialEq)]
pub struct DescriptionError(pub ErrorStore);

impl DescriptionError {
    pub open spec fn wf(&self) -> bool {
        self.0@.len() > 0
    }
}

impl Clone for DescriptionError {
    fn clone(&self) -> (r: Self)
        ensures
            r.0@ == self.0@,
    {
        DescriptionError(self.0.clone())
    }
}

impl ValidationCheck for DescriptionError {
    open spec fn messages(&self) -> Seq<TokenView> {
        self.0@
    }

    fn validation_check(collector: ErrorCollector) -> (r: Result<(), Self>) {
        if collector.is_empty() {
            Ok(())
        } else {
            Err(DescriptionError(collector.seal()))
        }
    }
}

/// A description text that passed its rules.
#[derive(Debug, PartialEq)]
pub struct Description(String);

impl View for Description {
    type V = Seq<char>;

    closed spec fn view(&self) -> Seq<char> {
        self.0@
    }
}

impl Clone for Description {
    fn clone(&self) -> (r: Self)
        ensures
            r@ == self@,
    {
        Description(self.0.clone())
    }
}

impl Default for Description {
    fn default() -> (r: Self)
        ensures
            r@ == Seq::<char>::empty(),
    {
        Description(String::new())
    }
}

/// Mathematical value of a description parse result.
pub open spec fn description_result_view(r: Result<Description, DescriptionError>) -> Result<
    Seq<char>,
    Seq<TokenView>,
> {
    match r {
        Ok(v) => Ok(v@),
        Err(e) => Err(e.0@),
    }
}

impl Description {
    pub fn parse_custom(subject: String, rules: &DescriptionRules) -> (r: Result<
        Self,
        DescriptionError,
    >)
        ensures
            description_result_view(r) == rules.outcome(subject@),
            r matches Err(e) ==> e.wf(),
    {
        let mut msgs = ErrorCollector::new();
        let validator = StringInspector::new(subject.clone());
        rules.check(&mut msgs, &validator);
        match DescriptionError::validation_check(msgs) {
            Ok(()) => Ok(Description(subject)),
            Err(e) => Err(e),
        }
    }

    pub fn parse(subject: String) -> (r: Result<Self, DescriptionError>)
        ensures
            description_result_view(r) == description_outcome(subject@),
            r matches Err(e) ==> e.wf(),
    {
        Self::parse_custom(subject, &DescriptionRules::default())
    }

    pub fn as_str(&self) -> (r: &str)
        ensures
            r@ == self@,
    {
        self.0.as_str()
    }
}

/// A description that parsed parses again to the same description.
pub proof fn lemma_description_parse_idempotent(s: Seq<char>)
    requires
        description_outcome(s) is Ok,
    ensures
        description_outcome(description_outcome(s)->Ok_0) == description_outcome(s),
{
}

} // verus!
