//! The species of an animal: mandatory, at most twenty graphemes by default.
use crate::field::{check_profile, profile_outcome, ValidationCheck};
use crate::inspector::StringInspector;
use crate::locale::{ErrorCollector, ErrorStore, TokenView};
use crate::string_rules::{StringLengthRule, StringMandatoryRule};
use vstd::prelude::*;

verus! {

/// The rule profile of a species.
pub struct SpeciesRules {
    pub is_mandatory: bool,
    pub min_length: Option<usize>,
    pub max_length: Option<usize>,
}

impl SpeciesRules {
    pub open spec fn mandatory_rule(&self) -> StringMandatoryRule {
        StringMandatoryRule { is_mandatory: self.is_mandatory }
    }

    pub open spec fn length_rule(&self) -> StringLengthRule {
        StringLengthRule { min_length: self.min_length, max_length: self.max_length }
    }

    /// Outcome of parsing `s` under these rules.
    pub open spec fn outcome(&self, s: Seq<char>) -> Result<Seq<char>, Seq<TokenView>> {
        profile_outcome(self.mandatory_rule(), self.length_rule(), s)
    }

    pub open spec fn default_spec() -> SpeciesRules {
        SpeciesRules { is_mandatory: true, min_length: None, max_length: Some(20) }
    }

    pub fn rules(&self) -> (r: (StringMandatoryRule, StringLengthRule))
        ensures
            r.0 == self.mandatory_rule(),
            r.1 == self.length_rule(),
    {
        (
            StringMandatoryRule { is_mandatory: self.is_mandatory },
            StringLengthRule { min_length: self.min_length, max_length: self.max_length },
        )
    }

    fn check(&self, msgs: &mut ErrorCollector, subject: &StringInspector)
        ensures
            final(msgs)@ == old(msgs)@ + crate::field::profile_errors(
                self.mandatory_rule(),
                self.length_rule(),
                subject@,
            ),
    {
        let (mandatory_rule, length_rule) = self.rules();
        check_profile(&mandatory_rule, &length_rule, msgs, subject);
    }
}

impl Default for SpeciesRules {
    fn default() -> (r: Self)
        ensures
            r == SpeciesRules::default_spec(),
    {
        SpeciesRules { is_mandatory: true, min_length: None, max_length: Some(20) }
    }
}

/// Outcome of `Species::parse` on `s`.
pub open spec fn species_outcome(s: Seq<char>) -> Result<Seq<char>, Seq<TokenView>> {
    SpeciesRules::default_spec().outcome(s)
}

/// The tokens reported for a species; never empty when built by parsing.
#[derive(Debug, PartialEq)]
pub struct SpeciesError(pub ErrorStore);

impl SpeciesError {
    pub open spec fn wf(&self) -> bool {
        self.0@.len() > 0
    }
}

impl Clone for SpeciesError {
    fn clone(&self) -> (r: Self)
        ensures
            r.0@ == self.0@,
    {
        SpeciesError(self.0.clone())
    }
}

impl ValidationCheck for SpeciesError {
    open spec fn messages(&self) -> Seq<TokenView> {
        self.0@
    }

    fn validation_check(collector: ErrorCollector) -> (r: Result<(), Self>) {
        if collector.is_empty() {
            Ok(())
        } else {
            Err(SpeciesError(collector.seal()))
        }
    }
}

/// A species text that passed its rules.
#[derive(Debug, PartialEq)]
pub struct Species(String);

impl View for Species {
    type V = Seq<char>;

    closed spec fn view(&self) -> Seq<char> {
        self.0@
    }
}

impl Clone for Species {
    fn clone(&self) -> (r: Self)
        ensures
            r@ == self@,
    {
        Species(self.0.clone())
    }
}

impl Default for Species {
    fn default() -> (r: Self)
        ensures
            r@ == Seq::<char>::empty(),
    {
        Species(String::new())
    }
}

/// Mathematical value of a species parse result.
pub open spec fn species_result_view(r: Result<Species, SpeciesError>) -> Result<
    Seq<char>,
    Seq<TokenView>,
> {
    match r {
        Ok(v) => Ok(v@),
        Err(e) => Err(e.0@),
    }
}

impl Species {
    pub fn parse_custom(subject: String, rules: SpeciesRules) -> (r: Result<Self, SpeciesError>)
        ensures
            species_result_view(r) == rules.outcome(subject@),
            r matches Err(e) ==> e.wf(),
    {
        let mut msgs = ErrorCollector::new();
        let validator = StringInspector::new(subject.clone());
        rules.check(&mut msgs, &validator);
        match SpeciesError::validation_check(msgs) {
            Ok(()) => Ok(Species(subject)),
            Err(e) => Err(e),
        }
    }

    pub fn parse(subject: String) -> (r: Result<Self, SpeciesError>)
        ensures
            species_result_view(r) == species_outcome(subject@),
            r matches Err(e) ==> e.wf(),
    {
        Self::parse_custom(subject, SpeciesRules::default())
    }

    pub fn as_str(&self) -> (r: &str)
        ensures
            r@ == self@,
    {
        self.0.as_str()
    }
}

/// A species that parsed parses again to the same species.
pub proof fn lemma_species_parse_idempotent(s: Seq<char>)
    requires
        species_outcome(s) is Ok,
    ensures
        species_outcome(species_outcome(s)->Ok_0) == species_outcome(s),
{
}

} // verus!
