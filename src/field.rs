//! What a typed field's rule profile reports, and the outcome of parsing under it.
use crate::inspector::StringInspector;
use crate::locale::{ErrorCollector, TokenView};
use crate::string_rules::{StringLengthRule, StringMandatoryRule};
use vstd::prelude::*;

verus! {

/// Tokens of a profile: the mandatory rule first; the length rule only when the
/// mandatory rule reported nothing.
pub open spec fn profile_errors(
    mandatory: StringMandatoryRule,
    length: StringLengthRule,
    s: Seq<char>,
) -> Seq<TokenView> {
    let m = mandatory.errors(s);
    if m.len() > 0 {
        m
    } else {
        length.errors(s)
    }
}

/// Outcome of parsing `s` under a profile: the text itself, or the tokens reported.
pub open spec fn profile_outcome(
    mandatory: StringMandatoryRule,
    length: StringLengthRule,
    s: Seq<char>,
) -> Result<Seq<char>, Seq<TokenView>> {
    let e = profile_errors(mandatory, length, s);
    if e.len() == 0 {
        Ok(s)
    } else {
        Err(e)
    }
}

/// Runs the mandatory rule and, unless it reported, the length rule.
pub fn check_profile(
    mandatory: &StringMandatoryRule,
    length: &StringLengthRule,
    msgs: &mut ErrorCollector,
    subject: &StringInspector,
)
    ensures
        final(msgs)@ == old(msgs)@ + profile_errors(*mandatory, *length, subject@),
{
    let before = msgs.len();
    mandatory.check(msgs, subject);
    if msgs.len() > before {
        return;
    }
    length.check(msgs, subject);
    assert(final(msgs)@ =~= old(msgs)@ + profile_errors(*mandatory, *length, subject@));
}

/// Parsing is idempotent under any profile: text that parsed parses again to itself.
pub proof fn lemma_profile_parse_idempotent(
    mandatory: StringMandatoryRule,
    length: StringLengthRule,
    s: Seq<char>,
)
    requires
        profile_outcome(mandatory, length, s) is Ok,
    ensures
        profile_outcome(mandatory, length, profile_outcome(mandatory, length, s)->Ok_0)
            == profile_outcome(mandatory, length, s),
{
}

/// The error of a typed field: it holds the store of what the field's rules reported.
pub trait ValidationCheck: Sized {
    /// The tokens this error holds.
    spec fn messages(&self) -> Seq<TokenView>;

    /// Seals the collector: success when it is empty, otherwise an error holding its tokens.
    fn validation_check(collector: ErrorCollector) -> (r: Result<(), Self>)
        ensures
            r is Ok <==> collector@.len() == 0,
            r matches Err(e) ==> e.messages() == collector@,
    ;
}

} // verus!
