//! Rule primitives: independent checks over an inspected text that append error tokens.
use crate::inspector::{
    grapheme_count, has_digit, has_lowercase, has_special, has_uppercase, StringInspector,
};
use crate::locale::{ArgValue, ErrorCollector, ErrorToken, TokenView};
use crate::text::{decimal, push_decimal};
use vstd::prelude::*;
use vstd::string::StringExecFns;

verus! {

pub open spec fn mandatory_message() -> TokenView {
    TokenView { fallback: "Cannot be empty"@, key: "validation.mandatory"@, args: seq![] }
}

pub open spec fn min_length_message(n: nat) -> TokenView {
    TokenView {
        fallback: "Must be at least "@ + decimal(n) + " characters"@,
        key: "validation.min_length"@,
        args: seq![("n"@, ArgValue::Unsigned(n))],
    }
}

pub open spec fn max_length_message(n: nat) -> TokenView {
    TokenView {
        fallback: "Must be at most "@ + decimal(n) + " characters"@,
        key: "validation.max_length"@,
        args: seq![("n"@, ArgValue::Unsigned(n))],
    }
}

pub open spec fn special_message() -> TokenView {
    TokenView {
        fallback: "Must contain at least one special character"@,
        key: "validation.special_chars"@,
        args: seq![],
    }
}

pub open spec fn uppercase_and_lowercase_message() -> TokenView {
    TokenView {
        fallback: "Must contain at least one uppercase and lowercase letter"@,
        key: "validation.uppercase_and_lowercase"@,
        args: seq![],
    }
}

pub open spec fn uppercase_message() -> TokenView {
    TokenView {
        fallback: "Must contain at least one uppercase letter"@,
        key: "validation.uppercase"@,
        args: seq![],
    }
}

pub open spec fn lowercase_message() -> TokenView {
    TokenView {
        fallback: "Must contain at least one lowercase letter"@,
        key: "validation.lowercase"@,
        args: seq![],
    }
}

pub open spec fn digit_message() -> TokenView {
    TokenView {
        fallback: "Must contain at least one digit"@,
        key: "validation.digit"@,
        args: seq![],
    }
}

/// `seq![t]` when `cond` holds, the empty sequence otherwise.
pub open spec fn when(cond: bool, t: TokenView) -> Seq<TokenView> {
    if cond {
        seq![t]
    } else {
        seq![]
    }
}

/// Reports an empty text when the field is mandatory.
pub struct StringMandatoryRule {
    pub is_mandatory: bool,
}

impl StringMandatoryRule {
    /// The tokens this rule reports for text `s`.
    pub open spec fn errors(&self, s: Seq<char>) -> Seq<TokenView> {
        when(self.is_mandatory && s.len() == 0, mandatory_message())
    }

    pub fn check(&self, msgs: &mut ErrorCollector, subject: &StringInspector)
        ensures
            final(msgs)@ == old(msgs)@ + self.errors(subject@),
    {
        if self.is_mandatory && subject.is_empty() {
            msgs.push(ErrorToken::plain("Cannot be empty", "validation.mandatory"));
        }
        assert(final(msgs)@ =~= old(msgs)@ + self.errors(subject@));
    }
}

/// Bounds on the number of graphemes of the text; either bound may be absent.
pub struct StringLengthRule {
    pub min_length: Option<usize>,
    pub max_length: Option<usize>,
}

impl StringLengthRule {
    /// The tokens this rule reports for a text of `count` graphemes.
    pub open spec fn errors_for_count(&self, count: nat) -> Seq<TokenView> {
        when(
            self.min_length is Some && count < self.min_length->0,
            min_length_message(self.min_length->0 as nat),
        ) + when(
            self.max_length is Some && count > self.max_length->0,
            max_length_message(self.max_length->0 as nat),
        )
    }

    /// The tokens this rule reports for text `s`.
    pub open spec fn errors(&self, s: Seq<char>) -> Seq<TokenView> {
        self.errors_for_count(grapheme_count(s))
    }

    pub fn check(&self, msgs: &mut ErrorCollector, subject: &StringInspector)
        ensures
            final(msgs)@ == old(msgs)@ + self.errors(subject@),
    {
        self.check_count(msgs, subject.count_graphemes());
    }

    /// The check for a text of `count` graphemes.
    pub fn check_count(&self, msgs: &mut ErrorCollector, count: usize)
        ensures
            final(msgs)@ == old(msgs)@ + self.errors_for_count(count as nat),
    {
        if let Some(min_length) = self.min_length {
            if count < min_length {
                let mut fallback = "Must be at least ".to_string();
                push_decimal(&mut fallback, min_length as u128);
                fallback.append(" characters");
                msgs.push(
                    ErrorToken::with_unsigned(fallback, "validation.min_length", "n", min_length),
                );
            }
        }
        let ghost mid = msgs@;
        assert(mid =~= old(msgs)@ + when(
            self.min_length is Some && count < self.min_length->0,
            min_length_message(self.min_length->0 as nat),
        ));
        if let Some(max_length) = self.max_length {
            if count > max_length {
                let mut fallback = "Must be at most ".to_string();
                push_decimal(&mut fallback, max_length as u128);
                fallback.append(" characters");
                msgs.push(
                    ErrorToken::with_unsigned(fallback, "validation.max_length", "n", max_length),
                );
            }
        }
        assert(final(msgs)@ =~= old(msgs)@ + self.errors_for_count(count as nat));
    }
}

/// Requirements on the classes of characters the text must contain.
pub struct StringSpecialCharRule {
    pub must_have_uppercase: bool,
    pub must_have_lowercase: bool,
    pub must_have_special_chars: bool,
    pub must_have_digit: bool,
}

impl StringSpecialCharRule {
    /// Letter-case tokens: one combined message when both cases are required.
    pub open spec fn case_errors(&self, s: Seq<char>) -> Seq<TokenView> {
        if self.must_have_uppercase && self.must_have_lowercase {
            when(!(has_uppercase(s) && has_lowercase(s)), uppercase_and_lowercase_message())
        } else {
            when(self.must_have_uppercase && !has_uppercase(s), uppercase_message()) + when(
                self.must_have_lowercase && !has_lowercase(s),
                lowercase_message(),
            )
        }
    }

    /// The tokens this rule reports for text `s`, in order: special, letter case, digit.
    pub open spec fn errors(&self, s: Seq<char>) -> Seq<TokenView> {
        when(self.must_have_special_chars && !has_special(s), special_message()) + self.case_errors(
            s,
        ) + when(self.must_have_digit && !has_digit(s), digit_message())
    }

    pub fn check(&self, msgs: &mut ErrorCollector, subject: &StringInspector)
        ensures
            final(msgs)@ == old(msgs)@ + self.errors(subject@),
    {
        let ghost s = subject@;
        if self.must_have_special_chars {
            if !subject.has_special_chars() {
                msgs.push(
                    ErrorToken::plain(
                        "Must contain at least one special character",
                        "validation.special_chars",
                    ),
                );
            }
        }
        let ghost after_special = msgs@;
        assert(after_special =~= old(msgs)@ + when(
            self.must_have_special_chars && !has_special(s),
            special_message(),
        ));
        if self.must_have_uppercase && self.must_have_lowercase {
            if !subject.has_ascii_uppercase_and_lowercase() {
                msgs.push(
                    ErrorToken::plain(
                        "Must contain at least one uppercase and lowercase letter",
                        "validation.uppercase_and_lowercase",
                    ),
                );
            }
        } else {
            if self.must_have_uppercase {
                if !subject.has_ascii_uppercase() {
                    msgs.push(
                        ErrorToken::plain(
                            "Must contain at least one uppercase letter",
                            "validation.uppercase",
                        ),
                    );
                }
            }
            let ghost after_upper = msgs@;
            assert(after_upper =~= after_special + when(
                self.must_have_uppercase && !has_uppercase(s),
                uppercase_message(),
            ));
            if self.must_have_lowercase {
                if !subject.has_ascii_lowercase() {
                    msgs.push(
                        ErrorToken::plain(
                            "Must contain at least one lowercase letter",
                            "validation.lowercase",
                        ),
                    );
                }
            }
        }
        let ghost after_case = msgs@;
        assert(after_case =~= after_special + self.case_errors(s));
        if self.must_have_digit {
            if !subject.has_ascii_digit() {
                msgs.push(
                    ErrorToken::plain("Must contain at least one digit", "validation.digit"),
                );
            }
        }
        assert(final(msgs)@ =~= old(msgs)@ + self.errors(s));
    }
}

} // verus!
