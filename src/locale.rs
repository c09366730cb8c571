//! Error tokens, the collector that rules append them to, and the sealed store.
use std::sync::Arc;
use vstd::prelude::*;

verus! {

/// Mathematical value of a named argument of a message.
pub enum ArgValue {
    Text(Seq<char>),
    Unsigned(nat),
    Signed(int),
}

/// Mathematical value of an error token: a fallback text and a locale reference.
pub struct TokenView {
    pub fallback: Seq<char>,
    pub key: Seq<char>,
    pub args: Seq<(Seq<char>, ArgValue)>,
}

/// Value of a named argument of a localised message.
#[derive(Debug, PartialEq)]
pub enum LocaleValue {
    String(String),
    Uint(usize),
    Int(isize),
}

impl View for LocaleValue {
    type V = ArgValue;

    open spec fn view(&self) -> ArgValue {
        match self {
            LocaleValue::String(s) => ArgValue::Text(s@),
            LocaleValue::Uint(n) => ArgValue::Unsigned(*n as nat),
            LocaleValue::Int(i) => ArgValue::Signed(*i as int),
        }
    }
}

pub open spec fn args_view(args: Seq<(String, LocaleValue)>) -> Seq<(Seq<char>, ArgValue)> {
    args.map_values(|p: (String, LocaleValue)| (p.0@, p.1@))
}

/// A message key of the catalogue together with the arguments of the message.
#[derive(Debug, PartialEq)]
pub struct LocaleData {
    pub name: String,
    pub args: Vec<(String, LocaleValue)>,
}

/// What a rule reports: a fallback text and the locale reference that translates it.
#[derive(Debug, PartialEq)]
pub struct ErrorToken {
    pub fallback: String,
    pub locale: LocaleData,
}

impl View for ErrorToken {
    type V = TokenView;

    open spec fn view(&self) -> TokenView {
        TokenView {
            fallback: self.fallback@,
            key: self.locale.name@,
            args: args_view(self.locale.args@),
        }
    }
}

pub open spec fn tokens_view(tokens: Seq<ErrorToken>) -> Seq<TokenView> {
    tokens.map_values(|t: ErrorToken| t@)
}

impl ErrorToken {
    /// A token whose message takes no argument.
    pub fn plain(fallback: &str, key: &str) -> (r: ErrorToken)
        ensures
            r@ == (TokenView { fallback: fallback@, key: key@, args: seq![] }),
    {
        let r = ErrorToken {
            fallback: fallback.to_string(),
            locale: LocaleData { name: key.to_string(), args: Vec::new() },
        };
        assert(args_view(r.locale.args@) =~= seq![]);
        r
    }

    /// A token whose message takes one unsigned argument.
    pub fn with_unsigned(fallback: String, key: &str, arg: &str, value: usize) -> (r: ErrorToken)
        ensures
            r@ == (TokenView {
                fallback: fallback@,
                key: key@,
                args: seq![(arg@, ArgValue::Unsigned(value as nat))],
            }),
    {
        let mut args: Vec<(String, LocaleValue)> = Vec::new();
        args.push((arg.to_string(), LocaleValue::Uint(value)));
        let r = ErrorToken { fallback, locale: LocaleData { name: key.to_string(), args } };
        assert(args_view(r.locale.args@) =~= seq![(arg@, ArgValue::Unsigned(value as nat))]);
        r
    }

    pub fn fallback(&self) -> (r: &str)
        ensures
            r@ == self@.fallback,
    {
        self.fallback.as_str()
    }

    pub fn key(&self) -> (r: &str)
        ensures
            r@ == self@.key,
    {
        self.locale.name.as_str()
    }
}

/// An append-only buffer of error tokens, filled by rules during one parse.
#[derive(Debug, PartialEq)]
pub struct ErrorCollector {
    tokens: Vec<ErrorToken>,
}

impl View for ErrorCollector {
    type V = Seq<TokenView>;

    closed spec fn view(&self) -> Seq<TokenView> {
        tokens_view(self.tokens@)
    }
}

impl ErrorCollector {
    pub fn new() -> (r: Self)
        ensures
            r@ == Seq::<TokenView>::empty(),
    {
        let r = ErrorCollector { tokens: Vec::new() };
        assert(r@ =~= Seq::<TokenView>::empty());
        r
    }

    pub fn push(&mut self, token: ErrorToken)
        ensures
            final(self)@ == old(self)@.push(token@),
    {
        self.tokens.push(token);
        assert(final(self)@ =~= old(self)@.push(token@));
    }

    pub fn len(&self) -> (r: usize)
        ensures
            r == self@.len(),
    {
        self.tokens.len()
    }

    pub fn is_empty(&self) -> (r: bool)
        ensures
            r == (self@.len() == 0),
    {
        self.tokens.len() == 0
    }

    pub fn token(&self, i: usize) -> (r: &ErrorToken)
        requires
            i < self@.len(),
        ensures
            r@ == self@[i as int],
    {
        &self.tokens[i]
    }

    /// The fallback text of the `i`-th token.
    pub fn fallback(&self, i: usize) -> (r: &str)
        requires
            i < self@.len(),
        ensures
            r@ == self@[i as int].fallback,
    {
        self.tokens[i].fallback.as_str()
    }

    /// Seals the buffer into an immutable store holding the same tokens in the same order.
    pub fn seal(self) -> (r: ErrorStore)
        ensures
            r@ == self@,
    {
        ErrorStore { tokens: Arc::new(self.tokens) }
    }
}

/// Relies on `Arc::clone`: the new handle shares the very same tokens.
#[verifier::external_body]
fn share_tokens(tokens: &Arc<Vec<ErrorToken>>) -> (r: Arc<Vec<ErrorToken>>)
    ensures
        r == *tokens,
{
    Arc::clone(tokens)
}

/// A sealed, immutable sequence of error tokens; cloning shares it.
#[derive(Debug, PartialEq)]
pub struct ErrorStore {
    tokens: Arc<Vec<ErrorToken>>,
}

impl View for ErrorStore {
    type V = Seq<TokenView>;

    closed spec fn view(&self) -> Seq<TokenView> {
        tokens_view((*self.tokens)@)
    }
}

impl Clone for ErrorStore {
    fn clone(&self) -> (r: Self)
        ensures
            r@ == self@,
    {
        ErrorStore { tokens: share_tokens(&self.tokens) }
    }
}

impl ErrorStore {
    pub fn len(&self) -> (r: usize)
        ensures
            r == self@.len(),
    {
        self.tokens.len()
    }

    pub fn token(&self, i: usize) -> (r: &ErrorToken)
        requires
            i < self@.len(),
        ensures
            r@ == self@[i as int],
    {
        &self.tokens[i]
    }

    /// The fallback text of the `i`-th token.
    pub fn fallback(&self, i: usize) -> (r: &str)
        requires
            i < self@.len(),
        ensures
            r@ == self@[i as int].fallback,
    {
        self.tokens[i].fallback.as_str()
    }
}

} // verus!
