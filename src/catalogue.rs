//! The locale layer: a message catalogue keyed by locale tag and message key, the
//! translation of error tokens with fallback, and the choice of a request's locale.
use crate::locale::{args_view, ErrorStore, LocaleData, TokenView};
use crate::template::{render, render_template};
use crate::text::push_char;
use vstd::prelude::*;
use vstd::string::StrSliceExecFns;

verus! {

/// Mathematical value of a catalogue: entries of (locale tag, message key, template).
pub type CatalogueView = Seq<(Seq<char>, Seq<char>, Seq<char>)>;

/// The template of the first entry for `locale` and `key`, from position `k` on.
pub open spec fn lookup_from(entries: CatalogueView, locale: Seq<char>, key: Seq<char>, k: int) -> Option<
    Seq<char>,
>
    decreases entries.len() - k,
{
    if k < 0 || k >= entries.len() {
        None
    } else if entries[k].0 == locale && entries[k].1 == key {
        Some(entries[k].2)
    } else {
        lookup_from(entries, locale, key, k + 1)
    }
}

/// The tag whose messages a locale uses: `en-US` shares the messages of `en-GB`.
pub open spec fn canonical_locale(tag: Seq<char>) -> Seq<char> {
    if tag == "en-US"@ {
        "en-GB"@
    } else {
        tag
    }
}

/// Translation of a token under `locale`: the rendered template when the catalogue has
/// one for the token's key, the fallback text verbatim otherwise.
pub open spec fn translation(entries: CatalogueView, locale: Seq<char>, token: TokenView) -> Seq<
    char,
> {
    match lookup_from(entries, canonical_locale(locale), token.key, 0) {
        Some(t) => render(t, token.args),
        None => token.fallback,
    }
}

pub open spec fn translations(entries: CatalogueView, locale: Seq<char>, tokens: Seq<TokenView>) -> Seq<
    Seq<char>,
> {
    tokens.map_values(|t: TokenView| translation(entries, locale, t))
}

pub open spec fn strings_view(v: Seq<String>) -> Seq<Seq<char>> {
    v.map_values(|s: String| s@)
}

/// One template of the catalogue.
#[derive(Debug)]
pub struct CatalogueEntry {
    pub locale: String,
    pub key: String,
    pub template: String,
}

/// Message templates keyed by locale tag and message key.
#[derive(Debug)]
pub struct Catalogue {
    entries: Vec<CatalogueEntry>,
}

impl View for Catalogue {
    type V = CatalogueView;

    closed spec fn view(&self) -> CatalogueView {
        self.entries@.map_values(|e: CatalogueEntry| (e.locale@, e.key@, e.template@))
    }
}

fn resolve_locale(tag: &str) -> (r: &str)
    ensures
        r@ == canonical_locale(tag@),
{
    let us = "en-US";
    if tag.to_string() == us.to_string() {
        "en-GB"
    } else {
        tag
    }
}

impl Catalogue {
    pub fn new() -> (r: Self)
        ensures
            r@ == CatalogueView::empty(),
    {
        let r = Catalogue { entries: Vec::new() };
        assert(r@ =~= CatalogueView::empty());
        r
    }

    /// Adds a template; an earlier template for the same locale and key takes precedence.
    pub fn add(&mut self, locale: &str, key: &str, template: &str)
        ensures
            final(self)@ == old(self)@.push((locale@, key@, template@)),
    {
        self.entries.push(
            CatalogueEntry {
                locale: locale.to_string(),
                key: key.to_string(),
                template: template.to_string(),
            },
        );
        assert(final(self)@ =~= old(self)@.push((locale@, key@, template@)));
    }

    pub fn len(&self) -> (r: usize)
        ensures
            r == self@.len(),
    {
        self.entries.len()
    }

    /// The template for `key` under `locale` (with `en-US` read as `en-GB`), if any.
    pub fn lookup(&self, locale: &str, key: &str) -> (r: Option<&str>)
        ensures
            r matches Some(t) ==> lookup_from(self@, canonical_locale(locale@), key@, 0) == Some(
                t@,
            ),
            r is None ==> lookup_from(self@, canonical_locale(locale@), key@, 0) is None,
    {
        let tag = resolve_locale(locale).to_string();
        let wanted = key.to_string();
        let mut k: usize = 0;
        while k < self.entries.len()
            invariant
                tag@ == canonical_locale(locale@),
                wanted@ == key@,
                k <= self@.len(),
                lookup_from(self@, tag@, key@, 0) == lookup_from(self@, tag@, key@, k as int),
            decreases self@.len() - k,
        {
            let e = &self.entries[k];
            assert(self@[k as int] == (e.locale@, e.key@, e.template@));
            if e.locale == tag && e.key == wanted {
                assert(lookup_from(self@, tag@, key@, k as int) == Some(e.template@));
                return Some(e.template.as_str());
            }
            k += 1;
        }
        None
    }
}

impl LocaleData {
    /// Translates this reference under `locale`, or returns `fallback` when the catalogue
    /// has no template for it.
    pub fn get_translation(&self, catalogue: &Catalogue, locale: &str, fallback: String) -> (r:
        String)
        ensures
            r@ == translation(
                catalogue@,
                locale@,
                TokenView { fallback: fallback@, key: self.name@, args: args_view(self.args@) },
            ),
    {
        match catalogue.lookup(locale, self.name.as_str()) {
            Some(template) => render_template(template, &self.args),
            None => fallback,
        }
    }
}

impl ErrorStore {
    /// The tokens of the store translated under `locale`, in order.
    pub fn as_translated_message(&self, catalogue: &Catalogue, locale: &str) -> (r: Vec<String>)
        ensures
            strings_view(r@) == translations(catalogue@, locale@, self@),
    {
        let mut out: Vec<String> = Vec::new();
        let mut i: usize = 0;
        while i < self.len()
            invariant
                i <= self@.len(),
                strings_view(out@) == translations(catalogue@, locale@, self@.subrange(0, i as int)),
            decreases self@.len() - i,
        {
            let token = self.token(i);
            let text = token.locale.get_translation(catalogue, locale, token.fallback.clone());
            assert(text@ == translation(catalogue@, locale@, self@[i as int]));
            let ghost prev = out@;
            out.push(text);
            assert(strings_view(out@) =~= strings_view(prev).push(text@));
            assert(self@.subrange(0, i + 1) =~= self@.subrange(0, i as int).push(self@[i as int]));
            assert(strings_view(out@) =~= translations(
                catalogue@,
                locale@,
                self@.subrange(0, i + 1),
            ));
            i += 1;
        }
        assert(self@.subrange(0, i as int) =~= self@);
        out
    }
}

/// `s` without its space characters.
pub open spec fn strip_spaces(s: Seq<char>) -> Seq<char>
    decreases s.len(),
{
    if s.len() == 0 {
        s
    } else if s.last() == ' ' {
        strip_spaces(s.drop_last())
    } else {
        strip_spaces(s.drop_last()).push(s.last())
    }
}

/// Position of the first `,` or `;` of `h` at or after `i`, or the length of `h`.
pub open spec fn tag_end(h: Seq<char>, i: int) -> int
    decreases h.len() - i,
{
    if i < 0 || i >= h.len() {
        h.len() as int
    } else if h[i] == ',' || h[i] == ';' {
        i
    } else {
        tag_end(h, i + 1)
    }
}

/// The first language tag of an `Accept-Language` style header.
pub open spec fn first_tag(h: Seq<char>) -> Seq<char> {
    strip_spaces(h.subrange(0, tag_end(h, 0)))
}

/// Whether the catalogue holds some template for `locale`.
pub open spec fn has_locale(entries: CatalogueView, locale: Seq<char>) -> bool {
    exists|k: int| 0 <= k < entries.len() && (#[trigger] entries[k]).0 == locale
}

/// The locale to answer in: the header's first tag when the catalogue serves it
/// (directly or through `en-US`), `en-GB` otherwise.
pub open spec fn negotiated_locale(entries: CatalogueView, header: Seq<char>) -> Seq<char> {
    if has_locale(entries, canonical_locale(first_tag(header))) {
        first_tag(header)
    } else {
        "en-GB"@
    }
}

proof fn lemma_tag_end_bounds(h: Seq<char>, i: int)
    requires
        0 <= i <= h.len(),
    ensures
        i <= tag_end(h, i) <= h.len(),
    decreases h.len() - i,
{
    if i < h.len() && h[i] != ',' && h[i] != ';' {
        lemma_tag_end_bounds(h, i + 1);
    }
}

/// The first language tag of `header`, spaces removed.
pub fn first_language_tag(header: &str) -> (r: String)
    ensures
        r@ == first_tag(header@),
{
    let ghost h = header@;
    let n = header.unicode_len();
    let mut out = String::new();
    let mut i: usize = 0;
    let mut done = false;
    proof {
        lemma_tag_end_bounds(h, 0);
        assert(h.subrange(0, 0) =~= Seq::<char>::empty());
    }
    while i < n && !done
        invariant
            h == header@,
            n == h.len(),
            i <= tag_end(h, 0) <= n,
            tag_end(h, 0) == tag_end(h, i as int),
            done ==> tag_end(h, 0) == i,
            out@ == strip_spaces(h.subrange(0, i as int)),
        decreases n - i, if done { 0int } else { 1int },
    {
        let c = header.get_char(i);
        if c == ',' || c == ';' {
            done = true;
        } else {
            proof {
                lemma_tag_end_bounds(h, i + 1);
                assert(h.subrange(0, i + 1).drop_last() =~= h.subrange(0, i as int));
            }
            if c != ' ' {
                push_char(&mut out, c);
            }
            i += 1;
        }
    }
    out
}

impl Catalogue {
    /// Whether some template exists for `locale`.
    pub fn serves(&self, locale: &str) -> (r: bool)
        ensures
            r == has_locale(self@, locale@),
    {
        let wanted = locale.to_string();
        let mut k: usize = 0;
        while k < self.entries.len()
            invariant
                wanted@ == locale@,
                k <= self@.len(),
                forall|j: int| 0 <= j < k ==> (#[trigger] self@[j]).0 != locale@,
            decreases self@.len() - k,
        {
            assert(self@[k as int].0 == self.entries@[k as int].locale@);
            if self.entries[k].locale == wanted {
                return true;
            }
            k += 1;
        }
        false
    }

    /// The locale to answer a request in, from its `Accept-Language` header.
    pub fn negotiate(&self, header: &str) -> (r: String)
        ensures
            r@ == negotiated_locale(self@, header@),
    {
        let tag = first_language_tag(header);
        if self.serves(resolve_locale(tag.as_str())) {
            tag
        } else {
            "en-GB".to_string()
        }
    }
}

} // verus!
