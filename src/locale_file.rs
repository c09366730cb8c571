//! Locale files: one `key = template` entry per line, and the bundled files.
use crate::catalogue::{Catalogue, CatalogueView};
use vstd::prelude::*;
use vstd::string::StrSliceExecFns;

verus! {

/// Position of the first space-free character of `s` at or after `j`.
pub open spec fn skip_spaces(s: Seq<char>, j: int) -> int
    decreases s.len() - j,
{
    if 0 <= j < s.len() && s[j] == ' ' {
        skip_spaces(s, j + 1)
    } else {
        j
    }
}

/// End of `s` before `k`, with trailing spaces down to `lo` removed.
pub open spec fn back_spaces(s: Seq<char>, lo: int, k: int) -> int
    decreases k - lo,
{
    if lo < k && k <= s.len() && s[k - 1] == ' ' {
        back_spaces(s, lo, k - 1)
    } else {
        k
    }
}

/// `s` without leading and trailing spaces.
pub open spec fn trim(s: Seq<char>) -> Seq<char> {
    let a = skip_spaces(s, 0);
    s.subrange(a, back_spaces(s, a, s.len() as int))
}

/// Position of the first `c` of `s` at or after `j`, or the length of `s`.
pub open spec fn index_of(s: Seq<char>, c: char, j: int) -> int
    decreases s.len() - j,
{
    if j < 0 || j >= s.len() {
        s.len() as int
    } else if s[j] == c {
        j
    } else {
        index_of(s, c, j + 1)
    }
}

/// The entry a line of a locale file defines: `key = template`, spaces around both
/// trimmed. Empty lines, lines starting with `#`, lines without `=` and lines with an
/// empty key define none.
pub open spec fn parse_line(line: Seq<char>) -> Option<(Seq<char>, Seq<char>)> {
    let eq = index_of(line, '=', 0);
    if line.len() == 0 || line[0] == '#' || eq >= line.len() {
        None
    } else {
        let key = trim(line.subrange(0, eq));
        if key.len() == 0 {
            None
        } else {
            Some((key, trim(line.subrange(eq + 1, line.len() as int))))
        }
    }
}

/// The entry of a line, as a catalogue of at most one entry for `locale`.
pub open spec fn line_entry(locale: Seq<char>, line: Seq<char>) -> CatalogueView {
    match parse_line(line) {
        Some(kv) => seq![(locale, kv.0, kv.1)],
        None => CatalogueView::empty(),
    }
}

/// The entries that locale file `src` defines for `locale`, reading on from position `i`
/// inside the line that starts at `start`.
pub open spec fn entries_from(locale: Seq<char>, src: Seq<char>, start: int, i: int) -> CatalogueView
    decreases src.len() - i,
{
    if i < 0 || start < 0 || start > i || i > src.len() {
        CatalogueView::empty()
    } else if i == src.len() {
        line_entry(locale, src.subrange(start, i))
    } else if src[i] == '\n' {
        line_entry(locale, src.subrange(start, i)) + entries_from(locale, src, i + 1, i + 1)
    } else {
        entries_from(locale, src, start, i + 1)
    }
}

/// The entries that locale file `src` defines for `locale`, in file order.
pub open spec fn load_from(locale: Seq<char>, src: Seq<char>) -> CatalogueView {
    entries_from(locale, src, 0, 0)
}

fn find_char(s: &str, c: char, from: usize) -> (r: usize)
    requires
        from <= s@.len(),
    ensures
        r as int == index_of(s@, c, from as int),
        from <= r <= s@.len(),
{
    let n = s.unicode_len();
    let mut j = from;
    while j < n
        invariant
            n == s@.len(),
            from <= j <= n,
            index_of(s@, c, from as int) == index_of(s@, c, j as int),
        decreases n - j,
    {
        if s.get_char(j) == c {
            return j;
        }
        j += 1;
    }
    j
}

/// `s` without leading and trailing spaces.
pub fn trim_spaces(s: &str) -> (r: String)
    ensures
        r@ == trim(s@),
{
    let n = s.unicode_len();
    let mut a: usize = 0;
    while a < n && s.get_char(a) == ' '
        invariant
            n == s@.len(),
            a <= n,
            skip_spaces(s@, 0) == skip_spaces(s@, a as int),
        decreases n - a,
    {
        a += 1;
    }
    let mut b: usize = n;
    while a < b && s.get_char(b - 1) == ' '
        invariant
            n == s@.len(),
            a <= b <= n,
            a == skip_spaces(s@, 0),
            back_spaces(s@, a as int, n as int) == back_spaces(s@, a as int, b as int),
        decreases b - a,
    {
        b -= 1;
    }
    s.substring_char(a, b).to_string()
}

/// The entry a line defines, if any.
pub fn parse_catalogue_line(line: &str) -> (r: Option<(String, String)>)
    ensures
        r matches Some(kv) ==> parse_line(line@) == Some((kv.0@, kv.1@)),
        r is None ==> parse_line(line@) is None,
{
    let n = line.unicode_len();
    let eq = find_char(line, '=', 0);
    if n == 0 || line.get_char(0) == '#' || eq >= n {
        return None;
    }
    let key = trim_spaces(line.substring_char(0, eq));
    if key.unicode_len() == 0 {
        return None;
    }
    let template = trim_spaces(line.substring_char(eq + 1, n));
    Some((key, template))
}

impl Catalogue {
    /// Adds the entries that locale file `source` defines for `locale`, in file order.
    pub fn load(&mut self, locale: &str, source: &str)
        ensures
            final(self)@ == old(self)@ + load_from(locale@, source@),
    {
        let ghost src = source@;
        let n = source.unicode_len();
        let mut start: usize = 0;
        let mut i: usize = 0;
        while i < n
            invariant
                src == source@,
                n == src.len(),
                start <= i <= n,
                self@ + entries_from(locale@, src, start as int, i as int) == old(self)@
                    + load_from(locale@, src),
            decreases n - i,
        {
            if source.get_char(i) == '\n' {
                let ghost before = self@;
                self.add_line(locale, source.substring_char(start, i));
                assert(self@ + entries_from(locale@, src, i + 1, i + 1) =~= before + entries_from(
                    locale@,
                    src,
                    start as int,
                    i as int,
                ));
                start = i + 1;
            }
            i += 1;
        }
        let ghost before = self@;
        self.add_line(locale, source.substring_char(start, n));
        assert(self@ =~= before + entries_from(locale@, src, start as int, i as int));
    }

    /// Adds the entry that one line of a locale file defines, if any.
    fn add_line(&mut self, locale: &str, line: &str)
        ensures
            final(self)@ == old(self)@ + line_entry(locale@, line@),
    {
        match parse_catalogue_line(line) {
            Some((key, template)) => {
                self.add(locale, key.as_str(), template.as_str());
                assert(final(self)@ =~= old(self)@ + line_entry(locale@, line@));
            },
            None => {
                assert(final(self)@ =~= old(self)@ + line_entry(locale@, line@));
            },
        }
    }
}

/// The `en-GB` locale file; `en-US` reads it too.
pub const EN_GB: &'static str = "# Messages of the validation rules, British English.
validation.mandatory = Cannot be empty
validation.min_length = Must be at least {n} characters
validation.max_length = Must be at most {n} characters
validation.special_chars = Must contain at least one special character
validation.uppercase_and_lowercase = Must contain at least one uppercase and lowercase letter
validation.uppercase = Must contain at least one uppercase letter
validation.lowercase = Must contain at least one lowercase letter
validation.digit = Must contain at least one digit
";

/// The `fr-FR` locale file.
pub const FR_FR: &'static str = "# Messages des règles de validation, français.
validation.mandatory = Ne peut pas être vide
validation.min_length = Doit contenir au moins {n} caractères
validation.max_length = Doit contenir au plus {n} caractères
validation.special_chars = Doit contenir au moins un caractère spécial
validation.uppercase_and_lowercase = Doit contenir au moins une lettre majuscule et une lettre minuscule
validation.uppercase = Doit contenir au moins une lettre majuscule
validation.lowercase = Doit contenir au moins une lettre minuscule
validation.digit = Doit contenir au moins un chiffre
";

/// The catalogue of the bundled locale files.
pub fn build_resources() -> (r: Catalogue)
    ensures
        r@ == load_from("en-GB"@, EN_GB@) + load_from("fr-FR"@, FR_FR@),
{
    let mut r = Catalogue::new();
    r.load("en-GB", EN_GB);
    r.load("fr-FR", FR_FR);
    assert(r@ =~= load_from("en-GB"@, EN_GB@) + load_from("fr-FR"@, FR_FR@));
    r
}

} // verus!
