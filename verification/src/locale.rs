//! Locale detection from the environment's locale variables (LC_ALL,
//! LC_MESSAGES, LANG, in that order of precedence): the language-code part
//! of the first value that names a supported locale wins.

use vstd::prelude::*;

use crate::text::same_text;

verus! {

/// The variables consulted, highest precedence first.
pub fn locale_variables() -> (names: Vec<&'static str>)
    ensures
        names@.map_values(|s: &str| s@) == seq!["LC_ALL"@, "LC_MESSAGES"@, "LANG"@],
{
    let names = vec!["LC_ALL", "LC_MESSAGES", "LANG"];
    assert(names@.map_values(|s: &str| s@) =~= seq!["LC_ALL"@, "LC_MESSAGES"@, "LANG"@]);
    names
}

/// The characters of `s` before the first `c`, or all of `s`.
pub open spec fn before_first(s: Seq<char>, c: char) -> Seq<char>
    decreases s.len(),
{
    if s.len() == 0 {
        s
    } else if s[0] == c {
        seq![]
    } else {
        seq![s[0]] + before_first(s.drop_first(), c)
    }
}

/// The language code of a locale value: before the territory (`_`), then
/// before the encoding (`.`); `de_CH.UTF-8` gives `de`. The empty code and
/// the `C` and `POSIX` locales name no language.
pub open spec fn language_code_spec(value: Seq<char>) -> Option<Seq<char>> {
    let code = before_first(before_first(value, '_'), '.');
    if code.len() == 0 || code == "C"@ || code == "POSIX"@ {
        None
    } else {
        Some(code)
    }
}

proof fn lemma_before_first_at(s: Seq<char>, c: char, k: int)
    requires
        0 <= k <= s.len(),
        forall|j: int| 0 <= j < k ==> s[j] != c,
        k == s.len() || s[k] == c,
    ensures
        before_first(s, c) == s.subrange(0, k),
    decreases k,
{
    if k == 0 {
        if s.len() > 0 {
            assert(s[0] == c);
        }
        assert(s.subrange(0, 0) =~= seq![]);
        if s.len() == 0 {
            assert(s =~= seq![]);
        }
    } else {
        lemma_before_first_at(s.drop_first(), c, k - 1);
        assert(s.subrange(0, k) =~= seq![s[0]] + s.drop_first().subrange(0, k - 1));
    }
}

fn prefix_before(s: &str, c: char) -> (r: &str)
    ensures
        r@ == before_first(s@, c),
{
    let n = s.unicode_len();
    let mut k: usize = 0;
    while k < n
        invariant
            n == s@.len(),
            k <= n,
            forall|j: int| 0 <= j < k ==> s@[j] != c,
        ensures
            k <= n,
            forall|j: int| 0 <= j < k ==> s@[j] != c,
            k == n || s@[k as int] == c,
        decreases n - k,
    {
        if s.get_char(k) == c {
            break;
        }
        k = k + 1;
    }
    proof {
        lemma_before_first_at(s@, c, k as int);
    }
    s.substring_char(0, k)
}

/// The language code of one locale value, if it names a language.
pub fn language_code(value: &str) -> (code: Option<&str>)
    ensures
        match code {
            Some(c) => language_code_spec(value@) == Some(c@),
            None => language_code_spec(value@) is None,
        },
{
    let code = prefix_before(prefix_before(value, '_'), '.');
    if code.unicode_len() == 0 || same_text(code, "C") || same_text(code, "POSIX") {
        None
    } else {
        Some(code)
    }
}

/// The language code a variable's value offers, if the variable is set.
pub open spec fn offered_code(value: Option<String>) -> Option<Seq<char>> {
    match value {
        Some(v) => language_code_spec(v@),
        None => None,
    }
}

/// `from_code` was asked about a code with these characters and knew no
/// locale for it.
pub open spec fn unknown_code<L, F: Fn(&str) -> Option<L>>(from_code: F, code: Seq<char>) -> bool {
    exists|s: &str| s@ == code && #[trigger] from_code.ensures((s,), None::<L>)
}

/// Variable `j` offers nothing: it is unset, names no language, or names
/// one `from_code` does not know.
pub open spec fn passes_over<L, F: Fn(&str) -> Option<L>>(
    from_code: F,
    values: Seq<Option<String>>,
    j: int,
) -> bool {
    match offered_code(values[j]) {
        None => true,
        Some(code) => unknown_code(from_code, code),
    }
}

/// The choice stops at variable `i`: every variable before it offers
/// nothing, and either `i` is past the last variable and `locale` is the
/// fallback, or `from_code` mapped variable `i`'s code to `locale`.
pub open spec fn chosen_at<L, F: Fn(&str) -> Option<L>>(
    from_code: F,
    values: Seq<Option<String>>,
    fallback: L,
    i: int,
    locale: L,
) -> bool {
    &&& 0 <= i <= values.len()
    &&& forall|j: int| 0 <= j < i ==> #[trigger] passes_over(from_code, values, j)
    &&& if i == values.len() {
        locale == fallback
    } else {
        offered_code(values[i]) matches Some(code) && exists|s: &str|
            s@ == code && #[trigger] from_code.ensures((s,), Some(locale))
    }
}

/// Pick the locale from the variables' values in precedence order: the
/// first value whose language code `from_code` maps to a locale wins, and
/// `fallback` stands when none does.
pub fn detect_locale_from<L>(
    values: &Vec<Option<String>>,
    from_code: impl Fn(&str) -> Option<L>,
    fallback: L,
) -> (locale: L)
    requires
        forall|s: &str| from_code.requires((s,)),
    ensures
        exists|i: int| chosen_at(from_code, values@, fallback, i, locale),
{
    let n = values.len();
    let mut i: usize = 0;
    while i < n
        invariant
            n == values@.len(),
            i <= n,
            forall|s: &str| from_code.requires((s,)),
            forall|j: int| 0 <= j < i ==> #[trigger] passes_over(from_code, values@, j),
        decreases n - i,
    {
        match &values[i] {
            Some(value) => {
                match language_code(value.as_str()) {
                    Some(code) => {
                        match from_code(code) {
                            Some(locale) => {
                                assert(offered_code(values@[i as int]) == Some(code@));
                                assert(chosen_at(from_code, values@, fallback, i as int, locale));
                                return locale;
                            },
                            None => {
                                assert(unknown_code(from_code, code@));
                            },
                        }
                    },
                    None => {},
                }
            },
            None => {},
        }
        assert(passes_over(from_code, values@, i as int));
        i = i + 1;
    }
    assert(chosen_at(from_code, values@, fallback, n as int, fallback));
    fallback
}

} // verus!
