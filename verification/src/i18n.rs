//! The choice of the desktop language.

use vstd::prelude::*;
use crate::aur_push_gui::repo::before_char;
use crate::text::{chars_of, find_char, lemma_index_of_found, slice_chars, string_of, trim, trim_ws};

verus! {

/// The desktop language: `$LANG` unless it is unset or blank, else
/// `$LANGUAGE` under the same condition.
pub open spec fn desktop_language_of(lang: Option<Seq<char>>, language: Option<Seq<char>>) -> Option<
    Seq<char>,
> {
    match lang {
        Some(l) if trim(l).len() > 0 => Some(l),
        _ => match language {
            Some(g) if trim(g).len() > 0 => Some(g),
            _ => None,
        },
    }
}

fn non_blank(v: &Option<String>) -> (b: bool)
    ensures
        b == (v matches Some(s) && trim(s@).len() > 0),
{
    match v {
        Some(s) => trim_ws(&chars_of(s.as_str())).len() > 0,
        None => false,
    }
}

/// The language to translate into, from `$LANG` and `$LANGUAGE` (each none
/// when unset or not Unicode). `LANG` is a full locale name that `setlocale`
/// takes; `LANGUAGE` is only a fallback.
pub fn desktop_language(lang: Option<String>, language: Option<String>) -> (r: Option<String>)
    ensures
        r.deep_view() == desktop_language_of(lang.deep_view(), language.deep_view()),
{
    if non_blank(&lang) {
        lang
    } else if non_blank(&language) {
        language
    } else {
        None
    }
}

/// The locale for translated messages: the first entry of a `:`-separated
/// preference list.
pub fn messages_locale(language: &str) -> (r: String)
    ensures
        r@ == before_char(language@, ':'),
{
    let v = chars_of(language);
    proof {
        lemma_index_of_found(v@, ':');
    }
    match find_char(&v, ':') {
        Some(i) => string_of(&slice_chars(&v, 0, i)),
        None => language.to_string(),
    }
}

} // verus!
