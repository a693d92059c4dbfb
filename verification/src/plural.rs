//! Best-effort pluralization of lowercased Kubernetes kind names.
//!
//! Authoritative plurals come from API discovery or generated schemas;
//! this guess covers the native kinds and common custom resources.

use vstd::prelude::*;

verus! {

use crate::strutil::str_eq;

/// True for the lowercase ASCII vowels.
pub open spec fn is_ascii_vowel(c: char) -> bool {
    c == 'a' || c == 'e' || c == 'i' || c == 'o' || c == 'u'
}

/// Words that take an `es` suffix: those ending in `s`, `x`, `z`, `ch` or `sh`.
pub open spec fn takes_es(w: Seq<char>) -> bool {
    ||| w.len() >= 1 && (w.last() == 's' || w.last() == 'x' || w.last() == 'z')
    ||| w.len() >= 2 && w.last() == 'h' && (w[w.len() - 2] == 'c' || w[w.len() - 2] == 's')
}

/// Words ending in `y` preceded by a consonant drop the `y` for `ies`.
pub open spec fn takes_ies(w: Seq<char>) -> bool {
    w.len() >= 2 && w.last() == 'y' && !is_ascii_vowel(w[w.len() - 2])
}

/// The plural of a lowercased kind name: the hard-coded exceptions first,
/// then the `es`, `ies` and plain `s` suffix rules.
pub open spec fn plural_of(w: Seq<char>) -> Seq<char> {
    if w == "endpoints"@ || w == "endpointslices"@ {
        w
    } else if w == "nodemetrics"@ {
        "nodes"@
    } else if w == "podmetrics"@ {
        "pods"@
    } else if takes_es(w) {
        w + "es"@
    } else if takes_ies(w) {
        w.drop_last() + "ies"@
    } else {
        w + "s"@
    }
}

/// Pluralizes a lowercased kind name, handling the known special cases.
pub fn to_plural(word: &str) -> (r: String)
    ensures
        r@ == plural_of(word@),
{
    if str_eq(word, "endpoints") || str_eq(word, "endpointslices") {
        return word.to_owned();
    }
    if str_eq(word, "nodemetrics") {
        return "nodes".to_owned();
    }
    if str_eq(word, "podmetrics") {
        return "pods".to_owned();
    }
    let n = word.unicode_len();
    if n >= 1 {
        let last = word.get_char(n - 1);
        if last == 's' || last == 'x' || last == 'z' {
            return word.to_owned().concat("es");
        }
        if n >= 2 {
            let prev = word.get_char(n - 2);
            if last == 'h' && (prev == 'c' || prev == 's') {
                return word.to_owned().concat("es");
            }
            if last == 'y' && !(prev == 'a' || prev == 'e' || prev == 'i' || prev == 'o' || prev == 'u') {
                let stem = word.substring_char(0, n - 1);
                proof {
                    assert(stem@ =~= word@.drop_last());
                }
                return stem.to_owned().concat("ies");
            }
        }
    }
    word.to_owned().concat("s")
}

} // verus!
