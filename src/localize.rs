use vstd::prelude::*;
use crate::text::str_eq;

verus! {

/// The languages to look a text up in, in order: the requested language,
/// then the caller's fallback when there is one, then English unless
/// English was requested.
pub open spec fn lookup_order(language: Seq<char>, fallback: Option<Seq<char>>) -> Seq<Seq<char>> {
    let first = seq![language];
    let with_fallback = match fallback {
        Some(f) => first.push(f),
        None => first,
    };
    if language == "en"@ {
        with_fallback
    } else {
        with_fallback.push("en"@)
    }
}

pub open spec fn views(v: Seq<String>) -> Seq<Seq<char>> {
    v.map_values(|s: String| s@)
}

/// The languages to try for a localized text, in order.
pub fn localization_order(language: &str, fallback: Option<&str>) -> (r: Vec<String>)
    ensures
        views(r@) == lookup_order(
            language@,
            match fallback {
                Some(f) => Some(f@),
                None => None,
            },
        ),
{
    let mut order: Vec<String> = Vec::new();
    order.push(String::from_str(language));
    match fallback {
        Some(f) => order.push(String::from_str(f)),
        None => {},
    }
    if !str_eq(language, "en") {
        order.push(String::from_str("en"));
    }
    proof {
        assert(views(order@) =~= lookup_order(
            language@,
            match fallback {
                Some(f) => Some(f@),
                None => None,
            },
        ));
    }
    order
}

/// The text shown for `key`: the first translation found, in lookup order,
/// or the key itself when none was.
pub fn localized_text(found: Vec<Option<String>>, key: &str) -> (r: String)
    ensures
        (exists|i: int| 0 <= i < found@.len() && found@[i] is Some) ==> exists|i: int|
            0 <= i < found@.len() && found@[i] == Some(r) && forall|j: int|
                0 <= j < i ==> #[trigger] found@[j] is None,
        (forall|i: int| 0 <= i < found@.len() ==> #[trigger] found@[i] is None) ==> r@ == key@,
{
    let mut i: usize = 0;
    while i < found.len()
        invariant
            i <= found@.len(),
            forall|j: int| 0 <= j < i ==> #[trigger] found@[j] is None,
        decreases found@.len() - i,
    {
        match &found[i] {
            Some(t) => {
                return t.clone();
            },
            None => {},
        }
        i = i + 1;
    }
    String::from_str(key)
}

} // verus!
