use crate::lang::Lang;
use vstd::prelude::*;

verus! {

/// Which languages a caller lets the detector answer with.
#[derive(Clone, Debug)]
pub enum FilterList {
    /// No restriction.
    All,
    /// Only these languages; an empty list restricts nothing.
    Allow(Vec<Lang>),
    /// Every language but these.
    Deny(Vec<Lang>),
}

/// Whether a filter lets a language through.
pub open spec fn allows(f: FilterList, l: Lang) -> bool {
    match f {
        FilterList::All => true,
        FilterList::Allow(v) => v@.len() == 0 || v@.contains(l),
        FilterList::Deny(v) => !v@.contains(l),
    }
}

/// Whether `l` occurs in `v`.
fn contains_lang(v: &Vec<Lang>, l: Lang) -> (r: bool)
    ensures
        r == v@.contains(l),
{
    let mut i: usize = 0;
    while i < v.len()
        invariant
            i <= v@.len(),
            forall|j: int| 0 <= j < i ==> v@[j] != l,
        decreases v@.len() - i,
    {
        if v[i] == l {
            return true;
        }
        i += 1;
    }
    false
}

impl FilterList {
    /// No restriction.
    pub fn all() -> (r: FilterList)
        ensures
            r == FilterList::All,
    {
        FilterList::All
    }

    /// Only the given languages.
    pub fn allow(langs: Vec<Lang>) -> (r: FilterList)
        ensures
            r == FilterList::Allow(langs),
    {
        FilterList::Allow(langs)
    }

    /// Every language but the given ones.
    pub fn deny(langs: Vec<Lang>) -> (r: FilterList)
        ensures
            r == FilterList::Deny(langs),
    {
        FilterList::Deny(langs)
    }

    /// Whether the filter lets `lang` through.
    pub fn is_allowed(&self, lang: Lang) -> (r: bool)
        ensures
            r == allows(*self, lang),
    {
        match self {
            FilterList::All => true,
            FilterList::Allow(v) => v.len() == 0 || contains_lang(v, lang),
            FilterList::Deny(v) => !contains_lang(v, lang),
        }
    }
}

} // verus!
