//! The presentation-merge rule: instance override, then first catalog
//! match, then a generic fallback.

use vstd::prelude::*;
use crate::records::{TierDefaults, TraitDefaults};

verus! {

/// The index of the first catalog row whose key is the given text.
pub open spec fn spec_tier_first_match(cat: Seq<TierDefaults>, key: Seq<char>) -> Option<int>
    decreases cat.len(),
{
    if cat.len() == 0 {
        None
    } else if cat[0].key@ == key {
        Some(0)
    } else {
        match spec_tier_first_match(cat.drop_first(), key) {
            None => None,
            Some(i) => Some(i + 1),
        }
    }
}

pub proof fn lemma_tier_first_match(cat: Seq<TierDefaults>, key: Seq<char>)
    ensures
        match spec_tier_first_match(cat, key) {
            None => forall|i: int| 0 <= i < cat.len() ==> cat[i].key@ != key,
            Some(i) => 0 <= i < cat.len() && cat[i].key@ == key && forall|j: int|
                0 <= j < i ==> cat[j].key@ != key,
        },
    decreases cat.len(),
{
    if cat.len() > 0 && cat[0].key@ != key {
        lemma_tier_first_match(cat.drop_first(), key);
        let rest = cat.drop_first();
        match spec_tier_first_match(rest, key) {
            None => {
                assert forall|i: int| 0 <= i < cat.len() implies cat[i].key@ != key by {
                    if i > 0 {
                        assert(rest[i - 1] == cat[i]);
                    }
                }
            },
            Some(ri) => {
                assert(cat[ri + 1] == rest[ri]);
                assert forall|j: int| 0 <= j < ri + 1 implies cat[j].key@ != key by {
                    if j > 0 {
                        assert(rest[j - 1] == cat[j]);
                    }
                }
            },
        }
    }
}

/// The first catalog row for a key, scanning in stored order.
pub fn find_tier_default<'a>(cat: &'a Vec<TierDefaults>, key: &String) -> (r: Option<
    &'a TierDefaults,
>)
    ensures
        match spec_tier_first_match(cat@, key@) {
            None => r is None,
            Some(i) => r matches Some(td) && *td == cat@[i],
        },
{
    proof {
        lemma_tier_first_match(cat@, key@);
    }
    let n = cat.len();
    let mut i: usize = 0;
    while i < n
        invariant
            0 <= i <= n == cat@.len(),
            forall|j: int| 0 <= j < i ==> cat@[j].key@ != key@,
        decreases n - i,
    {
        if cat[i].key.eq(key) {
            proof {
                lemma_tier_first_match_at(cat@, key@, i as int);
            }
            return Some(&cat[i]);
        }
        i = i + 1;
    }
    proof {
        if spec_tier_first_match(cat@, key@) is Some {
            lemma_tier_first_match(cat@, key@);
        }
    }
    None
}

proof fn lemma_tier_first_match_at(cat: Seq<TierDefaults>, key: Seq<char>, i: int)
    requires
        0 <= i < cat.len(),
        cat[i].key@ == key,
        forall|j: int| 0 <= j < i ==> cat[j].key@ != key,
    ensures
        spec_tier_first_match(cat, key) == Some(i),
    decreases i,
{
    if i > 0 {
        lemma_tier_first_match_at(cat.drop_first(), key, i - 1);
    }
}

/// True when some catalog row carries this key.
pub fn key_in_tier(key: String, tiers: &Vec<TierDefaults>) -> (r: bool)
    ensures
        r == exists|i: int| 0 <= i < tiers@.len() && tiers@[i].key@ == key@,
{
    proof {
        lemma_tier_first_match(tiers@, key@);
    }
    match find_tier_default(tiers, &key) {
        Some(_) => true,
        None => false,
    }
}

/// True when some catalog row carries this key, found by scanning for the row.
pub fn get_key_in_tier(key: String, tiers: &Vec<TierDefaults>) -> (r: bool)
    ensures
        r == exists|i: int| 0 <= i < tiers@.len() && tiers@[i].key@ == key@,
{
    key_in_tier(key, tiers)
}

/// A tier's display symbol: its own override if present, else the symbol of
/// the first catalog row with the same name, else nothing (the caller shows a
/// generic glyph).
pub fn resolve_tier_symbol(instance: &Option<String>, cat: &Vec<TierDefaults>, key: &String) -> (r:
    Option<String>)
    ensures
        instance is Some ==> r == *instance,
        instance is None ==> match spec_tier_first_match(cat@, key@) {
            None => r is None,
            Some(i) => r == cat@[i].symbol,
        },
{
    match instance {
        Some(s) => Some(s.clone()),
        None => match find_tier_default(cat, key) {
            None => None,
            Some(td) => match &td.symbol {
                None => None,
                Some(s) => Some(s.clone()),
            },
        },
    }
}

/// A tier's display color, resolved the same way as the symbol.
pub fn resolve_tier_color(instance: &Option<String>, cat: &Vec<TierDefaults>, key: &String) -> (r:
    Option<String>)
    ensures
        instance is Some ==> r == *instance,
        instance is None ==> match spec_tier_first_match(cat@, key@) {
            None => r is None,
            Some(i) => r == cat@[i].color,
        },
{
    match instance {
        Some(s) => Some(s.clone()),
        None => match find_tier_default(cat, key) {
            None => None,
            Some(td) => match &td.color {
                None => None,
                Some(s) => Some(s.clone()),
            },
        },
    }
}

/// Which slice of the trait catalog a lookup goes against.
#[derive(Clone, Copy, Debug, PartialEq, Eq, Structural)]
pub enum TraitCatalogFilter {
    /// Rows that denote neither a date nor a contact method.
    Plain,
    /// Enabled rows flagged as denoting a date.
    DateFlagged,
    /// Enabled rows flagged as denoting a contact method.
    ContactFlagged,
}

pub open spec fn spec_trait_filter_ok(f: TraitCatalogFilter, td: TraitDefaults) -> bool {
    match f {
        TraitCatalogFilter::Plain => !td.is_date && !td.is_contact,
        TraitCatalogFilter::DateFlagged => td.is_date && td.enabled,
        TraitCatalogFilter::ContactFlagged => td.is_contact && td.enabled,
    }
}

/// The index of the first catalog row passing the filter whose key matches.
pub open spec fn spec_trait_first_match(
    cat: Seq<TraitDefaults>,
    key: Seq<char>,
    f: TraitCatalogFilter,
) -> Option<int>
    decreases cat.len(),
{
    if cat.len() == 0 {
        None
    } else if spec_trait_filter_ok(f, cat[0]) && cat[0].key@ == key {
        Some(0)
    } else {
        match spec_trait_first_match(cat.drop_first(), key, f) {
            None => None,
            Some(i) => Some(i + 1),
        }
    }
}

pub proof fn lemma_trait_first_match(cat: Seq<TraitDefaults>, key: Seq<char>, f: TraitCatalogFilter)
    ensures
        match spec_trait_first_match(cat, key, f) {
            None => forall|i: int|
                0 <= i < cat.len() ==> !(spec_trait_filter_ok(f, cat[i]) && cat[i].key@ == key),
            Some(i) => 0 <= i < cat.len() && spec_trait_filter_ok(f, cat[i]) && cat[i].key@ == key
                && forall|j: int|
                0 <= j < i ==> !(spec_trait_filter_ok(f, cat[j]) && cat[j].key@ == key),
        },
    decreases cat.len(),
{
    if cat.len() > 0 && !(spec_trait_filter_ok(f, cat[0]) && cat[0].key@ == key) {
        lemma_trait_first_match(cat.drop_first(), key, f);
        let rest = cat.drop_first();
        match spec_trait_first_match(rest, key, f) {
            None => {
                assert forall|i: int|
                    0 <= i < cat.len() implies !(spec_trait_filter_ok(f, cat[i]) && cat[i].key@
                    == key) by {
                    if i > 0 {
                        assert(rest[i - 1] == cat[i]);
                    }
                }
            },
            Some(ri) => {
                assert(cat[ri + 1] == rest[ri]);
                assert forall|j: int|
                    0 <= j < ri + 1 implies !(spec_trait_filter_ok(f, cat[j]) && cat[j].key@
                    == key) by {
                    if j > 0 {
                        assert(rest[j - 1] == cat[j]);
                    }
                }
            },
        }
    }
}

proof fn lemma_trait_first_match_at(
    cat: Seq<TraitDefaults>,
    key: Seq<char>,
    f: TraitCatalogFilter,
    i: int,
)
    requires
        0 <= i < cat.len(),
        spec_trait_filter_ok(f, cat[i]) && cat[i].key@ == key,
        forall|j: int| 0 <= j < i ==> !(spec_trait_filter_ok(f, cat[j]) && cat[j].key@ == key),
    ensures
        spec_trait_first_match(cat, key, f) == Some(i),
    decreases i,
{
    if i > 0 {
        lemma_trait_first_match_at(cat.drop_first(), key, f, i - 1);
    }
}

/// The first catalog row for a key within the filtered slice.
pub fn find_trait_default<'a>(
    cat: &'a Vec<TraitDefaults>,
    key: &String,
    f: TraitCatalogFilter,
) -> (r: Option<&'a TraitDefaults>)
    ensures
        match spec_trait_first_match(cat@, key@, f) {
            None => r is None,
            Some(i) => r matches Some(td) && *td == cat@[i],
        },
{
    let n = cat.len();
    let mut i: usize = 0;
    while i < n
        invariant
            0 <= i <= n == cat@.len(),
            forall|j: int| 0 <= j < i ==> !(spec_trait_filter_ok(f, cat@[j]) && cat@[j].key@ == key@),
        decreases n - i,
    {
        let row = &cat[i];
        let ok = match f {
            TraitCatalogFilter::Plain => !row.is_date && !row.is_contact,
            TraitCatalogFilter::DateFlagged => row.is_date && row.enabled,
            TraitCatalogFilter::ContactFlagged => row.is_contact && row.enabled,
        };
        if ok && row.key.eq(key) {
            proof {
                lemma_trait_first_match_at(cat@, key@, f, i as int);
            }
            return Some(&cat[i]);
        }
        i = i + 1;
    }
    proof {
        if spec_trait_first_match(cat@, key@, f) is Some {
            lemma_trait_first_match(cat@, key@, f);
        }
    }
    None
}

/// The display symbol for a trait-like row: the first matching catalog row's
/// symbol within the filtered slice, else nothing (the caller shows a generic
/// glyph).
pub fn resolve_trait_symbol(cat: &Vec<TraitDefaults>, key: &String, f: TraitCatalogFilter) -> (r:
    Option<String>)
    ensures
        match spec_trait_first_match(cat@, key@, f) {
            None => r is None,
            Some(i) => r == Some(cat@[i].symbol),
        },
{
    match find_trait_default(cat, key, f) {
        None => None,
        Some(td) => Some(td.symbol.clone()),
    }
}

} // verus!
