use ppl::records::{TierDefaults, TraitDefaults};
use ppl::resolve::{find_tier_default, find_trait_default, get_key_in_tier, key_in_tier,
    resolve_tier_color, resolve_tier_symbol, resolve_trait_symbol, TraitCatalogFilter};

fn catalog_row(key: &str, symbol: Option<&str>, color: Option<&str>) -> TierDefaults {
    TierDefaults {
        id: 1,
        key: key.to_string(),
        default: true,
        enabled: true,
        color: color.map(|c| c.to_string()),
        symbol: symbol.map(|s| s.to_string()),
        sig_date_delta: None,
        sig_remind_enum: None,
    }
}

fn trait_row(key: &str, symbol: &str, is_date: bool, is_contact: bool, enabled: bool)
    -> TraitDefaults {
    TraitDefaults {
        id: 1,
        key: key.to_string(),
        default: true,
        enabled,
        is_date,
        is_contact,
        color: "GOLD".to_string(),
        symbol: symbol.to_string(),
    }
}

#[test]
fn catalog_symbol_fills_a_missing_override() {
    let cat = vec![catalog_row("Family", Some("\u{2605}"), Some("RED"))];
    let r = resolve_tier_symbol(&None, &cat, &"Family".to_string());
    assert_eq!(r, Some("\u{2605}".to_string()));
}

#[test]
fn own_symbol_overrides_the_catalog() {
    let cat = vec![catalog_row("Family", Some("\u{2605}"), Some("RED"))];
    let r = resolve_tier_symbol(&Some("\u{2665}".to_string()), &cat, &"Family".to_string());
    assert_eq!(r, Some("\u{2665}".to_string()));
    // ... whatever the catalog holds.
    let r = resolve_tier_symbol(&Some("\u{2665}".to_string()), &Vec::new(), &"Family".to_string());
    assert_eq!(r, Some("\u{2665}".to_string()));
}

#[test]
fn unmatched_key_falls_through() {
    let cat = vec![catalog_row("Family", Some("\u{2605}"), None)];
    assert_eq!(resolve_tier_symbol(&None, &cat, &"Bests".to_string()), None);
    assert_eq!(resolve_tier_color(&None, &cat, &"Family".to_string()), None);
}

#[test]
fn first_matching_catalog_entry_wins() {
    let cat = vec![
        catalog_row("Family", Some("A"), None),
        catalog_row("Family", Some("B"), None),
    ];
    let r = resolve_tier_symbol(&None, &cat, &"Family".to_string());
    assert_eq!(r, Some("A".to_string()));
    let row = find_tier_default(&cat, &"Family".to_string()).unwrap();
    assert_eq!(row.symbol, Some("A".to_string()));
}

#[test]
fn key_lookup_both_ways() {
    let cat = vec![catalog_row("Family", None, None), catalog_row("Bests", None, None)];
    assert!(key_in_tier("Bests".to_string(), &cat));
    assert!(!key_in_tier("Friends".to_string(), &cat));
    assert!(get_key_in_tier("Family".to_string(), &cat));
    assert!(!get_key_in_tier("Friends".to_string(), &cat));
}

#[test]
fn trait_catalog_filters_by_kind() {
    let cat = vec![
        trait_row("birthday", "\u{1F382}", true, false, true),
        trait_row("phone", "\u{1F4DE}", false, true, true),
        trait_row("from", "\u{1F30D}", false, false, true),
        trait_row("met", "\u{1F91D}", true, false, false),
    ];
    assert_eq!(
        resolve_trait_symbol(&cat, &"birthday".to_string(), TraitCatalogFilter::DateFlagged),
        Some("\u{1F382}".to_string())
    );
    // A date-flagged row is not seen by the contact lookup.
    assert_eq!(
        resolve_trait_symbol(&cat, &"birthday".to_string(), TraitCatalogFilter::ContactFlagged),
        None
    );
    assert_eq!(
        resolve_trait_symbol(&cat, &"phone".to_string(), TraitCatalogFilter::ContactFlagged),
        Some("\u{1F4DE}".to_string())
    );
    assert_eq!(
        resolve_trait_symbol(&cat, &"from".to_string(), TraitCatalogFilter::Plain),
        Some("\u{1F30D}".to_string())
    );
    // A disabled row is not consulted by the date lookup.
    assert_eq!(
        resolve_trait_symbol(&cat, &"met".to_string(), TraitCatalogFilter::DateFlagged),
        None
    );
    assert!(find_trait_default(&cat, &"from".to_string(), TraitCatalogFilter::DateFlagged).is_none());
}
