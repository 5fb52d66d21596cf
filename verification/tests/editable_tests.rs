use ppl::browser::aggregate_editables;
use ppl::data::{ContactOps, PplOps, RelationOps, SigDateOps, TierDefaultOps, TierOps,
    TraitDefaultOps, TraitOps};
use ppl::dates::Date;
use ppl::editable::{bool_from_string, bool_text, field_count, focus_slot, option_date_from_option_string,
    Editable, Editablez};
use ppl::records::Traits;

#[test]
fn bool_from_string_accepts_affirmative_words() {
    assert!(bool_from_string(Some("true".to_string())));
    assert!(bool_from_string(Some("TRUE".to_string())));
    assert!(bool_from_string(Some("Yes".to_string())));
    assert!(bool_from_string(Some("t".to_string())));
    assert!(bool_from_string(Some("Y".to_string())));
    assert!(!bool_from_string(Some("false".to_string())));
    assert!(!bool_from_string(Some("no".to_string())));
    assert!(!bool_from_string(Some("maybe".to_string())));
    assert!(!bool_from_string(Some("".to_string())));
    assert!(!bool_from_string(None));
}

#[test]
fn bool_text_round_trips() {
    assert_eq!(bool_text(true), "true".to_string());
    assert_eq!(bool_text(false), "false".to_string());
    assert!(bool_from_string(Some(bool_text(true))));
    assert!(!bool_from_string(Some(bool_text(false))));
}

#[test]
fn field_counts_per_kind() {
    assert_eq!(field_count(Editablez::Trait), 2);
    assert_eq!(field_count(Editablez::Tier), 3);
    assert_eq!(field_count(Editablez::Contact), 3);
    assert_eq!(field_count(Editablez::Relation), 3);
    assert_eq!(field_count(Editablez::SigDate), 3);
    assert_eq!(focus_slot(Editablez::Trait, 5), 1);
    assert_eq!(focus_slot(Editablez::Tier, 5), 2);
}

#[test]
fn date_field_reads_strict_iso() {
    assert_eq!(
        option_date_from_option_string(Some("1990-05-12".to_string())),
        Some(Date { year: 1990, month: 5, day: 12 })
    );
    assert_eq!(option_date_from_option_string(Some("soon".to_string())), None);
    assert_eq!(option_date_from_option_string(None), None);
}

#[test]
fn trait_edit_round_trip_through_projection() {
    let t = TraitOps::create(7, 1, "from".to_string(), "Porto".to_string(), false);
    let mut e = Editable::of_trait(&t);
    assert_eq!(e.tgt, Editablez::Trait);
    assert_eq!(e.id, 7);
    assert_eq!(e.first, "from".to_string());
    assert_eq!(e.second, Some("Porto".to_string()));
    assert_eq!(e.third, Some("false".to_string()));
    e.first = "hometown".to_string();
    e.second = Some("Lisboa".to_string());
    e.third = Some("true".to_string());
    let u = TraitOps::updatee(&t, &e);
    assert_eq!(u.id, 7);
    assert_eq!(u.ppl_id, 1);
    assert_eq!(u.key, "hometown".to_string());
    assert_eq!(u.value, "Lisboa".to_string());
    assert!(u.hidden);
    // Re-aggregating for the person reflects the new values exactly.
    let traits = vec![u.clone()];
    let agg = aggregate_editables(
        1,
        (true, true, true, true, true),
        &traits,
        &Vec::new(),
        &Vec::new(),
        &Vec::new(),
        &Vec::new(),
    );
    assert_eq!(agg.len(), 1);
    assert_eq!(agg[0].id, 7);
    assert_eq!(agg[0].first, "hometown".to_string());
    assert_eq!(agg[0].second, Some("Lisboa".to_string()));
    assert_eq!(agg[0].third, Some("true".to_string()));
}

#[test]
fn sig_date_update_keeps_the_date_when_the_text_does_not_parse() {
    let s = SigDateOps::create(
        3,
        1,
        Date { year: 1990, month: 5, day: 12 },
        "birthday".to_string(),
        true,
    );
    let e = Editable {
        tgt: Editablez::SigDate,
        id: 3,
        first: "wedding".to_string(),
        second: Some("never".to_string()),
        third: Some("no".to_string()),
    };
    let u = SigDateOps::updatee(&s, &e);
    assert_eq!(u.event, "wedding".to_string());
    assert_eq!(u.date, Date { year: 1990, month: 5, day: 12 });
    assert!(!u.do_remind);
    assert_eq!(u.id, 3);
    let e = Editable {
        tgt: Editablez::SigDate,
        id: 3,
        first: "wedding".to_string(),
        second: Some("1991-06-13".to_string()),
        third: Some("yes".to_string()),
    };
    let u = SigDateOps::updatee(&s, &e);
    assert_eq!(u.date, Date { year: 1991, month: 6, day: 13 });
    assert!(u.do_remind);
}

#[test]
fn relation_update_keeps_dates_that_do_not_parse() {
    let entered = Date { year: 2010, month: 1, day: 2 };
    let r = RelationOps::create(4, 1, 2, "parent".to_string(), false, Some(entered), None);
    let e = Editable {
        tgt: Editablez::Relation,
        id: 4,
        first: "guardian".to_string(),
        second: Some("not a date".to_string()),
        third: Some("2020-02-02".to_string()),
    };
    let u = RelationOps::updatee(&r, &e);
    assert_eq!(u.typ, "guardian".to_string());
    assert_eq!(u.date_entered, Some(entered));
    assert_eq!(u.date_ended, Some(Date { year: 2020, month: 2, day: 2 }));
    assert_eq!(u.ppl_id_a, 1);
    assert_eq!(u.ppl_id_b, 2);
}

#[test]
fn contact_updatee_moves_the_three_fields() {
    let today = Date { year: 2024, month: 3, day: 1 };
    let c = ContactOps::create(
        9,
        1,
        "phone".to_string(),
        "primary".to_string(),
        "555-1234".to_string(),
        today,
    );
    let e = Editable {
        tgt: Editablez::Contact,
        id: 9,
        first: "email".to_string(),
        second: Some("work".to_string()),
        third: Some("ana@example.org".to_string()),
    };
    let u = ContactOps::updatee(&c, &e);
    assert_eq!(u.typ, "email".to_string());
    assert_eq!(u.designator, Some("work".to_string()));
    assert_eq!(u.value, "ana@example.org".to_string());
    assert_eq!(u.date_acq, Some(today));
}

#[test]
fn tier_updatee_sets_presentation_fields() {
    let t = TierOps::create(5, 1, "Family".to_string(), Some(7));
    let e = Editable {
        tgt: Editablez::Tier,
        id: 5,
        first: "Closest".to_string(),
        second: Some("RED".to_string()),
        third: Some("\u{2665}".to_string()),
    };
    let u = TierOps::updatee(&t, &e);
    assert_eq!(u.name, "Closest".to_string());
    assert_eq!(u.color, Some("RED".to_string()));
    assert_eq!(u.symbol, Some("\u{2665}".to_string()));
    assert_eq!(u.sig_date_delta, Some(7));
}

#[test]
fn person_rows_are_built_as_asked() {
    let me = PplOps::create_me(1, "Ana".to_string());
    assert!(me.me);
    assert_eq!(me.name, "Ana".to_string());
    let other = PplOps::create(2, "Bo".to_string());
    assert!(!other.me);
    let renamed = PplOps::update(&other, Some("Bob".to_string()));
    assert_eq!(renamed.name, "Bob".to_string());
    assert_eq!(renamed.id, 2);
    let kept = PplOps::update(&other, None);
    assert_eq!(kept.name, "Bo".to_string());
}

#[test]
fn catalog_rows_are_built_as_asked() {
    let td = TierDefaultOps::create(
        1,
        "Family".to_string(),
        true,
        true,
        "RED".to_string(),
        "\u{2605}".to_string(),
        Some(7),
    );
    assert_eq!(td.symbol, Some("\u{2605}".to_string()));
    assert_eq!(td.sig_date_delta, Some(7));
    let tr = TraitDefaultOps::create(
        2,
        "birthday".to_string(),
        "GOLD".to_string(),
        "\u{1F382}".to_string(),
        true,
        true,
        true,
        false,
    );
    assert!(tr.is_date);
    assert!(!tr.is_contact);
    assert_eq!(tr.key, "birthday".to_string());
}

#[test]
fn trait_update_keeps_fields_without_replacement() {
    let t = Traits {
        id: 1,
        ppl_id: 1,
        key: "from".to_string(),
        value: "Porto".to_string(),
        hidden: false,
    };
    let u = TraitOps::update(&t, None, None, true);
    assert_eq!(u.key, "from".to_string());
    assert_eq!(u.value, "Porto".to_string());
    assert!(u.hidden);
}
