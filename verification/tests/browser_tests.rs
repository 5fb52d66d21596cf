use ppl::browser::{Category, Tabs, Tui, TuiEffect, TuiKey};
use ppl::dates::Date;
use ppl::editable::Editablez;
use ppl::records::{Ppl, SigDate, Traits};

fn empty_string() -> String {
    "".to_string()
}

fn loaded_session() -> Tui {
    let mut t = Tui::default();
    let ppl = vec![
        Ppl { id: 1, name: "Ana".to_string(), nick: None, me: true, last_reminded: None },
        Ppl { id: 2, name: "Bo".to_string(), nick: None, me: false, last_reminded: None },
    ];
    let traits = vec![
        Traits {
            id: 10,
            ppl_id: 1,
            key: "from".to_string(),
            value: "Porto".to_string(),
            hidden: false,
        },
        Traits {
            id: 11,
            ppl_id: 2,
            key: "from".to_string(),
            value: "Oslo".to_string(),
            hidden: false,
        },
    ];
    let dates = vec![SigDate {
        id: 20,
        ppl_id: 1,
        date: Date { year: 1990, month: 5, day: 12 },
        event: "birthday".to_string(),
        do_remind: true,
        with_ppl: None,
    }];
    t.set_records(ppl, Vec::new(), Vec::new(), Vec::new(), traits, Vec::new(), Vec::new(), dates);
    t
}

#[test]
fn tabs_cycle_with_the_focus_key() {
    let mut t = Tui::default();
    let e = empty_string();
    assert_eq!(t.current_tab, Tabs::Ppl);
    t.handle_key(TuiKey::NextFocus, &e, &e, &e);
    assert_eq!(t.current_tab, Tabs::Calendar);
    t.handle_key(TuiKey::NextFocus, &e, &e, &e);
    assert_eq!(t.current_tab, Tabs::TierSettings);
    t.handle_key(TuiKey::NextFocus, &e, &e, &e);
    assert_eq!(t.current_tab, Tabs::TraitSettings);
    t.handle_key(TuiKey::NextFocus, &e, &e, &e);
    assert_eq!(t.current_tab, Tabs::Ppl);
}

#[test]
fn quit_key_leaves_the_session() {
    let mut t = Tui::default();
    let e = empty_string();
    assert_eq!(t.handle_key(TuiKey::Quit, &e, &e, &e), TuiEffect::Quit);
}

#[test]
fn selecting_a_person_aggregates_their_records() {
    let mut t = loaded_session();
    let e = empty_string();
    t.handle_key(TuiKey::Down, &e, &e, &e);
    assert_eq!(t.ppl_cursor, Some(0));
    // Ana: one trait and one date.
    assert_eq!(t.ppl_editables.len(), 2);
    assert_eq!(t.ppl_editables[0].tgt, Editablez::Trait);
    assert_eq!(t.ppl_editables[0].first, "from".to_string());
    assert_eq!(t.ppl_editables[1].tgt, Editablez::SigDate);
    assert_eq!(t.ppl_editables[1].second, Some("1990-05-12".to_string()));
    t.handle_key(TuiKey::Down, &e, &e, &e);
    assert_eq!(t.ppl_cursor, Some(1));
    // Bo: only the trait.
    assert_eq!(t.ppl_editables.len(), 1);
    assert_eq!(t.ppl_editables[0].second, Some("Oslo".to_string()));
}

#[test]
fn edit_flow_loads_inputs_then_persists() {
    let mut t = loaded_session();
    let e = empty_string();
    t.handle_key(TuiKey::Down, &e, &e, &e);
    t.handle_key(TuiKey::EditToggle, &e, &e, &e);
    assert!(t.ppl_editing);
    t.handle_key(TuiKey::Down, &e, &e, &e);
    assert_eq!(t.ppl_detail_cursor, Some(0));
    let eff = t.handle_key(TuiKey::Confirm, &e, &e, &e);
    assert_eq!(
        eff,
        TuiEffect::LoadInputs("from".to_string(), "Porto".to_string(), "false".to_string())
    );
    assert!(t.ppl_field_editing);
    // While a field is focused, the focus key advances the focus cursor
    // instead of switching tabs.
    assert_eq!(t.ppl_field_idx, 0);
    t.handle_key(TuiKey::NextFocus, &e, &e, &e);
    assert_eq!(t.ppl_field_idx, 1);
    assert_eq!(t.current_tab, Tabs::Ppl);
    // Any other key goes to the focused input slot: a trait cycles two slots.
    let eff = t.handle_key(TuiKey::Other, &e, &e, &e);
    assert_eq!(eff, TuiEffect::RouteToInput(1));
    t.handle_key(TuiKey::NextFocus, &e, &e, &e);
    let eff = t.handle_key(TuiKey::Other, &e, &e, &e);
    assert_eq!(eff, TuiEffect::RouteToInput(0));
    // Confirming again hands back the edited projection.
    let eff = t.handle_key(
        TuiKey::Confirm,
        &"hometown".to_string(),
        &"Lisboa".to_string(),
        &"true".to_string(),
    );
    match eff {
        TuiEffect::Persist(ed) => {
            assert_eq!(ed.tgt, Editablez::Trait);
            assert_eq!(ed.id, 10);
            assert_eq!(ed.first, "hometown".to_string());
            assert_eq!(ed.second, Some("Lisboa".to_string()));
            assert_eq!(ed.third, Some("true".to_string()));
        },
        other => panic!("unexpected effect {:?}", other),
    }
    assert!(!t.ppl_field_editing);
}

#[test]
fn bad_date_text_keeps_the_session_in_edit_field() {
    let mut t = loaded_session();
    let e = empty_string();
    t.handle_key(TuiKey::Down, &e, &e, &e);
    t.handle_key(TuiKey::EditToggle, &e, &e, &e);
    t.handle_key(TuiKey::Down, &e, &e, &e);
    t.handle_key(TuiKey::Down, &e, &e, &e);
    assert_eq!(t.ppl_detail_cursor, Some(1));
    let eff = t.handle_key(TuiKey::Confirm, &e, &e, &e);
    assert_eq!(
        eff,
        TuiEffect::LoadInputs("birthday".to_string(), "1990-05-12".to_string(), "true".to_string())
    );
    // A date text that does not read as a date is rejected in place.
    let eff = t.handle_key(
        TuiKey::Confirm,
        &"birthday".to_string(),
        &"soonish".to_string(),
        &"true".to_string(),
    );
    assert_eq!(eff, TuiEffect::Handled);
    assert!(t.ppl_field_editing);
    assert!(!t.edit_error.is_empty());
    // A corrected text persists and clears the message.
    let eff = t.handle_key(
        TuiKey::Confirm,
        &"birthday".to_string(),
        &"1990-05-13".to_string(),
        &"true".to_string(),
    );
    match eff {
        TuiEffect::Persist(ed) => {
            assert_eq!(ed.second, Some("1990-05-13".to_string()));
        },
        other => panic!("unexpected effect {:?}", other),
    }
    assert!(!t.ppl_field_editing);
    assert!(t.edit_error.is_empty());
}

#[test]
fn category_toggles_filter_the_aggregation() {
    let mut t = loaded_session();
    let e = empty_string();
    t.handle_key(TuiKey::Down, &e, &e, &e);
    assert_eq!(t.ppl_editables.len(), 2);
    t.handle_key(TuiKey::ToggleCategory(Category::Dates), &e, &e, &e);
    assert!(!t.show_dates);
    assert_eq!(t.ppl_editables.len(), 1);
    assert_eq!(t.ppl_editables[0].tgt, Editablez::Trait);
    t.handle_key(TuiKey::ToggleCategory(Category::Traits), &e, &e, &e);
    assert_eq!(t.ppl_editables.len(), 0);
    t.handle_key(TuiKey::ToggleCategory(Category::Dates), &e, &e, &e);
    t.handle_key(TuiKey::ToggleCategory(Category::Traits), &e, &e, &e);
    assert_eq!(t.ppl_editables.len(), 2);
}

#[test]
fn reload_clamps_stale_cursors() {
    let mut t = loaded_session();
    let e = empty_string();
    t.handle_key(TuiKey::Down, &e, &e, &e);
    t.handle_key(TuiKey::Down, &e, &e, &e);
    assert_eq!(t.ppl_cursor, Some(1));
    let one = vec![Ppl { id: 1, name: "Ana".to_string(), nick: None, me: true, last_reminded: None }];
    t.set_records(
        one,
        Vec::new(),
        Vec::new(),
        Vec::new(),
        Vec::new(),
        Vec::new(),
        Vec::new(),
        Vec::new(),
    );
    assert_eq!(t.ppl_cursor, None);
    assert_eq!(t.ppl_editables.len(), 0);
}

#[test]
fn cursor_stops_at_the_ends() {
    let mut t = loaded_session();
    let e = empty_string();
    t.handle_key(TuiKey::Up, &e, &e, &e);
    assert_eq!(t.ppl_cursor, Some(0));
    t.handle_key(TuiKey::Down, &e, &e, &e);
    t.handle_key(TuiKey::Down, &e, &e, &e);
    t.handle_key(TuiKey::Down, &e, &e, &e);
    assert_eq!(t.ppl_cursor, Some(1));
}
