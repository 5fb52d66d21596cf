use ppl::dates::Date;
use ppl::plan::{PersonRef, PlanStep};
use ppl::wizard::{Init, InitEffect, InitKey, Steps};

fn fresh() -> Init {
    Init::default()
}

fn drive_to(w: &mut Init, step: Steps) {
    // Walk the wizard forward with canned answers until the wanted step.
    loop {
        if w.step == step {
            return;
        }
        match w.step {
            Steps::Welcome => {
                w.confirm(&"".to_string(), None);
            },
            Steps::Name => {
                w.confirm(&"Ana,Annie,An".to_string(), None);
            },
            Steps::Birthday => {
                w.confirm(
                    &"1990-05-12".to_string(),
                    Some(Date { year: 1990, month: 5, day: 12 }),
                );
            },
            Steps::Place => {
                w.confirm(&"Porto".to_string(), None);
            },
            Steps::Of => {
                w.confirm(&"Maria, Jo".to_string(), None);
            },
            Steps::With => {
                w.confirm(&"".to_string(), None);
            },
            Steps::Tiers => {
                w.confirm(&"".to_string(), None);
            },
            Steps::Traits => {
                w.confirm(&"".to_string(), None);
            },
            Steps::Review => return,
        }
    }
}

#[test]
fn name_step_first_token_is_name_rest_are_aliases() {
    let mut w = fresh();
    w.confirm(&"".to_string(), None);
    assert_eq!(w.step, Steps::Name);
    let reset = w.confirm(&"Ana,Annie,An".to_string(), None);
    assert!(reset);
    assert_eq!(w.step, Steps::Birthday);
    assert_eq!(w.name, "Ana".to_string());
    assert_eq!(w.nicks, vec!["Annie".to_string(), "An".to_string()]);
}

#[test]
fn name_step_rejects_empty_input() {
    let mut w = fresh();
    w.confirm(&"".to_string(), None);
    let reset = w.confirm(&"".to_string(), None);
    assert!(!reset);
    assert_eq!(w.step, Steps::Name);
}

#[test]
fn birthday_step_keeps_error_until_a_date_parses() {
    let mut w = fresh();
    drive_to(&mut w, Steps::Birthday);
    let (reset, parsed) = w.confirm_text(&"not a date".to_string());
    assert!(!reset);
    assert_eq!(parsed, None);
    assert_eq!(w.step, Steps::Birthday);
    assert!(!w.bday_parse.is_empty());
    let (reset, parsed) = w.confirm_text(&"1990-05-12".to_string());
    assert!(reset);
    assert_eq!(parsed, Some(Date { year: 1990, month: 5, day: 12 }));
    assert_eq!(w.step, Steps::Place);
    assert_eq!(w.bday, Some(Date { year: 1990, month: 5, day: 12 }));
    assert!(w.bday_parse.is_empty());
}

#[test]
fn retreat_from_place_resets_birthday() {
    let mut w = fresh();
    drive_to(&mut w, Steps::Place);
    assert_eq!(w.bday, Some(Date { year: 1990, month: 5, day: 12 }));
    let eff = w.handle_key(InitKey::Erase, &"".to_string(), None);
    assert_eq!(eff, InitEffect::Handled);
    assert_eq!(w.step, Steps::Birthday);
    assert_eq!(w.bday, None);
}

#[test]
fn erase_with_text_goes_to_the_input() {
    let mut w = fresh();
    drive_to(&mut w, Steps::Place);
    let eff = w.handle_key(InitKey::Erase, &"Port".to_string(), None);
    assert_eq!(eff, InitEffect::PassToInput);
    assert_eq!(w.step, Steps::Place);
}

#[test]
fn of_step_splits_and_trims() {
    let mut w = fresh();
    drive_to(&mut w, Steps::Of);
    w.confirm(&"Maria , Jo".to_string(), None);
    assert_eq!(w.step, Steps::With);
    assert_eq!(w.of_ppl, vec!["Maria".to_string(), "Jo".to_string()]);
}

#[test]
fn with_step_accepts_empty_input() {
    let mut w = fresh();
    drive_to(&mut w, Steps::With);
    let reset = w.confirm(&"".to_string(), None);
    assert!(reset);
    assert_eq!(w.step, Steps::Tiers);
    assert_eq!(w.with_ppl, Vec::<String>::new());
}

#[test]
fn tier_checklist_toggle_and_add() {
    let mut w = fresh();
    drive_to(&mut w, Steps::Tiers);
    assert_eq!(w.tier_list.len(), 5);
    assert_eq!(w.tier_list[0].name, "Family".to_string());
    assert_eq!(w.tier_count_string(), "5/5 Selected".to_string());
    w.handle_key(InitKey::Down, &"".to_string(), None);
    w.handle_key(InitKey::Select, &"".to_string(), None);
    assert!(!w.tier_list[0].selected);
    assert_eq!(w.tier_count_string(), "4/5 Selected".to_string());
    w.handle_key(InitKey::EditToggle, &"".to_string(), None);
    assert!(w.tier_editing);
    let eff = w.handle_key(InitKey::Confirm, &"Neighbors".to_string(), None);
    assert_eq!(eff, InitEffect::ResetInput);
    assert_eq!(w.step, Steps::Tiers);
    assert_eq!(w.tier_list.len(), 6);
    assert_eq!(w.tier_list[5].name, "Neighbors".to_string());
    assert!(w.tier_list[5].selected);
}

#[test]
fn default_trait_catalog_is_seeded() {
    let w = fresh();
    let names: Vec<String> = w.trait_list.iter().map(|t| t.name.clone()).collect();
    assert_eq!(
        names,
        vec![
            "alias".to_string(),
            "birthday".to_string(),
            "wedding".to_string(),
            "met".to_string(),
            "phone".to_string(),
            "address".to_string(),
            "email".to_string(),
        ]
    );
    assert!(w.trait_list[1].is_date);
    assert!(w.trait_list[4].is_contact);
    assert!(w.trait_list.iter().all(|t| t.selected));
}

#[test]
fn commit_key_fires_only_at_review() {
    let mut w = fresh();
    drive_to(&mut w, Steps::Tiers);
    assert_eq!(w.handle_key(InitKey::Commit, &"".to_string(), None), InitEffect::Handled);
    drive_to(&mut w, Steps::Review);
    assert_eq!(w.handle_key(InitKey::Commit, &"".to_string(), None), InitEffect::Commit);
}

#[test]
fn commit_plan_lists_every_capture_in_order() {
    let mut w = fresh();
    drive_to(&mut w, Steps::Review);
    let plan = w.commit_plan();
    // self, 2 aliases, birthday, place, 2 parents with relations, catalogs
    assert_eq!(plan[0], PlanStep::CreateSelf { name: "Ana".to_string() });
    assert_eq!(
        plan[1],
        PlanStep::CreateTrait {
            who: PersonRef::Me,
            key: "alias".to_string(),
            value: "Annie".to_string(),
            hidden: false,
        }
    );
    assert_eq!(
        plan[2],
        PlanStep::CreateTrait {
            who: PersonRef::Me,
            key: "alias".to_string(),
            value: "An".to_string(),
            hidden: false,
        }
    );
    assert_eq!(
        plan[3],
        PlanStep::CreateSigDate {
            who: PersonRef::Me,
            date: Date { year: 1990, month: 5, day: 12 },
            event: "birthday".to_string(),
            do_remind: true,
        }
    );
    assert_eq!(
        plan[4],
        PlanStep::CreateContact {
            who: PersonRef::Me,
            typ: "address".to_string(),
            designator: None,
            value: "Porto".to_string(),
        }
    );
    assert_eq!(plan[5], PlanStep::CreatePerson { name: "Maria".to_string() });
    assert_eq!(
        plan[6],
        PlanStep::CreateRelation {
            a: PersonRef::Created(0),
            b: PersonRef::Me,
            typ: "parent".to_string(),
            entered: Some(Date { year: 1990, month: 5, day: 12 }),
        }
    );
    assert_eq!(plan[7], PlanStep::CreatePerson { name: "Jo".to_string() });
    assert_eq!(
        plan[8],
        PlanStep::CreateRelation {
            a: PersonRef::Created(1),
            b: PersonRef::Me,
            typ: "parent".to_string(),
            entered: Some(Date { year: 1990, month: 5, day: 12 }),
        }
    );
    // five selected circles, then the whole trait catalog
    assert_eq!(
        plan[9],
        PlanStep::CreateTierDefault {
            key: "Family".to_string(),
            default: true,
            enabled: true,
            window: None,
        }
    );
    assert_eq!(plan.len(), 9 + 5 + 7);
    match &plan[14] {
        PlanStep::CreateTraitDefault { key, enabled, is_date, .. } => {
            assert_eq!(key, &"alias".to_string());
            assert!(*enabled);
            assert!(!*is_date);
        },
        other => panic!("unexpected step {:?}", other),
    }
}

#[test]
fn traits_checklist_toggle_and_add() {
    let mut w = fresh();
    drive_to(&mut w, Steps::Traits);
    assert_eq!(w.trait_count_string(), "7/7 Selected".to_string());
    w.handle_key(InitKey::Down, &"".to_string(), None);
    w.handle_key(InitKey::Select, &"".to_string(), None);
    assert!(!w.trait_list[0].selected);
    assert_eq!(w.trait_count_string(), "6/7 Selected".to_string());
    w.handle_key(InitKey::EditToggle, &"".to_string(), None);
    assert!(w.trait_editing);
    w.handle_key(InitKey::Confirm, &"shoe size".to_string(), None);
    assert_eq!(w.trait_list.len(), 8);
    assert_eq!(w.trait_list[7].name, "shoe size".to_string());
    assert!(w.trait_list[7].selected);
    assert_eq!(w.trait_list[7].symbol, "".to_string());
    assert_eq!(w.step, Steps::Traits);
}

#[test]
fn cursor_moves_clamp_at_the_list_ends() {
    let mut w = fresh();
    drive_to(&mut w, Steps::Tiers);
    assert_eq!(w.tier_cursor, None);
    w.handle_key(InitKey::Up, &"".to_string(), None);
    assert_eq!(w.tier_cursor, Some(0));
    w.handle_key(InitKey::Up, &"".to_string(), None);
    assert_eq!(w.tier_cursor, Some(0));
    for _ in 0..9 {
        w.handle_key(InitKey::Down, &"".to_string(), None);
    }
    assert_eq!(w.tier_cursor, Some(4));
}

#[test]
fn quit_key_leaves_the_wizard_anywhere() {
    let mut w = fresh();
    drive_to(&mut w, Steps::Of);
    let eff = w.handle_key(InitKey::Quit, &"half typed".to_string(), None);
    assert_eq!(eff, InitEffect::Quit);
    assert_eq!(w.step, Steps::Of);
}
