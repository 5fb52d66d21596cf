use ppl::clock::{parse_date_text, today};
use ppl::dates::Date;
use ppl::plan::{add_plan, AddArgs, AddHalt, PersonRef, PlanStep};

fn args(name: &str) -> AddArgs {
    AddArgs {
        name: name.to_string(),
        tier: None,
        phone: None,
        email: None,
        bday: None,
        wedding: None,
        relation: None,
        met: None,
        from: None,
        address: None,
    }
}

#[test]
fn bare_add_plans_only_the_person() {
    let (steps, halt) = add_plan(&args("Bo"), None, None, None);
    assert_eq!(halt, None);
    assert_eq!(steps, vec![PlanStep::CreatePerson { name: "Bo".to_string() }]);
}

#[test]
fn full_add_plans_every_field_in_order() {
    let mut a = args("Bo");
    a.tier = Some("Friends".to_string());
    a.phone = Some("555".to_string());
    a.email = Some("bo@example.org".to_string());
    a.bday = Some("1993-08-28".to_string());
    a.wedding = Some("2018-12-20".to_string());
    a.relation = Some("Wife".to_string());
    a.met = Some("2012-01-01".to_string());
    a.from = Some("Oslo".to_string());
    a.address = Some("Main St 1".to_string());
    let bday = Date { year: 1993, month: 8, day: 28 };
    let wed = Date { year: 2018, month: 12, day: 20 };
    let met = Date { year: 2012, month: 1, day: 1 };
    let (steps, halt) = add_plan(&a, Some(bday), Some(wed), Some(met));
    assert_eq!(halt, None);
    assert_eq!(steps.len(), 10);
    assert_eq!(steps[0], PlanStep::CreatePerson { name: "Bo".to_string() });
    assert_eq!(
        steps[1],
        PlanStep::CreateTier {
            who: PersonRef::Created(0),
            name: "Friends".to_string(),
            window: None,
        }
    );
    assert_eq!(
        steps[2],
        PlanStep::CreateContact {
            who: PersonRef::Created(0),
            typ: "phone".to_string(),
            designator: Some("primary".to_string()),
            value: "555".to_string(),
        }
    );
    assert_eq!(
        steps[4],
        PlanStep::CreateSigDate {
            who: PersonRef::Created(0),
            date: bday,
            event: "birthday".to_string(),
            do_remind: true,
        }
    );
    assert_eq!(
        steps[6],
        PlanStep::CreateRelation {
            a: PersonRef::Me,
            b: PersonRef::Created(0),
            typ: "Wife".to_string(),
            entered: None,
        }
    );
    assert_eq!(
        steps[7],
        PlanStep::CreateSigDate {
            who: PersonRef::Created(0),
            date: met,
            event: "met".to_string(),
            do_remind: false,
        }
    );
    assert_eq!(
        steps[8],
        PlanStep::CreateTrait {
            who: PersonRef::Created(0),
            key: "from".to_string(),
            value: "Oslo".to_string(),
            hidden: false,
        }
    );
    assert_eq!(
        steps[9],
        PlanStep::CreateContact {
            who: PersonRef::Created(0),
            typ: "address".to_string(),
            designator: Some("primary".to_string()),
            value: "Main St 1".to_string(),
        }
    );
}

#[test]
fn unparseable_birthday_halts_the_chain() {
    let mut a = args("Bo");
    a.bday = Some("sometime".to_string());
    a.from = Some("Oslo".to_string());
    let (steps, halt) = add_plan(&a, None, None, None);
    assert_eq!(halt, Some(AddHalt::Bday));
    // Only the person was planned; the later origin trait is not reached.
    assert_eq!(steps, vec![PlanStep::CreatePerson { name: "Bo".to_string() }]);
}

#[test]
fn unparseable_met_halts_after_earlier_fields() {
    let mut a = args("Bo");
    a.tier = Some("Friends".to_string());
    a.met = Some("back then".to_string());
    a.address = Some("Main St 1".to_string());
    let (steps, halt) = add_plan(&a, None, None, None);
    assert_eq!(halt, Some(AddHalt::Met));
    assert_eq!(steps.len(), 2);
}

#[test]
fn free_text_dates_go_through_the_parser() {
    assert_eq!(parse_date_text("1990-05-12"), Some(Date { year: 1990, month: 5, day: 12 }));
    assert_eq!(
        parse_date_text("December 20, 2018"),
        Some(Date { year: 2018, month: 12, day: 20 })
    );
    assert_eq!(parse_date_text("not a date"), None);
}

#[test]
fn the_clock_reports_an_actual_day() {
    let t = today().unwrap();
    assert!(1 <= t.month && t.month <= 12);
    assert!(1 <= t.day && t.day <= 31);
    assert!(2020 <= t.year && t.year <= 9999);
}

#[test]
fn unparseable_wedding_halts_after_the_birthday() {
    let mut a = args("Bo");
    a.bday = Some("1993-08-28".to_string());
    a.wedding = Some("someday".to_string());
    a.relation = Some("Wife".to_string());
    let bday = Date { year: 1993, month: 8, day: 28 };
    let (steps, halt) = add_plan(&a, Some(bday), None, None);
    assert_eq!(halt, Some(AddHalt::Wedding));
    assert_eq!(steps.len(), 2);
    assert_eq!(
        steps[1],
        PlanStep::CreateSigDate {
            who: PersonRef::Created(0),
            date: bday,
            event: "birthday".to_string(),
            do_remind: true,
        }
    );
}
