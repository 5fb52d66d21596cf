use ppl::dates::Date;
use ppl::records::{Ppl, ReminderMode, SigDate, Tier, TierDefaults, TraitDefaults};
use ppl::reminder::{calendar_marks, digest, due_check, person_reminders, resolve_mode,
    resolve_window, suppressed};

fn person(id: i64, name: &str, last: Option<Date>) -> Ppl {
    Ppl { id, name: name.to_string(), nick: None, me: false, last_reminded: last }
}

fn tier_row(ppl_id: i64, window: Option<u32>, mode: Option<ReminderMode>) -> Tier {
    Tier {
        id: 1,
        ppl_id,
        name: "Family".to_string(),
        color: None,
        symbol: None,
        sig_date_delta: window,
        sig_remind_enum: mode,
    }
}

fn sig(ppl_id: i64, date: Date, event: &str) -> SigDate {
    SigDate { id: 1, ppl_id, date, event: event.to_string(), do_remind: true, with_ppl: None }
}

fn birthday_icon_row() -> TraitDefaults {
    TraitDefaults {
        id: 1,
        key: "birthday".to_string(),
        default: true,
        enabled: true,
        is_date: true,
        is_contact: false,
        color: "GOLD".to_string(),
        symbol: "\u{1F382}".to_string(),
    }
}

const TODAY: Date = Date { year: 2024, month: 3, day: 1 };

#[test]
fn window_boundary_seven_days_due_eight_not() {
    let w = 7;
    let exactly_seven = Date { year: 1990, month: 3, day: 8 };
    let eight_out = Date { year: 1990, month: 3, day: 9 };
    assert_eq!(due_check(exactly_seven, TODAY, w), Some((7, 34)));
    assert_eq!(due_check(eight_out, TODAY, w), None);
}

#[test]
fn passed_anniversary_falls_through_both_checks() {
    // Passed three days ago; next year's anniversary is far beyond the window.
    let passed = Date { year: 1990, month: 2, day: 27 };
    assert_eq!(due_check(passed, TODAY, 7), None);
}

#[test]
fn passed_anniversary_can_be_due_next_year() {
    // Yesterday's anniversary is due again next year under a very wide window.
    let stored = Date { year: 1992, month: 2, day: 29 };
    let r = due_check(stored, TODAY, 400);
    // This year's anniversary (February 29, 2024) already passed; the 2025
    // anniversary clamps to February 28 and lies 364 days out.
    assert_eq!(r, Some((364, 33)));
}

#[test]
fn window_resolution_prefers_own_tiers_then_catalog() {
    let tiers = vec![tier_row(1, None, None), tier_row(1, Some(3), None)];
    let defaults = vec![TierDefaults {
        id: 1,
        key: "Family".to_string(),
        default: true,
        enabled: true,
        color: None,
        symbol: None,
        sig_date_delta: Some(10),
        sig_remind_enum: None,
    }];
    assert_eq!(resolve_window(&tiers, &defaults, 1), Some(3));
    let bare = vec![tier_row(1, None, None)];
    assert_eq!(resolve_window(&bare, &defaults, 1), Some(10));
    assert_eq!(resolve_window(&bare, &Vec::new(), 1), None);
    // Another person's tiers are not consulted.
    assert_eq!(resolve_window(&tiers, &Vec::new(), 2), None);
}

#[test]
fn suppression_only_once_today_blocks() {
    assert!(suppressed(Some(ReminderMode::OnlyOnce), Some(TODAY), TODAY));
    assert!(suppressed(None, Some(TODAY), TODAY));
    let yesterday = Date { year: 2024, month: 2, day: 29 };
    assert!(!suppressed(Some(ReminderMode::OnlyOnce), Some(yesterday), TODAY));
    assert!(!suppressed(Some(ReminderMode::OnlyOnce), None, TODAY));
    assert!(!suppressed(Some(ReminderMode::Always), Some(TODAY), TODAY));
}

#[test]
fn person_suppressed_today_emits_nothing() {
    let p = person(1, "Ana", Some(TODAY));
    let dates = vec![sig(1, Date { year: 1990, month: 3, day: 3 }, "birthday")];
    let tiers = vec![tier_row(1, Some(7), Some(ReminderMode::OnlyOnce))];
    let (lines, stamp) = person_reminders(&p, &dates, &tiers, &Vec::new(), &Vec::new(), TODAY);
    assert_eq!(lines.len(), 0);
    assert!(!stamp);
}

#[test]
fn person_reminded_yesterday_is_evaluated_and_stamped() {
    let yesterday = Date { year: 2024, month: 2, day: 29 };
    let p = person(1, "Ana", Some(yesterday));
    let dates = vec![sig(1, Date { year: 1990, month: 3, day: 3 }, "birthday")];
    let tiers = vec![tier_row(1, Some(7), Some(ReminderMode::OnlyOnce))];
    let cat = vec![birthday_icon_row()];
    let (lines, stamp) = person_reminders(&p, &dates, &tiers, &Vec::new(), &cat, TODAY);
    assert_eq!(lines.len(), 1);
    assert_eq!(lines[0].days_until, 2);
    assert_eq!(lines[0].years, 34);
    assert_eq!(lines[0].event, "birthday".to_string());
    assert_eq!(lines[0].display_name, "Ana".to_string());
    assert_eq!(lines[0].icon, Some("\u{1F382}".to_string()));
    assert!(stamp);
}

#[test]
fn person_without_window_emits_nothing() {
    let p = person(1, "Ana", None);
    let dates = vec![sig(1, Date { year: 1990, month: 3, day: 3 }, "birthday")];
    let (lines, stamp) = person_reminders(&p, &dates, &Vec::new(), &Vec::new(), &Vec::new(), TODAY);
    assert_eq!(lines.len(), 0);
    assert!(!stamp);
}

#[test]
fn reminder_skips_dates_not_flagged_for_reminding() {
    let p = person(1, "Ana", None);
    let mut d = sig(1, Date { year: 1990, month: 3, day: 3 }, "birthday");
    d.do_remind = false;
    let tiers = vec![tier_row(1, Some(7), None)];
    let (lines, _) = person_reminders(&p, &vec![d], &tiers, &Vec::new(), &Vec::new(), TODAY);
    assert_eq!(lines.len(), 0);
}

#[test]
fn nickname_wins_as_display_name() {
    let mut p = person(1, "Ana", None);
    p.nick = Some("Annie".to_string());
    let dates = vec![sig(1, Date { year: 1990, month: 3, day: 3 }, "birthday")];
    let tiers = vec![tier_row(1, Some(7), None)];
    let (lines, _) = person_reminders(&p, &dates, &tiers, &Vec::new(), &Vec::new(), TODAY);
    assert_eq!(lines[0].display_name, "Annie".to_string());
}

#[test]
fn digest_sorts_by_days_and_drops_repeats() {
    let ppl = vec![person(1, "Ana", None), person(2, "Bo", None)];
    let dates = vec![
        sig(1, Date { year: 1990, month: 3, day: 6 }, "birthday"),
        sig(2, Date { year: 1985, month: 3, day: 3 }, "birthday"),
        sig(1, Date { year: 1990, month: 3, day: 6 }, "birthday"),
    ];
    let tiers = vec![tier_row(1, Some(7), None), tier_row(2, Some(7), None)];
    let (lines, stamps) = digest(&ppl, &dates, &tiers, &Vec::new(), &Vec::new(), TODAY);
    assert_eq!(lines.len(), 2);
    assert_eq!(lines[0].days_until, 2);
    assert_eq!(lines[0].ppl_id, 2);
    assert_eq!(lines[1].days_until, 5);
    assert_eq!(lines[1].ppl_id, 1);
    assert_eq!(stamps, vec![1, 2]);
}

#[test]
fn mode_resolution_takes_first_set_row() {
    let tiers = vec![tier_row(1, None, None), tier_row(1, None, Some(ReminderMode::Never))];
    assert_eq!(resolve_mode(&tiers, 1), Some(ReminderMode::Never));
    assert_eq!(resolve_mode(&tiers, 2), None);
}

#[test]
fn calendar_marks_normalize_to_the_current_year() {
    let dates = vec![
        sig(1, Date { year: 1990, month: 3, day: 1 }, "birthday"),
        sig(2, Date { year: 2000, month: 2, day: 29 }, "wedding"),
    ];
    let marks = calendar_marks(&dates, TODAY);
    assert_eq!(marks.len(), 2);
    assert_eq!(marks[0].month, 3);
    assert_eq!(marks[0].day, 1);
    assert!(marks[0].is_today);
    assert!(marks[0].remind);
    assert_eq!(marks[1].month, 2);
    assert_eq!(marks[1].day, 29);
    assert!(!marks[1].is_today);
    assert!(!marks[1].remind); // already passed this year
}
