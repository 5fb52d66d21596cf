//! The reminder scheduler: notice windows, suppression, due dates, the
//! ordered digest, and the calendar projection.

use vstd::prelude::*;
use vstd::multiset::Multiset;
use crate::dates::{Date, spec_anniversary_on, spec_day_number, spec_date_before, anniversary_on,
    day_number, date_before};
use crate::records::{Ppl, ReminderMode, SigDate, Tier, TierDefaults, TraitDefaults};
use crate::resolve::{TraitCatalogFilter, spec_trait_first_match, resolve_trait_symbol};

verus! {

/// One line of the reminder digest.
#[derive(Clone, Debug, PartialEq)]
pub struct ReminderLine {
    pub ppl_id: i64,
    pub display_name: String,
    pub event: String,
    pub days_until: u32,
    pub years: i32,
    pub icon: Option<String>,
    pub tier_symbol: Option<String>,
    pub tier_color: Option<String>,
}

/// The first value an extraction function yields over the sequence, in order.
pub open spec fn spec_first_some<T, U>(s: Seq<T>, f: spec_fn(T) -> Option<U>) -> Option<U>
    decreases s.len(),
{
    if s.len() == 0 {
        None
    } else if f(s[0]) is Some {
        f(s[0])
    } else {
        spec_first_some(s.drop_first(), f)
    }
}

pub proof fn lemma_first_some_at<T, U>(s: Seq<T>, f: spec_fn(T) -> Option<U>, i: int)
    requires
        0 <= i < s.len(),
        f(s[i]) is Some,
        forall|j: int| 0 <= j < i ==> f(s[j]) is None,
    ensures
        spec_first_some(s, f) == f(s[i]),
    decreases i,
{
    if i > 0 {
        assert(s.drop_first()[i - 1] == s[i]);
        assert forall|j: int| 0 <= j < i - 1 implies f(s.drop_first()[j]) is None by {
            assert(s.drop_first()[j] == s[j + 1]);
        }
        lemma_first_some_at(s.drop_first(), f, i - 1);
    }
}

pub proof fn lemma_first_some_none<T, U>(s: Seq<T>, f: spec_fn(T) -> Option<U>)
    requires
        forall|j: int| 0 <= j < s.len() ==> f(s[j]) is None,
    ensures
        spec_first_some(s, f) is None,
    decreases s.len(),
{
    if s.len() > 0 {
        assert forall|j: int| 0 <= j < s.len() - 1 implies f(s.drop_first()[j]) is None by {
            assert(s.drop_first()[j] == s[j + 1]);
        }
        lemma_first_some_none(s.drop_first(), f);
    }
}

/// The notice window for a person: the first of the person's own tier rows
/// that sets one wins; the global catalog is scanned only after that; a person
/// without any resolved window gets no reminders.
pub open spec fn spec_resolved_window(tiers: Seq<Tier>, defaults: Seq<TierDefaults>, pid: i64)
    -> Option<u32> {
    match spec_first_some(
        tiers,
        |t: Tier|
            if t.ppl_id == pid {
                t.sig_date_delta
            } else {
                None
            },
    ) {
        Some(w) => Some(w),
        None => spec_first_some(defaults, |d: TierDefaults| d.sig_date_delta),
    }
}

pub fn resolve_window(tiers: &Vec<Tier>, defaults: &Vec<TierDefaults>, pid: i64) -> (r: Option<u32>)
    ensures
        r == spec_resolved_window(tiers@, defaults@, pid),
{
    let ghost ft = |t: Tier|
        if t.ppl_id == pid {
            t.sig_date_delta
        } else {
            None
        };
    let mut i: usize = 0;
    while i < tiers.len()
        invariant
            0 <= i <= tiers@.len(),
            forall|j: int| 0 <= j < i ==> (#[trigger] ft(tiers@[j])) is None,
            ft == (|t: Tier|
                if t.ppl_id == pid {
                    t.sig_date_delta
                } else {
                    None
                }),
        decreases tiers@.len() - i,
    {
        let t = &tiers[i];
        if t.ppl_id == pid {
            match t.sig_date_delta {
                Some(w) => {
                    proof {
                        lemma_first_some_at(tiers@, ft, i as int);
                    }
                    return Some(w);
                },
                None => {},
            }
        }
        i = i + 1;
    }
    proof {
        lemma_first_some_none(tiers@, ft);
    }
    let ghost fd = |d: TierDefaults| d.sig_date_delta;
    let mut k: usize = 0;
    while k < defaults.len()
        invariant
            0 <= k <= defaults@.len(),
            forall|j: int| 0 <= j < k ==> (#[trigger] fd(defaults@[j])) is None,
            fd == (|d: TierDefaults| d.sig_date_delta),
            spec_first_some(
                tiers@,
                |t: Tier|
                    if t.ppl_id == pid {
                        t.sig_date_delta
                    } else {
                        None
                    },
            ) is None,
        decreases defaults@.len() - k,
    {
        let d = &defaults[k];
        match d.sig_date_delta {
            Some(w) => {
                proof {
                    lemma_first_some_at(defaults@, fd, k as int);
                }
                return Some(w);
            },
            None => {},
        }
        k = k + 1;
    }
    proof {
        lemma_first_some_none(defaults@, fd);
    }
    None
}

/// The suppression mode for a person: the first of the person's own tier rows
/// that sets one; unset behaves as `OnlyOnce`.
pub open spec fn spec_resolved_mode(tiers: Seq<Tier>, pid: i64) -> Option<ReminderMode> {
    spec_first_some(
        tiers,
        |t: Tier|
            if t.ppl_id == pid {
                t.sig_remind_enum
            } else {
                None
            },
    )
}

pub fn resolve_mode(tiers: &Vec<Tier>, pid: i64) -> (r: Option<ReminderMode>)
    ensures
        r == spec_resolved_mode(tiers@, pid),
{
    let ghost fm = |t: Tier|
        if t.ppl_id == pid {
            t.sig_remind_enum
        } else {
            None
        };
    let mut i: usize = 0;
    while i < tiers.len()
        invariant
            0 <= i <= tiers@.len(),
            forall|j: int| 0 <= j < i ==> (#[trigger] fm(tiers@[j])) is None,
            fm == (|t: Tier|
                if t.ppl_id == pid {
                    t.sig_remind_enum
                } else {
                    None
                }),
        decreases tiers@.len() - i,
    {
        let t = &tiers[i];
        if t.ppl_id == pid {
            match t.sig_remind_enum {
                Some(m) => {
                    proof {
                        lemma_first_some_at(tiers@, fm, i as int);
                    }
                    return Some(m);
                },
                None => {},
            }
        }
        i = i + 1;
    }
    proof {
        lemma_first_some_none(tiers@, fm);
    }
    None
}

/// The presentation symbol for a person: the first of the person's own tier
/// rows that sets one, else the first catalog row that sets one.
pub open spec fn spec_resolved_tier_symbol(
    tiers: Seq<Tier>,
    defaults: Seq<TierDefaults>,
    pid: i64,
) -> Option<String> {
    match spec_first_some(
        tiers,
        |t: Tier|
            if t.ppl_id == pid {
                t.symbol
            } else {
                None
            },
    ) {
        Some(s) => Some(s),
        None => spec_first_some(defaults, |d: TierDefaults| d.symbol),
    }
}

pub fn resolve_person_tier_symbol(tiers: &Vec<Tier>, defaults: &Vec<TierDefaults>, pid: i64) -> (r:
    Option<String>)
    ensures
        r == spec_resolved_tier_symbol(tiers@, defaults@, pid),
{
    let ghost fs = |t: Tier|
        if t.ppl_id == pid {
            t.symbol
        } else {
            None
        };
    let mut i: usize = 0;
    while i < tiers.len()
        invariant
            0 <= i <= tiers@.len(),
            forall|j: int| 0 <= j < i ==> (#[trigger] fs(tiers@[j])) is None,
            fs == (|t: Tier|
                if t.ppl_id == pid {
                    t.symbol
                } else {
                    None
                }),
        decreases tiers@.len() - i,
    {
        let t = &tiers[i];
        if t.ppl_id == pid {
            match &t.symbol {
                Some(s) => {
                    proof {
                        lemma_first_some_at(tiers@, fs, i as int);
                    }
                    return Some(s.clone());
                },
                None => {},
            }
        }
        i = i + 1;
    }
    proof {
        lemma_first_some_none(tiers@, fs);
    }
    let ghost fd = |d: TierDefaults| d.symbol;
    let mut k: usize = 0;
    while k < defaults.len()
        invariant
            0 <= k <= defaults@.len(),
            forall|j: int| 0 <= j < k ==> (#[trigger] fd(defaults@[j])) is None,
            fd == (|d: TierDefaults| d.symbol),
            spec_first_some(
                tiers@,
                |t: Tier|
                    if t.ppl_id == pid {
                        t.symbol
                    } else {
                        None
                    },
            ) is None,
        decreases defaults@.len() - k,
    {
        match &defaults[k].symbol {
            Some(s) => {
                proof {
                    lemma_first_some_at(defaults@, fd, k as int);
                }
                return Some(s.clone());
            },
            None => {},
        }
        k = k + 1;
    }
    proof {
        lemma_first_some_none(defaults@, fd);
    }
    None
}

/// The presentation color for a person, resolved as the symbol is.
pub open spec fn spec_resolved_tier_color(
    tiers: Seq<Tier>,
    defaults: Seq<TierDefaults>,
    pid: i64,
) -> Option<String> {
    match spec_first_some(
        tiers,
        |t: Tier|
            if t.ppl_id == pid {
                t.color
            } else {
                None
            },
    ) {
        Some(s) => Some(s),
        None => spec_first_some(defaults, |d: TierDefaults| d.color),
    }
}

pub fn resolve_person_tier_color(tiers: &Vec<Tier>, defaults: &Vec<TierDefaults>, pid: i64) -> (r:
    Option<String>)
    ensures
        r == spec_resolved_tier_color(tiers@, defaults@, pid),
{
    let ghost fs = |t: Tier|
        if t.ppl_id == pid {
            t.color
        } else {
            None
        };
    let mut i: usize = 0;
    while i < tiers.len()
        invariant
            0 <= i <= tiers@.len(),
            forall|j: int| 0 <= j < i ==> (#[trigger] fs(tiers@[j])) is None,
            fs == (|t: Tier|
                if t.ppl_id == pid {
                    t.color
                } else {
                    None
                }),
        decreases tiers@.len() - i,
    {
        let t = &tiers[i];
        if t.ppl_id == pid {
            match &t.color {
                Some(s) => {
                    proof {
                        lemma_first_some_at(tiers@, fs, i as int);
                    }
                    return Some(s.clone());
                },
                None => {},
            }
        }
        i = i + 1;
    }
    proof {
        lemma_first_some_none(tiers@, fs);
    }
    let ghost fd = |d: TierDefaults| d.color;
    let mut k: usize = 0;
    while k < defaults.len()
        invariant
            0 <= k <= defaults@.len(),
            forall|j: int| 0 <= j < k ==> (#[trigger] fd(defaults@[j])) is None,
            fd == (|d: TierDefaults| d.color),
            spec_first_some(
                tiers@,
                |t: Tier|
                    if t.ppl_id == pid {
                        t.color
                    } else {
                        None
                    },
            ) is None,
        decreases defaults@.len() - k,
    {
        match &defaults[k].color {
            Some(s) => {
                proof {
                    lemma_first_some_at(defaults@, fd, k as int);
                }
                return Some(s.clone());
            },
            None => {},
        }
        k = k + 1;
    }
    proof {
        lemma_first_some_none(defaults@, fd);
    }
    None
}

/// A person is suppressed for the run exactly when the effective mode is
/// `OnlyOnce` (set or unset) and the stored last-reminded day is not earlier
/// than today.
pub open spec fn spec_suppressed(mode: Option<ReminderMode>, last: Option<Date>, today: Date)
    -> bool {
    (match mode {
        None => true,
        Some(m) => m == ReminderMode::OnlyOnce,
    }) && (match last {
        None => false,
        Some(d) => !spec_date_before(d, today),
    })
}

pub fn suppressed(mode: Option<ReminderMode>, last: Option<Date>, today: Date) -> (r: bool)
    ensures
        r == spec_suppressed(mode, last, today),
{
    let mode_ok = match mode {
        None => true,
        Some(m) => match m {
            ReminderMode::OnlyOnce => true,
            _ => false,
        },
    };
    let last_ok = match last {
        None => false,
        Some(d) => !date_before(d, today),
    };
    mode_ok && last_ok
}

/// Whether a stored date is due: first this year's anniversary is held against
/// the window; only when that anniversary is already past is next year's tried.
/// The result carries the days until the anniversary and the years elapsed.
pub open spec fn spec_due(d: Date, today: Date, window: int) -> Option<(int, int)> {
    let a = spec_anniversary_on(d, today.year as int);
    let delta = spec_day_number(a) - spec_day_number(today);
    if 0 <= delta <= window {
        Some((delta, today.year - d.year))
    } else if delta < 0 && today.year < 9999 {
        let a2 = spec_anniversary_on(d, today.year as int + 1);
        let delta2 = spec_day_number(a2) - spec_day_number(today);
        if 0 <= delta2 <= window {
            Some((delta2, today.year + 1 - d.year))
        } else {
            None
        }
    } else {
        None
    }
}

pub fn due_check(d: Date, today: Date, window: u32) -> (r: Option<(u32, i32)>)
    requires
        d.valid(),
        today.valid(),
    ensures
        r is Some <==> spec_due(d, today, window as int) is Some,
        r matches Some(v) ==> spec_due(d, today, window as int) == Some(
            (v.0 as int, v.1 as int),
        ),
{
    let a = anniversary_on(d, today.year);
    let delta = day_number(a) - day_number(today);
    if 0 <= delta && delta <= window as i64 {
        Some((delta as u32, today.year - d.year))
    } else if delta < 0 && today.year < 9999 {
        let a2 = anniversary_on(d, today.year + 1);
        let delta2 = day_number(a2) - day_number(today);
        if 0 <= delta2 && delta2 <= window as i64 {
            Some((delta2 as u32, today.year + 1 - d.year))
        } else {
            None
        }
    } else {
        None
    }
}

fn clone_opt_string(o: &Option<String>) -> (r: Option<String>)
    ensures
        r == *o,
{
    match o {
        None => None,
        Some(s) => Some(s.clone()),
    }
}

/// The name a person shows under: the nickname when one is set.
pub open spec fn spec_display_name(p: Ppl) -> String {
    match p.nick {
        Some(n) => n,
        None => p.name,
    }
}

/// The icon for an event name: the first date-flagged catalog row that
/// carries it.
pub open spec fn spec_icon_for(cat: Seq<TraitDefaults>, event: String) -> Option<String> {
    match spec_trait_first_match(cat, event@, TraitCatalogFilter::DateFlagged) {
        None => None,
        Some(i) => Some(cat[i].symbol),
    }
}

/// The digest line for one due date of one person.
pub open spec fn spec_line_for(
    p: Ppl,
    d: SigDate,
    today: Date,
    window: int,
    tsym: Option<String>,
    tcol: Option<String>,
    cat: Seq<TraitDefaults>,
) -> ReminderLine {
    let due = spec_due(d.date, today, window)->0;
    ReminderLine {
        ppl_id: p.id,
        display_name: spec_display_name(p),
        event: d.event,
        days_until: due.0 as u32,
        years: due.1 as i32,
        icon: spec_icon_for(cat, d.event),
        tier_symbol: tsym,
        tier_color: tcol,
    }
}

/// The lines one person contributes: one for each of the person's own
/// reminder-enabled dates that is due, in stored order.
pub open spec fn spec_person_lines(
    p: Ppl,
    dates: Seq<SigDate>,
    today: Date,
    window: int,
    tsym: Option<String>,
    tcol: Option<String>,
    cat: Seq<TraitDefaults>,
) -> Seq<ReminderLine>
    decreases dates.len(),
{
    if dates.len() == 0 {
        Seq::empty()
    } else {
        let rest = spec_person_lines(p, dates.drop_last(), today, window, tsym, tcol, cat);
        let d = dates.last();
        if d.ppl_id == p.id && d.do_remind && spec_due(d.date, today, window) is Some {
            rest.push(spec_line_for(p, d, today, window, tsym, tcol, cat))
        } else {
            rest
        }
    }
}

/// What one person contributes to a run: the due lines, and whether the
/// last-reminded bookkeeping is to be stamped with today.
pub open spec fn spec_person_digest(
    p: Ppl,
    dates: Seq<SigDate>,
    tiers: Seq<Tier>,
    tier_defaults: Seq<TierDefaults>,
    trait_cat: Seq<TraitDefaults>,
    today: Date,
) -> (Seq<ReminderLine>, bool) {
    match spec_resolved_window(tiers, tier_defaults, p.id) {
        None => (Seq::empty(), false),
        Some(w) => {
            let mode = spec_resolved_mode(tiers, p.id);
            if spec_suppressed(mode, p.last_reminded, today) {
                (Seq::empty(), false)
            } else {
                let tsym = spec_resolved_tier_symbol(tiers, tier_defaults, p.id);
                let tcol = spec_resolved_tier_color(tiers, tier_defaults, p.id);
                let lines = spec_person_lines(p, dates, today, w as int, tsym, tcol, trait_cat);
                let stamp = lines.len() > 0 && (mode is None || mode == Some(
                    ReminderMode::OnlyOnce,
                ));
                (lines, stamp)
            }
        },
    }
}

/// The reminder lines for one person, with the stamp decision.
pub fn person_reminders(
    p: &Ppl,
    dates: &Vec<SigDate>,
    tiers: &Vec<Tier>,
    tier_defaults: &Vec<TierDefaults>,
    trait_cat: &Vec<TraitDefaults>,
    today: Date,
) -> (r: (Vec<ReminderLine>, bool))
    requires
        today.valid(),
        forall|i: int| 0 <= i < dates@.len() ==> (#[trigger] dates@[i]).date.valid(),
    ensures
        (r.0@, r.1) == spec_person_digest(*p, dates@, tiers@, tier_defaults@, trait_cat@, today),
{
    let window = match resolve_window(tiers, tier_defaults, p.id) {
        None => {
            return (Vec::new(), false);
        },
        Some(w) => w,
    };
    let mode = resolve_mode(tiers, p.id);
    if suppressed(mode, p.last_reminded, today) {
        return (Vec::new(), false);
    }
    let tsym = resolve_person_tier_symbol(tiers, tier_defaults, p.id);
    let tcol = resolve_person_tier_color(tiers, tier_defaults, p.id);
    let mut lines: Vec<ReminderLine> = Vec::new();
    let mut i: usize = 0;
    while i < dates.len()
        invariant
            0 <= i <= dates@.len(),
            today.valid(),
            forall|k: int| 0 <= k < dates@.len() ==> (#[trigger] dates@[k]).date.valid(),
            lines@ =~= spec_person_lines(
                *p,
                dates@.subrange(0, i as int),
                today,
                window as int,
                tsym,
                tcol,
                trait_cat@,
            ),
        decreases dates@.len() - i,
    {
        let d = &dates[i];
        if d.ppl_id == p.id && d.do_remind {
            match due_check(d.date, today, window) {
                Some(v) => {
                    let name = match &p.nick {
                        Some(n) => n.clone(),
                        None => p.name.clone(),
                    };
                    lines.push(
                        ReminderLine {
                            ppl_id: p.id,
                            display_name: name,
                            event: d.event.clone(),
                            days_until: v.0,
                            years: v.1,
                            icon: resolve_trait_symbol(
                                trait_cat,
                                &d.event,
                                TraitCatalogFilter::DateFlagged,
                            ),
                            tier_symbol: clone_opt_string(&tsym),
                            tier_color: clone_opt_string(&tcol),
                        },
                    );
                },
                None => {},
            }
        }
        i = i + 1;
        proof {
            assert(dates@.subrange(0, i as int).drop_last() =~= dates@.subrange(0, i - 1));
            assert(dates@.subrange(0, i as int).last() == dates@[i - 1]);
        }
    }
    proof {
        assert(dates@.subrange(0, dates@.len() as int) =~= dates@);
    }
    let stamp = lines.len() > 0 && (match mode {
        None => true,
        Some(m) => match m {
            ReminderMode::OnlyOnce => true,
            _ => false,
        },
    });
    (lines, stamp)
}

/// Two lines say the same thing.
pub open spec fn spec_same_key(a: ReminderLine, b: ReminderLine) -> bool {
    a.ppl_id == b.ppl_id && a.event@ == b.event@ && a.days_until == b.days_until && a.years
        == b.years
}

pub open spec fn spec_has_matching(s: Seq<ReminderLine>, x: ReminderLine) -> bool {
    exists|j: int| 0 <= j < s.len() && spec_same_key(s[j], x)
}

/// The sequence with every repeated line dropped, keeping first occurrences.
pub open spec fn spec_dedup(s: Seq<ReminderLine>) -> Seq<ReminderLine>
    decreases s.len(),
{
    if s.len() == 0 {
        Seq::empty()
    } else {
        let rest = spec_dedup(s.drop_last());
        if spec_has_matching(s.drop_last(), s.last()) {
            rest
        } else {
            rest.push(s.last())
        }
    }
}

/// Pushing a line adds exactly its own key to what the list says.
proof fn lemma_has_matching_push(s: Seq<ReminderLine>, e: ReminderLine, x: ReminderLine)
    ensures
        spec_has_matching(s.push(e), x) == (spec_has_matching(s, x) || spec_same_key(e, x)),
{
    if spec_has_matching(s, x) {
        let j = choose|j: int| 0 <= j < s.len() && spec_same_key(s[j], x);
        assert(spec_same_key(s.push(e)[j], x));
    }
    if spec_same_key(e, x) {
        assert(spec_same_key(s.push(e)[s.len() as int], x));
    }
    if spec_has_matching(s.push(e), x) {
        let j = choose|j: int| 0 <= j < s.push(e).len() && spec_same_key(s.push(e)[j], x);
        if j < s.len() {
            assert(spec_same_key(s[j], x));
        }
    }
}

/// What the deduplication keeps: no two kept lines say the same thing, every
/// kept line stood in the input, and every input line is still said by some
/// kept line.
pub proof fn lemma_dedup_ensures(s: Seq<ReminderLine>)
    ensures
        forall|i: int, j: int|
            0 <= i < j < spec_dedup(s).len() ==> !spec_same_key(
                spec_dedup(s)[i],
                spec_dedup(s)[j],
            ),
        forall|x: ReminderLine|
            #[trigger] spec_has_matching(spec_dedup(s), x) == spec_has_matching(s, x),
        forall|i: int| 0 <= i < spec_dedup(s).len() ==> s.contains(#[trigger] spec_dedup(s)[i]),
    decreases s.len(),
{
    if s.len() > 0 {
        let pre = s.drop_last();
        let last = s.last();
        lemma_dedup_ensures(pre);
        let rest = spec_dedup(pre);
        assert(s =~= pre.push(last));
        assert forall|i: int| 0 <= i < rest.len() implies s.contains(#[trigger] rest[i]) by {
            assert(pre.contains(rest[i]));
            let w = choose|k: int| 0 <= k < pre.len() && pre[k] == rest[i];
            assert(s[w] == rest[i]);
        }
        assert forall|x: ReminderLine|
            #[trigger] spec_has_matching(spec_dedup(s), x) == spec_has_matching(s, x) by {
            lemma_has_matching_push(pre, last, x);
            if !spec_has_matching(pre, last) {
                lemma_has_matching_push(rest, last, x);
            }
            if spec_same_key(last, x) && spec_has_matching(pre, last) {
                let u = choose|k: int| 0 <= k < pre.len() && spec_same_key(pre[k], last);
                assert(spec_same_key(pre[u], x));
            }
        }
        if !spec_has_matching(pre, last) {
            assert forall|i: int, j: int|
                0 <= i < j < spec_dedup(s).len() implies !spec_same_key(
                spec_dedup(s)[i],
                spec_dedup(s)[j],
            ) by {
                if j == spec_dedup(s).len() - 1 {
                    assert(pre.contains(rest[i]));
                    if spec_same_key(rest[i], last) {
                        let w = choose|k: int| 0 <= k < pre.len() && pre[k] == rest[i];
                        assert(spec_same_key(pre[w], last));
                    }
                }
            }
        }
    }
}

fn same_key(a: &ReminderLine, b: &ReminderLine) -> (r: bool)
    ensures
        r == spec_same_key(*a, *b),
{
    a.ppl_id == b.ppl_id && a.event.eq(&b.event) && a.days_until == b.days_until && a.years
        == b.years
}

fn has_matching(s: &Vec<ReminderLine>, x: &ReminderLine) -> (r: bool)
    ensures
        r == spec_has_matching(s@, *x),
{
    let mut i: usize = 0;
    while i < s.len()
        invariant
            0 <= i <= s@.len(),
            forall|j: int| 0 <= j < i ==> !spec_same_key(s@[j], *x),
        decreases s@.len() - i,
    {
        if same_key(&s[i], x) {
            return true;
        }
        i = i + 1;
    }
    false
}

/// Drops every line that repeats an earlier line.
fn dedup_lines(v: Vec<ReminderLine>) -> (r: Vec<ReminderLine>)
    ensures
        r@ == spec_dedup(v@),
{
    let ghost orig = v@;
    let mut rest = v;
    let mut out: Vec<ReminderLine> = Vec::new();
    let ghost mut i: int = 0;
    while rest.len() > 0
        invariant
            0 <= i <= orig.len(),
            rest@ == orig.subrange(i as int, orig.len() as int),
            out@ == spec_dedup(orig.subrange(0, i as int)),
            forall|x: ReminderLine|
                #[trigger] spec_has_matching(out@, x) == spec_has_matching(
                    orig.subrange(0, i as int),
                    x,
                ),
        decreases rest@.len(),
    {
        proof {
            assert(rest@.len() == orig.len() - i);
        }
        let ghost pre = orig.subrange(0, i as int);
        let ghost out_before = out@;
        let x = rest.remove(0);
        proof {
            assert(x == orig[i as int]);
            assert(rest@ =~= orig.subrange(i + 1, orig.len() as int));
        }
        let keep = !has_matching(&out, &x);
        if keep {
            out.push(x);
        }
        proof {
            i = i + 1;
            let cur = orig.subrange(0, i as int);
            assert(cur.drop_last() =~= pre);
            assert(cur =~= pre.push(orig[i - 1]));
            assert(cur.last() == orig[i - 1]);
            assert(out@ =~= spec_dedup(cur));
            assert forall|y: ReminderLine|
                #[trigger] spec_has_matching(out@, y) == spec_has_matching(cur, y) by {
                lemma_has_matching_push(pre, cur.last(), y);
                if keep {
                    lemma_has_matching_push(out_before, cur.last(), y);
                } else if spec_same_key(cur.last(), y) {
                    let u = choose|k: int| 0 <= k < pre.len() && spec_same_key(pre[k], cur.last());
                    assert(spec_same_key(pre[u], y));
                }
            }
        }
    }
    proof {
        assert(orig.subrange(0, orig.len() as int) =~= orig);
    }
    out
}

pub open spec fn spec_sorted_by_days(s: Seq<ReminderLine>) -> bool {
    forall|i: int, j: int| 0 <= i < j < s.len() ==> s[i].days_until <= s[j].days_until
}

proof fn lemma_insert_multiset<A>(s: Seq<A>, k: int, x: A)
    requires
        0 <= k <= s.len(),
    ensures
        s.insert(k, x).to_multiset() =~= s.to_multiset().insert(x),
{
    broadcast use vstd::seq_lib::group_to_multiset_ensures;

    let left = s.subrange(0, k);
    let right = s.subrange(k, s.len() as int);
    assert(s.insert(k, x) =~= left.push(x) + right);
    vstd::seq_lib::lemma_multiset_commutative(left.push(x), right);
    assert(left.push(x).to_multiset() =~= left.to_multiset().insert(x));
    assert(s =~= left + right);
    vstd::seq_lib::lemma_multiset_commutative(left, right);
}

fn insert_by_days(v: &mut Vec<ReminderLine>, x: ReminderLine)
    requires
        spec_sorted_by_days(old(v)@),
    ensures
        spec_sorted_by_days(final(v)@),
        final(v)@.to_multiset() == old(v)@.to_multiset().insert(x),
{
    let mut k: usize = 0;
    while k < v.len() && v[k].days_until <= x.days_until
        invariant
            0 <= k <= v@.len(),
            forall|j: int| 0 <= j < k ==> v@[j].days_until <= x.days_until,
            spec_sorted_by_days(v@),
            v == old(v),
        decreases v@.len() - k,
    {
        k = k + 1;
    }
    let ghost before = v@;
    v.insert(k, x);
    proof {
        lemma_insert_multiset(before, k as int, x);
        assert forall|i: int, j: int|
            0 <= i < j < v@.len() implies v@[i].days_until <= v@[j].days_until by {
            if j < k {
            } else if i < k && j == k {
            } else if i == k {
                assert(v@[j] == before[j - 1]);
                assert(before[k as int].days_until > x.days_until);
            } else if i < k {
                assert(v@[j] == before[j - 1]);
            } else {
                assert(v@[i] == before[i - 1] && v@[j] == before[j - 1]);
            }
        }
    }
}

/// Orders the lines by how soon they are due, keeping every line.
fn sort_by_days(v: Vec<ReminderLine>) -> (r: Vec<ReminderLine>)
    ensures
        spec_sorted_by_days(r@),
        r@.to_multiset() == v@.to_multiset(),
{
    broadcast use vstd::seq_lib::group_to_multiset_ensures;

    let ghost orig = v@;
    let mut rest = v;
    let mut out: Vec<ReminderLine> = Vec::new();
    while rest.len() > 0
        invariant
            spec_sorted_by_days(out@),
            out@.to_multiset().add(rest@.to_multiset()) =~= orig.to_multiset(),
        decreases rest@.len(),
    {
        let ghost before = rest@;
        let ghost out_b = out@;
        let x = rest.remove(0);
        insert_by_days(&mut out, x);
        proof {
            broadcast use vstd::multiset::group_multiset_axioms;

            vstd::seq_lib::to_multiset_remove(before, 0);
            assert(before.contains(before[0]));
            vstd::seq_lib::to_multiset_contains(before, x);
            assert(before.to_multiset().count(x) > 0);
            assert(out@.to_multiset() =~= out_b.to_multiset().insert(x));
            assert(rest@.to_multiset() =~= before.to_multiset().remove(x));
            assert(out@.to_multiset().add(rest@.to_multiset()) =~= orig.to_multiset());
        }
    }
    proof {
        assert(rest@ =~= Seq::<ReminderLine>::empty());
        assert(rest@.to_multiset() =~= Multiset::<ReminderLine>::empty());
        assert(out@.to_multiset() =~= orig.to_multiset());
    }
    out
}

/// Every line the whole table of persons contributes, in person order.
pub open spec fn spec_all_lines(
    ppl: Seq<Ppl>,
    dates: Seq<SigDate>,
    tiers: Seq<Tier>,
    tier_defaults: Seq<TierDefaults>,
    trait_cat: Seq<TraitDefaults>,
    today: Date,
) -> Seq<ReminderLine>
    decreases ppl.len(),
{
    if ppl.len() == 0 {
        Seq::empty()
    } else {
        spec_all_lines(ppl.drop_last(), dates, tiers, tier_defaults, trait_cat, today)
            + spec_person_digest(ppl.last(), dates, tiers, tier_defaults, trait_cat, today).0
    }
}

/// The persons whose bookkeeping a run stamps, in person order.
pub open spec fn spec_all_stamps(
    ppl: Seq<Ppl>,
    dates: Seq<SigDate>,
    tiers: Seq<Tier>,
    tier_defaults: Seq<TierDefaults>,
    trait_cat: Seq<TraitDefaults>,
    today: Date,
) -> Seq<i64>
    decreases ppl.len(),
{
    if ppl.len() == 0 {
        Seq::empty()
    } else {
        let rest = spec_all_stamps(ppl.drop_last(), dates, tiers, tier_defaults, trait_cat, today);
        if spec_person_digest(ppl.last(), dates, tiers, tier_defaults, trait_cat, today).1 {
            rest.push(ppl.last().id)
        } else {
            rest
        }
    }
}

/// The whole digest: every person's due lines, repeated lines dropped, ordered
/// by how soon they are due; and the persons to stamp as reminded today.
pub fn digest(
    ppl: &Vec<Ppl>,
    dates: &Vec<SigDate>,
    tiers: &Vec<Tier>,
    tier_defaults: &Vec<TierDefaults>,
    trait_cat: &Vec<TraitDefaults>,
    today: Date,
) -> (r: (Vec<ReminderLine>, Vec<i64>))
    requires
        today.valid(),
        forall|i: int| 0 <= i < dates@.len() ==> (#[trigger] dates@[i]).date.valid(),
    ensures
        spec_sorted_by_days(r.0@),
        r.0@.to_multiset() == spec_dedup(
            spec_all_lines(ppl@, dates@, tiers@, tier_defaults@, trait_cat@, today),
        ).to_multiset(),
        r.1@ == spec_all_stamps(ppl@, dates@, tiers@, tier_defaults@, trait_cat@, today),
{
    let mut lines: Vec<ReminderLine> = Vec::new();
    let mut stamps: Vec<i64> = Vec::new();
    let mut i: usize = 0;
    while i < ppl.len()
        invariant
            0 <= i <= ppl@.len(),
            today.valid(),
            forall|k: int| 0 <= k < dates@.len() ==> (#[trigger] dates@[k]).date.valid(),
            lines@ =~= spec_all_lines(
                ppl@.subrange(0, i as int),
                dates@,
                tiers@,
                tier_defaults@,
                trait_cat@,
                today,
            ),
            stamps@ =~= spec_all_stamps(
                ppl@.subrange(0, i as int),
                dates@,
                tiers@,
                tier_defaults@,
                trait_cat@,
                today,
            ),
        decreases ppl@.len() - i,
    {
        let p = &ppl[i];
        let (mut pl, stamp) = person_reminders(p, dates, tiers, tier_defaults, trait_cat, today);
        lines.append(&mut pl);
        if stamp {
            stamps.push(p.id);
        }
        i = i + 1;
        proof {
            assert(ppl@.subrange(0, i as int).drop_last() =~= ppl@.subrange(0, i - 1));
            assert(ppl@.subrange(0, i as int).last() == ppl@[i - 1]);
        }
    }
    proof {
        assert(ppl@.subrange(0, ppl@.len() as int) =~= ppl@);
    }
    let deduped = dedup_lines(lines);
    let sorted = sort_by_days(deduped);
    (sorted, stamps)
}

/// One cell mark of the twelve-month calendar: a stored date normalized to
/// the current year.
#[derive(Clone, Copy, Debug, PartialEq, Eq, Structural)]
pub struct CalMark {
    pub month: u8,
    pub day: u8,
    pub is_today: bool,
    pub remind: bool,
}

/// The mark a stored date leaves on this year's calendar: its anniversary's
/// cell, flagged when it is today, and flagged for reminding when the date
/// asks for reminders and has not passed yet this year.
pub open spec fn spec_cal_mark(d: SigDate, today: Date) -> CalMark {
    let a = spec_anniversary_on(d.date, today.year as int);
    CalMark {
        month: a.month,
        day: a.day,
        is_today: a == today,
        remind: d.do_remind && !spec_date_before(a, today),
    }
}

/// Projects every stored date onto the current year's calendar.
pub fn calendar_marks(dates: &Vec<SigDate>, today: Date) -> (r: Vec<CalMark>)
    requires
        today.valid(),
        forall|i: int| 0 <= i < dates@.len() ==> (#[trigger] dates@[i]).date.valid(),
    ensures
        r@ == dates@.map_values(|d: SigDate| spec_cal_mark(d, today)),
{
    let mut out: Vec<CalMark> = Vec::new();
    let mut i: usize = 0;
    while i < dates.len()
        invariant
            0 <= i <= dates@.len(),
            today.valid(),
            forall|k: int| 0 <= k < dates@.len() ==> (#[trigger] dates@[k]).date.valid(),
            out@ =~= dates@.subrange(0, i as int).map_values(
                |d: SigDate| spec_cal_mark(d, today),
            ),
        decreases dates@.len() - i,
    {
        let d = &dates[i];
        let a = anniversary_on(d.date, today.year);
        out.push(
            CalMark {
                month: a.month,
                day: a.day,
                is_today: a.year == today.year && a.month == today.month && a.day == today.day,
                remind: d.do_remind && !date_before(a, today),
            },
        );
        i = i + 1;
        proof {
            assert(dates@.subrange(0, i as int) =~= dates@.subrange(0, i - 1).push(dates@[i - 1]));
        }
    }
    proof {
        assert(dates@.subrange(0, dates@.len() as int) =~= dates@);
    }
    out
}

} // verus!
