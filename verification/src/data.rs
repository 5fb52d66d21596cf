//! Building and editing the stored record rows.

use vstd::prelude::*;
use crate::dates::Date;
use crate::records::{Contact, Ppl, Relation, ReminderMode, SigDate, Tier, TierDefaults,
    TraitDefaults, Traits};
use crate::editable::{Editable, spec_truthy, spec_date_from_opt_text, bool_from_string,
    option_date_from_option_string};

verus! {

/// Operations that build and edit contact rows.
pub struct ContactOps {}

/// Operations that build and edit person rows.
pub struct PplOps {}

/// Operations that build and edit relation rows.
pub struct RelationOps {}

/// Operations that build and edit significant-date rows.
pub struct SigDateOps {}

/// Operations that build and edit tier rows.
pub struct TierOps {}

/// Operations that build and edit trait rows.
pub struct TraitOps {}

/// Operations that build tier-catalog rows.
pub struct TierDefaultOps {}

/// Operations that build trait-catalog rows.
pub struct TraitDefaultOps {}

impl ContactOps {
    /// A fresh contact row; the acquisition date is stamped with today.
    pub fn create(id: i64, ppl_id: i64, typ: String, designator: String, value: String, today: Date)
        -> (r: Contact)
        ensures
            r == (Contact {
                id,
                ppl_id,
                typ,
                designator: Some(designator),
                value,
                date_acq: Some(today),
            }),
    {
        Contact { id, ppl_id, typ, designator: Some(designator), value, date_acq: Some(today) }
    }

    /// The contact with its fields replaced; a given acquisition-date text is
    /// taken only when it reads as a date.
    pub open spec fn spec_update(
        c: Contact,
        typ: String,
        designator: Option<String>,
        value: String,
        date_acq: Option<String>,
    ) -> Contact {
        Contact {
            id: c.id,
            ppl_id: c.ppl_id,
            typ,
            designator,
            value,
            date_acq: match date_acq {
                None => c.date_acq,
                Some(_) => spec_date_from_opt_text(date_acq),
            },
        }
    }

    pub fn update(
        c: &Contact,
        typ: String,
        designator: Option<String>,
        value: String,
        date_acq: Option<String>,
    ) -> (r: Contact)
        ensures
            r == Self::spec_update(*c, typ, designator, value, date_acq),
    {
        let new_acq = match &date_acq {
            None => {
                match &c.date_acq {
                    None => None,
                    Some(d) => Some(*d),
                }
            },
            Some(_) => option_date_from_option_string(date_acq),
        };
        Contact { id: c.id, ppl_id: c.ppl_id, typ, designator, value, date_acq: new_acq }
    }

    /// Applies an edited projection: first is the type, second the designator,
    /// third the value.
    pub fn updatee(c: &Contact, e: &Editable) -> (r: Contact)
        ensures
            r.id == c.id && r.ppl_id == c.ppl_id && r.typ == e.first && r.designator == e.second
                && r.date_acq == c.date_acq,
            match e.third {
                None => r.value@ == Seq::<char>::empty(),
                Some(v) => r.value == v,
            },
    {
        let third = match &e.third {
            None => String::new(),
            Some(v) => v.clone(),
        };
        let second = match &e.second {
            None => None,
            Some(v) => Some(v.clone()),
        };
        Self::update(c, e.first.clone(), second, third, None)
    }
}

impl PplOps {
    /// The one self-person of an installation.
    pub fn create_me(id: i64, name: String) -> (r: Ppl)
        ensures
            r == (Ppl { id, name, nick: None, me: true, last_reminded: None }),
    {
        Ppl { id, name, nick: None, me: true, last_reminded: None }
    }

    /// A fresh ordinary person row.
    pub fn create(id: i64, name: String) -> (r: Ppl)
        ensures
            r == (Ppl { id, name, nick: None, me: false, last_reminded: None }),
    {
        Ppl { id, name, nick: None, me: false, last_reminded: None }
    }

    /// The person with the name replaced when one is given.
    pub open spec fn spec_update(p: Ppl, name: Option<String>) -> Ppl {
        Ppl {
            name: match name {
                None => p.name,
                Some(n) => n,
            },
            ..p
        }
    }

    pub fn update(p: &Ppl, name: Option<String>) -> (r: Ppl)
        ensures
            r == Self::spec_update(*p, name),
    {
        let new_name = match name {
            None => p.name.clone(),
            Some(n) => n,
        };
        let nick = match &p.nick {
            None => None,
            Some(n) => Some(n.clone()),
        };
        Ppl { id: p.id, name: new_name, nick, me: p.me, last_reminded: p.last_reminded }
    }
}

impl RelationOps {
    pub fn create(
        id: i64,
        a: i64,
        b: i64,
        typ: String,
        superseded: bool,
        entered: Option<Date>,
        ended: Option<Date>,
    ) -> (r: Relation)
        ensures
            r == (Relation {
                id,
                ppl_id_a: a,
                ppl_id_b: b,
                typ,
                date_entered: entered,
                date_ended: ended,
                superseded,
            }),
    {
        Relation {
            id,
            ppl_id_a: a,
            ppl_id_b: b,
            typ,
            date_entered: entered,
            date_ended: ended,
            superseded,
        }
    }

    /// The relation with the given fields replaced; optional fields are kept
    /// where no replacement is given.
    pub open spec fn spec_update(
        rel: Relation,
        a: Option<i64>,
        b: Option<i64>,
        typ: String,
        superseded: Option<bool>,
        entered: Option<Date>,
        ended: Option<Date>,
    ) -> Relation {
        Relation {
            id: rel.id,
            ppl_id_a: match a {
                None => rel.ppl_id_a,
                Some(v) => v,
            },
            ppl_id_b: match b {
                None => rel.ppl_id_b,
                Some(v) => v,
            },
            typ,
            superseded: match superseded {
                None => rel.superseded,
                Some(v) => v,
            },
            date_entered: match entered {
                None => rel.date_entered,
                Some(v) => Some(v),
            },
            date_ended: match ended {
                None => rel.date_ended,
                Some(v) => Some(v),
            },
        }
    }

    pub fn update(
        rel: &Relation,
        a: Option<i64>,
        b: Option<i64>,
        typ: String,
        superseded: Option<bool>,
        entered: Option<Date>,
        ended: Option<Date>,
    ) -> (r: Relation)
        ensures
            r == Self::spec_update(*rel, a, b, typ, superseded, entered, ended),
    {
        Relation {
            id: rel.id,
            ppl_id_a: match a {
                None => rel.ppl_id_a,
                Some(v) => v,
            },
            ppl_id_b: match b {
                None => rel.ppl_id_b,
                Some(v) => v,
            },
            typ,
            superseded: match superseded {
                None => rel.superseded,
                Some(v) => v,
            },
            date_entered: match entered {
                None => rel.date_entered,
                Some(v) => Some(v),
            },
            date_ended: match ended {
                None => rel.date_ended,
                Some(v) => Some(v),
            },
        }
    }

    /// Applies an edited projection: first is the type, second and third the
    /// entered and ended dates; a date text that does not read as a date
    /// leaves the stored date unchanged.
    pub fn updatee(rel: &Relation, e: &Editable) -> (r: Relation)
        ensures
            r == Self::spec_update(
                *rel,
                None,
                None,
                e.first,
                None,
                spec_date_from_opt_text(e.second),
                spec_date_from_opt_text(e.third),
            ),
    {
        let second = match &e.second {
            None => None,
            Some(v) => Some(v.clone()),
        };
        let third = match &e.third {
            None => None,
            Some(v) => Some(v.clone()),
        };
        Self::update(
            rel,
            None,
            None,
            e.first.clone(),
            None,
            option_date_from_option_string(second),
            option_date_from_option_string(third),
        )
    }
}

impl SigDateOps {
    pub fn create(id: i64, ppl_id: i64, date: Date, event: String, do_remind: bool) -> (r: SigDate)
        ensures
            r == (SigDate { id, ppl_id, date, event, do_remind, with_ppl: None }),
    {
        SigDate { id, ppl_id, date, event, do_remind, with_ppl: None }
    }

    /// The date row with event, date and reminder flag replaced; with no
    /// replacement date the stored date stays as it is.
    pub open spec fn spec_update(s: SigDate, event: String, date: Option<Date>, do_remind: bool)
        -> SigDate {
        SigDate {
            id: s.id,
            ppl_id: s.ppl_id,
            event,
            date: match date {
                None => s.date,
                Some(d) => d,
            },
            do_remind,
            with_ppl: s.with_ppl,
        }
    }

    pub fn update(s: &SigDate, event: String, date: Option<Date>, do_remind: bool) -> (r: SigDate)
        ensures
            r == Self::spec_update(*s, event, date, do_remind),
    {
        let with_ppl = match &s.with_ppl {
            None => None,
            Some(w) => Some(w.clone()),
        };
        SigDate {
            id: s.id,
            ppl_id: s.ppl_id,
            event,
            date: match date {
                None => s.date,
                Some(d) => d,
            },
            do_remind,
            with_ppl,
        }
    }

    /// Applies an edited projection: first is the event, second the date text,
    /// third the reminder flag; a date text that does not read as a date is a
    /// validation error and leaves the stored date unchanged.
    pub fn updatee(s: &SigDate, e: &Editable) -> (r: SigDate)
        ensures
            r == Self::spec_update(
                *s,
                e.first,
                spec_date_from_opt_text(e.second),
                e.third is Some && spec_truthy(e.third->0@),
            ),
    {
        let second = match &e.second {
            None => None,
            Some(v) => Some(v.clone()),
        };
        let third = match &e.third {
            None => None,
            Some(v) => Some(v.clone()),
        };
        Self::update(
            s,
            e.first.clone(),
            option_date_from_option_string(second),
            bool_from_string(third),
        )
    }
}

impl TierOps {
    pub fn create(id: i64, ppl_id: i64, tier: String, sig_date_delta: Option<u32>) -> (r: Tier)
        ensures
            r == (Tier {
                id,
                ppl_id,
                name: tier,
                color: None,
                symbol: None,
                sig_date_delta,
                sig_remind_enum: None,
            }),
    {
        Tier { id, ppl_id, name: tier, color: None, symbol: None, sig_date_delta, sig_remind_enum: None }
    }

    /// The tier row with name, color and symbol replaced.
    pub open spec fn spec_update(
        t: Tier,
        name: String,
        color: Option<String>,
        symbol: Option<String>,
    ) -> Tier {
        Tier { name, color, symbol, ..t }
    }

    pub fn update(t: &Tier, name: String, color: Option<String>, symbol: Option<String>) -> (r:
        Tier)
        ensures
            r == Self::spec_update(*t, name, color, symbol),
    {
        Tier {
            id: t.id,
            ppl_id: t.ppl_id,
            name,
            color,
            symbol,
            sig_date_delta: t.sig_date_delta,
            sig_remind_enum: t.sig_remind_enum,
        }
    }

    /// Applies an edited projection: first is the name, second the color,
    /// third the symbol.
    pub fn updatee(t: &Tier, e: &Editable) -> (r: Tier)
        ensures
            r == Self::spec_update(*t, e.first, e.second, e.third),
    {
        let second = match &e.second {
            None => None,
            Some(v) => Some(v.clone()),
        };
        let third = match &e.third {
            None => None,
            Some(v) => Some(v.clone()),
        };
        Self::update(t, e.first.clone(), second, third)
    }
}

impl TraitOps {
    pub fn create(id: i64, ppl_id: i64, key: String, value: String, hidden: bool) -> (r: Traits)
        ensures
            r == (Traits { id, ppl_id, key, value, hidden }),
    {
        Traits { id, ppl_id, key, value, hidden }
    }

    /// The trait row with key and value replaced where given, and the hidden
    /// flag replaced always.
    pub open spec fn spec_update(
        t: Traits,
        key: Option<String>,
        value: Option<String>,
        hidden: bool,
    ) -> Traits {
        Traits {
            id: t.id,
            ppl_id: t.ppl_id,
            key: match key {
                None => t.key,
                Some(k) => k,
            },
            value: match value {
                None => t.value,
                Some(v) => v,
            },
            hidden,
        }
    }

    pub fn update(t: &Traits, key: Option<String>, value: Option<String>, hidden: bool) -> (r:
        Traits)
        ensures
            r == Self::spec_update(*t, key, value, hidden),
    {
        Traits {
            id: t.id,
            ppl_id: t.ppl_id,
            key: match key {
                None => t.key.clone(),
                Some(k) => k,
            },
            value: match value {
                None => t.value.clone(),
                Some(v) => v,
            },
            hidden,
        }
    }

    /// Applies an edited projection: first is the key, second the value,
    /// third the hidden flag.
    pub fn updatee(t: &Traits, e: &Editable) -> (r: Traits)
        ensures
            r == Self::spec_update(
                *t,
                Some(e.first),
                e.second,
                e.third is Some && spec_truthy(e.third->0@),
            ),
    {
        let second = match &e.second {
            None => None,
            Some(v) => Some(v.clone()),
        };
        let third = match &e.third {
            None => None,
            Some(v) => Some(v.clone()),
        };
        Self::update(t, Some(e.first.clone()), second, bool_from_string(third))
    }
}

/// Editing a trait row through its projection is exact: whatever texts stand
/// in the projection's three fields when it is written back, the stored row
/// keeps its ids and carries exactly those texts, with the hidden flag read
/// back from its text form.
pub proof fn lemma_trait_edit_round_trip(t: Traits, e: Editable)
    requires
        e.second is Some,
        e.third is Some,
    ensures
        ({
            let u = TraitOps::spec_update(t, Some(e.first), e.second, spec_truthy(e.third->0@));
            u.id == t.id && u.ppl_id == t.ppl_id && u.key == e.first && Some(u.value) == e.second
                && u.hidden == spec_truthy(e.third->0@)
        }),
{
}

impl TierDefaultOps {
    pub fn create(
        id: i64,
        key: String,
        default: bool,
        enabled: bool,
        color: String,
        symbol: String,
        sig_date_delta: Option<u32>,
    ) -> (r: TierDefaults)
        ensures
            r == (TierDefaults {
                id,
                key,
                default,
                enabled,
                color: Some(color),
                symbol: Some(symbol),
                sig_date_delta,
                sig_remind_enum: None,
            }),
    {
        TierDefaults {
            id,
            key,
            default,
            enabled,
            color: Some(color),
            symbol: Some(symbol),
            sig_date_delta,
            sig_remind_enum: None,
        }
    }
}

impl TraitDefaultOps {
    pub fn create(
        id: i64,
        key: String,
        color: String,
        symbol: String,
        default: bool,
        enabled: bool,
        is_date: bool,
        is_contact: bool,
    ) -> (r: TraitDefaults)
        ensures
            r == (TraitDefaults { id, key, default, enabled, is_date, is_contact, color, symbol }),
    {
        TraitDefaults { id, key, default, enabled, is_date, is_contact, color, symbol }
    }
}

} // verus!
