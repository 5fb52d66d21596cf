//! The stored record rows, with every field a plain value. The record store
//! stamps each row's insertion and last-update times as it writes; those
//! clocks are the store's own bookkeeping and are not modeled on these types.

use vstd::prelude::*;
use crate::dates::Date;

verus! {

/// How often a person may appear in the reminder digest. Only `OnlyOnce` is
/// given a distinct behaviour today; the other modes are accepted as stored
/// values and always permit showing.
#[derive(Clone, Copy, Debug, PartialEq, Eq, Structural)]
pub enum ReminderMode {
    OnlyOnce,
    OnceHourly,
    Randomly(u32),
    Always,
    Never,
}

/// A person. Exactly one person of an installation has `me` set; the
/// `last_reminded` bookkeeping is the one piece of scheduler state kept here.
#[derive(Clone, Debug, PartialEq)]
pub struct Ppl {
    pub id: i64,
    pub name: String,
    pub nick: Option<String>,
    pub me: bool,
    pub last_reminded: Option<Date>,
}

/// A way to reach a person: a phone number, an email address, a street address.
#[derive(Clone, Debug, PartialEq)]
pub struct Contact {
    pub id: i64,
    pub ppl_id: i64,
    pub typ: String,
    pub designator: Option<String>,
    pub value: String,
    pub date_acq: Option<Date>,
}

/// An annually recurring date attached to a person.
#[derive(Clone, Debug, PartialEq)]
pub struct SigDate {
    pub id: i64,
    pub ppl_id: i64,
    pub date: Date,
    pub event: String,
    pub do_remind: bool,
    pub with_ppl: Option<String>,
}

/// A free-form key/value attribute of a person.
#[derive(Clone, Debug, PartialEq)]
pub struct Traits {
    pub id: i64,
    pub ppl_id: i64,
    pub key: String,
    pub value: String,
    pub hidden: bool,
}

/// A person's membership in a relationship circle, with optional per-person
/// overrides of the circle's presentation and reminder behaviour.
#[derive(Clone, Debug, PartialEq)]
pub struct Tier {
    pub id: i64,
    pub ppl_id: i64,
    pub name: String,
    pub color: Option<String>,
    pub symbol: Option<String>,
    pub sig_date_delta: Option<u32>,
    pub sig_remind_enum: Option<ReminderMode>,
}

/// A directed edge between two persons.
#[derive(Clone, Debug, PartialEq)]
pub struct Relation {
    pub id: i64,
    pub ppl_id_a: i64,
    pub ppl_id_b: i64,
    pub typ: String,
    pub date_entered: Option<Date>,
    pub date_ended: Option<Date>,
    pub superseded: bool,
}

/// A catalog row naming a known tier and its default presentation and
/// reminder policy.
#[derive(Clone, Debug, PartialEq)]
pub struct TierDefaults {
    pub id: i64,
    pub key: String,
    pub default: bool,
    pub enabled: bool,
    pub color: Option<String>,
    pub symbol: Option<String>,
    pub sig_date_delta: Option<u32>,
    pub sig_remind_enum: Option<ReminderMode>,
}

/// A catalog row describing how a trait key is labeled and iconified, and
/// whether it denotes a date or a contact method.
#[derive(Clone, Debug, PartialEq)]
pub struct TraitDefaults {
    pub id: i64,
    pub key: String,
    pub default: bool,
    pub enabled: bool,
    pub is_date: bool,
    pub is_contact: bool,
    pub color: String,
    pub symbol: String,
}

} // verus!
