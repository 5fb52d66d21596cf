//! The uniform edit projection over the five record kinds.

use vstd::prelude::*;
use crate::dates::Date;
use crate::records::{Contact, Ppl, Relation, SigDate, Tier, Traits};
use crate::text::{spec_lower, spec_parse_iso, parse_iso_date, format_iso_date, spec_iso_of, eq_ignore_case};

verus! {

/// The record kind an `Editable` projects.
#[derive(Clone, Copy, Debug, PartialEq, Eq, Structural)]
pub enum Editablez {
    Trait,
    Tier,
    Contact,
    Relation,
    SigDate,
}

/// A uniform projection of any record kind into at most three text fields,
/// letting one edit-mode code path drive the same inputs for every kind.
#[derive(Clone, Debug, PartialEq)]
pub struct Editable {
    pub tgt: Editablez,
    pub id: i64,
    pub first: String,
    pub second: Option<String>,
    pub third: Option<String>,
}

/// How many of the three text fields the kind uses.
pub open spec fn spec_field_count(z: Editablez) -> int {
    match z {
        Editablez::Trait => 2,
        _ => 3,
    }
}

pub fn field_count(z: Editablez) -> (r: u8)
    ensures
        r as int == spec_field_count(z),
{
    match z {
        Editablez::Trait => 2,
        _ => 3,
    }
}

/// The input slot a focus cursor lands on for the given kind.
pub fn focus_slot(z: Editablez, cursor: u8) -> (r: u8)
    ensures
        r as int == cursor as int % spec_field_count(z),
{
    cursor % field_count(z)
}

/// The text a stored flag shows as.
pub open spec fn spec_bool_text(b: bool) -> Seq<char> {
    if b {
        "true"@
    } else {
        "false"@
    }
}

pub fn bool_text(b: bool) -> (r: String)
    ensures
        r@ == spec_bool_text(b),
{
    if b {
        String::from_str("true")
    } else {
        String::from_str("false")
    }
}

/// The words accepted as an affirmative answer, compared without regard to
/// ASCII case.
pub open spec fn spec_truthy(s: Seq<char>) -> bool {
    spec_lower(s) == "true"@ || spec_lower(s) == "yes"@ || spec_lower(s) == "t"@ || spec_lower(s)
        == "y"@
}

/// Reads a stored flag back from its text; anything but an affirmative word,
/// a missing value included, is false.
pub fn bool_from_string(input: Option<String>) -> (r: bool)
    ensures
        r == (input is Some && spec_truthy(input->0@)),
{
    match input {
        None => false,
        Some(s) => {
            proof {
                reveal_strlit("true");
                reveal_strlit("yes");
                reveal_strlit("t");
                reveal_strlit("y");
                assert(spec_lower("true"@) =~= "true"@);
                assert(spec_lower("yes"@) =~= "yes"@);
                assert(spec_lower("t"@) =~= "t"@);
                assert(spec_lower("y"@) =~= "y"@);
            }
            let st = s.as_str();
            eq_ignore_case(st, "true") || eq_ignore_case(st, "yes") || eq_ignore_case(st, "t")
                || eq_ignore_case(st, "y")
        },
    }
}

/// Reads a date field back from its optional text, strict `YYYY-MM-DD`.
pub open spec fn spec_date_from_opt_text(input: Option<String>) -> Option<Date> {
    match input {
        None => None,
        Some(s) => spec_parse_iso(s@),
    }
}

pub fn option_date_from_option_string(input: Option<String>) -> (r: Option<Date>)
    ensures
        r == spec_date_from_opt_text(input),
{
    match input {
        None => None,
        Some(s) => parse_iso_date(s.as_str()),
    }
}

/// The `Editable` the given trait row projects to.
pub open spec fn spec_editable_matches_trait(e: Editable, t: Traits) -> bool {
    e.tgt == Editablez::Trait && e.id == t.id && e.first == t.key && e.second == Some(t.value) && (
    e.third matches Some(h) && h@ == spec_bool_text(t.hidden))
}

pub open spec fn spec_editable_matches_tier(e: Editable, t: Tier) -> bool {
    e.tgt == Editablez::Tier && e.id == t.id && e.first == t.name && e.second == t.color
        && e.third == t.symbol
}

pub open spec fn spec_editable_matches_relation(e: Editable, t: Relation) -> bool {
    e.tgt == Editablez::Relation && e.id == t.id && e.first == t.typ && (match t.date_entered {
        None => e.second is None,
        Some(d) => e.second matches Some(s) && s@ == spec_iso_of(d),
    }) && (match t.date_ended {
        None => e.third is None,
        Some(d) => e.third matches Some(s) && s@ == spec_iso_of(d),
    })
}

pub open spec fn spec_editable_matches_sig_date(e: Editable, t: SigDate) -> bool {
    e.tgt == Editablez::SigDate && e.id == t.id && e.first == t.event && (e.second matches Some(s)
        && s@ == spec_iso_of(t.date)) && (e.third matches Some(h) && h@ == spec_bool_text(
        t.do_remind,
    ))
}

pub open spec fn spec_editable_matches_contact(e: Editable, t: Contact) -> bool {
    e.tgt == Editablez::Contact && e.id == t.id && e.first == t.typ && (match t.designator {
        None => e.second matches Some(s) && s@ == Seq::<char>::empty(),
        Some(ds) => e.second == Some(ds),
    }) && e.third == Some(t.value)
}

impl Editable {
    pub fn of_trait(t: &Traits) -> (e: Editable)
        ensures
            spec_editable_matches_trait(e, *t),
    {
        Editable {
            tgt: Editablez::Trait,
            id: t.id,
            first: t.key.clone(),
            second: Some(t.value.clone()),
            third: Some(bool_text(t.hidden)),
        }
    }

    pub fn of_tier(t: &Tier) -> (e: Editable)
        ensures
            spec_editable_matches_tier(e, *t),
    {
        Editable {
            tgt: Editablez::Tier,
            id: t.id,
            first: t.name.clone(),
            second: match &t.color {
                None => None,
                Some(c) => Some(c.clone()),
            },
            third: match &t.symbol {
                None => None,
                Some(s) => Some(s.clone()),
            },
        }
    }

    pub fn of_relation(t: &Relation) -> (e: Editable)
        requires
            t.date_entered is Some ==> t.date_entered->0.valid(),
            t.date_ended is Some ==> t.date_ended->0.valid(),
        ensures
            spec_editable_matches_relation(e, *t),
    {
        Editable {
            tgt: Editablez::Relation,
            id: t.id,
            first: t.typ.clone(),
            second: match t.date_entered {
                None => None,
                Some(d) => Some(format_iso_date(d)),
            },
            third: match t.date_ended {
                None => None,
                Some(d) => Some(format_iso_date(d)),
            },
        }
    }

    pub fn of_sig_date(t: &SigDate) -> (e: Editable)
        requires
            t.date.valid(),
        ensures
            spec_editable_matches_sig_date(e, *t),
    {
        Editable {
            tgt: Editablez::SigDate,
            id: t.id,
            first: t.event.clone(),
            second: Some(format_iso_date(t.date)),
            third: Some(bool_text(t.do_remind)),
        }
    }

    pub fn of_contact(t: &Contact) -> (e: Editable)
        ensures
            spec_editable_matches_contact(e, *t),
    {
        Editable {
            tgt: Editablez::Contact,
            id: t.id,
            first: t.typ.clone(),
            second: match &t.designator {
                None => Some(String::new()),
                Some(ds) => Some(ds.clone()),
            },
            third: Some(t.value.clone()),
        }
    }
}

} // verus!
