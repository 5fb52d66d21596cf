//! The record-browsing session: tab navigation, per-person aggregation
//! into editables, category visibility, and the inline edit mode.

use vstd::prelude::*;
use crate::records::{Contact, Ppl, Relation, SigDate, Tier, TierDefaults, TraitDefaults, Traits};
use crate::editable::{Editable, Editablez, spec_editable_matches_trait, spec_editable_matches_tier,
    spec_editable_matches_relation, spec_editable_matches_sig_date, spec_editable_matches_contact,
    spec_field_count, focus_slot};
use crate::text::{spec_parse_iso, parse_iso_date};
use crate::wizard::{spec_cursor_next, spec_cursor_prev, cursor_next, cursor_prev};

verus! {

/// The browser's top-level tabs.
#[derive(Clone, Copy, Debug, PartialEq, Eq, Structural)]
pub enum Tabs {
    Ppl,
    Calendar,
    TierSettings,
    TraitSettings,
}

/// The next tab to the right, wrapping around.
pub open spec fn spec_next_tab(t: Tabs) -> Tabs {
    match t {
        Tabs::Ppl => Tabs::Calendar,
        Tabs::Calendar => Tabs::TierSettings,
        Tabs::TierSettings => Tabs::TraitSettings,
        Tabs::TraitSettings => Tabs::Ppl,
    }
}

/// One of the five record categories the person pane can show or hide.
#[derive(Clone, Copy, Debug, PartialEq, Eq, Structural)]
pub enum Category {
    Traits,
    Tiers,
    Relations,
    Dates,
    Contacts,
}

/// The whole browsing session: the loaded records, the tab, the person and
/// detail selections, the category visibility toggles, and the edit-mode
/// flags.
pub struct Tui {
    pub current_tab: Tabs,
    pub show_traits: bool,
    pub show_tiers: bool,
    pub show_rels: bool,
    pub show_dates: bool,
    pub show_contacts: bool,
    pub sigdate_list: Vec<SigDate>,
    pub trait_list: Vec<Traits>,
    pub tier_list: Vec<Tier>,
    pub rel_list: Vec<Relation>,
    pub contact_list: Vec<Contact>,
    pub ppl_list: Vec<Ppl>,
    pub ppl_cursor: Option<usize>,
    pub ppl_editing: bool,
    pub ppl_field_editing: bool,
    pub ppl_field_idx: u8,
    pub edit_error: String,
    pub ppl_editables: Vec<Editable>,
    pub ppl_detail_cursor: Option<usize>,
    pub def_tier_list: Vec<TierDefaults>,
    pub def_tier_cursor: Option<usize>,
    pub def_trait_list: Vec<TraitDefaults>,
    pub def_trait_cursor: Option<usize>,
}

/// The aggregation of one person's records into editables: traits, tiers,
/// incoming relations, dates, contacts, each kind's rows in stored order, a
/// hidden category contributing nothing.
pub open spec fn spec_aggregation_ok(
    e: Seq<Editable>,
    pid: i64,
    show: (bool, bool, bool, bool, bool),
    traits: Seq<Traits>,
    tiers: Seq<Tier>,
    rels: Seq<Relation>,
    dates: Seq<SigDate>,
    contacts: Seq<Contact>,
) -> bool {
    let ft = if show.0 {
        traits.filter(|x: Traits| x.ppl_id == pid)
    } else {
        Seq::empty()
    };
    let fi = if show.1 {
        tiers.filter(|x: Tier| x.ppl_id == pid)
    } else {
        Seq::empty()
    };
    let fr = if show.2 {
        rels.filter(|x: Relation| x.ppl_id_b == pid)
    } else {
        Seq::empty()
    };
    let fd = if show.3 {
        dates.filter(|x: SigDate| x.ppl_id == pid)
    } else {
        Seq::empty()
    };
    let fc = if show.4 {
        contacts.filter(|x: Contact| x.ppl_id == pid)
    } else {
        Seq::empty()
    };
    e.len() == ft.len() + fi.len() + fr.len() + fd.len() + fc.len() && (forall|i: int|
        0 <= i < ft.len() ==> spec_editable_matches_trait(e[i], ft[i])) && (forall|i: int|
        0 <= i < fi.len() ==> spec_editable_matches_tier(e[ft.len() + i], fi[i])) && (forall|i: int|
        0 <= i < fr.len() ==> spec_editable_matches_relation(e[ft.len() + fi.len() + i], fr[i])) && (
    forall|i: int|
        0 <= i < fd.len() ==> spec_editable_matches_sig_date(
            e[ft.len() + fi.len() + fr.len() + i],
            fd[i],
        )) && (forall|i: int|
        0 <= i < fc.len() ==> spec_editable_matches_contact(
            e[ft.len() + fi.len() + fr.len() + fd.len() + i],
            fc[i],
        ))
}

impl Tui {
    /// Stored dates are actual calendar days, and every cursor stays inside
    /// its list.
    pub open spec fn wf(self) -> bool {
        (forall|i: int|
            0 <= i < self.sigdate_list@.len() ==> (#[trigger] self.sigdate_list@[i]).date.valid())
            && (forall|i: int|
            0 <= i < self.rel_list@.len() ==> ((#[trigger] self.rel_list@[i]).date_entered is Some
                ==> self.rel_list@[i].date_entered->0.valid()) && (self.rel_list@[i].date_ended
                is Some ==> self.rel_list@[i].date_ended->0.valid())) && (self.ppl_cursor is Some
            ==> self.ppl_cursor->0 < self.ppl_list@.len()) && (self.ppl_detail_cursor is Some
            ==> self.ppl_detail_cursor->0 < self.ppl_editables@.len()) && (self.def_tier_cursor
            is Some ==> self.def_tier_cursor->0 < self.def_tier_list@.len()) && (
        self.def_trait_cursor is Some ==> self.def_trait_cursor->0 < self.def_trait_list@.len())
    }

    /// The shown editables are the aggregation of the selected person's
    /// records; with no selection nothing is shown.
    pub open spec fn editables_ok(self) -> bool {
        match self.ppl_cursor {
            None => self.ppl_editables@.len() == 0,
            Some(i) => spec_aggregation_ok(
                self.ppl_editables@,
                self.ppl_list@[i as int].id,
                (self.show_traits, self.show_tiers, self.show_rels, self.show_dates,
                self.show_contacts),
                self.trait_list@,
                self.tier_list@,
                self.rel_list@,
                self.sigdate_list@,
                self.contact_list@,
            ),
        }
    }
}

impl Default for Tui {
    /// An empty session on the person tab.
    fn default() -> (r: Tui)
        ensures
            r.wf(),
            r.editables_ok(),
            r.current_tab == Tabs::Ppl,
            r.ppl_list@.len() == 0 && r.trait_list@.len() == 0 && r.tier_list@.len() == 0
                && r.rel_list@.len() == 0 && r.contact_list@.len() == 0 && r.sigdate_list@.len()
                == 0 && r.def_tier_list@.len() == 0 && r.def_trait_list@.len() == 0,
            !r.ppl_editing && !r.ppl_field_editing && r.ppl_field_idx == 0,
            r.edit_error@ == Seq::<char>::empty(),
            r.show_traits && r.show_tiers && r.show_rels && r.show_dates && r.show_contacts,
            r.ppl_cursor is None && r.ppl_detail_cursor is None && r.def_tier_cursor is None
                && r.def_trait_cursor is None,
    {
        Tui {
            current_tab: Tabs::Ppl,
            show_traits: true,
            show_tiers: true,
            show_rels: true,
            show_dates: true,
            show_contacts: true,
            sigdate_list: Vec::new(),
            trait_list: Vec::new(),
            tier_list: Vec::new(),
            rel_list: Vec::new(),
            contact_list: Vec::new(),
            ppl_list: Vec::new(),
            ppl_cursor: None,
            ppl_editing: false,
            ppl_field_editing: false,
            ppl_field_idx: 0,
            edit_error: String::new(),
            ppl_editables: Vec::new(),
            ppl_detail_cursor: None,
            def_tier_list: Vec::new(),
            def_tier_cursor: None,
            def_trait_list: Vec::new(),
            def_trait_cursor: None,
        }
    }
}

fn trait_editables(pid: i64, ts: &Vec<Traits>) -> (r: Vec<Editable>)
    ensures
        ({
            let f = ts@.filter(|x: Traits| x.ppl_id == pid);
            r@.len() == f.len() && forall|i: int|
                0 <= i < f.len() ==> spec_editable_matches_trait(r@[i], f[i])
        }),
{
    let ghost pred = |x: Traits| x.ppl_id == pid;
    let mut r: Vec<Editable> = Vec::new();
    let mut i: usize = 0;
    while i < ts.len()
        invariant
            0 <= i <= ts@.len(),
            ({
                let f = ts@.subrange(0, i as int).filter(pred);
                r@.len() == f.len() && forall|j: int|
                    0 <= j < f.len() ==> spec_editable_matches_trait(r@[j], f[j])
            }),
            pred == (|x: Traits| x.ppl_id == pid),
        decreases ts@.len() - i,
    {
        if ts[i].ppl_id == pid {
            r.push(Editable::of_trait(&ts[i]));
        }
        i = i + 1;
        proof {
            reveal(Seq::filter);
            assert(ts@.subrange(0, i as int).drop_last() =~= ts@.subrange(0, i - 1));
            assert(ts@.subrange(0, i as int).last() == ts@[i - 1]);
        }
    }
    proof {
        assert(ts@.subrange(0, ts@.len() as int) =~= ts@);
    }
    r
}

fn tier_editables(pid: i64, ts: &Vec<Tier>) -> (r: Vec<Editable>)
    ensures
        ({
            let f = ts@.filter(|x: Tier| x.ppl_id == pid);
            r@.len() == f.len() && forall|i: int|
                0 <= i < f.len() ==> spec_editable_matches_tier(r@[i], f[i])
        }),
{
    let ghost pred = |x: Tier| x.ppl_id == pid;
    let mut r: Vec<Editable> = Vec::new();
    let mut i: usize = 0;
    while i < ts.len()
        invariant
            0 <= i <= ts@.len(),
            ({
                let f = ts@.subrange(0, i as int).filter(pred);
                r@.len() == f.len() && forall|j: int|
                    0 <= j < f.len() ==> spec_editable_matches_tier(r@[j], f[j])
            }),
            pred == (|x: Tier| x.ppl_id == pid),
        decreases ts@.len() - i,
    {
        if ts[i].ppl_id == pid {
            r.push(Editable::of_tier(&ts[i]));
        }
        i = i + 1;
        proof {
            reveal(Seq::filter);
            assert(ts@.subrange(0, i as int).drop_last() =~= ts@.subrange(0, i - 1));
            assert(ts@.subrange(0, i as int).last() == ts@[i - 1]);
        }
    }
    proof {
        assert(ts@.subrange(0, ts@.len() as int) =~= ts@);
    }
    r
}

fn relation_editables(pid: i64, ts: &Vec<Relation>) -> (r: Vec<Editable>)
    requires
        forall|i: int|
            0 <= i < ts@.len() ==> ((#[trigger] ts@[i]).date_entered is Some
                ==> ts@[i].date_entered->0.valid()) && (ts@[i].date_ended is Some
                ==> ts@[i].date_ended->0.valid()),
    ensures
        ({
            let f = ts@.filter(|x: Relation| x.ppl_id_b == pid);
            r@.len() == f.len() && forall|i: int|
                0 <= i < f.len() ==> spec_editable_matches_relation(r@[i], f[i])
        }),
{
    let ghost pred = |x: Relation| x.ppl_id_b == pid;
    let mut r: Vec<Editable> = Vec::new();
    let mut i: usize = 0;
    while i < ts.len()
        invariant
            0 <= i <= ts@.len(),
            forall|j: int|
                0 <= j < ts@.len() ==> ((#[trigger] ts@[j]).date_entered is Some
                    ==> ts@[j].date_entered->0.valid()) && (ts@[j].date_ended is Some
                    ==> ts@[j].date_ended->0.valid()),
            ({
                let f = ts@.subrange(0, i as int).filter(pred);
                r@.len() == f.len() && forall|j: int|
                    0 <= j < f.len() ==> spec_editable_matches_relation(r@[j], f[j])
            }),
            pred == (|x: Relation| x.ppl_id_b == pid),
        decreases ts@.len() - i,
    {
        if ts[i].ppl_id_b == pid {
            r.push(Editable::of_relation(&ts[i]));
        }
        i = i + 1;
        proof {
            reveal(Seq::filter);
            assert(ts@.subrange(0, i as int).drop_last() =~= ts@.subrange(0, i - 1));
            assert(ts@.subrange(0, i as int).last() == ts@[i - 1]);
        }
    }
    proof {
        assert(ts@.subrange(0, ts@.len() as int) =~= ts@);
    }
    r
}

fn sig_date_editables(pid: i64, ts: &Vec<SigDate>) -> (r: Vec<Editable>)
    requires
        forall|i: int| 0 <= i < ts@.len() ==> (#[trigger] ts@[i]).date.valid(),
    ensures
        ({
            let f = ts@.filter(|x: SigDate| x.ppl_id == pid);
            r@.len() == f.len() && forall|i: int|
                0 <= i < f.len() ==> spec_editable_matches_sig_date(r@[i], f[i])
        }),
{
    let ghost pred = |x: SigDate| x.ppl_id == pid;
    let mut r: Vec<Editable> = Vec::new();
    let mut i: usize = 0;
    while i < ts.len()
        invariant
            0 <= i <= ts@.len(),
            forall|j: int| 0 <= j < ts@.len() ==> (#[trigger] ts@[j]).date.valid(),
            ({
                let f = ts@.subrange(0, i as int).filter(pred);
                r@.len() == f.len() && forall|j: int|
                    0 <= j < f.len() ==> spec_editable_matches_sig_date(r@[j], f[j])
            }),
            pred == (|x: SigDate| x.ppl_id == pid),
        decreases ts@.len() - i,
    {
        if ts[i].ppl_id == pid {
            r.push(Editable::of_sig_date(&ts[i]));
        }
        i = i + 1;
        proof {
            reveal(Seq::filter);
            assert(ts@.subrange(0, i as int).drop_last() =~= ts@.subrange(0, i - 1));
            assert(ts@.subrange(0, i as int).last() == ts@[i - 1]);
        }
    }
    proof {
        assert(ts@.subrange(0, ts@.len() as int) =~= ts@);
    }
    r
}

fn contact_editables(pid: i64, ts: &Vec<Contact>) -> (r: Vec<Editable>)
    ensures
        ({
            let f = ts@.filter(|x: Contact| x.ppl_id == pid);
            r@.len() == f.len() && forall|i: int|
                0 <= i < f.len() ==> spec_editable_matches_contact(r@[i], f[i])
        }),
{
    let ghost pred = |x: Contact| x.ppl_id == pid;
    let mut r: Vec<Editable> = Vec::new();
    let mut i: usize = 0;
    while i < ts.len()
        invariant
            0 <= i <= ts@.len(),
            ({
                let f = ts@.subrange(0, i as int).filter(pred);
                r@.len() == f.len() && forall|j: int|
                    0 <= j < f.len() ==> spec_editable_matches_contact(r@[j], f[j])
            }),
            pred == (|x: Contact| x.ppl_id == pid),
        decreases ts@.len() - i,
    {
        if ts[i].ppl_id == pid {
            r.push(Editable::of_contact(&ts[i]));
        }
        i = i + 1;
        proof {
            reveal(Seq::filter);
            assert(ts@.subrange(0, i as int).drop_last() =~= ts@.subrange(0, i - 1));
            assert(ts@.subrange(0, i as int).last() == ts@[i - 1]);
        }
    }
    proof {
        assert(ts@.subrange(0, ts@.len() as int) =~= ts@);
    }
    r
}

/// Aggregates one person's records into the uniform editable projection:
/// the person's traits, tiers, incoming relations, dates, and contacts, with
/// hidden categories left out.
pub fn aggregate_editables(
    pid: i64,
    show: (bool, bool, bool, bool, bool),
    traits: &Vec<Traits>,
    tiers: &Vec<Tier>,
    rels: &Vec<Relation>,
    dates: &Vec<SigDate>,
    contacts: &Vec<Contact>,
) -> (r: Vec<Editable>)
    requires
        forall|i: int| 0 <= i < dates@.len() ==> (#[trigger] dates@[i]).date.valid(),
        forall|i: int|
            0 <= i < rels@.len() ==> ((#[trigger] rels@[i]).date_entered is Some
                ==> rels@[i].date_entered->0.valid()) && (rels@[i].date_ended is Some
                ==> rels@[i].date_ended->0.valid()),
    ensures
        spec_aggregation_ok(r@, pid, show, traits@, tiers@, rels@, dates@, contacts@),
{
    let mut r: Vec<Editable> = if show.0 {
        trait_editables(pid, traits)
    } else {
        Vec::new()
    };
    if show.1 {
        let mut b = tier_editables(pid, tiers);
        r.append(&mut b);
    }
    if show.2 {
        let mut c = relation_editables(pid, rels);
        r.append(&mut c);
    }
    if show.3 {
        let mut d = sig_date_editables(pid, dates);
        r.append(&mut d);
    }
    if show.4 {
        let mut e = contact_editables(pid, contacts);
        r.append(&mut e);
    }
    r
}

/// A cursor after its list was replaced: kept while still inside, else cleared.
pub open spec fn spec_clamp_cursor(cur: Option<usize>, len: int) -> Option<usize> {
    match cur {
        None => None,
        Some(i) => if i < len {
            Some(i)
        } else {
            None
        },
    }
}

fn clamp_cursor(cur: Option<usize>, len: usize) -> (r: Option<usize>)
    ensures
        r == spec_clamp_cursor(cur, len as int),
{
    match cur {
        None => None,
        Some(i) => if i < len {
            Some(i)
        } else {
            None
        },
    }
}

impl Tui {
    /// Replaces every loaded list, re-aggregates the selected person, and
    /// keeps each cursor only while it still points into its list.
    pub fn set_records(
        &mut self,
        ppl: Vec<Ppl>,
        def_traits: Vec<TraitDefaults>,
        def_tiers: Vec<TierDefaults>,
        tiers: Vec<Tier>,
        traits: Vec<Traits>,
        rels: Vec<Relation>,
        contacts: Vec<Contact>,
        sigdates: Vec<SigDate>,
    )
        requires
            old(self).wf(),
            forall|i: int| 0 <= i < sigdates@.len() ==> (#[trigger] sigdates@[i]).date.valid(),
            forall|i: int|
                0 <= i < rels@.len() ==> ((#[trigger] rels@[i]).date_entered is Some
                    ==> rels@[i].date_entered->0.valid()) && (rels@[i].date_ended is Some
                    ==> rels@[i].date_ended->0.valid()),
        ensures
            final(self).wf(),
            final(self).editables_ok(),
            final(self).ppl_list == ppl && final(self).def_trait_list == def_traits && final(self).def_tier_list == def_tiers && final(self).tier_list == tiers && final(self).trait_list == traits && final(self).rel_list == rels && final(self).contact_list
                == contacts && final(self).sigdate_list == sigdates,
            final(self).ppl_cursor == spec_clamp_cursor(old(self).ppl_cursor, ppl@.len() as int),
            final(self).ppl_detail_cursor == spec_clamp_cursor(
                old(self).ppl_detail_cursor,
                final(self).ppl_editables@.len() as int,
            ),
            final(self).def_tier_cursor == spec_clamp_cursor(
                old(self).def_tier_cursor,
                def_tiers@.len() as int,
            ),
            final(self).def_trait_cursor == spec_clamp_cursor(
                old(self).def_trait_cursor,
                def_traits@.len() as int,
            ),
            final(self).current_tab == old(self).current_tab && final(self).ppl_editing == old(self).ppl_editing && final(self).ppl_field_editing == old(self).ppl_field_editing && final(self).ppl_field_idx == old(self).ppl_field_idx,
            final(self).show_traits == old(self).show_traits && final(self).show_tiers == old(self).show_tiers && final(self).show_rels == old(self).show_rels && final(self).show_dates == old(self).show_dates && final(self).show_contacts == old(self).show_contacts,
            final(self).edit_error == old(self).edit_error,
    {
        self.ppl_list = ppl;
        self.def_trait_list = def_traits;
        self.def_tier_list = def_tiers;
        self.tier_list = tiers;
        self.trait_list = traits;
        self.rel_list = rels;
        self.contact_list = contacts;
        self.sigdate_list = sigdates;
        self.ppl_cursor = clamp_cursor(self.ppl_cursor, self.ppl_list.len());
        self.ppl_editables = match self.ppl_cursor {
            None => Vec::new(),
            Some(i) => aggregate_editables(
                self.ppl_list[i].id,
                (self.show_traits, self.show_tiers, self.show_rels, self.show_dates,
                self.show_contacts),
                &self.trait_list,
                &self.tier_list,
                &self.rel_list,
                &self.sigdate_list,
                &self.contact_list,
            ),
        };
        self.ppl_detail_cursor = clamp_cursor(self.ppl_detail_cursor, self.ppl_editables.len());
        self.def_tier_cursor = clamp_cursor(self.def_tier_cursor, self.def_tier_list.len());
        self.def_trait_cursor = clamp_cursor(self.def_trait_cursor, self.def_trait_list.len());
    }

    /// Rebuilds the editables for the selected person.
    fn refresh_editables(&mut self)
        requires
            old(self).wf(),
        ensures
            final(self).wf(),
            final(self).editables_ok(),
            final(self).ppl_detail_cursor is None,
            *final(self) == (Tui {
                ppl_editables: final(self).ppl_editables,
                ppl_detail_cursor: None,
                ..*old(self)
            }),
    {
        self.ppl_editables = match self.ppl_cursor {
            None => Vec::new(),
            Some(i) => aggregate_editables(
                self.ppl_list[i].id,
                (self.show_traits, self.show_tiers, self.show_rels, self.show_dates,
                self.show_contacts),
                &self.trait_list,
                &self.tier_list,
                &self.rel_list,
                &self.sigdate_list,
                &self.contact_list,
            ),
        };
        self.ppl_detail_cursor = None;
    }
}

/// Whether the date texts of an edited projection read as dates: a
/// significant date's second field must parse; a relation's second and third
/// fields must each be empty or parse; the other kinds carry no date field.
pub open spec fn spec_edit_dates_ok(kind: Editablez, b: String, c: String) -> bool {
    match kind {
        Editablez::SigDate => spec_parse_iso(b@) is Some,
        Editablez::Relation => (b@.len() == 0 || spec_parse_iso(b@) is Some) && (c@.len() == 0
            || spec_parse_iso(c@) is Some),
        _ => true,
    }
}

/// The message shown while an edited date text does not read as a date.
pub open spec fn spec_edit_error() -> Seq<char> {
    "does not read as a date"@
}

/// A keystroke as the browsing session sees it.
#[derive(Clone, Copy, Debug, PartialEq, Eq, Structural)]
pub enum TuiKey {
    Quit,
    Up,
    Down,
    NextFocus,
    EditToggle,
    Confirm,
    ToggleCategory(Category),
    Other,
}

/// The state with one category's visibility flipped.
pub open spec fn spec_toggled_category(pre: Tui, cat: Category) -> Tui {
    match cat {
        Category::Traits => Tui { show_traits: !pre.show_traits, ..pre },
        Category::Tiers => Tui { show_tiers: !pre.show_tiers, ..pre },
        Category::Relations => Tui { show_rels: !pre.show_rels, ..pre },
        Category::Dates => Tui { show_dates: !pre.show_dates, ..pre },
        Category::Contacts => Tui { show_contacts: !pre.show_contacts, ..pre },
    }
}

/// What the caller is to do after a keystroke was handled.
#[derive(Clone, Debug, PartialEq)]
pub enum TuiEffect {
    /// Leave the session.
    Quit,
    /// Nothing beyond the state change.
    Handled,
    /// Fill the three edit inputs with these texts.
    LoadInputs(String, String, String),
    /// Write this edited projection back through the record store, then
    /// reload the lists and hand them back with `set_records`.
    Persist(Editable),
    /// Hand the keystroke to the edit input with this index.
    RouteToInput(u8),
}

impl Tui {
    /// The session's whole key table: one call per keystroke, with the
    /// current texts of the three edit inputs.
    #[verifier::rlimit(60)]
    pub fn handle_key(&mut self, key: TuiKey, a: &String, b: &String, c: &String) -> (eff:
        TuiEffect)
        requires
            old(self).wf(),
            old(self).editables_ok(),
        ensures
            final(self).wf(),
            final(self).editables_ok(),
            match key {
                TuiKey::Quit => *final(self) == *old(self) && eff == TuiEffect::Quit,
                TuiKey::Up | TuiKey::Down => {
                    let dir_next = key == TuiKey::Down;
                    match old(self).current_tab {
                        Tabs::Ppl => if old(self).ppl_editing {
                            if old(self).ppl_field_editing {
                                *final(self) == *old(self) && eff == TuiEffect::Handled
                            } else {
                                *final(self) == (Tui {
                                    ppl_detail_cursor: spec_moved_cursor(
                                        dir_next,
                                        old(self).ppl_detail_cursor,
                                        old(self).ppl_editables@.len() as int,
                                    ),
                                    ..*old(self)
                                }) && eff == TuiEffect::Handled
                            }
                        } else {
                            final(self).ppl_cursor == spec_moved_cursor(
                                dir_next,
                                old(self).ppl_cursor,
                                old(self).ppl_list@.len() as int,
                            ) && final(self).ppl_detail_cursor is None && *final(self) == (Tui {
                                ppl_cursor: final(self).ppl_cursor,
                                ppl_editables: final(self).ppl_editables,
                                ppl_detail_cursor: None,
                                ..*old(self)
                            }) && eff == TuiEffect::Handled
                        },
                        Tabs::TierSettings => *final(self) == (Tui {
                            def_tier_cursor: spec_moved_cursor(
                                dir_next,
                                old(self).def_tier_cursor,
                                old(self).def_tier_list@.len() as int,
                            ),
                            ..*old(self)
                        }) && eff == TuiEffect::Handled,
                        Tabs::TraitSettings => *final(self) == (Tui {
                            def_trait_cursor: spec_moved_cursor(
                                dir_next,
                                old(self).def_trait_cursor,
                                old(self).def_trait_list@.len() as int,
                            ),
                            ..*old(self)
                        }) && eff == TuiEffect::Handled,
                        Tabs::Calendar => *final(self) == *old(self) && eff == TuiEffect::Handled,
                    }
                },
                TuiKey::NextFocus => if old(self).ppl_field_editing {
                    *final(self) == (Tui {
                        ppl_field_idx: ((old(self).ppl_field_idx + 1) % 6) as u8,
                        ..*old(self)
                    }) && eff == TuiEffect::Handled
                } else {
                    *final(self) == (Tui {
                        current_tab: spec_next_tab(old(self).current_tab),
                        ..*old(self)
                    }) && eff == TuiEffect::Handled
                },
                TuiKey::EditToggle => if old(self).current_tab == Tabs::Ppl {
                    if old(self).ppl_field_editing {
                        *final(self) == *old(self) && (if old(self).ppl_detail_cursor is Some {
                            spec_routes_to_input(*old(self), eff)
                        } else {
                            eff == TuiEffect::Handled
                        })
                    } else {
                        *final(self) == (Tui {
                            ppl_editing: !old(self).ppl_editing,
                            ..*old(self)
                        }) && eff == TuiEffect::Handled
                    }
                } else {
                    *final(self) == *old(self) && eff == TuiEffect::Handled
                },
                TuiKey::Confirm => if old(self).current_tab == Tabs::Ppl && old(self).ppl_editing
                    && old(self).ppl_detail_cursor is Some {
                    let e = old(self).ppl_editables@[old(self).ppl_detail_cursor->0 as int];
                    if !old(self).ppl_field_editing {
                        *final(self) == (Tui {
                            ppl_field_editing: true,
                            edit_error: final(self).edit_error,
                            ..*old(self)
                        }) && final(self).edit_error@ == Seq::<char>::empty() && (
                        eff matches TuiEffect::LoadInputs(x, y, z) && x == e.first && y@ == (
                        match e.second {
                            Some(v) => v@,
                            None => Seq::<char>::empty(),
                        }) && z@ == (match e.third {
                            Some(v) => v@,
                            None => Seq::<char>::empty(),
                        }))
                    } else if spec_edit_dates_ok(e.tgt, *b, *c) {
                        *final(self) == (Tui {
                            ppl_field_editing: false,
                            edit_error: final(self).edit_error,
                            ..*old(self)
                        }) && final(self).edit_error@ == Seq::<char>::empty() && eff
                            == TuiEffect::Persist(
                            Editable {
                                tgt: e.tgt,
                                id: e.id,
                                first: *a,
                                second: Some(*b),
                                third: Some(*c),
                            },
                        )
                    } else {
                        *final(self) == (Tui { edit_error: final(self).edit_error, ..*old(self) })
                            && final(self).edit_error@ == spec_edit_error() && eff
                            == TuiEffect::Handled
                    }
                } else {
                    *final(self) == *old(self) && eff == TuiEffect::Handled
                },
                TuiKey::ToggleCategory(cat) => if old(self).current_tab == Tabs::Ppl && !old(
                    self,
                ).ppl_field_editing {
                    final(self).ppl_detail_cursor is None && *final(self) == (Tui {
                        ppl_editables: final(self).ppl_editables,
                        ppl_detail_cursor: None,
                        ..spec_toggled_category(*old(self), cat)
                    }) && eff == TuiEffect::Handled
                } else if old(self).current_tab == Tabs::Ppl && old(self).ppl_editing && old(
                    self,
                ).ppl_detail_cursor is Some {
                    *final(self) == *old(self) && spec_routes_to_input(*old(self), eff)
                } else {
                    *final(self) == *old(self) && eff == TuiEffect::Handled
                },
                TuiKey::Other => *final(self) == *old(self) && (if old(self).current_tab
                    == Tabs::Ppl && old(self).ppl_editing && old(self).ppl_field_editing && old(self).ppl_detail_cursor is Some {
                    spec_routes_to_input(*old(self), eff)
                } else {
                    eff == TuiEffect::Handled
                }),
            },
    {
        match key {
            TuiKey::Quit => TuiEffect::Quit,
            TuiKey::Up | TuiKey::Down => {
                let dir_next = match key {
                    TuiKey::Down => true,
                    _ => false,
                };
                match self.current_tab {
                    Tabs::Ppl => {
                        if self.ppl_editing {
                            if !self.ppl_field_editing {
                                self.ppl_detail_cursor = move_cursor(
                                    dir_next,
                                    self.ppl_detail_cursor,
                                    self.ppl_editables.len(),
                                );
                            }
                        } else {
                            self.ppl_cursor = move_cursor(
                                dir_next,
                                self.ppl_cursor,
                                self.ppl_list.len(),
                            );
                            self.refresh_editables();
                        }
                    },
                    Tabs::TierSettings => {
                        self.def_tier_cursor = move_cursor(
                            dir_next,
                            self.def_tier_cursor,
                            self.def_tier_list.len(),
                        );
                    },
                    Tabs::TraitSettings => {
                        self.def_trait_cursor = move_cursor(
                            dir_next,
                            self.def_trait_cursor,
                            self.def_trait_list.len(),
                        );
                    },
                    Tabs::Calendar => {},
                }
                TuiEffect::Handled
            },
            TuiKey::NextFocus => {
                if self.ppl_field_editing {
                    self.ppl_field_idx = ((self.ppl_field_idx as u16 + 1) % 6) as u8;
                } else {
                    self.current_tab = match self.current_tab {
                        Tabs::Ppl => Tabs::Calendar,
                        Tabs::Calendar => Tabs::TierSettings,
                        Tabs::TierSettings => Tabs::TraitSettings,
                        Tabs::TraitSettings => Tabs::Ppl,
                    };
                }
                TuiEffect::Handled
            },
            TuiKey::EditToggle => {
                match self.current_tab {
                    Tabs::Ppl => {
                        if self.ppl_field_editing {
                            self.route_to_input()
                        } else {
                            self.ppl_editing = !self.ppl_editing;
                            TuiEffect::Handled
                        }
                    },
                    _ => TuiEffect::Handled,
                }
            },
            TuiKey::Confirm => {
                if (match self.current_tab {
                    Tabs::Ppl => true,
                    _ => false,
                }) && self.ppl_editing {
                    match self.ppl_detail_cursor {
                        Some(i) => {
                            if !self.ppl_field_editing {
                                self.ppl_field_editing = true;
                                self.edit_error = String::new();
                                let e = &self.ppl_editables[i];
                                let y = match &e.second {
                                    Some(v) => v.clone(),
                                    None => String::new(),
                                };
                                let z = match &e.third {
                                    Some(v) => v.clone(),
                                    None => String::new(),
                                };
                                TuiEffect::LoadInputs(e.first.clone(), y, z)
                            } else {
                                let kind = self.ppl_editables[i].tgt;
                                let dates_ok = match kind {
                                    Editablez::SigDate => parse_iso_date(b.as_str()).is_some(),
                                    Editablez::Relation => (b.as_str().is_empty()
                                        || parse_iso_date(b.as_str()).is_some()) && (
                                    c.as_str().is_empty() || parse_iso_date(c.as_str()).is_some()),
                                    _ => true,
                                };
                                if dates_ok {
                                    self.ppl_field_editing = false;
                                    self.edit_error = String::new();
                                    let e = &self.ppl_editables[i];
                                    TuiEffect::Persist(
                                        Editable {
                                            tgt: e.tgt,
                                            id: e.id,
                                            first: a.clone(),
                                            second: Some(b.clone()),
                                            third: Some(c.clone()),
                                        },
                                    )
                                } else {
                                    proof {
                                        reveal_strlit("does not read as a date");
                                    }
                                    self.edit_error = String::from_str("does not read as a date");
                                    TuiEffect::Handled
                                }
                            }
                        },
                        None => TuiEffect::Handled,
                    }
                } else {
                    TuiEffect::Handled
                }
            },
            TuiKey::ToggleCategory(cat) => {
                let on_ppl = match self.current_tab {
                    Tabs::Ppl => true,
                    _ => false,
                };
                if on_ppl && !self.ppl_field_editing {
                    match cat {
                        Category::Traits => {
                            self.show_traits = !self.show_traits;
                        },
                        Category::Tiers => {
                            self.show_tiers = !self.show_tiers;
                        },
                        Category::Relations => {
                            self.show_rels = !self.show_rels;
                        },
                        Category::Dates => {
                            self.show_dates = !self.show_dates;
                        },
                        Category::Contacts => {
                            self.show_contacts = !self.show_contacts;
                        },
                    }
                    self.refresh_editables();
                    TuiEffect::Handled
                } else if on_ppl && self.ppl_editing {
                    match self.ppl_detail_cursor {
                        Some(_) => self.route_to_input(),
                        None => TuiEffect::Handled,
                    }
                } else {
                    TuiEffect::Handled
                }
            },
            TuiKey::Other => {
                if (match self.current_tab {
                    Tabs::Ppl => true,
                    _ => false,
                }) && self.ppl_editing && self.ppl_field_editing {
                    match self.ppl_detail_cursor {
                        Some(_) => self.route_to_input(),
                        None => TuiEffect::Handled,
                    }
                } else {
                    TuiEffect::Handled
                }
            },
        }
    }

    /// The keystroke goes to the input the focus cursor lands on for the
    /// selected projection's kind.
    fn route_to_input(&self) -> (eff: TuiEffect)
        requires
            self.wf(),
        ensures
            self.ppl_detail_cursor is Some ==> spec_routes_to_input(*self, eff),
            self.ppl_detail_cursor is None ==> eff == TuiEffect::Handled,
    {
        match self.ppl_detail_cursor {
            Some(i) => {
                let e = &self.ppl_editables[i];
                TuiEffect::RouteToInput(focus_slot(e.tgt, self.ppl_field_idx))
            },
            None => TuiEffect::Handled,
        }
    }
}

/// The keystroke is routed to the input slot `focus cursor mod field count`
/// for the selected projection's kind.
pub open spec fn spec_routes_to_input(t: Tui, eff: TuiEffect) -> bool {
    t.ppl_detail_cursor matches Some(i) && eff == TuiEffect::RouteToInput(
        (t.ppl_field_idx as int % spec_field_count(
            t.ppl_editables@[i as int].tgt,
        )) as u8,
    )
}

/// One step of a selection cursor, down or up.
pub open spec fn spec_moved_cursor(next: bool, cur: Option<usize>, len: int) -> Option<usize> {
    if next {
        spec_cursor_next(cur, len)
    } else {
        spec_cursor_prev(cur, len)
    }
}

fn move_cursor(next: bool, cur: Option<usize>, len: usize) -> (r: Option<usize>)
    requires
        cur is Some ==> cur->0 < len,
    ensures
        r == spec_moved_cursor(next, cur, len as int),
{
    if next {
        cursor_next(cur, len)
    } else {
        cursor_prev(cur, len)
    }
}

} // verus!
