//! The guided-setup wizard: a linear sequence of steps walked forward with
//! confirm and backward with erase, with two seeded checklists.

use vstd::prelude::*;
use crate::dates::Date;
use crate::text::{spec_split_commas, spec_trim, spec_decimal_of, split_commas, trim,
    decimal_string};

verus! {

/// The wizard's steps, walked forward with confirm and backward with erase.
#[derive(Clone, Copy, Debug, PartialEq, Eq, Structural)]
pub enum Steps {
    Welcome,
    Name,
    Birthday,
    Place,
    Of,
    With,
    Tiers,
    Traits,
    Review,
}

/// One entry of the tier checklist.
#[derive(Clone, Debug, PartialEq)]
pub struct TierSelect {
    pub selected: bool,
    pub name: String,
}

/// One entry of the trait-type checklist.
#[derive(Clone, Debug, PartialEq)]
pub struct TraitSelect {
    pub selected: bool,
    pub symbol: String,
    pub color: String,
    pub name: String,
    pub is_date: bool,
    pub is_contact: bool,
}

/// The wizard's whole state: the current step and what each step captured.
pub struct Init {
    pub step: Steps,
    pub name: String,
    pub nicks: Vec<String>,
    pub bday: Option<Date>,
    pub bday_parse: String,
    pub birthplace: String,
    pub of_ppl: Vec<String>,
    pub with_ppl: Vec<String>,
    pub tier_cursor: Option<usize>,
    pub tier_list: Vec<TierSelect>,
    pub tier_editing: bool,
    pub trait_cursor: Option<usize>,
    pub trait_list: Vec<TraitSelect>,
    pub trait_editing: bool,
}

/// The seeded relationship circles, in order.
pub open spec fn spec_default_tier_names() -> Seq<Seq<char>> {
    seq!["Family"@, "Bests"@, "Friends"@, "Acquaintances"@, "CoWorkers"@]
}

/// The seeded trait types: name, symbol, color, date-flag, contact-flag.
pub open spec fn spec_default_trait_rows() -> Seq<(Seq<char>, Seq<char>, Seq<char>, bool, bool)> {
    seq![
        ("alias"@, "\u{1F3F7}"@, "VIOLET"@, false, false),
        ("birthday"@, "\u{1F382}"@, "GOLD"@, true, false),
        ("wedding"@, "\u{1F492}"@, "WHITE"@, true, false),
        ("met"@, "\u{1F91D}"@, "PINK"@, true, false),
        ("phone"@, "\u{1F4DE}"@, "TEAL"@, false, true),
        ("address"@, "\u{1F4EC}"@, "RED"@, false, true),
        ("email"@, "\u{1F4E7}"@, "GREEN"@, false, true),
    ]
}

/// A freshly started wizard: at the welcome step, nothing captured, every
/// seeded checklist entry selected, neither checklist in its entry mode.
pub open spec fn spec_fresh_init(r: Init) -> bool {
    r.step == Steps::Welcome && r.name@ == Seq::<char>::empty() && r.nicks@.len() == 0 && r.bday
        is None && r.bday_parse@ == Seq::<char>::empty() && r.birthplace@ == Seq::<char>::empty()
        && r.of_ppl@.len() == 0 && r.with_ppl@.len() == 0 && r.tier_cursor is None
        && !r.tier_editing && r.trait_cursor is None && !r.trait_editing && r.tier_list@.len()
        == spec_default_tier_names().len() && (forall|i: int|
        0 <= i < r.tier_list@.len() ==> (#[trigger] r.tier_list@[i]).selected
            && r.tier_list@[i].name@ == spec_default_tier_names()[i]) && r.trait_list@.len()
        == spec_default_trait_rows().len() && (forall|i: int|
        0 <= i < r.trait_list@.len() ==> {
            let row = spec_default_trait_rows()[i];
            (#[trigger] r.trait_list@[i]).selected && r.trait_list@[i].name@ == row.0
                && r.trait_list@[i].symbol@ == row.1 && r.trait_list@[i].color@ == row.2
                && r.trait_list@[i].is_date == row.3 && r.trait_list@[i].is_contact == row.4
        })
}

fn default_tier_list() -> (r: Vec<TierSelect>)
    ensures
        r@.len() == spec_default_tier_names().len(),
        forall|i: int|
            0 <= i < r@.len() ==> (#[trigger] r@[i]).selected && r@[i].name@
                == spec_default_tier_names()[i],
{
    let mut r: Vec<TierSelect> = Vec::new();
    r.push(TierSelect { selected: true, name: String::from_str("Family") });
    r.push(TierSelect { selected: true, name: String::from_str("Bests") });
    r.push(TierSelect { selected: true, name: String::from_str("Friends") });
    r.push(TierSelect { selected: true, name: String::from_str("Acquaintances") });
    r.push(TierSelect { selected: true, name: String::from_str("CoWorkers") });
    r
}

fn default_trait_list() -> (r: Vec<TraitSelect>)
    ensures
        r@.len() == spec_default_trait_rows().len(),
        forall|i: int|
            0 <= i < r@.len() ==> {
                let row = spec_default_trait_rows()[i];
                (#[trigger] r@[i]).selected && r@[i].name@ == row.0 && r@[i].symbol@ == row.1
                    && r@[i].color@ == row.2 && r@[i].is_date == row.3 && r@[i].is_contact == row.4
            },
{
    let mut r: Vec<TraitSelect> = Vec::new();
    r.push(
        TraitSelect {
            selected: true,
            symbol: String::from_str("\u{1F3F7}"),
            color: String::from_str("VIOLET"),
            name: String::from_str("alias"),
            is_date: false,
            is_contact: false,
        },
    );
    r.push(
        TraitSelect {
            selected: true,
            symbol: String::from_str("\u{1F382}"),
            color: String::from_str("GOLD"),
            name: String::from_str("birthday"),
            is_date: true,
            is_contact: false,
        },
    );
    r.push(
        TraitSelect {
            selected: true,
            symbol: String::from_str("\u{1F492}"),
            color: String::from_str("WHITE"),
            name: String::from_str("wedding"),
            is_date: true,
            is_contact: false,
        },
    );
    r.push(
        TraitSelect {
            selected: true,
            symbol: String::from_str("\u{1F91D}"),
            color: String::from_str("PINK"),
            name: String::from_str("met"),
            is_date: true,
            is_contact: false,
        },
    );
    r.push(
        TraitSelect {
            selected: true,
            symbol: String::from_str("\u{1F4DE}"),
            color: String::from_str("TEAL"),
            name: String::from_str("phone"),
            is_date: false,
            is_contact: true,
        },
    );
    r.push(
        TraitSelect {
            selected: true,
            symbol: String::from_str("\u{1F4EC}"),
            color: String::from_str("RED"),
            name: String::from_str("address"),
            is_date: false,
            is_contact: true,
        },
    );
    r.push(
        TraitSelect {
            selected: true,
            symbol: String::from_str("\u{1F4E7}"),
            color: String::from_str("GREEN"),
            name: String::from_str("email"),
            is_date: false,
            is_contact: true,
        },
    );
    r
}

impl Default for Init {
    /// A freshly started wizard.
    fn default() -> (r: Init)
        ensures
            spec_fresh_init(r),
    {
        Init {
            step: Steps::Welcome,
            name: String::new(),
            nicks: Vec::new(),
            bday: None,
            bday_parse: String::new(),
            birthplace: String::new(),
            of_ppl: Vec::new(),
            with_ppl: Vec::new(),
            tier_cursor: None,
            tier_list: default_tier_list(),
            tier_editing: false,
            trait_cursor: None,
            trait_list: default_trait_list(),
            trait_editing: false,
        }
    }
}

/// How a selection cursor moves one entry down a list of the given length.
pub open spec fn spec_cursor_next(cur: Option<usize>, len: int) -> Option<usize> {
    if len == 0 {
        cur
    } else {
        match cur {
            None => Some(0usize),
            Some(i) => if i + 1 < len {
                Some((i + 1) as usize)
            } else {
                Some(i)
            },
        }
    }
}

/// How a selection cursor moves one entry up.
pub open spec fn spec_cursor_prev(cur: Option<usize>, len: int) -> Option<usize> {
    if len == 0 {
        cur
    } else {
        match cur {
            None => Some(0usize),
            Some(i) => if i > 0 {
                Some((i - 1) as usize)
            } else {
                Some(0usize)
            },
        }
    }
}

pub(crate) fn cursor_next(cur: Option<usize>, len: usize) -> (r: Option<usize>)
    requires
        cur is Some ==> cur->0 < len,
    ensures
        r == spec_cursor_next(cur, len as int),
{
    if len == 0 {
        cur
    } else {
        match cur {
            None => Some(0),
            Some(i) => if i + 1 < len {
                Some(i + 1)
            } else {
                Some(i)
            },
        }
    }
}

pub(crate) fn cursor_prev(cur: Option<usize>, len: usize) -> (r: Option<usize>)
    ensures
        r == spec_cursor_prev(cur, len as int),
{
    if len == 0 {
        cur
    } else {
        match cur {
            None => Some(0),
            Some(i) => if i > 0 {
                Some(i - 1)
            } else {
                Some(0)
            },
        }
    }
}

impl Init {
    /// The wizard's lists keep their cursors inside the lists.
    pub open spec fn wf(self) -> bool {
        (self.tier_cursor is Some ==> self.tier_cursor->0 < self.tier_list@.len()) && (
        self.trait_cursor is Some ==> self.trait_cursor->0 < self.trait_list@.len())
    }

    /// Flips the selection of the tier entry under the cursor.
    pub fn toggle_tier(&mut self)
        requires
            old(self).wf(),
        ensures
            final(self).wf(),
            match old(self).tier_cursor {
                None => *final(self) == *old(self),
                Some(i) => final(self).tier_list@ == old(self).tier_list@.update(
                    i as int,
                    TierSelect {
                        selected: !old(self).tier_list@[i as int].selected,
                        ..old(self).tier_list@[i as int]
                    },
                ) && *final(self) == (Init { tier_list: final(self).tier_list, ..*old(self) }),
            },
    {
        match self.tier_cursor {
            None => {},
            Some(i) => {
                let name = self.tier_list[i].name.clone();
                let selected = self.tier_list[i].selected;
                self.tier_list.set(i, TierSelect { selected: !selected, name });
            },
        }
    }

    /// Flips the selection of the trait entry under the cursor.
    pub fn toggle_trait(&mut self)
        requires
            old(self).wf(),
        ensures
            final(self).wf(),
            match old(self).trait_cursor {
                None => *final(self) == *old(self),
                Some(i) => final(self).trait_list@ == old(self).trait_list@.update(
                    i as int,
                    TraitSelect {
                        selected: !old(self).trait_list@[i as int].selected,
                        ..old(self).trait_list@[i as int]
                    },
                ) && *final(self) == (Init { trait_list: final(self).trait_list, ..*old(self) }),
            },
    {
        match self.trait_cursor {
            None => {},
            Some(i) => {
                let row = TraitSelect {
                    selected: !self.trait_list[i].selected,
                    symbol: self.trait_list[i].symbol.clone(),
                    color: self.trait_list[i].color.clone(),
                    name: self.trait_list[i].name.clone(),
                    is_date: self.trait_list[i].is_date,
                    is_contact: self.trait_list[i].is_contact,
                };
                self.trait_list.set(i, row);
            },
        }
    }

    /// Switches the tier pane between list navigation and free-text entry.
    pub fn toggle_tier_editing(&mut self)
        requires
            old(self).wf(),
        ensures
            final(self).wf(),
            *final(self) == (Init { tier_editing: !old(self).tier_editing, ..*old(self) }),
    {
        self.tier_editing = !self.tier_editing;
    }

    /// Switches the trait pane between list navigation and free-text entry.
    pub fn toggle_trait_editing(&mut self)
        requires
            old(self).wf(),
        ensures
            final(self).wf(),
            *final(self) == (Init { trait_editing: !old(self).trait_editing, ..*old(self) }),
    {
        self.trait_editing = !self.trait_editing;
    }

    /// Appends a custom circle to the checklist, pre-selected.
    pub fn tier_add(&mut self, tier: String)
        requires
            old(self).wf(),
        ensures
            final(self).wf(),
            final(self).tier_list@ == old(self).tier_list@.push(
                TierSelect { selected: true, name: tier },
            ),
            *final(self) == (Init { tier_list: final(self).tier_list, ..*old(self) }),
    {
        self.tier_list.push(TierSelect { selected: true, name: tier });
    }

    /// Appends a custom trait type to the checklist, pre-selected, with a
    /// plain presentation.
    pub fn trait_add(&mut self, name: String)
        requires
            old(self).wf(),
        ensures
            final(self).wf(),
            final(self).trait_list@.len() == old(self).trait_list@.len() + 1,
            final(self).trait_list@.drop_last() == old(self).trait_list@,
            ({
                let row = final(self).trait_list@.last();
                row.selected && row.name == name && row.symbol@ == Seq::<char>::empty()
                    && row.color@ == Seq::<char>::empty() && !row.is_date && !row.is_contact
            }),
            *final(self) == (Init { trait_list: final(self).trait_list, ..*old(self) }),
    {
        self.trait_list.push(
            TraitSelect {
                selected: true,
                symbol: String::new(),
                color: String::new(),
                name,
                is_date: false,
                is_contact: false,
            },
        );
        proof {
            assert(self.trait_list@.drop_last() =~= old(self).trait_list@);
        }
    }

    /// Moves the checklist cursor of the current step one entry down.
    pub fn cursor_down(&mut self)
        requires
            old(self).wf(),
        ensures
            final(self).wf(),
            old(self).step == Steps::Tiers ==> *final(self) == (Init {
                tier_cursor: spec_cursor_next(old(self).tier_cursor, old(self).tier_list@.len() as int),
                ..*old(self)
            }),
            old(self).step == Steps::Traits ==> *final(self) == (Init {
                trait_cursor: spec_cursor_next(
                    old(self).trait_cursor,
                    old(self).trait_list@.len() as int,
                ),
                ..*old(self)
            }),
            old(self).step != Steps::Tiers && old(self).step != Steps::Traits ==> *final(self)
                == *old(self),
    {
        match self.step {
            Steps::Tiers => {
                self.tier_cursor = cursor_next(self.tier_cursor, self.tier_list.len());
            },
            Steps::Traits => {
                self.trait_cursor = cursor_next(self.trait_cursor, self.trait_list.len());
            },
            _ => {},
        }
    }

    /// Moves the checklist cursor of the current step one entry up.
    pub fn cursor_up(&mut self)
        requires
            old(self).wf(),
        ensures
            final(self).wf(),
            old(self).step == Steps::Tiers ==> *final(self) == (Init {
                tier_cursor: spec_cursor_prev(old(self).tier_cursor, old(self).tier_list@.len() as int),
                ..*old(self)
            }),
            old(self).step == Steps::Traits ==> *final(self) == (Init {
                trait_cursor: spec_cursor_prev(
                    old(self).trait_cursor,
                    old(self).trait_list@.len() as int,
                ),
                ..*old(self)
            }),
            old(self).step != Steps::Tiers && old(self).step != Steps::Traits ==> *final(self)
                == *old(self),
    {
        match self.step {
            Steps::Tiers => {
                self.tier_cursor = cursor_prev(self.tier_cursor, self.tier_list.len());
            },
            Steps::Traits => {
                self.trait_cursor = cursor_prev(self.trait_cursor, self.trait_list.len());
            },
            _ => {},
        }
    }
}

/// The comma tokens of a text, each trimmed.
pub open spec fn spec_split_trimmed(s: Seq<char>) -> Seq<Seq<char>> {
    spec_split_commas(s).map_values(|t: Seq<char>| spec_trim(t))
}

fn split_trimmed(input: &String) -> (r: Vec<String>)
    ensures
        r.deep_view() == spec_split_trimmed(input@),
{
    let toks = split_commas(input.as_str());
    let mut r: Vec<String> = Vec::new();
    let mut i: usize = 0;
    while i < toks.len()
        invariant
            0 <= i <= toks@.len(),
            toks.deep_view() == spec_split_commas(input@),
            r.deep_view() =~= spec_split_commas(input@).subrange(0, i as int).map_values(
                |t: Seq<char>| spec_trim(t),
            ),
        decreases toks@.len() - i,
    {
        r.push(trim(toks[i].as_str()));
        i = i + 1;
        proof {
            let src = spec_split_commas(input@);
            assert(src.subrange(0, i as int) =~= src.subrange(0, i - 1).push(
                toks.deep_view()[i - 1],
            ));
            assert(src.subrange(0, i as int).map_values(|t: Seq<char>| spec_trim(t))
                =~= src.subrange(0, i - 1).map_values(|t: Seq<char>| spec_trim(t)).push(
                spec_trim(toks.deep_view()[i - 1]),
            ));
        }
    }
    proof {
        assert(spec_split_commas(input@).subrange(0, spec_split_commas(input@).len() as int)
            =~= spec_split_commas(input@));
        assert(r.deep_view() =~= spec_split_trimmed(input@));
    }
    r
}

/// The message shown while the birthday text does not read as a date.
pub open spec fn spec_bday_error() -> Seq<char> {
    "does not read as a date"@
}

/// How one confirm keystroke takes the wizard from `pre` to `post`:
/// `parsed` is what the date parser made of the input, and `reset` says
/// whether the input buffer is to be cleared.
pub open spec fn spec_confirm_rel(
    pre: Init,
    input: String,
    parsed: Option<Date>,
    post: Init,
    reset: bool,
) -> bool {
    match pre.step {
        Steps::Welcome => post == (Init { step: Steps::Name, ..pre }) && reset,
        Steps::Name => if input@.len() == 0 {
            post == pre && !reset
        } else {
            let toks = spec_split_commas(input@);
            post.name@ == toks[0] && post.nicks.deep_view() == toks.drop_first() && post == (Init {
                step: Steps::Birthday,
                name: post.name,
                nicks: post.nicks,
                ..pre
            }) && reset
        },
        Steps::Birthday => if input@.len() == 0 {
            post == pre && !reset
        } else {
            match parsed {
                Some(d) => post == (Init {
                    step: Steps::Place,
                    bday: Some(d),
                    bday_parse: post.bday_parse,
                    ..pre
                }) && post.bday_parse@ == Seq::<char>::empty() && reset,
                None => post == (Init { bday_parse: post.bday_parse, ..pre }) && post.bday_parse@
                    == spec_bday_error() && !reset,
            }
        },
        Steps::Place => if input@.len() == 0 {
            post == pre && !reset
        } else {
            post == (Init { step: Steps::Of, birthplace: input, ..pre }) && reset
        },
        Steps::Of => if input@.len() == 0 {
            post == pre && !reset
        } else {
            post == (Init { step: Steps::With, of_ppl: post.of_ppl, ..pre })
                && post.of_ppl.deep_view() == spec_split_trimmed(input@) && reset
        },
        Steps::With => post == (Init { step: Steps::Tiers, with_ppl: post.with_ppl, ..pre }) && (
        if input@.len() == 0 {
            post.with_ppl@.len() == 0
        } else {
            post.with_ppl.deep_view() == spec_split_trimmed(input@)
        }) && reset,
        Steps::Tiers => if pre.tier_editing {
            post == (Init { tier_list: post.tier_list, ..pre }) && post.tier_list@
                == pre.tier_list@.push(TierSelect { selected: true, name: input }) && reset
        } else {
            post == (Init { step: Steps::Traits, ..pre }) && reset
        },
        Steps::Traits => if pre.trait_editing {
            post == (Init { trait_list: post.trait_list, ..pre }) && post.trait_list@.len()
                == pre.trait_list@.len() + 1 && post.trait_list@.drop_last() == pre.trait_list@ && ({
                let row = post.trait_list@.last();
                row.selected && row.name == input && row.symbol@ == Seq::<char>::empty()
                    && row.color@ == Seq::<char>::empty() && !row.is_date && !row.is_contact
            }) && reset
        } else {
            post == (Init { step: Steps::Review, ..pre }) && reset
        },
        Steps::Review => post == pre && !reset,
    }
}

/// How one erase keystroke on an empty buffer takes the wizard back: the
/// previous step is re-entered and what that step had captured is reset.
pub open spec fn spec_retreat_rel(pre: Init, post: Init) -> bool {
    match pre.step {
        Steps::Welcome => post == pre,
        Steps::Name => post == (Init { step: Steps::Welcome, ..pre }),
        Steps::Birthday => post == (Init {
            step: Steps::Name,
            name: post.name,
            nicks: post.nicks,
            ..pre
        }) && post.name@ == Seq::<char>::empty() && post.nicks@.len() == 0,
        Steps::Place => post == (Init { step: Steps::Birthday, bday: None, ..pre }),
        Steps::Of => post == (Init { step: Steps::Place, birthplace: post.birthplace, ..pre })
            && post.birthplace@ == Seq::<char>::empty(),
        Steps::With => post == (Init { step: Steps::Of, of_ppl: post.of_ppl, ..pre })
            && post.of_ppl@.len() == 0,
        Steps::Tiers => post == (Init { step: Steps::With, with_ppl: post.with_ppl, ..pre })
            && post.with_ppl@.len() == 0,
        Steps::Traits => post == (Init { step: Steps::Tiers, ..pre }),
        Steps::Review => post == (Init { step: Steps::Traits, ..pre }),
    }
}

impl Init {
    /// Applies the confirm key: validates the current step's input, captures
    /// it, and advances. The returned flag asks the caller to clear the input
    /// buffer.
    pub fn confirm(&mut self, input: &String, parsed: Option<Date>) -> (reset: bool)
        requires
            old(self).wf(),
        ensures
            final(self).wf(),
            spec_confirm_rel(*old(self), *input, parsed, *final(self), reset),
    {
        match self.step {
            Steps::Welcome => {
                self.step = Steps::Name;
                true
            },
            Steps::Name => {
                if input.as_str().is_empty() {
                    false
                } else {
                    let mut toks = split_commas(input.as_str());
                    proof {
                        crate::text::lemma_split_commas_len(input@);
                        assert(toks.deep_view().len() == toks@.len());
                    }
                    let first = toks.remove(0);
                    self.name = first;
                    self.nicks = toks;
                    self.step = Steps::Birthday;
                    proof {
                        assert(self.nicks.deep_view() =~= spec_split_commas(
                            input@,
                        ).drop_first());
                    }
                    true
                }
            },
            Steps::Birthday => {
                if input.as_str().is_empty() {
                    false
                } else {
                    match parsed {
                        Some(d) => {
                            self.bday = Some(d);
                            self.bday_parse = String::new();
                            self.step = Steps::Place;
                            true
                        },
                        None => {
                            proof {
                                reveal_strlit("does not read as a date");
                            }
                            self.bday_parse = String::from_str("does not read as a date");
                            false
                        },
                    }
                }
            },
            Steps::Place => {
                if input.as_str().is_empty() {
                    false
                } else {
                    self.birthplace = input.clone();
                    self.step = Steps::Of;
                    true
                }
            },
            Steps::Of => {
                if input.as_str().is_empty() {
                    false
                } else {
                    self.of_ppl = split_trimmed(input);
                    self.step = Steps::With;
                    true
                }
            },
            Steps::With => {
                if input.as_str().is_empty() {
                    self.with_ppl = Vec::new();
                } else {
                    self.with_ppl = split_trimmed(input);
                }
                self.step = Steps::Tiers;
                true
            },
            Steps::Tiers => {
                if self.tier_editing {
                    self.tier_add(input.clone());
                } else {
                    self.step = Steps::Traits;
                }
                true
            },
            Steps::Traits => {
                if self.trait_editing {
                    self.trait_add(input.clone());
                } else {
                    self.step = Steps::Review;
                }
                true
            },
            Steps::Review => false,
        }
    }

    /// Applies the confirm key, reading the input through the locale-aware
    /// date parser first; the parser's reading is returned beside the flag.
    pub fn confirm_text(&mut self, input: &String) -> (r: (bool, Option<Date>))
        requires
            old(self).wf(),
        ensures
            final(self).wf(),
            r.1 is Some ==> r.1->0.valid(),
            spec_confirm_rel(*old(self), *input, r.1, *final(self), r.0),
    {
        let parsed = crate::clock::parse_date_text(input.as_str());
        let reset = self.confirm(input, parsed);
        (reset, parsed)
    }

    /// Applies the erase key on an empty buffer: steps back and clears what
    /// the re-entered step had captured.
    pub fn retreat(&mut self)
        requires
            old(self).wf(),
        ensures
            final(self).wf(),
            spec_retreat_rel(*old(self), *final(self)),
    {
        match self.step {
            Steps::Welcome => {},
            Steps::Name => {
                self.step = Steps::Welcome;
            },
            Steps::Birthday => {
                self.name = String::new();
                self.nicks = Vec::new();
                self.step = Steps::Name;
            },
            Steps::Place => {
                self.bday = None;
                self.step = Steps::Birthday;
            },
            Steps::Of => {
                self.birthplace = String::new();
                self.step = Steps::Place;
            },
            Steps::With => {
                self.of_ppl = Vec::new();
                self.step = Steps::Of;
            },
            Steps::Tiers => {
                self.with_ppl = Vec::new();
                self.step = Steps::With;
            },
            Steps::Traits => {
                self.step = Steps::Tiers;
            },
            Steps::Review => {
                self.step = Steps::Traits;
            },
        }
    }

    /// The count shown over a checklist, as `selected/total Selected`.
    pub fn tier_count_string(&self) -> (r: String)
        ensures
            r@ == spec_count_string(
                spec_count_selected_tiers(self.tier_list@),
                self.tier_list@.len() as int,
            ),
    {
        let mut sel: usize = 0;
        let mut i: usize = 0;
        while i < self.tier_list.len()
            invariant
                0 <= i <= self.tier_list@.len(),
                sel as int == spec_count_selected_tiers(self.tier_list@.subrange(0, i as int)),
                sel <= i,
            decreases self.tier_list@.len() - i,
        {
            if self.tier_list[i].selected {
                sel = sel + 1;
            }
            i = i + 1;
            proof {
                assert(self.tier_list@.subrange(0, i as int).drop_last() =~= self.tier_list@
                    .subrange(0, i - 1));
            }
        }
        proof {
            assert(self.tier_list@.subrange(0, self.tier_list@.len() as int) =~= self.tier_list@);
        }
        count_string(sel, self.tier_list.len())
    }

    /// The count shown over the trait checklist.
    pub fn trait_count_string(&self) -> (r: String)
        ensures
            r@ == spec_count_string(
                spec_count_selected_traits(self.trait_list@),
                self.trait_list@.len() as int,
            ),
    {
        let mut sel: usize = 0;
        let mut i: usize = 0;
        while i < self.trait_list.len()
            invariant
                0 <= i <= self.trait_list@.len(),
                sel as int == spec_count_selected_traits(self.trait_list@.subrange(0, i as int)),
                sel <= i,
            decreases self.trait_list@.len() - i,
        {
            if self.trait_list[i].selected {
                sel = sel + 1;
            }
            i = i + 1;
            proof {
                assert(self.trait_list@.subrange(0, i as int).drop_last() =~= self.trait_list@
                    .subrange(0, i - 1));
            }
        }
        proof {
            assert(self.trait_list@.subrange(0, self.trait_list@.len() as int)
                =~= self.trait_list@);
        }
        count_string(sel, self.trait_list.len())
    }
}

pub open spec fn spec_count_selected_tiers(s: Seq<TierSelect>) -> int
    decreases s.len(),
{
    if s.len() == 0 {
        0
    } else {
        spec_count_selected_tiers(s.drop_last()) + if s.last().selected {
            1int
        } else {
            0int
        }
    }
}

pub open spec fn spec_count_selected_traits(s: Seq<TraitSelect>) -> int
    decreases s.len(),
{
    if s.len() == 0 {
        0
    } else {
        spec_count_selected_traits(s.drop_last()) + if s.last().selected {
            1int
        } else {
            0int
        }
    }
}

/// The text `selected/total Selected`.
pub open spec fn spec_count_string(sel: int, total: int) -> Seq<char> {
    spec_decimal_of(sel) + "/"@ + spec_decimal_of(total) + " Selected"@
}

fn count_string(sel: usize, total: usize) -> (r: String)
    ensures
        r@ == spec_count_string(sel as int, total as int),
{
    let mut r = decimal_string(sel);
    r.append("/");
    let t = decimal_string(total);
    r.append(t.as_str());
    r.append(" Selected");
    proof {
        assert(r@ =~= spec_count_string(sel as int, total as int));
    }
    r
}

/// A keystroke as the wizard sees it.
#[derive(Clone, Copy, Debug, PartialEq, Eq, Structural)]
pub enum InitKey {
    Quit,
    Confirm,
    Erase,
    Up,
    Down,
    Select,
    EditToggle,
    Commit,
    Other,
}

/// What the caller is to do after a keystroke was handled.
#[derive(Clone, Copy, Debug, PartialEq, Eq, Structural)]
pub enum InitEffect {
    /// Leave the wizard without committing.
    Quit,
    /// Clear the input buffer.
    ResetInput,
    /// Hand the keystroke to the input buffer.
    PassToInput,
    /// Run the commit plan against the store.
    Commit,
    /// Nothing beyond the state change.
    Handled,
}

impl Init {
    /// The wizard's whole key table: one call per keystroke, with the current
    /// input buffer text and the date parser's reading of it.
    pub fn handle_key(&mut self, key: InitKey, input: &String, parsed: Option<Date>) -> (eff:
        InitEffect)
        requires
            old(self).wf(),
        ensures
            final(self).wf(),
            match key {
                InitKey::Quit => *final(self) == *old(self) && eff == InitEffect::Quit,
                InitKey::Confirm => spec_confirm_rel(
                    *old(self),
                    *input,
                    parsed,
                    *final(self),
                    eff == InitEffect::ResetInput,
                ) && (eff == InitEffect::ResetInput || eff == InitEffect::Handled),
                InitKey::Erase => if input@.len() == 0 {
                    spec_retreat_rel(*old(self), *final(self)) && eff == InitEffect::Handled
                } else {
                    *final(self) == *old(self) && eff == InitEffect::PassToInput
                },
                InitKey::Down => *final(self) == spec_cursor_down_state(*old(self)) && eff
                    == InitEffect::Handled,
                InitKey::Up => *final(self) == spec_cursor_up_state(*old(self)) && eff
                    == InitEffect::Handled,
                InitKey::Select => match old(self).step {
                    Steps::Tiers => spec_toggled_tier_rel(*old(self), *final(self)) && eff
                        == InitEffect::Handled,
                    Steps::Traits => spec_toggled_trait_rel(*old(self), *final(self)) && eff
                        == InitEffect::Handled,
                    _ => *final(self) == *old(self) && eff == InitEffect::PassToInput,
                },
                InitKey::EditToggle => match old(self).step {
                    Steps::Tiers => *final(self) == (Init {
                        tier_editing: !old(self).tier_editing,
                        ..*old(self)
                    }) && eff == InitEffect::Handled,
                    Steps::Traits => *final(self) == (Init {
                        trait_editing: !old(self).trait_editing,
                        ..*old(self)
                    }) && eff == InitEffect::Handled,
                    _ => *final(self) == *old(self) && eff == InitEffect::Handled,
                },
                InitKey::Commit => *final(self) == *old(self) && eff == (if old(self).step
                    == Steps::Review {
                    InitEffect::Commit
                } else {
                    InitEffect::Handled
                }),
                InitKey::Other => *final(self) == *old(self) && eff == InitEffect::PassToInput,
            },
    {
        match key {
            InitKey::Quit => InitEffect::Quit,
            InitKey::Confirm => {
                let reset = self.confirm(input, parsed);
                if reset {
                    InitEffect::ResetInput
                } else {
                    InitEffect::Handled
                }
            },
            InitKey::Erase => {
                if input.as_str().is_empty() {
                    self.retreat();
                    InitEffect::Handled
                } else {
                    InitEffect::PassToInput
                }
            },
            InitKey::Down => {
                self.cursor_down();
                InitEffect::Handled
            },
            InitKey::Up => {
                self.cursor_up();
                InitEffect::Handled
            },
            InitKey::Select => {
                match self.step {
                    Steps::Tiers => {
                        self.toggle_tier();
                        InitEffect::Handled
                    },
                    Steps::Traits => {
                        self.toggle_trait();
                        InitEffect::Handled
                    },
                    _ => InitEffect::PassToInput,
                }
            },
            InitKey::EditToggle => {
                match self.step {
                    Steps::Tiers => {
                        self.toggle_tier_editing();
                        InitEffect::Handled
                    },
                    Steps::Traits => {
                        self.toggle_trait_editing();
                        InitEffect::Handled
                    },
                    _ => InitEffect::Handled,
                }
            },
            InitKey::Commit => {
                match self.step {
                    Steps::Review => InitEffect::Commit,
                    _ => InitEffect::Handled,
                }
            },
            InitKey::Other => InitEffect::PassToInput,
        }
    }
}

/// The state after the cursor of the current checklist moved one entry down.
pub open spec fn spec_cursor_down_state(pre: Init) -> Init {
    match pre.step {
        Steps::Tiers => Init {
            tier_cursor: spec_cursor_next(pre.tier_cursor, pre.tier_list@.len() as int),
            ..pre
        },
        Steps::Traits => Init {
            trait_cursor: spec_cursor_next(pre.trait_cursor, pre.trait_list@.len() as int),
            ..pre
        },
        _ => pre,
    }
}

/// The state after the cursor of the current checklist moved one entry up.
pub open spec fn spec_cursor_up_state(pre: Init) -> Init {
    match pre.step {
        Steps::Tiers => Init {
            tier_cursor: spec_cursor_prev(pre.tier_cursor, pre.tier_list@.len() as int),
            ..pre
        },
        Steps::Traits => Init {
            trait_cursor: spec_cursor_prev(pre.trait_cursor, pre.trait_list@.len() as int),
            ..pre
        },
        _ => pre,
    }
}

/// The tier entry under the cursor has its selection flipped; everything else
/// is kept.
pub open spec fn spec_toggled_tier_rel(pre: Init, post: Init) -> bool {
    match pre.tier_cursor {
        None => post == pre,
        Some(i) => post.tier_list@ == pre.tier_list@.update(
            i as int,
            TierSelect { selected: !pre.tier_list@[i as int].selected, ..pre.tier_list@[i as int] },
        ) && post == (Init { tier_list: post.tier_list, ..pre }),
    }
}

/// The trait entry under the cursor has its selection flipped.
pub open spec fn spec_toggled_trait_rel(pre: Init, post: Init) -> bool {
    match pre.trait_cursor {
        None => post == pre,
        Some(i) => post.trait_list@ == pre.trait_list@.update(
            i as int,
            TraitSelect {
                selected: !pre.trait_list@[i as int].selected,
                ..pre.trait_list@[i as int]
            },
        ) && post == (Init { trait_list: post.trait_list, ..pre }),
    }
}

} // verus!
