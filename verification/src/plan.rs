//! Commit plans: the ordered store operations of the wizard's review step
//! and of the one-shot add command.

use vstd::prelude::*;
use crate::dates::Date;
use crate::wizard::{Init, TierSelect, TraitSelect};

verus! {

/// Who a planned record belongs to: the self person, or the nth person the
/// same plan creates.
#[derive(Clone, Copy, Debug, PartialEq, Eq, Structural)]
pub enum PersonRef {
    Me,
    Created(usize),
}

/// One store operation of a commit plan, carrying plain values only; the
/// caller executes the steps in order against the record store.
#[derive(Clone, Debug, PartialEq)]
pub enum PlanStep {
    CreateSelf { name: String },
    CreatePerson { name: String },
    CreateTrait { who: PersonRef, key: String, value: String, hidden: bool },
    CreateSigDate { who: PersonRef, date: Date, event: String, do_remind: bool },
    CreateContact { who: PersonRef, typ: String, designator: Option<String>, value: String },
    CreateRelation { a: PersonRef, b: PersonRef, typ: String, entered: Option<Date> },
    CreateTier { who: PersonRef, name: String, window: Option<u32> },
    CreateTierDefault { key: String, default: bool, enabled: bool, window: Option<u32> },
    CreateTraitDefault {
        key: String,
        symbol: String,
        color: String,
        default: bool,
        enabled: bool,
        is_date: bool,
        is_contact: bool,
    },
}

/// The mathematical shape of a plan step: every text as a character sequence.
#[verifier::ext_equal]
pub enum PlanStepView {
    CreateSelf { name: Seq<char> },
    CreatePerson { name: Seq<char> },
    CreateTrait { who: PersonRef, key: Seq<char>, value: Seq<char>, hidden: bool },
    CreateSigDate { who: PersonRef, date: Date, event: Seq<char>, do_remind: bool },
    CreateContact {
        who: PersonRef,
        typ: Seq<char>,
        designator: Option<Seq<char>>,
        value: Seq<char>,
    },
    CreateRelation { a: PersonRef, b: PersonRef, typ: Seq<char>, entered: Option<Date> },
    CreateTier { who: PersonRef, name: Seq<char>, window: Option<u32> },
    CreateTierDefault { key: Seq<char>, default: bool, enabled: bool, window: Option<u32> },
    CreateTraitDefault {
        key: Seq<char>,
        symbol: Seq<char>,
        color: Seq<char>,
        default: bool,
        enabled: bool,
        is_date: bool,
        is_contact: bool,
    },
}

impl View for PlanStep {
    type V = PlanStepView;

    open spec fn view(&self) -> PlanStepView {
        match self {
            PlanStep::CreateSelf { name } => PlanStepView::CreateSelf { name: name@ },
            PlanStep::CreatePerson { name } => PlanStepView::CreatePerson { name: name@ },
            PlanStep::CreateTrait { who, key, value, hidden } => PlanStepView::CreateTrait {
                who: *who,
                key: key@,
                value: value@,
                hidden: *hidden,
            },
            PlanStep::CreateSigDate { who, date, event, do_remind } => PlanStepView::CreateSigDate {
                who: *who,
                date: *date,
                event: event@,
                do_remind: *do_remind,
            },
            PlanStep::CreateContact { who, typ, designator, value } => PlanStepView::CreateContact {
                who: *who,
                typ: typ@,
                designator: match designator {
                    None => None,
                    Some(d) => Some(d@),
                },
                value: value@,
            },
            PlanStep::CreateRelation { a, b, typ, entered } => PlanStepView::CreateRelation {
                a: *a,
                b: *b,
                typ: typ@,
                entered: *entered,
            },
            PlanStep::CreateTier { who, name, window } => PlanStepView::CreateTier {
                who: *who,
                name: name@,
                window: *window,
            },
            PlanStep::CreateTierDefault { key, default, enabled, window } => PlanStepView::CreateTierDefault {
                key: key@,
                default: *default,
                enabled: *enabled,
                window: *window,
            },
            PlanStep::CreateTraitDefault {
                key,
                symbol,
                color,
                default,
                enabled,
                is_date,
                is_contact,
            } => PlanStepView::CreateTraitDefault {
                key: key@,
                symbol: symbol@,
                color: color@,
                default: *default,
                enabled: *enabled,
                is_date: *is_date,
                is_contact: *is_contact,
            },
        }
    }
}

impl DeepView for PlanStep {
    type V = PlanStepView;

    open spec fn deep_view(&self) -> PlanStepView {
        self.view()
    }
}

/// The mathematical shapes of a vector of plan steps, in order.
pub open spec fn views_of(s: Seq<PlanStep>) -> Seq<PlanStepView> {
    s.map_values(|p: PlanStep| p@)
}

/// One alias trait per captured nickname, on the self person.
pub open spec fn spec_alias_steps(nicks: Seq<Seq<char>>) -> Seq<PlanStepView> {
    nicks.map_values(
        |n: Seq<char>|
            PlanStepView::CreateTrait { who: PersonRef::Me, key: "alias"@, value: n, hidden: false },
    )
}

/// For each captured name: a new person and a relation from that person to
/// the self person. `base` counts the persons the plan created before this
/// segment.
pub open spec fn spec_people_steps(
    names: Seq<Seq<char>>,
    typ: Seq<char>,
    entered: Option<Date>,
    base: int,
) -> Seq<PlanStepView>
    decreases names.len(),
{
    if names.len() == 0 {
        Seq::empty()
    } else {
        spec_people_steps(names.drop_last(), typ, entered, base) + seq![
            PlanStepView::CreatePerson { name: names.last() },
            PlanStepView::CreateRelation {
                a: PersonRef::Created((base + names.len() - 1) as usize),
                b: PersonRef::Me,
                typ,
                entered,
            },
        ]
    }
}

/// One catalog row per selected circle.
pub open spec fn spec_tier_default_steps(ts: Seq<TierSelect>) -> Seq<PlanStepView>
    decreases ts.len(),
{
    if ts.len() == 0 {
        Seq::empty()
    } else {
        let rest = spec_tier_default_steps(ts.drop_last());
        if ts.last().selected {
            rest.push(
                PlanStepView::CreateTierDefault {
                    key: ts.last().name@,
                    default: true,
                    enabled: true,
                    window: None,
                },
            )
        } else {
            rest
        }
    }
}

/// One catalog row per trait type, enabled as selected.
pub open spec fn spec_trait_default_steps(ts: Seq<TraitSelect>) -> Seq<PlanStepView> {
    ts.map_values(
        |t: TraitSelect|
            PlanStepView::CreateTraitDefault {
                key: t.name@,
                symbol: t.symbol@,
                color: t.color@,
                default: true,
                enabled: t.selected,
                is_date: t.is_date,
                is_contact: t.is_contact,
            },
    )
}

/// Everything the wizard's review commits, in order: the self person, the
/// aliases, the birthday, the birthplace, the parents with their relations,
/// the siblings with theirs, the selected circles as catalog rows, and the
/// whole trait-type catalog.
pub open spec fn spec_commit_plan(w: Init) -> Seq<PlanStepView> {
    seq![PlanStepView::CreateSelf { name: w.name@ }] + spec_alias_steps(w.nicks.deep_view()) + (
    match w.bday {
        Some(d) => seq![
            PlanStepView::CreateSigDate {
                who: PersonRef::Me,
                date: d,
                event: "birthday"@,
                do_remind: true,
            },
        ],
        None => Seq::empty(),
    }) + (if w.birthplace@.len() > 0 {
        seq![
            PlanStepView::CreateContact {
                who: PersonRef::Me,
                typ: "address"@,
                designator: None,
                value: w.birthplace@,
            },
        ]
    } else {
        Seq::empty()
    }) + spec_people_steps(w.of_ppl.deep_view(), "parent"@, w.bday, 0)
        + spec_people_steps(w.with_ppl.deep_view(), "sibling"@, None, w.of_ppl@.len() as int)
        + spec_tier_default_steps(w.tier_list@) + spec_trait_default_steps(w.trait_list@)
}

fn alias_segment(nicks: &Vec<String>) -> (r: Vec<PlanStep>)
    ensures
        views_of(r@) == spec_alias_steps(nicks.deep_view()),
{
    let mut r: Vec<PlanStep> = Vec::new();
    let mut i: usize = 0;
    while i < nicks.len()
        invariant
            0 <= i <= nicks@.len(),
            views_of(r@) =~= spec_alias_steps(nicks.deep_view().subrange(0, i as int)),
        decreases nicks@.len() - i,
    {
        r.push(
            PlanStep::CreateTrait {
                who: PersonRef::Me,
                key: String::from_str("alias"),
                value: nicks[i].clone(),
                hidden: false,
            },
        );
        i = i + 1;
        proof {
            let nd = nicks.deep_view();
            let x = PlanStepView::CreateTrait {
                who: PersonRef::Me,
                key: "alias"@,
                value: nd[i - 1],
                hidden: false,
            };
            assert(nd.subrange(0, i as int) =~= nd.subrange(0, i - 1).push(nd[i - 1]));
            assert(spec_alias_steps(nd.subrange(0, i as int)) =~~= spec_alias_steps(
                nd.subrange(0, i - 1),
            ).push(x));
            assert(views_of(r@) =~~= spec_alias_steps(nd.subrange(0, i as int)));
        }
    }
    proof {
        assert(nicks.deep_view().subrange(0, nicks.deep_view().len() as int)
            =~= nicks.deep_view());
    }
    r
}

fn people_segment(names: &Vec<String>, typ: &str, entered: Option<Date>, base: usize) -> (r: Vec<
    PlanStep,
>)
    requires
        base + names@.len() < usize::MAX,
    ensures
        views_of(r@) == spec_people_steps(names.deep_view(), typ@, entered, base as int),
{
    let mut r: Vec<PlanStep> = Vec::new();
    let mut k: usize = 0;
    while k < names.len()
        invariant
            0 <= k <= names@.len(),
            base + names@.len() < usize::MAX,
            views_of(r@) =~= spec_people_steps(
                names.deep_view().subrange(0, k as int),
                typ@,
                entered,
                base as int,
            ),
        decreases names@.len() - k,
    {
        r.push(PlanStep::CreatePerson { name: names[k].clone() });
        r.push(
            PlanStep::CreateRelation {
                a: PersonRef::Created(base + k),
                b: PersonRef::Me,
                typ: typ.to_owned(),
                entered,
            },
        );
        k = k + 1;
        proof {
            let nd = names.deep_view();
            assert(nd.subrange(0, k as int).drop_last() =~= nd.subrange(0, k - 1));
            assert(nd.subrange(0, k as int).last() == nd[k - 1]);
            assert(views_of(r@) =~~= spec_people_steps(
                nd.subrange(0, k as int),
                typ@,
                entered,
                base as int,
            ));
        }
    }
    proof {
        assert(names.deep_view().subrange(0, names.deep_view().len() as int)
            =~= names.deep_view());
    }
    r
}

fn tier_default_segment(ts: &Vec<TierSelect>) -> (r: Vec<PlanStep>)
    ensures
        views_of(r@) == spec_tier_default_steps(ts@),
{
    let mut r: Vec<PlanStep> = Vec::new();
    let mut k: usize = 0;
    while k < ts.len()
        invariant
            0 <= k <= ts@.len(),
            views_of(r@) =~= spec_tier_default_steps(ts@.subrange(0, k as int)),
        decreases ts@.len() - k,
    {
        if ts[k].selected {
            r.push(
                PlanStep::CreateTierDefault {
                    key: ts[k].name.clone(),
                    default: true,
                    enabled: true,
                    window: None,
                },
            );
        }
        k = k + 1;
        proof {
            assert(ts@.subrange(0, k as int).drop_last() =~= ts@.subrange(0, k - 1));
            assert(ts@.subrange(0, k as int).last() == ts@[k - 1]);
            assert(views_of(r@) =~~= spec_tier_default_steps(ts@.subrange(0, k as int)));
        }
    }
    proof {
        assert(ts@.subrange(0, ts@.len() as int) =~= ts@);
    }
    r
}

fn trait_default_segment(ts: &Vec<TraitSelect>) -> (r: Vec<PlanStep>)
    ensures
        views_of(r@) == spec_trait_default_steps(ts@),
{
    let mut r: Vec<PlanStep> = Vec::new();
    let mut k: usize = 0;
    while k < ts.len()
        invariant
            0 <= k <= ts@.len(),
            views_of(r@) =~= spec_trait_default_steps(ts@.subrange(0, k as int)),
        decreases ts@.len() - k,
    {
        let t = &ts[k];
        r.push(
            PlanStep::CreateTraitDefault {
                key: t.name.clone(),
                symbol: t.symbol.clone(),
                color: t.color.clone(),
                default: true,
                enabled: t.selected,
                is_date: t.is_date,
                is_contact: t.is_contact,
            },
        );
        k = k + 1;
        proof {
            let x = PlanStepView::CreateTraitDefault {
                key: ts@[k - 1].name@,
                symbol: ts@[k - 1].symbol@,
                color: ts@[k - 1].color@,
                default: true,
                enabled: ts@[k - 1].selected,
                is_date: ts@[k - 1].is_date,
                is_contact: ts@[k - 1].is_contact,
            };
            assert(ts@.subrange(0, k as int) =~= ts@.subrange(0, k - 1).push(ts@[k - 1]));
            assert(spec_trait_default_steps(ts@.subrange(0, k as int))
                =~~= spec_trait_default_steps(ts@.subrange(0, k - 1)).push(x));
            assert(views_of(r@) =~~= spec_trait_default_steps(ts@.subrange(0, k as int)));
        }
    }
    proof {
        assert(ts@.subrange(0, ts@.len() as int) =~= ts@);
    }
    r
}

/// Mapping the steps to their shapes distributes over concatenation.
proof fn lemma_views_of_add(a: Seq<PlanStep>, b: Seq<PlanStep>)
    ensures
        views_of(a + b) =~= views_of(a) + views_of(b),
{
}

impl Init {
    /// The store operations the review step commits, in order.
    pub fn commit_plan(&self) -> (r: Vec<PlanStep>)
        requires
            self.of_ppl@.len() + self.with_ppl@.len() < usize::MAX,
        ensures
            views_of(r@) == spec_commit_plan(*self),
    {
        let mut r: Vec<PlanStep> = Vec::new();
        r.push(PlanStep::CreateSelf { name: self.name.clone() });
        proof {
            assert(views_of(r@) =~~= seq![PlanStepView::CreateSelf { name: self.name@ }]);
        }
        let mut seg = alias_segment(&self.nicks);
        let ghost r0 = r@;
        let ghost s0 = seg@;
        r.append(&mut seg);
        proof {
            lemma_views_of_add(r0, s0);
        }
        match self.bday {
            Some(d) => {
                r.push(
                    PlanStep::CreateSigDate {
                        who: PersonRef::Me,
                        date: d,
                        event: String::from_str("birthday"),
                        do_remind: true,
                    },
                );
            },
            None => {},
        }
        proof {
            assert(views_of(r@) =~~= seq![PlanStepView::CreateSelf { name: self.name@ }]
                + spec_alias_steps(self.nicks.deep_view()) + (match self.bday {
                Some(d) => seq![
                    PlanStepView::CreateSigDate {
                        who: PersonRef::Me,
                        date: d,
                        event: "birthday"@,
                        do_remind: true,
                    },
                ],
                None => Seq::<PlanStepView>::empty(),
            }));
        }
        if !self.birthplace.as_str().is_empty() {
            r.push(
                PlanStep::CreateContact {
                    who: PersonRef::Me,
                    typ: String::from_str("address"),
                    designator: None,
                    value: self.birthplace.clone(),
                },
            );
        }
        proof {
            assert(views_of(r@) =~~= spec_commit_plan_prefix3(*self));
        }
        let mut seg = people_segment(&self.of_ppl, "parent", self.bday, 0);
        let ghost r1 = r@;
        let ghost s1 = seg@;
        r.append(&mut seg);
        proof {
            lemma_views_of_add(r1, s1);
            assert(views_of(r@) =~~= spec_commit_plan_prefix4(*self));
        }
        let mut seg = people_segment(&self.with_ppl, "sibling", None, self.of_ppl.len());
        let ghost r2 = r@;
        let ghost s2 = seg@;
        r.append(&mut seg);
        proof {
            lemma_views_of_add(r2, s2);
            assert(views_of(r@) =~~= spec_commit_plan_prefix5(*self));
        }
        let mut seg = tier_default_segment(&self.tier_list);
        let ghost r3 = r@;
        let ghost s3 = seg@;
        r.append(&mut seg);
        proof {
            lemma_views_of_add(r3, s3);
            assert(views_of(r@) =~~= spec_commit_plan_prefix6(*self));
        }
        let mut seg = trait_default_segment(&self.trait_list);
        let ghost r4 = r@;
        let ghost s4 = seg@;
        r.append(&mut seg);
        proof {
            lemma_views_of_add(r4, s4);
            assert(views_of(r@) =~~= spec_commit_plan(*self));
        }
        r
    }
}


/// The one-shot add command's arguments: a name and optional associated
/// records, each given as plain text.
#[derive(Clone, Debug, PartialEq)]
pub struct AddArgs {
    pub name: String,
    pub tier: Option<String>,
    pub phone: Option<String>,
    pub email: Option<String>,
    pub bday: Option<String>,
    pub wedding: Option<String>,
    pub relation: Option<String>,
    pub met: Option<String>,
    pub from: Option<String>,
    pub address: Option<String>,
}

/// The date field whose text did not read as a date, halting the chain there.
#[derive(Clone, Copy, Debug, PartialEq, Eq, Structural)]
pub enum AddHalt {
    Bday,
    Wedding,
    Met,
}

/// The planned tier row, when the add command names a circle.
pub open spec fn spec_tier_seg(args: AddArgs) -> Seq<PlanStepView> {
    match args.tier {
        Some(t) => seq![
            PlanStepView::CreateTier { who: PersonRef::Created(0), name: t@, window: None },
        ],
        None => Seq::empty(),
    }
}

/// A planned contact row with the given type and the `primary` designator.
pub open spec fn spec_contact_seg(field: Option<String>, typ: Seq<char>) -> Seq<PlanStepView> {
    match field {
        Some(p) => seq![
            PlanStepView::CreateContact {
                who: PersonRef::Created(0),
                typ,
                designator: Some("primary"@),
                value: p@,
            },
        ],
        None => Seq::empty(),
    }
}

/// A planned recurring date with the given event name, when the field was
/// given and its text read as a date.
pub open spec fn spec_date_seg(
    given: bool,
    parsed: Option<Date>,
    event: Seq<char>,
    do_remind: bool,
) -> Seq<PlanStepView> {
    if given {
        seq![
            PlanStepView::CreateSigDate {
                who: PersonRef::Created(0),
                date: parsed->0,
                event,
                do_remind,
            },
        ]
    } else {
        Seq::empty()
    }
}

/// The planned relation from the self person to the new person.
pub open spec fn spec_relation_seg(args: AddArgs) -> Seq<PlanStepView> {
    match args.relation {
        Some(rel) => seq![
            PlanStepView::CreateRelation {
                a: PersonRef::Me,
                b: PersonRef::Created(0),
                typ: rel@,
                entered: None,
            },
        ],
        None => Seq::empty(),
    }
}

/// The planned origin trait.
pub open spec fn spec_from_seg(args: AddArgs) -> Seq<PlanStepView> {
    match args.from {
        Some(f) => seq![
            PlanStepView::CreateTrait {
                who: PersonRef::Created(0),
                key: "from"@,
                value: f@,
                hidden: false,
            },
        ],
        None => Seq::empty(),
    }
}

/// The plan the add command runs: the new person, then each given field in
/// order. A date text that does not parse halts the chain at that field, as
/// the steps already planned stand; `bday`, `wedding` and `met` carry what the
/// date parser made of the respective texts.
pub open spec fn spec_add_plan(
    args: AddArgs,
    bday: Option<Date>,
    wedding: Option<Date>,
    met: Option<Date>,
) -> (Seq<PlanStepView>, Option<AddHalt>) {
    let s = seq![PlanStepView::CreatePerson { name: args.name@ }];
    let s = match args.tier {
        Some(t) => s.push(
            PlanStepView::CreateTier { who: PersonRef::Created(0), name: t@, window: None },
        ),
        None => s,
    };
    let s = match args.phone {
        Some(p) => s.push(
            PlanStepView::CreateContact {
                who: PersonRef::Created(0),
                typ: "phone"@,
                designator: Some("primary"@),
                value: p@,
            },
        ),
        None => s,
    };
    let s = match args.email {
        Some(p) => s.push(
            PlanStepView::CreateContact {
                who: PersonRef::Created(0),
                typ: "email"@,
                designator: Some("primary"@),
                value: p@,
            },
        ),
        None => s,
    };
    if args.bday is Some && bday is None {
        (s, Some(AddHalt::Bday))
    } else {
        let s = if args.bday is Some {
            s.push(
                PlanStepView::CreateSigDate {
                    who: PersonRef::Created(0),
                    date: bday->0,
                    event: "birthday"@,
                    do_remind: true,
                },
            )
        } else {
            s
        };
        if args.wedding is Some && wedding is None {
            (s, Some(AddHalt::Wedding))
        } else {
            let s = if args.wedding is Some {
                s.push(
                    PlanStepView::CreateSigDate {
                        who: PersonRef::Created(0),
                        date: wedding->0,
                        event: "wedding"@,
                        do_remind: false,
                    },
                )
            } else {
                s
            };
            let s = match args.relation {
                Some(rel) => s.push(
                    PlanStepView::CreateRelation {
                        a: PersonRef::Me,
                        b: PersonRef::Created(0),
                        typ: rel@,
                        entered: None,
                    },
                ),
                None => s,
            };
            if args.met is Some && met is None {
                (s, Some(AddHalt::Met))
            } else {
                let s = if args.met is Some {
                    s.push(
                        PlanStepView::CreateSigDate {
                            who: PersonRef::Created(0),
                            date: met->0,
                            event: "met"@,
                            do_remind: false,
                        },
                    )
                } else {
                    s
                };
                let s = match args.from {
                    Some(f) => s.push(
                        PlanStepView::CreateTrait {
                            who: PersonRef::Created(0),
                            key: "from"@,
                            value: f@,
                            hidden: false,
                        },
                    ),
                    None => s,
                };
                let s = match args.address {
                    Some(a) => s.push(
                        PlanStepView::CreateContact {
                            who: PersonRef::Created(0),
                            typ: "address"@,
                            designator: Some("primary"@),
                            value: a@,
                        },
                    ),
                    None => s,
                };
                (s, None)
            }
        }
    }
}

fn push_step(s: &mut Vec<PlanStep>, x: PlanStep)
    ensures
        views_of(final(s)@) == views_of(old(s)@).push(x@),
{
    let ghost xv = x@;
    s.push(x);
    proof {
        assert(views_of(s@) =~~= views_of(old(s)@).push(xv));
    }
}

/// Plans the add command's store operations from its arguments and the date
/// parser's reading of the three date texts.
pub fn add_plan(args: &AddArgs, bday: Option<Date>, wedding: Option<Date>, met: Option<Date>) -> (r:
    (Vec<PlanStep>, Option<AddHalt>))
    ensures
        (views_of(r.0@), r.1) == spec_add_plan(*args, bday, wedding, met),
{
    let mut s: Vec<PlanStep> = Vec::new();
    proof {
        assert(views_of(s@) =~~= Seq::<PlanStepView>::empty());
    }
    push_step(&mut s, PlanStep::CreatePerson { name: args.name.clone() });
    proof {
        assert(views_of(s@) =~~= seq![PlanStepView::CreatePerson { name: args.name@ }]);
    }
    match &args.tier {
        Some(t) => {
            push_step(
                &mut s,
                PlanStep::CreateTier { who: PersonRef::Created(0), name: t.clone(), window: None },
            );
        },
        None => {},
    }
    match &args.phone {
        Some(p) => {
            push_step(
                &mut s,
                PlanStep::CreateContact {
                    who: PersonRef::Created(0),
                    typ: String::from_str("phone"),
                    designator: Some(String::from_str("primary")),
                    value: p.clone(),
                },
            );
        },
        None => {},
    }
    match &args.email {
        Some(p) => {
            push_step(
                &mut s,
                PlanStep::CreateContact {
                    who: PersonRef::Created(0),
                    typ: String::from_str("email"),
                    designator: Some(String::from_str("primary")),
                    value: p.clone(),
                },
            );
        },
        None => {},
    }
    if args.bday.is_some() {
        match bday {
            Some(d) => {
                push_step(
                    &mut s,
                    PlanStep::CreateSigDate {
                        who: PersonRef::Created(0),
                        date: d,
                        event: String::from_str("birthday"),
                        do_remind: true,
                    },
                );
            },
            None => {
                return (s, Some(AddHalt::Bday));
            },
        }
    }
    if args.wedding.is_some() {
        match wedding {
            Some(d) => {
                push_step(
                    &mut s,
                    PlanStep::CreateSigDate {
                        who: PersonRef::Created(0),
                        date: d,
                        event: String::from_str("wedding"),
                        do_remind: false,
                    },
                );
            },
            None => {
                return (s, Some(AddHalt::Wedding));
            },
        }
    }
    match &args.relation {
        Some(rel) => {
            push_step(
                &mut s,
                PlanStep::CreateRelation {
                    a: PersonRef::Me,
                    b: PersonRef::Created(0),
                    typ: rel.clone(),
                    entered: None,
                },
            );
        },
        None => {},
    }
    if args.met.is_some() {
        match met {
            Some(d) => {
                push_step(
                    &mut s,
                    PlanStep::CreateSigDate {
                        who: PersonRef::Created(0),
                        date: d,
                        event: String::from_str("met"),
                        do_remind: false,
                    },
                );
            },
            None => {
                return (s, Some(AddHalt::Met));
            },
        }
    }
    match &args.from {
        Some(f) => {
            push_step(
                &mut s,
                PlanStep::CreateTrait {
                    who: PersonRef::Created(0),
                    key: String::from_str("from"),
                    value: f.clone(),
                    hidden: false,
                },
            );
        },
        None => {},
    }
    match &args.address {
        Some(a) => {
            push_step(
                &mut s,
                PlanStep::CreateContact {
                    who: PersonRef::Created(0),
                    typ: String::from_str("address"),
                    designator: Some(String::from_str("primary")),
                    value: a.clone(),
                },
            );
        },
        None => {},
    }
    (s, None)
}

/// The plan through the birthplace segment.
pub open spec fn spec_commit_plan_prefix3(w: Init) -> Seq<PlanStepView> {
    seq![PlanStepView::CreateSelf { name: w.name@ }] + spec_alias_steps(w.nicks.deep_view()) + (
    match w.bday {
        Some(d) => seq![
            PlanStepView::CreateSigDate {
                who: PersonRef::Me,
                date: d,
                event: "birthday"@,
                do_remind: true,
            },
        ],
        None => Seq::empty(),
    }) + (if w.birthplace@.len() > 0 {
        seq![
            PlanStepView::CreateContact {
                who: PersonRef::Me,
                typ: "address"@,
                designator: None,
                value: w.birthplace@,
            },
        ]
    } else {
        Seq::empty()
    })
}

/// The plan through the parents segment.
pub open spec fn spec_commit_plan_prefix4(w: Init) -> Seq<PlanStepView> {
    spec_commit_plan_prefix3(w) + spec_people_steps(w.of_ppl.deep_view(), "parent"@, w.bday, 0)
}

/// The plan through the siblings segment.
pub open spec fn spec_commit_plan_prefix5(w: Init) -> Seq<PlanStepView> {
    spec_commit_plan_prefix4(w) + spec_people_steps(
        w.with_ppl.deep_view(),
        "sibling"@,
        None,
        w.of_ppl@.len() as int,
    )
}

/// The plan through the circle-catalog segment.
pub open spec fn spec_commit_plan_prefix6(w: Init) -> Seq<PlanStepView> {
    spec_commit_plan_prefix5(w) + spec_tier_default_steps(w.tier_list@)
}

} // verus!
