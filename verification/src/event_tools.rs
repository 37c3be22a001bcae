//! The event-building tools: each turns its arguments into one event and
//! adds it to the scenario, refusing a name that is already taken.

use vstd::prelude::*;

use crate::scenario::{
    AmountData, EffectData, EventData, IntervalData, LotMethodData, OffsetData, TriggerData,
    WithdrawalStrategyData,
};
use crate::state::ScenarioState;
use crate::text::{concat2, concat3, decimal, push_decimal, same_text};
use crate::tools::{answers, rejects, text_reply, ToolReply};
use crate::validator::{event_names, opt_text};

verus! {

// ── Parsing of option strings ─────────────────────────────────────────────

/// The schedule named by `s`; monthly for an unknown name.
pub open spec fn interval_named(s: Seq<char>) -> IntervalData {
    if s == "weekly"@ {
        IntervalData::Weekly
    } else if s == "biweekly"@ {
        IntervalData::BiWeekly
    } else if s == "monthly"@ {
        IntervalData::Monthly
    } else if s == "quarterly"@ {
        IntervalData::Quarterly
    } else if s == "yearly"@ {
        IntervalData::Yearly
    } else {
        IntervalData::Monthly
    }
}

/// The schedule named by `s`; monthly for an unknown name.
pub fn parse_interval(s: &str) -> (r: IntervalData)
    ensures
        r == interval_named(s@),
{
    if same_text(s, "weekly") {
        IntervalData::Weekly
    } else if same_text(s, "biweekly") {
        IntervalData::BiWeekly
    } else if same_text(s, "monthly") {
        IntervalData::Monthly
    } else if same_text(s, "quarterly") {
        IntervalData::Quarterly
    } else if same_text(s, "yearly") {
        IntervalData::Yearly
    } else {
        IntervalData::Monthly
    }
}

/// The lot method named by `s`; FIFO when absent or unknown.
pub open spec fn lot_method_named(s: Option<Seq<char>>) -> LotMethodData {
    match s {
        Some(x) => if x == "lifo"@ {
            LotMethodData::Lifo
        } else if x == "highest_cost"@ {
            LotMethodData::HighestCost
        } else if x == "lowest_cost"@ {
            LotMethodData::LowestCost
        } else if x == "average_cost"@ {
            LotMethodData::AverageCost
        } else {
            LotMethodData::Fifo
        },
        None => LotMethodData::Fifo,
    }
}

/// The lot method named by `s`; FIFO when absent or unknown.
pub fn parse_lot_method(s: Option<&str>) -> (r: LotMethodData)
    ensures
        r == lot_method_named(match s {
            Some(x) => Some(x@),
            None => None,
        }),
{
    match s {
        Some(x) => if same_text(x, "lifo") {
            LotMethodData::Lifo
        } else if same_text(x, "highest_cost") {
            LotMethodData::HighestCost
        } else if same_text(x, "lowest_cost") {
            LotMethodData::LowestCost
        } else if same_text(x, "average_cost") {
            LotMethodData::AverageCost
        } else {
            LotMethodData::Fifo
        },
        None => LotMethodData::Fifo,
    }
}

/// The withdrawal strategy named by `s`; penalty-aware when absent or unknown.
pub open spec fn strategy_named(s: Option<Seq<char>>) -> WithdrawalStrategyData {
    match s {
        Some(x) => if x == "tax_efficient"@ {
            WithdrawalStrategyData::TaxEfficient
        } else if x == "tax_deferred_first"@ {
            WithdrawalStrategyData::TaxDeferredFirst
        } else if x == "tax_free_first"@ {
            WithdrawalStrategyData::TaxFreeFirst
        } else if x == "pro_rata"@ {
            WithdrawalStrategyData::ProRata
        } else {
            WithdrawalStrategyData::PenaltyAware
        },
        None => WithdrawalStrategyData::PenaltyAware,
    }
}

fn parse_strategy(s: &Option<String>) -> (r: WithdrawalStrategyData)
    ensures
        r == strategy_named(opt_text(*s)),
{
    match s {
        Some(x) => {
            let x = x.as_str();
            if same_text(x, "tax_efficient") {
                WithdrawalStrategyData::TaxEfficient
            } else if same_text(x, "tax_deferred_first") {
                WithdrawalStrategyData::TaxDeferredFirst
            } else if same_text(x, "tax_free_first") {
                WithdrawalStrategyData::TaxFreeFirst
            } else if same_text(x, "pro_rata") {
                WithdrawalStrategyData::ProRata
            } else {
                WithdrawalStrategyData::PenaltyAware
            }
        },
        None => WithdrawalStrategyData::PenaltyAware,
    }
}

fn lot_method_of(s: &Option<String>) -> (r: LotMethodData)
    ensures
        r == lot_method_named(opt_text(*s)),
{
    match s {
        Some(x) => parse_lot_method(Some(x.as_str())),
        None => parse_lot_method(None),
    }
}

// ── Building blocks ───────────────────────────────────────────────────────

/// A trigger that fires when another event fires.
pub open spec fn when_event(e: String) -> TriggerData {
    TriggerData::RelativeToEvent { event: e, offset: OffsetData::Months { value: 0 } }
}

/// A trigger that fires at an age; the age is truncated to eight bits.
pub open spec fn at_age(age: u64) -> TriggerData {
    TriggerData::Age { years: (age % 256) as u8, months: None }
}

/// A fixed amount, wrapped for inflation when asked.
pub open spec fn fixed_amount(bits: u64, inflation_adjusted: bool) -> AmountData {
    if inflation_adjusted {
        AmountData::InflationAdjusted { inner: Box::new(AmountData::Fixed { value_bits: bits }) }
    } else {
        AmountData::Fixed { value_bits: bits }
    }
}

/// A repeating trigger with optional start and end and no occurrence cap.
pub open spec fn repeating(
    interval: IntervalData,
    start: Option<TriggerData>,
    end: Option<TriggerData>,
) -> TriggerData {
    TriggerData::Repeating {
        interval,
        start: match start {
            Some(t) => Some(Box::new(t)),
            None => None,
        },
        end: match end {
            Some(t) => Some(Box::new(t)),
            None => None,
        },
        max_occurrences: None,
    }
}

fn relative_trigger(e: String) -> (r: TriggerData)
    ensures
        r == when_event(e),
{
    TriggerData::RelativeToEvent { event: e, offset: OffsetData::Months { value: 0 } }
}

fn age_trigger(age: u64) -> (r: TriggerData)
    ensures
        r == at_age(age),
{
    TriggerData::Age { years: (age % 256) as u8, months: None }
}

fn amount_of(bits: u64, inflation_adjusted: bool) -> (r: AmountData)
    ensures
        r == fixed_amount(bits, inflation_adjusted),
{
    if inflation_adjusted {
        AmountData::InflationAdjusted { inner: Box::new(AmountData::Fixed { value_bits: bits }) }
    } else {
        AmountData::Fixed { value_bits: bits }
    }
}

fn repeating_trigger(
    interval: IntervalData,
    start: Option<TriggerData>,
    end: Option<TriggerData>,
) -> (r: TriggerData)
    ensures
        r == repeating(interval, start, end),
{
    TriggerData::Repeating {
        interval,
        start: match start {
            Some(t) => Some(Box::new(t)),
            None => None,
        },
        end: match end {
            Some(t) => Some(Box::new(t)),
            None => None,
        },
        max_occurrences: None,
    }
}

/// `o` mapped through `f`.
pub open spec fn map_opt<A, B>(o: Option<A>, f: spec_fn(A) -> B) -> Option<B> {
    match o {
        Some(a) => Some(f(a)),
        None => None,
    }
}

// ── Adding an event ───────────────────────────────────────────────────────

/// An event as the tools describe it: name, description, trigger, the
/// condition its effects meet, once, enabled.
pub struct EventShape {
    pub name: Seq<char>,
    pub description: Option<Seq<char>>,
    pub trigger: TriggerData,
    pub effects: spec_fn(Seq<EffectData>) -> bool,
    pub once: bool,
    pub enabled: bool,
}

/// `e` has the shape `s`.
pub open spec fn has_shape(e: EventData, s: EventShape) -> bool {
    &&& e.name@ == s.name
    &&& opt_text(e.description) == s.description
    &&& e.trigger == s.trigger
    &&& (s.effects)(e.effects@)
    &&& e.once == s.once
    &&& e.enabled == s.enabled
}

/// The effects are exactly `es`.
pub open spec fn exactly(es: Seq<EffectData>) -> spec_fn(Seq<EffectData>) -> bool {
    |x: Seq<EffectData>| x == es
}

/// The outcome of adding an event of shape `s` to `before`, giving
/// `after`: refused when its name is taken, else appended, with `reply`.
pub open spec fn adds_event<R, M, W>(
    r: Result<ToolReply, String>,
    before: ScenarioState<R, M, W>,
    after: ScenarioState<R, M, W>,
    s: EventShape,
    reply: Seq<char>,
) -> bool {
    if event_names(before.events@).contains(s.name) {
        rejects(r, "Event \""@ + s.name + "\" already exists"@) && after == before
    } else {
        &&& answers(r, reply, false)
        &&& after.events@.len() == before.events@.len() + 1
        &&& after.events@.drop_last() == before.events@
        &&& has_shape(after.events@.last(), s)
        &&& after.same_except_events(&before)
        &&& after.caches_clear()
    }
}

/// Adding an event keeps the event names distinct: when no two events of
/// the scenario share a name before an event tool runs, none do after.
pub proof fn adding_event_keeps_names_distinct<R, M, W>(
    r: Result<ToolReply, String>,
    before: ScenarioState<R, M, W>,
    after: ScenarioState<R, M, W>,
    s: EventShape,
    reply: Seq<char>,
)
    requires
        adds_event(r, before, after, s, reply),
        event_names(before.events@).no_duplicates(),
    ensures
        event_names(after.events@).no_duplicates(),
{
    if !event_names(before.events@).contains(s.name) {
        let b = event_names(before.events@);
        let a = event_names(after.events@);
        assert(after.events@ =~= before.events@.push(after.events@.last()));
        assert(a =~= b.push(s.name));
        assert forall|i: int, j: int| 0 <= i < a.len() && 0 <= j < a.len() && i != j implies a[i] != a[j] by {
            if i < b.len() && j < b.len() {
                assert(a[i] == b[i] && a[j] == b[j]);
            } else if i == b.len() {
                assert(a[j] == b[j]);
            } else {
                assert(a[i] == b[i]);
            }
        }
    }
}

/// Add an event unless one of the same name exists.
pub fn add_event<R, M, W>(state: &mut ScenarioState<R, M, W>, event: EventData) -> (r: Result<
    (),
    String,
>)
    ensures
        event_names(old(state).events@).contains(event.name@) ==> rejects(
            r,
            "Event \""@ + event.name@ + "\" already exists"@,
        ) && *final(state) == *old(state),
        !event_names(old(state).events@).contains(event.name@) ==> {
            &&& r is Ok
            &&& final(state).events@ == old(state).events@.push(event)
            &&& final(state).same_except_events(old(state))
            &&& final(state).caches_clear()
        },
{
    for j in 0..state.events.len()
        invariant
            forall|k: int| 0 <= k < j ==> event_names(state.events@)[k] != event.name@,
    {
        if state.events[j].name == event.name {
            proof {
                assert(event_names(state.events@)[j as int] == event.name@);
            }
            return Err(concat3("Event \"", event.name.as_str(), "\" already exists"));
        }
    }
    state.events.push(event);
    state.invalidate_simulation_cache();
    Ok(())
}

fn add_shaped_event<R, M, W>(
    state: &mut ScenarioState<R, M, W>,
    event: EventData,
    text: String,
    Ghost(s): Ghost<EventShape>,
) -> (r: Result<ToolReply, String>)
    requires
        has_shape(event, s),
    ensures
        adds_event(r, *old(state), *final(state), s, text@),
{
    let ghost before = *state;
    match add_event(state, event) {
        Ok(()) => {
            proof {
                assert(state.events@.drop_last() =~= before.events@);
            }
            Ok(text_reply(text))
        },
        Err(e) => Err(e),
    }
}

// ── add_income_event ──────────────────────────────────────────────────────

/// The arguments of `add_income_event`.
#[derive(Debug)]
pub struct IncomeArgs {
    pub name: Option<String>,
    pub to_account: Option<String>,
    pub amount_bits: Option<u64>,
    pub interval: Option<String>,
    pub gross: Option<bool>,
    pub taxable: Option<bool>,
    pub inflation_adjusted: Option<bool>,
    pub end_event: Option<String>,
    pub start_age: Option<u64>,
}

/// `o`'s value, or `d` when it has none.
pub open spec fn or_else<T>(o: Option<T>, d: T) -> T {
    match o {
        Some(v) => v,
        None => d,
    }
}

/// The interval an optional name selects, with a default.
pub open spec fn interval_or(o: Option<String>, d: IntervalData) -> IntervalData {
    match o {
        Some(s) => interval_named(s@),
        None => d,
    }
}

fn interval_arg(o: &Option<String>, d: IntervalData) -> (r: IntervalData)
    ensures
        r == interval_or(*o, d),
{
    match o {
        Some(s) => parse_interval(s.as_str()),
        None => d,
    }
}

/// The income event: repeating (every two weeks by default) from the
/// optional start age until the optional end event, paying the amount
/// (inflation-adjusted by default, gross and taxable by default) into the
/// account.
pub open spec fn income_shape(a: IncomeArgs) -> EventShape {
    EventShape {
        name: a.name->Some_0@,
        description: None,
        trigger: repeating(
            interval_or(a.interval, IntervalData::BiWeekly),
            map_opt(a.start_age, |age: u64| at_age(age)),
            map_opt(a.end_event, |e: String| when_event(e)),
        ),
        effects: exactly(
            seq![
                EffectData::Income {
                    to: a.to_account->Some_0,
                    amount: fixed_amount(a.amount_bits->Some_0, or_else(a.inflation_adjusted, true)),
                    gross: or_else(a.gross, true),
                    taxable: or_else(a.taxable, true),
                },
            ],
        ),
        once: false,
        enabled: true,
    }
}

/// Add a recurring income event.  The name, the receiving account and the
/// amount are required.
pub fn add_income_event<R, M, W>(state: &mut ScenarioState<R, M, W>, args: IncomeArgs) -> (r:
    Result<ToolReply, String>)
    ensures
        if args.name is None {
            rejects(r, "name is required"@) && *final(state) == *old(state)
        } else if args.to_account is None {
            rejects(r, "to_account is required"@) && *final(state) == *old(state)
        } else if args.amount_bits is None {
            rejects(r, "amount is required"@) && *final(state) == *old(state)
        } else {
            adds_event(
                r,
                *old(state),
                *final(state),
                income_shape(args),
                "Added income event \""@ + args.name->Some_0@ + "\" → "@ + args.to_account->Some_0@,
            )
        },
{
    let ghost shape = income_shape(args);
    let name = match args.name {
        Some(n) => n,
        None => {
            return Err(String::from_str("name is required"));
        },
    };
    let to_account = match args.to_account {
        Some(a) => a,
        None => {
            return Err(String::from_str("to_account is required"));
        },
    };
    let amount_bits = match args.amount_bits {
        Some(b) => b,
        None => {
            return Err(String::from_str("amount is required"));
        },
    };
    let interval = interval_arg(&args.interval, IntervalData::BiWeekly);
    let gross = match args.gross {
        Some(b) => b,
        None => true,
    };
    let taxable = match args.taxable {
        Some(b) => b,
        None => true,
    };
    let inflation_adjusted = match args.inflation_adjusted {
        Some(b) => b,
        None => true,
    };
    let amount = amount_of(amount_bits, inflation_adjusted);
    let end = match args.end_event {
        Some(e) => Some(relative_trigger(e)),
        None => None,
    };
    let start = match args.start_age {
        Some(age) => Some(age_trigger(age)),
        None => None,
    };
    let trigger = repeating_trigger(interval, start, end);
    let mut text = concat3("Added income event \"", name.as_str(), "\" → ");
    text.append(to_account.as_str());
    let event = EventData {
        name,
        description: None,
        trigger,
        effects: vec![EffectData::Income { to: to_account, amount, gross, taxable }],
        once: false,
        enabled: true,
    };
    proof {
        assert(event.effects@ =~= seq![EffectData::Income { to: args.to_account->Some_0, amount, gross, taxable }]);
    }
    add_shaped_event(state, event, text, Ghost(shape))
}

// ── add_expense_event ─────────────────────────────────────────────────────

/// The arguments of `add_expense_event`.
#[derive(Debug)]
pub struct ExpenseArgs {
    pub name: Option<String>,
    pub from_account: Option<String>,
    pub amount_bits: Option<u64>,
    pub interval: Option<String>,
    pub inflation_adjusted: Option<bool>,
    pub end_event: Option<String>,
    pub start_event: Option<String>,
    pub start_age: Option<u64>,
}

/// The start of an expense: the start event when given, else the start age.
pub open spec fn expense_start(a: ExpenseArgs) -> Option<TriggerData> {
    match a.start_event {
        Some(e) => Some(when_event(e)),
        None => map_opt(a.start_age, |age: u64| at_age(age)),
    }
}

/// The expense event: repeating (monthly by default) from its start until
/// the optional end event, paying the amount (inflation-adjusted by
/// default) from the account.
pub open spec fn expense_shape(a: ExpenseArgs) -> EventShape {
    EventShape {
        name: a.name->Some_0@,
        description: None,
        trigger: repeating(
            interval_or(a.interval, IntervalData::Monthly),
            expense_start(a),
            map_opt(a.end_event, |e: String| when_event(e)),
        ),
        effects: exactly(
            seq![
                EffectData::Expense {
                    from: a.from_account->Some_0,
                    amount: fixed_amount(a.amount_bits->Some_0, or_else(a.inflation_adjusted, true)),
                },
            ],
        ),
        once: false,
        enabled: true,
    }
}

/// An expense starts when its start event fires, else at its start age
/// (truncated to eight bits), else right away; it ends when its end event
/// fires, else never.
pub proof fn expense_starts_as_asked(a: ExpenseArgs)
    ensures
        match expense_shape(a).trigger {
            TriggerData::Repeating { start, end, max_occurrences, .. } => {
                &&& start == match a.start_event {
                    Some(e) => Some(
                        Box::new(
                            TriggerData::RelativeToEvent {
                                event: e,
                                offset: OffsetData::Months { value: 0 },
                            },
                        ),
                    ),
                    None => match a.start_age {
                        Some(n) => Some(
                            Box::new(TriggerData::Age { years: (n % 256) as u8, months: None }),
                        ),
                        None => None,
                    },
                }
                &&& end == match a.end_event {
                    Some(e) => Some(
                        Box::new(
                            TriggerData::RelativeToEvent {
                                event: e,
                                offset: OffsetData::Months { value: 0 },
                            },
                        ),
                    ),
                    None => None,
                }
                &&& max_occurrences is None
            },
            _ => false,
        },
{
}

/// Add a recurring expense event.  The name, the paying account and the
/// amount are required.
pub fn add_expense_event<R, M, W>(state: &mut ScenarioState<R, M, W>, args: ExpenseArgs) -> (r:
    Result<ToolReply, String>)
    ensures
        if args.name is None {
            rejects(r, "name is required"@) && *final(state) == *old(state)
        } else if args.from_account is None {
            rejects(r, "from_account is required"@) && *final(state) == *old(state)
        } else if args.amount_bits is None {
            rejects(r, "amount is required"@) && *final(state) == *old(state)
        } else {
            adds_event(
                r,
                *old(state),
                *final(state),
                expense_shape(args),
                "Added expense event \""@ + args.name->Some_0@ + "\" from "@
                    + args.from_account->Some_0@,
            )
        },
{
    let ghost shape = expense_shape(args);
    let name = match args.name {
        Some(n) => n,
        None => {
            return Err(String::from_str("name is required"));
        },
    };
    let from_account = match args.from_account {
        Some(a) => a,
        None => {
            return Err(String::from_str("from_account is required"));
        },
    };
    let amount_bits = match args.amount_bits {
        Some(b) => b,
        None => {
            return Err(String::from_str("amount is required"));
        },
    };
    let interval = interval_arg(&args.interval, IntervalData::Monthly);
    let inflation_adjusted = match args.inflation_adjusted {
        Some(b) => b,
        None => true,
    };
    let amount = amount_of(amount_bits, inflation_adjusted);
    let end = match args.end_event {
        Some(e) => Some(relative_trigger(e)),
        None => None,
    };
    let start = match args.start_event {
        Some(e) => Some(relative_trigger(e)),
        None => match args.start_age {
            Some(age) => Some(age_trigger(age)),
            None => None,
        },
    };
    let trigger = repeating_trigger(interval, start, end);
    let mut text = concat3("Added expense event \"", name.as_str(), "\" from ");
    text.append(from_account.as_str());
    let event = EventData {
        name,
        description: None,
        trigger,
        effects: vec![EffectData::Expense { from: from_account, amount }],
        once: false,
        enabled: true,
    };
    proof {
        assert(event.effects@ =~= seq![EffectData::Expense { from: args.from_account->Some_0, amount }]);
    }
    add_shaped_event(state, event, text, Ghost(shape))
}

// ── add_retirement_event ──────────────────────────────────────────────────

/// The retirement milestone: a once-only event at the age (truncated to
/// eight bits), with no effects, for other events to refer to.
pub open spec fn retirement_shape(name: String, age: u64) -> EventShape {
    EventShape {
        name: name@,
        description: Some("Retirement milestone"@),
        trigger: at_age(age),
        effects: exactly(seq![]),
        once: true,
        enabled: true,
    }
}

/// The reply of `add_retirement_event`.
pub open spec fn retirement_text(name: Seq<char>, age: u64) -> Seq<char> {
    "Added retirement event \""@ + name + "\" at age "@ + decimal((age % 256) as nat)
        + ". Other events can reference this as end_event/start_event."@
}

/// Add a retirement milestone event; the name defaults to "Retirement" and
/// the age is required.
pub fn add_retirement_event<R, M, W>(
    state: &mut ScenarioState<R, M, W>,
    name: Option<String>,
    age: Option<u64>,
) -> (r: Result<ToolReply, String>)
    ensures
        age is None ==> rejects(r, "age is required"@) && *final(state) == *old(state),
        age matches Some(a) ==> exists|n: String|
            (match name {
                Some(x) => n == x,
                None => n@ == "Retirement"@,
            }) && adds_event(
                r,
                *old(state),
                *final(state),
                retirement_shape(n, a),
                retirement_text(n@, a),
            ),
{
    let name = match name {
        Some(n) => n,
        None => String::from_str("Retirement"),
    };
    let age = match age {
        Some(a) => a,
        None => {
            return Err(String::from_str("age is required"));
        },
    };
    let ghost shape = retirement_shape(name, age);
    let ghost n = name;
    let years = (age % 256) as u8;
    let mut text = concat3("Added retirement event \"", name.as_str(), "\" at age ");
    push_decimal(&mut text, years as usize);
    text.append(". Other events can reference this as end_event/start_event.");
    let event = EventData {
        name,
        description: Some(String::from_str("Retirement milestone")),
        trigger: age_trigger(age),
        effects: Vec::new(),
        once: true,
        enabled: true,
    };
    proof {
        assert(event.effects@ =~= Seq::<EffectData>::empty());
    }
    add_shaped_event(state, event, text, Ghost(shape))
}

// ── add_contribution_event ────────────────────────────────────────────────

/// The arguments of `add_contribution_event`.
#[derive(Debug)]
pub struct ContributionArgs {
    pub name: Option<String>,
    pub from_account: Option<String>,
    pub to_account: Option<String>,
    pub asset: Option<String>,
    pub amount_bits: Option<u64>,
    pub interval: Option<String>,
    pub end_event: Option<String>,
}

/// The contribution event: repeating (yearly by default) until the
/// optional end event, buying the asset for the fixed amount.
pub open spec fn contribution_shape(a: ContributionArgs) -> EventShape {
    EventShape {
        name: a.name->Some_0@,
        description: None,
        trigger: repeating(
            interval_or(a.interval, IntervalData::Yearly),
            None,
            map_opt(a.end_event, |e: String| when_event(e)),
        ),
        effects: exactly(
            seq![
                EffectData::AssetPurchase {
                    from: a.from_account->Some_0,
                    to_account: a.to_account->Some_0,
                    asset: a.asset->Some_0,
                    amount: AmountData::Fixed { value_bits: a.amount_bits->Some_0 },
                },
            ],
        ),
        once: false,
        enabled: true,
    }
}

/// Add a recurring investment contribution.  The name, both accounts, the
/// asset and the amount are required.
pub fn add_contribution_event<R, M, W>(
    state: &mut ScenarioState<R, M, W>,
    args: ContributionArgs,
) -> (r: Result<ToolReply, String>)
    ensures
        if args.name is None {
            rejects(r, "name is required"@) && *final(state) == *old(state)
        } else if args.from_account is None {
            rejects(r, "from_account is required"@) && *final(state) == *old(state)
        } else if args.to_account is None {
            rejects(r, "to_account is required"@) && *final(state) == *old(state)
        } else if args.asset is None {
            rejects(r, "asset is required"@) && *final(state) == *old(state)
        } else if args.amount_bits is None {
            rejects(r, "amount is required"@) && *final(state) == *old(state)
        } else {
            adds_event(
                r,
                *old(state),
                *final(state),
                contribution_shape(args),
                "Added contribution event \""@ + args.name->Some_0@ + "\" → "@
                    + args.asset->Some_0@ + " in "@ + args.to_account->Some_0@,
            )
        },
{
    let ghost shape = contribution_shape(args);
    let name = match args.name {
        Some(n) => n,
        None => {
            return Err(String::from_str("name is required"));
        },
    };
    let from_account = match args.from_account {
        Some(a) => a,
        None => {
            return Err(String::from_str("from_account is required"));
        },
    };
    let to_account = match args.to_account {
        Some(a) => a,
        None => {
            return Err(String::from_str("to_account is required"));
        },
    };
    let asset = match args.asset {
        Some(a) => a,
        None => {
            return Err(String::from_str("asset is required"));
        },
    };
    let amount_bits = match args.amount_bits {
        Some(b) => b,
        None => {
            return Err(String::from_str("amount is required"));
        },
    };
    let interval = interval_arg(&args.interval, IntervalData::Yearly);
    let end = match args.end_event {
        Some(e) => Some(relative_trigger(e)),
        None => None,
    };
    let trigger = repeating_trigger(interval, None, end);
    let mut text = concat3("Added contribution event \"", name.as_str(), "\" → ");
    text.append(asset.as_str());
    text.append(" in ");
    text.append(to_account.as_str());
    let event = EventData {
        name,
        description: None,
        trigger,
        effects: vec![
            EffectData::AssetPurchase {
                from: from_account,
                to_account,
                asset,
                amount: AmountData::Fixed { value_bits: amount_bits },
            },
        ],
        once: false,
        enabled: true,
    };
    proof {
        assert(event.effects@ =~= seq![
            EffectData::AssetPurchase {
                from: args.from_account->Some_0,
                to_account: args.to_account->Some_0,
                asset: args.asset->Some_0,
                amount: AmountData::Fixed { value_bits: amount_bits },
            },
        ]);
    }
    add_shaped_event(state, event, text, Ghost(shape))
}

// ── add_sweep_event ───────────────────────────────────────────────────────

/// The arguments of `add_sweep_event`.  `target_display` is the target
/// balance written as whole dollars, for the reply.
#[derive(Debug)]
pub struct SweepEventArgs {
    pub name: Option<String>,
    pub to_account: Option<String>,
    pub target_bits: Option<u64>,
    pub target_display: String,
    pub interval: Option<String>,
    pub strategy: Option<String>,
    pub gross: Option<bool>,
    pub lot_method: Option<String>,
    pub start_event: Option<String>,
}

/// The single sweep effect of a sweep event.
pub open spec fn is_sweep_effect(es: Seq<EffectData>, a: SweepEventArgs) -> bool {
    &&& es.len() == 1
    &&& es[0] matches EffectData::Sweep {
        to,
        amount,
        strategy,
        gross,
        taxable,
        lot_method,
        exclude_accounts,
    } && to == a.to_account->Some_0 && amount == (AmountData::TargetToBalance {
        target_bits: a.target_bits->Some_0,
    }) && strategy == strategy_named(opt_text(a.strategy)) && gross == or_else(a.gross, false)
        && taxable && lot_method == lot_method_named(opt_text(a.lot_method))
        && exclude_accounts@.len() == 0
}

/// The sweep event: repeating (yearly by default) from the optional start
/// event, topping the account up to the target balance.
pub open spec fn sweep_shape(a: SweepEventArgs) -> EventShape {
    EventShape {
        name: a.name->Some_0@,
        description: None,
        trigger: repeating(
            interval_or(a.interval, IntervalData::Yearly),
            map_opt(a.start_event, |e: String| when_event(e)),
            None,
        ),
        effects: |es: Seq<EffectData>| is_sweep_effect(es, a),
        once: false,
        enabled: true,
    }
}

/// Add a withdrawal sweep event.  The name, the account to fund and the
/// target balance are required; the strategy defaults to penalty-aware,
/// the lot method to FIFO, and the sweep is net of taxes by default.
pub fn add_sweep_event<R, M, W>(state: &mut ScenarioState<R, M, W>, args: SweepEventArgs) -> (r:
    Result<ToolReply, String>)
    ensures
        if args.name is None {
            rejects(r, "name is required"@) && *final(state) == *old(state)
        } else if args.to_account is None {
            rejects(r, "to_account is required"@) && *final(state) == *old(state)
        } else if args.target_bits is None {
            rejects(r, "target_balance is required"@) && *final(state) == *old(state)
        } else {
            adds_event(
                r,
                *old(state),
                *final(state),
                sweep_shape(args),
                "Added sweep event \""@ + args.name->Some_0@ + "\" → "@ + args.to_account->Some_0@
                    + " (target: $"@ + args.target_display@ + ")"@,
            )
        },
{
    let ghost shape = sweep_shape(args);
    let name = match args.name {
        Some(n) => n,
        None => {
            return Err(String::from_str("name is required"));
        },
    };
    let to_account = match args.to_account {
        Some(a) => a,
        None => {
            return Err(String::from_str("to_account is required"));
        },
    };
    let target_bits = match args.target_bits {
        Some(b) => b,
        None => {
            return Err(String::from_str("target_balance is required"));
        },
    };
    let interval = interval_arg(&args.interval, IntervalData::Yearly);
    let strategy = parse_strategy(&args.strategy);
    let gross = match args.gross {
        Some(b) => b,
        None => false,
    };
    let lot_method = lot_method_of(&args.lot_method);
    let start = match args.start_event {
        Some(e) => Some(relative_trigger(e)),
        None => None,
    };
    let trigger = repeating_trigger(interval, start, None);
    let mut text = concat3("Added sweep event \"", name.as_str(), "\" → ");
    text.append(to_account.as_str());
    text.append(" (target: $");
    text.append(args.target_display.as_str());
    text.append(")");
    let event = EventData {
        name,
        description: None,
        trigger,
        effects: vec![
            EffectData::Sweep {
                to: to_account,
                amount: AmountData::TargetToBalance { target_bits },
                strategy,
                gross,
                taxable: true,
                lot_method,
                exclude_accounts: Vec::new(),
            },
        ],
        once: false,
        enabled: true,
    };
    add_shaped_event(state, event, text, Ghost(shape))
}

// ── add_social_security_event ─────────────────────────────────────────────

/// The arguments of `add_social_security_event`.  The monthly benefit has
/// been settled by the caller (the given amount, else an estimate from the
/// annual income, else 2800.0); `monthly_display` writes it in whole
/// dollars for the reply.
#[derive(Debug)]
pub struct SocialSecurityArgs {
    pub name: Option<String>,
    pub to_account: Option<String>,
    pub start_age: Option<u64>,
    pub monthly_amount_bits: u64,
    pub monthly_display: String,
}

/// The Social Security event: monthly from the start age on, a gross and
/// taxable fixed income into the account.
pub open spec fn social_security_shape(name: String, to: String, start_age: u64, bits: u64) -> EventShape {
    EventShape {
        name: name@,
        description: Some("Social Security at age "@ + decimal((start_age % 256) as nat)),
        trigger: repeating(IntervalData::Monthly, Some(at_age(start_age)), None),
        effects: exactly(
            seq![
                EffectData::Income {
                    to,
                    amount: AmountData::Fixed { value_bits: bits },
                    gross: true,
                    taxable: true,
                },
            ],
        ),
        once: false,
        enabled: true,
    }
}

/// Add a Social Security income event.  The name defaults to "Social
/// Security", the account to "Checking" and the start age to 67.
pub fn add_social_security_event<R, M, W>(
    state: &mut ScenarioState<R, M, W>,
    args: SocialSecurityArgs,
) -> (r: Result<ToolReply, String>)
    ensures
        exists|name: String, to: String|
            {
                &&& match args.name {
                    Some(x) => name == x,
                    None => name@ == "Social Security"@,
                }
                &&& match args.to_account {
                    Some(x) => to == x,
                    None => to@ == "Checking"@,
                }
                &&& adds_event(
                    r,
                    *old(state),
                    *final(state),
                    social_security_shape(
                        name,
                        to,
                        or_else(args.start_age, 67),
                        args.monthly_amount_bits,
                    ),
                    "Added Social Security \""@ + name@ + "\" at age "@ + decimal(
                        (or_else(args.start_age, 67) % 256) as nat,
                    ) + " → "@ + to@ + " ($"@ + args.monthly_display@ + "/month)"@,
                )
            },
{
    let name = match args.name {
        Some(n) => n,
        None => String::from_str("Social Security"),
    };
    let to_account = match args.to_account {
        Some(a) => a,
        None => String::from_str("Checking"),
    };
    let start_age = match args.start_age {
        Some(a) => a,
        None => 67,
    };
    let ghost shape = social_security_shape(name, to_account, start_age, args.monthly_amount_bits);
    let ghost (n, t) = (name, to_account);
    let years = (start_age % 256) as u8;
    let mut description = String::from_str("Social Security at age ");
    push_decimal(&mut description, years as usize);
    let mut text = concat3("Added Social Security \"", name.as_str(), "\" at age ");
    push_decimal(&mut text, years as usize);
    text.append(" → ");
    text.append(to_account.as_str());
    text.append(" ($");
    text.append(args.monthly_display.as_str());
    text.append("/month)");
    let trigger = repeating_trigger(IntervalData::Monthly, Some(age_trigger(start_age)), None);
    let event = EventData {
        name,
        description: Some(description),
        trigger,
        effects: vec![
            EffectData::Income {
                to: to_account,
                amount: AmountData::Fixed { value_bits: args.monthly_amount_bits },
                gross: true,
                taxable: true,
            },
        ],
        once: false,
        enabled: true,
    };
    proof {
        assert(event.effects@ =~= seq![
            EffectData::Income {
                to: t,
                amount: AmountData::Fixed { value_bits: args.monthly_amount_bits },
                gross: true,
                taxable: true,
            },
        ]);
    }
    let ghost txt = text@;
    let r = add_shaped_event(state, event, text, Ghost(shape));
    proof {
        let body = adds_event(r, *old(state), *state, shape, txt);
        assert(body);
        assert(txt == "Added Social Security \""@ + n@ + "\" at age "@ + decimal(
            (or_else(args.start_age, 67) % 256) as nat,
        ) + " → "@ + t@ + " ($"@ + args.monthly_display@ + "/month)"@);
    }
    r
}

// ── add_rmd_event ─────────────────────────────────────────────────────────

/// The required-minimum-distribution event: yearly from the start age on.
pub open spec fn rmd_shape(name: String, destination: String, start_age: u64, lot: LotMethodData) -> EventShape {
    EventShape {
        name: name@,
        description: Some("Required Minimum Distributions"@),
        trigger: repeating(IntervalData::Yearly, Some(at_age(start_age)), None),
        effects: exactly(seq![EffectData::ApplyRmd { destination, lot_method: lot }]),
        once: false,
        enabled: true,
    }
}

/// Add a required-minimum-distribution event.  The name defaults to "RMD",
/// the destination to "Checking", the start age to 73 and the lot method
/// to FIFO.
pub fn add_rmd_event<R, M, W>(
    state: &mut ScenarioState<R, M, W>,
    name: Option<String>,
    destination: Option<String>,
    start_age: Option<u64>,
    lot_method: Option<String>,
) -> (r: Result<ToolReply, String>)
    ensures
        exists|n: String, d: String|
            {
                &&& match name {
                    Some(x) => n == x,
                    None => n@ == "RMD"@,
                }
                &&& match destination {
                    Some(x) => d == x,
                    None => d@ == "Checking"@,
                }
                &&& adds_event(
                    r,
                    *old(state),
                    *final(state),
                    rmd_shape(n, d, or_else(start_age, 73), lot_method_named(opt_text(lot_method))),
                    "Added RMD event \""@ + n@ + "\" at age "@ + decimal(
                        (or_else(start_age, 73) % 256) as nat,
                    ) + " → "@ + d@,
                )
            },
{
    let event_name = match name {
        Some(n) => n,
        None => String::from_str("RMD"),
    };
    let dest = match destination {
        Some(d) => d,
        None => String::from_str("Checking"),
    };
    let age = match start_age {
        Some(a) => a,
        None => 73,
    };
    let lot = lot_method_of(&lot_method);
    let ghost shape = rmd_shape(event_name, dest, age, lot);
    let ghost (n, d) = (event_name, dest);
    let years = (age % 256) as u8;
    let mut text = concat3("Added RMD event \"", event_name.as_str(), "\" at age ");
    push_decimal(&mut text, years as usize);
    text.append(" → ");
    text.append(dest.as_str());
    let trigger = repeating_trigger(IntervalData::Yearly, Some(age_trigger(age)), None);
    let event = EventData {
        name: event_name,
        description: Some(String::from_str("Required Minimum Distributions")),
        trigger,
        effects: vec![EffectData::ApplyRmd { destination: dest, lot_method: lot }],
        once: false,
        enabled: true,
    };
    proof {
        assert(event.effects@ =~= seq![EffectData::ApplyRmd { destination: d, lot_method: lot }]);
    }
    let ghost txt = text@;
    let r = add_shaped_event(state, event, text, Ghost(shape));
    proof {
        assert(adds_event(r, *old(state), *state, shape, txt));
        assert(match name { Some(x) => n == x, None => n@ == "RMD"@ });
        assert(match destination { Some(x) => d == x, None => d@ == "Checking"@ });
        assert(shape == rmd_shape(n, d, or_else(start_age, 73), lot_method_named(opt_text(lot_method))));
        assert(txt == "Added RMD event \""@ + n@ + "\" at age "@ + decimal(
            (age % 256) as nat,
        ) + " → "@ + d@);
    }
    r
}

// ── add_custom_event ──────────────────────────────────────────────────────

/// The arguments of `add_custom_event`.  The trigger and the effects are
/// absent, parsed, or the message of the parse failure.
#[derive(Debug)]
pub struct CustomEventArgs {
    pub name: Option<String>,
    pub description: Option<String>,
    pub once: Option<bool>,
    pub enabled: Option<bool>,
    pub trigger: Option<Result<TriggerData, String>>,
    pub effects: Option<Result<Vec<EffectData>, String>>,
}

/// The custom event, as given; it fires repeatedly and is enabled unless
/// told otherwise.
pub open spec fn custom_shape(a: CustomEventArgs) -> EventShape {
    EventShape {
        name: a.name->Some_0@,
        description: opt_text(a.description),
        trigger: a.trigger->Some_0->Ok_0,
        effects: exactly(a.effects->Some_0->Ok_0@),
        once: or_else(a.once, false),
        enabled: or_else(a.enabled, true),
    }
}

/// Add a fully custom event.  The name, the trigger and the effects are
/// required, and the trigger and effects must have parsed.
pub fn add_custom_event<R, M, W>(state: &mut ScenarioState<R, M, W>, args: CustomEventArgs) -> (r:
    Result<ToolReply, String>)
    ensures
        if args.name is None {
            rejects(r, "name is required"@) && *final(state) == *old(state)
        } else if args.trigger is None {
            rejects(r, "trigger is required"@) && *final(state) == *old(state)
        } else if args.trigger->Some_0 is Err {
            rejects(r, "Invalid trigger: "@ + args.trigger->Some_0->Err_0@) && *final(state)
                == *old(state)
        } else if args.effects is None {
            rejects(r, "effects is required"@) && *final(state) == *old(state)
        } else if args.effects->Some_0 is Err {
            rejects(r, "Invalid effects: "@ + args.effects->Some_0->Err_0@) && *final(state)
                == *old(state)
        } else {
            adds_event(
                r,
                *old(state),
                *final(state),
                custom_shape(args),
                "Added custom event \""@ + args.name->Some_0@ + "\""@,
            )
        },
{
    let ghost shape = custom_shape(args);
    let name = match args.name {
        Some(n) => n,
        None => {
            return Err(String::from_str("name is required"));
        },
    };
    let once = match args.once {
        Some(b) => b,
        None => false,
    };
    let enabled = match args.enabled {
        Some(b) => b,
        None => true,
    };
    let trigger = match args.trigger {
        Some(Ok(t)) => t,
        Some(Err(e)) => {
            return Err(concat2("Invalid trigger: ", e.as_str()));
        },
        None => {
            return Err(String::from_str("trigger is required"));
        },
    };
    let effects = match args.effects {
        Some(Ok(es)) => es,
        Some(Err(e)) => {
            return Err(concat2("Invalid effects: ", e.as_str()));
        },
        None => {
            return Err(String::from_str("effects is required"));
        },
    };
    let text = concat3("Added custom event \"", name.as_str(), "\"");
    let event = EventData { name, description: args.description, trigger, effects, once, enabled };
    add_shaped_event(state, event, text, Ghost(shape))
}

} // verus!
