//! The sweep configuration tools: the grid of event parameters that a
//! sensitivity sweep varies, and its Monte Carlo settings.

use vstd::prelude::*;

use crate::scenario::{SweepParameterData, SweepTypeData};
use crate::state::ScenarioState;
use crate::text::{concat3, decimal, join, joined, push_decimal, same_text};
use crate::tools::{error_reply, text_reply, ToolReply};
use crate::validator::{contains_text, event_names, names_of_events};

verus! {

// ── Grid size ─────────────────────────────────────────────────────────────

/// The product of the step counts of the parameters.
pub open spec fn step_product(ps: Seq<SweepParameterData>) -> nat
    decreases ps.len(),
{
    if ps.len() == 0 {
        1
    } else {
        step_product(ps.drop_last()) * (ps.last().step_count as nat)
    }
}

/// The number of points of the sweep grid: none without parameters,
/// else the product of the step counts.
pub open spec fn grid_points(ps: Seq<SweepParameterData>) -> nat {
    if ps.len() == 0 {
        0
    } else {
        step_product(ps)
    }
}

/// Every partial product of the step counts fits in a `usize`.
pub open spec fn products_fit(ps: Seq<SweepParameterData>) -> bool {
    forall|k: int| 0 <= k <= ps.len() ==> #[trigger] step_product(ps.take(k)) <= usize::MAX
}

/// The number of points of the sweep grid.
pub fn grid_point_count(ps: &Vec<SweepParameterData>) -> (n: usize)
    requires
        products_fit(ps@),
    ensures
        n == grid_points(ps@),
{
    if ps.len() == 0 {
        return 0;
    }
    let mut product: usize = 1;
    proof {
        assert(ps@.take(0) =~= Seq::<SweepParameterData>::empty());
    }
    for i in 0..ps.len()
        invariant
            products_fit(ps@),
            product == step_product(ps@.take(i as int)),
    {
        proof {
            assert(ps@.take(i + 1).drop_last() =~= ps@.take(i as int));
            assert(step_product(ps@.take(i + 1)) <= usize::MAX);
        }
        product = product * ps[i].step_count;
    }
    proof {
        assert(ps@.take(ps@.len() as int) =~= ps@);
    }
    product
}

/// The estimated runtime in seconds of a sweep: ten grid points of one
/// Monte Carlo iteration each per second.
pub open spec fn estimated_seconds(points: nat, iterations: nat) -> nat {
    points * iterations / 10
}

fn estimate(points: usize, iterations: usize) -> (r: usize)
    requires
        points * iterations <= usize::MAX,
    ensures
        r == estimated_seconds(points as nat, iterations as nat),
{
    points * iterations / 10
}

/// `n` brought into `[lo, hi]`.
pub open spec fn clamped(n: u64, lo: u64, hi: u64) -> u64 {
    if n < lo {
        lo
    } else if n > hi {
        hi
    } else {
        n
    }
}

fn clamp(n: u64, lo: u64, hi: u64) -> (r: u64)
    ensures
        r == clamped(n, lo, hi),
{
    if n < lo {
        lo
    } else if n > hi {
        hi
    } else {
        n
    }
}

// ── Sweep types ───────────────────────────────────────────────────────────

/// The sweep type named by `s`, if any.
pub open spec fn sweep_type_named(s: Seq<char>) -> Option<SweepTypeData> {
    if s == "trigger_age"@ {
        Some(SweepTypeData::TriggerAge)
    } else if s == "trigger_date"@ {
        Some(SweepTypeData::TriggerDate)
    } else if s == "effect_value"@ {
        Some(SweepTypeData::EffectValue)
    } else if s == "repeating_start_age"@ {
        Some(SweepTypeData::RepeatingStartAge)
    } else if s == "repeating_end_age"@ {
        Some(SweepTypeData::RepeatingEndAge)
    } else {
        None
    }
}

/// The sweep type named by `s`, if any.
pub fn parse_sweep_type(s: &str) -> (r: Option<SweepTypeData>)
    ensures
        r == sweep_type_named(s@),
{
    if same_text(s, "trigger_age") {
        Some(SweepTypeData::TriggerAge)
    } else if same_text(s, "trigger_date") {
        Some(SweepTypeData::TriggerDate)
    } else if same_text(s, "effect_value") {
        Some(SweepTypeData::EffectValue)
    } else if same_text(s, "repeating_start_age") {
        Some(SweepTypeData::RepeatingStartAge)
    } else if same_text(s, "repeating_end_age") {
        Some(SweepTypeData::RepeatingEndAge)
    } else {
        None
    }
}

/// How a sweep type is written in replies (its `Debug` form).
pub open spec fn sweep_type_text(t: SweepTypeData) -> Seq<char> {
    match t {
        SweepTypeData::TriggerAge => "TriggerAge"@,
        SweepTypeData::TriggerDate => "TriggerDate"@,
        SweepTypeData::EffectValue => "EffectValue"@,
        SweepTypeData::RepeatingStartAge => "RepeatingStartAge"@,
        SweepTypeData::RepeatingEndAge => "RepeatingEndAge"@,
    }
}

fn push_sweep_type(out: &mut String, t: SweepTypeData)
    ensures
        final(out)@ == old(out)@ + sweep_type_text(t),
{
    match t {
        SweepTypeData::TriggerAge => out.append("TriggerAge"),
        SweepTypeData::TriggerDate => out.append("TriggerDate"),
        SweepTypeData::EffectValue => out.append("EffectValue"),
        SweepTypeData::RepeatingStartAge => out.append("RepeatingStartAge"),
        SweepTypeData::RepeatingEndAge => out.append("RepeatingEndAge"),
    }
}

impl<R, M, W> ScenarioState<R, M, W> {
    /// The two states agree on everything but the sweep settings, the
    /// sweep parameters and the cached sweep results.
    pub open spec fn same_apart_from_sweep(&self, other: &Self) -> bool {
        &&& self.portfolio == other.portfolio
        &&& self.parameters == other.parameters
        &&& self.events == other.events
        &&& self.profiles == other.profiles
        &&& self.assets == other.assets
        &&& self.historical_assets == other.historical_assets
        &&& self.asset_prices == other.asset_prices
        &&& self.asset_tracking_errors == other.asset_tracking_errors
        &&& self.analysis == other.analysis
        &&& self.last_simulation_result == other.last_simulation_result
        &&& self.last_sim_data == other.last_sim_data
        &&& self.last_mc_summary == other.last_mc_summary
    }
}

// ── configure_sweep ───────────────────────────────────────────────────────

/// The Monte Carlo iterations per grid point after `configure_sweep`:
/// the request brought into `[10, 2000]`, else unchanged.
pub open spec fn configured_iterations(current: usize, requested: Option<u64>) -> usize {
    match requested {
        Some(n) => clamped(n, 10, 2000) as usize,
        None => current,
    }
}

/// The default step count after `configure_sweep`: the request brought
/// into `[2, 20]`, else unchanged.
pub open spec fn configured_steps(current: usize, requested: Option<u64>) -> usize {
    match requested {
        Some(n) => clamped(n, 2, 20) as usize,
        None => current,
    }
}

/// The reply of `configure_sweep`.
pub open spec fn sweep_configured_text(iterations: nat, steps: nat, dims: nat, points: nat) -> Seq<
    char,
> {
    "Sweep configured: "@ + decimal(iterations) + " MC iterations per point, "@ + decimal(steps)
        + " default steps.\nCurrent grid: "@ + decimal(dims) + " parameters, "@ + decimal(points)
        + " total points.\nEstimated runtime: ~"@ + decimal(estimated_seconds(points, iterations))
        + " seconds."@
}

/// Set the Monte Carlo iterations per grid point (kept in `[10, 2000]`)
/// and the default step count of new parameters (kept in `[2, 20]`).
/// Cached sweep results are dropped when the iteration count changes.
pub fn configure_sweep<R, M, W>(
    state: &mut ScenarioState<R, M, W>,
    mc_iterations: Option<u64>,
    default_steps: Option<u64>,
) -> (r: ToolReply)
    requires
        products_fit(old(state).sweep_parameters@),
        grid_points(old(state).sweep_parameters@) * configured_iterations(
            old(state).sweep_mc_iterations,
            mc_iterations,
        ) <= usize::MAX,
    ensures
        ({
            let iterations = configured_iterations(old(state).sweep_mc_iterations, mc_iterations);
            let steps = configured_steps(old(state).sweep_default_steps, default_steps);
            &&& final(state).sweep_mc_iterations == iterations
            &&& final(state).sweep_default_steps == steps
            &&& final(state).sweep_parameters == old(state).sweep_parameters
            &&& final(state).same_apart_from_sweep(old(state))
            &&& if iterations != old(state).sweep_mc_iterations {
                final(state).last_sweep_results is None
            } else {
                final(state).last_sweep_results == old(state).last_sweep_results
            }
            &&& r@ == (
                sweep_configured_text(
                    iterations as nat,
                    steps as nat,
                    old(state).sweep_parameters@.len(),
                    grid_points(old(state).sweep_parameters@),
                ),
                false,
            )
        }),
{
    if let Some(n) = mc_iterations {
        let iterations = clamp(n, 10, 2000) as usize;
        if iterations != state.sweep_mc_iterations {
            state.sweep_mc_iterations = iterations;
            state.invalidate_sweep_cache();
        }
    }
    if let Some(n) = default_steps {
        state.sweep_default_steps = clamp(n, 2, 20) as usize;
    }
    let points = grid_point_count(&state.sweep_parameters);
    let seconds = estimate(points, state.sweep_mc_iterations);
    let mut text = String::from_str("Sweep configured: ");
    push_decimal(&mut text, state.sweep_mc_iterations);
    text.append(" MC iterations per point, ");
    push_decimal(&mut text, state.sweep_default_steps);
    text.append(" default steps.\nCurrent grid: ");
    push_decimal(&mut text, state.sweep_parameters.len());
    text.append(" parameters, ");
    push_decimal(&mut text, points);
    text.append(" total points.\nEstimated runtime: ~");
    push_decimal(&mut text, seconds);
    text.append(" seconds.");
    text_reply(text)
}

// ── add_sweep_parameter ───────────────────────────────────────────────────

/// The arguments of `add_sweep_parameter`.  The bounds are carried as
/// the bits of their `f64`, with their text as the request writes them
/// (`min_text`, `max_text`), and whether the minimum lies below the
/// maximum (`min_below_max`, false when `min_value >= max_value`).
#[derive(Debug)]
pub struct SweepParameterArgs {
    pub event_name: Option<String>,
    pub sweep_type: Option<String>,
    pub min_value_bits: Option<u64>,
    pub max_value_bits: Option<u64>,
    pub step_count: Option<u64>,
    pub min_text: String,
    pub max_text: String,
    pub min_below_max: bool,
}

/// The step count of a new parameter: the request, at least 2, else the
/// default step count.
pub open spec fn new_step_count(requested: Option<u64>, default_steps: usize) -> usize {
    match requested {
        Some(n) => (if n < 2 { 2 } else { n }) as usize,
        None => default_steps,
    }
}

/// The parameter that `add_sweep_parameter` appends.
pub open spec fn new_sweep_parameter(a: SweepParameterArgs, default_steps: usize) -> SweepParameterData {
    SweepParameterData {
        event_name: a.event_name->Some_0,
        sweep_type: sweep_type_named(a.sweep_type->Some_0@)->Some_0,
        min_value_bits: a.min_value_bits->Some_0,
        max_value_bits: a.max_value_bits->Some_0,
        step_count: new_step_count(a.step_count, default_steps),
    }
}

/// The arguments pass every check of `add_sweep_parameter` that does not
/// depend on the scenario.
pub open spec fn sweep_args_complete(a: SweepParameterArgs) -> bool {
    &&& a.event_name is Some
    &&& a.sweep_type is Some
    &&& sweep_type_named(a.sweep_type->Some_0@) is Some
    &&& a.min_value_bits is Some
    &&& a.max_value_bits is Some
    &&& a.min_below_max
}

/// The reply of a successful `add_sweep_parameter`; `params` is the new
/// list of parameters.
pub open spec fn parameter_added_text(
    a: SweepParameterArgs,
    params: Seq<SweepParameterData>,
    iterations: nat,
) -> Seq<char> {
    let points = grid_points(params);
    "Added parameter ["@ + decimal((params.len() - 1) as nat) + "]: "@ + a.event_name->Some_0@
        + " → "@ + a.sweep_type->Some_0@ + " ["@ + a.min_text@ + "–"@ + a.max_text@ + ", "@
        + decimal(params.last().step_count as nat) + " steps]\nGrid so far: "@ + decimal(points)
        + " total points ("@ + decimal(params.len()) + " dimension(s))\nEstimated runtime: ~"@
        + decimal(estimated_seconds(points, iterations)) + " seconds."@ + if points > 500 {
        "\nWarning: "@ + decimal(points) + " total points may take over a minute."@
    } else {
        ""@
    }
}

/// Add one dimension to the sweep grid: the named event's field varied
/// between the bounds.  In order: the event name, the sweep type (one of
/// the five known types), both bounds are required and the minimum must
/// lie below the maximum, and the event must exist; each failure is an
/// error reply that leaves the state unchanged.  Cached sweep results are
/// dropped.
pub fn add_sweep_parameter<R, M, W>(
    state: &mut ScenarioState<R, M, W>,
    args: SweepParameterArgs,
) -> (r: ToolReply)
    requires
        sweep_args_complete(args) && event_names(old(state).events@).contains(
            args.event_name->Some_0@,
        ) ==> {
            let params = old(state).sweep_parameters@.push(
                new_sweep_parameter(args, old(state).sweep_default_steps),
            );
            &&& products_fit(params)
            &&& grid_points(params) * old(state).sweep_mc_iterations <= usize::MAX
        },
    ensures
        ({
            let name = args.event_name->Some_0@;
            let t = args.sweep_type->Some_0@;
            if args.event_name is None {
                r@ == ("event_name is required"@, true) && *final(state) == *old(state)
            } else if args.sweep_type is None {
                r@ == ("sweep_type is required"@, true) && *final(state) == *old(state)
            } else if sweep_type_named(t) is None {
                r@ == ("Unknown sweep_type: "@ + t, true) && *final(state) == *old(state)
            } else if args.min_value_bits is None {
                r@ == ("min_value is required"@, true) && *final(state) == *old(state)
            } else if args.max_value_bits is None {
                r@ == ("max_value is required"@, true) && *final(state) == *old(state)
            } else if !args.min_below_max {
                r@ == (
                    "min_value ("@ + args.min_text@ + ") must be less than max_value ("@
                        + args.max_text@ + ")"@,
                    true,
                ) && *final(state) == *old(state)
            } else if !event_names(old(state).events@).contains(name) {
                r@ == (
                    "Event '"@ + name + "' not found. Available events: "@ + joined(
                        event_names(old(state).events@),
                        ", "@,
                    ),
                    true,
                ) && *final(state) == *old(state)
            } else {
                let params = old(state).sweep_parameters@.push(
                    new_sweep_parameter(args, old(state).sweep_default_steps),
                );
                &&& final(state).sweep_parameters@ == params
                &&& final(state).sweep_mc_iterations == old(state).sweep_mc_iterations
                &&& final(state).sweep_default_steps == old(state).sweep_default_steps
                &&& final(state).last_sweep_results is None
                &&& final(state).same_apart_from_sweep(old(state))
                &&& r@ == (
                    parameter_added_text(args, params, old(state).sweep_mc_iterations as nat),
                    false,
                )
            }
        }),
{
    let ghost a = args;
    let event_name = match args.event_name {
        Some(n) => n,
        None => {
            return error_reply(String::from_str("event_name is required"));
        },
    };
    let type_text = match args.sweep_type {
        Some(t) => t,
        None => {
            return error_reply(String::from_str("sweep_type is required"));
        },
    };
    let sweep_type = match parse_sweep_type(type_text.as_str()) {
        Some(t) => t,
        None => {
            let mut text = String::from_str("Unknown sweep_type: ");
            text.append(type_text.as_str());
            return error_reply(text);
        },
    };
    let min_value_bits = match args.min_value_bits {
        Some(b) => b,
        None => {
            return error_reply(String::from_str("min_value is required"));
        },
    };
    let max_value_bits = match args.max_value_bits {
        Some(b) => b,
        None => {
            return error_reply(String::from_str("max_value is required"));
        },
    };
    if !args.min_below_max {
        let mut text = concat3("min_value (", args.min_text.as_str(), ") must be less than max_value (");
        text.append(args.max_text.as_str());
        text.append(")");
        return error_reply(text);
    }
    let known = names_of_events(&state.events);
    if !contains_text(&known, &event_name) {
        let mut text = concat3("Event '", event_name.as_str(), "' not found. Available events: ");
        text.append(join(&known, ", ").as_str());
        return error_reply(text);
    }
    let step_count: usize = match args.step_count {
        Some(n) => if n < 2 {
            2
        } else {
            n as usize
        },
        None => state.sweep_default_steps,
    };
    let mut text = String::from_str("Added parameter [");
    push_decimal(&mut text, state.sweep_parameters.len());
    text.append("]: ");
    text.append(event_name.as_str());
    text.append(" → ");
    text.append(type_text.as_str());
    text.append(" [");
    text.append(args.min_text.as_str());
    text.append("–");
    text.append(args.max_text.as_str());
    text.append(", ");
    push_decimal(&mut text, step_count);
    text.append(" steps]\nGrid so far: ");
    state.sweep_parameters.push(
        SweepParameterData { event_name, sweep_type, min_value_bits, max_value_bits, step_count },
    );
    state.invalidate_sweep_cache();
    let points = grid_point_count(&state.sweep_parameters);
    let seconds = estimate(points, state.sweep_mc_iterations);
    push_decimal(&mut text, points);
    text.append(" total points (");
    push_decimal(&mut text, state.sweep_parameters.len());
    text.append(" dimension(s))\nEstimated runtime: ~");
    push_decimal(&mut text, seconds);
    text.append(" seconds.");
    if points > 500 {
        text.append("\nWarning: ");
        push_decimal(&mut text, points);
        text.append(" total points may take over a minute.");
    }
    proof {
        reveal_strlit("");
        let params = old(state).sweep_parameters@.push(
            new_sweep_parameter(a, old(state).sweep_default_steps),
        );
        assert(state.sweep_parameters@ =~= params);
        assert(text@ =~= parameter_added_text(a, params, old(state).sweep_mc_iterations as nat));
    }
    text_reply(text)
}

// ── remove_sweep_parameter ────────────────────────────────────────────────

/// `i` is the position of the first parameter for event `name`.
pub open spec fn is_first_for(ps: Seq<SweepParameterData>, name: Seq<char>, i: int) -> bool {
    &&& 0 <= i < ps.len()
    &&& ps[i].event_name@ == name
    &&& forall|k: int| 0 <= k < i ==> ps[k].event_name@ != name
}

/// The position of the first parameter for event `name`, if there is one.
pub open spec fn first_for(ps: Seq<SweepParameterData>, name: Seq<char>) -> Option<int> {
    if exists|i: int| is_first_for(ps, name, i) {
        Some(choose|i: int| is_first_for(ps, name, i))
    } else {
        None
    }
}

/// The position that `remove_sweep_parameter` removes: the first
/// parameter for the named event when a name is given, else the given
/// index when it is in range.
pub open spec fn removal_index(
    ps: Seq<SweepParameterData>,
    event_name: Option<String>,
    index: Option<u64>,
) -> Option<int> {
    match event_name {
        Some(name) => first_for(ps, name@),
        None => match index {
            Some(i) => if (i as usize) < ps.len() {
                Some((i as usize) as int)
            } else {
                None
            },
            None => None,
        },
    }
}

/// The reply of a successful `remove_sweep_parameter`.
pub open spec fn parameter_removed_text(
    idx: int,
    removed: SweepParameterData,
    params: Seq<SweepParameterData>,
) -> Seq<char> {
    "Removed parameter ["@ + decimal(idx as nat) + "]: "@ + removed.event_name@ + " → "@
        + sweep_type_text(removed.sweep_type) + "\nGrid now has "@ + decimal(params.len())
        + " dimension(s), "@ + decimal(grid_points(params))
        + " total points.\nNote: Previous sweep results cleared — call run_sweep again."@
}

/// The error reply of `remove_sweep_parameter` when nothing is removed.
pub open spec fn removal_error_text(
    ps: Seq<SweepParameterData>,
    event_name: Option<String>,
    index: Option<u64>,
) -> Seq<char> {
    match event_name {
        Some(name) => "No sweep parameter found for event '"@ + name@ + "'"@,
        None => match index {
            Some(i) => "Index "@ + decimal((i as usize) as nat) + " out of range ("@ + decimal(
                ps.len(),
            ) + " parameters)"@,
            None => "Provide event_name or index"@,
        },
    }
}

/// Removing by name the parameter just added for an event that had none
/// gives back the grid as it was before the addition.
pub proof fn removing_added_parameter_restores_grid(
    ps: Seq<SweepParameterData>,
    p: SweepParameterData,
    name: String,
    index: Option<u64>,
)
    requires
        forall|k: int| 0 <= k < ps.len() ==> ps[k].event_name@ != p.event_name@,
        name@ == p.event_name@,
    ensures
        removal_index(ps.push(p), Some(name), index) == Some(ps.len() as int),
        ps.push(p).remove(ps.len() as int) == ps,
{
    let qs = ps.push(p);
    assert(is_first_for(qs, name@, ps.len() as int));
    let c = choose|i: int| is_first_for(qs, name@, i);
    assert(is_first_for(qs, name@, c));
    assert(c == ps.len() as int) by {
        if c < ps.len() {
            assert(qs[c] == ps[c]);
        }
    }
    assert(qs.remove(ps.len() as int) =~= ps);
}

/// Remove a sweep parameter, by event name (the first parameter for that
/// event) or else by index.  Cached sweep results are dropped.
pub fn remove_sweep_parameter<R, M, W>(
    state: &mut ScenarioState<R, M, W>,
    event_name: Option<String>,
    index: Option<u64>,
) -> (r: ToolReply)
    requires
        removal_index(old(state).sweep_parameters@, event_name, index) matches Some(i)
            ==> products_fit(old(state).sweep_parameters@.remove(i)),
    ensures
        match removal_index(old(state).sweep_parameters@, event_name, index) {
            None => r@ == (
                removal_error_text(old(state).sweep_parameters@, event_name, index),
                true,
            ) && *final(state) == *old(state),
            Some(i) => {
                let params = old(state).sweep_parameters@.remove(i);
                &&& final(state).sweep_parameters@ == params
                &&& final(state).sweep_mc_iterations == old(state).sweep_mc_iterations
                &&& final(state).sweep_default_steps == old(state).sweep_default_steps
                &&& final(state).last_sweep_results is None
                &&& final(state).same_apart_from_sweep(old(state))
                &&& r@ == (
                    parameter_removed_text(i, old(state).sweep_parameters@[i], params),
                    false,
                )
            },
        },
{
    let ghost ps = state.sweep_parameters@;
    let idx: usize = match &event_name {
        Some(name) => {
            let mut found: Option<usize> = None;
            for j in 0..state.sweep_parameters.len()
                invariant_except_break
                    found is None,
                    forall|k: int| 0 <= k < j ==> ps[k].event_name@ != name@,
                invariant
                    ps == state.sweep_parameters@,
                ensures
                    match found {
                        Some(f) => is_first_for(ps, name@, f as int),
                        None => forall|k: int| 0 <= k < ps.len() ==> ps[k].event_name@ != name@,
                    },
            {
                if state.sweep_parameters[j].event_name == *name {
                    found = Some(j);
                    break;
                }
            }
            match found {
                Some(f) => {
                    proof {
                        let c = choose|i: int| is_first_for(ps, name@, i);
                        assert(is_first_for(ps, name@, c));
                        assert(c == f as int) by {
                            if c < f as int {
                                assert(ps[c].event_name@ != name@);
                            } else if c > f as int {
                                assert(ps[f as int].event_name@ != name@);
                            }
                        }
                    }
                    f
                },
                None => {
                    let text = concat3("No sweep parameter found for event '", name.as_str(), "'");
                    return error_reply(text);
                },
            }
        },
        None => match index {
            Some(i) => {
                let i = i as usize;
                if i < state.sweep_parameters.len() {
                    i
                } else {
                    let mut text = String::from_str("Index ");
                    push_decimal(&mut text, i);
                    text.append(" out of range (");
                    push_decimal(&mut text, state.sweep_parameters.len());
                    text.append(" parameters)");
                    return error_reply(text);
                }
            },
            None => {
                return error_reply(String::from_str("Provide event_name or index"));
            },
        },
    };
    let removed = state.sweep_parameters.remove(idx);
    state.invalidate_sweep_cache();
    let points = grid_point_count(&state.sweep_parameters);
    let mut text = String::from_str("Removed parameter [");
    push_decimal(&mut text, idx);
    text.append("]: ");
    text.append(removed.event_name.as_str());
    text.append(" → ");
    push_sweep_type(&mut text, removed.sweep_type);
    text.append("\nGrid now has ");
    push_decimal(&mut text, state.sweep_parameters.len());
    text.append(" dimension(s), ");
    push_decimal(&mut text, points);
    text.append(" total points.\nNote: Previous sweep results cleared — call run_sweep again.");
    text_reply(text)
}

} // verus!
