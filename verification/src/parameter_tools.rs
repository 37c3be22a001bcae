//! The `set_parameters` tool: birth and start dates, duration, inflation,
//! taxes and returns mode, with their defaults.

use vstd::prelude::*;

use crate::defaults::{state_rate_bits_for, state_tax_rate, uppercase};
use crate::event_tools::or_else;
use crate::scenario::{
    DistributionType, FederalBracketsPreset, InflationData, ParametersData, ReturnsMode,
    TaxConfigData, DEFAULT_CAPITAL_GAINS_RATE_BITS, DEFAULT_STATE_RATE_BITS,
};
use crate::state::ScenarioState;
use crate::text::{decimal, push_decimal, same_text};
use crate::tools::{answers, rejects, text_reply, ToolReply};

verus! {

/// Bits of the default fixed inflation rate and inflation mean, 0.03.
pub const DEFAULT_INFLATION_RATE_BITS: u64 = 0x3F9E_B851_EB85_1EB8;

/// Bits of the default inflation standard deviation, 0.01.
pub const DEFAULT_INFLATION_STD_DEV_BITS: u64 = 0x3F84_7AE1_47AE_147B;

/// The arguments of `set_parameters`.  Numbers that are floating point
/// in the request are carried as the bits of their `f64`.
#[derive(Debug)]
pub struct ParametersArgs {
    pub birth_date: Option<String>,
    pub start_date: Option<String>,
    pub duration_years: Option<u64>,
    pub inflation_type: Option<String>,
    pub inflation_rate_bits: Option<u64>,
    pub inflation_mean_bits: Option<u64>,
    pub inflation_std_dev_bits: Option<u64>,
    pub state_abbreviation: Option<String>,
    pub state_rate_bits: Option<u64>,
    pub capital_gains_rate_bits: Option<u64>,
    pub federal_brackets: Option<String>,
    pub returns_mode: Option<String>,
    pub historical_block_size: Option<u64>,
    pub spouse_birth_date: Option<String>,
    pub seed: Option<u64>,
}

/// `o` holds exactly the text `lit`.
pub open spec fn names(o: Option<String>, lit: Seq<char>) -> bool {
    o matches Some(s) && s@ == lit
}

fn arg_is(o: &Option<String>, lit: &str) -> (b: bool)
    ensures
        b == names(*o, lit@),
{
    match o {
        Some(s) => same_text(s.as_str(), lit),
        None => false,
    }
}

/// The inflation model the arguments select: none, fixed (0.03 by
/// default), normal or log-normal (mean 0.03 and standard deviation 0.01
/// by default), and US historical inflation sampled log-normally for any
/// other or no type.
pub open spec fn inflation_for(a: ParametersArgs) -> InflationData {
    let mean = or_else(a.inflation_mean_bits, DEFAULT_INFLATION_RATE_BITS);
    let std_dev = or_else(a.inflation_std_dev_bits, DEFAULT_INFLATION_STD_DEV_BITS);
    if names(a.inflation_type, "none"@) {
        InflationData::NoInflation
    } else if names(a.inflation_type, "fixed"@) {
        InflationData::Fixed { rate_bits: or_else(a.inflation_rate_bits, DEFAULT_INFLATION_RATE_BITS) }
    } else if names(a.inflation_type, "normal"@) {
        InflationData::Normal { mean_bits: mean, std_dev_bits: std_dev }
    } else if names(a.inflation_type, "lognormal"@) {
        InflationData::LogNormal { mean_bits: mean, std_dev_bits: std_dev }
    } else {
        InflationData::USHistorical { distribution: DistributionType::LogNormal }
    }
}

/// The state income tax rate: the explicit rate, else the rate of the
/// state abbreviation, else 0.05.
pub open spec fn state_rate_for(a: ParametersArgs) -> u64 {
    match a.state_rate_bits {
        Some(b) => b,
        None => match a.state_abbreviation {
            Some(s) => state_rate_bits_for(uppercase(s@)),
            None => DEFAULT_STATE_RATE_BITS,
        },
    }
}

/// The federal brackets: married filing jointly when asked, else single.
pub open spec fn brackets_for(a: ParametersArgs) -> FederalBracketsPreset {
    if names(a.federal_brackets, "married_joint2024"@) {
        FederalBracketsPreset::MarriedJoint2024
    } else {
        FederalBracketsPreset::Single2024
    }
}

/// The name by which the arguments select a federal bracket preset.
pub open spec fn preset_name(p: FederalBracketsPreset) -> Seq<char> {
    match p {
        FederalBracketsPreset::Single2024 => "single2024"@,
        FederalBracketsPreset::MarriedJoint2024 => "married_joint2024"@,
    }
}

/// Naming a preset selects it; any other or no name selects the single
/// filer's brackets.
pub proof fn brackets_follow_their_name(a: ParametersArgs, p: FederalBracketsPreset)
    ensures
        names(a.federal_brackets, preset_name(p)) ==> brackets_for(a) == p,
        !names(a.federal_brackets, preset_name(FederalBracketsPreset::MarriedJoint2024))
            ==> brackets_for(a) == FederalBracketsPreset::Single2024,
{
    reveal_strlit("single2024");
    reveal_strlit("married_joint2024");
    assert("single2024"@.len() != "married_joint2024"@.len());
}

/// The returns mode: parametric when asked, else historical.
pub open spec fn returns_mode_for(a: ParametersArgs) -> ReturnsMode {
    if names(a.returns_mode, "parametric"@) {
        ReturnsMode::Parametric
    } else {
        ReturnsMode::Historical
    }
}

/// The start date: the given one, else 2026-01-01.
pub open spec fn start_date_for(a: ParametersArgs) -> Seq<char> {
    match a.start_date {
        Some(s) => s@,
        None => "2026-01-01"@,
    }
}

/// The duration in years: the given one, else 30.
pub open spec fn duration_for(a: ParametersArgs) -> usize {
    or_else(a.duration_years, 30) as usize
}

/// The spouse's birth date, when one is given and it is not empty.
pub open spec fn spouse_for(a: ParametersArgs) -> Option<String> {
    match a.spouse_birth_date {
        Some(s) => if s@.len() > 0 { Some(s) } else { None },
        None => None,
    }
}

/// `p` holds the parameters that the arguments describe.
pub open spec fn parameters_from(p: ParametersData, a: ParametersArgs) -> bool {
    &&& p.birth_date == a.birth_date->Some_0
    &&& p.spouse_birth_date == spouse_for(a)
    &&& p.start_date@ == start_date_for(a)
    &&& p.duration_years == duration_for(a)
    &&& p.inflation == inflation_for(a)
    &&& p.tax_config == TaxConfigData {
        state_rate_bits: state_rate_for(a),
        capital_gains_rate_bits: or_else(a.capital_gains_rate_bits, DEFAULT_CAPITAL_GAINS_RATE_BITS),
        federal_brackets: brackets_for(a),
    }
    &&& p.returns_mode == returns_mode_for(a)
    &&& p.historical_block_size == match a.historical_block_size {
        Some(n) => Some(n as usize),
        None => None,
    }
    &&& p.seed == a.seed
}

/// How a returns mode is written in replies.
pub open spec fn returns_mode_text(m: ReturnsMode) -> Seq<char> {
    match m {
        ReturnsMode::Parametric => "Parametric"@,
        ReturnsMode::Historical => "Historical"@,
    }
}

/// The reply of `set_parameters`; `tax_percent` is the state rate in
/// percent, written with one decimal.
pub open spec fn parameters_set_text(a: ParametersArgs, tax_percent: Seq<char>) -> Seq<char> {
    "Parameters set:\n  Birth: "@ + a.birth_date->Some_0@ + "\n  Start: "@ + start_date_for(a)
        + "\n  Duration: "@ + decimal(duration_for(a) as nat) + " years\n  Returns: "@
        + returns_mode_text(returns_mode_for(a)) + "\n  State tax: "@ + tax_percent + "%"@
}

impl<R, M, W> ScenarioState<R, M, W> {
    /// The two states agree on everything but the parameters and the caches.
    pub open spec fn same_except_parameters(&self, other: &Self) -> bool {
        &&& self.portfolio == other.portfolio
        &&& self.events == other.events
        &&& self.profiles == other.profiles
        &&& self.assets == other.assets
        &&& self.historical_assets == other.historical_assets
        &&& self.asset_prices == other.asset_prices
        &&& self.asset_tracking_errors == other.asset_tracking_errors
        &&& self.analysis == other.analysis
        &&& self.sweep_parameters == other.sweep_parameters
        &&& self.sweep_mc_iterations == other.sweep_mc_iterations
        &&& self.sweep_default_steps == other.sweep_default_steps
    }
}

/// The state income tax rate that `set_parameters` stores for these
/// arguments, as the bits of an `f64`.
pub fn resolve_state_rate(a: &ParametersArgs) -> (r: u64)
    ensures
        r == state_rate_for(*a),
{
    match a.state_rate_bits {
        Some(b) => b,
        None => match &a.state_abbreviation {
            Some(s) => state_tax_rate(s.as_str()),
            None => DEFAULT_STATE_RATE_BITS,
        },
    }
}

fn inflation_arg(a: &ParametersArgs) -> (r: InflationData)
    ensures
        r == inflation_for(*a),
{
    let mean = match a.inflation_mean_bits {
        Some(b) => b,
        None => DEFAULT_INFLATION_RATE_BITS,
    };
    let std_dev = match a.inflation_std_dev_bits {
        Some(b) => b,
        None => DEFAULT_INFLATION_STD_DEV_BITS,
    };
    if arg_is(&a.inflation_type, "none") {
        InflationData::NoInflation
    } else if arg_is(&a.inflation_type, "fixed") {
        let rate = match a.inflation_rate_bits {
            Some(b) => b,
            None => DEFAULT_INFLATION_RATE_BITS,
        };
        InflationData::Fixed { rate_bits: rate }
    } else if arg_is(&a.inflation_type, "normal") {
        InflationData::Normal { mean_bits: mean, std_dev_bits: std_dev }
    } else if arg_is(&a.inflation_type, "lognormal") {
        InflationData::LogNormal { mean_bits: mean, std_dev_bits: std_dev }
    } else {
        InflationData::USHistorical { distribution: DistributionType::LogNormal }
    }
}

/// Set the simulation parameters.  The birth date is required; every
/// other parameter has a default (see `parameters_from`).  The reply
/// shows the birth and start dates, the duration, the returns mode and
/// the state tax rate, whose percent text `tax_percent` the caller
/// renders from `resolve_state_rate`.
pub fn set_parameters<R, M, W>(
    state: &mut ScenarioState<R, M, W>,
    args: ParametersArgs,
    tax_percent: &str,
) -> (r: Result<ToolReply, String>)
    ensures
        args.birth_date is None ==> rejects(r, "birth_date is required"@) && *final(state)
            == *old(state),
        args.birth_date is Some ==> {
            &&& answers(r, parameters_set_text(args, tax_percent@), false)
            &&& final(state).parameters matches Some(p) && parameters_from(p, args)
            &&& final(state).same_except_parameters(old(state))
            &&& final(state).caches_clear()
        },
{
    let birth_date = match &args.birth_date {
        Some(b) => b.clone(),
        None => {
            return Err(String::from_str("birth_date is required"));
        },
    };
    let state_rate = resolve_state_rate(&args);
    let inflation = inflation_arg(&args);
    let federal_brackets = if arg_is(&args.federal_brackets, "married_joint2024") {
        FederalBracketsPreset::MarriedJoint2024
    } else {
        FederalBracketsPreset::Single2024
    };
    let returns_mode = if arg_is(&args.returns_mode, "parametric") {
        ReturnsMode::Parametric
    } else {
        ReturnsMode::Historical
    };
    let duration_years: usize = match args.duration_years {
        Some(d) => d as usize,
        None => 30,
    };
    let historical_block_size = match args.historical_block_size {
        Some(n) => Some(n as usize),
        None => None,
    };
    let capital_gains_rate = match args.capital_gains_rate_bits {
        Some(b) => b,
        None => DEFAULT_CAPITAL_GAINS_RATE_BITS,
    };
    let ghost a = args;
    let start_date = match args.start_date {
        Some(s) => s,
        None => String::from_str("2026-01-01"),
    };
    let spouse_birth_date = match args.spouse_birth_date {
        Some(s) => if s.as_str().is_empty() {
            None
        } else {
            Some(s)
        },
        None => None,
    };

    let mut text = String::from_str("Parameters set:\n  Birth: ");
    text.append(birth_date.as_str());
    text.append("\n  Start: ");
    text.append(start_date.as_str());
    text.append("\n  Duration: ");
    push_decimal(&mut text, duration_years);
    text.append(" years\n  Returns: ");
    match returns_mode {
        ReturnsMode::Parametric => text.append("Parametric"),
        ReturnsMode::Historical => text.append("Historical"),
    }
    text.append("\n  State tax: ");
    text.append(tax_percent);
    text.append("%");

    state.parameters = Some(
        ParametersData {
            birth_date,
            spouse_birth_date,
            start_date,
            duration_years,
            inflation,
            tax_config: TaxConfigData {
                state_rate_bits: state_rate,
                capital_gains_rate_bits: capital_gains_rate,
                federal_brackets,
            },
            returns_mode,
            historical_block_size,
            seed: args.seed,
        },
    );
    state.invalidate_simulation_cache();
    proof {
        assert(text@ =~= parameters_set_text(a, tax_percent@));
    }
    Ok(text_reply(text))
}

} // verus!
