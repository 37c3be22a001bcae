//! The scenario data model: portfolio, return profiles, events,
//! parameters and analysis configuration.
//!
//! Dollar amounts, rates and probabilities are carried as the IEEE-754 bit
//! pattern of the `f64` they stand for (`*_bits` fields); nothing in this
//! library computes on them.  Ticker-to-profile maps are association lists
//! whose keys are kept distinct by the operations that fill them.

use vstd::prelude::*;

verus! {

// ── Portfolio ─────────────────────────────────────────────────────────────

/// Who owns an account.
#[derive(Clone, Copy, PartialEq, Eq, Structural, Debug)]
pub enum Owner {
    Primary,
    Spouse,
}

/// A holding of one asset (ticker) inside an investment account.
#[derive(Clone, Debug)]
pub struct AssetValue {
    pub asset: String,
    pub value_bits: u64,
}

/// The holdings of an investment account.
#[derive(Clone, Debug)]
pub struct AssetAccount {
    pub assets: Vec<AssetValue>,
}

/// A cash or property account: a single value and an optional return profile.
#[derive(Clone, Debug)]
pub struct Property {
    pub value_bits: u64,
    pub return_profile: Option<String>,
}

/// A debt account: outstanding balance and annual interest rate.
#[derive(Clone, Copy, Debug)]
pub struct Debt {
    pub balance_bits: u64,
    pub interest_rate_bits: u64,
}

/// The thirteen account types, in three families.
#[derive(Clone, Debug)]
pub enum AccountType {
    Brokerage(AssetAccount),
    Traditional401k(AssetAccount),
    Roth401k(AssetAccount),
    TraditionalIRA(AssetAccount),
    RothIRA(AssetAccount),
    Checking(Property),
    Savings(Property),
    HSA(Property),
    Property(Property),
    Collectible(Property),
    Mortgage(Debt),
    LoanDebt(Debt),
    StudentLoanDebt(Debt),
}

/// An account of the portfolio.
#[derive(Clone, Debug)]
pub struct AccountData {
    pub name: String,
    pub description: Option<String>,
    pub owner: Owner,
    pub account_type: AccountType,
}

/// The portfolio: a name and its accounts.
#[derive(Clone, Debug)]
pub struct PortfolioData {
    pub name: String,
    pub description: Option<String>,
    pub accounts: Vec<AccountData>,
}

// ── Return profiles ───────────────────────────────────────────────────────

/// How the returns of a profile are modelled.
#[derive(Debug)]
pub enum ReturnProfileData {
    NoReturns,
    Fixed { rate_bits: u64 },
    Normal { mean_bits: u64, std_dev_bits: u64 },
    LogNormal { mean_bits: u64, std_dev_bits: u64 },
    StudentT { mean_bits: u64, scale_bits: u64, df_bits: u64 },
    RegimeSwitching {
        bull_mean_bits: u64,
        bull_std_dev_bits: u64,
        bear_mean_bits: u64,
        bear_std_dev_bits: u64,
        bull_to_bear_prob_bits: u64,
        bear_to_bull_prob_bits: u64,
    },
    Bootstrap { preset: String },
}

/// A named return profile.
#[derive(Clone, Debug)]
pub struct ProfileData {
    pub name: String,
    pub description: Option<String>,
    pub profile: ReturnProfileData,
}

/// One entry of a ticker → return-profile map.
#[derive(Clone, Debug)]
pub struct AssetMapping {
    pub asset: String,
    pub profile: String,
}

/// One entry of a ticker → number map (prices, tracking errors).
#[derive(Clone, Debug)]
pub struct AssetNumber {
    pub asset: String,
    pub value_bits: u64,
}

// ── Events ────────────────────────────────────────────────────────────────

/// Schedule of a repeating trigger.
#[derive(Clone, Copy, PartialEq, Eq, Structural, Debug)]
pub enum IntervalData {
    Weekly,
    BiWeekly,
    Monthly,
    Quarterly,
    Yearly,
}

/// Offset of a trigger relative to another event.
#[derive(Clone, Copy, PartialEq, Eq, Structural, Debug)]
pub enum OffsetData {
    Days { value: i32 },
    Months { value: i32 },
    Years { value: i32 },
}

/// Direction of a balance threshold.
#[derive(Clone, Copy, PartialEq, Eq, Structural, Debug)]
pub enum ComparisonData {
    LessThanOrEqual,
    GreaterThanOrEqual,
}

/// A balance threshold.
#[derive(Clone, Copy, Debug)]
pub struct ThresholdData {
    pub comparison: ComparisonData,
    pub value_bits: u64,
}

/// When an event fires.
#[derive(Debug)]
pub enum TriggerData {
    Date { date: String },
    Age { years: u8, months: Option<u8> },
    SpouseAge { years: u8, months: Option<u8> },
    RelativeToEvent { event: String, offset: OffsetData },
    AccountBalance { account: String, threshold: ThresholdData },
    AssetBalance { account: String, asset: String, threshold: ThresholdData },
    NetWorth { threshold: ThresholdData },
    And { conditions: Vec<TriggerData> },
    Or { conditions: Vec<TriggerData> },
    Repeating {
        interval: IntervalData,
        start: Option<Box<TriggerData>>,
        end: Option<Box<TriggerData>>,
        max_occurrences: Option<u32>,
    },
    Manual,
}

/// A dollar amount, possibly composed.
#[derive(Debug)]
pub enum AmountData {
    Fixed { value_bits: u64 },
    InflationAdjusted { inner: Box<AmountData> },
    Scale { multiplier_bits: u64, inner: Box<AmountData> },
    SourceBalance,
    ZeroTargetBalance,
    TargetToBalance { target_bits: u64 },
    AccountBalance { account: String },
    AccountCashBalance { account: String },
}

/// Order in which a sweep liquidates accounts.
#[derive(Clone, Copy, PartialEq, Eq, Structural, Debug)]
pub enum WithdrawalStrategyData {
    PenaltyAware,
    TaxEfficient,
    TaxDeferredFirst,
    TaxFreeFirst,
    ProRata,
}

/// Which tax lots are sold first.
#[derive(Clone, Copy, PartialEq, Eq, Structural, Debug)]
pub enum LotMethodData {
    Fifo,
    Lifo,
    HighestCost,
    LowestCost,
    AverageCost,
}

/// What happens when an event fires.
#[derive(Clone, Debug)]
pub enum EffectData {
    Income { to: String, amount: AmountData, gross: bool, taxable: bool },
    Expense { from: String, amount: AmountData },
    AssetPurchase { from: String, to_account: String, asset: String, amount: AmountData },
    AssetSale {
        from: String,
        asset: Option<String>,
        amount: AmountData,
        gross: bool,
        lot_method: LotMethodData,
    },
    Sweep {
        to: String,
        amount: AmountData,
        strategy: WithdrawalStrategyData,
        gross: bool,
        taxable: bool,
        lot_method: LotMethodData,
        exclude_accounts: Vec<String>,
    },
    TriggerEvent { event: String },
    PauseEvent { event: String },
    ResumeEvent { event: String },
    TerminateEvent { event: String },
    ApplyRmd { destination: String, lot_method: LotMethodData },
    AdjustBalance { account: String, amount: AmountData },
    CashTransfer { from: String, to: String, amount: AmountData },
    Random { probability_bits: u64, on_true: String, on_false: Option<String> },
    RsuVesting {
        to: String,
        asset: String,
        units_bits: u64,
        sell_to_cover: bool,
        lot_method: LotMethodData,
    },
}

/// A named event: a trigger and its effects.
#[derive(Clone, Debug)]
pub struct EventData {
    pub name: String,
    pub description: Option<String>,
    pub trigger: TriggerData,
    pub effects: Vec<EffectData>,
    pub once: bool,
    pub enabled: bool,
}

// ── Parameters ────────────────────────────────────────────────────────────

/// Distribution used to sample historical inflation.
#[derive(Clone, Copy, PartialEq, Eq, Structural, Debug)]
pub enum DistributionType {
    Fixed,
    Normal,
    LogNormal,
}

/// Inflation model.
#[derive(Clone, Copy, Debug)]
pub enum InflationData {
    NoInflation,
    Fixed { rate_bits: u64 },
    Normal { mean_bits: u64, std_dev_bits: u64 },
    LogNormal { mean_bits: u64, std_dev_bits: u64 },
    USHistorical { distribution: DistributionType },
}

/// Federal bracket preset.
#[derive(Clone, Copy, PartialEq, Eq, Structural, Debug)]
pub enum FederalBracketsPreset {
    Single2024,
    MarriedJoint2024,
}

/// Tax configuration.
#[derive(Clone, Copy, Debug)]
pub struct TaxConfigData {
    pub state_rate_bits: u64,
    pub capital_gains_rate_bits: u64,
    pub federal_brackets: FederalBracketsPreset,
}

/// Where asset returns come from.
#[derive(Clone, Copy, PartialEq, Eq, Structural, Debug)]
pub enum ReturnsMode {
    Parametric,
    Historical,
}

/// Simulation parameters.
#[derive(Clone, Debug)]
pub struct ParametersData {
    pub birth_date: String,
    pub spouse_birth_date: Option<String>,
    pub start_date: String,
    pub duration_years: usize,
    pub inflation: InflationData,
    pub tax_config: TaxConfigData,
    pub returns_mode: ReturnsMode,
    pub historical_block_size: Option<usize>,
    pub seed: Option<u64>,
}

// ── Analysis ──────────────────────────────────────────────────────────────

/// Which field of an event a sweep varies.
#[derive(Clone, Copy, PartialEq, Eq, Structural, Debug)]
pub enum SweepTypeData {
    TriggerAge,
    TriggerDate,
    EffectValue,
    RepeatingStartAge,
    RepeatingEndAge,
}

/// One axis of a parameter sweep.
#[derive(Clone, Debug)]
pub struct SweepParameterData {
    pub event_name: String,
    pub sweep_type: SweepTypeData,
    pub min_value_bits: u64,
    pub max_value_bits: u64,
    pub step_count: usize,
}

/// Monte Carlo and sweep configuration.
#[derive(Clone, Debug)]
pub struct AnalysisConfigData {
    pub mc_iterations: usize,
    pub default_steps: usize,
    pub sweep_parameters: Vec<SweepParameterData>,
}

// ── Whole scenario ────────────────────────────────────────────────────────

/// A complete scenario.
#[derive(Clone, Debug)]
pub struct SimulationData {
    pub portfolios: PortfolioData,
    pub profiles: Vec<ProfileData>,
    pub assets: Vec<AssetMapping>,
    pub historical_assets: Vec<AssetMapping>,
    pub asset_prices: Vec<AssetNumber>,
    pub asset_tracking_errors: Vec<AssetNumber>,
    pub events: Vec<EventData>,
    pub parameters: ParametersData,
    pub analysis: AnalysisConfigData,
}

impl ParametersData {
    /// The parameters a scenario gets when none are set: no birth date,
    /// start on 2026-01-01 for 30 years, US historical inflation sampled
    /// log-normally, 5% state tax, 15% capital gains, 2024 single-filer
    /// brackets, historical returns, no block size and no seed.
    pub open spec fn is_default(&self) -> bool {
        &&& self.birth_date@.len() == 0
        &&& self.spouse_birth_date is None
        &&& self.start_date@ == "2026-01-01"@
        &&& self.duration_years == 30
        &&& self.inflation == InflationData::USHistorical { distribution: DistributionType::LogNormal }
        &&& self.tax_config == TaxConfigData {
            state_rate_bits: DEFAULT_STATE_RATE_BITS,
            capital_gains_rate_bits: DEFAULT_CAPITAL_GAINS_RATE_BITS,
            federal_brackets: FederalBracketsPreset::Single2024,
        }
        &&& self.returns_mode == ReturnsMode::Historical
        &&& self.historical_block_size is None
        &&& self.seed is None
    }
}

/// Bits of the default state income tax rate, 0.05.
pub const DEFAULT_STATE_RATE_BITS: u64 = 0x3FA9_9999_9999_999A;

/// Bits of the default long-term capital gains rate, 0.15.
pub const DEFAULT_CAPITAL_GAINS_RATE_BITS: u64 = 0x3FC3_3333_3333_3333;

impl Default for ParametersData {
    fn default() -> (r: Self)
        ensures
            r.is_default(),
    {
        ParametersData {
            birth_date: String::new(),
            spouse_birth_date: None,
            start_date: String::from_str("2026-01-01"),
            duration_years: 30,
            inflation: InflationData::USHistorical { distribution: DistributionType::LogNormal },
            tax_config: TaxConfigData {
                state_rate_bits: DEFAULT_STATE_RATE_BITS,
                capital_gains_rate_bits: DEFAULT_CAPITAL_GAINS_RATE_BITS,
                federal_brackets: FederalBracketsPreset::Single2024,
            },
            returns_mode: ReturnsMode::Historical,
            historical_block_size: None,
            seed: None,
        }
    }
}

// These types get their `Clone` by hand: recursive ones, whose derived
// impl would reach itself through `Box` and `Vec`, and those whose copies
// must be known to equal the value they copy.

/// Two triggers are copies of each other: the same variant with equal
/// fields, nested triggers being copies in turn (lists of conditions
/// element by element).
pub open spec fn same_trigger(a: TriggerData, b: TriggerData) -> bool
    decreases a,
{
    match (a, b) {
        (TriggerData::Date { date: x }, TriggerData::Date { date: y }) => x == y,
        (TriggerData::Age { years: x, months: m }, TriggerData::Age { years: y, months: n }) => x
            == y && m == n,
        (
            TriggerData::SpouseAge { years: x, months: m },
            TriggerData::SpouseAge { years: y, months: n },
        ) => x == y && m == n,
        (
            TriggerData::RelativeToEvent { event: x, offset: o },
            TriggerData::RelativeToEvent { event: y, offset: p },
        ) => x == y && o == p,
        (
            TriggerData::AccountBalance { account: x, threshold: t },
            TriggerData::AccountBalance { account: y, threshold: u },
        ) => x == y && t == u,
        (
            TriggerData::AssetBalance { account: x, asset: g, threshold: t },
            TriggerData::AssetBalance { account: y, asset: h, threshold: u },
        ) => x == y && g == h && t == u,
        (TriggerData::NetWorth { threshold: t }, TriggerData::NetWorth { threshold: u }) => t == u,
        (TriggerData::And { conditions: x }, TriggerData::And { conditions: y }) => x@.len()
            == y@.len() && forall|i: int|
            0 <= i < x@.len() ==> #[trigger] same_trigger(x@[i], y@[i]),
        (TriggerData::Or { conditions: x }, TriggerData::Or { conditions: y }) => x@.len()
            == y@.len() && forall|i: int|
            0 <= i < x@.len() ==> #[trigger] same_trigger(x@[i], y@[i]),
        (
            TriggerData::Repeating { interval: i, start: s, end: e, max_occurrences: m },
            TriggerData::Repeating { interval: j, start: t, end: f, max_occurrences: n },
        ) => {
            &&& i == j
            &&& m == n
            &&& match (s, t) {
                (Some(p), Some(q)) => same_trigger(*p, *q),
                (None, None) => true,
                _ => false,
            }
            &&& match (e, f) {
                (Some(p), Some(q)) => same_trigger(*p, *q),
                (None, None) => true,
                _ => false,
            }
        },
        (TriggerData::Manual, TriggerData::Manual) => true,
        _ => false,
    }
}

impl Clone for TriggerData {
    fn clone(&self) -> (r: Self)
        ensures
            same_trigger(*self, r),
        decreases self,
    {
        match self {
            TriggerData::Date { date } => TriggerData::Date { date: date.clone() },
            TriggerData::Age { years, months } => TriggerData::Age { years: *years, months: *months },
            TriggerData::SpouseAge { years, months } => TriggerData::SpouseAge {
                years: *years,
                months: *months,
            },
            TriggerData::RelativeToEvent { event, offset } => TriggerData::RelativeToEvent {
                event: event.clone(),
                offset: *offset,
            },
            TriggerData::AccountBalance { account, threshold } => TriggerData::AccountBalance {
                account: account.clone(),
                threshold: *threshold,
            },
            TriggerData::AssetBalance { account, asset, threshold } => TriggerData::AssetBalance {
                account: account.clone(),
                asset: asset.clone(),
                threshold: *threshold,
            },
            TriggerData::NetWorth { threshold } => TriggerData::NetWorth { threshold: *threshold },
            TriggerData::And { conditions } => {
                let c = clone_triggers(conditions);
                assert forall|i: int| 0 <= i < conditions@.len() implies same_trigger(
                    conditions@[i],
                    c@[i],
                ) by {}
                TriggerData::And { conditions: c }
            },
            TriggerData::Or { conditions } => {
                let c = clone_triggers(conditions);
                assert forall|i: int| 0 <= i < conditions@.len() implies same_trigger(
                    conditions@[i],
                    c@[i],
                ) by {}
                TriggerData::Or { conditions: c }
            },
            TriggerData::Repeating { interval, start, end, max_occurrences } => {
                let start = match start {
                    Some(b) => Some(Box::new((**b).clone())),
                    None => None,
                };
                let end = match end {
                    Some(b) => Some(Box::new((**b).clone())),
                    None => None,
                };
                TriggerData::Repeating {
                    interval: *interval,
                    start,
                    end,
                    max_occurrences: *max_occurrences,
                }
            },
            TriggerData::Manual => TriggerData::Manual,
        }
    }
}

fn clone_triggers(v: &Vec<TriggerData>) -> (r: Vec<TriggerData>)
    ensures
        r@.len() == v@.len(),
        forall|i: int| 0 <= i < v@.len() ==> #[trigger] same_trigger(v@[i], r@[i]),
    decreases v,
{
    let mut r: Vec<TriggerData> = Vec::new();
    for i in 0..v.len()
        invariant
            r@.len() == i,
            forall|k: int| 0 <= k < i ==> #[trigger] same_trigger(v@[k], r@[k]),
    {
        proof {
            assert(decreases_to!(v => v@[i as int]));
        }
        r.push(v[i].clone());
    }
    r
}

impl Clone for ReturnProfileData {
    fn clone(&self) -> (r: Self)
        ensures
            r == *self,
    {
        match self {
            ReturnProfileData::NoReturns => ReturnProfileData::NoReturns,
            ReturnProfileData::Fixed { rate_bits } => ReturnProfileData::Fixed { rate_bits: *rate_bits },
            ReturnProfileData::Normal { mean_bits, std_dev_bits } => ReturnProfileData::Normal {
                mean_bits: *mean_bits,
                std_dev_bits: *std_dev_bits,
            },
            ReturnProfileData::LogNormal { mean_bits, std_dev_bits } => ReturnProfileData::LogNormal {
                mean_bits: *mean_bits,
                std_dev_bits: *std_dev_bits,
            },
            ReturnProfileData::StudentT { mean_bits, scale_bits, df_bits } => ReturnProfileData::StudentT {
                mean_bits: *mean_bits,
                scale_bits: *scale_bits,
                df_bits: *df_bits,
            },
            ReturnProfileData::RegimeSwitching {
                bull_mean_bits,
                bull_std_dev_bits,
                bear_mean_bits,
                bear_std_dev_bits,
                bull_to_bear_prob_bits,
                bear_to_bull_prob_bits,
            } => ReturnProfileData::RegimeSwitching {
                bull_mean_bits: *bull_mean_bits,
                bull_std_dev_bits: *bull_std_dev_bits,
                bear_mean_bits: *bear_mean_bits,
                bear_std_dev_bits: *bear_std_dev_bits,
                bull_to_bear_prob_bits: *bull_to_bear_prob_bits,
                bear_to_bull_prob_bits: *bear_to_bull_prob_bits,
            },
            ReturnProfileData::Bootstrap { preset } => ReturnProfileData::Bootstrap {
                preset: preset.clone(),
            },
        }
    }
}

impl Clone for AmountData {
    fn clone(&self) -> (r: Self)
        ensures
            r == *self,
        decreases self,
    {
        match self {
            AmountData::Fixed { value_bits } => AmountData::Fixed { value_bits: *value_bits },
            AmountData::InflationAdjusted { inner } => AmountData::InflationAdjusted {
                inner: Box::new((**inner).clone()),
            },
            AmountData::Scale { multiplier_bits, inner } => AmountData::Scale {
                multiplier_bits: *multiplier_bits,
                inner: Box::new((**inner).clone()),
            },
            AmountData::SourceBalance => AmountData::SourceBalance,
            AmountData::ZeroTargetBalance => AmountData::ZeroTargetBalance,
            AmountData::TargetToBalance { target_bits } => AmountData::TargetToBalance {
                target_bits: *target_bits,
            },
            AmountData::AccountBalance { account } => AmountData::AccountBalance {
                account: account.clone(),
            },
            AmountData::AccountCashBalance { account } => AmountData::AccountCashBalance {
                account: account.clone(),
            },
        }
    }
}

} // verus!
