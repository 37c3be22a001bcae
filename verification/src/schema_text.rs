//! Static Markdown and YAML texts that document the scenario format.

use vstd::prelude::*;

verus! {

/// The complete scenario YAML reference: the top-level sections and what makes a scenario valid.
pub const FULL_SCHEMA_TEXT: &'static str = r#"# FinPlan Scenario YAML Reference

A scenario file describes one financial plan. It has these top-level sections:

```yaml
portfolios:          # REQUIRED — the accounts you own and owe
  name: "My Plan"
  accounts: [ ... ]

profiles: [ ... ]    # return profiles for parametric mode
assets: { ... }      # ticker -> profile name (parametric mode)
historical_assets: { ... }  # ticker -> historical preset (historical mode)

events: [ ... ]      # what happens, and when
parameters: { ... }  # dates, inflation, taxes, returns mode
analysis: { ... }    # Monte Carlo and sweep configuration
```

## Sections

- **portfolios** — a name and a list of accounts. Account names must be unique and
  non-empty; events refer to accounts by name. See `schema://accounts`.
- **events** — each event has a unique name, a trigger and a list of effects.
  See `schema://events`, `schema://triggers`, `schema://effects` and `schema://amounts`.
- **parameters** — birth date (YYYY-MM-DD), optional spouse birth date, start date,
  duration in years, inflation, taxes and returns mode. See `schema://parameters`.
- **profiles / assets / historical_assets** — how asset returns are modelled.
  In historical mode every mapped profile must be one of the built-in presets:
  'S&P 500', 'US Small Cap', 'Intl Developed', 'Intl Emerging', 'US Bonds',
  'Intl Bonds', 'Real Estate (REITs)', 'Commodities'. See `schema://profiles`.
- **analysis** — Monte Carlo iterations (at least 10; 1000 recommended) and sweep
  parameters. See `schema://analysis`.

## Validation

A scenario is valid when:
- the portfolio name is not blank and at least one account is defined;
- account, event and profile names are not blank, and account and event names are unique;
- every account or event an effect refers to is defined;
- every parametric asset mapping names a defined profile, and every historical
  mapping names a built-in preset;
- `birth_date` and `start_date` are non-empty `YYYY-MM-DD` dates;
- `duration_years` is positive.

See `schema://patterns` for complete event examples and `schema://example` for a
whole scenario file.
"#;

/// A complete example scenario file.
pub const EXAMPLE_YAML_TEXT: &'static str = r#"portfolios:
  name: Retirement Plan
  accounts:
    - name: Checking
      type: Checking
      value: 25000.0
    - name: 401k
      type: Traditional401k
      assets:
        - asset: FXAIX
          value: 50000.0
    - name: Brokerage
      type: Brokerage
      assets:
        - asset: VTI
          value: 30000.0

historical_assets:
  FXAIX: "S&P 500"
  VTI: "S&P 500"

events:
  - name: Salary
    trigger:
      type: Repeating
      interval: biweekly
      end:
        type: RelativeToEvent
        event: Retirement
        offset: { unit: Months, value: 0 }
    effects:
      - type: Income
        to: Checking
        amount:
          type: InflationAdjusted
          inner: { type: Fixed, value: 3846.0 }
        gross: true
        taxable: true

  - name: Living Expenses
    trigger:
      type: Repeating
      interval: monthly
    effects:
      - type: Expense
        from: Checking
        amount:
          type: InflationAdjusted
          inner: { type: Fixed, value: 5000.0 }

  - name: 401k Contribution
    trigger:
      type: Repeating
      interval: yearly
      end:
        type: RelativeToEvent
        event: Retirement
        offset: { unit: Months, value: 0 }
    effects:
      - type: AssetPurchase
        from: Checking
        to_account: 401k
        asset: FXAIX
        amount: { type: Fixed, value: 15000.0 }

  - name: Retirement
    trigger:
      type: Age
      years: 65
    once: true

  - name: Post-Retirement Spending
    trigger:
      type: Repeating
      interval: yearly
      start:
        type: RelativeToEvent
        event: Retirement
        offset: { unit: Months, value: 0 }
    effects:
      - type: Sweep
        to: Checking
        amount: { type: TargetToBalance, target: 51000.0 }
        strategy: penalty_aware
        gross: false
        taxable: true
        lot_method: fifo

  - name: Social Security
    trigger:
      type: Repeating
      interval: monthly
      start:
        type: Age
        years: 67
    effects:
      - type: Income
        to: Checking
        amount: { type: Fixed, value: 2875.0 }
        gross: true
        taxable: true

  - name: RMD
    trigger:
      type: Repeating
      interval: yearly
      start:
        type: Age
        years: 73
    effects:
      - type: ApplyRmd
        destination: Checking
        lot_method: fifo

parameters:
  birth_date: "1990-06-15"
  start_date: "2026-01-01"
  duration_years: 60
  inflation:
    type: USHistorical
    distribution: lognormal
  tax_config:
    state_rate: 0.093
    capital_gains_rate: 0.15
    federal_brackets: single2024
  returns_mode: historical
  historical_block_size: 5

analysis:
  mc_iterations: 1000
  default_steps: 6
"#;

/// The thirteen account types with their fields and examples.
pub const ACCOUNTS_SCHEMA_TEXT: &'static str = r#"# Account Types

FinPlan supports 13 account types in 3 categories.

## Investment Accounts (hold assets)

These accounts hold named assets (tickers) with dollar values.

| Type | YAML `type` | Fields |
|------|------------|--------|
| Brokerage | `Brokerage` | `assets: [{asset, value}]` |
| Traditional 401k | `Traditional401k` | `assets: [{asset, value}]` |
| Roth 401k | `Roth401k` | `assets: [{asset, value}]` |
| Traditional IRA | `TraditionalIRA` | `assets: [{asset, value}]` |
| Roth IRA | `RothIRA` | `assets: [{asset, value}]` |

Example:
```yaml
- name: Brokerage
  type: Brokerage
  assets:
    - asset: VTI
      value: 150000.0
    - asset: BND
      value: 50000.0
```

## Cash / Property Accounts

These accounts hold a single dollar value with an optional return profile.

| Type | YAML `type` | Fields |
|------|------------|--------|
| Checking | `Checking` | `value`, `return_profile` (optional) |
| Savings | `Savings` | `value`, `return_profile` (optional) |
| HSA | `HSA` | `value`, `return_profile` (optional) |
| Property | `Property` | `value`, `return_profile` (optional) |
| Collectible | `Collectible` | `value`, `return_profile` (optional) |

Example:
```yaml
- name: Savings
  type: Savings
  value: 45000.0
  return_profile: US T-Bills
```

## Debt Accounts

These accounts represent liabilities with a balance and interest rate.

| Type | YAML `type` | Fields |
|------|------------|--------|
| Mortgage | `Mortgage` | `balance`, `interest_rate` |
| Loan | `LoanDebt` | `balance`, `interest_rate` |
| Student Loan | `StudentLoanDebt` | `balance`, `interest_rate` |

Example:
```yaml
- name: Mortgage
  type: Mortgage
  balance: 350000.0
  interest_rate: 0.054
```
"#;

/// The structure of an event: trigger, effects, once, enabled.
pub const EVENTS_SCHEMA_TEXT: &'static str = r#"# Event Structure

Every event has this structure:

```yaml
- name: "Event Name"          # REQUIRED — unique identifier
  description: "..."          # optional
  trigger: { ... }            # REQUIRED — when this event fires
  effects:                    # REQUIRED — what happens when it fires
    - { type: Income, ... }
  once: false                 # default false — if true, fires only once
  enabled: true               # default true — if false, event is skipped
```

## Key Concepts

- **Trigger**: Determines *when* the event fires (date, age, balance threshold, repeating schedule, etc.)
- **Effects**: One or more actions that happen when the trigger fires (income, expense, transfer, etc.)
- **once**: If `true`, the event fires exactly once and is then disabled
- **enabled**: Set to `false` to skip the event without deleting it

Events reference accounts by name (must match an account in `portfolios.accounts`).
Events can reference other events by name for triggers like `RelativeToEvent` or effects like `TriggerEvent`.
"#;

/// Every trigger type with its fields and a YAML example.
pub const TRIGGERS_SCHEMA_TEXT: &'static str = r#"# Trigger Types

## Date
Fire on a specific date.
```yaml
trigger:
  type: Date
  date: "2028-06-17"
```

## Age
Fire when the person reaches a specific age.
```yaml
trigger:
  type: Age
  years: 65
  months: 6    # optional
```

## SpouseAge
Fire when the spouse reaches a specific age. Requires `parameters.spouse_birth_date`;
without it the trigger never fires.
```yaml
trigger:
  type: SpouseAge
  years: 62
  months: 0    # optional
```

## RelativeToEvent
Fire relative to when another event fires.
```yaml
trigger:
  type: RelativeToEvent
  event: Retirement
  offset:
    unit: Months    # Days, Months, or Years
    value: 0
```

## AccountBalance
Fire when an account balance crosses a threshold.
```yaml
trigger:
  type: AccountBalance
  account: Checking
  threshold:
    comparison: LessThanOrEqual
    value: 5000.0
```

## AssetBalance
Fire when a specific asset's balance crosses a threshold.
```yaml
trigger:
  type: AssetBalance
  account: Brokerage
  asset: VTI
  threshold:
    comparison: GreaterThanOrEqual
    value: 100000.0
```

## NetWorth
Fire when total net worth crosses a threshold.
```yaml
trigger:
  type: NetWorth
  threshold:
    comparison: GreaterThanOrEqual
    value: 1000000.0
```

## And / Or
Combine multiple triggers with logical AND or OR.
```yaml
trigger:
  type: And
  conditions:
    - type: Age
      years: 65
    - type: AccountBalance
      account: 401k
      threshold:
        comparison: GreaterThanOrEqual
        value: 500000.0
```

## Repeating
Fire on a recurring schedule with optional start/end.
```yaml
trigger:
  type: Repeating
  interval: monthly          # weekly, biweekly, monthly, quarterly, yearly
  start:                     # optional — when to start repeating
    type: Age
    years: 30
  end:                       # optional — when to stop repeating
    type: RelativeToEvent
    event: Retirement
    offset:
      unit: Months
      value: 0
  max_occurrences: 360       # optional — max number of times to fire
```

## Manual
Only fires when triggered by a `TriggerEvent` effect from another event.
```yaml
trigger:
  type: Manual
```
"#;

/// Every effect type with its fields and a YAML example.
pub const EFFECTS_SCHEMA_TEXT: &'static str = r#"# Effect Types

## Income
Receive income into an account.
```yaml
- type: Income
  to: Checking
  amount: { type: Fixed, value: 5000.0 }
  gross: true       # default false — if true, federal+state taxes are withheld
  taxable: true     # default true — if true, amount is added to taxable income
```

## Expense
Pay an expense from an account.
```yaml
- type: Expense
  from: Checking
  amount: { type: InflationAdjusted, inner: { type: Fixed, value: 5500.0 } }
```

## AssetPurchase
Buy assets (shares) with cash.
```yaml
- type: AssetPurchase
  from: Checking
  to_account: 401k
  asset: FXAIX
  amount: { type: Fixed, value: 23500.0 }
```

## AssetSale
Sell assets from an account.
```yaml
- type: AssetSale
  from: Brokerage
  asset: VTI          # optional — if omitted, sells pro-rata
  amount: { type: Fixed, value: 10000.0 }
  gross: false
  lot_method: fifo    # fifo, lifo, highest_cost, lowest_cost, average_cost
```

## Sweep
Liquidate from multiple accounts to fund a target account.
```yaml
- type: Sweep
  to: Checking
  amount: { type: TargetToBalance, target: 80000.0 }
  strategy: penalty_aware   # penalty_aware, tax_efficient, tax_deferred_first, tax_free_first, pro_rata
  gross: false
  taxable: true
  lot_method: fifo
  exclude_accounts: []      # optional — accounts to skip
```

## TriggerEvent / PauseEvent / ResumeEvent / TerminateEvent
Control other events.
```yaml
- type: TriggerEvent
  event: "Buy House"
- type: PauseEvent
  event: "401k Contribution"
- type: ResumeEvent
  event: "401k Contribution"
- type: TerminateEvent
  event: "Old Salary"
```

## ApplyRmd
Apply Required Minimum Distributions from tax-deferred accounts.
```yaml
- type: ApplyRmd
  destination: Checking
  lot_method: fifo
```

## AdjustBalance
Directly adjust an account's balance.
```yaml
- type: AdjustBalance
  account: Mortgage
  amount: { type: Fixed, value: -350000.0 }
```

## CashTransfer
Transfer cash between accounts.
```yaml
- type: CashTransfer
  from: Checking
  to: Mortgage
  amount: { type: Fixed, value: 3000.0 }
```

## Random
Randomly trigger events based on probability.
```yaml
- type: Random
  probability: 0.05
  on_true: "Job Loss"
  on_false: null      # optional
```

## RsuVesting
RSU share vesting with optional sell-to-cover.
```yaml
- type: RsuVesting
  to: Brokerage
  asset: COMPANY
  units: 100.0
  sell_to_cover: true
  lot_method: fifo
```
"#;

/// Every amount type, with nesting examples.
pub const AMOUNTS_SCHEMA_TEXT: &'static str = r#"# Amount Types

Amounts can be nested/composed. A bare number is treated as `Fixed`.

## Fixed
A fixed dollar amount.
```yaml
amount: 4500.0
# or explicitly:
amount: { type: Fixed, value: 4500.0 }
```

## InflationAdjusted
Wraps another amount to maintain purchasing power over time.
```yaml
amount:
  type: InflationAdjusted
  inner: { type: Fixed, value: 5500.0 }
```

## Scale
Multiply another amount by a factor (useful for percentages).
```yaml
amount:
  type: Scale
  multiplier: 0.04
  inner: { type: AccountBalance, account: "401k" }
```

## SourceBalance
Transfer the entire source account balance.
```yaml
amount: { type: SourceBalance }
```

## ZeroTargetBalance
Transfer enough to zero out the target balance (debt payoff).
```yaml
amount: { type: ZeroTargetBalance }
```

## TargetToBalance
Transfer enough to bring the target account to a specified balance.
```yaml
amount: { type: TargetToBalance, target: 80000.0 }
```

## AccountBalance
Reference an account's total balance as the amount.
```yaml
amount: { type: AccountBalance, account: "Checking" }
```

## AccountCashBalance
Reference an account's cash-only balance.
```yaml
amount: { type: AccountCashBalance, account: "Savings" }
```
"#;

/// The parameters section: dates, inflation, taxes, returns mode.
pub const PARAMETERS_SCHEMA_TEXT: &'static str = r#"# Parameters

The `parameters` section configures simulation timing, inflation, taxes, and returns mode.

```yaml
parameters:
  birth_date: "1985-06-15"       # REQUIRED — YYYY-MM-DD
  spouse_birth_date: "1987-03-01" # optional — YYYY-MM-DD; enables SpouseAge triggers
  start_date: "2026-01-01"       # Simulation start date
  duration_years: 40             # How many years to simulate

  inflation:
    type: USHistorical           # None, Fixed, Normal, LogNormal, USHistorical
    distribution: lognormal      # For USHistorical: fixed, normal, lognormal

  tax_config:
    state_rate: 0.05             # State income tax rate (decimal)
    capital_gains_rate: 0.15     # Long-term capital gains rate
    federal_brackets: single2024 # single2024, married_joint2024, or custom

  returns_mode: historical       # parametric or historical
  historical_block_size: 5       # Block bootstrap size (historical mode)
  seed: null                     # Optional seed for reproducibility
```

## Spouse
`spouse_birth_date` is optional. When it is set, events can use `SpouseAge`
triggers and yearly results report the spouse's age; when it is omitted the
scenario models a single person.

## Inflation Types
- `None` — no inflation
- `Fixed { rate: 0.03 }` — constant annual inflation
- `Normal { mean: 0.03, std_dev: 0.01 }` — normally distributed
- `LogNormal { mean: 0.03, std_dev: 0.01 }` — log-normally distributed
- `USHistorical { distribution: lognormal }` — sample from historical US CPI data

## Federal Bracket Presets
- `single2024` — 2024 single filer brackets
- `married_joint2024` — 2024 married filing jointly brackets

## Returns Mode
- `parametric` — use profiles defined in `profiles:` section with `assets:` mappings
- `historical` — use bootstrap sampling from historical data via `historical_assets:` mappings
"#;

/// Return profile types and ticker mappings.
pub const PROFILES_SCHEMA_TEXT: &'static str = r#"# Return Profiles

Return profiles define how asset returns are modeled in **parametric** mode.

```yaml
profiles:
  - name: "S&P 500"
    description: "US large cap equity"
    type: Normal
    mean: 0.1147
    std_dev: 0.1815

  - name: HYSA
    type: Fixed
    rate: 0.045
```

## Profile Types

| Type | Fields | Description |
|------|--------|-------------|
| `None` | — | No returns (0%) |
| `Fixed` | `rate` | Constant annual return |
| `Normal` | `mean`, `std_dev` | Normally distributed returns |
| `LogNormal` | `mean`, `std_dev` | Log-normally distributed returns |
| `StudentT` | `mean`, `scale`, `df` | Fat-tailed distribution |
| `RegimeSwitching` | `bull_mean`, `bull_std_dev`, `bear_mean`, `bear_std_dev`, `bull_to_bear_prob`, `bear_to_bull_prob` | Two-state market model |
| `Bootstrap` | `preset` | Sample from historical data |

## Bootstrap Presets
Available preset keys: `sp500`, `us_small_cap`, `us_tbills`, `us_long_bonds`, `intl_developed`, `emerging_markets`, `reits`, `gold`, `us_agg_bonds`, `us_corporate_bonds`, `tips`

## Asset Mappings

In **parametric** mode, map tickers to profile names:
```yaml
assets:
  VFIAX: "S&P 500"
  BND: "US Agg Bond"
```

In **historical** mode, map tickers to preset display names:
```yaml
historical_assets:
  VFIAX: "S&P 500"
  BND: "US Agg Bonds"
```
"#;

/// Monte Carlo iterations, sweep parameters and metrics.
pub const ANALYSIS_SCHEMA_TEXT: &'static str = r#"# Analysis Configuration

The `analysis` section controls Monte Carlo simulation and sweep parameters.

```yaml
analysis:
  mc_iterations: 500        # Number of Monte Carlo iterations per sweep point
  default_steps: 6           # Default number of steps for sweep parameters

  sweep_parameters:          # Parameters to sweep over
    - event_name: Retirement
      sweep_type: trigger_age
      min_value: 55.0
      max_value: 70.0
      step_count: 6

  selected_metrics:          # Metrics to compute
    - success_rate
    - p50_final_net_worth

  chart_configs:             # Result visualizations
    - chart_type: scatter_1d
      x_param_index: 0
      metric: success_rate
```

## Sweep Types
- `trigger_age` — sweep the age trigger of an event
- `trigger_date` — sweep the date trigger year
- `effect_value` — sweep the dollar amount of an effect
- `repeating_start_age` — sweep the start age of a repeating event
- `repeating_end_age` — sweep the end age of a repeating event

## Metrics
- `success_rate` — percentage of simulations that don't run out of money
- `p5_final_net_worth` through `p95_final_net_worth` — percentile final net worth
- `lifetime_taxes` — total taxes paid over simulation
- `max_drawdown` — maximum peak-to-trough net worth decline
- `net_worth_at_age { age: 65 }` — net worth at a specific age
"#;

/// Reusable event pattern templates.
pub const PATTERNS_SCHEMA_TEXT: &'static str = r#"# Common Scenario Patterns

## Basic Salary + Expenses
```yaml
events:
  - name: Salary
    trigger:
      type: Repeating
      interval: biweekly
      end:
        type: RelativeToEvent
        event: Retirement
        offset: { unit: Months, value: 0 }
    effects:
      - type: Income
        to: Checking
        amount:
          type: InflationAdjusted
          inner: { type: Fixed, value: 4500.0 }
        gross: true
        taxable: true

  - name: Living Expenses
    trigger:
      type: Repeating
      interval: monthly
    effects:
      - type: Expense
        from: Checking
        amount:
          type: InflationAdjusted
          inner: { type: Fixed, value: 5500.0 }
```

## 401k Contribution
```yaml
  - name: 401k Contribution
    trigger:
      type: Repeating
      interval: yearly
      end:
        type: RelativeToEvent
        event: Retirement
        offset: { unit: Months, value: 0 }
    effects:
      - type: AssetPurchase
        from: Checking
        to_account: 401k
        asset: FXAIX
        amount: { type: Fixed, value: 23500.0 }
```

## Retirement + Post-Retirement Spending
```yaml
  - name: Retirement
    trigger:
      type: Age
      years: 65
    once: true

  - name: Post-Retirement Spending
    trigger:
      type: Repeating
      interval: yearly
      start:
        type: RelativeToEvent
        event: Retirement
        offset: { unit: Months, value: 0 }
    effects:
      - type: Sweep
        to: Checking
        amount: { type: TargetToBalance, target: 80000.0 }
        strategy: penalty_aware
        gross: false
        taxable: true
        lot_method: fifo
```

## Social Security
```yaml
  - name: Social Security
    trigger:
      type: Repeating
      interval: monthly
      start:
        type: Age
        years: 67
    effects:
      - type: Income
        to: Checking
        amount: { type: Fixed, value: 2800.0 }
        gross: true
        taxable: true
```

## Required Minimum Distributions (RMD)
```yaml
  - name: RMD
    trigger:
      type: Repeating
      interval: yearly
      start:
        type: Age
        years: 73
    effects:
      - type: ApplyRmd
        destination: Checking
        lot_method: fifo
```

## Home Purchase with Mortgage
```yaml
  - name: Buy House
    trigger:
      type: Date
      date: "2028-06-17"
    effects:
      - type: AdjustBalance
        account: Mortgage
        amount: { type: Fixed, value: -480000.0 }
      - type: AdjustBalance
        account: House Value
        amount: { type: Fixed, value: 600000.0 }
      - type: Expense
        from: Checking
        amount: { type: Fixed, value: 120000.0 }
    once: true

  - name: Mortgage Payment
    trigger:
      type: Repeating
      interval: monthly
      start:
        type: RelativeToEvent
        event: Buy House
        offset: { unit: Months, value: 1 }
      end:
        type: AccountBalance
        account: Mortgage
        threshold:
          comparison: GreaterThanOrEqual
          value: 0.0
    effects:
      - type: CashTransfer
        from: Checking
        to: Mortgage
        amount: { type: Fixed, value: 3000.0 }
```
"#;

/// The complete scenario YAML reference: the top-level sections and what makes a scenario valid.
pub fn full_schema() -> (s: &'static str)
    ensures
        s@ == FULL_SCHEMA_TEXT@,
{
    FULL_SCHEMA_TEXT
}

/// A complete example scenario file.
pub fn example_yaml() -> (s: &'static str)
    ensures
        s@ == EXAMPLE_YAML_TEXT@,
{
    EXAMPLE_YAML_TEXT
}

/// The thirteen account types with their fields and examples.
pub fn accounts_schema() -> (s: &'static str)
    ensures
        s@ == ACCOUNTS_SCHEMA_TEXT@,
{
    ACCOUNTS_SCHEMA_TEXT
}

/// The structure of an event: trigger, effects, once, enabled.
pub fn events_schema() -> (s: &'static str)
    ensures
        s@ == EVENTS_SCHEMA_TEXT@,
{
    EVENTS_SCHEMA_TEXT
}

/// Every trigger type with its fields and a YAML example.
pub fn triggers_schema() -> (s: &'static str)
    ensures
        s@ == TRIGGERS_SCHEMA_TEXT@,
{
    TRIGGERS_SCHEMA_TEXT
}

/// Every effect type with its fields and a YAML example.
pub fn effects_schema() -> (s: &'static str)
    ensures
        s@ == EFFECTS_SCHEMA_TEXT@,
{
    EFFECTS_SCHEMA_TEXT
}

/// Every amount type, with nesting examples.
pub fn amounts_schema() -> (s: &'static str)
    ensures
        s@ == AMOUNTS_SCHEMA_TEXT@,
{
    AMOUNTS_SCHEMA_TEXT
}

/// The parameters section: dates, inflation, taxes, returns mode.
pub fn parameters_schema() -> (s: &'static str)
    ensures
        s@ == PARAMETERS_SCHEMA_TEXT@,
{
    PARAMETERS_SCHEMA_TEXT
}

/// Return profile types and ticker mappings.
pub fn profiles_schema() -> (s: &'static str)
    ensures
        s@ == PROFILES_SCHEMA_TEXT@,
{
    PROFILES_SCHEMA_TEXT
}

/// Monte Carlo iterations, sweep parameters and metrics.
pub fn analysis_schema() -> (s: &'static str)
    ensures
        s@ == ANALYSIS_SCHEMA_TEXT@,
{
    ANALYSIS_SCHEMA_TEXT
}

/// Reusable event pattern templates.
pub fn patterns_schema() -> (s: &'static str)
    ensures
        s@ == PATTERNS_SCHEMA_TEXT@,
{
    PATTERNS_SCHEMA_TEXT
}

} // verus!
