//! The guided prompts: their list, and the instructions each one gives
//! for the arguments it is asked with.

use vstd::prelude::*;

use crate::event_tools::or_else;
use crate::text::{decimal, push_decimal, same_text};

verus! {

/// One argument of a prompt.
#[derive(Clone, Copy, Debug)]
pub struct PromptArgumentInfo {
    pub name: &'static str,
    pub description: &'static str,
    pub required: bool,
}

/// A prompt: its name, what it does, and its arguments.
#[derive(Clone, Debug)]
pub struct PromptInfo {
    pub name: &'static str,
    pub description: &'static str,
    pub arguments: Vec<PromptArgumentInfo>,
}

/// The name, description and required flag of a prompt argument.
pub open spec fn argument_view(a: PromptArgumentInfo) -> (Seq<char>, Seq<char>, bool) {
    (a.name@, a.description@, a.required)
}

/// The name, description and arguments of a prompt.
pub open spec fn prompt_view(p: PromptInfo) -> (Seq<char>, Seq<char>, Seq<(Seq<char>, Seq<char>, bool)>) {
    (p.name@, p.description@, p.arguments@.map_values(|a: PromptArgumentInfo| argument_view(a)))
}

/// The prompts offered, in listing order.
pub open spec fn prompt_catalog() -> Seq<(Seq<char>, Seq<char>, Seq<(Seq<char>, Seq<char>, bool)>)> {
    seq![
        (
            "build_scenario"@,
            BUILD_SCENARIO_DESCRIPTION@,
            seq![("user_context"@, USER_CONTEXT_DESCRIPTION@, true)],
        ),
        (
            "quick_retirement"@,
            QUICK_RETIREMENT_DESCRIPTION@,
            seq![
                ("age"@, "Current age"@, true),
                ("retirement_age"@, "Target retirement age (default: 65)"@, false),
                ("annual_income"@, "Current annual gross income"@, true),
                ("monthly_expenses"@, "Monthly living expenses"@, true),
                ("state"@, "US state abbreviation (e.g. CA, TX)"@, false),
            ],
        ),
    ]
}

/// What the guided scenario prompt does.
pub const BUILD_SCENARIO_DESCRIPTION: &'static str = "Guided workflow to build a complete FinPlan scenario from scratch. Walks through parameters, portfolio, events, and validation.";

/// What the user context argument holds.
pub const USER_CONTEXT_DESCRIPTION: &'static str = "Brief description of the user's financial situation (age, income, goals, accounts, etc.)";

/// What the quick retirement prompt does.
pub const QUICK_RETIREMENT_DESCRIPTION: &'static str = "Quick retirement planning scenario. Provide basic info and get a complete scenario with salary, expenses, 401k, retirement, SS, and RMDs.";

fn argument(name: &'static str, description: &'static str, required: bool) -> (r: PromptArgumentInfo)
    ensures
        argument_view(r) == (name@, description@, required),
{
    PromptArgumentInfo { name, description, required }
}

/// List all available prompts.
pub fn list_prompts() -> (r: Vec<PromptInfo>)
    ensures
        r@.map_values(|p: PromptInfo| prompt_view(p)) == prompt_catalog(),
{
    let build = PromptInfo {
        name: "build_scenario",
        description: BUILD_SCENARIO_DESCRIPTION,
        arguments: vec![argument("user_context", USER_CONTEXT_DESCRIPTION, true)],
    };
    let quick = PromptInfo {
        name: "quick_retirement",
        description: QUICK_RETIREMENT_DESCRIPTION,
        arguments: vec![
            argument("age", "Current age", true),
            argument("retirement_age", "Target retirement age (default: 65)", false),
            argument("annual_income", "Current annual gross income", true),
            argument("monthly_expenses", "Monthly living expenses", true),
            argument("state", "US state abbreviation (e.g. CA, TX)", false),
        ],
    };
    proof {
        assert(build.arguments@.map_values(|a: PromptArgumentInfo| argument_view(a)) =~= prompt_catalog()[0].2);
        assert(quick.arguments@.map_values(|a: PromptArgumentInfo| argument_view(a)) =~= prompt_catalog()[1].2);
    }
    let r = vec![build, quick];
    proof {
        assert(r@.map_values(|p: PromptInfo| prompt_view(p)) =~= prompt_catalog());
    }
    r
}

// ── The prompt texts ──────────────────────────────────────────────────────

/// A prompt's answer: its description and the instructions it gives.
#[derive(Clone, Debug)]
pub struct PromptReply {
    pub description: String,
    pub text: String,
}

impl View for PromptReply {
    type V = (Seq<char>, Seq<char>);

    open spec fn view(&self) -> (Seq<char>, Seq<char>) {
        (self.description@, self.text@)
    }
}

/// The amounts of the quick retirement prompt, written as the reply
/// shows them: whole dollars for the biweekly pay, the monthly expenses,
/// the 401k contribution, the post-retirement spending and the Social
/// Security estimate, and thousands of dollars for the income.
#[derive(Clone, Debug)]
pub struct RetirementFigures {
    pub biweekly_pay: String,
    pub monthly_expenses: String,
    pub contribution_401k: String,
    pub post_retirement_annual: String,
    pub social_security: String,
    pub income_thousands: String,
}

/// The arguments a prompt is asked with.
#[derive(Clone, Debug)]
pub struct PromptArgs {
    pub user_context: Option<String>,
    pub age: Option<u32>,
    pub retirement_age: Option<u32>,
    pub state: Option<String>,
    pub figures: RetirementFigures,
}

/// The guided scenario instructions before the user's context.
pub const BUILD_SCENARIO_HEAD: &'static str = "You are helping a user build a FinPlan financial planning scenario YAML file.\n\n## User Context\n";

/// The guided scenario instructions after the user's context.
pub const BUILD_SCENARIO_TAIL: &'static str = "\n\n## Workflow\nFollow these steps in order, using the available MCP tools:\n\n### 1. Read the Schema\nFirst, read the schema resources to understand the YAML format:\n- Read `schema://full` for the complete reference\n- Read `schema://patterns` for common event patterns\n\n### 2. Set Parameters\nCall `set_parameters` with:\n- birth_date (calculate from user's age)\n- start_date (use current year)\n- duration_years (enough to cover retirement)\n- state_abbreviation (if provided)\n- returns_mode (historical is recommended)\n\n### 3. Build Portfolio\nCall `set_portfolio` to create the portfolio, then use `add_account` for each account:\n- Investment accounts (401k, IRA, Brokerage) with ticker/value pairs\n- Cash accounts (Checking, Savings)\n- Debt accounts if any (Mortgage, loans)\n\n### 4. Map Tickers\nCall `map_tickers` to auto-detect return profiles for portfolio tickers.\n\n### 5. Add Events\nAdd events in this recommended order:\n1. `add_income_event` — salary/income with end at retirement\n2. `add_expense_event` — living expenses\n3. `add_contribution_event` — 401k/IRA contributions\n4. `add_retirement_event` — retirement milestone\n5. `add_sweep_event` — post-retirement withdrawals\n6. `add_social_security_event` — Social Security\n7. `add_rmd_event` — Required Minimum Distributions\n\n### 6. Validate\nCall `validate_scenario` to check for errors.\n\n### 7. Generate YAML\nCall `merge_scenario` to produce the final YAML.\n\n## Important Notes\n- Account names in events must match portfolio account names exactly\n- Use inflation_adjusted amounts for recurring events\n- Set gross=true for employment income (taxes withheld)\n- Retirement event should be once=true\n- Post-retirement sweep should start after retirement event\n";

/// Piece 0 of the fixed text of the quick retirement instructions.
pub const QUICK_RETIREMENT_0: &'static str = "Build a quick retirement scenario with these tools. Execute each step:\n\n## Step 1: Set Parameters\nCall `set_parameters`:\n- birth_date: \"";

/// Piece 1 of the fixed text of the quick retirement instructions.
pub const QUICK_RETIREMENT_1: &'static str = "-06-15\"\n- start_date: \"2026-01-01\"\n- duration_years: ";

/// Piece 2 of the fixed text of the quick retirement instructions.
pub const QUICK_RETIREMENT_2: &'static str = "\n- state_abbreviation: \"";

/// Piece 3 of the fixed text of the quick retirement instructions.
pub const QUICK_RETIREMENT_3: &'static str = "\"\n- returns_mode: \"historical\"\n\n## Step 2: Set Portfolio\nCall `set_portfolio` with name \"Retirement Plan\"\nThen call `add_account` for each:\n1. Checking — type: Checking, value: 25000\n2. 401k — type: Traditional401k, assets: [{ticker: \"FXAIX\", value: 50000}]\n3. Brokerage — type: Brokerage, assets: [{ticker: \"VTI\", value: 30000}]\n\n## Step 3: Map Tickers\nCall `map_tickers` (no overrides needed for common tickers)\n\n## Step 4: Add Events\nCall these tools in order:\n\n1. `add_income_event`: name=\"Salary\", to_account=\"Checking\", amount=";

/// Piece 4 of the fixed text of the quick retirement instructions.
pub const QUICK_RETIREMENT_4: &'static str = ", interval=\"biweekly\", end_event=\"Retirement\"\n2. `add_expense_event`: name=\"Living Expenses\", from_account=\"Checking\", amount=";

/// Piece 5 of the fixed text of the quick retirement instructions.
pub const QUICK_RETIREMENT_5: &'static str = ", interval=\"monthly\"\n3. `add_contribution_event`: name=\"401k Contribution\", from_account=\"Checking\", to_account=\"401k\", asset=\"FXAIX\", amount=";

/// Piece 6 of the fixed text of the quick retirement instructions.
pub const QUICK_RETIREMENT_6: &'static str = ", end_event=\"Retirement\"\n4. `add_retirement_event`: age=";

/// Piece 7 of the fixed text of the quick retirement instructions.
pub const QUICK_RETIREMENT_7: &'static str = "\n5. `add_sweep_event`: name=\"Post-Retirement Spending\", to_account=\"Checking\", target_balance=";

/// Piece 8 of the fixed text of the quick retirement instructions.
pub const QUICK_RETIREMENT_8: &'static str = ", start_event=\"Retirement\"\n6. `add_social_security_event`: monthly_amount=";

/// Piece 9 of the fixed text of the quick retirement instructions.
pub const QUICK_RETIREMENT_9: &'static str = ", start_age=67\n7. `add_rmd_event` (use defaults)\n\n## Step 5: Validate & Generate\nCall `validate_scenario`, then `merge_scenario`.\n";

/// The instructions of the guided scenario prompt, around the user's
/// context ("No context provided" when none is given).
pub open spec fn build_scenario_text(user_context: Option<String>) -> Seq<char> {
    BUILD_SCENARIO_HEAD@ + match user_context {
        Some(c) => c@,
        None => "No context provided"@,
    } + BUILD_SCENARIO_TAIL@
}

/// The guided scenario prompt.
pub fn build_scenario_prompt(user_context: Option<String>) -> (r: PromptReply)
    ensures
        r@ == ("Guided scenario construction workflow"@, build_scenario_text(user_context)),
{
    let mut text = String::from_str(BUILD_SCENARIO_HEAD);
    match &user_context {
        Some(c) => text.append(c.as_str()),
        None => text.append("No context provided"),
    }
    text.append(BUILD_SCENARIO_TAIL);
    PromptReply { description: String::from_str("Guided scenario construction workflow"), text }
}

/// The current age (30 by default) and the retirement age (65 by default).
pub open spec fn ages_of(a: PromptArgs) -> (u32, u32) {
    (or_else(a.age, 30), or_else(a.retirement_age, 65))
}

/// The ages give a birth year and a duration: the age is at most 2025,
/// the retirement age is not below it, and the years from now to thirty
/// years past retirement fit in a `u32`.
pub open spec fn ages_fit(a: PromptArgs) -> bool {
    let (age, retire) = ages_of(a);
    &&& age <= 2025
    &&& age <= retire
    &&& retire - age + 30 <= u32::MAX
}

/// The state abbreviation, CA by default.
pub open spec fn state_of(a: PromptArgs) -> Seq<char> {
    match a.state {
        Some(s) => s@,
        None => "CA"@,
    }
}

/// The instructions of the quick retirement prompt: born mid-2025 minus
/// the age, simulated until thirty years past retirement.
pub open spec fn quick_retirement_text(a: PromptArgs) -> Seq<char> {
    let (age, retire) = ages_of(a);

    QUICK_RETIREMENT_0@
        + decimal((2025 - age) as nat)
        + QUICK_RETIREMENT_1@
        + decimal((retire - age + 30) as nat)
        + QUICK_RETIREMENT_2@
        + state_of(a)
        + QUICK_RETIREMENT_3@
        + a.figures.biweekly_pay@
        + QUICK_RETIREMENT_4@
        + a.figures.monthly_expenses@
        + QUICK_RETIREMENT_5@
        + a.figures.contribution_401k@
        + QUICK_RETIREMENT_6@
        + decimal(retire as nat)
        + QUICK_RETIREMENT_7@
        + a.figures.post_retirement_annual@
        + QUICK_RETIREMENT_8@
        + a.figures.social_security@
        + QUICK_RETIREMENT_9@
}

/// The description of the quick retirement prompt.
pub open spec fn quick_retirement_description(a: PromptArgs) -> Seq<char> {
    let (age, retire) = ages_of(a);
    "Quick retirement plan: age "@ + decimal(age as nat) + ", retire at "@ + decimal(retire as nat)
        + ", $"@ + a.figures.income_thousands@ + "k/yr income"@
}

/// The quick retirement prompt.
pub fn quick_retirement_prompt(args: &PromptArgs) -> (r: PromptReply)
    requires
        ages_fit(*args),
    ensures
        r@ == (quick_retirement_description(*args), quick_retirement_text(*args)),
{
    let age: u32 = match args.age {
        Some(a) => a,
        None => 30,
    };
    let retire: u32 = match args.retirement_age {
        Some(a) => a,
        None => 65,
    };
    let state = match &args.state {
        Some(s) => s.clone(),
        None => String::from_str("CA"),
    };
    let mut text = String::new();

    text.append(QUICK_RETIREMENT_0);
    push_decimal(&mut text, (2025 - age) as usize);
    text.append(QUICK_RETIREMENT_1);
    push_decimal(&mut text, (retire - age + 30) as usize);
    text.append(QUICK_RETIREMENT_2);
    text.append(state.as_str());
    text.append(QUICK_RETIREMENT_3);
    text.append(args.figures.biweekly_pay.as_str());
    text.append(QUICK_RETIREMENT_4);
    text.append(args.figures.monthly_expenses.as_str());
    text.append(QUICK_RETIREMENT_5);
    text.append(args.figures.contribution_401k.as_str());
    text.append(QUICK_RETIREMENT_6);
    push_decimal(&mut text, retire as usize);
    text.append(QUICK_RETIREMENT_7);
    text.append(args.figures.post_retirement_annual.as_str());
    text.append(QUICK_RETIREMENT_8);
    text.append(args.figures.social_security.as_str());
    text.append(QUICK_RETIREMENT_9);
    let mut description = String::from_str("Quick retirement plan: age ");
    push_decimal(&mut description, age as usize);
    description.append(", retire at ");
    push_decimal(&mut description, retire as usize);
    description.append(", $");
    description.append(args.figures.income_thousands.as_str());
    description.append("k/yr income");
    proof {
        assert(text@ =~= quick_retirement_text(*args));
        assert(description@ =~= quick_retirement_description(*args));
    }
    PromptReply { description, text }
}

/// What `get_prompt` answers for a prompt name and its arguments.
pub open spec fn prompt_outcome(name: Seq<char>, a: PromptArgs) -> Result<(Seq<char>, Seq<char>), Seq<char>> {
    if name == "build_scenario"@ {
        Ok(("Guided scenario construction workflow"@, build_scenario_text(a.user_context)))
    } else if name == "quick_retirement"@ {
        Ok((quick_retirement_description(a), quick_retirement_text(a)))
    } else {
        Err("Unknown prompt: "@ + name)
    }
}

/// Get a prompt by name; an unknown name is an error.
pub fn get_prompt(name: &str, args: PromptArgs) -> (r: Result<PromptReply, String>)
    requires
        name@ == "quick_retirement"@ ==> ages_fit(args),
    ensures
        match (r, prompt_outcome(name@, args)) {
            (Ok(reply), Ok(v)) => reply@ == v,
            (Err(e), Err(m)) => e@ == m,
            _ => false,
        },
{
    if same_text(name, "build_scenario") {
        Ok(build_scenario_prompt(args.user_context))
    } else if same_text(name, "quick_retirement") {
        Ok(quick_retirement_prompt(&args))
    } else {
        let mut e = String::from_str("Unknown prompt: ");
        e.append(name);
        Err(e)
    }
}

} // verus!
