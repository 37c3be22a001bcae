//! The scenario-building tools: each one reads its arguments, updates the
//! accumulated state and answers with a text reply.
//!
//! A tool either answers (`Ok`), possibly with a reply marked as an error,
//! or rejects its arguments (`Err`, with the message of the rejection).

use vstd::prelude::*;

use crate::scenario::{
    AccountData, AccountType, AssetAccount, AssetValue, Debt, Owner, PortfolioData,
    Property, SimulationData,
};
use crate::event_tools::or_else;
use crate::state::{holdings, merged_scenario, ScenarioState};
use crate::text::{concat2, concat3, decimal, join, joined, push_decimal, same_text, texts};
use crate::validator::{
    account_names, errors_report, errors_report_text, parameter_issues, scenario_issues,
};

verus! {

/// The answer of a tool: its text, and whether it reports a failure.
#[derive(Clone, Debug)]
pub struct ToolReply {
    pub text: String,
    pub is_error: bool,
}

impl View for ToolReply {
    type V = (Seq<char>, bool);

    open spec fn view(&self) -> (Seq<char>, bool) {
        (self.text@, self.is_error)
    }
}

/// A successful answer.
pub fn text_reply(text: String) -> (r: ToolReply)
    ensures
        r@ == (text@, false),
{
    ToolReply { text, is_error: false }
}

/// An answer that reports a failure.
pub fn error_reply(text: String) -> (r: ToolReply)
    ensures
        r@ == (text@, true),
{
    ToolReply { text, is_error: true }
}

/// The outcome `Err(message)`.
pub open spec fn rejects<T>(r: Result<T, String>, message: Seq<char>) -> bool {
    r matches Err(e) && e@ == message
}

/// The outcome `Ok(reply)` with the given text and error flag.
pub open spec fn answers(r: Result<ToolReply, String>, text: Seq<char>, is_error: bool) -> bool {
    r matches Ok(reply) && reply@ == (text, is_error)
}

impl<R, M, W> ScenarioState<R, M, W> {
    /// The two states agree on everything but the portfolio and the caches.
    pub open spec fn same_except_portfolio(&self, other: &Self) -> bool {
        &&& self.parameters == other.parameters
        &&& self.events == other.events
        &&& self.profiles == other.profiles
        &&& self.assets == other.assets
        &&& self.historical_assets == other.historical_assets
        &&& self.asset_prices == other.asset_prices
        &&& self.asset_tracking_errors == other.asset_tracking_errors
        &&& self.analysis == other.analysis
        &&& self.sweep_parameters == other.sweep_parameters
        &&& self.sweep_mc_iterations == other.sweep_mc_iterations
        &&& self.sweep_default_steps == other.sweep_default_steps
    }

    /// The two states agree on everything but the events and the caches.
    pub open spec fn same_except_events(&self, other: &Self) -> bool {
        &&& self.portfolio == other.portfolio
        &&& self.parameters == other.parameters
        &&& self.profiles == other.profiles
        &&& self.assets == other.assets
        &&& self.historical_assets == other.historical_assets
        &&& self.asset_prices == other.asset_prices
        &&& self.asset_tracking_errors == other.asset_tracking_errors
        &&& self.analysis == other.analysis
        &&& self.sweep_parameters == other.sweep_parameters
        &&& self.sweep_mc_iterations == other.sweep_mc_iterations
        &&& self.sweep_default_steps == other.sweep_default_steps
    }
}

// ── set_portfolio ─────────────────────────────────────────────────────────

/// The reply of `set_portfolio`.
pub open spec fn portfolio_set_text(name: Seq<char>) -> Seq<char> {
    "Portfolio \""@ + name + "\" initialized with 0 accounts. Use add_account to add accounts."@
}

/// Initialize the portfolio with a name (required) and an optional
/// description, and no accounts.
pub fn set_portfolio<R, M, W>(
    state: &mut ScenarioState<R, M, W>,
    name: Option<String>,
    description: Option<String>,
) -> (r: Result<ToolReply, String>)
    ensures
        name is None ==> rejects(r, "name is required"@) && *final(state) == *old(state),
        name matches Some(n) ==> {
            &&& answers(r, portfolio_set_text(n@), false)
            &&& final(state).portfolio matches Some(p) && p.name == n && p.description == description
                && p.accounts@.len() == 0
            &&& final(state).same_except_portfolio(old(state))
            &&& final(state).caches_clear()
        },
{
    let name = match name {
        Some(n) => n,
        None => {
            return Err(String::from_str("name is required"));
        },
    };
    let text = concat3(
        "Portfolio \"",
        name.as_str(),
        "\" initialized with 0 accounts. Use add_account to add accounts.",
    );
    state.portfolio = Some(PortfolioData { name, description, accounts: Vec::new() });
    state.invalidate_simulation_cache();
    Ok(text_reply(text))
}

// ── add_account ───────────────────────────────────────────────────────────

/// The arguments of `add_account`.  `assets` holds the parsed holdings
/// (empty when none were given) or the message rejecting their shape;
/// it is consulted for investment accounts only.
#[derive(Debug)]
pub struct AccountArgs {
    pub name: Option<String>,
    pub account_type: Option<String>,
    pub description: Option<String>,
    pub assets: Result<Vec<AssetValue>, String>,
    pub value_bits: Option<u64>,
    pub return_profile: Option<String>,
    pub balance_bits: Option<u64>,
    pub interest_rate_bits: Option<u64>,
}

/// The investment account types, which hold assets.
pub open spec fn is_investment_type(t: Seq<char>) -> bool {
    t == "Brokerage"@ || t == "Traditional401k"@ || t == "Roth401k"@ || t == "TraditionalIRA"@
        || t == "RothIRA"@
}

/// The cash and property account types, which hold a single value.
pub open spec fn is_cash_type(t: Seq<char>) -> bool {
    t == "Checking"@ || t == "Savings"@ || t == "HSA"@ || t == "Property"@ || t == "Collectible"@
}

/// The debt account types.
pub open spec fn is_debt_type(t: Seq<char>) -> bool {
    t == "Mortgage"@ || t == "LoanDebt"@ || t == "StudentLoanDebt"@
}

/// The account type that `add_account` builds for type name `t`: the
/// given holdings for investment accounts, the value (default 0.0) and
/// optional return profile for cash and property accounts, the balance and
/// interest rate (default 0.0) for debts.
pub open spec fn built_account_type(t: Seq<char>, args: AccountArgs) -> AccountType {
    let holdings = AssetAccount { assets: args.assets->Ok_0 };
    let prop = Property {
        value_bits: or_else(args.value_bits, 0),
        return_profile: args.return_profile,
    };
    let debt = Debt {
        balance_bits: or_else(args.balance_bits, 0),
        interest_rate_bits: or_else(args.interest_rate_bits, 0),
    };
    if t == "Brokerage"@ {
        AccountType::Brokerage(holdings)
    } else if t == "Traditional401k"@ {
        AccountType::Traditional401k(holdings)
    } else if t == "Roth401k"@ {
        AccountType::Roth401k(holdings)
    } else if t == "TraditionalIRA"@ {
        AccountType::TraditionalIRA(holdings)
    } else if t == "RothIRA"@ {
        AccountType::RothIRA(holdings)
    } else if t == "Checking"@ {
        AccountType::Checking(prop)
    } else if t == "Savings"@ {
        AccountType::Savings(prop)
    } else if t == "HSA"@ {
        AccountType::HSA(prop)
    } else if t == "Property"@ {
        AccountType::Property(prop)
    } else if t == "Collectible"@ {
        AccountType::Collectible(prop)
    } else if t == "Mortgage"@ {
        AccountType::Mortgage(debt)
    } else if t == "LoanDebt"@ {
        AccountType::LoanDebt(debt)
    } else {
        AccountType::StudentLoanDebt(debt)
    }
}

/// The name of an account type's variant, as `add_account` takes it.
pub open spec fn account_type_name(t: AccountType) -> Seq<char> {
    match t {
        AccountType::Brokerage(_) => "Brokerage"@,
        AccountType::Traditional401k(_) => "Traditional401k"@,
        AccountType::Roth401k(_) => "Roth401k"@,
        AccountType::TraditionalIRA(_) => "TraditionalIRA"@,
        AccountType::RothIRA(_) => "RothIRA"@,
        AccountType::Checking(_) => "Checking"@,
        AccountType::Savings(_) => "Savings"@,
        AccountType::HSA(_) => "HSA"@,
        AccountType::Property(_) => "Property"@,
        AccountType::Collectible(_) => "Collectible"@,
        AccountType::Mortgage(_) => "Mortgage"@,
        AccountType::LoanDebt(_) => "LoanDebt"@,
        AccountType::StudentLoanDebt(_) => "StudentLoanDebt"@,
    }
}

/// An account built for a type name is of the variant of that name; an
/// investment account holds exactly the given assets.
pub proof fn built_account_has_requested_type(t: Seq<char>, args: AccountArgs)
    requires
        is_investment_type(t) || is_cash_type(t) || is_debt_type(t),
    ensures
        account_type_name(built_account_type(t, args)) == t,
        is_investment_type(t) ==> holdings(built_account_type(t, args))
            == args.assets->Ok_0@.map_values(|v: AssetValue| v.asset@),
{
    reveal_strlit("Brokerage");
    reveal_strlit("Traditional401k");
    reveal_strlit("Roth401k");
    reveal_strlit("TraditionalIRA");
    reveal_strlit("RothIRA");
    reveal_strlit("Checking");
    reveal_strlit("Savings");
    reveal_strlit("HSA");
    reveal_strlit("Property");
    reveal_strlit("Collectible");
    reveal_strlit("Mortgage");
    reveal_strlit("LoanDebt");
    reveal_strlit("StudentLoanDebt");
}

/// The reply of a successful `add_account`.
pub open spec fn account_added_text(t: Seq<char>, name: Seq<char>, count: nat) -> Seq<char> {
    "Added "@ + t + " account \""@ + name + "\". Portfolio now has "@ + decimal(count)
        + " accounts."@
}

fn build_account_type(t: &str, args: AccountArgs) -> (r: Result<AccountType, String>)
    requires
        is_investment_type(t@) || is_cash_type(t@) || is_debt_type(t@),
    ensures
        is_investment_type(t@) && args.assets is Err ==> r == Err::<AccountType, String>(
            args.assets->Err_0,
        ),
        !(is_investment_type(t@) && args.assets is Err) ==> r == Ok::<AccountType, String>(
            built_account_type(t@, args),
        ),
{
    if same_text(t, "Brokerage") || same_text(t, "Traditional401k") || same_text(t, "Roth401k")
        || same_text(t, "TraditionalIRA") || same_text(t, "RothIRA") {
        let holdings = match args.assets {
            Ok(assets) => AssetAccount { assets },
            Err(e) => {
                return Err(e);
            },
        };
        if same_text(t, "Brokerage") {
            Ok(AccountType::Brokerage(holdings))
        } else if same_text(t, "Traditional401k") {
            Ok(AccountType::Traditional401k(holdings))
        } else if same_text(t, "Roth401k") {
            Ok(AccountType::Roth401k(holdings))
        } else if same_text(t, "TraditionalIRA") {
            Ok(AccountType::TraditionalIRA(holdings))
        } else {
            Ok(AccountType::RothIRA(holdings))
        }
    } else if same_text(t, "Checking") || same_text(t, "Savings") || same_text(t, "HSA")
        || same_text(t, "Property") || same_text(t, "Collectible") {
        let prop = Property {
            value_bits: match args.value_bits {
                Some(v) => v,
                None => 0,
            },
            return_profile: args.return_profile,
        };
        if same_text(t, "Checking") {
            Ok(AccountType::Checking(prop))
        } else if same_text(t, "Savings") {
            Ok(AccountType::Savings(prop))
        } else if same_text(t, "HSA") {
            Ok(AccountType::HSA(prop))
        } else if same_text(t, "Property") {
            Ok(AccountType::Property(prop))
        } else {
            Ok(AccountType::Collectible(prop))
        }
    } else {
        let debt = Debt {
            balance_bits: match args.balance_bits {
                Some(v) => v,
                None => 0,
            },
            interest_rate_bits: match args.interest_rate_bits {
                Some(v) => v,
                None => 0,
            },
        };
        if same_text(t, "Mortgage") {
            Ok(AccountType::Mortgage(debt))
        } else if same_text(t, "LoanDebt") {
            Ok(AccountType::LoanDebt(debt))
        } else {
            Ok(AccountType::StudentLoanDebt(debt))
        }
    }
}

fn has_account_named(accounts: &Vec<AccountData>, name: &String) -> (b: bool)
    ensures
        b == account_names(accounts@).contains(name@),
{
    for j in 0..accounts.len()
        invariant
            forall|k: int| 0 <= k < j ==> account_names(accounts@)[k] != name@,
    {
        if accounts[j].name == *name {
            proof {
                assert(account_names(accounts@)[j as int] == name@);
            }
            return true;
        }
    }
    false
}

/// Add an account to the portfolio.
///
/// In order: the name and the account type are required; the type must be
/// one of the thirteen account types (else an error reply), and the
/// holdings of an investment account must have been well formed; a
/// portfolio must have been set; the name must not be taken (else an error
/// reply).  The new account, owned by the primary person, goes last.
pub fn add_account<R, M, W>(state: &mut ScenarioState<R, M, W>, args: AccountArgs) -> (r: Result<
    ToolReply,
    String,
>)
    ensures
        ({
            let t = args.account_type->Some_0@;
            let name = args.name->Some_0@;
            if args.name is None {
                rejects(r, "name is required"@) && *final(state) == *old(state)
            } else if args.account_type is None {
                rejects(r, "account_type is required"@) && *final(state) == *old(state)
            } else if !(is_investment_type(t) || is_cash_type(t) || is_debt_type(t)) {
                answers(r, "Unknown account type: "@ + t, true) && *final(state) == *old(state)
            } else if is_investment_type(t) && args.assets is Err {
                rejects(r, args.assets->Err_0@) && *final(state) == *old(state)
            } else if old(state).portfolio is None {
                rejects(r, "Call set_portfolio first"@) && *final(state) == *old(state)
            } else if account_names(old(state).portfolio->Some_0.accounts@).contains(name) {
                answers(
                    r,
                    "Account \""@ + name + "\" already exists. Use a different name."@,
                    true,
                ) && *final(state) == *old(state)
            } else {
                let before = old(state).portfolio->Some_0;
                &&& answers(r, account_added_text(t, name, before.accounts@.len() + 1), false)
                &&& final(state).portfolio matches Some(p) && p.name == before.name
                    && p.description == before.description && p.accounts@ == before.accounts@.push(
                    AccountData {
                        name: args.name->Some_0,
                        description: args.description,
                        owner: Owner::Primary,
                        account_type: built_account_type(t, args),
                    },
                )
                &&& final(state).same_except_portfolio(old(state))
                &&& final(state).caches_clear()
                &&& final(state).portfolio matches Some(p) && account_type_name(
                    p.accounts@.last().account_type,
                ) == t
            }
        }),
        (old(state).portfolio matches Some(p) && account_names(p.accounts@).no_duplicates()) ==> (
        final(state).portfolio matches Some(q) && account_names(q.accounts@).no_duplicates()),
{
    let ghost args0 = args;
    proof {
        let t0 = args.account_type->Some_0@;
        if is_investment_type(t0) || is_cash_type(t0) || is_debt_type(t0) {
            built_account_has_requested_type(t0, args);
        }
    }
    let name = match args.name {
        Some(n) => n,
        None => {
            return Err(String::from_str("name is required"));
        },
    };
    let acct_type = match args.account_type {
        Some(t) => t,
        None => {
            return Err(String::from_str("account_type is required"));
        },
    };
    let t = acct_type.as_str();
    if !(same_text(t, "Brokerage") || same_text(t, "Traditional401k") || same_text(t, "Roth401k")
        || same_text(t, "TraditionalIRA") || same_text(t, "RothIRA") || same_text(t, "Checking")
        || same_text(t, "Savings") || same_text(t, "HSA") || same_text(t, "Property")
        || same_text(t, "Collectible") || same_text(t, "Mortgage") || same_text(t, "LoanDebt")
        || same_text(t, "StudentLoanDebt")) {
        return Ok(error_reply(concat2("Unknown account type: ", t)));
    }
    let description = args.description;
    let account_type = match build_account_type(
        t,
        AccountArgs {
            name: None,
            account_type: None,
            description: None,
            assets: args.assets,
            value_bits: args.value_bits,
            return_profile: args.return_profile,
            balance_bits: args.balance_bits,
            interest_rate_bits: args.interest_rate_bits,
        },
    ) {
        Ok(at) => at,
        Err(e) => {
            return Err(e);
        },
    };
    if state.portfolio.is_none() {
        return Err(String::from_str("Call set_portfolio first"));
    }
    let duplicate = match &state.portfolio {
        Some(p) => has_account_named(&p.accounts, &name),
        None => false,
    };
    if duplicate {
        return Ok(error_reply(concat3("Account \"", name.as_str(), "\" already exists. Use a different name.")));
    }
    let mut text = concat3("Added ", t, " account \"");
    text.append(name.as_str());
    text.append("\". Portfolio now has ");
    let account = AccountData { name, description, owner: Owner::Primary, account_type };
    let mut portfolio = state.portfolio.take().unwrap();
    let ghost before = portfolio.accounts@;
    portfolio.accounts.push(account);
    proof {
        let b = account_names(before);
        let a = account_names(portfolio.accounts@);
        assert(a =~= b.push(name@));
        if b.no_duplicates() {
            assert forall|i: int, j: int| 0 <= i < a.len() && 0 <= j < a.len() && i != j implies a[i] != a[j] by {
                if i < b.len() && j < b.len() {
                    assert(a[i] == b[i] && a[j] == b[j]);
                } else if i == b.len() {
                    assert(a[j] == b[j]);
                } else {
                    assert(a[i] == b[i]);
                }
            }
        }
    }
    push_decimal(&mut text, portfolio.accounts.len());
    text.append(" accounts.");
    state.portfolio = Some(portfolio);
    state.invalidate_simulation_cache();
    Ok(text_reply(text))
}

// ── get_state_summary ─────────────────────────────────────────────────────

/// The lines of the state summary: the portfolio and its account count,
/// the parameters, the event count, then the ticker mapping counts when
/// there are mappings and the profile count when there are profiles.
pub open spec fn summary_lines<R, M, W>(st: ScenarioState<R, M, W>) -> Seq<Seq<char>> {
    let portfolio = match st.portfolio {
        Some(p) => "Portfolio: \""@ + p.name@ + "\" with "@ + decimal(p.accounts@.len())
            + " accounts"@,
        None => "Portfolio: not set"@,
    };
    let parameters = match st.parameters {
        Some(p) => "Parameters: birth="@ + p.birth_date@ + ", start="@ + p.start_date@
            + ", duration="@ + decimal(p.duration_years as nat) + "yr"@,
        None => "Parameters: not set"@,
    };
    let events = "Events: "@ + decimal(st.events@.len()) + " defined"@;
    let base = seq![portfolio, parameters, events];
    let with_mappings = if st.assets@.len() > 0 || st.historical_assets@.len() > 0 {
        base.push(
            "Ticker mappings: "@ + decimal(st.assets@.len()) + " parametric, "@ + decimal(
                st.historical_assets@.len(),
            ) + " historical"@,
        )
    } else {
        base
    };
    if st.profiles@.len() > 0 {
        with_mappings.push("Profiles: "@ + decimal(st.profiles@.len()) + " defined"@)
    } else {
        with_mappings
    }
}

/// The summary line of the ticker mappings.
pub open spec fn mappings_line(parametric: nat, historical: nat) -> Seq<char> {
    "Ticker mappings: "@ + decimal(parametric) + " parametric, "@ + decimal(historical)
        + " historical"@
}

/// Whenever any ticker is mapped, parametrically or to a historical
/// preset, the summary has a line with both mapping counts, right after
/// the event count.
pub proof fn summary_reports_ticker_mappings<R, M, W>(st: ScenarioState<R, M, W>)
    requires
        st.assets@.len() > 0 || st.historical_assets@.len() > 0,
    ensures
        summary_lines(st).len() >= 4,
        summary_lines(st)[3] == mappings_line(st.assets@.len(), st.historical_assets@.len()),
        summary_lines(st).contains(mappings_line(st.assets@.len(), st.historical_assets@.len())),
{
    assert(summary_lines(st)[3] == mappings_line(st.assets@.len(), st.historical_assets@.len()));
}

/// Summarize the accumulated state, one line per section.
pub fn get_state_summary<R, M, W>(state: &ScenarioState<R, M, W>) -> (r: ToolReply)
    ensures
        r@ == (joined(summary_lines(*state), "\n"@), false),
{
    let mut parts: Vec<String> = Vec::new();
    match &state.portfolio {
        Some(p) => {
            let mut line = concat3("Portfolio: \"", p.name.as_str(), "\" with ");
            push_decimal(&mut line, p.accounts.len());
            line.append(" accounts");
            parts.push(line);
        },
        None => parts.push(String::from_str("Portfolio: not set")),
    }
    match &state.parameters {
        Some(p) => {
            let mut line = concat3("Parameters: birth=", p.birth_date.as_str(), ", start=");
            line.append(p.start_date.as_str());
            line.append(", duration=");
            push_decimal(&mut line, p.duration_years);
            line.append("yr");
            parts.push(line);
        },
        None => parts.push(String::from_str("Parameters: not set")),
    }
    let mut line = String::from_str("Events: ");
    push_decimal(&mut line, state.events.len());
    line.append(" defined");
    parts.push(line);
    if state.assets.len() > 0 || state.historical_assets.len() > 0 {
        let mut line = String::from_str("Ticker mappings: ");
        push_decimal(&mut line, state.assets.len());
        line.append(" parametric, ");
        push_decimal(&mut line, state.historical_assets.len());
        line.append(" historical");
        parts.push(line);
    }
    if state.profiles.len() > 0 {
        let mut line = String::from_str("Profiles: ");
        push_decimal(&mut line, state.profiles.len());
        line.append(" defined");
        parts.push(line);
    }
    proof {
        assert(texts(parts@) =~= summary_lines(*state));
    }
    text_reply(join(&parts, "\n"))
}

/// The summary of a fresh state reports nothing set and no events.
pub proof fn fresh_state_summary<R, M, W>(st: ScenarioState<R, M, W>)
    requires
        st.is_fresh(),
    ensures
        joined(summary_lines(st), "\n"@)
            == "Portfolio: not set\nParameters: not set\nEvents: 0 defined"@,
{
    reveal_strlit("Portfolio: not set\nParameters: not set\nEvents: 0 defined");
    reveal_strlit("Portfolio: not set");
    reveal_strlit("Parameters: not set");
    reveal_strlit("Events: ");
    reveal_strlit(" defined");
    reveal_strlit("\n");
    reveal_strlit("Events: 0 defined");
    let lines = summary_lines(st);
    assert(decimal(0) =~= seq!['0']);
    assert("Events: "@ + decimal(0) + " defined"@ =~= "Events: 0 defined"@);
    assert(lines =~= seq!["Portfolio: not set"@, "Parameters: not set"@, "Events: 0 defined"@]);
    assert(lines.drop_last().drop_last() =~= seq!["Portfolio: not set"@]);
    assert(lines.drop_last() =~= seq!["Portfolio: not set"@, "Parameters: not set"@]);
    assert(joined(lines.drop_last().drop_last(), "\n"@) == "Portfolio: not set"@);
    assert(joined(lines.drop_last(), "\n"@) == "Portfolio: not set"@ + "\n"@
        + "Parameters: not set"@);
    assert(joined(lines, "\n"@) =~= "Portfolio: not set\nParameters: not set\nEvents: 0 defined"@);
}

// ── reset_state ───────────────────────────────────────────────────────────

/// Clear all accumulated state and start fresh.
pub fn reset_state<R, M, W>(state: &mut ScenarioState<R, M, W>) -> (r: ToolReply)
    ensures
        final(state).is_fresh(),
        r@ == ("State reset. All accumulated scenario data cleared."@, false),
{
    *state = ScenarioState::new();
    text_reply(String::from_str("State reset. All accumulated scenario data cleared."))
}

// ── validate_scenario ─────────────────────────────────────────────────────

/// The reply of a validation that found no error.
pub open spec fn valid_scenario_text() -> Seq<char> {
    "✅ Scenario is valid! No errors found.\n\nYou can now call merge_scenario to get the final YAML output."@
}

/// The reply when the scenario cannot be merged yet.
pub open spec fn incomplete_scenario_text() -> Seq<char> {
    "Cannot validate — incomplete scenario:\n"@ + "Portfolio not set. Call set_portfolio first."@
}

/// Two scenarios that differ only in their parameters, both defaults,
/// have the same issues.
proof fn lemma_default_parameters_same_issues(d: SimulationData, m: SimulationData)
    requires
        d.parameters.is_default(),
        m.parameters.is_default(),
        d == (SimulationData { parameters: d.parameters, ..m }),
    ensures
        scenario_issues(d) == scenario_issues(m),
{
    assert(d.parameters.birth_date@ =~= m.parameters.birth_date@);
    assert(parameter_issues(d) == parameter_issues(m));
}

/// Validate the scenario that the accumulated state makes.  The state is
/// taken as a snapshot.  Without a portfolio the reply reports the
/// incomplete scenario; otherwise it confirms a valid scenario, or reports
/// every validation error as an error reply.
pub fn validate_scenario<R, M, W>(state: ScenarioState<R, M, W>) -> (r: ToolReply)
    ensures
        state.portfolio is None ==> r@ == (incomplete_scenario_text(), true),
        state.portfolio is Some ==> ({
            let issues = scenario_issues(merged_scenario(state));
            if issues.len() == 0 {
                r@ == (valid_scenario_text(), false)
            } else {
                r@ == (errors_report_text(issues), true)
            }
        }),
{
    let ghost st = state;
    let data = match state.merge() {
        Ok(d) => d,
        Err(errs) => {
            let text = concat2("Cannot validate — incomplete scenario:\n", join(&errs, "\n").as_str());
            return error_reply(text);
        },
    };
    proof {
        let m = merged_scenario(st);
        if st.parameters is None {
            assert(data.parameters.is_default());
            assert(m.parameters.is_default());
            lemma_default_parameters_same_issues(data, m);
        } else {
            assert(data == m);
        }
    }
    match crate::validator::validate_scenario(&data) {
        Ok(()) => text_reply(
            String::from_str(
                "✅ Scenario is valid! No errors found.\n\nYou can now call merge_scenario to get the final YAML output.",
            ),
        ),
        Err(errors) => error_reply(errors_report(&errors)),
    }
}

} // verus!
