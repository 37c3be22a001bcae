use finplan::event_tools::{
    add_contribution_event, add_expense_event, add_income_event, add_retirement_event,
    add_rmd_event, add_social_security_event, ContributionArgs, ExpenseArgs, IncomeArgs,
    SocialSecurityArgs,
};
use finplan::parameter_tools::{resolve_state_rate, set_parameters, ParametersArgs};
use finplan::scenario::{AccountType, AssetMapping, AssetValue, ReturnProfileData, ReturnsMode};
use finplan::state::ScenarioState;
use finplan::ticker_tools::{map_tickers, PresetInfo, ProfileSuggestion, TickerCatalog};
use finplan::tools::{
    add_account, get_state_summary, reset_state, set_portfolio, validate_scenario, AccountArgs,
    ToolReply,
};

type State = ScenarioState<(), (), ()>;

fn s(x: &str) -> Option<String> {
    Some(x.to_string())
}

fn is_ok(r: &ToolReply) -> bool {
    !r.is_error
}

fn account(name: &str, account_type: &str) -> AccountArgs {
    AccountArgs {
        name: s(name),
        account_type: s(account_type),
        description: None,
        assets: Ok(Vec::new()),
        value_bits: None,
        return_profile: None,
        balance_bits: None,
        interest_rate_bits: None,
    }
}

fn cash_account(name: &str, value: f64) -> AccountArgs {
    AccountArgs { value_bits: Some(value.to_bits()), ..account(name, "Checking") }
}

fn invest_account(name: &str, account_type: &str, ticker: &str, value: f64) -> AccountArgs {
    AccountArgs {
        assets: Ok(vec![AssetValue { asset: ticker.to_string(), value_bits: value.to_bits() }]),
        ..account(name, account_type)
    }
}

fn params(birth: &str) -> ParametersArgs {
    ParametersArgs {
        birth_date: s(birth),
        start_date: None,
        duration_years: None,
        inflation_type: None,
        inflation_rate_bits: None,
        inflation_mean_bits: None,
        inflation_std_dev_bits: None,
        state_abbreviation: None,
        state_rate_bits: None,
        capital_gains_rate_bits: None,
        federal_brackets: None,
        returns_mode: None,
        historical_block_size: None,
        spouse_birth_date: None,
        seed: None,
    }
}

fn income(name: Option<String>, to: &str, amount: f64) -> IncomeArgs {
    IncomeArgs {
        name,
        to_account: s(to),
        amount_bits: Some(amount.to_bits()),
        interval: None,
        gross: None,
        taxable: None,
        inflation_adjusted: None,
        end_event: None,
        start_age: None,
    }
}

fn set_params(st: &mut State, a: ParametersArgs) -> ToolReply {
    let rate = f64::from_bits(resolve_state_rate(&a));
    let percent = format!("{:.1}", rate * 100.0);
    set_parameters(st, a, &percent).unwrap()
}

fn catalogue() -> TickerCatalog {
    TickerCatalog {
        historical: vec![
            AssetMapping { asset: "FXAIX".to_string(), profile: "S&P 500".to_string() },
            AssetMapping { asset: "VOO".to_string(), profile: "S&P 500".to_string() },
        ],
        parametric: vec![ProfileSuggestion {
            ticker: "VTI".to_string(),
            profile_name: "US Total Market".to_string(),
            profile: ReturnProfileData::Normal {
                mean_bits: 0.095f64.to_bits(),
                std_dev_bits: 0.165f64.to_bits(),
            },
        }],
        presets: vec![PresetInfo {
            name: "S&P 500".to_string(),
            description: "US large caps".to_string(),
        }],
    }
}

#[test]
fn test_full_scenario_build() {
    let mut st = State::new();

    let r = set_portfolio(&mut st, s("Sarah's Plan"), None).unwrap();
    assert!(is_ok(&r), "set_portfolio failed: {}", r.text);

    let r = add_account(&mut st, cash_account("Checking", 15000.0)).unwrap();
    assert!(is_ok(&r), "add checking failed: {}", r.text);

    let r = add_account(&mut st, invest_account("Company 401k", "Traditional401k", "FXAIX", 200000.0))
        .unwrap();
    assert!(is_ok(&r), "add 401k failed: {}", r.text);

    let r = add_account(&mut st, invest_account("Roth IRA", "RothIRA", "VOO", 75000.0)).unwrap();
    assert!(is_ok(&r), "add roth ira failed: {}", r.text);

    let r = set_params(&mut st, params("1985-06-15"));
    assert!(is_ok(&r), "set_parameters failed: {}", r.text);

    let r = add_income_event(
        &mut st,
        IncomeArgs {
            interval: s("biweekly"),
            end_event: s("Retirement"),
            ..income(s("Salary"), "Checking", 5769.23)
        },
    )
    .unwrap();
    assert!(is_ok(&r), "add_income_event failed: {}", r.text);

    let r = add_expense_event(
        &mut st,
        ExpenseArgs {
            name: s("Living Expenses"),
            from_account: s("Checking"),
            amount_bits: Some(6000.0f64.to_bits()),
            interval: None,
            inflation_adjusted: None,
            end_event: None,
            start_event: None,
            start_age: None,
        },
    )
    .unwrap();
    assert!(is_ok(&r), "add_expense_event failed: {}", r.text);

    let r = add_contribution_event(
        &mut st,
        ContributionArgs {
            name: s("401k Contribution"),
            from_account: s("Checking"),
            to_account: s("Company 401k"),
            asset: s("FXAIX"),
            amount_bits: Some(23500.0f64.to_bits()),
            interval: None,
            end_event: s("Retirement"),
        },
    )
    .unwrap();
    assert!(is_ok(&r), "add_contribution_event failed: {}", r.text);

    let r = add_retirement_event(&mut st, None, Some(65)).unwrap();
    assert!(is_ok(&r), "add_retirement_event failed: {}", r.text);

    let r = add_social_security_event(
        &mut st,
        SocialSecurityArgs {
            name: None,
            to_account: s("Checking"),
            start_age: Some(67),
            monthly_amount_bits: 2800.0f64.to_bits(),
            monthly_display: "2800".to_string(),
        },
    )
    .unwrap();
    assert!(is_ok(&r), "add_social_security_event failed: {}", r.text);

    let r = add_rmd_event(&mut st, None, s("Checking"), None, None).unwrap();
    assert!(is_ok(&r), "add_rmd_event failed: {}", r.text);

    let r = map_tickers(&mut st, &Vec::new(), &catalogue());
    assert!(is_ok(&r), "map_tickers failed: {}", r.text);
    assert!(r.text.contains("FXAIX"), "Expected FXAIX in ticker mapping output");
    assert!(r.text.contains("VOO"), "Expected VOO in ticker mapping output");

    let r = validate_scenario(st.clone());
    assert!(is_ok(&r), "validate_scenario failed:\n{}", r.text);

    let merged = st.clone().merge().expect("merge failed");
    assert_eq!(merged.portfolios.name, "Sarah's Plan", "merged scenario missing portfolio name");
    assert!(merged.portfolios.accounts.iter().any(|a| a.name == "Checking"), "missing Checking account");
    assert!(
        merged.portfolios.accounts.iter().any(|a| match &a.account_type {
            AccountType::Traditional401k(h) => h.assets.iter().any(|v| v.asset == "FXAIX"),
            _ => false,
        }),
        "missing FXAIX ticker"
    );
    assert!(merged.events.iter().any(|e| e.name == "Salary"), "missing Salary event");
    assert!(merged.events.iter().any(|e| e.name == "Retirement"), "missing Retirement event");

    let portfolio = st.portfolio.as_ref().expect("portfolio should be set");
    assert_eq!(portfolio.accounts.len(), 3, "Expected 3 accounts");
    assert_eq!(st.events.len(), 6, "Expected 6 events");
    assert!(!st.historical_assets.is_empty(), "Expected historical asset mappings");
}

#[test]
fn test_state_summary_empty() {
    let st = State::new();
    let r = get_state_summary(&st);
    assert!(is_ok(&r));
    assert!(r.text.contains("Portfolio: not set"), "Missing 'Portfolio: not set'");
    assert!(r.text.contains("Parameters: not set"), "Missing 'Parameters: not set'");
    assert!(r.text.contains("Events: 0 defined"), "Missing 'Events: 0 defined'");
}

#[test]
fn test_reset_clears_state() {
    let mut st = State::new();
    set_portfolio(&mut st, s("Temp"), None).unwrap();
    set_params(&mut st, params("1980-01-01"));
    add_income_event(&mut st, income(s("Job"), "Checking", 1000.0)).unwrap();

    let before = get_state_summary(&st).text;
    assert!(before.contains("Events: 1 defined"), "Expected 1 event before reset");

    reset_state(&mut st);

    let after = get_state_summary(&st).text;
    assert!(after.contains("Portfolio: not set"), "Expected portfolio reset");
    assert!(after.contains("Events: 0 defined"), "Expected 0 events after reset");
}

#[test]
fn test_merge_fails_without_portfolio() {
    let st = State::new();
    let r = st.merge();
    assert!(r.is_err(), "Expected error result without portfolio");
}

#[test]
fn test_add_account_requires_portfolio_first() {
    let mut st = State::new();
    let result = add_account(&mut st, cash_account("Checking", 1000.0));
    let is_failure = match &result {
        Err(_) => true,
        Ok(r) => r.is_error,
    };
    assert!(is_failure, "Expected failure when adding account without portfolio");
}

#[test]
fn test_income_event_requires_name_field() {
    let mut st = State::new();
    let result = add_income_event(&mut st, income(None, "Checking", 1000.0));
    assert!(result.is_err(), "Expected Err when required 'name' field is missing");
}

#[test]
fn test_duplicate_account_rejected() {
    let mut st = State::new();
    set_portfolio(&mut st, s("Test"), None).unwrap();
    add_account(&mut st, cash_account("Checking", 1000.0)).unwrap();
    let r = add_account(&mut st, cash_account("Checking", 2000.0)).unwrap();
    assert!(r.is_error, "Expected error for duplicate account name");
}

#[test]
fn test_set_parameters_stores_spouse_birth_date() {
    let mut st = State::new();
    let r = set_params(
        &mut st,
        ParametersArgs { spouse_birth_date: s("1978-06-01"), ..params("1975-01-01") },
    );
    assert!(is_ok(&r), "set_parameters failed: {}", r.text);
    let p = st.parameters.as_ref().expect("parameters should be set");
    assert_eq!(
        p.spouse_birth_date.as_deref(),
        Some("1978-06-01"),
        "spouse_birth_date not stored correctly"
    );
}

#[test]
fn test_spouse_birth_date_appears_in_merged_yaml() {
    let mut st = State::new();
    set_portfolio(&mut st, s("Married Plan"), None).unwrap();
    add_account(&mut st, cash_account("Checking", 50000.0)).unwrap();
    set_params(&mut st, ParametersArgs { spouse_birth_date: s("1978-06-01"), ..params("1975-01-01") });
    let merged = st.merge().expect("merge_scenario failed");
    assert_eq!(
        merged.parameters.spouse_birth_date.as_deref(),
        Some("1978-06-01"),
        "merged scenario missing spouse birth date value"
    );
}

#[test]
fn test_spouse_birth_date_omitted_when_not_set() {
    let mut st = State::new();
    set_portfolio(&mut st, s("Single Plan"), None).unwrap();
    add_account(&mut st, cash_account("Checking", 10000.0)).unwrap();
    set_params(&mut st, params("1980-01-01"));
    let merged = st.merge().expect("merge_scenario failed");
    assert!(
        merged.parameters.spouse_birth_date.is_none(),
        "merged scenario should not hold spouse_birth_date when not set"
    );
}

#[test]
fn test_simulation_cache_cleared_after_scenario_change() {
    let mut st = State::new();
    st.last_simulation_result = Some(());
    st.last_sim_data = None;
    assert!(st.last_simulation_result.is_some(), "cache should be populated");
    set_params(&mut st, ParametersArgs { duration_years: Some(10), ..params("1976-01-01") });
    assert!(st.last_simulation_result.is_none(), "cache should be cleared after scenario change");
}

#[test]
fn test_sweep_state_initial_values() {
    let st = State::new();
    assert!(st.sweep_parameters.is_empty());
    assert_eq!(st.sweep_mc_iterations, 200);
    assert_eq!(st.sweep_default_steps, 6);
    assert!(st.last_sweep_results.is_none());
}

// ── Further scenarios ─────────────────────────────────────────────────────

#[test]
fn summary_lists_every_section() {
    let mut st = State::new();
    set_portfolio(&mut st, s("Plan"), None).unwrap();
    add_account(&mut st, invest_account("Brokerage", "Brokerage", "VTI", 1000.0)).unwrap();
    set_params(&mut st, ParametersArgs { returns_mode: s("parametric"), ..params("1970-02-03") });
    map_tickers(&mut st, &Vec::new(), &catalogue());
    let r = get_state_summary(&st);
    assert_eq!(
        r.text,
        "Portfolio: \"Plan\" with 1 accounts\nParameters: birth=1970-02-03, start=2026-01-01, duration=30yr\nEvents: 0 defined\nTicker mappings: 1 parametric, 0 historical\nProfiles: 1 defined"
    );
}

#[test]
fn fresh_state_summary_text() {
    let st = State::new();
    assert_eq!(
        get_state_summary(&st).text,
        "Portfolio: not set\nParameters: not set\nEvents: 0 defined"
    );
}

#[test]
fn reset_reply_and_fresh_state() {
    let mut st = State::new();
    set_portfolio(&mut st, s("Temp"), None).unwrap();
    st.sweep_mc_iterations = 50;
    let r = reset_state(&mut st);
    assert_eq!(r.text, "State reset. All accumulated scenario data cleared.");
    assert!(!r.is_error);
    assert!(st.portfolio.is_none());
    assert_eq!(st.sweep_mc_iterations, 200);
    assert_eq!(st.analysis.mc_iterations, 500);
}

#[test]
fn set_portfolio_requires_name() {
    let mut st = State::new();
    assert_eq!(set_portfolio(&mut st, None, None).unwrap_err(), "name is required");
    let r = set_portfolio(&mut st, s("Home"), s("desc")).unwrap();
    assert_eq!(
        r.text,
        "Portfolio \"Home\" initialized with 0 accounts. Use add_account to add accounts."
    );
}

#[test]
fn add_account_errors_in_order() {
    let mut st = State::new();
    assert_eq!(
        add_account(&mut st, AccountArgs { name: None, ..account("x", "Checking") }).unwrap_err(),
        "name is required"
    );
    assert_eq!(
        add_account(&mut st, AccountArgs { account_type: None, ..account("x", "Checking") })
            .unwrap_err(),
        "account_type is required"
    );
    let r = add_account(&mut st, account("x", "Pension")).unwrap();
    assert!(r.is_error);
    assert_eq!(r.text, "Unknown account type: Pension");
    assert_eq!(
        add_account(
            &mut st,
            AccountArgs { assets: Err("bad assets".to_string()), ..account("x", "Brokerage") }
        )
        .unwrap_err(),
        "bad assets"
    );
    assert_eq!(
        add_account(&mut st, account("x", "Checking")).unwrap_err(),
        "Call set_portfolio first"
    );
    set_portfolio(&mut st, s("P"), None).unwrap();
    let r = add_account(&mut st, account("Loan", "Mortgage")).unwrap();
    assert_eq!(r.text, "Added Mortgage account \"Loan\". Portfolio now has 1 accounts.");
    let r = add_account(&mut st, account("Loan", "Savings")).unwrap();
    assert!(r.is_error);
    assert_eq!(r.text, "Account \"Loan\" already exists. Use a different name.");
}

#[test]
fn account_names_stay_distinct() {
    let mut st = State::new();
    set_portfolio(&mut st, s("P"), None).unwrap();
    for name in ["A", "B", "A", "C", "B"] {
        let _ = add_account(&mut st, account(name, "Savings"));
    }
    let names: Vec<&str> =
        st.portfolio.as_ref().unwrap().accounts.iter().map(|a| a.name.as_str()).collect();
    assert_eq!(names, vec!["A", "B", "C"]);
}

#[test]
fn duplicate_event_rejected_and_names_stay_distinct() {
    let mut st = State::new();
    add_income_event(&mut st, income(s("Job"), "Checking", 1.0)).unwrap();
    let e = add_income_event(&mut st, income(s("Job"), "Savings", 2.0)).unwrap_err();
    assert_eq!(e, "Event \"Job\" already exists");
    assert_eq!(st.events.len(), 1);
}

#[test]
fn set_parameters_reply_and_defaults() {
    let mut st = State::new();
    let r = set_params(&mut st, ParametersArgs { state_abbreviation: s("tx"), ..params("1985-06-15") });
    assert_eq!(
        r.text,
        "Parameters set:\n  Birth: 1985-06-15\n  Start: 2026-01-01\n  Duration: 30 years\n  Returns: Historical\n  State tax: 0.0%"
    );
    let p = st.parameters.as_ref().unwrap();
    assert_eq!(p.duration_years, 30);
    assert_eq!(p.tax_config.state_rate_bits, 0.0f64.to_bits());
    assert_eq!(p.tax_config.capital_gains_rate_bits, 0.15f64.to_bits());
    assert_eq!(p.returns_mode, ReturnsMode::Historical);
}

#[test]
fn set_parameters_requires_birth_date() {
    let mut st = State::new();
    let e = set_parameters(&mut st, ParametersArgs { birth_date: None, ..params("x") }, "5.0")
        .unwrap_err();
    assert_eq!(e, "birth_date is required");
    assert!(st.parameters.is_none());
}

#[test]
fn set_parameters_state_rate_precedence() {
    let a = ParametersArgs {
        state_rate_bits: Some(0.07f64.to_bits()),
        state_abbreviation: s("CA"),
        ..params("1980-01-01")
    };
    assert_eq!(resolve_state_rate(&a), 0.07f64.to_bits());
    let b = ParametersArgs { state_abbreviation: s("ca"), ..params("1980-01-01") };
    assert_eq!(resolve_state_rate(&b), 0.093f64.to_bits());
    assert_eq!(resolve_state_rate(&params("1980-01-01")), 0.05f64.to_bits());
}

#[test]
fn empty_spouse_birth_date_is_dropped() {
    let mut st = State::new();
    set_params(&mut st, ParametersArgs { spouse_birth_date: s(""), ..params("1980-01-01") });
    assert!(st.parameters.as_ref().unwrap().spouse_birth_date.is_none());
}

#[test]
fn validate_without_portfolio_reports_incomplete() {
    let r = validate_scenario(State::new());
    assert!(r.is_error);
    assert_eq!(
        r.text,
        "Cannot validate — incomplete scenario:\nPortfolio not set. Call set_portfolio first."
    );
}

#[test]
fn validate_reports_numbered_errors() {
    let mut st = State::new();
    set_portfolio(&mut st, s("P"), None).unwrap();
    let r = validate_scenario(st.clone());
    assert!(r.is_error);
    assert!(r.text.starts_with("❌ Found "), "{}", r.text);
    assert!(r.text.contains("1. [portfolios.accounts] No accounts defined"), "{}", r.text);
}

#[test]
fn validate_accepts_complete_scenario() {
    let mut st = State::new();
    set_portfolio(&mut st, s("P"), None).unwrap();
    add_account(&mut st, cash_account("Checking", 100.0)).unwrap();
    set_params(&mut st, params("1980-01-01"));
    let r = validate_scenario(st);
    assert!(!r.is_error, "{}", r.text);
    assert_eq!(
        r.text,
        "✅ Scenario is valid! No errors found.\n\nYou can now call merge_scenario to get the final YAML output."
    );
}

#[test]
fn merge_uses_default_parameters() {
    let mut st = State::new();
    set_portfolio(&mut st, s("P"), None).unwrap();
    let d = st.merge().unwrap();
    assert_eq!(d.parameters.start_date, "2026-01-01");
    assert_eq!(d.parameters.duration_years, 30);
    assert!(d.parameters.birth_date.is_empty());
}

#[test]
fn portfolio_tickers_sorted_without_repeats() {
    let mut st = State::new();
    set_portfolio(&mut st, s("P"), None).unwrap();
    add_account(&mut st, invest_account("A", "Brokerage", "VTI", 1.0)).unwrap();
    add_account(&mut st, invest_account("B", "RothIRA", "AAPL", 1.0)).unwrap();
    add_account(&mut st, invest_account("C", "TraditionalIRA", "VTI", 1.0)).unwrap();
    add_account(&mut st, cash_account("D", 1.0)).unwrap();
    assert_eq!(st.portfolio_tickers(), vec!["AAPL".to_string(), "VTI".to_string()]);
}
