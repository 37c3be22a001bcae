use finplan::defaults::{state_rate_bits_for_code, state_tax_rate};
use finplan::event_tools::{add_income_event, IncomeArgs};
use finplan::scenario::{AssetMapping, AssetValue, ReturnProfileData, SweepTypeData};
use finplan::state::ScenarioState;
use finplan::sweep_tools::{
    add_sweep_parameter, configure_sweep, grid_point_count, parse_sweep_type,
    remove_sweep_parameter, SweepParameterArgs,
};
use finplan::ticker_tools::{map_tickers, PresetInfo, ProfileSuggestion, TickerCatalog};
use finplan::tools::{add_account, set_portfolio, AccountArgs};

type State = ScenarioState<(), (), ()>;

fn s(x: &str) -> Option<String> {
    Some(x.to_string())
}

fn with_events(names: &[&str]) -> State {
    let mut st = State::new();
    for n in names {
        add_income_event(
            &mut st,
            IncomeArgs {
                name: s(n),
                to_account: s("Checking"),
                amount_bits: Some(1.0f64.to_bits()),
                interval: None,
                gross: None,
                taxable: None,
                inflation_adjusted: None,
                end_event: None,
                start_age: None,
            },
        )
        .unwrap();
    }
    st
}

fn sweep(event: &str, sweep_type: &str, steps: Option<u64>) -> SweepParameterArgs {
    SweepParameterArgs {
        event_name: s(event),
        sweep_type: s(sweep_type),
        min_value_bits: Some(60.0f64.to_bits()),
        max_value_bits: Some(70.0f64.to_bits()),
        step_count: steps,
        min_text: "60".to_string(),
        max_text: "70".to_string(),
        min_below_max: true,
    }
}

#[test]
fn configure_sweep_clamps_and_reports() {
    let mut st = State::new();
    st.last_sweep_results = Some(());
    let r = configure_sweep(&mut st, Some(5), Some(50));
    assert_eq!(st.sweep_mc_iterations, 10);
    assert_eq!(st.sweep_default_steps, 20);
    assert!(st.last_sweep_results.is_none());
    assert_eq!(
        r.text,
        "Sweep configured: 10 MC iterations per point, 20 default steps.\nCurrent grid: 0 parameters, 0 total points.\nEstimated runtime: ~0 seconds."
    );
    st.last_sweep_results = Some(());
    configure_sweep(&mut st, Some(10), None);
    assert!(st.last_sweep_results.is_some(), "unchanged iterations keep the results");
    configure_sweep(&mut st, Some(99999), Some(0));
    assert_eq!(st.sweep_mc_iterations, 2000);
    assert_eq!(st.sweep_default_steps, 2);
}

#[test]
fn add_sweep_parameter_reply_and_grid() {
    let mut st = with_events(&["Retirement", "Salary"]);
    let r = add_sweep_parameter(&mut st, sweep("Retirement", "trigger_age", None));
    assert!(!r.is_error, "{}", r.text);
    assert_eq!(
        r.text,
        "Added parameter [0]: Retirement → trigger_age [60–70, 6 steps]\nGrid so far: 6 total points (1 dimension(s))\nEstimated runtime: ~120 seconds."
    );
    let r = add_sweep_parameter(&mut st, sweep("Salary", "effect_value", Some(1)));
    assert!(r.text.starts_with("Added parameter [1]: Salary → effect_value [60–70, 2 steps]\nGrid so far: 12 total points (2 dimension(s))"), "{}", r.text);
    assert_eq!(grid_point_count(&st.sweep_parameters), 12);
    assert_eq!(st.sweep_parameters[1].sweep_type, SweepTypeData::EffectValue);
}

#[test]
fn large_grid_warns() {
    let mut st = with_events(&["A", "B"]);
    add_sweep_parameter(&mut st, sweep("A", "trigger_age", Some(30)));
    let r = add_sweep_parameter(&mut st, sweep("B", "trigger_age", Some(20)));
    assert!(r.text.ends_with("\nWarning: 600 total points may take over a minute."), "{}", r.text);
}

#[test]
fn add_sweep_parameter_errors() {
    let mut st = with_events(&["A", "B"]);
    let r = add_sweep_parameter(&mut st, SweepParameterArgs { event_name: None, ..sweep("A", "trigger_age", None) });
    assert_eq!((r.text.as_str(), r.is_error), ("event_name is required", true));
    let r = add_sweep_parameter(&mut st, sweep("A", "bogus", None));
    assert_eq!(r.text, "Unknown sweep_type: bogus");
    let r = add_sweep_parameter(&mut st, SweepParameterArgs { min_value_bits: None, ..sweep("A", "trigger_age", None) });
    assert_eq!(r.text, "min_value is required");
    let r = add_sweep_parameter(&mut st, SweepParameterArgs { min_below_max: false, ..sweep("A", "trigger_age", None) });
    assert_eq!(r.text, "min_value (60) must be less than max_value (70)");
    let r = add_sweep_parameter(&mut st, sweep("C", "trigger_age", None));
    assert_eq!(r.text, "Event 'C' not found. Available events: A, B");
    assert!(st.sweep_parameters.is_empty());
}

#[test]
fn remove_undoes_add() {
    let mut st = with_events(&["A", "B"]);
    add_sweep_parameter(&mut st, sweep("A", "trigger_age", None));
    let before: Vec<String> = st.sweep_parameters.iter().map(|p| p.event_name.clone()).collect();
    add_sweep_parameter(&mut st, sweep("B", "repeating_end_age", Some(3)));
    st.last_sweep_results = Some(());
    let r = remove_sweep_parameter(&mut st, s("B"), None);
    assert_eq!(
        r.text,
        "Removed parameter [1]: B → RepeatingEndAge\nGrid now has 1 dimension(s), 6 total points.\nNote: Previous sweep results cleared — call run_sweep again."
    );
    let after: Vec<String> = st.sweep_parameters.iter().map(|p| p.event_name.clone()).collect();
    assert_eq!(before, after);
    assert!(st.last_sweep_results.is_none());
}

#[test]
fn remove_sweep_parameter_errors() {
    let mut st = with_events(&["A"]);
    add_sweep_parameter(&mut st, sweep("A", "trigger_date", None));
    assert_eq!(remove_sweep_parameter(&mut st, s("Z"), None).text, "No sweep parameter found for event 'Z'");
    assert_eq!(remove_sweep_parameter(&mut st, None, Some(3)).text, "Index 3 out of range (1 parameters)");
    assert_eq!(remove_sweep_parameter(&mut st, None, None).text, "Provide event_name or index");
    let r = remove_sweep_parameter(&mut st, None, Some(0));
    assert!(!r.is_error);
    assert_eq!(r.text, "Removed parameter [0]: A → TriggerDate\nGrid now has 0 dimension(s), 0 total points.\nNote: Previous sweep results cleared — call run_sweep again.");
}

#[test]
fn sweep_types_by_name() {
    assert_eq!(parse_sweep_type("trigger_age"), Some(SweepTypeData::TriggerAge));
    assert_eq!(parse_sweep_type("repeating_start_age"), Some(SweepTypeData::RepeatingStartAge));
    assert_eq!(parse_sweep_type("TriggerAge"), None);
}

#[test]
fn state_tax_rates() {
    assert_eq!(state_tax_rate("ca"), 0.093f64.to_bits());
    assert_eq!(state_tax_rate("Ny"), 0.0685f64.to_bits());
    assert_eq!(state_tax_rate("TX"), 0.0f64.to_bits());
    assert_eq!(state_tax_rate("wy"), 0.0f64.to_bits());
    assert_eq!(state_tax_rate("ZZ"), 0.05f64.to_bits());
    assert_eq!(state_rate_bits_for_code("ca"), 0.05f64.to_bits());
    assert_eq!(state_rate_bits_for_code("HI"), 0.11f64.to_bits());
}

fn portfolio_with(tickers: &[(&str, &str)]) -> State {
    let mut st = State::new();
    set_portfolio(&mut st, s("P"), None).unwrap();
    for (name, ticker) in tickers {
        add_account(
            &mut st,
            AccountArgs {
                name: s(name),
                account_type: s("Brokerage"),
                description: None,
                assets: Ok(vec![AssetValue { asset: ticker.to_string(), value_bits: 1.0f64.to_bits() }]),
                value_bits: None,
                return_profile: None,
                balance_bits: None,
                interest_rate_bits: None,
            },
        )
        .unwrap();
    }
    st
}

fn catalogue() -> TickerCatalog {
    TickerCatalog {
        historical: vec![AssetMapping { asset: "VOO".to_string(), profile: "S&P 500".to_string() }],
        parametric: vec![ProfileSuggestion {
            ticker: "VOO".to_string(),
            profile_name: "Large Cap".to_string(),
            profile: ReturnProfileData::Fixed { rate_bits: 0.07f64.to_bits() },
        }],
        presets: vec![
            PresetInfo { name: "S&P 500".to_string(), description: "US large caps".to_string() },
            PresetInfo { name: "Bonds".to_string(), description: "US aggregate bonds".to_string() },
        ],
    }
}

#[test]
fn map_tickers_without_tickers() {
    let mut st = State::new();
    let r = map_tickers(&mut st, &Vec::new(), &catalogue());
    assert!(r.is_error);
    assert_eq!(r.text, "No tickers found in portfolio. Add investment accounts with assets first.");
}

#[test]
fn map_tickers_historical_with_override() {
    let mut st = portfolio_with(&[("A", "VOO"), ("B", "XYZ"), ("C", "ABC")]);
    st.last_simulation_result = Some(());
    let overrides = vec![AssetMapping { asset: "ABC".to_string(), profile: "Bonds".to_string() }];
    let r = map_tickers(&mut st, &overrides, &catalogue());
    assert!(!r.is_error);
    assert_eq!(
        r.text,
        "Mapped tickers:\n  ABC → Bonds (manual override)\n  VOO → S&P 500 (historical)\n\nUnmapped tickers (need manual override): XYZ\nUse the overrides parameter to map these, e.g.:\n  overrides: {\"TICKER\": \"S&P 500\"}\n\nAvailable historical presets:\n  \"S&P 500\" - US large caps\n  \"Bonds\" - US aggregate bonds\n"
    );
    let hist: Vec<(&str, &str)> =
        st.historical_assets.iter().map(|m| (m.asset.as_str(), m.profile.as_str())).collect();
    assert_eq!(hist, vec![("ABC", "Bonds"), ("VOO", "S&P 500")]);
    assert!(st.assets.is_empty());
    assert!(st.last_simulation_result.is_none());

    // Mapping again keeps one entry per ticker.
    let overrides = vec![AssetMapping { asset: "VOO".to_string(), profile: "Bonds".to_string() }];
    map_tickers(&mut st, &overrides, &catalogue());
    let hist: Vec<(&str, &str)> =
        st.historical_assets.iter().map(|m| (m.asset.as_str(), m.profile.as_str())).collect();
    assert_eq!(hist, vec![("ABC", "Bonds"), ("VOO", "Bonds")]);
}

#[test]
fn map_tickers_parametric_adds_profile_once() {
    let mut st = portfolio_with(&[("A", "VOO")]);
    st.parameters = None;
    let mut p = finplan::scenario::ParametersData::default();
    p.returns_mode = finplan::scenario::ReturnsMode::Parametric;
    st.parameters = Some(p);
    let r = map_tickers(&mut st, &Vec::new(), &catalogue());
    assert_eq!(r.text, "Mapped tickers:\n  VOO → Large Cap (parametric)");
    map_tickers(&mut st, &Vec::new(), &catalogue());
    assert_eq!(st.profiles.len(), 1);
    assert_eq!(st.profiles[0].name, "Large Cap");
    assert_eq!(st.assets.len(), 1);
    assert!(st.historical_assets.is_empty());
}

#[test]
fn map_tickers_all_unmapped_parametric() {
    let mut st = portfolio_with(&[("A", "QQQ")]);
    let mut p = finplan::scenario::ParametersData::default();
    p.returns_mode = finplan::scenario::ReturnsMode::Parametric;
    st.parameters = Some(p);
    let r = map_tickers(&mut st, &Vec::new(), &catalogue());
    assert!(!r.is_error);
    assert_eq!(
        r.text,
        "Unmapped tickers (need manual override): QQQ\nUse the overrides parameter to map these, e.g.:\n  overrides: {\"TICKER\": \"S&P 500\"}"
    );
}
