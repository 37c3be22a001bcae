use finplan::scenario::{
    AccountData, AccountType, AnalysisConfigData, AssetMapping, AmountData, EffectData, EventData,
    Owner, ParametersData, PortfolioData, ProfileData, Property, ReturnProfileData, SimulationData,
    TriggerData,
};
use finplan::validator::{
    errors_report, file_failure_message, validate_scenario, validation_verdict, ValidationError,
};

fn cash(name: &str) -> AccountData {
    AccountData {
        name: name.to_string(),
        description: None,
        owner: Owner::Primary,
        account_type: AccountType::Checking(Property { value_bits: 0, return_profile: None }),
    }
}

fn scenario(accounts: Vec<AccountData>) -> SimulationData {
    let mut parameters = ParametersData::default();
    parameters.birth_date = "1980-01-01".to_string();
    SimulationData {
        portfolios: PortfolioData { name: "Plan".to_string(), description: None, accounts },
        profiles: Vec::new(),
        assets: Vec::new(),
        historical_assets: Vec::new(),
        asset_prices: Vec::new(),
        asset_tracking_errors: Vec::new(),
        events: Vec::new(),
        parameters,
        analysis: AnalysisConfigData { mc_iterations: 500, default_steps: 6, sweep_parameters: Vec::new() },
    }
}

#[test]
fn test_missing_accounts() {
    let mut data = scenario(vec![cash("Checking")]);
    data.portfolios.accounts.clear();

    let result = validate_scenario(&data);
    assert!(result.is_err());
    let errors = result.unwrap_err();
    assert!(errors.iter().any(|e| e.message.contains("No accounts defined")));
}

#[test]
fn valid_scenario_passes() {
    assert!(validate_scenario(&scenario(vec![cash("Checking")])).is_ok());
}

#[test]
fn duplicate_and_blank_account_names() {
    let data = scenario(vec![cash("A"), cash("A"), cash("  ")]);
    let errors = validate_scenario(&data).unwrap_err();
    let messages: Vec<&str> = errors.iter().map(|e| e.message.as_str()).collect();
    assert!(messages.iter().any(|m| m.contains("Duplicate account name")), "{:?}", messages);
    assert!(messages.iter().any(|m| m.contains("empty")), "{:?}", messages);
}

#[test]
fn parameter_checks() {
    let mut data = scenario(vec![cash("Checking")]);
    data.parameters.birth_date = String::new();
    data.parameters.start_date = "2025/01/01".to_string();
    data.parameters.duration_years = 0;
    let errors = validate_scenario(&data).unwrap_err();
    let sections: Vec<&str> = errors.iter().map(|e| e.section.as_str()).collect();
    assert_eq!(
        sections,
        vec!["parameters.birth_date", "parameters.start_date", "parameters.duration_years"]
    );
    assert_eq!(errors[0].message, "Birth date is empty");
    assert_eq!(errors[1].message, "Invalid date format: '2025/01/01'");
    assert_eq!(errors[2].message, "Duration must be positive");
}

#[test]
fn too_few_iterations() {
    let mut data = scenario(vec![cash("Checking")]);
    data.analysis.mc_iterations = 9;
    let errors = validate_scenario(&data).unwrap_err();
    assert_eq!(errors.len(), 1);
    assert_eq!(errors[0].section, "analysis.mc_iterations");
    assert_eq!(errors[0].message, "Too few Monte Carlo iterations: 9");
}

#[test]
fn unknown_profile_and_account_references() {
    let mut data = scenario(vec![cash("Checking")]);
    data.profiles.push(ProfileData {
        name: "Stocks".to_string(),
        description: None,
        profile: ReturnProfileData::NoReturns,
    });
    data.assets.push(AssetMapping { asset: "VTI".to_string(), profile: "Bonds".to_string() });
    data.events.push(EventData {
        name: "Spend".to_string(),
        description: None,
        trigger: TriggerData::Manual,
        effects: vec![EffectData::Expense {
            from: "Savings".to_string(),
            amount: AmountData::Fixed { value_bits: 1.0f64.to_bits() },
        }],
        once: false,
        enabled: true,
    });
    let errors = validate_scenario(&data).unwrap_err();
    assert!(errors.iter().any(|e| e.message.contains("Bonds")), "{:?}", errors);
    assert!(errors.iter().any(|e| e.message.contains("Savings")), "{:?}", errors);
}

#[test]
fn error_rendering() {
    let e = ValidationError {
        section: "parameters.duration_years".to_string(),
        message: "Duration must be positive".to_string(),
        help: Some("Set duration_years to a positive number, e.g., 40".to_string()),
    };
    assert_eq!(
        e.to_display_string(),
        "parameters.duration_years → Duration must be positive\n  Help: Set duration_years to a positive number, e.g., 40"
    );
    let report = errors_report(&vec![e.clone()]);
    assert_eq!(
        report,
        "❌ Found 1 validation error(s):\n\n1. [parameters.duration_years] Duration must be positive\n   Help: Set duration_years to a positive number, e.g., 40\n"
    );
    let plain = ValidationError { help: None, ..e };
    assert_eq!(plain.to_display_string(), "parameters.duration_years → Duration must be positive");
    assert!(file_failure_message(&vec![plain]).contains("Duration must be positive"));
}

#[test]
fn validation_verdict_lists_every_error() {
    assert_eq!(validation_verdict(&scenario(vec![cash("Checking")])), Ok(()));
    let mut data = scenario(Vec::new());
    data.parameters.duration_years = 0;
    let message = validation_verdict(&data).unwrap_err();
    assert_eq!(
        message,
        "Validation errors found:\n  • portfolios.accounts → No accounts defined\n  Help: Define at least one account (Checking, Savings, 401k, Brokerage, etc.) under portfolios.accounts\n  • parameters.duration_years → Duration must be positive\n  Help: Set duration_years to a positive number, e.g., 40"
    );
}
