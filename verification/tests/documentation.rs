use finplan::prompts::{
    build_scenario_prompt, get_prompt, list_prompts, quick_retirement_prompt, PromptArgs,
    RetirementFigures,
};
use finplan::resources::{list_resources, read_resource};
use finplan::schema_text::{parameters_schema, triggers_schema};

const URIS: [&str; 11] = [
    "schema://full",
    "schema://accounts",
    "schema://events",
    "schema://triggers",
    "schema://effects",
    "schema://amounts",
    "schema://parameters",
    "schema://profiles",
    "schema://analysis",
    "schema://example",
    "schema://patterns",
];

#[test]
fn test_eleven_resources_listed() {
    let list = list_resources();
    assert_eq!(list.len(), 11, "Expected 11 schema resources, got {}", list.len());
}

#[test]
fn test_all_resources_readable_and_non_empty() {
    for uri in &URIS {
        let content = read_resource(uri);
        assert!(content.is_some(), "Resource {} returned None", uri);
        let text = content.unwrap();
        assert!(!text.is_empty(), "Resource {} content is empty", uri);
        assert!(text.len() > 50, "Resource {} content suspiciously short ({} bytes)", uri, text.len());
    }
}

#[test]
fn test_unknown_resource_returns_none() {
    assert!(read_resource("schema://nonexistent").is_none());
    assert!(read_resource("").is_none());
    assert!(read_resource("http://other.com").is_none());
}

#[test]
fn test_triggers_schema_documents_spouse_age() {
    let text = read_resource("schema://triggers").expect("triggers schema missing");
    assert!(text.contains("SpouseAge"), "triggers schema missing SpouseAge documentation");
}

#[test]
fn test_parameters_schema_documents_spouse_birth_date() {
    let text = read_resource("schema://parameters").expect("parameters schema missing");
    assert!(
        text.contains("spouse_birth_date"),
        "parameters schema missing spouse_birth_date documentation"
    );
}

#[test]
fn listed_resources_in_order_and_readable() {
    let list = list_resources();
    for (info, uri) in list.iter().zip(URIS.iter()) {
        assert_eq!(info.uri, *uri);
        let mime = if info.uri == "schema://example" { "text/x-yaml" } else { "text/markdown" };
        assert_eq!(info.mime_type, mime, "{}", info.uri);
        assert!(read_resource(info.uri).is_some());
    }
    assert_eq!(read_resource("schema://triggers"), Some(triggers_schema()));
    assert_eq!(read_resource("schema://parameters"), Some(parameters_schema()));
}

fn figures() -> RetirementFigures {
    RetirementFigures {
        biweekly_pay: "3846".to_string(),
        monthly_expenses: "5000".to_string(),
        contribution_401k: "15000".to_string(),
        post_retirement_annual: "51000".to_string(),
        social_security: "2625".to_string(),
        income_thousands: "100".to_string(),
    }
}

fn prompt_args() -> PromptArgs {
    PromptArgs { user_context: None, age: None, retirement_age: None, state: None, figures: figures() }
}

#[test]
fn prompts_listed_with_their_arguments() {
    let prompts = list_prompts();
    let names: Vec<&str> = prompts.iter().map(|p| p.name).collect();
    assert_eq!(names, vec!["build_scenario", "quick_retirement"]);
    let required: Vec<(&str, bool)> = prompts[1].arguments.iter().map(|a| (a.name, a.required)).collect();
    assert_eq!(
        required,
        vec![
            ("age", true),
            ("retirement_age", false),
            ("annual_income", true),
            ("monthly_expenses", true),
            ("state", false)
        ]
    );
    assert_eq!(prompts[0].arguments.len(), 1);
    assert_eq!(prompts[0].arguments[0].name, "user_context");
}

#[test]
fn build_scenario_prompt_embeds_context() {
    let r = build_scenario_prompt(Some("Age 40, two kids".to_string()));
    assert_eq!(r.description, "Guided scenario construction workflow");
    assert!(r.text.starts_with("You are helping a user build a FinPlan financial planning scenario YAML file.\n\n## User Context\nAge 40, two kids\n\n## Workflow"));
    let d = build_scenario_prompt(None);
    assert!(d.text.contains("## User Context\nNo context provided\n"));
}

#[test]
fn quick_retirement_defaults() {
    let r = quick_retirement_prompt(&prompt_args());
    assert_eq!(r.description, "Quick retirement plan: age 30, retire at 65, $100k/yr income");
    assert!(r.text.contains("- birth_date: \"1995-06-15\"\n"), "{}", r.text);
    assert!(r.text.contains("- duration_years: 65\n"), "{}", r.text);
    assert!(r.text.contains("- state_abbreviation: \"CA\"\n"), "{}", r.text);
    assert!(r.text.contains("amount=3846, interval=\"biweekly\""), "{}", r.text);
    assert!(r.text.contains("4. `add_retirement_event`: age=65\n"), "{}", r.text);
    assert!(r.text.contains("assets: [{ticker: \"FXAIX\", value: 50000}]"), "{}", r.text);
}

#[test]
fn quick_retirement_with_ages() {
    let a = PromptArgs { age: Some(45), retirement_age: Some(60), state: Some("TX".to_string()), ..prompt_args() };
    let r = get_prompt("quick_retirement", a).unwrap();
    assert!(r.text.contains("- birth_date: \"1980-06-15\"\n"));
    assert!(r.text.contains("- duration_years: 45\n"));
    assert!(r.text.contains("- state_abbreviation: \"TX\"\n"));
    assert_eq!(r.description, "Quick retirement plan: age 45, retire at 60, $100k/yr income");
}

#[test]
fn unknown_prompt_is_an_error() {
    assert_eq!(get_prompt("other", prompt_args()).unwrap_err(), "Unknown prompt: other");
    assert!(get_prompt("build_scenario", prompt_args()).is_ok());
}

#[test]
fn resource_names_and_descriptions() {
    let list = list_resources();
    assert_eq!(list[0].name, "Full YAML Reference");
    assert_eq!(list[1].description, "All 13 account types with fields and examples");
    assert_eq!(list[9].mime_type, "text/x-yaml");
    assert_eq!(list[10].name, "Common Patterns");
}
