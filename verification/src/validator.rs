//! Semantic validation of a scenario.
//!
//! `validate_scenario` reports, section by section, every configuration
//! error it finds, each with a section path, a message and optional help.
//! The spec functions of this module state exactly which errors are
//! reported and in which order.

use vstd::prelude::*;

use crate::scenario::{AccountData, AssetMapping, EffectData, EventData, ProfileData, SimulationData};
use crate::text::{
    concat3, count_char_spec, decimal, is_blank, is_blank_spec, occurs_exactly, push_decimal,
    same_text, texts, with_number,
};

verus! {

/// One problem found in a scenario.
#[derive(Clone, Debug)]
pub struct ValidationError {
    pub section: String,
    pub message: String,
    pub help: Option<String>,
}

/// The mathematical content of a `ValidationError`:
/// section, message and optional help text.
pub type Issue = (Seq<char>, Seq<char>, Option<Seq<char>>);

/// The view of an optional string.
pub open spec fn opt_text(o: Option<String>) -> Option<Seq<char>> {
    match o {
        Some(s) => Some(s@),
        None => None,
    }
}

impl View for ValidationError {
    type V = Issue;

    open spec fn view(&self) -> Issue {
        (self.section@, self.message@, opt_text(self.help))
    }
}

/// The issues that a list of errors stands for.
pub open spec fn issues_of(errors: Seq<ValidationError>) -> Seq<Issue> {
    errors.map_values(|e: ValidationError| e@)
}

/// What a section validator returns for the issues it found: `Ok` when
/// there are none, the errors in order otherwise.
pub open spec fn reports(r: Result<(), Vec<ValidationError>>, issues: Seq<Issue>) -> bool {
    match r {
        Ok(()) => issues.len() == 0,
        Err(errors) => issues.len() > 0 && issues_of(errors@) == issues,
    }
}

/// A single issue when `cond` holds, none otherwise.
pub open spec fn issue_if(cond: bool, i: Issue) -> Seq<Issue> {
    if cond {
        seq![i]
    } else {
        seq![]
    }
}

fn new_error(section: String, message: String, help: Option<String>) -> (e: ValidationError)
    ensures
        e@ == (section@, message@, opt_text(help)),
{
    ValidationError { section, message, help }
}

/// Appends `e` to `errors`.
fn report(errors: &mut Vec<ValidationError>, e: ValidationError)
    ensures
        issues_of(final(errors)@) == issues_of(old(errors)@).push(e@),
{
    let ghost before = errors@;
    errors.push(e);
    proof {
        assert(issues_of(errors@) =~= issues_of(before).push(e@));
    }
}

/// Turns the collected errors into a section result.
fn finish(errors: Vec<ValidationError>) -> (r: Result<(), Vec<ValidationError>>)
    ensures
        reports(r, issues_of(errors@)),
{
    if errors.len() == 0 {
        Ok(())
    } else {
        Err(errors)
    }
}

// ── Whole scenario ────────────────────────────────────────────────────────

/// Every issue of a scenario, section by section: portfolio, profiles and
/// ticker mappings, events, parameters, analysis.
pub open spec fn scenario_issues(data: SimulationData) -> Seq<Issue> {
    portfolio_issues(data) + profile_issues(data) + event_section_issues(data) + parameter_issues(
        data,
    ) + analysis_issues(data)
}

/// Validate a scenario's structure and content.
///
/// Returns `Ok(())` when the scenario has no issue, and otherwise every
/// issue, in section order.
pub fn validate_scenario(data: &SimulationData) -> (r: Result<(), Vec<ValidationError>>)
    ensures
        reports(r, scenario_issues(*data)),
{
    let mut errors: Vec<ValidationError> = Vec::new();

    if let Err(portfolio_errors) = validate_portfolio(data) {
        append_errors(&mut errors, portfolio_errors);
    }
    if let Err(profile_errors) = validate_profiles(data) {
        append_errors(&mut errors, profile_errors);
    }
    if let Err(event_errors) = validate_events(data) {
        append_errors(&mut errors, event_errors);
    }
    if let Err(param_errors) = validate_parameters(data) {
        append_errors(&mut errors, param_errors);
    }
    if let Err(analysis_errors) = validate_analysis(data) {
        append_errors(&mut errors, analysis_errors);
    }
    proof {
        assert(issues_of(errors@) =~= scenario_issues(*data));
    }
    finish(errors)
}

fn append_errors(errors: &mut Vec<ValidationError>, more: Vec<ValidationError>)
    ensures
        issues_of(final(errors)@) == issues_of(old(errors)@) + issues_of(more@),
{
    let mut more = more;
    let ghost before = errors@;
    let ghost added = more@;
    errors.append(&mut more);
    proof {
        assert(errors@ =~= before + added);
        assert(issues_of(errors@) =~= issues_of(before) + issues_of(added));
    }
}

// ── Rendering ─────────────────────────────────────────────────────────────

/// How an error reads: `section → message`, then the help on its own
/// indented line when there is one.
pub open spec fn display_text(i: Issue) -> Seq<char> {
    i.0 + " → "@ + i.1 + match i.2 {
        Some(h) => "\n  Help: "@ + h,
        None => seq![],
    }
}

impl ValidationError {
    /// The text of this error (its `Display` form).
    pub fn to_display_string(&self) -> (r: String)
        ensures
            r@ == display_text(self@),
    {
        let mut r = concat3(self.section.as_str(), " → ", self.message.as_str());
        if let Some(help) = &self.help {
            r.append("\n  Help: ");
            r.append(help.as_str());
        }
        r
    }
}

/// The bulleted lines of the first `n` errors, one per line.
pub open spec fn bullet_lines(issues: Seq<Issue>, n: int) -> Seq<char>
    decreases n,
{
    if n <= 0 {
        seq![]
    } else if n == 1 {
        "  • "@ + display_text(issues[0])
    } else {
        bullet_lines(issues, n - 1) + "\n"@ + "  • "@ + display_text(issues[n - 1])
    }
}

/// The failure text of scenario-file validation.
pub open spec fn file_failure_text(issues: Seq<Issue>) -> Seq<char> {
    "Validation errors found:\n"@ + bullet_lines(issues, issues.len() as int)
}

/// The failure message of scenario-file validation: a heading, then each
/// error on its own bulleted line.
pub fn file_failure_message(errors: &Vec<ValidationError>) -> (r: String)
    ensures
        r@ == file_failure_text(issues_of(errors@)),
{
    let mut r = String::from_str("Validation errors found:\n");
    let ghost issues = issues_of(errors@);
    for i in 0..errors.len()
        invariant
            issues == issues_of(errors@),
            r@ == "Validation errors found:\n"@ + bullet_lines(issues, i as int),
    {
        let ghost before = r@;
        if i > 0 {
            r.append("\n");
        }
        r.append("  • ");
        let line = errors[i].to_display_string();
        r.append(line.as_str());
        proof {
            assert(issues[i as int] == errors@[i as int]@);
            if i == 0 {
                reveal_strlit("Validation errors found:\n");
                assert(bullet_lines(issues, 0) =~= seq![]);
            }
            assert(r@ =~= "Validation errors found:\n"@ + bullet_lines(issues, i + 1));
        }
    }
    r
}

/// The verdict of scenario-file validation on a parsed scenario: `Ok`
/// when it has no issue, else the failure message listing every issue.
pub fn validation_verdict(data: &SimulationData) -> (r: Result<(), String>)
    ensures
        scenario_issues(*data).len() == 0 ==> r is Ok,
        scenario_issues(*data).len() > 0 ==> (r matches Err(m) && m@ == file_failure_text(
            scenario_issues(*data),
        )),
{
    match validate_scenario(data) {
        Ok(()) => Ok(()),
        Err(errors) => Err(file_failure_message(&errors)),
    }
}

/// The line of the `k`-th error (counting from 1): `k. [section] message`,
/// then the help on a line of its own, each line ending in a newline.
pub open spec fn numbered_line(k: nat, i: Issue) -> Seq<char> {
    decimal(k) + ". ["@ + i.0 + "] "@ + i.1 + "\n"@ + match i.2 {
        Some(h) => "   Help: "@ + h + "\n"@,
        None => seq![],
    }
}

/// The numbered lines of the first `n` errors.
pub open spec fn numbered_lines(issues: Seq<Issue>, n: int) -> Seq<char>
    decreases n,
{
    if n <= 0 {
        seq![]
    } else {
        numbered_lines(issues, n - 1) + numbered_line(n as nat, issues[n - 1])
    }
}

fn numbered_line_text(k: usize, e: &ValidationError) -> (r: String)
    ensures
        r@ == numbered_line(k as nat, e@),
{
    let mut line = String::new();
    push_decimal(&mut line, k);
    line.append(". [");
    line.append(e.section.as_str());
    line.append("] ");
    line.append(e.message.as_str());
    line.append("\n");
    if let Some(help) = &e.help {
        line.append("   Help: ");
        line.append(help.as_str());
        line.append("\n");
    }
    proof {
        assert(line@ =~= numbered_line(k as nat, e@));
    }
    line
}

/// The report of a validation that found errors.
pub open spec fn errors_report_text(issues: Seq<Issue>) -> Seq<char> {
    "❌ Found "@ + decimal(issues.len()) + " validation error(s):\n\n"@ + numbered_lines(
        issues,
        issues.len() as int,
    )
}

/// The report of a validation that found errors: their count, then each
/// error numbered from 1 with its section, message and help.
pub fn errors_report(errors: &Vec<ValidationError>) -> (r: String)
    ensures
        r@ == errors_report_text(issues_of(errors@)),
{
    let mut r = with_number("❌ Found ", errors.len(), " validation error(s):\n\n");
    let ghost issues = issues_of(errors@);
    let ghost head = r@;
    for i in 0..errors.len()
        invariant
            issues == issues_of(errors@),
            head == "❌ Found "@ + decimal(issues.len()) + " validation error(s):\n\n"@,
            r@ == head + numbered_lines(issues, i as int),
    {
        let line = numbered_line_text(i + 1, &errors[i]);
        r.append(line.as_str());
        proof {
            assert(issues[i as int] == errors@[i as int]@);
            assert(r@ =~= head + numbered_lines(issues, i + 1));
        }
    }
    r
}

// ── Name lists ────────────────────────────────────────────────────────────

/// How many entries of `names` equal `x`.
pub open spec fn occurrences(names: Seq<Seq<char>>, x: Seq<char>) -> nat
    decreases names.len(),
{
    if names.len() == 0 {
        0
    } else {
        occurrences(names.drop_last(), x) + if names.last() == x { 1nat } else { 0nat }
    }
}

/// The names of a list of accounts, in order.
pub open spec fn account_names(accounts: Seq<AccountData>) -> Seq<Seq<char>> {
    accounts.map_values(|a: AccountData| a.name@)
}

/// The names of a list of events, in order.
pub open spec fn event_names(events: Seq<EventData>) -> Seq<Seq<char>> {
    events.map_values(|e: EventData| e.name@)
}

/// The names of a list of profiles, in order.
pub open spec fn profile_names(profiles: Seq<ProfileData>) -> Seq<Seq<char>> {
    profiles.map_values(|p: ProfileData| p.name@)
}

fn names_of_accounts(accounts: &Vec<AccountData>) -> (r: Vec<String>)
    ensures
        texts(r@) == account_names(accounts@),
{
    let mut r: Vec<String> = Vec::new();
    for i in 0..accounts.len()
        invariant
            texts(r@) == account_names(accounts@).take(i as int),
    {
        let ghost before = r@;
        r.push(accounts[i].name.clone());
        proof {
            assert(texts(r@) =~= texts(before).push(accounts@[i as int].name@));
            assert(account_names(accounts@).take(i + 1) =~= account_names(accounts@).take(
                i as int,
            ).push(accounts@[i as int].name@));
        }
    }
    proof {
        assert(account_names(accounts@).take(accounts@.len() as int) =~= account_names(
            accounts@,
        ));
    }
    r
}

pub(crate) fn names_of_events(events: &Vec<EventData>) -> (r: Vec<String>)
    ensures
        texts(r@) == event_names(events@),
{
    let mut r: Vec<String> = Vec::new();
    for i in 0..events.len()
        invariant
            texts(r@) == event_names(events@).take(i as int),
    {
        let ghost before = r@;
        r.push(events[i].name.clone());
        proof {
            assert(texts(r@) =~= texts(before).push(events@[i as int].name@));
            assert(event_names(events@).take(i + 1) =~= event_names(events@).take(i as int).push(
                events@[i as int].name@,
            ));
        }
    }
    proof {
        assert(event_names(events@).take(events@.len() as int) =~= event_names(events@));
    }
    r
}

fn names_of_profiles(profiles: &Vec<ProfileData>) -> (r: Vec<String>)
    ensures
        texts(r@) == profile_names(profiles@),
{
    let mut r: Vec<String> = Vec::new();
    for i in 0..profiles.len()
        invariant
            texts(r@) == profile_names(profiles@).take(i as int),
    {
        let ghost before = r@;
        r.push(profiles[i].name.clone());
        proof {
            assert(texts(r@) =~= texts(before).push(profiles@[i as int].name@));
            assert(profile_names(profiles@).take(i + 1) =~= profile_names(profiles@).take(
                i as int,
            ).push(profiles@[i as int].name@));
        }
    }
    proof {
        assert(profile_names(profiles@).take(profiles@.len() as int) =~= profile_names(
            profiles@,
        ));
    }
    r
}

/// How many entries of `names` equal `x`.
fn count_equal(names: &Vec<String>, x: &String) -> (n: usize)
    ensures
        n == occurrences(texts(names@), x@),
{
    let mut n: usize = 0;
    for j in 0..names.len()
        invariant
            n == occurrences(texts(names@).take(j as int), x@),
            n <= j,
    {
        proof {
            assert(texts(names@).take(j + 1).drop_last() =~= texts(names@).take(j as int));
        }
        if names[j] == *x {
            n = n + 1;
        }
    }
    proof {
        assert(texts(names@).take(names@.len() as int) =~= texts(names@));
    }
    n
}

/// Whether some entry of `names` equals `x`.
pub(crate) fn contains_text(names: &Vec<String>, x: &String) -> (b: bool)
    ensures
        b == texts(names@).contains(x@),
{
    for j in 0..names.len()
        invariant
            forall|k: int| 0 <= k < j ==> texts(names@)[k] != x@,
    {
        if names[j] == *x {
            proof {
                assert(texts(names@)[j as int] == x@);
            }
            return true;
        }
    }
    false
}

// ── Portfolio ─────────────────────────────────────────────────────────────

/// The issues of the account at index `i` of a portfolio whose account
/// names are `names`.
pub open spec fn account_issues(names: Seq<Seq<char>>, i: int) -> Seq<Issue> {
    let section = "portfolios.accounts["@ + decimal(i as nat) + "]"@;
    issue_if(
        is_blank_spec(names[i]),
        (section, "Account name is empty"@, Some("Each account must have a non-empty name"@)),
    ) + issue_if(
        occurrences(names, names[i]) > 1,
        (
            section,
            "Duplicate account name: '"@ + names[i] + "'"@,
            Some("Account names must be unique"@),
        ),
    )
}

/// The issues of the first `n` accounts, in order.
pub open spec fn accounts_issues(names: Seq<Seq<char>>, n: int) -> Seq<Issue>
    decreases n,
{
    if n <= 0 {
        seq![]
    } else {
        accounts_issues(names, n - 1) + account_issues(names, n - 1)
    }
}

/// The issues of the portfolio section.
pub open spec fn portfolio_issues(data: SimulationData) -> Seq<Issue> {
    let p = data.portfolios;
    let names = account_names(p.accounts@);
    issue_if(
        is_blank_spec(p.name@),
        (
            "portfolios"@,
            "Portfolio name is empty"@,
            Some("Set portfolios.name to a descriptive string, e.g., 'My Retirement Plan'"@),
        ),
    ) + issue_if(
        p.accounts@.len() == 0,
        (
            "portfolios.accounts"@,
            "No accounts defined"@,
            Some(
                "Define at least one account (Checking, Savings, 401k, Brokerage, etc.) under portfolios.accounts"@,
            ),
        ),
    ) + accounts_issues(names, names.len() as int)
}

fn validate_portfolio(data: &SimulationData) -> (r: Result<(), Vec<ValidationError>>)
    ensures
        reports(r, portfolio_issues(*data)),
{
    let mut errors: Vec<ValidationError> = Vec::new();
    let portfolio = &data.portfolios;

    if is_blank(portfolio.name.as_str()) {
        report(
            &mut errors,
            new_error(
                String::from_str("portfolios"),
                String::from_str("Portfolio name is empty"),
                Some(String::from_str("Set portfolios.name to a descriptive string, e.g., 'My Retirement Plan'")),
            ),
        );
    }
    if portfolio.accounts.len() == 0 {
        report(
            &mut errors,
            new_error(
                String::from_str("portfolios.accounts"),
                String::from_str("No accounts defined"),
                Some(String::from_str("Define at least one account (Checking, Savings, 401k, Brokerage, etc.) under portfolios.accounts")),
            ),
        );
    }

    let names = names_of_accounts(&portfolio.accounts);
    let ghost head = issues_of(errors@);
    let ghost spec_names = account_names(portfolio.accounts@);
    for idx in 0..names.len()
        invariant
            texts(names@) == spec_names,
            spec_names == account_names(portfolio.accounts@),
            issues_of(errors@) == head + accounts_issues(spec_names, idx as int),
    {
        let ghost before = issues_of(errors@);
        let name = &names[idx];
        if is_blank(name.as_str()) {
            report(
                &mut errors,
                new_error(
                    with_number("portfolios.accounts[", idx, "]"),
                    String::from_str("Account name is empty"),
                    Some(String::from_str("Each account must have a non-empty name")),
                ),
            );
        }
        let count = count_equal(&names, name);
        if count > 1 {
            report(
                &mut errors,
                new_error(
                    with_number("portfolios.accounts[", idx, "]"),
                    concat3("Duplicate account name: '", name.as_str(), "'"),
                    Some(String::from_str("Account names must be unique")),
                ),
            );
        }
        proof {
            assert(texts(names@)[idx as int] == name@);
            assert(issues_of(errors@) =~= before + account_issues(spec_names, idx as int));
            assert(head + accounts_issues(spec_names, idx + 1) =~= head + accounts_issues(
                spec_names,
                idx as int,
            ) + account_issues(spec_names, idx as int));
        }
    }
    proof {
        assert(issues_of(errors@) =~= portfolio_issues(*data));
    }
    finish(errors)
}

// ── Profiles ──────────────────────────────────────────────────────────────

/// The names of the built-in historical return presets.
pub open spec fn is_builtin_historical(name: Seq<char>) -> bool {
    ||| name == "S&P 500"@
    ||| name == "US Small Cap"@
    ||| name == "Intl Developed"@
    ||| name == "Intl Emerging"@
    ||| name == "US Bonds"@
    ||| name == "Intl Bonds"@
    ||| name == "Real Estate (REITs)"@
    ||| name == "Commodities"@
}

fn is_builtin_historical_name(name: &str) -> (b: bool)
    ensures
        b == is_builtin_historical(name@),
{
    same_text(name, "S&P 500") || same_text(name, "US Small Cap") || same_text(
        name,
        "Intl Developed",
    ) || same_text(name, "Intl Emerging") || same_text(name, "US Bonds") || same_text(
        name,
        "Intl Bonds",
    ) || same_text(name, "Real Estate (REITs)") || same_text(name, "Commodities")
}

/// The issue of a parametric ticker mapping, given the defined profile names.
pub open spec fn mapping_issues(m: AssetMapping, profiles: Seq<Seq<char>>) -> Seq<Issue> {
    issue_if(
        !profiles.contains(m.profile@),
        (
            "assets"@,
            "Asset '"@ + m.asset@ + "' references unknown profile '"@ + m.profile@ + "'"@,
            Some(
                "Define profile '"@ + m.profile@
                    + "' under profiles section, or use a built-in profile name"@,
            ),
        ),
    )
}

/// The issues of the first `n` parametric ticker mappings.
pub open spec fn mappings_issues(ms: Seq<AssetMapping>, profiles: Seq<Seq<char>>, n: int) -> Seq<Issue>
    decreases n,
{
    if n <= 0 {
        seq![]
    } else {
        mappings_issues(ms, profiles, n - 1) + mapping_issues(ms[n - 1], profiles)
    }
}

/// The help text listing the built-in historical presets.
pub open spec fn historical_help() -> Seq<char> {
    "When using returns_mode: historical, asset profiles must match built-in names. Available: 'S&P 500', 'US Small Cap', 'Intl Developed', 'Intl Emerging', 'US Bonds', 'Intl Bonds', 'Real Estate (REITs)', 'Commodities'"@
}

/// The issue of a historical ticker mapping.
pub open spec fn historical_mapping_issues(m: AssetMapping) -> Seq<Issue> {
    issue_if(
        !is_builtin_historical(m.profile@),
        (
            "historical_assets"@,
            "Asset '"@ + m.asset@ + "' references unknown historical profile '"@ + m.profile@
                + "'"@,
            Some(historical_help()),
        ),
    )
}

/// The issues of the first `n` historical ticker mappings.
pub open spec fn historical_mappings_issues(ms: Seq<AssetMapping>, n: int) -> Seq<Issue>
    decreases n,
{
    if n <= 0 {
        seq![]
    } else {
        historical_mappings_issues(ms, n - 1) + historical_mapping_issues(ms[n - 1])
    }
}

/// The issues of the first `n` profile definitions.
pub open spec fn profile_definitions_issues(names: Seq<Seq<char>>, n: int) -> Seq<Issue>
    decreases n,
{
    if n <= 0 {
        seq![]
    } else {
        profile_definitions_issues(names, n - 1) + issue_if(
            is_blank_spec(names[n - 1]),
            (
                "profiles["@ + decimal((n - 1) as nat) + "]"@,
                "Profile name is empty"@,
                Some("Each profile must have a non-empty name"@),
            ),
        )
    }
}

/// The issues of the profiles and ticker mappings.
pub open spec fn profile_issues(data: SimulationData) -> Seq<Issue> {
    let names = profile_names(data.profiles@);
    mappings_issues(data.assets@, names, data.assets@.len() as int) + historical_mappings_issues(
        data.historical_assets@,
        data.historical_assets@.len() as int,
    ) + profile_definitions_issues(names, names.len() as int)
}

fn validate_profiles(data: &SimulationData) -> (r: Result<(), Vec<ValidationError>>)
    ensures
        reports(r, profile_issues(*data)),
{
    let mut errors: Vec<ValidationError> = Vec::new();
    let names = names_of_profiles(&data.profiles);
    let ghost pn = profile_names(data.profiles@);

    for k in 0..data.assets.len()
        invariant
            texts(names@) == pn,
            pn == profile_names(data.profiles@),
            issues_of(errors@) == mappings_issues(data.assets@, pn, k as int),
    {
        let ghost before = issues_of(errors@);
        let m = &data.assets[k];
        if !contains_text(&names, &m.profile) {
            let mut msg = concat3("Asset '", m.asset.as_str(), "' references unknown profile '");
            msg.append(m.profile.as_str());
            msg.append("'");
            let help = concat3(
                "Define profile '",
                m.profile.as_str(),
                "' under profiles section, or use a built-in profile name",
            );
            report(&mut errors, new_error(String::from_str("assets"), msg, Some(help)));
        }
        proof {
            assert(issues_of(errors@) =~= before + mapping_issues(data.assets@[k as int], pn));
        }
    }

    let ghost head = issues_of(errors@);
    for k in 0..data.historical_assets.len()
        invariant
            issues_of(errors@) == head + historical_mappings_issues(
                data.historical_assets@,
                k as int,
            ),
    {
        let ghost before = issues_of(errors@);
        let m = &data.historical_assets[k];
        if !is_builtin_historical_name(m.profile.as_str()) {
            let mut msg = concat3(
                "Asset '",
                m.asset.as_str(),
                "' references unknown historical profile '",
            );
            msg.append(m.profile.as_str());
            msg.append("'");
            let help = String::from_str(
                "When using returns_mode: historical, asset profiles must match built-in names. Available: 'S&P 500', 'US Small Cap', 'Intl Developed', 'Intl Emerging', 'US Bonds', 'Intl Bonds', 'Real Estate (REITs)', 'Commodities'",
            );
            report(&mut errors, new_error(String::from_str("historical_assets"), msg, Some(help)));
        }
        proof {
            assert(issues_of(errors@) =~= before + historical_mapping_issues(
                data.historical_assets@[k as int],
            ));
            assert(head + historical_mappings_issues(data.historical_assets@, k + 1) =~= head
                + historical_mappings_issues(data.historical_assets@, k as int)
                + historical_mapping_issues(data.historical_assets@[k as int]));
        }
    }

    let ghost mid = issues_of(errors@);
    for idx in 0..names.len()
        invariant
            texts(names@) == pn,
            issues_of(errors@) == mid + profile_definitions_issues(pn, idx as int),
    {
        let ghost before = issues_of(errors@);
        if is_blank(names[idx].as_str()) {
            report(
                &mut errors,
                new_error(
                    with_number("profiles[", idx, "]"),
                    String::from_str("Profile name is empty"),
                    Some(String::from_str("Each profile must have a non-empty name")),
                ),
            );
        }
        proof {
            assert(texts(names@)[idx as int] == names@[idx as int]@);
            let added = issue_if(
                is_blank_spec(pn[idx as int]),
                (
                    "profiles["@ + decimal(idx as nat) + "]"@,
                    "Profile name is empty"@,
                    Some("Each profile must have a non-empty name"@),
                ),
            );
            assert(mid + profile_definitions_issues(pn, idx + 1) =~= mid
                + profile_definitions_issues(pn, idx as int) + added);
            assert(issues_of(errors@) =~= mid + profile_definitions_issues(pn, idx + 1));
        }
    }
    proof {
        assert(issues_of(errors@) =~= profile_issues(*data));
    }
    finish(errors)
}

// ── Events ────────────────────────────────────────────────────────────────

/// The section path of a field of an effect:
/// `events[<event>].effects[<effect>].<field>`.
pub open spec fn effect_section(event_idx: nat, effect_idx: nat, field: Seq<char>) -> Seq<char> {
    "events["@ + decimal(event_idx) + "].effects["@ + decimal(effect_idx) + "]."@ + field
}

/// Help text for a reference to an undefined account.
pub open spec fn account_help(name: Seq<char>) -> Seq<char> {
    "Account '"@ + name + "' is not defined in portfolios.accounts"@
}

/// Help text for a reference to an undefined event.
pub open spec fn event_help(name: Seq<char>) -> Seq<char> {
    "Event '"@ + name + "' is not defined in events section"@
}

/// The issue of an account reference, given the defined account names.
pub open spec fn account_ref_issues(
    name: Seq<char>,
    accounts: Seq<Seq<char>>,
    event_idx: nat,
    effect_idx: nat,
    field: Seq<char>,
    help: Option<Seq<char>>,
) -> Seq<Issue> {
    issue_if(
        !accounts.contains(name),
        (
            effect_section(event_idx, effect_idx, field),
            "References unknown account '"@ + name + "'"@,
            help,
        ),
    )
}

/// The issue of an event reference, given the defined event names.
pub open spec fn event_ref_issues(
    name: Seq<char>,
    events: Seq<Seq<char>>,
    event_idx: nat,
    effect_idx: nat,
    field: Seq<char>,
    help: Option<Seq<char>>,
) -> Seq<Issue> {
    issue_if(
        !events.contains(name),
        (effect_section(event_idx, effect_idx, field), "References unknown event '"@ + name + "'"@, help),
    )
}

/// The issues of one effect: every account or event it names must exist.
pub open spec fn effect_issues(
    e: EffectData,
    effect_idx: nat,
    event_idx: nat,
    accounts: Seq<Seq<char>>,
    events: Seq<Seq<char>>,
) -> Seq<Issue> {
    match e {
        EffectData::Income { to, .. } => account_ref_issues(
            to@,
            accounts,
            event_idx,
            effect_idx,
            "to"@,
            Some(account_help(to@)),
        ),
        EffectData::Expense { from, .. } => account_ref_issues(
            from@,
            accounts,
            event_idx,
            effect_idx,
            "from"@,
            Some(account_help(from@)),
        ),
        EffectData::AssetPurchase { from, to_account, .. } => account_ref_issues(
            from@,
            accounts,
            event_idx,
            effect_idx,
            "from"@,
            None,
        ) + account_ref_issues(to_account@, accounts, event_idx, effect_idx, "to_account"@, None),
        EffectData::AssetSale { from, .. } => account_ref_issues(
            from@,
            accounts,
            event_idx,
            effect_idx,
            "from"@,
            None,
        ),
        EffectData::Sweep { to, .. } => account_ref_issues(
            to@,
            accounts,
            event_idx,
            effect_idx,
            "to"@,
            None,
        ),
        EffectData::TriggerEvent { event } => event_ref_issues(
            event@,
            events,
            event_idx,
            effect_idx,
            "event"@,
            Some(event_help(event@)),
        ),
        EffectData::PauseEvent { event } => event_ref_issues(
            event@,
            events,
            event_idx,
            effect_idx,
            "event"@,
            None,
        ),
        EffectData::ResumeEvent { event } => event_ref_issues(
            event@,
            events,
            event_idx,
            effect_idx,
            "event"@,
            None,
        ),
        EffectData::TerminateEvent { event } => event_ref_issues(
            event@,
            events,
            event_idx,
            effect_idx,
            "event"@,
            None,
        ),
        EffectData::ApplyRmd { destination, .. } => account_ref_issues(
            destination@,
            accounts,
            event_idx,
            effect_idx,
            "destination"@,
            None,
        ),
        EffectData::AdjustBalance { account, .. } => account_ref_issues(
            account@,
            accounts,
            event_idx,
            effect_idx,
            "account"@,
            None,
        ),
        EffectData::CashTransfer { from, to, .. } => account_ref_issues(
            from@,
            accounts,
            event_idx,
            effect_idx,
            "from"@,
            None,
        ) + account_ref_issues(to@, accounts, event_idx, effect_idx, "to"@, None),
        EffectData::Random { on_true, on_false, .. } => event_ref_issues(
            on_true@,
            events,
            event_idx,
            effect_idx,
            "on_true"@,
            None,
        ) + match on_false {
            Some(x) => event_ref_issues(x@, events, event_idx, effect_idx, "on_false"@, None),
            None => seq![],
        },
        EffectData::RsuVesting { to, .. } => account_ref_issues(
            to@,
            accounts,
            event_idx,
            effect_idx,
            "to"@,
            None,
        ),
    }
}

/// The issues of the first `n` effects of an event.
pub open spec fn effects_issues(
    effects: Seq<EffectData>,
    event_idx: nat,
    accounts: Seq<Seq<char>>,
    events: Seq<Seq<char>>,
    n: int,
) -> Seq<Issue>
    decreases n,
{
    if n <= 0 {
        seq![]
    } else {
        effects_issues(effects, event_idx, accounts, events, n - 1) + effect_issues(
            effects[n - 1],
            (n - 1) as nat,
            event_idx,
            accounts,
            events,
        )
    }
}

/// The issues of the event at index `i`.
pub open spec fn event_issues(
    evs: Seq<EventData>,
    i: int,
    accounts: Seq<Seq<char>>,
    names: Seq<Seq<char>>,
) -> Seq<Issue> {
    let section = "events["@ + decimal(i as nat) + "]"@;
    issue_if(
        is_blank_spec(names[i]),
        (section, "Event name is empty"@, Some("Each event must have a non-empty name"@)),
    ) + issue_if(
        occurrences(names, names[i]) > 1,
        (
            section,
            "Duplicate event name: '"@ + names[i] + "'"@,
            Some("Event names must be unique"@),
        ),
    ) + effects_issues(evs[i].effects@, i as nat, accounts, names, evs[i].effects@.len() as int)
}

/// The issues of the first `n` events.
pub open spec fn events_issues(
    evs: Seq<EventData>,
    accounts: Seq<Seq<char>>,
    names: Seq<Seq<char>>,
    n: int,
) -> Seq<Issue>
    decreases n,
{
    if n <= 0 {
        seq![]
    } else {
        events_issues(evs, accounts, names, n - 1) + event_issues(evs, n - 1, accounts, names)
    }
}

/// The issues of the events section.
pub open spec fn event_section_issues(data: SimulationData) -> Seq<Issue> {
    events_issues(
        data.events@,
        account_names(data.portfolios.accounts@),
        event_names(data.events@),
        data.events@.len() as int,
    )
}

// ── Unknown account references ────────────────────────────────────────────

/// The accounts an effect names, each with the field that names it.
pub open spec fn referenced_accounts(e: EffectData) -> Seq<(Seq<char>, Seq<char>)> {
    match e {
        EffectData::Income { to, .. } => seq![("to"@, to@)],
        EffectData::Expense { from, .. } => seq![("from"@, from@)],
        EffectData::AssetPurchase { from, to_account, .. } => seq![
            ("from"@, from@),
            ("to_account"@, to_account@),
        ],
        EffectData::AssetSale { from, .. } => seq![("from"@, from@)],
        EffectData::Sweep { to, .. } => seq![("to"@, to@)],
        EffectData::ApplyRmd { destination, .. } => seq![("destination"@, destination@)],
        EffectData::AdjustBalance { account, .. } => seq![("account"@, account@)],
        EffectData::CashTransfer { from, to, .. } => seq![("from"@, from@), ("to"@, to@)],
        EffectData::RsuVesting { to, .. } => seq![("to"@, to@)],
        _ => seq![],
    }
}

/// Some issue of the list has this section and message.
pub open spec fn has_issue(issues: Seq<Issue>, section: Seq<char>, message: Seq<char>) -> bool {
    exists|k: int| 0 <= k < issues.len() && issues[k].0 == section && issues[k].1 == message
}

proof fn lemma_has_issue_left(a: Seq<Issue>, b: Seq<Issue>, section: Seq<char>, message: Seq<char>)
    requires
        has_issue(a, section, message),
    ensures
        has_issue(a + b, section, message),
{
    let k = choose|k: int| 0 <= k < a.len() && a[k].0 == section && a[k].1 == message;
    assert((a + b)[k] == a[k]);
}

proof fn lemma_has_issue_right(a: Seq<Issue>, b: Seq<Issue>, section: Seq<char>, message: Seq<char>)
    requires
        has_issue(b, section, message),
    ensures
        has_issue(a + b, section, message),
{
    let k = choose|k: int| 0 <= k < b.len() && b[k].0 == section && b[k].1 == message;
    assert((a + b)[a.len() + k] == b[k]);
}

proof fn lemma_effect_reports_account(
    e: EffectData,
    effect_idx: nat,
    event_idx: nat,
    accounts: Seq<Seq<char>>,
    events: Seq<Seq<char>>,
    k: int,
)
    requires
        0 <= k < referenced_accounts(e).len(),
        !accounts.contains(referenced_accounts(e)[k].1),
    ensures
        has_issue(
            effect_issues(e, effect_idx, event_idx, accounts, events),
            effect_section(event_idx, effect_idx, referenced_accounts(e)[k].0),
            "References unknown account '"@ + referenced_accounts(e)[k].1 + "'"@,
        ),
{
    let r = referenced_accounts(e)[k];
    let section = effect_section(event_idx, effect_idx, r.0);
    let message = "References unknown account '"@ + r.1 + "'"@;
    let one = account_ref_issues(r.1, accounts, event_idx, effect_idx, r.0, None);
    match e {
        EffectData::AssetPurchase { from, to_account, .. } => {
            let first = account_ref_issues(from@, accounts, event_idx, effect_idx, "from"@, None);
            let second = account_ref_issues(
                to_account@,
                accounts,
                event_idx,
                effect_idx,
                "to_account"@,
                None,
            );
            if k == 0 {
                assert(first[0].0 == section && first[0].1 == message);
                lemma_has_issue_left(first, second, section, message);
            } else {
                assert(second[0].0 == section && second[0].1 == message);
                lemma_has_issue_right(first, second, section, message);
            }
        },
        EffectData::CashTransfer { from, to, .. } => {
            let first = account_ref_issues(from@, accounts, event_idx, effect_idx, "from"@, None);
            let second = account_ref_issues(to@, accounts, event_idx, effect_idx, "to"@, None);
            if k == 0 {
                assert(first[0].0 == section && first[0].1 == message);
                lemma_has_issue_left(first, second, section, message);
            } else {
                assert(second[0].0 == section && second[0].1 == message);
                lemma_has_issue_right(first, second, section, message);
            }
        },
        _ => {
            let issues = effect_issues(e, effect_idx, event_idx, accounts, events);
            assert(issues[0].0 == section && issues[0].1 == message);
        },
    }
}

proof fn lemma_effects_report(
    effects: Seq<EffectData>,
    event_idx: nat,
    accounts: Seq<Seq<char>>,
    events: Seq<Seq<char>>,
    n: int,
    j: int,
    section: Seq<char>,
    message: Seq<char>,
)
    requires
        0 <= j < n,
        has_issue(effect_issues(effects[j], j as nat, event_idx, accounts, events), section, message),
    ensures
        has_issue(effects_issues(effects, event_idx, accounts, events, n), section, message),
    decreases n,
{
    let before = effects_issues(effects, event_idx, accounts, events, n - 1);
    let last = effect_issues(effects[n - 1], (n - 1) as nat, event_idx, accounts, events);
    if j == n - 1 {
        lemma_has_issue_right(before, last, section, message);
    } else {
        lemma_effects_report(effects, event_idx, accounts, events, n - 1, j, section, message);
        lemma_has_issue_left(before, last, section, message);
    }
}

proof fn lemma_events_report(
    evs: Seq<EventData>,
    accounts: Seq<Seq<char>>,
    names: Seq<Seq<char>>,
    n: int,
    i: int,
    section: Seq<char>,
    message: Seq<char>,
)
    requires
        0 <= i < n,
        has_issue(event_issues(evs, i, accounts, names), section, message),
    ensures
        has_issue(events_issues(evs, accounts, names, n), section, message),
    decreases n,
{
    let before = events_issues(evs, accounts, names, n - 1);
    let last = event_issues(evs, n - 1, accounts, names);
    if i == n - 1 {
        lemma_has_issue_right(before, last, section, message);
    } else {
        lemma_events_report(evs, accounts, names, n - 1, i, section, message);
        lemma_has_issue_left(before, last, section, message);
    }
}

/// Every account that an effect names and the portfolio does not define
/// is reported, at that effect's field, as a reference to an unknown
/// account.
pub proof fn unknown_accounts_are_reported(data: SimulationData, i: int, j: int, k: int)
    requires
        0 <= i < data.events@.len(),
        0 <= j < data.events@[i].effects@.len(),
        0 <= k < referenced_accounts(data.events@[i].effects@[j]).len(),
        !account_names(data.portfolios.accounts@).contains(
            referenced_accounts(data.events@[i].effects@[j])[k].1,
        ),
    ensures
        ({
            let r = referenced_accounts(data.events@[i].effects@[j])[k];
            has_issue(
                scenario_issues(data),
                effect_section(i as nat, j as nat, r.0),
                "References unknown account '"@ + r.1 + "'"@,
            )
        }),
{
    let evs = data.events@;
    let e = evs[i].effects@[j];
    let r = referenced_accounts(e)[k];
    let accounts = account_names(data.portfolios.accounts@);
    let names = event_names(evs);
    let section = effect_section(i as nat, j as nat, r.0);
    let message = "References unknown account '"@ + r.1 + "'"@;
    lemma_effect_reports_account(e, j as nat, i as nat, accounts, names, k);
    let effects = evs[i].effects@;
    lemma_effects_report(effects, i as nat, accounts, names, effects.len() as int, j, section, message);
    let head = issue_if(
        is_blank_spec(names[i]),
        (
            "events["@ + decimal(i as nat) + "]"@,
            "Event name is empty"@,
            Some("Each event must have a non-empty name"@),
        ),
    ) + issue_if(
        occurrences(names, names[i]) > 1,
        (
            "events["@ + decimal(i as nat) + "]"@,
            "Duplicate event name: '"@ + names[i] + "'"@,
            Some("Event names must be unique"@),
        ),
    );
    lemma_has_issue_right(
        head,
        effects_issues(effects, i as nat, accounts, names, effects.len() as int),
        section,
        message,
    );
    assert(event_issues(evs, i, accounts, names) == head + effects_issues(
        effects,
        i as nat,
        accounts,
        names,
        effects.len() as int,
    ));
    lemma_events_report(evs, accounts, names, evs.len() as int, i, section, message);
    let ev = event_section_issues(data);
    lemma_has_issue_right(portfolio_issues(data) + profile_issues(data), ev, section, message);
    lemma_has_issue_left(
        portfolio_issues(data) + profile_issues(data) + ev,
        parameter_issues(data),
        section,
        message,
    );
    lemma_has_issue_left(
        portfolio_issues(data) + profile_issues(data) + ev + parameter_issues(data),
        analysis_issues(data),
        section,
        message,
    );
}

/// A scenario without issues names, in its effects, only accounts that
/// its portfolio defines.
pub proof fn valid_scenarios_reference_defined_accounts(data: SimulationData)
    requires
        scenario_issues(data).len() == 0,
    ensures
        forall|i: int, j: int, k: int|
            0 <= i < data.events@.len() && 0 <= j < data.events@[i].effects@.len() && 0 <= k
                < referenced_accounts(data.events@[i].effects@[j]).len() ==> account_names(
                data.portfolios.accounts@,
            ).contains(#[trigger] referenced_accounts(data.events@[i].effects@[j])[k].1),
{
    assert forall|i: int, j: int, k: int|
        0 <= i < data.events@.len() && 0 <= j < data.events@[i].effects@.len() && 0 <= k
            < referenced_accounts(data.events@[i].effects@[j]).len() implies account_names(
        data.portfolios.accounts@,
    ).contains(#[trigger] referenced_accounts(data.events@[i].effects@[j])[k].1) by {
        if !account_names(data.portfolios.accounts@).contains(
            referenced_accounts(data.events@[i].effects@[j])[k].1,
        ) {
            unknown_accounts_are_reported(data, i, j, k);
        }
    }
}

fn effect_section_text(event_idx: usize, effect_idx: usize, field: &str) -> (r: String)
    ensures
        r@ == effect_section(event_idx as nat, effect_idx as nat, field@),
{
    let mut r = with_number("events[", event_idx, "].effects[");
    push_decimal(&mut r, effect_idx);
    r.append("].");
    r.append(field);
    r
}

fn check_account_ref(
    errors: &mut Vec<ValidationError>,
    name: &String,
    account_names: &Vec<String>,
    event_idx: usize,
    effect_idx: usize,
    field: &str,
    with_help: bool,
)
    ensures
        issues_of(final(errors)@) == issues_of(old(errors)@) + account_ref_issues(
            name@,
            texts(account_names@),
            event_idx as nat,
            effect_idx as nat,
            field@,
            if with_help { Some(account_help(name@)) } else { None },
        ),
{
    let ghost before = issues_of(errors@);
    if !contains_text(account_names, name) {
        let help = if with_help {
            Some(concat3("Account '", name.as_str(), "' is not defined in portfolios.accounts"))
        } else {
            None
        };
        report(
            errors,
            new_error(
                effect_section_text(event_idx, effect_idx, field),
                concat3("References unknown account '", name.as_str(), "'"),
                help,
            ),
        );
    }
    proof {
        assert(issues_of(errors@) =~= before + account_ref_issues(
            name@,
            texts(account_names@),
            event_idx as nat,
            effect_idx as nat,
            field@,
            if with_help { Some(account_help(name@)) } else { None },
        ));
    }
}

fn check_event_ref(
    errors: &mut Vec<ValidationError>,
    name: &String,
    event_names: &Vec<String>,
    event_idx: usize,
    effect_idx: usize,
    field: &str,
    with_help: bool,
)
    ensures
        issues_of(final(errors)@) == issues_of(old(errors)@) + event_ref_issues(
            name@,
            texts(event_names@),
            event_idx as nat,
            effect_idx as nat,
            field@,
            if with_help { Some(event_help(name@)) } else { None },
        ),
{
    let ghost before = issues_of(errors@);
    if !contains_text(event_names, name) {
        let help = if with_help {
            Some(concat3("Event '", name.as_str(), "' is not defined in events section"))
        } else {
            None
        };
        report(
            errors,
            new_error(
                effect_section_text(event_idx, effect_idx, field),
                concat3("References unknown event '", name.as_str(), "'"),
                help,
            ),
        );
    }
    proof {
        assert(issues_of(errors@) =~= before + event_ref_issues(
            name@,
            texts(event_names@),
            event_idx as nat,
            effect_idx as nat,
            field@,
            if with_help { Some(event_help(name@)) } else { None },
        ));
    }
}

fn validate_effect(
    effect: &EffectData,
    effect_idx: usize,
    event_idx: usize,
    account_names: &Vec<String>,
    event_names: &Vec<String>,
    errors: &mut Vec<ValidationError>,
)
    ensures
        issues_of(final(errors)@) == issues_of(old(errors)@) + effect_issues(
            *effect,
            effect_idx as nat,
            event_idx as nat,
            texts(account_names@),
            texts(event_names@),
        ),
{
    let ghost before = issues_of(errors@);
    match effect {
        EffectData::Income { to, .. } => {
            check_account_ref(errors, to, account_names, event_idx, effect_idx, "to", true);
        },
        EffectData::Expense { from, .. } => {
            check_account_ref(errors, from, account_names, event_idx, effect_idx, "from", true);
        },
        EffectData::AssetPurchase { from, to_account, .. } => {
            check_account_ref(errors, from, account_names, event_idx, effect_idx, "from", false);
            check_account_ref(
                errors,
                to_account,
                account_names,
                event_idx,
                effect_idx,
                "to_account",
                false,
            );
        },
        EffectData::AssetSale { from, .. } => {
            check_account_ref(errors, from, account_names, event_idx, effect_idx, "from", false);
        },
        EffectData::Sweep { to, .. } => {
            check_account_ref(errors, to, account_names, event_idx, effect_idx, "to", false);
        },
        EffectData::TriggerEvent { event } => {
            check_event_ref(errors, event, event_names, event_idx, effect_idx, "event", true);
        },
        EffectData::PauseEvent { event } => {
            check_event_ref(errors, event, event_names, event_idx, effect_idx, "event", false);
        },
        EffectData::ResumeEvent { event } => {
            check_event_ref(errors, event, event_names, event_idx, effect_idx, "event", false);
        },
        EffectData::TerminateEvent { event } => {
            check_event_ref(errors, event, event_names, event_idx, effect_idx, "event", false);
        },
        EffectData::ApplyRmd { destination, .. } => {
            check_account_ref(
                errors,
                destination,
                account_names,
                event_idx,
                effect_idx,
                "destination",
                false,
            );
        },
        EffectData::AdjustBalance { account, .. } => {
            check_account_ref(
                errors,
                account,
                account_names,
                event_idx,
                effect_idx,
                "account",
                false,
            );
        },
        EffectData::CashTransfer { from, to, .. } => {
            check_account_ref(errors, from, account_names, event_idx, effect_idx, "from", false);
            check_account_ref(errors, to, account_names, event_idx, effect_idx, "to", false);
        },
        EffectData::Random { on_true, on_false, .. } => {
            check_event_ref(errors, on_true, event_names, event_idx, effect_idx, "on_true", false);
            if let Some(event) = on_false {
                check_event_ref(
                    errors,
                    event,
                    event_names,
                    event_idx,
                    effect_idx,
                    "on_false",
                    false,
                );
            }
        },
        EffectData::RsuVesting { to, .. } => {
            check_account_ref(errors, to, account_names, event_idx, effect_idx, "to", false);
        },
    }
    proof {
        assert(issues_of(errors@) =~= before + effect_issues(
            *effect,
            effect_idx as nat,
            event_idx as nat,
            texts(account_names@),
            texts(event_names@),
        ));
    }
}

fn validate_events(data: &SimulationData) -> (r: Result<(), Vec<ValidationError>>)
    ensures
        reports(r, event_section_issues(*data)),
{
    let mut errors: Vec<ValidationError> = Vec::new();
    let known_accounts = names_of_accounts(&data.portfolios.accounts);
    let known_events = names_of_events(&data.events);
    let ghost accs = texts(known_accounts@);
    let ghost names = texts(known_events@);

    for idx in 0..data.events.len()
        invariant
            accs == texts(known_accounts@),
            names == texts(known_events@),
            accs == account_names(data.portfolios.accounts@),
            names == event_names(data.events@),
            issues_of(errors@) == events_issues(data.events@, accs, names, idx as int),
    {
        let ghost before = issues_of(errors@);
        let event = &data.events[idx];
        proof {
            assert(names[idx as int] == event.name@);
        }
        if is_blank(event.name.as_str()) {
            report(
                &mut errors,
                new_error(
                    with_number("events[", idx, "]"),
                    String::from_str("Event name is empty"),
                    Some(String::from_str("Each event must have a non-empty name")),
                ),
            );
        }
        let count = count_equal(&known_events, &event.name);
        if count > 1 {
            report(
                &mut errors,
                new_error(
                    with_number("events[", idx, "]"),
                    concat3("Duplicate event name: '", event.name.as_str(), "'"),
                    Some(String::from_str("Event names must be unique")),
                ),
            );
        }
        let ghost mid = issues_of(errors@);
        for effect_idx in 0..event.effects.len()
            invariant
                accs == texts(known_accounts@),
                names == texts(known_events@),
                issues_of(errors@) == mid + effects_issues(
                    event.effects@,
                    idx as nat,
                    accs,
                    names,
                    effect_idx as int,
                ),
        {
            validate_effect(
                &event.effects[effect_idx],
                effect_idx,
                idx,
                &known_accounts,
                &known_events,
                &mut errors,
            );
            proof {
                assert(mid + effects_issues(event.effects@, idx as nat, accs, names, effect_idx + 1)
                    =~= mid + effects_issues(
                    event.effects@,
                    idx as nat,
                    accs,
                    names,
                    effect_idx as int,
                ) + effect_issues(event.effects@[effect_idx as int], effect_idx as nat, idx as nat, accs, names));
            }
        }
        proof {
            assert(issues_of(errors@) =~= before + event_issues(data.events@, idx as int, accs, names));
        }
    }
    proof {
        assert(issues_of(errors@) =~= event_section_issues(*data));
    }
    finish(errors)
}

// ── Parameters ────────────────────────────────────────────────────────────

/// The number of pieces `str::split(c)` cuts `s` into.
pub open spec fn split_count(s: Seq<char>, c: char) -> nat {
    count_char_spec(s, c) + 1
}

/// Whether a date string fails the `YYYY-MM-DD` shape check: it has no
/// `-`, or does not split into three pieces at `-`.
pub open spec fn bad_date_shape(s: Seq<char>) -> bool {
    !(count_char_spec(s, '-') > 0) || split_count(s, '-') != 3
}

/// The issues of one date parameter.
pub open spec fn date_issues(
    section: Seq<char>,
    date: Seq<char>,
    empty_message: Seq<char>,
    empty_help: Seq<char>,
    format_help: Seq<char>,
) -> Seq<Issue> {
    if date.len() == 0 {
        seq![(section, empty_message, Some(empty_help))]
    } else if bad_date_shape(date) {
        seq![(section, "Invalid date format: '"@ + date + "'"@, Some(format_help))]
    } else {
        seq![]
    }
}

/// The issues of the parameters section.
pub open spec fn parameter_issues(data: SimulationData) -> Seq<Issue> {
    let p = data.parameters;
    date_issues(
        "parameters.birth_date"@,
        p.birth_date@,
        "Birth date is empty"@,
        "Set to YYYY-MM-DD format, e.g., '1965-03-15'"@,
        "Use YYYY-MM-DD format, e.g., '1965-03-15'"@,
    ) + date_issues(
        "parameters.start_date"@,
        p.start_date@,
        "Start date is empty"@,
        "Set to YYYY-MM-DD format, e.g., '2025-01-01'"@,
        "Use YYYY-MM-DD format, e.g., '2025-01-01'"@,
    ) + issue_if(
        p.duration_years == 0,
        (
            "parameters.duration_years"@,
            "Duration must be positive"@,
            Some("Set duration_years to a positive number, e.g., 40"@),
        ),
    )
}

fn check_date(
    errors: &mut Vec<ValidationError>,
    section: &str,
    date: &String,
    empty_message: &str,
    empty_help: &str,
    format_help: &str,
)
    ensures
        issues_of(final(errors)@) == issues_of(old(errors)@) + date_issues(
            section@,
            date@,
            empty_message@,
            empty_help@,
            format_help@,
        ),
{
    let ghost before = issues_of(errors@);
    if date.as_str().is_empty() {
        report(
            errors,
            new_error(
                String::from_str(section),
                String::from_str(empty_message),
                Some(String::from_str(empty_help)),
            ),
        );
    } else if !occurs_exactly(date.as_str(), '-', 2) {
        report(
            errors,
            new_error(
                String::from_str(section),
                concat3("Invalid date format: '", date.as_str(), "'"),
                Some(String::from_str(format_help)),
            ),
        );
    }
    proof {
        assert(issues_of(errors@) =~= before + date_issues(
            section@,
            date@,
            empty_message@,
            empty_help@,
            format_help@,
        ));
    }
}

fn validate_parameters(data: &SimulationData) -> (r: Result<(), Vec<ValidationError>>)
    ensures
        reports(r, parameter_issues(*data)),
{
    let mut errors: Vec<ValidationError> = Vec::new();
    let params = &data.parameters;
    check_date(
        &mut errors,
        "parameters.birth_date",
        &params.birth_date,
        "Birth date is empty",
        "Set to YYYY-MM-DD format, e.g., '1965-03-15'",
        "Use YYYY-MM-DD format, e.g., '1965-03-15'",
    );
    check_date(
        &mut errors,
        "parameters.start_date",
        &params.start_date,
        "Start date is empty",
        "Set to YYYY-MM-DD format, e.g., '2025-01-01'",
        "Use YYYY-MM-DD format, e.g., '2025-01-01'",
    );
    if params.duration_years == 0 {
        report(
            &mut errors,
            new_error(
                String::from_str("parameters.duration_years"),
                String::from_str("Duration must be positive"),
                Some(String::from_str("Set duration_years to a positive number, e.g., 40")),
            ),
        );
    }
    proof {
        assert(issues_of(errors@) =~= parameter_issues(*data));
    }
    finish(errors)
}

// ── Analysis ──────────────────────────────────────────────────────────────

/// The issues of the analysis section.
pub open spec fn analysis_issues(data: SimulationData) -> Seq<Issue> {
    let n = data.analysis.mc_iterations;
    issue_if(
        n < 10,
        (
            "analysis.mc_iterations"@,
            "Too few Monte Carlo iterations: "@ + decimal(n as nat),
            Some("Use at least 100 iterations for reasonable accuracy. 1000 is recommended."@),
        ),
    )
}

fn validate_analysis(data: &SimulationData) -> (r: Result<(), Vec<ValidationError>>)
    ensures
        reports(r, analysis_issues(*data)),
{
    let mut errors: Vec<ValidationError> = Vec::new();
    let analysis = &data.analysis;
    if analysis.mc_iterations < 10 {
        let msg = with_number("Too few Monte Carlo iterations: ", analysis.mc_iterations, "");
        proof {
            reveal_strlit("");
            assert(msg@ =~= "Too few Monte Carlo iterations: "@ + decimal(analysis.mc_iterations as nat));
        }
        report(
            &mut errors,
            new_error(
                String::from_str("analysis.mc_iterations"),
                msg,
                Some(String::from_str("Use at least 100 iterations for reasonable accuracy. 1000 is recommended.")),
            ),
        );
    }
    proof {
        assert(issues_of(errors@) =~= analysis_issues(*data));
    }
    finish(errors)
}

} // verus!
