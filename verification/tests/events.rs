use finplan::event_tools::{
    add_custom_event, add_income_event, add_retirement_event, add_rmd_event,
    add_social_security_event, add_sweep_event, parse_interval, parse_lot_method, CustomEventArgs,
    IncomeArgs, SocialSecurityArgs, SweepEventArgs,
};
use finplan::scenario::{
    AmountData, EffectData, IntervalData, LotMethodData, OffsetData, TriggerData,
    WithdrawalStrategyData,
};
use finplan::state::ScenarioState;

type State = ScenarioState<(), (), ()>;

fn s(x: &str) -> Option<String> {
    Some(x.to_string())
}

#[test]
fn income_event_shape_and_reply() {
    let mut st = State::new();
    let r = add_income_event(
        &mut st,
        IncomeArgs {
            name: s("Salary"),
            to_account: s("Checking"),
            amount_bits: Some(5000.0f64.to_bits()),
            interval: s("monthly"),
            gross: None,
            taxable: Some(false),
            inflation_adjusted: Some(false),
            end_event: s("Retirement"),
            start_age: Some(22),
        },
    )
    .unwrap();
    assert_eq!(r.text, "Added income event \"Salary\" → Checking");
    let e = &st.events[0];
    match &e.trigger {
        TriggerData::Repeating { interval, start, end, max_occurrences } => {
            assert_eq!(*interval, IntervalData::Monthly);
            assert!(matches!(start.as_deref(), Some(TriggerData::Age { years: 22, months: None })));
            match end.as_deref() {
                Some(TriggerData::RelativeToEvent { event, offset }) => {
                    assert_eq!(event, "Retirement");
                    assert_eq!(*offset, OffsetData::Months { value: 0 });
                }
                other => panic!("unexpected end {:?}", other),
            }
            assert!(max_occurrences.is_none());
        }
        other => panic!("unexpected trigger {:?}", other),
    }
    match &e.effects[0] {
        EffectData::Income { to, amount, gross, taxable } => {
            assert_eq!(to, "Checking");
            assert!(matches!(amount, AmountData::Fixed { value_bits } if *value_bits == 5000.0f64.to_bits()));
            assert!(*gross);
            assert!(!*taxable);
        }
        other => panic!("unexpected effect {:?}", other),
    }
}

#[test]
fn income_event_missing_amount() {
    let mut st = State::new();
    let e = add_income_event(
        &mut st,
        IncomeArgs {
            name: s("Salary"),
            to_account: s("Checking"),
            amount_bits: None,
            interval: None,
            gross: None,
            taxable: None,
            inflation_adjusted: None,
            end_event: None,
            start_age: None,
        },
    )
    .unwrap_err();
    assert_eq!(e, "amount is required");
    assert!(st.events.is_empty());
}

#[test]
fn retirement_event_defaults() {
    let mut st = State::new();
    assert_eq!(add_retirement_event(&mut st, None, None).unwrap_err(), "age is required");
    let r = add_retirement_event(&mut st, None, Some(62)).unwrap();
    assert_eq!(
        r.text,
        "Added retirement event \"Retirement\" at age 62. Other events can reference this as end_event/start_event."
    );
    let e = &st.events[0];
    assert!(e.once);
    assert_eq!(e.description.as_deref(), Some("Retirement milestone"));
    assert!(matches!(e.trigger, TriggerData::Age { years: 62, months: None }));
}

#[test]
fn sweep_event_reply_and_strategy() {
    let mut st = State::new();
    let r = add_sweep_event(
        &mut st,
        SweepEventArgs {
            name: s("Spend"),
            to_account: s("Checking"),
            target_bits: Some(80000.0f64.to_bits()),
            target_display: "80000".to_string(),
            interval: None,
            strategy: s("tax_efficient"),
            gross: None,
            lot_method: s("lifo"),
            start_event: s("Retirement"),
        },
    )
    .unwrap();
    assert_eq!(r.text, "Added sweep event \"Spend\" → Checking (target: $80000)");
    match &st.events[0].effects[0] {
        EffectData::Sweep { strategy, gross, taxable, lot_method, exclude_accounts, .. } => {
            assert_eq!(*strategy, WithdrawalStrategyData::TaxEfficient);
            assert!(!*gross);
            assert!(*taxable);
            assert_eq!(*lot_method, LotMethodData::Lifo);
            assert!(exclude_accounts.is_empty());
        }
        other => panic!("unexpected effect {:?}", other),
    }
}

#[test]
fn social_security_and_rmd_defaults() {
    let mut st = State::new();
    let r = add_social_security_event(
        &mut st,
        SocialSecurityArgs {
            name: None,
            to_account: None,
            start_age: None,
            monthly_amount_bits: 2800.0f64.to_bits(),
            monthly_display: "2800".to_string(),
        },
    )
    .unwrap();
    assert_eq!(r.text, "Added Social Security \"Social Security\" at age 67 → Checking ($2800/month)");
    assert_eq!(st.events[0].description.as_deref(), Some("Social Security at age 67"));
    let r = add_rmd_event(&mut st, None, None, None, None).unwrap();
    assert_eq!(r.text, "Added RMD event \"RMD\" at age 73 → Checking");
    assert!(matches!(
        st.events[1].effects[0],
        EffectData::ApplyRmd { lot_method: LotMethodData::Fifo, .. }
    ));
}

#[test]
fn custom_event_errors_and_success() {
    let mut st = State::new();
    let base = || CustomEventArgs {
        name: s("Bonus"),
        description: None,
        once: None,
        enabled: None,
        trigger: Some(Ok(TriggerData::Manual)),
        effects: Some(Ok(vec![EffectData::TriggerEvent { event: "Other".to_string() }])),
    };
    assert_eq!(
        add_custom_event(&mut st, CustomEventArgs { trigger: None, ..base() }).unwrap_err(),
        "trigger is required"
    );
    assert_eq!(
        add_custom_event(&mut st, CustomEventArgs { trigger: Some(Err("bad".to_string())), ..base() })
            .unwrap_err(),
        "Invalid trigger: bad"
    );
    assert_eq!(
        add_custom_event(&mut st, CustomEventArgs { effects: Some(Err("worse".to_string())), ..base() })
            .unwrap_err(),
        "Invalid effects: worse"
    );
    let r = add_custom_event(&mut st, base()).unwrap();
    assert_eq!(r.text, "Added custom event \"Bonus\"");
    assert!(!st.events[0].once);
    assert!(st.events[0].enabled);
}

#[test]
fn interval_and_lot_method_names() {
    assert_eq!(parse_interval("weekly"), IntervalData::Weekly);
    assert_eq!(parse_interval("biweekly"), IntervalData::BiWeekly);
    assert_eq!(parse_interval("fortnightly"), IntervalData::Monthly);
    assert_eq!(parse_lot_method(Some("highest_cost")), LotMethodData::HighestCost);
    assert_eq!(parse_lot_method(None), LotMethodData::Fifo);
}
