//! Scenario validation, schema documentation and scenario-building state
//! for the FinPlan retirement planner, with their contracts proved by Verus.

pub mod defaults;
pub mod event_tools;
pub mod parameter_tools;
pub mod prompts;
pub mod resources;
pub mod scenario;
pub mod schema_text;
pub mod state;
pub mod sweep_tools;
pub mod text;
pub mod ticker_tools;
pub mod tools;
pub mod validator;
