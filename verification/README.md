# finplan

Scenario building for the FinPlan retirement planner, with its behaviour
stated in Verus contracts and proved.

- `src/` is the verified library:
  - `scenario.rs`: the scenario data model (amounts and rates as the bits
    of their `f64`);
  - `validator.rs`: semantic validation of a scenario, with the exact list
    of issues stated by spec functions, and the rendering of the reports;
  - `state.rs`: the scenario state accumulated across tool calls, merging
    and the sorted ticker list;
  - `tools.rs`, `event_tools.rs`, `parameter_tools.rs`, `ticker_tools.rs`,
    `sweep_tools.rs`: the scenario-building tools, each with its reply text
    and state change stated exactly;
  - `defaults.rs`: state income tax rates;
  - `resources.rs`, `schema_text.rs`, `prompts.rs`: the schema documents and
    the guided prompts;
  - `text.rs`: text utilities (decimal rendering, joining, ordering).
- `app/` is the MCP server around the library: JSON argument decoding,
  floating-point formatting, and the protocol plumbing over stdio.
- `tests/` exercises the library on concrete scenarios.
