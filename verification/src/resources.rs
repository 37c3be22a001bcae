//! The schema documents offered as resources: their list and lookup by URI.

use vstd::prelude::*;

use crate::schema_text;
use crate::text::same_text;

verus! {

/// Description of one schema resource.
#[derive(Clone, Copy, Debug)]
pub struct ResourceInfo {
    pub uri: &'static str,
    pub name: &'static str,
    pub description: &'static str,
    pub mime_type: &'static str,
}

/// The URIs of the schema resources, in listing order.
pub open spec fn resource_uris() -> Seq<Seq<char>> {
    seq![
        "schema://full"@,
        "schema://accounts"@,
        "schema://events"@,
        "schema://triggers"@,
        "schema://effects"@,
        "schema://amounts"@,
        "schema://parameters"@,
        "schema://profiles"@,
        "schema://analysis"@,
        "schema://example"@,
        "schema://patterns"@,
    ]
}

/// The uri, name, description and MIME type of a resource.
pub open spec fn resource_view(r: ResourceInfo) -> (Seq<char>, Seq<char>, Seq<char>, Seq<char>) {
    (r.uri@, r.name@, r.description@, r.mime_type@)
}

/// The schema resources, in listing order: uri, name, description and
/// MIME type.
pub open spec fn resource_catalog() -> Seq<(Seq<char>, Seq<char>, Seq<char>, Seq<char>)> {
    seq![
        ("schema://full"@, "Full YAML Reference"@, "Complete scenario YAML reference documentation"@, "text/markdown"@),
        ("schema://accounts"@, "Account Types"@, "All 13 account types with fields and examples"@, "text/markdown"@),
        ("schema://events"@, "Event Structure"@, "Event structure: triggers, effects, once, enabled"@, "text/markdown"@),
        ("schema://triggers"@, "Trigger Types"@, "All trigger types with fields and YAML examples"@, "text/markdown"@),
        ("schema://effects"@, "Effect Types"@, "All effect types with fields and YAML examples"@, "text/markdown"@),
        ("schema://amounts"@, "Amount Types"@, "All amount types with nesting examples"@, "text/markdown"@),
        ("schema://parameters"@, "Parameters"@, "Parameter fields: dates, inflation, taxes, returns_mode"@, "text/markdown"@),
        ("schema://profiles"@, "Return Profiles"@, "Profile types (Fixed, Normal, etc.) and asset mappings"@, "text/markdown"@),
        ("schema://analysis"@, "Analysis Config"@, "MC iterations, sweep parameters, metrics, chart configs"@, "text/markdown"@),
        ("schema://example"@, "Example Scenario"@, "Complete example.yaml scenario file"@, "text/x-yaml"@),
        ("schema://patterns"@, "Common Patterns"@, "Reusable event pattern templates"@, "text/markdown"@),
    ]
}

/// The document behind a resource URI, if any.
pub open spec fn resource_text(uri: Seq<char>) -> Option<Seq<char>> {
    if uri == "schema://full"@ {
        Some(schema_text::FULL_SCHEMA_TEXT@)
    } else if uri == "schema://accounts"@ {
        Some(schema_text::ACCOUNTS_SCHEMA_TEXT@)
    } else if uri == "schema://events"@ {
        Some(schema_text::EVENTS_SCHEMA_TEXT@)
    } else if uri == "schema://triggers"@ {
        Some(schema_text::TRIGGERS_SCHEMA_TEXT@)
    } else if uri == "schema://effects"@ {
        Some(schema_text::EFFECTS_SCHEMA_TEXT@)
    } else if uri == "schema://amounts"@ {
        Some(schema_text::AMOUNTS_SCHEMA_TEXT@)
    } else if uri == "schema://parameters"@ {
        Some(schema_text::PARAMETERS_SCHEMA_TEXT@)
    } else if uri == "schema://profiles"@ {
        Some(schema_text::PROFILES_SCHEMA_TEXT@)
    } else if uri == "schema://analysis"@ {
        Some(schema_text::ANALYSIS_SCHEMA_TEXT@)
    } else if uri == "schema://example"@ {
        Some(schema_text::EXAMPLE_YAML_TEXT@)
    } else if uri == "schema://patterns"@ {
        Some(schema_text::PATTERNS_SCHEMA_TEXT@)
    } else {
        None
    }
}

fn make_resource(
    uri: &'static str,
    name: &'static str,
    description: &'static str,
    mime_type: &'static str,
) -> (r: ResourceInfo)
    ensures
        r.uri == uri,
        r.name == name,
        r.description == description,
        r.mime_type == mime_type,
{
    ResourceInfo { uri, name, description, mime_type }
}

/// All available schema resources.
pub fn list_resources() -> (r: Vec<ResourceInfo>)
    ensures
        r@.len() == resource_uris().len(),
        forall|i: int| 0 <= i < r@.len() ==> (#[trigger] r@[i]).uri@ == resource_uris()[i],
        r@.map_values(|x: ResourceInfo| resource_view(x)) == resource_catalog(),
{
    let r = vec![
        make_resource(
            "schema://full",
            "Full YAML Reference",
            "Complete scenario YAML reference documentation",
            "text/markdown",
        ),
        make_resource(
            "schema://accounts",
            "Account Types",
            "All 13 account types with fields and examples",
            "text/markdown",
        ),
        make_resource(
            "schema://events",
            "Event Structure",
            "Event structure: triggers, effects, once, enabled",
            "text/markdown",
        ),
        make_resource(
            "schema://triggers",
            "Trigger Types",
            "All trigger types with fields and YAML examples",
            "text/markdown",
        ),
        make_resource(
            "schema://effects",
            "Effect Types",
            "All effect types with fields and YAML examples",
            "text/markdown",
        ),
        make_resource(
            "schema://amounts",
            "Amount Types",
            "All amount types with nesting examples",
            "text/markdown",
        ),
        make_resource(
            "schema://parameters",
            "Parameters",
            "Parameter fields: dates, inflation, taxes, returns_mode",
            "text/markdown",
        ),
        make_resource(
            "schema://profiles",
            "Return Profiles",
            "Profile types (Fixed, Normal, etc.) and asset mappings",
            "text/markdown",
        ),
        make_resource(
            "schema://analysis",
            "Analysis Config",
            "MC iterations, sweep parameters, metrics, chart configs",
            "text/markdown",
        ),
        make_resource(
            "schema://example",
            "Example Scenario",
            "Complete example.yaml scenario file",
            "text/x-yaml",
        ),
        make_resource(
            "schema://patterns",
            "Common Patterns",
            "Reusable event pattern templates",
            "text/markdown",
        ),
    ];
    proof {
        assert(r@.len() == 11);
        assert(r@.map_values(|x: ResourceInfo| resource_view(x)) =~= resource_catalog());
    }
    r
}

/// Read a resource by URI: its document, or `None` for an unknown URI.
pub fn read_resource(uri: &str) -> (r: Option<&'static str>)
    ensures
        r is Some <==> resource_text(uri@) is Some,
        r matches Some(t) ==> resource_text(uri@) == Some(t@),
{
    if same_text(uri, "schema://full") {
        Some(schema_text::full_schema())
    } else if same_text(uri, "schema://accounts") {
        Some(schema_text::accounts_schema())
    } else if same_text(uri, "schema://events") {
        Some(schema_text::events_schema())
    } else if same_text(uri, "schema://triggers") {
        Some(schema_text::triggers_schema())
    } else if same_text(uri, "schema://effects") {
        Some(schema_text::effects_schema())
    } else if same_text(uri, "schema://amounts") {
        Some(schema_text::amounts_schema())
    } else if same_text(uri, "schema://parameters") {
        Some(schema_text::parameters_schema())
    } else if same_text(uri, "schema://profiles") {
        Some(schema_text::profiles_schema())
    } else if same_text(uri, "schema://analysis") {
        Some(schema_text::analysis_schema())
    } else if same_text(uri, "schema://example") {
        Some(schema_text::example_yaml())
    } else if same_text(uri, "schema://patterns") {
        Some(schema_text::patterns_schema())
    } else {
        None
    }
}

/// Every listed resource can be read: the URIs that `list_resources`
/// gives are exactly the ones `read_resource` knows.
pub proof fn listed_resources_are_readable(uri: Seq<char>)
    ensures
        resource_uris().contains(uri) <==> resource_text(uri) is Some,
{
    if resource_text(uri) is Some {
        if uri == "schema://full"@ { assert(resource_uris()[0] == uri); }
        else if uri == "schema://accounts"@ { assert(resource_uris()[1] == uri); }
        else if uri == "schema://events"@ { assert(resource_uris()[2] == uri); }
        else if uri == "schema://triggers"@ { assert(resource_uris()[3] == uri); }
        else if uri == "schema://effects"@ { assert(resource_uris()[4] == uri); }
        else if uri == "schema://amounts"@ { assert(resource_uris()[5] == uri); }
        else if uri == "schema://parameters"@ { assert(resource_uris()[6] == uri); }
        else if uri == "schema://profiles"@ { assert(resource_uris()[7] == uri); }
        else if uri == "schema://analysis"@ { assert(resource_uris()[8] == uri); }
        else if uri == "schema://example"@ { assert(resource_uris()[9] == uri); }
        else { assert(resource_uris()[10] == uri); }
    }
}

} // verus!
