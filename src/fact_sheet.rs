use vstd::prelude::*;

verus! {

/// Declares serde_json::Value, a JSON document. The library carries it through
/// unread, as the request and response shapes of a route.
#[verifier::external_type_specification]
#[verifier::external_body]
pub struct ExJsonValue(serde_json::Value);

/// Declares serde_json::Error, which says why a JSON text could not be decoded.
#[verifier::external_type_specification]
#[verifier::external_body]
pub struct ExJsonError(serde_json::Error);

/// What the project needs, as decided by the architecture agent.
#[derive(Debug, Clone, Copy, PartialEq, Eq, Structural)]
pub struct ProjectScope {
    pub is_crud_required: bool,
    pub is_user_login_and_logout: bool,
    pub is_external_urls_required: bool,
}

/// One HTTP endpoint discovered in generated source.
#[derive(Debug, PartialEq)]
pub struct RouteObject {
    pub is_route_dynamic: bool,
    pub method: String,
    pub request_body: serde_json::Value,
    pub response: serde_json::Value,
    pub route: String,
}

/// The record threaded through the pipeline: each agent reads what earlier
/// agents wrote and adds its own fields.
#[derive(Debug, PartialEq)]
pub struct FactSheet {
    pub project_description: String,
    pub project_scope: Option<ProjectScope>,
    pub external_urls: Option<Vec<String>>,
    pub backend_code: Option<String>,
    pub api_endpoint_schema: Option<Vec<RouteObject>>,
}

/// The fact sheet as mathematical values.
pub struct FactSheetView {
    pub project_description: Seq<char>,
    pub project_scope: Option<ProjectScope>,
    pub external_urls: Option<Seq<Seq<char>>>,
    pub backend_code: Option<Seq<char>>,
    pub api_endpoint_schema: Option<Seq<RouteObject>>,
}

/// The texts of a list of strings.
pub open spec fn texts(v: Seq<String>) -> Seq<Seq<char>> {
    v.map_values(|s: String| s@)
}

impl View for FactSheet {
    type V = FactSheetView;

    open spec fn view(&self) -> FactSheetView {
        FactSheetView {
            project_description: self.project_description@,
            project_scope: self.project_scope,
            external_urls: match self.external_urls {
                Some(v) => Some(texts(v@)),
                None => None,
            },
            backend_code: match self.backend_code {
                Some(c) => Some(c@),
                None => None,
            },
            api_endpoint_schema: match self.api_endpoint_schema {
                Some(v) => Some(v@),
                None => None,
            },
        }
    }
}

impl FactSheet {
    /// A fact sheet at the start of a run: only the description is known.
    pub fn new(project_description: String) -> (r: FactSheet)
        ensures
            r@ == (FactSheetView {
                project_description: project_description@,
                project_scope: None,
                external_urls: None,
                backend_code: None,
                api_endpoint_schema: None,
            }),
    {
        FactSheet {
            project_description,
            project_scope: None,
            external_urls: None,
            backend_code: None,
            api_endpoint_schema: None,
        }
    }
}

/// The list of strings that a JSON text holds, or `None` where the text is
/// not a JSON array of strings.
pub uninterp spec fn json_string_list(text: Seq<char>) -> Option<Seq<Seq<char>>>;

/// Relies on serde_json::from_str::<Vec<String>>: it succeeds exactly on JSON
/// arrays of strings, and its result depends on the text alone.
#[verifier::external_body]
pub(crate) fn decode_string_list(text: &str) -> (r: Result<Vec<String>, serde_json::Error>)
    ensures
        r is Ok <==> json_string_list(text@) is Some,
        r is Ok ==> texts(r->Ok_0@) == json_string_list(text@)->Some_0,
{
    serde_json::from_str::<Vec<String>>(text)
}

} // verus!
