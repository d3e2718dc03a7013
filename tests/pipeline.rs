use auto_gpt::agent_architect::AgentSolutionArchitect;
use auto_gpt::agent_backend::{
    endpoint_url, probe_verdict, safety_gate, AgentBackendDeveloper, BackendStep, ProbeVerdict,
};
use auto_gpt::agent_basic::{AgentError, AgentState};
use auto_gpt::fact_sheet::{FactSheet, ProjectScope, RouteObject};
use auto_gpt::messages::{endpoint_context, extend_ai_function, initial_code_context};
use auto_gpt::routes::{filter_probe_routes, live_url_list, ProbeOutcome, UrlProbe};
use auto_gpt::task_request::{OracleOutcome, RetryDecision, TaskRequest};

fn convert_user_input_to_goal(_user_request: &str) -> &'static str {
    "Converts a user request into a short summary goal for the project."
}

fn route(method: &str, path: &str, dynamic: bool) -> RouteObject {
    RouteObject {
        is_route_dynamic: dynamic,
        method: method.to_string(),
        request_body: serde_json::Value::Null,
        response: serde_json::Value::Null,
        route: path.to_string(),
    }
}

fn scope(urls: bool) -> ProjectScope {
    ProjectScope {
        is_crud_required: false,
        is_user_login_and_logout: false,
        is_external_urls_required: urls,
    }
}

#[test]
fn test_extend_ai_function() {
    let extended_msg = extend_ai_function(convert_user_input_to_goal, "dummy input");
    assert_eq!(extended_msg.role, "system".to_string());
}

#[test]
fn extended_message_holds_prompt_and_input() {
    let msg = extend_ai_function(convert_user_input_to_goal, "dummy input");
    assert!(msg.content.starts_with(
        "FUNCTION Converts a user request into a short summary goal for the project."
    ));
    assert!(msg.content.contains("Here is the input to the function dummy input."));
    assert!(msg.content.ends_with("Print out what the function will return."));
}

#[test]
fn context_texts() {
    assert_eq!(
        initial_code_context("fn main() {}", "a clock"),
        "CODE TEMPLATE: fn main() {} \n PROJECT_DESCRIPTION: a clock \n"
    );
    assert_eq!(endpoint_context("fn x() {}"), "CODE_INPUT: fn x() {}");
}

#[test]
fn scenario_time_site_finishes_without_unit_testing() {
    let mut agent = AgentSolutionArchitect::new();
    let mut fs = FactSheet::new(
        "build a website that fetches and returns the current time".to_string(),
    );
    assert_eq!(agent.get_attributes_from_agent().state, AgentState::Discovery);
    let needs_urls = agent.record_project_scope(&mut fs, scope(false));
    assert!(!needs_urls);
    assert_eq!(agent.get_attributes_from_agent().state, AgentState::Finished);
    assert_eq!(fs.project_scope, Some(scope(false)));
    assert_eq!(fs.external_urls, None);
}

#[test]
fn scenario_dead_url_is_removed() {
    let mut agent = AgentSolutionArchitect::new();
    let mut fs = FactSheet::new("show the latest forex prices".to_string());
    assert!(agent.record_project_scope(&mut fs, scope(true)));
    agent
        .record_external_urls(&mut fs, r#"["https://u1.example", "https://u2.example"]"#)
        .unwrap();
    assert_eq!(agent.get_attributes_from_agent().state, AgentState::UnitTesting);
    let probes = vec![
        UrlProbe { url: "https://u1.example".to_string(), outcome: ProbeOutcome::Status(200) },
        UrlProbe { url: "https://u2.example".to_string(), outcome: ProbeOutcome::Status(404) },
    ];
    agent.record_url_probes(&mut fs, &probes).unwrap();
    assert_eq!(fs.external_urls, Some(vec!["https://u1.example".to_string()]));
    assert_eq!(fs.project_scope, Some(scope(true)));
    assert_eq!(agent.get_attributes_from_agent().state, AgentState::Finished);
}

#[test]
fn transport_error_keeps_url_and_duplicates_follow_their_failure() {
    let urls = vec!["a".to_string(), "b".to_string(), "a".to_string(), "c".to_string()];
    let probes = vec![
        UrlProbe { url: "a".to_string(), outcome: ProbeOutcome::Status(200) },
        UrlProbe { url: "b".to_string(), outcome: ProbeOutcome::TransportError },
        UrlProbe { url: "a".to_string(), outcome: ProbeOutcome::Status(500) },
        UrlProbe { url: "c".to_string(), outcome: ProbeOutcome::Status(200) },
    ];
    assert_eq!(live_url_list(&urls, &probes), vec!["b".to_string(), "c".to_string()]);
    assert_eq!(live_url_list(&vec![], &probes), Vec::<String>::new());
}

#[test]
fn undecodable_url_list_stops_the_run() {
    let mut agent = AgentSolutionArchitect::new();
    let mut fs = FactSheet::new("needs urls".to_string());
    agent.record_project_scope(&mut fs, scope(true));
    let before = agent.get_attributes_from_agent().state;
    assert_eq!(
        agent.record_external_urls(&mut fs, "not a list"),
        Err(AgentError::DecodeFailed)
    );
    assert_eq!(fs.external_urls, None);
    assert_eq!(agent.get_attributes_from_agent().state, before);
}

#[test]
fn probing_without_url_list_stops_the_run() {
    let mut agent = AgentSolutionArchitect::new();
    let mut fs = FactSheet::new("x".to_string());
    assert_eq!(
        agent.record_url_probes(&mut fs, &vec![]),
        Err(AgentError::MissingExternalUrls)
    );
}

#[test]
fn unhandled_state_is_forced_to_finished() {
    let mut agent = AgentSolutionArchitect::new();
    agent.finish();
    assert_eq!(agent.get_attributes_from_agent().state, AgentState::Finished);
}

#[test]
fn scenario_only_static_get_routes_are_probed() {
    let routes = vec![
        route("GET", "/time", false),
        route("POST", "/tasks", false),
        route("GET", "/items/:id", true),
    ];
    let filtered = filter_probe_routes(routes);
    assert_eq!(filtered, vec![route("GET", "/time", false)]);
    let again = filter_probe_routes(vec![route("GET", "/time", false)]);
    assert_eq!(again, filtered);
}

#[test]
fn route_filter_is_idempotent_on_a_mixed_list() {
    let routes = vec![
        route("GET", "/a", false),
        route("GET", "/b/:id", true),
        route("get", "/c", false),
        route("GET", "/d", false),
    ];
    let once = filter_probe_routes(routes);
    assert_eq!(once, vec![route("GET", "/a", false), route("GET", "/d", false)]);
    let twice = filter_probe_routes(vec![route("GET", "/a", false), route("GET", "/d", false)]);
    assert_eq!(twice, once);
    assert!(filter_probe_routes(vec![]).is_empty());
}

#[test]
fn scenario_two_failed_builds_then_success() {
    let mut agent = AgentBackendDeveloper::new();
    let mut fs = FactSheet::new("a clock".to_string());
    assert_eq!(agent.next_step(), BackendStep::WriteInitialCode);
    agent.record_code(&mut fs, "v0".to_string());
    assert_eq!(agent.next_step(), BackendStep::ImproveCode);
    agent.record_code(&mut fs, "v1".to_string());
    assert_eq!(agent.next_step(), BackendStep::TestCode);
    let mut counts = vec![agent.bug_count()];

    agent.record_build_result(false, "error one".to_string()).unwrap();
    counts.push(agent.bug_count());
    assert_eq!(agent.next_step(), BackendStep::FixBugs);
    assert_eq!(agent.bug_errors(), &Some("error one".to_string()));
    agent.record_code(&mut fs, "v2".to_string());
    assert_eq!(agent.next_step(), BackendStep::TestCode);

    agent.record_build_result(false, "error two".to_string()).unwrap();
    counts.push(agent.bug_count());
    assert_eq!(agent.next_step(), BackendStep::FixBugs);
    agent.record_code(&mut fs, "v3".to_string());
    assert_eq!(agent.next_step(), BackendStep::TestCode);

    agent.record_build_result(true, String::new()).unwrap();
    counts.push(agent.bug_count());
    assert_eq!(counts, vec![0, 1, 2, 0]);
    assert_eq!(agent.next_step(), BackendStep::TestCode);
    assert_eq!(fs.backend_code, Some("v3".to_string()));

    agent.record_endpoints(&mut fs, vec![route("GET", "/time", false), route("POST", "/t", false)]);
    assert_eq!(fs.api_endpoint_schema, Some(vec![route("GET", "/time", false)]));
    agent.finish_testing();
    assert_eq!(agent.next_step(), BackendStep::Done);
}

#[test]
fn eleventh_failed_build_is_fatal() {
    let mut agent = AgentBackendDeveloper::new();
    let mut fs = FactSheet::new("a clock".to_string());
    agent.record_code(&mut fs, "v0".to_string());
    agent.record_code(&mut fs, "v1".to_string());
    for attempt in 1..=10u8 {
        assert_eq!(agent.record_build_result(false, "e".to_string()), Ok(()));
        assert_eq!(agent.bug_count(), attempt);
        agent.record_code(&mut fs, "fix".to_string());
    }
    assert_eq!(
        agent.record_build_result(false, "e".to_string()),
        Err(AgentError::TooManyBugs)
    );
    assert_eq!(agent.bug_count(), 11);
}

#[test]
fn oracle_retries_once() {
    let mut req = TaskRequest::new();
    assert_eq!(req.record_outcome(OracleOutcome::Failed), RetryDecision::CallAgain);
    assert_eq!(
        req.record_outcome(OracleOutcome::Reply("hi".to_string())),
        RetryDecision::Accept("hi".to_string())
    );
    assert_eq!(req.calls(), 2);

    let mut req = TaskRequest::new();
    assert_eq!(
        req.record_outcome(OracleOutcome::Reply("first".to_string())),
        RetryDecision::Accept("first".to_string())
    );
    assert_eq!(req.calls(), 1);

    let mut req = TaskRequest::new();
    assert_eq!(req.record_outcome(OracleOutcome::Failed), RetryDecision::CallAgain);
    assert_eq!(req.record_outcome(OracleOutcome::Failed), RetryDecision::GiveUp);
}

#[test]
fn probe_verdicts_and_urls() {
    assert_eq!(probe_verdict(ProbeOutcome::Status(200)), ProbeVerdict::Passed);
    assert_eq!(probe_verdict(ProbeOutcome::Status(404)), ProbeVerdict::Issue);
    assert_eq!(probe_verdict(ProbeOutcome::TransportError), ProbeVerdict::StopServer);
    assert_eq!(endpoint_url(&route("GET", "/time", false)), "http://localhost:8000/time");
}

#[test]
fn safety_gate_answers() {
    assert_eq!(safety_gate(true), Ok(()));
    assert_eq!(safety_gate(false), Err(AgentError::SafetyGateDenied));
}

#[test]
fn new_agents_carry_their_roles() {
    let a = AgentSolutionArchitect::new();
    assert_eq!(a.get_attributes_from_agent().position, "Solutions Architect");
    assert_eq!(a.get_attributes_from_agent().objective, "Gathers information");
    assert!(a.get_attributes_from_agent().memory.is_empty());
    let b = AgentBackendDeveloper::new();
    assert_eq!(b.get_attributes_from_agent().position, "Backend Developer");
    assert_eq!(b.bug_count(), 0);
    assert_eq!(b.bug_errors(), &None);
}
