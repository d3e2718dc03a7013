use vstd::prelude::*;
use vstd::string::StringExecFns;

use crate::agent_basic::{AgentError, AgentState, BasicAgent};
use crate::fact_sheet::{FactSheet, FactSheetView, RouteObject};
use crate::routes::{filter_probe_routes, probe_targets, ProbeOutcome};

verus! {

/// How many repairs a failing build gets before the run stops.
pub const MAX_BUG_FIXES: u8 = 10;

/// Where the generated service listens while its routes are probed.
pub const SERVICE_BASE_URL: &'static str = "http://localhost:8000";

/// The fact sheet once generated code is stored.
pub open spec fn code_recorded(f: FactSheetView, code: Seq<char>) -> FactSheetView {
    FactSheetView { backend_code: Some(code), ..f }
}

/// The fact sheet once the routes to probe are stored.
pub open spec fn schema_recorded(f: FactSheetView, routes: Seq<RouteObject>) -> FactSheetView {
    FactSheetView { api_endpoint_schema: Some(routes), ..f }
}

/// The build agent as mathematical values.
pub struct BackendView {
    pub state: AgentState,
    /// Consecutive failed builds since the last successful one.
    pub bug_count: nat,
    /// What the last failed build reported.
    pub bug_errors: Option<Seq<char>>,
}

/// The work the build agent asks for next.
#[derive(Debug, Clone, Copy, PartialEq, Eq, Structural)]
pub enum BackendStep {
    /// Generate code from the template and the description.
    WriteInitialCode,
    /// Ask for an improved version of the current code.
    ImproveCode,
    /// Ask for the current code with the last build errors fixed.
    FixBugs,
    /// Confirm, build, extract routes and probe them.
    TestCode,
    /// Nothing: the agent has finished.
    Done,
}

/// The step that follows from the agent's state: a first pass improves the
/// code, and each later pass repairs the last build errors.
pub open spec fn backend_step(v: BackendView) -> BackendStep {
    match v.state {
        AgentState::Discovery => BackendStep::WriteInitialCode,
        AgentState::Working => if v.bug_count == 0 {
            BackendStep::ImproveCode
        } else {
            BackendStep::FixBugs
        },
        AgentState::UnitTesting => BackendStep::TestCode,
        AgentState::Finished => BackendStep::Done,
    }
}

/// The agent and the result after a build: a success clears the count of
/// failures; a failure raises it, keeps the errors and goes back to repair,
/// unless the count now exceeds the bound, which stops the run.
pub open spec fn build_recorded(v: BackendView, succeeded: bool, stderr: Seq<char>) -> (
    BackendView,
    Result<(), AgentError>,
) {
    if succeeded {
        (BackendView { bug_count: 0, ..v }, Ok(()))
    } else if v.bug_count + 1 > MAX_BUG_FIXES {
        (
            BackendView { bug_count: v.bug_count + 1, bug_errors: Some(stderr), ..v },
            Err(AgentError::TooManyBugs),
        )
    } else {
        (
            BackendView {
                state: AgentState::Working,
                bug_count: v.bug_count + 1,
                bug_errors: Some(stderr),
            },
            Ok(()),
        )
    }
}

/// What a route probe calls for.
#[derive(Debug, Clone, Copy, PartialEq, Eq, Structural)]
pub enum ProbeVerdict {
    /// The route answered 200.
    Passed,
    /// The route answered another status: report it and go on.
    Issue,
    /// The service could not be reached: stop it, report it and go on.
    StopServer,
}

/// The verdict on one route probe.
pub open spec fn probe_verdict_of(o: ProbeOutcome) -> ProbeVerdict {
    match o {
        ProbeOutcome::Status(code) => if code == 200 {
            ProbeVerdict::Passed
        } else {
            ProbeVerdict::Issue
        },
        ProbeOutcome::TransportError => ProbeVerdict::StopServer,
    }
}

/// The verdict on one route probe.
pub fn probe_verdict(o: ProbeOutcome) -> (r: ProbeVerdict)
    ensures
        r == probe_verdict_of(o),
{
    match o {
        ProbeOutcome::Status(code) => if code == 200 {
            ProbeVerdict::Passed
        } else {
            ProbeVerdict::Issue
        },
        ProbeOutcome::TransportError => ProbeVerdict::StopServer,
    }
}

/// The address at which a route of the running service is probed.
pub fn endpoint_url(route: &RouteObject) -> (r: String)
    ensures
        r@ == SERVICE_BASE_URL@ + route.route@,
{
    let base = String::from_str(SERVICE_BASE_URL);
    base.concat(route.route.as_str())
}

/// Generated code may run only once the operator has approved it.
pub fn safety_gate(approved: bool) -> (r: Result<(), AgentError>)
    ensures
        approved ==> r is Ok,
        !approved ==> r == Err::<(), AgentError>(AgentError::SafetyGateDenied),
{
    if approved {
        Ok(())
    } else {
        Err(AgentError::SafetyGateDenied)
    }
}

/// The agent that generates the service's code, builds it, repairs it while
/// the build fails, and smoke-tests its routes.
#[derive(Debug)]
pub struct AgentBackendDeveloper {
    attributes: BasicAgent,
    bug_errors: Option<String>,
    bug_count: u8,
}

impl View for AgentBackendDeveloper {
    type V = BackendView;

    closed spec fn view(&self) -> BackendView {
        BackendView {
            state: self.attributes.state,
            bug_count: self.bug_count as nat,
            bug_errors: match self.bug_errors {
                Some(e) => Some(e@),
                None => None,
            },
        }
    }
}

impl AgentBackendDeveloper {
    /// The agent's common attributes.
    pub closed spec fn spec_attributes(&self) -> BasicAgent {
        self.attributes
    }

    /// The agent may still build: the repair bound has not been passed.
    pub open spec fn wf(&self) -> bool {
        self@.bug_count <= MAX_BUG_FIXES
    }

    /// A new agent in `Discovery`, with no failed build behind it.
    pub fn new() -> (r: AgentBackendDeveloper)
        ensures
            r@ == (BackendView { state: AgentState::Discovery, bug_count: 0, bug_errors: None }),
            r.wf(),
            r.spec_attributes().objective@
                == "Develop backend code for webserver and json database"@,
            r.spec_attributes().position@ == "Backend Developer"@,
            r.spec_attributes().memory@.len() == 0,
    {
        let attributes = BasicAgent {
            objective: String::from_str("Develop backend code for webserver and json database"),
            position: String::from_str("Backend Developer"),
            state: AgentState::Discovery,
            memory: Vec::new(),
        };
        AgentBackendDeveloper { attributes, bug_errors: None, bug_count: 0 }
    }

    /// The agent's objective, role label, state and memory.
    pub fn get_attributes_from_agent(&self) -> (r: &BasicAgent)
        ensures
            *r == self.spec_attributes(),
            r.state == self@.state,
    {
        &self.attributes
    }

    /// Consecutive failed builds since the last successful one.
    pub fn bug_count(&self) -> (r: u8)
        ensures
            r as nat == self@.bug_count,
    {
        self.bug_count
    }

    /// What the last failed build reported.
    pub fn bug_errors(&self) -> (r: &Option<String>)
        ensures
            match *r {
                Some(e) => self@.bug_errors == Some(e@),
                None => self@.bug_errors is None,
            },
    {
        &self.bug_errors
    }

    /// The work to do next.
    pub fn next_step(&self) -> (r: BackendStep)
        ensures
            r == backend_step(self@),
    {
        match self.attributes.state {
            AgentState::Discovery => BackendStep::WriteInitialCode,
            AgentState::Working => if self.bug_count == 0 {
                BackendStep::ImproveCode
            } else {
                BackendStep::FixBugs
            },
            AgentState::UnitTesting => BackendStep::TestCode,
            AgentState::Finished => BackendStep::Done,
        }
    }

    /// Stores newly generated code, which replaces any earlier code. Code
    /// generated from the template moves the agent to `Working`; improved or
    /// repaired code moves it to `UnitTesting`.
    pub fn record_code(&mut self, factsheet: &mut FactSheet, code: String)
        requires
            old(self)@.state == AgentState::Discovery || old(self)@.state == AgentState::Working,
        ensures
            final(factsheet)@ == code_recorded(old(factsheet)@, code@),
            final(self)@ == (BackendView {
                state: if old(self)@.state == AgentState::Discovery {
                    AgentState::Working
                } else {
                    AgentState::UnitTesting
                },
                ..old(self)@
            }),
            final(self).spec_attributes().position == old(self).spec_attributes().position,
    {
        factsheet.backend_code = Some(code);
        if self.attributes.state == AgentState::Discovery {
            self.attributes.update_state(AgentState::Working);
        } else {
            self.attributes.update_state(AgentState::UnitTesting);
        }
    }

    /// Records the result of a build of the generated code.
    pub fn record_build_result(&mut self, succeeded: bool, stderr: String) -> (r: Result<
        (),
        AgentError,
    >)
        requires
            old(self).wf(),
            old(self)@.state == AgentState::UnitTesting,
        ensures
            (final(self)@, r) == build_recorded(old(self)@, succeeded, stderr@),
            r is Ok ==> final(self).wf(),
            final(self).spec_attributes().position == old(self).spec_attributes().position,
    {
        if succeeded {
            self.bug_count = 0;
            return Ok(());
        }
        self.bug_count = self.bug_count + 1;
        self.bug_errors = Some(stderr);
        if self.bug_count > MAX_BUG_FIXES {
            return Err(AgentError::TooManyBugs);
        }
        self.attributes.update_state(AgentState::Working);
        Ok(())
    }

    /// Stores the routes that can be smoke-tested, out of those extracted from
    /// the built code, in their original order.
    pub fn record_endpoints(&self, factsheet: &mut FactSheet, routes: Vec<RouteObject>)
        ensures
            final(factsheet)@ == schema_recorded(old(factsheet)@, probe_targets(routes@)),
    {
        factsheet.api_endpoint_schema = Some(filter_probe_routes(routes));
    }

    /// Ends the testing stage once every route has been probed.
    pub fn finish_testing(&mut self)
        ensures
            final(self)@ == (BackendView { state: AgentState::Finished, ..old(self)@ }),
    {
        self.attributes.update_state(AgentState::Finished);
    }
}

/// The agent after a run of consecutive failed builds with these error
/// reports, or `None` once a failure has stopped the run.
pub open spec fn failed_builds(v: BackendView, errs: Seq<Seq<char>>) -> Option<BackendView>
    decreases errs.len(),
{
    if errs.len() == 0 {
        Some(v)
    } else {
        match failed_builds(v, errs.drop_last()) {
            Some(w) => {
                let (next, r) = build_recorded(w, false, errs.last());
                if r is Ok {
                    Some(next)
                } else {
                    None
                }
            },
            None => None,
        }
    }
}

/// From a clean count, each failed build raises the count by exactly one,
/// ten failures are survived and the eleventh stops the run, so no more than
/// eleven builds are attempted; a successful build resets the count to zero.
pub proof fn lemma_repair_loop_bounded(v: BackendView, errs: Seq<Seq<char>>)
    requires
        v.bug_count == 0,
    ensures
        failed_builds(v, errs) is Some <==> errs.len() <= MAX_BUG_FIXES,
        failed_builds(v, errs) is Some ==> failed_builds(v, errs)->Some_0.bug_count == errs.len(),
        failed_builds(v, errs) is Some ==> build_recorded(
            failed_builds(v, errs)->Some_0,
            true,
            Seq::empty(),
        ).0.bug_count == 0,
    decreases errs.len(),
{
    if errs.len() > 0 {
        lemma_repair_loop_bounded(v, errs.drop_last());
    }
}

} // verus!
