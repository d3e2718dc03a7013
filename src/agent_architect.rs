use vstd::prelude::*;
use vstd::string::StringExecFns;

use crate::agent_basic::{AgentError, AgentState, BasicAgent};
use crate::fact_sheet::{
    decode_string_list, json_string_list, FactSheet, FactSheetView, ProjectScope,
};
use crate::routes::{is_excluded, live_url_list, live_urls, UrlProbe};

verus! {

/// The fact sheet once the project scope is stored.
pub open spec fn scope_recorded(f: FactSheetView, scope: ProjectScope) -> FactSheetView {
    FactSheetView { project_scope: Some(scope), ..f }
}

/// The fact sheet once the list of external URLs is stored.
pub open spec fn urls_recorded(f: FactSheetView, urls: Seq<Seq<char>>) -> FactSheetView {
    FactSheetView { external_urls: Some(urls), ..f }
}

/// The fact sheet once the URLs that failed their probes are removed.
pub open spec fn probes_recorded(f: FactSheetView, probes: Seq<UrlProbe>) -> FactSheetView {
    FactSheetView { external_urls: Some(live_urls(f.external_urls->Some_0, probes)), ..f }
}

/// The agent that turns a project description into a scope and a list of
/// live external URLs.
///
/// It starts in `Discovery`. Storing the scope finishes it, unless the scope
/// asks for external URLs: then storing the URL list moves it to
/// `UnitTesting`, and storing the URL probes finishes it.
#[derive(Debug)]
pub struct AgentSolutionArchitect {
    attributes: BasicAgent,
}

impl View for AgentSolutionArchitect {
    type V = AgentState;

    closed spec fn view(&self) -> AgentState {
        self.attributes.state
    }
}

impl AgentSolutionArchitect {
    /// The agent's common attributes.
    pub closed spec fn spec_attributes(&self) -> BasicAgent {
        self.attributes
    }

    /// A new agent in `Discovery`.
    pub fn new() -> (r: AgentSolutionArchitect)
        ensures
            r@ == AgentState::Discovery,
            r.spec_attributes().objective@ == "Gathers information"@,
            r.spec_attributes().position@ == "Solutions Architect"@,
            r.spec_attributes().memory@.len() == 0,
    {
        let attributes = BasicAgent {
            objective: String::from_str("Gathers information"),
            position: String::from_str("Solutions Architect"),
            state: AgentState::Discovery,
            memory: Vec::new(),
        };
        AgentSolutionArchitect { attributes }
    }

    /// The agent's objective, role label, state and memory.
    pub fn get_attributes_from_agent(&self) -> (r: &BasicAgent)
        ensures
            *r == self.spec_attributes(),
            r.state == self@,
    {
        &self.attributes
    }

    /// Stores the decoded project scope and finishes. Returns whether the
    /// scope asks for external URLs, which must then be requested and stored
    /// with `record_external_urls`.
    pub fn record_project_scope(&mut self, factsheet: &mut FactSheet, scope: ProjectScope) -> (r:
        bool)
        ensures
            final(factsheet)@ == scope_recorded(old(factsheet)@, scope),
            final(self)@ == AgentState::Finished,
            r == scope.is_external_urls_required,
    {
        factsheet.project_scope = Some(scope);
        self.attributes.update_state(AgentState::Finished);
        scope.is_external_urls_required
    }

    /// Decodes the oracle's reply as a JSON list of URLs, stores it and moves
    /// to `UnitTesting`. A reply that is no such list stops the run and
    /// changes nothing.
    pub fn record_external_urls(&mut self, factsheet: &mut FactSheet, reply: &str) -> (r: Result<
        (),
        AgentError,
    >)
        ensures
            match json_string_list(reply@) {
                Some(urls) => {
                    &&& r is Ok
                    &&& final(factsheet)@ == urls_recorded(old(factsheet)@, urls)
                    &&& final(self)@ == AgentState::UnitTesting
                },
                None => {
                    &&& r == Err::<(), AgentError>(AgentError::DecodeFailed)
                    &&& final(factsheet)@ == old(factsheet)@
                    &&& final(self)@ == old(self)@
                },
            },
    {
        match decode_string_list(reply) {
            Ok(urls) => {
                factsheet.external_urls = Some(urls);
                self.attributes.update_state(AgentState::UnitTesting);
                Ok(())
            },
            Err(_) => Err(AgentError::DecodeFailed),
        }
    }

    /// Removes from the stored URL list every URL that a probe answered with
    /// a status other than 200, keeping the order, and finishes. Without a
    /// stored URL list the run stops and nothing changes.
    pub fn record_url_probes(&mut self, factsheet: &mut FactSheet, probes: &Vec<UrlProbe>) -> (r:
        Result<(), AgentError>)
        ensures
            old(factsheet).external_urls is Some ==> {
                &&& r is Ok
                &&& final(factsheet)@ == probes_recorded(old(factsheet)@, probes@)
                &&& final(self)@ == AgentState::Finished
            },
            old(factsheet).external_urls is None ==> {
                &&& r == Err::<(), AgentError>(AgentError::MissingExternalUrls)
                &&& final(factsheet)@ == old(factsheet)@
                &&& final(self)@ == old(self)@
            },
    {
        let live = match &factsheet.external_urls {
            Some(urls) => live_url_list(urls, probes),
            None => {
                return Err(AgentError::MissingExternalUrls);
            },
        };
        factsheet.external_urls = Some(live);
        self.attributes.update_state(AgentState::Finished);
        Ok(())
    }

    /// Moves an agent in a state that it has no work for to `Finished`.
    pub fn finish(&mut self)
        ensures
            final(self)@ == AgentState::Finished,
    {
        self.attributes.update_state(AgentState::Finished);
    }
}

/// After the agent has run to completion the scope is stored and, where the
/// scope asks for external URLs, a URL list is stored that holds no URL whose
/// probe answered with a status other than 200.
pub proof fn lemma_architect_run_leaves_scope_and_live_urls(
    start: FactSheetView,
    scope: ProjectScope,
    urls: Seq<Seq<char>>,
    probes: Seq<UrlProbe>,
)
    ensures
        scope_recorded(start, scope).project_scope == Some(scope),
        ({
            let end = probes_recorded(urls_recorded(scope_recorded(start, scope), urls), probes);
            &&& end.project_scope == Some(scope)
            &&& end.external_urls is Some
            &&& forall|i: int|
                0 <= i < end.external_urls->Some_0.len() ==> !is_excluded(
                    probes,
                    #[trigger] end.external_urls->Some_0[i],
                )
        }),
{
    lemma_live_urls_not_excluded(urls, probes);
}

/// No URL that a probe excluded survives the filtering.
pub proof fn lemma_live_urls_not_excluded(urls: Seq<Seq<char>>, probes: Seq<UrlProbe>)
    ensures
        forall|i: int|
            0 <= i < live_urls(urls, probes).len() ==> !is_excluded(
                probes,
                #[trigger] live_urls(urls, probes)[i],
            ),
    decreases urls.len(),
{
    if urls.len() > 0 {
        lemma_live_urls_not_excluded(urls.drop_last(), probes);
        let earlier = live_urls(urls.drop_last(), probes);
        if !is_excluded(probes, urls.last()) {
            let kept = earlier.push(urls.last());
            assert forall|i: int| 0 <= i < kept.len() implies !is_excluded(
                probes,
                #[trigger] kept[i],
            ) by {
                if i < earlier.len() {
                    assert(kept[i] == earlier[i]);
                }
            }
        }
    }
}

} // verus!
