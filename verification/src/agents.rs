//! The agents that a player can choose.
use vstd::prelude::*;

use crate::app::{agent_views, push_event_at, Agent, AgentView, InnerState, InnerView, UiView};
use crate::sorting::{sort, stably_sorted, views, Ranked};
use crate::text::{at_most, lemma_ordered_antisymmetric, lemma_ordered_total, lemma_ordered_transitive, ordered, same};

verus! {

/// Whether a role stands before another or is the same; no role stands before all.
pub open spec fn role_ordered(a: Option<Seq<char>>, b: Option<Seq<char>>) -> bool {
    match (a, b) {
        (None, _) => true,
        (Some(_), None) => false,
        (Some(a), Some(b)) => ordered(a, b),
    }
}

/// Whether an agent stands before another or ranks the same: by role, then by name.
pub open spec fn agent_ordered(a: AgentView, b: AgentView) -> bool {
    if a.role == b.role {
        ordered(a.display_name, b.display_name)
    } else {
        role_ordered(a.role, b.role)
    }
}

impl Ranked for Agent {
    open spec fn ranks(a: AgentView, b: AgentView) -> bool {
        agent_ordered(a, b)
    }

    proof fn ranks_total(a: AgentView, b: AgentView) {
        lemma_ordered_total(a.display_name, b.display_name);
        if let (Some(x), Some(y)) = (a.role, b.role) {
            lemma_ordered_total(x, y);
        }
    }

    proof fn ranks_transitive(a: AgentView, b: AgentView, c: AgentView) {
        if a.role == b.role && b.role == c.role {
            lemma_ordered_transitive(a.display_name, b.display_name, c.display_name);
        }
        if let (Some(x), Some(y), Some(z)) = (a.role, b.role, c.role) {
            if x != y && y != z {
                lemma_ordered_transitive(x, y, z);
                if x == z {
                    lemma_ordered_antisymmetric(x, y);
                }
            }
        }
    }

    fn stands_before(&self, other: &Agent) -> (r: bool) {
        match (&self.role, &other.role) {
            (None, None) => at_most(self.display_name.as_str(), other.display_name.as_str()),
            (None, Some(_)) => true,
            (Some(_), None) => false,
            (Some(a), Some(b)) => if same(a.as_str(), b.as_str()) {
                at_most(self.display_name.as_str(), other.display_name.as_str())
            } else {
                at_most(a.as_str(), b.as_str())
            },
        }
    }
}

/// The fetched agents as the dashboard shows them: by role, then by name.
pub fn fetch_agents(data: Vec<Agent>) -> (r: Vec<Agent>)
    ensures
        stably_sorted::<Agent>(agent_views(data@), agent_views(r@)),
{
    assert(agent_views(data@) =~= views(data@));
    let r = sort(data);
    assert(agent_views(r@) =~= views(r@));
    r
}

/// How far the fetch of the agents has come.
pub enum AgentLoad {
    /// It begins.
    Started,
    /// There is no way to send the request, for that reason.
    ClientFailed(String),
    /// These agents came.
    Loaded(Vec<Agent>),
    /// The request failed, for that reason.
    FetchFailed(String),
}

impl InnerView {
    /// The state with that message on the dashboard.
    pub open spec fn with_message(self, message: Seq<char>) -> InnerView {
        InnerView { state: UiView { message, ..self.state }, ..self }
    }

    /// The state with the fetch of the agents that far.
    pub open spec fn agents_loading(self, ts: u64, load: AgentLoad) -> InnerView {
        match load {
            AgentLoad::Started => self.with_message("Loading public agent data."@),
            AgentLoad::ClientFailed(error) => self.with_message(
                "Failed to initialize public agent fetch."@,
            ).with_event(ts, "error"@, "Agent data load failed: "@ + error@),
            AgentLoad::Loaded(agents) => InnerView {
                agents: agent_views(agents@),
                ..self.with_message("Idle. Select an agent, then press Arm."@)
            },
            AgentLoad::FetchFailed(error) => self.with_message(
                "Agent data unavailable. Restart the app to retry."@,
            ).with_event(ts, "error"@, "Agent data load failed: "@ + error@),
        }
    }
}

/// Takes in how far the fetch of the agents has come.
pub fn load_public_agents(inner: &mut InnerState, ts: u64, load: AgentLoad)
    ensures
        final(inner)@ == old(inner)@.agents_loading(ts, load),
{
    match load {
        AgentLoad::Started => {
            inner.state.message = "Loading public agent data.".to_string();
        },
        AgentLoad::ClientFailed(error) => {
            inner.state.message = "Failed to initialize public agent fetch.".to_string();
            let event = "Agent data load failed: ".to_string().concat(error.as_str());
            push_event_at(inner, ts, "error", event.as_str());
        },
        AgentLoad::Loaded(agents) => {
            inner.agents = agents;
            inner.state.message = "Idle. Select an agent, then press Arm.".to_string();
        },
        AgentLoad::FetchFailed(error) => {
            inner.state.message = "Agent data unavailable. Restart the app to retry.".to_string();
            let event = "Agent data load failed: ".to_string().concat(error.as_str());
            push_event_at(inner, ts, "error", event.as_str());
        },
    }
}

} // verus!
