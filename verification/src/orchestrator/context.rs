//! Workflow context and related types: the data carried through a document
//! workflow's execution.
//!
//! Times are nanoseconds since the Unix epoch (UTC).

use vstd::prelude::*;
use std::collections::HashMap;
use uuid::Uuid;
use serde_json::Value;
use super::clock::now_nanos;
use super::external::{new_random_id, json_object_with, json_string_object};

verus! {

/// Nanoseconds in an hour.
pub const NANOS_PER_HOUR: i128 = 3_600_000_000_000;

/// Agent types in the workflow.
#[derive(Debug, Clone, Copy, PartialEq, Eq, Hash, Structural)]
pub enum AgentType {
    Research,
    Content,
    Compliance,
    Review,
}

/// The agents in the order in which they execute.
pub open spec fn agent_order() -> Seq<AgentType> {
    seq![AgentType::Research, AgentType::Content, AgentType::Compliance, AgentType::Review]
}

impl AgentType {
    /// The agent's position in the execution order.
    pub open spec fn position(self) -> int {
        match self {
            AgentType::Research => 0,
            AgentType::Content => 1,
            AgentType::Compliance => 2,
            AgentType::Review => 3,
        }
    }

    /// The agent's display name.
    pub open spec fn name_text(self) -> Seq<char> {
        match self {
            AgentType::Research => "Onderzoeksagent"@,
            AgentType::Content => "Contentagent"@,
            AgentType::Compliance => "Complianceagent"@,
            AgentType::Review => "Reviewagent"@,
        }
    }

    /// The agent's position in the execution order, as an index.
    pub fn index(&self) -> (r: usize)
        ensures
            r == self.position(),
            r < 4,
    {
        match self {
            AgentType::Research => 0,
            AgentType::Content => 1,
            AgentType::Compliance => 2,
            AgentType::Review => 3,
        }
    }

    /// Get the execution order of agents.
    pub fn execution_order() -> (r: &'static [AgentType])
        ensures
            r@ == agent_order(),
    {
        let r: &'static [AgentType] = &[
            AgentType::Research,
            AgentType::Content,
            AgentType::Compliance,
            AgentType::Review,
        ];
        assert(r@ =~= agent_order());
        r
    }

    /// Get agent display name.
    pub fn display_name(&self) -> (r: &'static str)
        ensures
            r@ == self.name_text(),
    {
        match self {
            AgentType::Research => "Onderzoeksagent",
            AgentType::Content => "Contentagent",
            AgentType::Compliance => "Complianceagent",
            AgentType::Review => "Reviewagent",
        }
    }

    /// Check if this agent can run in parallel with another: agents only
    /// run one after the other.
    pub fn can_run_parallel_with(&self, _other: &AgentType) -> (r: bool)
        ensures
            !r,
    {
        false
    }
}

/// Result from a single agent execution.
#[derive(Debug, Clone)]
pub struct AgentResult {
    pub agent: AgentType,
    pub success: bool,
    pub data: Value,
    pub execution_time_ms: u64,
    pub human_modified: bool,
    pub modifications: Vec<HumanModification>,
    pub completed_at: i128,
}

impl AgentResult {
    /// Create a new successful agent result, completed now.
    pub fn success(agent: AgentType, data: Value, execution_time_ms: u64) -> (r: AgentResult)
        ensures
            r.agent == agent,
            r.success,
            r.data == data,
            r.execution_time_ms == execution_time_ms,
            !r.human_modified,
            r.modifications@.len() == 0,
    {
        AgentResult {
            agent,
            success: true,
            data,
            execution_time_ms,
            human_modified: false,
            modifications: Vec::new(),
            completed_at: now_nanos(),
        }
    }

    /// Create a new failed agent result, completed now, whose data is the
    /// JSON object `{"error": error}`.
    pub fn failure(agent: AgentType, error: String) -> (r: AgentResult)
        ensures
            r.agent == agent,
            !r.success,
            r.data == json_string_object("error"@, error@),
            r.execution_time_ms == 0,
            !r.human_modified,
            r.modifications@.len() == 0,
    {
        AgentResult {
            agent,
            success: false,
            data: json_object_with(String::from_str("error"), error),
            execution_time_ms: 0,
            human_modified: false,
            modifications: Vec::new(),
            completed_at: now_nanos(),
        }
    }
}

/// Approval request for human intervention.
#[derive(Debug, Clone)]
pub struct ApprovalRequest {
    pub id: Uuid,
    pub workflow_id: Uuid,
    pub agent: AgentType,
    pub result: AgentResult,
    pub created_at: i128,
    pub expires_at: i128,
    pub escalated: bool,
    pub approver: Option<Uuid>,
}

/// The time `hours` hours after `start`; the latest representable time when
/// that lies beyond it.
pub open spec fn hours_after(start: i128, hours: u32) -> i128 {
    if start + hours * NANOS_PER_HOUR <= i128::MAX {
        (start + hours * NANOS_PER_HOUR) as i128
    } else {
        i128::MAX
    }
}

/// Adds a number of hours to a time, saturating at the latest time.
pub fn add_hours(start: i128, hours: u32) -> (r: i128)
    ensures
        r == hours_after(start, hours),
{
    let delta: i128 = (hours as i128) * NANOS_PER_HOUR;
    match start.checked_add(delta) {
        Some(t) => t,
        None => i128::MAX,
    }
}

impl ApprovalRequest {
    /// Create a new approval request with a fresh id, created now and
    /// expiring `timeout_hours` hours from now.
    pub fn new(workflow_id: Uuid, agent: AgentType, result: AgentResult, timeout_hours: u32) -> (r:
        ApprovalRequest)
        ensures
            r.workflow_id == workflow_id,
            r.agent == agent,
            r.result == result,
            r.expires_at == hours_after(r.created_at, timeout_hours),
            !r.escalated,
            r.approver is None,
    {
        let now = now_nanos();
        ApprovalRequest {
            id: new_random_id(),
            workflow_id,
            agent,
            result,
            created_at: now,
            expires_at: add_hours(now, timeout_hours),
            escalated: false,
            approver: None,
        }
    }

    /// Whether the request has expired at time `now`: `now` lies strictly
    /// after the expiry time.
    pub fn is_expired_at(&self, now: i128) -> (r: bool)
        ensures
            r == (now > self.expires_at),
    {
        now > self.expires_at
    }

    /// Check if this approval request has expired, by the system clock: the
    /// current time lies strictly after the expiry time. A request that
    /// expires at the latest representable time never expires.
    pub fn is_expired(&self) -> (r: bool)
        ensures
            self.expires_at == i128::MAX ==> !r,
    {
        self.is_expired_at(now_nanos())
    }
}

/// Human decision on an approval request.
#[derive(Debug, Clone)]
pub enum ApprovalDecision {
    Approve { approver: Uuid, comment: Option<String> },
    Modify { approver: Uuid, modifications: Vec<HumanModification>, comment: Option<String> },
    Reject { approver: Uuid, reason: String },
    RequestChanges { approver: Uuid, feedback: String },
}

/// A modification made by a human to agent output.
#[derive(Debug, Clone)]
pub struct HumanModification {
    pub id: Uuid,
    pub agent: AgentType,
    pub path: String,
    pub original_value: Value,
    pub new_value: Value,
    pub modified_by: Uuid,
    pub modified_at: i128,
    pub reason: Option<String>,
}

/// Audit log entry for tracking workflow actions.
#[derive(Debug, Clone)]
pub struct AuditEntry {
    pub id: Uuid,
    pub workflow_id: Uuid,
    pub timestamp: i128,
    pub action: AuditAction,
    pub actor: Option<AuditActor>,
    pub details: Value,
}

/// Actions that can be audited.
#[derive(Debug, Clone, Copy, PartialEq, Eq, Structural)]
pub enum AuditAction {
    WorkflowCreated,
    AgentStarted,
    AgentCompleted,
    AgentFailed,
    ApprovalRequested,
    ApprovalGranted,
    ApprovalRejected,
    ApprovalTimeout,
    WorkflowCompleted,
    WorkflowFailed,
    WorkflowCancelled,
    ModificationApplied,
    StateTransition,
}

/// Who or what performed an action.
#[derive(Debug, Clone)]
pub enum AuditActor {
    User { id: Uuid, name: Option<String> },
    Agent { agent_type: AgentType },
    System,
}

/// Document request from a user.
#[derive(Debug, Clone)]
pub struct DocumentRequest {
    pub id: Uuid,
    pub domain_id: String,
    pub document_type: DocumentType,
    pub context: HashMap<String, String>,
    pub requested_by: Uuid,
    pub requested_at: i128,
    pub priority: RequestPriority,
}

/// Type of document to generate.
#[derive(Debug, Clone, PartialEq, Eq)]
pub enum DocumentType {
    WooBesluit,
    WooInformatie,
    WooBesluitBeroep,
    WooInformatieBeroep,
    Beleidsnotitie,
    Raadsvoorstel,
    Ambtsbericht,
    Persbericht,
    InterneMemo,
    Custom(String),
}

/// Document categories for grouping.
#[derive(Debug, Clone, Copy, PartialEq, Eq, Structural)]
pub enum DocumentCategory {
    Woo,
    Beleid,
    Communicatie,
    Intern,
    Overig,
}

impl DocumentType {
    /// The category of a document type.
    pub open spec fn category_of(self) -> DocumentCategory {
        match self {
            DocumentType::WooBesluit | DocumentType::WooInformatie | DocumentType::WooBesluitBeroep
            | DocumentType::WooInformatieBeroep => DocumentCategory::Woo,
            DocumentType::Beleidsnotitie | DocumentType::Raadsvoorstel => DocumentCategory::Beleid,
            DocumentType::Persbericht => DocumentCategory::Communicatie,
            DocumentType::Ambtsbericht | DocumentType::InterneMemo => DocumentCategory::Intern,
            DocumentType::Custom(_) => DocumentCategory::Overig,
        }
    }

    /// Get the base category of this document type.
    pub fn category(&self) -> (r: DocumentCategory)
        ensures
            r == self.category_of(),
    {
        match self {
            DocumentType::WooBesluit | DocumentType::WooInformatie | DocumentType::WooBesluitBeroep
            | DocumentType::WooInformatieBeroep => DocumentCategory::Woo,
            DocumentType::Beleidsnotitie | DocumentType::Raadsvoorstel => DocumentCategory::Beleid,
            DocumentType::Persbericht => DocumentCategory::Communicatie,
            DocumentType::Ambtsbericht | DocumentType::InterneMemo => DocumentCategory::Intern,
            DocumentType::Custom(_) => DocumentCategory::Overig,
        }
    }

    /// Check if this document type requires mandatory human review: the
    /// Woo document types do.
    pub fn requires_mandatory_review(&self) -> (r: bool)
        ensures
            r == (self.category_of() == DocumentCategory::Woo),
    {
        match self.category() {
            DocumentCategory::Woo => true,
            _ => false,
        }
    }
}

/// Request priority level.
#[derive(Debug, Clone, Copy, PartialEq, Eq, Structural)]
pub enum RequestPriority {
    Low,
    Normal,
    High,
    Urgent,
}

impl Default for RequestPriority {
    fn default() -> (r: RequestPriority)
        ensures
            r == RequestPriority::Normal,
    {
        RequestPriority::Normal
    }
}

/// The main context carried through the workflow state machine.
///
/// The per-agent tables are indexed by `AgentType::index`, the agent's
/// position in the execution order.
#[derive(Debug, Clone)]
pub struct WorkflowContext {
    pub id: Uuid,
    pub document_request: DocumentRequest,
    pub workflow_version: String,
    pub current_agent: Option<AgentType>,
    /// Whether each agent has completed.
    pub completed_agents: [bool; 4],
    /// How often each agent has failed, for the agents that have failed.
    pub failed_agents: [Option<u32>; 4],
    /// The latest result of each agent.
    pub agent_results: [Option<AgentResult>; 4],
    pub pending_approvals: Vec<ApprovalRequest>,
    pub audit_log: Vec<AuditEntry>,
    pub timeout_ms: u64,
    pub max_retries: u32,
    pub approval_timeout_hours: u32,
    pub created_at: i128,
    pub last_activity: i128,
    pub approval_deadline: Option<i128>,
}

impl WorkflowContext {
    /// Whether an agent has completed.
    pub open spec fn completed(self, agent: AgentType) -> bool {
        self.completed_agents@[agent.position()]
    }

    /// How often an agent has failed, if it has.
    pub open spec fn failures(self, agent: AgentType) -> Option<u32> {
        self.failed_agents@[agent.position()]
    }

    /// The latest result of an agent.
    pub open spec fn result_of(self, agent: AgentType) -> Option<AgentResult> {
        self.agent_results@[agent.position()]
    }

    /// The first agent in execution order that has not completed.
    pub open spec fn first_incomplete(self) -> Option<AgentType> {
        if !self.completed(AgentType::Research) {
            Some(AgentType::Research)
        } else if !self.completed(AgentType::Content) {
            Some(AgentType::Content)
        } else if !self.completed(AgentType::Compliance) {
            Some(AgentType::Compliance)
        } else if !self.completed(AgentType::Review) {
            Some(AgentType::Review)
        } else {
            None
        }
    }

    /// Every agent that has failed has failed fewer than `max_retries` times.
    pub open spec fn retries_left(self) -> bool {
        forall|agent: AgentType|
            #[trigger] self.failures(agent) matches Some(count) ==> count < self.max_retries
    }

    /// The fields that the bookkeeping of agents, audit and approvals leaves
    /// alone.
    pub open spec fn same_setup(self, other: WorkflowContext) -> bool {
        &&& self.id == other.id
        &&& self.workflow_version == other.workflow_version
        &&& self.current_agent == other.current_agent
        &&& self.timeout_ms == other.timeout_ms
        &&& self.max_retries == other.max_retries
        &&& self.approval_timeout_hours == other.approval_timeout_hours
        &&& self.created_at == other.created_at
    }

    /// Create a new workflow context, created now, with no agent run yet,
    /// a 5 minute agent timeout, 3 retries and a 24 hour approval timeout.
    pub fn new(id: Uuid, document_request: DocumentRequest, workflow_version: String) -> (r:
        WorkflowContext)
        ensures
            r.id == id,
            r.document_request == document_request,
            r.workflow_version == workflow_version,
            r.current_agent is None,
            forall|a: AgentType| !(#[trigger] r.completed(a)),
            forall|a: AgentType| #[trigger] r.failures(a) is None,
            forall|a: AgentType| #[trigger] r.result_of(a) is None,
            r.pending_approvals@.len() == 0,
            r.audit_log@.len() == 0,
            r.timeout_ms == 300_000,
            r.max_retries == 3,
            r.approval_timeout_hours == 24,
            r.last_activity == r.created_at,
            r.approval_deadline is None,
    {
        let now = now_nanos();
        WorkflowContext {
            id,
            document_request,
            workflow_version,
            current_agent: None,
            completed_agents: [false, false, false, false],
            failed_agents: [None, None, None, None],
            agent_results: [None, None, None, None],
            pending_approvals: Vec::new(),
            audit_log: Vec::new(),
            timeout_ms: 300_000,
            max_retries: 3,
            approval_timeout_hours: 24,
            created_at: now,
            last_activity: now,
            approval_deadline: None,
        }
    }

    /// Check if a specific agent has completed.
    pub fn is_agent_complete(&self, agent: AgentType) -> (r: bool)
        ensures
            r == self.completed(agent),
    {
        self.completed_agents[agent.index()]
    }

    /// Get the retry count for an agent: how often it has failed.
    pub fn get_retry_count(&self, agent: &AgentType) -> (r: u32)
        ensures
            r == match self.failures(*agent) {
                Some(count) => count,
                None => 0,
            },
    {
        match self.failed_agents[agent.index()] {
            Some(count) => count,
            None => 0,
        }
    }

    /// Check if workflow can proceed: no approvals are pending.
    pub fn can_proceed(&self) -> (r: bool)
        ensures
            r == (self.pending_approvals@.len() == 0),
    {
        self.pending_approvals.len() == 0
    }

    /// Check if every agent that has failed can still be retried.
    pub fn can_retry_any(&self) -> (r: bool)
        ensures
            r == self.retries_left(),
    {
        let mut i: usize = 0;
        while i < 4
            invariant
                i <= 4,
                forall|a: AgentType|
                    #![trigger self.failures(a)]
                    a.position() < i ==> (self.failures(a) matches Some(count) ==> count
                        < self.max_retries),
            decreases 4 - i,
        {
            if let Some(count) = self.failed_agents[i] {
                if count >= self.max_retries {
                    let ghost a = agent_order()[i as int];
                    assert(a.position() == i);
                    assert(self.failures(a) == Some(count));
                    return false;
                }
            }
            proof {
                let a = agent_order()[i as int];
                assert(a.position() == i);
            }
            i = i + 1;
            assert forall|a: AgentType|
                #![trigger self.failures(a)]
                a.position() < i implies (self.failures(a) matches Some(count) ==> count
                    < self.max_retries) by {
                if a.position() == i - 1 {
                    assert(self.failures(a) == self.failed_agents@[i - 1]);
                }
            }
        }
        true
    }

    /// Record an agent result: the agent has completed with this result.
    pub fn record_agent_result(&mut self, result: AgentResult)
        ensures
            final(self).same_setup(*old(self)),
            final(self).document_request == old(self).document_request,
            final(self).completed(result.agent),
            final(self).result_of(result.agent) == Some(result),
            forall|a: AgentType|
                a != result.agent ==> #[trigger] final(self).completed(a) == old(self).completed(a)
                    && final(self).result_of(a) == old(self).result_of(a),
            forall|a: AgentType| #[trigger] final(self).failures(a) == old(self).failures(a),
            final(self).pending_approvals == old(self).pending_approvals,
            final(self).audit_log == old(self).audit_log,
            final(self).approval_deadline == old(self).approval_deadline,
    {
        let i = result.agent.index();
        self.completed_agents[i] = true;
        self.agent_results[i] = Some(result);
        self.last_activity = now_nanos();
        proof {
            assert forall|a: AgentType| a != result.agent implies a.position() != i by {}
        }
    }

    /// Record an agent failure: its failure count goes up by one. The count
    /// must be below `u32::MAX`.
    pub fn record_agent_failure(&mut self, agent: AgentType)
        requires
            match old(self).failures(agent) {
                Some(count) => count < u32::MAX,
                None => true,
            },
        ensures
            final(self).same_setup(*old(self)),
            final(self).document_request == old(self).document_request,
            final(self).failures(agent) == Some(
                (match old(self).failures(agent) {
                    Some(count) => count + 1,
                    None => 1,
                }) as u32,
            ),
            forall|a: AgentType| a != agent ==> #[trigger] final(self).failures(a) == old(self).failures(a),
            forall|a: AgentType| #[trigger] final(self).completed(a) == old(self).completed(a),
            forall|a: AgentType| #[trigger] final(self).result_of(a) == old(self).result_of(a),
            final(self).pending_approvals == old(self).pending_approvals,
            final(self).audit_log == old(self).audit_log,
            final(self).approval_deadline == old(self).approval_deadline,
    {
        let i = agent.index();
        let count = match self.failed_agents[i] {
            Some(count) => count + 1,
            None => 1,
        };
        self.failed_agents[i] = Some(count);
        self.last_activity = now_nanos();
        proof {
            assert forall|a: AgentType| a != agent implies a.position() != i by {}
        }
    }

    /// Add an audit log entry at the end of the log.
    pub fn add_audit_entry(&mut self, entry: AuditEntry)
        ensures
            final(self).same_setup(*old(self)),
            final(self).document_request == old(self).document_request,
            final(self).audit_log@ == old(self).audit_log@.push(entry),
            final(self).completed_agents == old(self).completed_agents,
            final(self).failed_agents == old(self).failed_agents,
            final(self).agent_results == old(self).agent_results,
            final(self).pending_approvals == old(self).pending_approvals,
            final(self).approval_deadline == old(self).approval_deadline,
    {
        self.audit_log.push(entry);
        self.last_activity = now_nanos();
    }

    /// Whether approval has timed out at time `now`: a deadline is set and
    /// `now` lies strictly after it.
    pub fn is_approval_timeout_at(&self, now: i128) -> (r: bool)
        ensures
            r == match self.approval_deadline {
                Some(deadline) => now > deadline,
                None => false,
            },
    {
        match self.approval_deadline {
            Some(deadline) => now > deadline,
            None => false,
        }
    }

    /// Check if approval has timed out, by the system clock: a deadline is
    /// set and the current time lies strictly after it.
    pub fn is_approval_timeout(&self) -> (r: bool)
        ensures
            self.approval_deadline is None ==> !r,
            self.approval_deadline == Some(i128::MAX) ==> !r,
    {
        self.is_approval_timeout_at(now_nanos())
    }

    /// Set the approval deadline to `hours` hours after `now`.
    pub fn set_approval_deadline_at(&mut self, now: i128, hours: u32)
        ensures
            final(self).approval_deadline == Some(hours_after(now, hours)),
            final(self).same_setup(*old(self)),
            final(self).document_request == old(self).document_request,
            final(self).last_activity == old(self).last_activity,
            final(self).completed_agents == old(self).completed_agents,
            final(self).failed_agents == old(self).failed_agents,
            final(self).agent_results == old(self).agent_results,
            final(self).pending_approvals == old(self).pending_approvals,
            final(self).audit_log == old(self).audit_log,
    {
        self.approval_deadline = Some(add_hours(now, hours));
    }

    /// Set the approval deadline to `hours` hours from now.
    pub fn set_approval_deadline(&mut self, hours: u32)
        ensures
            exists|now: i128| final(self).approval_deadline == Some(#[trigger] hours_after(now, hours)),
            final(self).same_setup(*old(self)),
            final(self).document_request == old(self).document_request,
            final(self).last_activity == old(self).last_activity,
            final(self).completed_agents == old(self).completed_agents,
            final(self).failed_agents == old(self).failed_agents,
            final(self).agent_results == old(self).agent_results,
            final(self).pending_approvals == old(self).pending_approvals,
            final(self).audit_log == old(self).audit_log,
    {
        let now = now_nanos();
        self.set_approval_deadline_at(now, hours);
    }

    /// Get the next agent to execute: the first agent in execution order
    /// that has not completed.
    pub fn next_agent(&self) -> (r: Option<AgentType>)
        ensures
            r == self.first_incomplete(),
    {
        let order = AgentType::execution_order();
        let mut i: usize = 0;
        while i < order.len()
            invariant
                order@ == agent_order(),
                i <= 4,
                forall|j: int| 0 <= j < i ==> self.completed(#[trigger] agent_order()[j]),
            decreases 4 - i,
        {
            let agent = order[i];
            if !self.is_agent_complete(agent) {
                return Some(agent);
            }
            i = i + 1;
        }
        None
    }
}

/// Completing the agent that `next_agent` names moves `next_agent` on to the
/// following agent in execution order, and `next_agent` gives nothing once
/// every agent has completed.
pub proof fn law_next_agent_advances(before: WorkflowContext, after: WorkflowContext, agent: AgentType)
    requires
        before.first_incomplete() == Some(agent),
        after.completed(agent),
        forall|a: AgentType| a != agent ==> #[trigger] after.completed(a) == before.completed(a),
    ensures
        match after.first_incomplete() {
            Some(next) => next.position() > agent.position() && !after.completed(next),
            None => forall|a: AgentType| #[trigger] after.completed(a),
        },
{
}

/// An agent that has completed is never named by `next_agent`.
pub proof fn law_next_agent_is_incomplete(ctx: WorkflowContext)
    ensures
        ctx.first_incomplete() matches Some(a) ==> !ctx.completed(a),
        ctx.first_incomplete() is None <==> forall|a: AgentType| #[trigger] ctx.completed(a),
{
    if ctx.first_incomplete() is None {
        assert forall|a: AgentType| #[trigger] ctx.completed(a) by {
            match a {
                AgentType::Research => {},
                AgentType::Content => {},
                AgentType::Compliance => {},
                AgentType::Review => {},
            }
        }
    }
}

/// The document types fall into their categories: the four Woo types
/// (decision, information, and their appeals) are Woo documents and are
/// exactly the ones that need mandatory human review; policy notes and
/// council proposals are policy, press releases communication, official
/// reports and internal memos internal, and custom types other.
pub proof fn law_document_categories(d: DocumentType)
    ensures
        (d.category_of() == DocumentCategory::Woo) == (d is WooBesluit || d is WooInformatie
            || d is WooBesluitBeroep || d is WooInformatieBeroep),
        (d.category_of() == DocumentCategory::Beleid) == (d is Beleidsnotitie || d is Raadsvoorstel),
        (d.category_of() == DocumentCategory::Communicatie) == (d is Persbericht),
        (d.category_of() == DocumentCategory::Intern) == (d is Ambtsbericht || d is InterneMemo),
        (d.category_of() == DocumentCategory::Overig) == (d is Custom),
{
}

} // verus!
