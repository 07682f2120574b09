//! A tolerant, read-only model of the canonical **v0.3** run trace and the
//! metrics derivable from a single trace.
//!
//! Every field is optional/defaulted on the wire so that partial or
//! forward-compatible traces still load; unknown event types become
//! [`EventType::Unknown`].

use vstd::prelude::*;

use crate::metrics::{
    coverage_ratio, is_coverage_of, present_types, required_types, trace_completeness, UnitRatio,
};
use crate::text::str_eq;

verus! {

/// The enumerated v0.3 trace event vocabulary.
#[derive(Clone, Copy, Debug, Hash)]
pub enum EventType {
    /// `run.started`
    RunStarted,
    /// `agent.loaded`
    AgentLoaded,
    /// `genome.resolved`
    GenomeResolved,
    /// `prompt.loaded`
    PromptLoaded,
    /// `policy.loaded`
    PolicyLoaded,
    /// `memory.read`
    MemoryRead,
    /// `knowledge.retrieve`
    KnowledgeRetrieve,
    /// `llm.requested`
    LlmRequested,
    /// `llm.responded`
    LlmResponded,
    /// `decision.made`
    Decision,
    /// `tool.call.proposed`
    ToolCallProposed,
    /// `policy.check.performed`
    PolicyCheckPerformed,
    /// `tool.call.approved`
    ToolCallApproved,
    /// `tool.call.executed`
    ToolCallExecuted,
    /// `tool.result.observed`
    ToolResultObserved,
    /// `memory.write.proposed`
    MemoryWriteProposed,
    /// `memory.write.committed`
    MemoryWriteCommitted,
    /// `human.review.requested`
    HumanReviewRequested,
    /// `human.review.approved`
    HumanReviewApproved,
    /// `human.review.rejected`
    HumanReviewRejected,
    /// `human.review.modified`
    HumanReviewModified,
    /// `risk.score.updated`
    RiskScoreUpdated,
    /// `compliance.check.performed`
    ComplianceCheckPerformed,
    /// `alignment.check.performed`
    AlignmentCheckPerformed,
    /// `error.raised`
    ErrorRaised,
    /// `run.completed`
    RunCompleted,
    /// `run.replay.started`
    RunReplayStarted,
    /// `run.replay.completed`
    RunReplayCompleted,
    /// Any event type not in the v0.3 registry.
    Unknown,
}

impl PartialEq for EventType {
    fn eq(&self, other: &Self) -> (r: bool) {
        match (self, other) {
            (EventType::RunStarted, EventType::RunStarted) => true,
            (EventType::AgentLoaded, EventType::AgentLoaded) => true,
            (EventType::GenomeResolved, EventType::GenomeResolved) => true,
            (EventType::PromptLoaded, EventType::PromptLoaded) => true,
            (EventType::PolicyLoaded, EventType::PolicyLoaded) => true,
            (EventType::MemoryRead, EventType::MemoryRead) => true,
            (EventType::KnowledgeRetrieve, EventType::KnowledgeRetrieve) => true,
            (EventType::LlmRequested, EventType::LlmRequested) => true,
            (EventType::LlmResponded, EventType::LlmResponded) => true,
            (EventType::Decision, EventType::Decision) => true,
            (EventType::ToolCallProposed, EventType::ToolCallProposed) => true,
            (EventType::PolicyCheckPerformed, EventType::PolicyCheckPerformed) => true,
            (EventType::ToolCallApproved, EventType::ToolCallApproved) => true,
            (EventType::ToolCallExecuted, EventType::ToolCallExecuted) => true,
            (EventType::ToolResultObserved, EventType::ToolResultObserved) => true,
            (EventType::MemoryWriteProposed, EventType::MemoryWriteProposed) => true,
            (EventType::MemoryWriteCommitted, EventType::MemoryWriteCommitted) => true,
            (EventType::HumanReviewRequested, EventType::HumanReviewRequested) => true,
            (EventType::HumanReviewApproved, EventType::HumanReviewApproved) => true,
            (EventType::HumanReviewRejected, EventType::HumanReviewRejected) => true,
            (EventType::HumanReviewModified, EventType::HumanReviewModified) => true,
            (EventType::RiskScoreUpdated, EventType::RiskScoreUpdated) => true,
            (EventType::ComplianceCheckPerformed, EventType::ComplianceCheckPerformed) => true,
            (EventType::AlignmentCheckPerformed, EventType::AlignmentCheckPerformed) => true,
            (EventType::ErrorRaised, EventType::ErrorRaised) => true,
            (EventType::RunCompleted, EventType::RunCompleted) => true,
            (EventType::RunReplayStarted, EventType::RunReplayStarted) => true,
            (EventType::RunReplayCompleted, EventType::RunReplayCompleted) => true,
            (EventType::Unknown, EventType::Unknown) => true,
            _ => false,
        }
    }
}

impl Eq for EventType {}

impl vstd::std_specs::cmp::PartialEqSpecImpl for EventType {
    open spec fn obeys_eq_spec() -> bool {
        true
    }

    open spec fn eq_spec(&self, other: &EventType) -> bool {
        *self == *other
    }
}

/// The wire name of each registered event type (empty for
/// [`EventType::Unknown`], which has none).
pub open spec fn wire_name_of(t: EventType) -> Seq<char> {
    match t {
        EventType::RunStarted => "run.started"@,
        EventType::AgentLoaded => "agent.loaded"@,
        EventType::GenomeResolved => "genome.resolved"@,
        EventType::PromptLoaded => "prompt.loaded"@,
        EventType::PolicyLoaded => "policy.loaded"@,
        EventType::MemoryRead => "memory.read"@,
        EventType::KnowledgeRetrieve => "knowledge.retrieve"@,
        EventType::LlmRequested => "llm.requested"@,
        EventType::LlmResponded => "llm.responded"@,
        EventType::Decision => "decision.made"@,
        EventType::ToolCallProposed => "tool.call.proposed"@,
        EventType::PolicyCheckPerformed => "policy.check.performed"@,
        EventType::ToolCallApproved => "tool.call.approved"@,
        EventType::ToolCallExecuted => "tool.call.executed"@,
        EventType::ToolResultObserved => "tool.result.observed"@,
        EventType::MemoryWriteProposed => "memory.write.proposed"@,
        EventType::MemoryWriteCommitted => "memory.write.committed"@,
        EventType::HumanReviewRequested => "human.review.requested"@,
        EventType::HumanReviewApproved => "human.review.approved"@,
        EventType::HumanReviewRejected => "human.review.rejected"@,
        EventType::HumanReviewModified => "human.review.modified"@,
        EventType::RiskScoreUpdated => "risk.score.updated"@,
        EventType::ComplianceCheckPerformed => "compliance.check.performed"@,
        EventType::AlignmentCheckPerformed => "alignment.check.performed"@,
        EventType::ErrorRaised => "error.raised"@,
        EventType::RunCompleted => "run.completed"@,
        EventType::RunReplayStarted => "run.replay.started"@,
        EventType::RunReplayCompleted => "run.replay.completed"@,
        EventType::Unknown => Seq::empty(),
    }
}

/// The event type that a wire name denotes: the registered type of that
/// name, or [`EventType::Unknown`] for any other string.
pub open spec fn event_type_named(s: Seq<char>) -> EventType {
    if s == "run.started"@ {
        EventType::RunStarted
    } else if s == "agent.loaded"@ {
        EventType::AgentLoaded
    } else if s == "genome.resolved"@ {
        EventType::GenomeResolved
    } else if s == "prompt.loaded"@ {
        EventType::PromptLoaded
    } else if s == "policy.loaded"@ {
        EventType::PolicyLoaded
    } else if s == "memory.read"@ {
        EventType::MemoryRead
    } else if s == "knowledge.retrieve"@ {
        EventType::KnowledgeRetrieve
    } else if s == "llm.requested"@ {
        EventType::LlmRequested
    } else if s == "llm.responded"@ {
        EventType::LlmResponded
    } else if s == "decision.made"@ {
        EventType::Decision
    } else if s == "tool.call.proposed"@ {
        EventType::ToolCallProposed
    } else if s == "policy.check.performed"@ {
        EventType::PolicyCheckPerformed
    } else if s == "tool.call.approved"@ {
        EventType::ToolCallApproved
    } else if s == "tool.call.executed"@ {
        EventType::ToolCallExecuted
    } else if s == "tool.result.observed"@ {
        EventType::ToolResultObserved
    } else if s == "memory.write.proposed"@ {
        EventType::MemoryWriteProposed
    } else if s == "memory.write.committed"@ {
        EventType::MemoryWriteCommitted
    } else if s == "human.review.requested"@ {
        EventType::HumanReviewRequested
    } else if s == "human.review.approved"@ {
        EventType::HumanReviewApproved
    } else if s == "human.review.rejected"@ {
        EventType::HumanReviewRejected
    } else if s == "human.review.modified"@ {
        EventType::HumanReviewModified
    } else if s == "risk.score.updated"@ {
        EventType::RiskScoreUpdated
    } else if s == "compliance.check.performed"@ {
        EventType::ComplianceCheckPerformed
    } else if s == "alignment.check.performed"@ {
        EventType::AlignmentCheckPerformed
    } else if s == "error.raised"@ {
        EventType::ErrorRaised
    } else if s == "run.completed"@ {
        EventType::RunCompleted
    } else if s == "run.replay.started"@ {
        EventType::RunReplayStarted
    } else if s == "run.replay.completed"@ {
        EventType::RunReplayCompleted
    } else {
        EventType::Unknown
    }
}

impl Default for EventType {
    fn default() -> (t: Self)
        ensures
            t == EventType::Unknown,
    {
        EventType::Unknown
    }
}

impl EventType {
    /// The conservative baseline set of event types that every well-formed
    /// run must contain: a start and a completion.
    pub fn baseline_expected() -> (v: Vec<EventType>)
        ensures
            v@ == seq![EventType::RunStarted, EventType::RunCompleted],
    {
        let mut v: Vec<EventType> = Vec::new();
        v.push(EventType::RunStarted);
        v.push(EventType::RunCompleted);
        v
    }

    /// The wire name of a registered event type (empty for
    /// [`EventType::Unknown`]).
    pub fn wire_name(&self) -> (s: &'static str)
        ensures
            s@ == wire_name_of(*self),
    {
        proof {
            reveal_strlit("");
        }
        match self {
            EventType::RunStarted => "run.started",
            EventType::AgentLoaded => "agent.loaded",
            EventType::GenomeResolved => "genome.resolved",
            EventType::PromptLoaded => "prompt.loaded",
            EventType::PolicyLoaded => "policy.loaded",
            EventType::MemoryRead => "memory.read",
            EventType::KnowledgeRetrieve => "knowledge.retrieve",
            EventType::LlmRequested => "llm.requested",
            EventType::LlmResponded => "llm.responded",
            EventType::Decision => "decision.made",
            EventType::ToolCallProposed => "tool.call.proposed",
            EventType::PolicyCheckPerformed => "policy.check.performed",
            EventType::ToolCallApproved => "tool.call.approved",
            EventType::ToolCallExecuted => "tool.call.executed",
            EventType::ToolResultObserved => "tool.result.observed",
            EventType::MemoryWriteProposed => "memory.write.proposed",
            EventType::MemoryWriteCommitted => "memory.write.committed",
            EventType::HumanReviewRequested => "human.review.requested",
            EventType::HumanReviewApproved => "human.review.approved",
            EventType::HumanReviewRejected => "human.review.rejected",
            EventType::HumanReviewModified => "human.review.modified",
            EventType::RiskScoreUpdated => "risk.score.updated",
            EventType::ComplianceCheckPerformed => "compliance.check.performed",
            EventType::AlignmentCheckPerformed => "alignment.check.performed",
            EventType::ErrorRaised => "error.raised",
            EventType::RunCompleted => "run.completed",
            EventType::RunReplayStarted => "run.replay.started",
            EventType::RunReplayCompleted => "run.replay.completed",
            EventType::Unknown => "",
        }
    }

    /// The event type that a wire name denotes; unrecognized names are
    /// [`EventType::Unknown`] rather than an error.
    pub fn from_wire_name(s: &str) -> (t: EventType)
        ensures
            t == event_type_named(s@),
    {
        if str_eq(s, "run.started") {
            EventType::RunStarted
        } else if str_eq(s, "agent.loaded") {
            EventType::AgentLoaded
        } else if str_eq(s, "genome.resolved") {
            EventType::GenomeResolved
        } else if str_eq(s, "prompt.loaded") {
            EventType::PromptLoaded
        } else if str_eq(s, "policy.loaded") {
            EventType::PolicyLoaded
        } else if str_eq(s, "memory.read") {
            EventType::MemoryRead
        } else if str_eq(s, "knowledge.retrieve") {
            EventType::KnowledgeRetrieve
        } else if str_eq(s, "llm.requested") {
            EventType::LlmRequested
        } else if str_eq(s, "llm.responded") {
            EventType::LlmResponded
        } else if str_eq(s, "decision.made") {
            EventType::Decision
        } else if str_eq(s, "tool.call.proposed") {
            EventType::ToolCallProposed
        } else if str_eq(s, "policy.check.performed") {
            EventType::PolicyCheckPerformed
        } else if str_eq(s, "tool.call.approved") {
            EventType::ToolCallApproved
        } else if str_eq(s, "tool.call.executed") {
            EventType::ToolCallExecuted
        } else if str_eq(s, "tool.result.observed") {
            EventType::ToolResultObserved
        } else if str_eq(s, "memory.write.proposed") {
            EventType::MemoryWriteProposed
        } else if str_eq(s, "memory.write.committed") {
            EventType::MemoryWriteCommitted
        } else if str_eq(s, "human.review.requested") {
            EventType::HumanReviewRequested
        } else if str_eq(s, "human.review.approved") {
            EventType::HumanReviewApproved
        } else if str_eq(s, "human.review.rejected") {
            EventType::HumanReviewRejected
        } else if str_eq(s, "human.review.modified") {
            EventType::HumanReviewModified
        } else if str_eq(s, "risk.score.updated") {
            EventType::RiskScoreUpdated
        } else if str_eq(s, "compliance.check.performed") {
            EventType::ComplianceCheckPerformed
        } else if str_eq(s, "alignment.check.performed") {
            EventType::AlignmentCheckPerformed
        } else if str_eq(s, "error.raised") {
            EventType::ErrorRaised
        } else if str_eq(s, "run.completed") {
            EventType::RunCompleted
        } else if str_eq(s, "run.replay.started") {
            EventType::RunReplayStarted
        } else if str_eq(s, "run.replay.completed") {
            EventType::RunReplayCompleted
        } else {
            EventType::Unknown
        }
    }
}

/// Law: reading back the wire name of a registered event type yields that
/// type, and the empty name of [`EventType::Unknown`] reads back as
/// [`EventType::Unknown`].
pub proof fn wire_name_round_trip(t: EventType)
    ensures
        event_type_named(wire_name_of(t)) == t,
{
    // Each registered name is told apart from the others of its length by
    // the characters at the positions where they first differ.
    reveal_strlit("run.started");
    reveal_strlit("agent.loaded");
    reveal_strlit("genome.resolved");
    reveal_strlit("prompt.loaded");
    reveal_strlit("policy.loaded");
    reveal_strlit("memory.read");
    reveal_strlit("knowledge.retrieve");
    reveal_strlit("llm.requested");
    reveal_strlit("llm.responded");
    reveal_strlit("decision.made");
    reveal_strlit("tool.call.proposed");
    reveal_strlit("policy.check.performed");
    reveal_strlit("tool.call.approved");
    reveal_strlit("tool.call.executed");
    reveal_strlit("tool.result.observed");
    reveal_strlit("memory.write.proposed");
    reveal_strlit("memory.write.committed");
    reveal_strlit("human.review.requested");
    reveal_strlit("human.review.approved");
    reveal_strlit("human.review.rejected");
    reveal_strlit("human.review.modified");
    reveal_strlit("risk.score.updated");
    reveal_strlit("compliance.check.performed");
    reveal_strlit("alignment.check.performed");
    reveal_strlit("error.raised");
    reveal_strlit("run.completed");
    reveal_strlit("run.replay.started");
    reveal_strlit("run.replay.completed");
    assert("run.started"@.len() == 11);
    assert("run.started"@[0] == 'r');
    assert("agent.loaded"@.len() == 12);
    assert("agent.loaded"@[0] == 'a');
    assert("genome.resolved"@.len() == 15);
    assert("prompt.loaded"@.len() == 13);
    assert("prompt.loaded"@[0] == 'p');
    assert("prompt.loaded"@[1] == 'r');
    assert("policy.loaded"@.len() == 13);
    assert("policy.loaded"@[0] == 'p');
    assert("policy.loaded"@[1] == 'o');
    assert("memory.read"@.len() == 11);
    assert("memory.read"@[0] == 'm');
    assert("knowledge.retrieve"@.len() == 18);
    assert("knowledge.retrieve"@[0] == 'k');
    assert("llm.requested"@.len() == 13);
    assert("llm.requested"@[0] == 'l');
    assert("llm.requested"@[6] == 'q');
    assert("llm.responded"@.len() == 13);
    assert("llm.responded"@[0] == 'l');
    assert("llm.responded"@[6] == 's');
    assert("decision.made"@.len() == 13);
    assert("decision.made"@[0] == 'd');
    assert("tool.call.proposed"@.len() == 18);
    assert("tool.call.proposed"@[0] == 't');
    assert("tool.call.proposed"@[10] == 'p');
    assert("policy.check.performed"@.len() == 22);
    assert("policy.check.performed"@[0] == 'p');
    assert("tool.call.approved"@.len() == 18);
    assert("tool.call.approved"@[0] == 't');
    assert("tool.call.approved"@[10] == 'a');
    assert("tool.call.executed"@.len() == 18);
    assert("tool.call.executed"@[0] == 't');
    assert("tool.call.executed"@[10] == 'e');
    assert("tool.result.observed"@.len() == 20);
    assert("tool.result.observed"@[0] == 't');
    assert("memory.write.proposed"@.len() == 21);
    assert("memory.write.proposed"@[0] == 'm');
    assert("memory.write.committed"@.len() == 22);
    assert("memory.write.committed"@[0] == 'm');
    assert("human.review.requested"@.len() == 22);
    assert("human.review.requested"@[0] == 'h');
    assert("human.review.approved"@.len() == 21);
    assert("human.review.approved"@[0] == 'h');
    assert("human.review.approved"@[13] == 'a');
    assert("human.review.rejected"@.len() == 21);
    assert("human.review.rejected"@[0] == 'h');
    assert("human.review.rejected"@[13] == 'r');
    assert("human.review.modified"@.len() == 21);
    assert("human.review.modified"@[0] == 'h');
    assert("human.review.modified"@[13] == 'm');
    assert("risk.score.updated"@.len() == 18);
    assert("risk.score.updated"@[0] == 'r');
    assert("risk.score.updated"@[1] == 'i');
    assert("compliance.check.performed"@.len() == 26);
    assert("alignment.check.performed"@.len() == 25);
    assert("error.raised"@.len() == 12);
    assert("error.raised"@[0] == 'e');
    assert("run.completed"@.len() == 13);
    assert("run.completed"@[0] == 'r');
    assert("run.replay.started"@.len() == 18);
    assert("run.replay.started"@[0] == 'r');
    assert("run.replay.started"@[1] == 'u');
    assert("run.replay.completed"@.len() == 20);
    assert("run.replay.completed"@[0] == 'r');
}

/// Law: the v0.3 event vocabulary. Each registered event type is written on
/// the wire under its own fixed name, and each of those names reads back as
/// that type; the unregistered [`EventType::Unknown`] has no name.
pub proof fn wire_names_are_the_v03_vocabulary()
    ensures
        wire_name_of(EventType::RunStarted) == "run.started"@,
        event_type_named("run.started"@) == EventType::RunStarted,
        wire_name_of(EventType::AgentLoaded) == "agent.loaded"@,
        event_type_named("agent.loaded"@) == EventType::AgentLoaded,
        wire_name_of(EventType::GenomeResolved) == "genome.resolved"@,
        event_type_named("genome.resolved"@) == EventType::GenomeResolved,
        wire_name_of(EventType::PromptLoaded) == "prompt.loaded"@,
        event_type_named("prompt.loaded"@) == EventType::PromptLoaded,
        wire_name_of(EventType::PolicyLoaded) == "policy.loaded"@,
        event_type_named("policy.loaded"@) == EventType::PolicyLoaded,
        wire_name_of(EventType::MemoryRead) == "memory.read"@,
        event_type_named("memory.read"@) == EventType::MemoryRead,
        wire_name_of(EventType::KnowledgeRetrieve) == "knowledge.retrieve"@,
        event_type_named("knowledge.retrieve"@) == EventType::KnowledgeRetrieve,
        wire_name_of(EventType::LlmRequested) == "llm.requested"@,
        event_type_named("llm.requested"@) == EventType::LlmRequested,
        wire_name_of(EventType::LlmResponded) == "llm.responded"@,
        event_type_named("llm.responded"@) == EventType::LlmResponded,
        wire_name_of(EventType::Decision) == "decision.made"@,
        event_type_named("decision.made"@) == EventType::Decision,
        wire_name_of(EventType::ToolCallProposed) == "tool.call.proposed"@,
        event_type_named("tool.call.proposed"@) == EventType::ToolCallProposed,
        wire_name_of(EventType::PolicyCheckPerformed) == "policy.check.performed"@,
        event_type_named("policy.check.performed"@) == EventType::PolicyCheckPerformed,
        wire_name_of(EventType::ToolCallApproved) == "tool.call.approved"@,
        event_type_named("tool.call.approved"@) == EventType::ToolCallApproved,
        wire_name_of(EventType::ToolCallExecuted) == "tool.call.executed"@,
        event_type_named("tool.call.executed"@) == EventType::ToolCallExecuted,
        wire_name_of(EventType::ToolResultObserved) == "tool.result.observed"@,
        event_type_named("tool.result.observed"@) == EventType::ToolResultObserved,
        wire_name_of(EventType::MemoryWriteProposed) == "memory.write.proposed"@,
        event_type_named("memory.write.proposed"@) == EventType::MemoryWriteProposed,
        wire_name_of(EventType::MemoryWriteCommitted) == "memory.write.committed"@,
        event_type_named("memory.write.committed"@) == EventType::MemoryWriteCommitted,
        wire_name_of(EventType::HumanReviewRequested) == "human.review.requested"@,
        event_type_named("human.review.requested"@) == EventType::HumanReviewRequested,
        wire_name_of(EventType::HumanReviewApproved) == "human.review.approved"@,
        event_type_named("human.review.approved"@) == EventType::HumanReviewApproved,
        wire_name_of(EventType::HumanReviewRejected) == "human.review.rejected"@,
        event_type_named("human.review.rejected"@) == EventType::HumanReviewRejected,
        wire_name_of(EventType::HumanReviewModified) == "human.review.modified"@,
        event_type_named("human.review.modified"@) == EventType::HumanReviewModified,
        wire_name_of(EventType::RiskScoreUpdated) == "risk.score.updated"@,
        event_type_named("risk.score.updated"@) == EventType::RiskScoreUpdated,
        wire_name_of(EventType::ComplianceCheckPerformed) == "compliance.check.performed"@,
        event_type_named("compliance.check.performed"@) == EventType::ComplianceCheckPerformed,
        wire_name_of(EventType::AlignmentCheckPerformed) == "alignment.check.performed"@,
        event_type_named("alignment.check.performed"@) == EventType::AlignmentCheckPerformed,
        wire_name_of(EventType::ErrorRaised) == "error.raised"@,
        event_type_named("error.raised"@) == EventType::ErrorRaised,
        wire_name_of(EventType::RunCompleted) == "run.completed"@,
        event_type_named("run.completed"@) == EventType::RunCompleted,
        wire_name_of(EventType::RunReplayStarted) == "run.replay.started"@,
        event_type_named("run.replay.started"@) == EventType::RunReplayStarted,
        wire_name_of(EventType::RunReplayCompleted) == "run.replay.completed"@,
        event_type_named("run.replay.completed"@) == EventType::RunReplayCompleted,
        wire_name_of(EventType::Unknown).len() == 0,
{
    wire_name_round_trip(EventType::RunStarted);
    wire_name_round_trip(EventType::AgentLoaded);
    wire_name_round_trip(EventType::GenomeResolved);
    wire_name_round_trip(EventType::PromptLoaded);
    wire_name_round_trip(EventType::PolicyLoaded);
    wire_name_round_trip(EventType::MemoryRead);
    wire_name_round_trip(EventType::KnowledgeRetrieve);
    wire_name_round_trip(EventType::LlmRequested);
    wire_name_round_trip(EventType::LlmResponded);
    wire_name_round_trip(EventType::Decision);
    wire_name_round_trip(EventType::ToolCallProposed);
    wire_name_round_trip(EventType::PolicyCheckPerformed);
    wire_name_round_trip(EventType::ToolCallApproved);
    wire_name_round_trip(EventType::ToolCallExecuted);
    wire_name_round_trip(EventType::ToolResultObserved);
    wire_name_round_trip(EventType::MemoryWriteProposed);
    wire_name_round_trip(EventType::MemoryWriteCommitted);
    wire_name_round_trip(EventType::HumanReviewRequested);
    wire_name_round_trip(EventType::HumanReviewApproved);
    wire_name_round_trip(EventType::HumanReviewRejected);
    wire_name_round_trip(EventType::HumanReviewModified);
    wire_name_round_trip(EventType::RiskScoreUpdated);
    wire_name_round_trip(EventType::ComplianceCheckPerformed);
    wire_name_round_trip(EventType::AlignmentCheckPerformed);
    wire_name_round_trip(EventType::ErrorRaised);
    wire_name_round_trip(EventType::RunCompleted);
    wire_name_round_trip(EventType::RunReplayStarted);
    wire_name_round_trip(EventType::RunReplayCompleted);
}

/// Provenance attached to an event.
#[derive(Clone, Debug)]
pub struct Provenance {
    /// IDs of upstream events/artifacts this event used.
    pub used: Vec<String>,
    /// Evidence-unit references supporting this event.
    pub evidence_units: Vec<String>,
}

impl Default for Provenance {
    fn default() -> (p: Self)
        ensures
            p.used@.len() == 0,
            p.evidence_units@.len() == 0,
    {
        Provenance { used: Vec::new(), evidence_units: Vec::new() }
    }
}

impl Provenance {
    /// The provenance cites at least one upstream item or evidence unit.
    pub open spec fn supports(&self) -> bool {
        self.used@.len() > 0 || self.evidence_units@.len() > 0
    }

    /// Whether the provenance cites at least one upstream item or evidence
    /// unit.
    pub fn has_support(&self) -> (r: bool)
        ensures
            r == self.supports(),
    {
        !self.used.is_empty() || !self.evidence_units.is_empty()
    }
}

/// A single inline policy check carried on an event.
#[derive(Clone, Debug)]
pub struct PolicyCheck {
    /// `pass` | `fail` | `warning` | `not_applicable` (other strings ignored).
    pub status: Option<String>,
}

impl Default for PolicyCheck {
    fn default() -> (c: Self)
        ensures
            c.status is None,
    {
        PolicyCheck { status: None }
    }
}

/// One append-only trace event (only the fields the metrics need).
#[derive(Clone, Debug)]
pub struct Event {
    /// Stable event id (referenced by the execution graph).
    pub event_id: String,
    /// Canonical event type.
    pub event_type: EventType,
    /// Inline provenance, if recorded.
    pub provenance: Option<Provenance>,
    /// Inline policy checks, if recorded.
    pub policy_checks: Vec<PolicyCheck>,
}

impl Default for Event {
    fn default() -> (e: Self)
        ensures
            e.event_id@.len() == 0,
            e.event_type == EventType::Unknown,
            e.provenance is None,
            e.policy_checks@.len() == 0,
    {
        Event {
            event_id: String::new(),
            event_type: EventType::Unknown,
            provenance: None,
            policy_checks: Vec::new(),
        }
    }
}

/// A node in the causal execution graph.
#[derive(Clone, Debug)]
pub struct GraphNode {
    /// Node id (an `event_id` for `kind == "event"`).
    pub id: String,
    /// Node kind (`event`, `artifact`, …).
    pub kind: String,
}

impl Default for GraphNode {
    fn default() -> (n: Self)
        ensures
            n.id@.len() == 0,
            n.kind@.len() == 0,
    {
        GraphNode { id: String::new(), kind: String::new() }
    }
}

/// A directed edge in the causal execution graph.
#[derive(Clone, Debug)]
pub struct GraphEdge {
    /// Source node id.
    pub from: String,
    /// Destination node id.
    pub to: String,
    /// Edge type (`caused_by`, `produced`, `supported_by`, …).
    pub edge_type: String,
}

impl Default for GraphEdge {
    fn default() -> (e: Self)
        ensures
            e.from@.len() == 0,
            e.to@.len() == 0,
            e.edge_type@.len() == 0,
    {
        GraphEdge { from: String::new(), to: String::new(), edge_type: String::new() }
    }
}

/// The causal execution graph.
#[derive(Clone, Debug)]
pub struct ExecutionGraph {
    /// Graph nodes.
    pub nodes: Vec<GraphNode>,
    /// Graph edges.
    pub edges: Vec<GraphEdge>,
}

impl Default for ExecutionGraph {
    fn default() -> (g: Self)
        ensures
            g.nodes@.len() == 0,
            g.edges@.len() == 0,
    {
        ExecutionGraph { nodes: Vec::new(), edges: Vec::new() }
    }
}

/// A compliance or alignment check entry.
#[derive(Clone, Debug)]
pub struct Check {
    /// `pass` | `fail` | `warning` | `not_applicable`.
    pub status: Option<String>,
}

impl Default for Check {
    fn default() -> (c: Self)
        ensures
            c.status is None,
    {
        Check { status: None }
    }
}

/// Identity of the agent that produced the run.
#[derive(Clone, Debug)]
pub struct Agent {
    /// `agent://org/name` identifier.
    pub agent_id: String,
    /// Content-addressed genome version (`sha256:…`).
    pub genome_version: String,
}

impl Default for Agent {
    fn default() -> (a: Self)
        ensures
            a.agent_id@.len() == 0,
            a.genome_version@.len() == 0,
    {
        Agent { agent_id: String::new(), genome_version: String::new() }
    }
}

/// A tolerant projection of the canonical v0.3 run trace.
#[derive(Clone, Debug)]
pub struct TraceV03 {
    /// Run identifier.
    pub run_id: String,
    /// Producing agent.
    pub agent: Agent,
    /// The append-only event stream, in order.
    pub events: Vec<Event>,
    /// The causal execution graph.
    pub execution_graph: ExecutionGraph,
    /// Run-level compliance checks.
    pub compliance_checks: Vec<Check>,
    /// Run-level alignment checks.
    pub alignment_checks: Vec<Check>,
}

impl Default for TraceV03 {
    fn default() -> (t: Self)
        ensures
            t.run_id@.len() == 0,
            t.agent.agent_id@.len() == 0,
            t.agent.genome_version@.len() == 0,
            t.events@.len() == 0,
            t.execution_graph.nodes@.len() == 0,
            t.execution_graph.edges@.len() == 0,
            t.compliance_checks@.len() == 0,
            t.alignment_checks@.len() == 0,
    {
        TraceV03 {
            run_id: String::new(),
            agent: Agent::default(),
            events: Vec::new(),
            execution_graph: ExecutionGraph::default(),
            compliance_checks: Vec::new(),
            alignment_checks: Vec::new(),
        }
    }
}

impl TraceV03 {
    /// The event types of the trace, in order.
    pub open spec fn spec_event_types(&self) -> Seq<EventType> {
        self.events@.map_values(|e: Event| e.event_type)
    }

    /// The event types present in the trace, in order.
    pub fn event_types(&self) -> (v: Vec<EventType>)
        ensures
            v@ == self.spec_event_types(),
    {
        let mut v: Vec<EventType> = Vec::new();
        let mut i: usize = 0;
        while i < self.events.len()
            invariant
                i <= self.events@.len(),
                v@ =~= self.events@.take(i as int).map_values(|e: Event| e.event_type),
            decreases self.events@.len() - i,
        {
            v.push(self.events[i].event_type);
            i = i + 1;
            proof {
                assert(self.events@.take(i as int).map_values(|e: Event| e.event_type)
                    =~= self.events@.take(i - 1).map_values(|e: Event| e.event_type).push(self.events@[i - 1].event_type));
            }
        }
        proof {
            assert(self.events@.take(self.events@.len() as int) =~= self.events@);
        }
        v
    }
}

/// The text of an optional owned status.
pub open spec fn opt_text(o: Option<String>) -> Option<Seq<char>> {
    match o {
        Some(s) => Some(s@),
        None => None,
    }
}

/// How a check status counts towards adherence: `pass` passes, `fail` and
/// `warning` fail, and anything else (`not_applicable`, an unknown string,
/// or no status) is not an applicable rule.
pub open spec fn status_verdict(status: Option<Seq<char>>) -> Option<bool> {
    match status {
        Some(s) => if s == "pass"@ {
            Some(true)
        } else if s == "fail"@ || s == "warning"@ {
            Some(false)
        } else {
            None
        },
        None => None,
    }
}

/// Classifies a check status: `Some(true)` for `pass`, `Some(false)` for
/// `fail` or `warning`, `None` for anything else.
pub fn status_pass_fail_warn(status: Option<&str>) -> (r: Option<bool>)
    ensures
        r == status_verdict(
            match status {
                Some(s) => Some(s@),
                None => None,
            },
        ),
{
    match status {
        Some(s) => if str_eq(s, "pass") {
            Some(true)
        } else if str_eq(s, "fail") || str_eq(s, "warning") {
            Some(false)
        } else {
            None
        },
        None => None,
    }
}

/// The status of an owned optional string, borrowed.
fn status_of(o: &Option<String>) -> (r: Option<&str>)
    ensures
        match r {
            Some(s) => opt_text(*o) == Some(s@),
            None => o is None,
        },
{
    match o {
        Some(s) => Some(s.as_str()),
        None => None,
    }
}

/// An inline policy check that applies (passes or fails).
pub open spec fn policy_check_applies() -> spec_fn(PolicyCheck) -> bool {
    |c: PolicyCheck| status_verdict(opt_text(c.status)) is Some
}

/// An inline policy check that passes.
pub open spec fn policy_check_passes() -> spec_fn(PolicyCheck) -> bool {
    |c: PolicyCheck| status_verdict(opt_text(c.status)) == Some(true)
}

/// A run-level check that applies (passes or fails).
pub open spec fn check_applies() -> spec_fn(Check) -> bool {
    |c: Check| status_verdict(opt_text(c.status)) is Some
}

/// A run-level check that passes.
pub open spec fn check_passes() -> spec_fn(Check) -> bool {
    |c: Check| status_verdict(opt_text(c.status)) == Some(true)
}

/// A run-level check whose status is exactly `status`.
pub open spec fn check_has_status(status: Seq<char>) -> spec_fn(Check) -> bool {
    |c: Check| opt_text(c.status) == Some(status)
}

/// Applicable inline policy checks over a run of events.
pub open spec fn events_policy_applicable(events: Seq<Event>) -> nat
    decreases events.len(),
{
    if events.len() == 0 {
        0
    } else {
        events_policy_applicable(events.drop_last())
            + events.last().policy_checks@.filter(policy_check_applies()).len()
    }
}

/// Passing inline policy checks over a run of events.
pub open spec fn events_policy_passed(events: Seq<Event>) -> nat
    decreases events.len(),
{
    if events.len() == 0 {
        0
    } else {
        events_policy_passed(events.drop_last())
            + events.last().policy_checks@.filter(policy_check_passes()).len()
    }
}

/// A `decision.made` event.
pub open spec fn is_decision() -> spec_fn(Event) -> bool {
    |e: Event| e.event_type == EventType::Decision
}

/// The event carries provenance citing something.
pub open spec fn is_supported(e: Event) -> bool {
    match e.provenance {
        Some(p) => p.supports(),
        None => false,
    }
}

/// A `decision.made` event carrying supporting provenance.
pub open spec fn is_explained_decision() -> spec_fn(Event) -> bool {
    |e: Event| e.event_type == EventType::Decision && is_supported(e)
}

/// An event that asserts an outcome: a decision or a model answer.
pub open spec fn is_claim() -> spec_fn(Event) -> bool {
    |e: Event| e.event_type == EventType::Decision || e.event_type == EventType::LlmResponded
}

/// A claim that cites supporting provenance.
pub open spec fn is_supported_claim() -> spec_fn(Event) -> bool {
    |e: Event|
        (e.event_type == EventType::Decision || e.event_type == EventType::LlmResponded)
            && is_supported(e)
}

/// A `human.review.requested` event.
pub open spec fn is_review_request() -> spec_fn(Event) -> bool {
    |e: Event| e.event_type == EventType::HumanReviewRequested
}

/// A human review outcome: approved, rejected or modified.
pub open spec fn is_review_outcome() -> spec_fn(Event) -> bool {
    |e: Event|
        e.event_type == EventType::HumanReviewApproved || e.event_type
            == EventType::HumanReviewRejected || e.event_type == EventType::HumanReviewModified
}

/// Some edge of the graph leads into the node named `id`.
pub open spec fn has_incoming(edges: Seq<GraphEdge>, id: Seq<char>) -> bool {
    exists|k: int| 0 <= k < edges.len() && (#[trigger] edges[k]).to@ == id
}

/// An event whose id is the destination of some edge.
pub open spec fn has_parent_link(edges: Seq<GraphEdge>) -> spec_fn(Event) -> bool {
    |e: Event| has_incoming(edges, e.event_id@)
}

impl TraceV03 {
    /// Applicable policy rules: inline policy checks plus run-level
    /// compliance checks that pass or fail.
    pub open spec fn policy_applicable(&self) -> nat {
        events_policy_applicable(self.events@) + self.compliance_checks@.filter(check_applies()).len()
    }

    /// Passing policy rules among the applicable ones.
    pub open spec fn policy_passed(&self) -> nat {
        events_policy_passed(self.events@) + self.compliance_checks@.filter(check_passes()).len()
    }

    /// Number of run-level compliance checks with status `status`.
    pub open spec fn compliance_with(&self, status: Seq<char>) -> nat {
        self.compliance_checks@.filter(check_has_status(status)).len()
    }

    /// Number of events after the first (by append order) that are the
    /// destination of an edge of the execution graph.
    pub open spec fn events_with_parent(&self) -> nat {
        self.events@.drop_first().filter(has_parent_link(self.execution_graph.edges@)).len()
    }
}

/// The metrics derivable from a single canonical trace, as exact ratios.
///
/// A metric is `None` when the trace gives nothing to measure it on.
#[derive(Clone, Copy, Debug, PartialEq, Eq, Structural)]
pub struct TraceMetrics {
    /// Trace Completeness Score against [`EventType::baseline_expected`].
    pub trace_completeness: UnitRatio,
    /// Policy Adherence Score over inline policy checks and compliance checks.
    pub policy_adherence: Option<UnitRatio>,
    /// Decision Explainability Score over `decision.made` events.
    pub decision_explainability: Option<UnitRatio>,
    /// Causal coverage of the non-root events by the execution graph.
    pub causal_coverage: Option<UnitRatio>,
    /// Provenance coverage over claim-bearing events.
    pub provenance_coverage: Option<UnitRatio>,
    /// Compliance confidence: `pass` counts 1, `warning` ½, `fail` 0, each
    /// with weight 1, as halves over twice the number of such checks.
    pub compliance_confidence: Option<UnitRatio>,
    /// Controllability over human review requests.
    pub controllability: Option<UnitRatio>,
}

/// `m` holds exactly the metrics that `trace` yields.
pub open spec fn metrics_of(trace: TraceV03, m: TraceMetrics) -> bool {
    let events = trace.events@;
    let types = trace.spec_event_types();
    let baseline = seq![EventType::RunStarted, EventType::RunCompleted];
    let pass = trace.compliance_with("pass"@);
    let warn = trace.compliance_with("warning"@);
    let fail = trace.compliance_with("fail"@);
    &&& is_coverage_of(
        m.trace_completeness,
        present_types(types, baseline).len() as int,
        required_types(baseline).len() as int,
    )
    &&& match m.policy_adherence {
        Some(r) => trace.policy_applicable() > 0
            && is_coverage_of(r, trace.policy_passed() as int, trace.policy_applicable() as int),
        None => trace.policy_applicable() == 0,
    }
    &&& match m.decision_explainability {
        Some(r) => events.filter(is_decision()).len() > 0 && is_coverage_of(
            r,
            events.filter(is_explained_decision()).len() as int,
            events.filter(is_decision()).len() as int,
        ),
        None => events.filter(is_decision()).len() == 0,
    }
    &&& match m.causal_coverage {
        Some(r) => events.len() > 0
            && is_coverage_of(r, trace.events_with_parent() as int, events.len() - 1),
        None => events.len() == 0,
    }
    &&& match m.provenance_coverage {
        Some(r) => events.filter(is_claim()).len() > 0 && is_coverage_of(
            r,
            events.filter(is_supported_claim()).len() as int,
            events.filter(is_claim()).len() as int,
        ),
        None => events.filter(is_claim()).len() == 0,
    }
    &&& match m.compliance_confidence {
        Some(r) => pass + warn + fail > 0
            && is_coverage_of(r, (2 * pass + warn) as int, (2 * (pass + warn + fail)) as int),
        None => pass + warn + fail == 0,
    }
    &&& match m.controllability {
        Some(r) => events.filter(is_review_request()).len() > 0 && is_coverage_of(
            r,
            events.filter(is_review_outcome()).len() as int,
            events.filter(is_review_request()).len() as int,
        ),
        None => events.filter(is_review_request()).len() == 0,
    }
}

/// One more element of a sequence's prefix adds one to a filtered count
/// exactly when it satisfies the filter.
proof fn lemma_count_step<A>(s: Seq<A>, i: int, p: spec_fn(A) -> bool)
    requires
        0 <= i < s.len(),
    ensures
        s.take(i + 1).filter(p).len() == s.take(i).filter(p).len() + (if p(s[i]) {
            1int
        } else {
            0int
        }),
        s.take(i).filter(p).len() <= i,
{
    s.lemma_take_succ_push(i);
    s.take(i).lemma_filter_len_push(p, s[i]);
    s.take(i).lemma_filter_len(p);
}

/// A filtered count over a whole sequence is its count over the full prefix.
proof fn lemma_count_whole<A>(s: Seq<A>, p: spec_fn(A) -> bool)
    ensures
        s.take(s.len() as int).filter(p).len() == s.filter(p).len(),
{
    assert(s.take(s.len() as int) =~= s);
}

/// Counts of applicable and passing inline policy checks on one event.
fn count_policy_checks(checks: &Vec<PolicyCheck>) -> (r: (u128, u128))
    ensures
        r.0 == checks@.filter(policy_check_applies()).len(),
        r.1 == checks@.filter(policy_check_passes()).len(),
        r.1 <= r.0 <= checks@.len(),
        r.0 < 0x1_0000_0000_0000_0000,
{
    let mut applicable: u128 = 0;
    let mut passed: u128 = 0;
    let mut j: usize = 0;
    while j < checks.len()
        invariant
            j <= checks@.len(),
            applicable == checks@.take(j as int).filter(policy_check_applies()).len(),
            passed == checks@.take(j as int).filter(policy_check_passes()).len(),
            passed <= applicable <= j,
        decreases checks@.len() - j,
    {
        proof {
            lemma_count_step(checks@, j as int, policy_check_applies());
            lemma_count_step(checks@, j as int, policy_check_passes());
        }
        if let Some(ok) = status_pass_fail_warn(status_of(&checks[j].status)) {
            applicable = applicable + 1;
            if ok {
                passed = passed + 1;
            }
        }
        j = j + 1;
    }
    proof {
        lemma_count_whole(checks@, policy_check_applies());
        lemma_count_whole(checks@, policy_check_passes());
    }
    (applicable, passed)
}

/// Counts of applicable and passing inline policy checks over all events.
fn count_event_policy(events: &Vec<Event>) -> (r: (u128, u128))
    ensures
        r.0 == events_policy_applicable(events@),
        r.1 == events_policy_passed(events@),
        r.1 <= r.0,
        r.0 <= events@.len() * 0x1_0000_0000_0000_0000,
        events@.len() < 0x1_0000_0000_0000_0000,
{
    let mut applicable: u128 = 0;
    let mut passed: u128 = 0;
    let mut i: usize = 0;
    while i < events.len()
        invariant
            i <= events@.len(),
            applicable == events_policy_applicable(events@.take(i as int)),
            passed == events_policy_passed(events@.take(i as int)),
            passed <= applicable,
            applicable <= i * 0x1_0000_0000_0000_0000,
        decreases events@.len() - i,
    {
        let (a, p) = count_policy_checks(&events[i].policy_checks);
        proof {
            assert(events@.take(i + 1).drop_last() =~= events@.take(i as int));
            assert(events@.take(i + 1).last() == events@[i as int]);
        }
        applicable = applicable + a;
        passed = passed + p;
        i = i + 1;
    }
    proof {
        assert(events@.take(events@.len() as int) =~= events@);
    }
    (applicable, passed)
}

/// Counts over the run-level compliance checks: applicable, passing, and
/// those with status `pass`, `warning` and `fail`.
fn count_compliance(checks: &Vec<Check>) -> (r: (u128, u128, u128, u128, u128))
    ensures
        r.0 == checks@.filter(check_applies()).len(),
        r.1 == checks@.filter(check_passes()).len(),
        r.2 == checks@.filter(check_has_status("pass"@)).len(),
        r.3 == checks@.filter(check_has_status("warning"@)).len(),
        r.4 == checks@.filter(check_has_status("fail"@)).len(),
        r.1 <= r.0 <= checks@.len(),
        r.2 <= checks@.len(),
        r.3 <= checks@.len(),
        r.4 <= checks@.len(),
        checks@.len() < 0x1_0000_0000_0000_0000,
{
    let mut applicable: u128 = 0;
    let mut passed: u128 = 0;
    let mut n_pass: u128 = 0;
    let mut n_warn: u128 = 0;
    let mut n_fail: u128 = 0;
    let mut j: usize = 0;
    while j < checks.len()
        invariant
            j <= checks@.len(),
            applicable == checks@.take(j as int).filter(check_applies()).len(),
            passed == checks@.take(j as int).filter(check_passes()).len(),
            n_pass == checks@.take(j as int).filter(check_has_status("pass"@)).len(),
            n_warn == checks@.take(j as int).filter(check_has_status("warning"@)).len(),
            n_fail == checks@.take(j as int).filter(check_has_status("fail"@)).len(),
            passed <= applicable <= j,
            n_pass <= j,
            n_warn <= j,
            n_fail <= j,
        decreases checks@.len() - j,
    {
        proof {
            lemma_count_step(checks@, j as int, check_applies());
            lemma_count_step(checks@, j as int, check_passes());
            lemma_count_step(checks@, j as int, check_has_status("pass"@));
            lemma_count_step(checks@, j as int, check_has_status("warning"@));
            lemma_count_step(checks@, j as int, check_has_status("fail"@));
        }
        let status = status_of(&checks[j].status);
        if let Some(ok) = status_pass_fail_warn(status) {
            applicable = applicable + 1;
            if ok {
                passed = passed + 1;
            }
        }
        match status {
            Some(s) => {
                if str_eq(s, "pass") {
                    n_pass = n_pass + 1;
                }
                if str_eq(s, "warning") {
                    n_warn = n_warn + 1;
                }
                if str_eq(s, "fail") {
                    n_fail = n_fail + 1;
                }
            },
            None => {},
        }
        j = j + 1;
    }
    proof {
        lemma_count_whole(checks@, check_applies());
        lemma_count_whole(checks@, check_passes());
        lemma_count_whole(checks@, check_has_status("pass"@));
        lemma_count_whole(checks@, check_has_status("warning"@));
        lemma_count_whole(checks@, check_has_status("fail"@));
    }
    (applicable, passed, n_pass, n_warn, n_fail)
}

/// Whether an event carries provenance citing something.
fn event_is_supported(e: &Event) -> (r: bool)
    ensures
        r == is_supported(*e),
{
    match &e.provenance {
        Some(p) => p.has_support(),
        None => false,
    }
}

/// Per-event counts over a run of events.
struct EventCounts {
    decisions: usize,
    explained: usize,
    claims: usize,
    supported_claims: usize,
    review_requests: usize,
    review_outcomes: usize,
}

/// Counts decisions, explained decisions, claims, supported claims, review
/// requests and review outcomes over the events.
fn count_events(events: &Vec<Event>) -> (c: EventCounts)
    ensures
        c.decisions == events@.filter(is_decision()).len(),
        c.explained == events@.filter(is_explained_decision()).len(),
        c.claims == events@.filter(is_claim()).len(),
        c.supported_claims == events@.filter(is_supported_claim()).len(),
        c.review_requests == events@.filter(is_review_request()).len(),
        c.review_outcomes == events@.filter(is_review_outcome()).len(),
{
    let mut c = EventCounts {
        decisions: 0,
        explained: 0,
        claims: 0,
        supported_claims: 0,
        review_requests: 0,
        review_outcomes: 0,
    };
    let mut i: usize = 0;
    while i < events.len()
        invariant
            i <= events@.len(),
            c.decisions == events@.take(i as int).filter(is_decision()).len(),
            c.explained == events@.take(i as int).filter(is_explained_decision()).len(),
            c.claims == events@.take(i as int).filter(is_claim()).len(),
            c.supported_claims == events@.take(i as int).filter(is_supported_claim()).len(),
            c.review_requests == events@.take(i as int).filter(is_review_request()).len(),
            c.review_outcomes == events@.take(i as int).filter(is_review_outcome()).len(),
            c.decisions <= i,
            c.explained <= i,
            c.claims <= i,
            c.supported_claims <= i,
            c.review_requests <= i,
            c.review_outcomes <= i,
        decreases events@.len() - i,
    {
        proof {
            lemma_count_step(events@, i as int, is_decision());
            lemma_count_step(events@, i as int, is_explained_decision());
            lemma_count_step(events@, i as int, is_claim());
            lemma_count_step(events@, i as int, is_supported_claim());
            lemma_count_step(events@, i as int, is_review_request());
            lemma_count_step(events@, i as int, is_review_outcome());
        }
        let e = &events[i];
        let supported = event_is_supported(e);
        let t = e.event_type;
        if t == EventType::Decision {
            c.decisions = c.decisions + 1;
            if supported {
                c.explained = c.explained + 1;
            }
        }
        if t == EventType::Decision || t == EventType::LlmResponded {
            c.claims = c.claims + 1;
            if supported {
                c.supported_claims = c.supported_claims + 1;
            }
        }
        if t == EventType::HumanReviewRequested {
            c.review_requests = c.review_requests + 1;
        }
        if t == EventType::HumanReviewApproved || t == EventType::HumanReviewRejected
            || t == EventType::HumanReviewModified {
            c.review_outcomes = c.review_outcomes + 1;
        }
        i = i + 1;
    }
    proof {
        lemma_count_whole(events@, is_decision());
        lemma_count_whole(events@, is_explained_decision());
        lemma_count_whole(events@, is_claim());
        lemma_count_whole(events@, is_supported_claim());
        lemma_count_whole(events@, is_review_request());
        lemma_count_whole(events@, is_review_outcome());
    }
    c
}

/// Whether some edge leads into the node named `id`.
fn has_incoming_edge(edges: &Vec<GraphEdge>, id: &String) -> (r: bool)
    ensures
        r == has_incoming(edges@, id@),
{
    let mut k: usize = 0;
    while k < edges.len()
        invariant
            k <= edges@.len(),
            forall|m: int| 0 <= m < k ==> (#[trigger] edges@[m]).to@ != id@,
        decreases edges@.len() - k,
    {
        if edges[k].to == *id {
            proof {
                assert(edges@[k as int].to@ == id@);
            }
            return true;
        }
        k = k + 1;
    }
    false
}

/// Number of events after the first that are the destination of an edge.
fn count_events_with_parent(events: &Vec<Event>, edges: &Vec<GraphEdge>) -> (n: usize)
    requires
        events@.len() > 0,
    ensures
        n == events@.drop_first().filter(has_parent_link(edges@)).len(),
        n <= events@.len() - 1,
{
    let ghost rest = events@.drop_first();
    let mut n: usize = 0;
    let mut j: usize = 1;
    while j < events.len()
        invariant
            1 <= j <= events@.len(),
            rest == events@.drop_first(),
            n == rest.take(j - 1).filter(has_parent_link(edges@)).len(),
            n <= j - 1,
        decreases events@.len() - j,
    {
        proof {
            lemma_count_step(rest, j - 1, has_parent_link(edges@));
            assert(rest[j - 1] == events@[j as int]);
        }
        if has_incoming_edge(edges, &events[j].event_id) {
            n = n + 1;
        }
        j = j + 1;
    }
    proof {
        lemma_count_whole(rest, has_parent_link(edges@));
    }
    n
}

/// Computes every metric that is derivable from a **single** canonical
/// v0.3 trace.
///
/// * **TCS** against [`EventType::baseline_expected`];
/// * **PAS** from inline `policy_checks` plus run-level `compliance_checks`;
/// * **DES** over `decision.made` events carrying provenance;
/// * **causal coverage** from the execution graph: non-root events are all
///   events after the first, and an event has a parent link when its id is
///   the destination of some edge;
/// * **provenance coverage** over claim-bearing events (decisions and model
///   answers);
/// * **compliance confidence** from `compliance_checks`;
/// * **controllability** from `human.review.*` events (only when review was
///   requested).
///
/// Cross-run metrics (behavioral drift, replay fidelity, runtime variance,
/// alignment stability) need more than one trace and are not part of it.
pub fn metrics_from_trace_v03(trace: &TraceV03) -> (m: TraceMetrics)
    ensures
        metrics_of(*trace, m),
        m.trace_completeness.is_unit(),
{
    // Trace Completeness Score.
    let captured = trace.event_types();
    let baseline = EventType::baseline_expected();
    proof {
        reveal(vstd::laws_eq::obeys_concrete_eq);
    }
    let tcs = trace_completeness(captured.as_slice(), baseline.as_slice());

    // Policy Adherence Score.
    let (event_applicable, event_passed) = count_event_policy(&trace.events);
    let (check_applicable, check_passed, n_pass, n_warn, n_fail) = count_compliance(
        &trace.compliance_checks,
    );
    let applicable = event_applicable + check_applicable;
    let passed = event_passed + check_passed;
    let pas = if applicable > 0 {
        Some(coverage_ratio(passed, applicable))
    } else {
        None
    };

    let counts = count_events(&trace.events);

    // Decision Explainability.
    let des = if counts.decisions > 0 {
        Some(coverage_ratio(counts.explained as u128, counts.decisions as u128))
    } else {
        None
    };

    // Causal Coverage.
    let causal = if trace.events.len() > 0 {
        let with_parent = count_events_with_parent(&trace.events, &trace.execution_graph.edges);
        let non_root = trace.events.len() - 1;
        Some(coverage_ratio(with_parent as u128, non_root as u128))
    } else {
        None
    };

    // Provenance Coverage.
    let provenance = if counts.claims > 0 {
        Some(coverage_ratio(counts.supported_claims as u128, counts.claims as u128))
    } else {
        None
    };

    // Compliance Confidence: weight 1 each, confidence 1, ½ or 0, in halves.
    let graded = n_pass + n_warn + n_fail;
    let confidence = if graded > 0 {
        Some(coverage_ratio(2 * n_pass + n_warn, 2 * graded))
    } else {
        None
    };

    // Controllability.
    let control = if counts.review_requests > 0 {
        Some(coverage_ratio(counts.review_outcomes as u128, counts.review_requests as u128))
    } else {
        None
    };

    TraceMetrics {
        trace_completeness: tcs,
        policy_adherence: pas,
        decision_explainability: des,
        causal_coverage: causal,
        provenance_coverage: provenance,
        compliance_confidence: confidence,
        controllability: control,
    }
}

/// Law: every metric derived from a single trace is a ratio in `[0, 1]`.
pub proof fn trace_metrics_are_bounded(trace: TraceV03, m: TraceMetrics)
    requires
        metrics_of(trace, m),
    ensures
        m.trace_completeness.is_unit(),
        m.policy_adherence matches Some(r) ==> r.is_unit(),
        m.decision_explainability matches Some(r) ==> r.is_unit(),
        m.causal_coverage matches Some(r) ==> r.is_unit(),
        m.provenance_coverage matches Some(r) ==> r.is_unit(),
        m.compliance_confidence matches Some(r) ==> r.is_unit(),
        m.controllability matches Some(r) ==> r.is_unit(),
{
}

/// Law: measured against the baseline, a trace is complete exactly when it
/// records both a `run.started` and a `run.completed` event; the baseline
/// always counts two required types.
pub proof fn baseline_completeness(trace: TraceV03, m: TraceMetrics)
    requires
        metrics_of(trace, m),
    ensures
        m.trace_completeness.denominator == 2,
        m.trace_completeness.is_one() <==> (trace.spec_event_types().contains(EventType::RunStarted)
            && trace.spec_event_types().contains(EventType::RunCompleted)),
{
    let types = trace.spec_event_types();
    let baseline = seq![EventType::RunStarted, EventType::RunCompleted];
    let req = required_types(baseline);
    let pres = present_types(types, baseline);
    assert(req =~= set![EventType::RunStarted, EventType::RunCompleted]) by {
        assert forall|t: EventType| req.contains(t) <==> (t == EventType::RunStarted || t == EventType::RunCompleted) by {
            if t == EventType::RunStarted {
                assert(baseline[0] == t);
            }
            if t == EventType::RunCompleted {
                assert(baseline[1] == t);
            }
        }
    }
    assert(req.len() == 2) by {
        assert(set![EventType::RunStarted].len() == 1);
        assert(!set![EventType::RunStarted].contains(EventType::RunCompleted));
    }
    let a = types.contains(EventType::RunStarted);
    let b = types.contains(EventType::RunCompleted);
    if a && b {
        assert(pres =~= req);
    } else if a {
        assert(pres =~= set![EventType::RunStarted]);
    } else if b {
        assert(pres =~= set![EventType::RunCompleted]);
    } else {
        assert(pres =~= Set::<EventType>::empty());
    }
}

/// Law: a provenance supports its event exactly when it cites something:
/// any upstream item, or any evidence unit, is enough.
pub proof fn provenance_support_laws(p: Provenance)
    ensures
        p.used@.len() > 0 ==> p.supports(),
        p.evidence_units@.len() > 0 ==> p.supports(),
        p.used@.len() == 0 && p.evidence_units@.len() == 0 ==> !p.supports(),
{
}

/// Law: decision explainability and provenance coverage count an event as
/// supported when it carries a provenance that cites an upstream item or an
/// evidence unit.
pub proof fn explained_events_cite_items_or_evidence(trace: TraceV03, m: TraceMetrics)
    requires
        metrics_of(trace, m),
    ensures
        ({
            let cites = |e: Event| match e.provenance {
                Some(p) => p.used@.len() > 0 || p.evidence_units@.len() > 0,
                None => false,
            };
            &&& m.decision_explainability matches Some(r) ==> is_coverage_of(
                r,
                trace.events@.filter(|e: Event| e.event_type == EventType::Decision && cites(e)).len() as int,
                trace.events@.filter(|e: Event| e.event_type == EventType::Decision).len() as int,
            )
            &&& m.provenance_coverage matches Some(r) ==> is_coverage_of(
                r,
                trace.events@.filter(
                    |e: Event|
                        (e.event_type == EventType::Decision || e.event_type == EventType::LlmResponded)
                            && cites(e),
                ).len() as int,
                trace.events@.filter(
                    |e: Event| e.event_type == EventType::Decision || e.event_type == EventType::LlmResponded,
                ).len() as int,
            )
        }),
{
    let cites = |e: Event| match e.provenance {
        Some(p) => p.used@.len() > 0 || p.evidence_units@.len() > 0,
        None => false,
    };
    assert(is_explained_decision() =~= |e: Event| e.event_type == EventType::Decision && cites(e));
    assert(is_decision() =~= |e: Event| e.event_type == EventType::Decision);
    assert(is_supported_claim() =~= |e: Event|
        (e.event_type == EventType::Decision || e.event_type == EventType::LlmResponded) && cites(e));
    assert(is_claim() =~= |e: Event| e.event_type == EventType::Decision || e.event_type == EventType::LlmResponded);
}

/// Law: causal coverage counts, among the events after the first, those
/// whose id is the destination (`to`) of some edge of the execution graph.
/// Being only the source of edges gives an event no parent link: when no
/// edge leads into any non-root event, nothing is covered.
pub proof fn causal_coverage_counts_edge_destinations(trace: TraceV03, m: TraceMetrics)
    requires
        metrics_of(trace, m),
    ensures
        ({
            let edges = trace.execution_graph.edges@;
            let linked = |e: Event| exists|k: int| 0 <= k < edges.len() && edges[k].to@ == e.event_id@;
            &&& trace.events@.len() > 0 ==> (m.causal_coverage matches Some(r) && is_coverage_of(
                r,
                trace.events@.drop_first().filter(linked).len() as int,
                trace.events@.len() - 1,
            ))
            &&& (trace.events@.len() > 1 && forall|i: int, k: int|
                1 <= i < trace.events@.len() && 0 <= k < edges.len()
                    ==> (#[trigger] edges[k]).to@ != (#[trigger] trace.events@[i]).event_id@)
                ==> (m.causal_coverage matches Some(r) && r.numerator == 0)
        }),
{
    let edges = trace.execution_graph.edges@;
    let events = trace.events@;
    let linked = |e: Event| exists|k: int| 0 <= k < edges.len() && edges[k].to@ == e.event_id@;
    assert(has_parent_link(edges) =~= linked) by {
        assert forall|e: Event| #[trigger] has_parent_link(edges)(e) == linked(e) by {
            if linked(e) {
                let k = choose|k: int| 0 <= k < edges.len() && edges[k].to@ == e.event_id@;
                assert(edges[k].to@ == e.event_id@);
            }
        }
    }
    if events.len() > 1 && forall|i: int, k: int|
        1 <= i < events.len() && 0 <= k < edges.len()
            ==> (#[trigger] edges[k]).to@ != (#[trigger] events[i]).event_id@ {
        let rest = events.drop_first();
        assert(rest.filter(linked) =~= Seq::<Event>::empty()) by {
            if rest.filter(linked).len() > 0 {
                let e = rest.filter(linked)[0];
                assert(rest.filter(linked).contains(e));
                rest.lemma_filter_pred(linked, 0);
                rest.lemma_filter_contains_rev(linked, e);
                assert(rest.contains(e) && linked(e));
                let i = choose|i: int| 0 <= i < rest.len() && rest[i] == e;
                assert(events[i + 1] == e);
                let k = choose|k: int| 0 <= k < edges.len() && edges[k].to@ == e.event_id@;
                assert(edges[k].to@ != events[i + 1].event_id@);
            }
        }
    }
}

/// Law: how a check status counts. `pass` is an applicable, passing rule;
/// `fail` and `warning` are applicable and not passing; any other status,
/// or none, is not an applicable rule. Inline policy checks and run-level
/// compliance checks count alike.
pub proof fn check_status_laws(c: PolicyCheck, d: Check, s: Seq<char>)
    ensures
        status_verdict(Some("pass"@)) == Some(true),
        status_verdict(Some("fail"@)) == Some(false),
        status_verdict(Some("warning"@)) == Some(false),
        status_verdict(None) is None,
        s != "pass"@ && s != "fail"@ && s != "warning"@ ==> status_verdict(Some(s)) is None,
        c.status matches Some(x) && x@ == "pass"@ ==> policy_check_applies()(c) && policy_check_passes()(c),
        c.status matches Some(x) && (x@ == "fail"@ || x@ == "warning"@) ==> policy_check_applies()(c)
            && !policy_check_passes()(c),
        c.status is None ==> !policy_check_applies()(c) && !policy_check_passes()(c),
        d.status matches Some(x) && x@ == "pass"@ ==> check_applies()(d) && check_passes()(d)
            && check_has_status("pass"@)(d),
        d.status matches Some(x) && x@ == "fail"@ ==> check_applies()(d) && !check_passes()(d)
            && check_has_status("fail"@)(d),
        d.status matches Some(x) && x@ == "warning"@ ==> check_applies()(d) && !check_passes()(d)
            && check_has_status("warning"@)(d),
        d.status is None ==> !check_applies()(d) && !check_has_status(s)(d),
{
    reveal_strlit("pass");
    reveal_strlit("fail");
    reveal_strlit("warning");
    assert("pass"@[0] != "fail"@[0]);
    assert("pass"@.len() != "warning"@.len());
    assert("fail"@.len() != "warning"@.len());
}

/// Law: which events each single-trace metric counts, by event type:
/// decisions are `decision.made` events; claims are decisions and model
/// answers (`llm.responded`); review requests are `human.review.requested`;
/// review outcomes are approvals, rejections and modifications; and an
/// explained decision or supported claim is one whose provenance cites an
/// upstream item or an evidence unit.
pub proof fn event_kind_laws(e: Event)
    ensures
        is_decision()(e) <==> e.event_type == EventType::Decision,
        is_claim()(e) <==> (e.event_type == EventType::Decision || e.event_type == EventType::LlmResponded),
        is_review_request()(e) <==> e.event_type == EventType::HumanReviewRequested,
        is_review_outcome()(e) <==> (e.event_type == EventType::HumanReviewApproved
            || e.event_type == EventType::HumanReviewRejected
            || e.event_type == EventType::HumanReviewModified),
        is_explained_decision()(e) <==> (e.event_type == EventType::Decision
            && (e.provenance matches Some(p) && (p.used@.len() > 0 || p.evidence_units@.len() > 0))),
        is_supported_claim()(e) <==> ((e.event_type == EventType::Decision
            || e.event_type == EventType::LlmResponded)
            && (e.provenance matches Some(p) && (p.used@.len() > 0 || p.evidence_units@.len() > 0))),
{
}

/// Law: inline policy checks are counted over all events alike: the counts
/// over two runs of events placed one after the other add up, and a single
/// event contributes its own applicable and passing checks.
pub proof fn event_policy_counts_add_up(a: Seq<Event>, b: Seq<Event>, e: Event)
    ensures
        events_policy_applicable(a + b) == events_policy_applicable(a) + events_policy_applicable(b),
        events_policy_passed(a + b) == events_policy_passed(a) + events_policy_passed(b),
        events_policy_applicable(seq![e]) == e.policy_checks@.filter(policy_check_applies()).len(),
        events_policy_passed(seq![e]) == e.policy_checks@.filter(policy_check_passes()).len(),
    decreases b.len(),
{
    assert(seq![e].drop_last() =~= Seq::<Event>::empty());
    assert(seq![e].last() == e);
    assert(events_policy_applicable(Seq::<Event>::empty()) == 0);
    assert(events_policy_passed(Seq::<Event>::empty()) == 0);
    assert(events_policy_applicable(seq![e]) == e.policy_checks@.filter(policy_check_applies()).len());
    assert(events_policy_passed(seq![e]) == e.policy_checks@.filter(policy_check_passes()).len());
    if b.len() == 0 {
        assert(a + b =~= a);
    } else {
        event_policy_counts_add_up(a, b.drop_last(), e);
        assert((a + b).drop_last() =~= a + b.drop_last());
        assert((a + b).last() == b.last());
    }
}

/// Law: controllability counts review outcomes over review requests, and
/// compliance confidence grades `pass` as 1, `warning` as ½ and `fail` as 0,
/// each with weight 1, over the run-level checks with one of those statuses.
pub proof fn review_and_compliance_counts(trace: TraceV03, m: TraceMetrics)
    requires
        metrics_of(trace, m),
    ensures
        ({
            let events = trace.events@;
            let requests = events.filter(|e: Event| e.event_type == EventType::HumanReviewRequested).len();
            let outcomes = events.filter(
                |e: Event|
                    e.event_type == EventType::HumanReviewApproved || e.event_type
                        == EventType::HumanReviewRejected || e.event_type == EventType::HumanReviewModified,
            ).len();
            let checks = trace.compliance_checks@;
            let pass = checks.filter(|c: Check| c.status matches Some(s) && s@ == "pass"@).len();
            let warn = checks.filter(|c: Check| c.status matches Some(s) && s@ == "warning"@).len();
            let fail = checks.filter(|c: Check| c.status matches Some(s) && s@ == "fail"@).len();
            &&& (m.controllability is Some <==> requests > 0)
            &&& m.controllability matches Some(r) ==> is_coverage_of(r, outcomes as int, requests as int)
            &&& (m.compliance_confidence is Some <==> pass + warn + fail > 0)
            &&& m.compliance_confidence matches Some(r) ==> (r.numerator == 2 * pass + warn
                && r.denominator == 2 * (pass + warn + fail))
        }),
{
    assert(is_review_request() =~= |e: Event| e.event_type == EventType::HumanReviewRequested);
    assert(is_review_outcome() =~= |e: Event|
        e.event_type == EventType::HumanReviewApproved || e.event_type == EventType::HumanReviewRejected
            || e.event_type == EventType::HumanReviewModified);
    assert(check_has_status("pass"@) =~= |c: Check| c.status matches Some(s) && s@ == "pass"@);
    assert(check_has_status("warning"@) =~= |c: Check| c.status matches Some(s) && s@ == "warning"@);
    assert(check_has_status("fail"@) =~= |c: Check| c.status matches Some(s) && s@ == "fail"@);
}

} // verus!
