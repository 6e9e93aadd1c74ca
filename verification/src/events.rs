//! Core event vocabulary of the orchestration loop.

use vstd::prelude::*;

verus! {

/// The events the orchestration loop emits and routes.
#[derive(Debug, Clone, Copy, PartialEq, Eq, Structural)]
pub enum EventType {
    GoalReceived,
    TwinRegistered,
    TwinStateUpdated,
    WorkingMemoryAppended,
    ContextBuilt,
    InferenceRequested,
    InferenceCompleted,
    PlanCreated,
    PlanGenerated,
    EmotionStateUpdated,
    ActionRequested,
}

/// The wire name of each event type.
pub open spec fn event_type_name(t: EventType) -> Seq<char> {
    match t {
        EventType::GoalReceived => "goal_received"@,
        EventType::TwinRegistered => "twin_registered"@,
        EventType::TwinStateUpdated => "twin_state_updated"@,
        EventType::WorkingMemoryAppended => "working_memory_appended"@,
        EventType::ContextBuilt => "context_built"@,
        EventType::InferenceRequested => "inference_requested"@,
        EventType::InferenceCompleted => "inference_completed"@,
        EventType::PlanCreated => "plan_created"@,
        EventType::PlanGenerated => "plan_generated"@,
        EventType::EmotionStateUpdated => "emotion_state_updated"@,
        EventType::ActionRequested => "action_requested"@,
    }
}

impl EventType {
    pub fn as_str(&self) -> (r: &'static str)
        ensures
            r@ == event_type_name(*self),
    {
        match self {
            EventType::GoalReceived => "goal_received",
            EventType::TwinRegistered => "twin_registered",
            EventType::TwinStateUpdated => "twin_state_updated",
            EventType::WorkingMemoryAppended => "working_memory_appended",
            EventType::ContextBuilt => "context_built",
            EventType::InferenceRequested => "inference_requested",
            EventType::InferenceCompleted => "inference_completed",
            EventType::PlanCreated => "plan_created",
            EventType::PlanGenerated => "plan_generated",
            EventType::EmotionStateUpdated => "emotion_state_updated",
            EventType::ActionRequested => "action_requested",
        }
    }
}

/// Typed core events, shared as a common contract between services.
#[derive(Debug, Clone)]
pub enum CoreEvent {
    GoalReceived { goal: String },
    PlanGenerated { plan: String },
}

impl CoreEvent {
    /// The event type name a core event is published under.
    pub fn event_type(&self) -> (r: &'static str)
        ensures
            r@ == match self {
                CoreEvent::GoalReceived { .. } => event_type_name(EventType::GoalReceived),
                CoreEvent::PlanGenerated { .. } => event_type_name(EventType::PlanGenerated),
            },
    {
        match self {
            CoreEvent::GoalReceived { .. } => EventType::GoalReceived.as_str(),
            CoreEvent::PlanGenerated { .. } => EventType::PlanGenerated.as_str(),
        }
    }
}

/// One item of a twin's working memory.
#[derive(Debug, Clone)]
pub struct MemoryItem {
    pub role: String,
    pub content: String,
}

} // verus!
