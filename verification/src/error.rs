//! What can go wrong in the supervisor.

use vstd::prelude::*;
use crate::text::{decimal, decimal_text};

verus! {

/// Why a camera cannot be started as it is.
#[derive(Debug, Clone, Copy, PartialEq, Eq, Structural)]
pub enum InvalidStateReason {
    /// Its configuration has it disabled.
    Disabled,
    /// It is running already.
    AlreadyRunning,
}

/// An error of the supervisor.
#[derive(Debug, PartialEq, Eq)]
pub enum SupervisorError {
    /// No camera has this id.
    NotFound { id: String },
    /// A camera with this id is registered already.
    DuplicateId { id: String },
    /// The camera is in no state for what was asked.
    InvalidState { id: String, reason: InvalidStateReason },
    /// The one attempt to launch a worker failed, and retrying is off.
    Spawn { name: String, cause: String },
    /// Every attempt to launch a worker failed.
    Exhausted { name: String, attempts: u32, cause: String },
    /// A process could not be killed.
    Termination { name: String, cause: String },
    /// The stored configuration could not be read or written.
    Persistence { cause: String },
}

/// An error of the supervisor as a mathematical value.
pub enum SupervisorErrorView {
    NotFound { id: Seq<char> },
    DuplicateId { id: Seq<char> },
    InvalidState { id: Seq<char>, reason: InvalidStateReason },
    Spawn { name: Seq<char>, cause: Seq<char> },
    Exhausted { name: Seq<char>, attempts: u32, cause: Seq<char> },
    Termination { name: Seq<char>, cause: Seq<char> },
    Persistence { cause: Seq<char> },
}

impl View for SupervisorError {
    type V = SupervisorErrorView;

    open spec fn view(&self) -> SupervisorErrorView {
        match *self {
            SupervisorError::NotFound { id } => SupervisorErrorView::NotFound { id: id@ },
            SupervisorError::DuplicateId { id } => SupervisorErrorView::DuplicateId { id: id@ },
            SupervisorError::InvalidState { id, reason } => SupervisorErrorView::InvalidState {
                id: id@,
                reason,
            },
            SupervisorError::Spawn { name, cause } => SupervisorErrorView::Spawn {
                name: name@,
                cause: cause@,
            },
            SupervisorError::Exhausted { name, attempts, cause } => SupervisorErrorView::Exhausted {
                name: name@,
                attempts,
                cause: cause@,
            },
            SupervisorError::Termination { name, cause } => SupervisorErrorView::Termination {
                name: name@,
                cause: cause@,
            },
            SupervisorError::Persistence { cause } => SupervisorErrorView::Persistence {
                cause: cause@,
            },
        }
    }
}

impl SupervisorErrorView {
    /// The error in words.
    pub open spec fn message(self) -> Seq<char> {
        match self {
            SupervisorErrorView::NotFound { id } => "Camera '"@ + id + "' not found"@,
            SupervisorErrorView::DuplicateId { id } => "Camera with id '"@ + id
                + "' already exists"@,
            SupervisorErrorView::InvalidState { id, reason } => match reason {
                InvalidStateReason::Disabled => "Camera '"@ + id + "' is disabled"@,
                InvalidStateReason::AlreadyRunning => "Camera '"@ + id + "' is already running"@,
            },
            SupervisorErrorView::Spawn { name, cause } => cause,
            SupervisorErrorView::Exhausted { name, attempts, cause } => name + " failed after "@
                + decimal_text(attempts as nat) + " attempts: "@ + cause,
            SupervisorErrorView::Termination { name, cause } => "Failed to kill process: "@ + cause,
            SupervisorErrorView::Persistence { cause } => cause,
        }
    }
}

impl SupervisorError {
    /// The error in words.
    pub fn message(&self) -> (text: String)
        ensures
            text@ == self@.message(),
    {
        match self {
            SupervisorError::NotFound { id } => {
                String::from_str("Camera '").concat(id.as_str()).concat("' not found")
            },
            SupervisorError::DuplicateId { id } => {
                String::from_str("Camera with id '").concat(id.as_str()).concat("' already exists")
            },
            SupervisorError::InvalidState { id, reason } => match reason {
                InvalidStateReason::Disabled => {
                    String::from_str("Camera '").concat(id.as_str()).concat("' is disabled")
                },
                InvalidStateReason::AlreadyRunning => {
                    String::from_str("Camera '").concat(id.as_str()).concat("' is already running")
                },
            },
            SupervisorError::Spawn { name, cause } => cause.clone(),
            SupervisorError::Exhausted { name, attempts, cause } => {
                let count = decimal(*attempts as u64);
                name.clone().concat(" failed after ").concat(count.as_str()).concat(
                    " attempts: ",
                ).concat(cause.as_str())
            },
            SupervisorError::Termination { name, cause } => {
                String::from_str("Failed to kill process: ").concat(cause.as_str())
            },
            SupervisorError::Persistence { cause } => cause.clone(),
        }
    }
}

} // verus!
