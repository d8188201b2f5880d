//! What the supervisor tells the interface after a change. Delivery is the
//! caller's part.

use vstd::prelude::*;
use crate::app_state::ProcessStatus;

verus! {

/// A change that the interface is told of.
#[derive(Debug, PartialEq, Eq)]
pub enum Notification {
    /// The agent as a whole was started or stopped.
    AgentStatusChanged { running: bool },
    /// One camera was started, stopped or restarted.
    CameraStatusChanged { id: String, status: ProcessStatus },
    /// A camera was added, changed or removed.
    CamerasUpdated,
}

/// A notification as a mathematical value.
pub enum NotificationView {
    AgentStatusChanged { running: bool },
    CameraStatusChanged { id: Seq<char>, status: ProcessStatus },
    CamerasUpdated,
}

impl View for Notification {
    type V = NotificationView;

    open spec fn view(&self) -> NotificationView {
        match *self {
            Notification::AgentStatusChanged { running } => NotificationView::AgentStatusChanged {
                running,
            },
            Notification::CameraStatusChanged { id, status } => {
                NotificationView::CameraStatusChanged { id: id@, status }
            },
            Notification::CamerasUpdated => NotificationView::CamerasUpdated,
        }
    }
}

impl NotificationView {
    /// The name under which the interface listens for this notification.
    pub open spec fn event_text(self) -> Seq<char> {
        match self {
            NotificationView::AgentStatusChanged { .. } => "agent-status-changed"@,
            NotificationView::CameraStatusChanged { .. } => "camera-status-changed"@,
            NotificationView::CamerasUpdated => "cameras-updated"@,
        }
    }
}

impl Notification {
    /// The name under which the interface listens for this notification.
    pub fn event_name(&self) -> (name: &'static str)
        ensures
            name@ == self@.event_text(),
    {
        match self {
            Notification::AgentStatusChanged { .. } => "agent-status-changed",
            Notification::CameraStatusChanged { .. } => "camera-status-changed",
            Notification::CamerasUpdated => "cameras-updated",
        }
    }

    /// The notification that the camera `id` now has the status `status`.
    pub fn camera_status(id: &str, status: ProcessStatus) -> (notification: Notification)
        ensures
            notification@ == (NotificationView::CameraStatusChanged { id: id@, status }),
    {
        Notification::CameraStatusChanged { id: String::from_str(id), status }
    }
}

} // verus!
