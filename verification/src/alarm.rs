//! The alarm that is raised for a node whose subscription failed.

use vstd::prelude::*;

verus! {

/// Code of the alarm raised when a subscription fails.
pub const SUBSCRIPTION_FAILED_ALARM: u32 = 8086;

#[derive(Clone, Copy, Debug, PartialEq, Eq, Structural)]
pub enum AlarmSeverity {
    Critical,
    Major,
    Minor,
    Warning,
    Cleared,
}

/// A notification for the alarm service.
#[derive(Debug)]
pub struct AlarmEvent {
    pub code: u32,
    pub severity: AlarmSeverity,
    /// Inventory name of the node that the alarm is about.
    pub source: String,
    pub description: String,
}

/// Mathematical value of an [`AlarmEvent`].
pub struct AlarmView {
    pub code: u32,
    pub severity: AlarmSeverity,
    pub source: Seq<char>,
    pub description: Seq<char>,
}

impl View for AlarmEvent {
    type V = AlarmView;

    open spec fn view(&self) -> AlarmView {
        AlarmView {
            code: self.code,
            severity: self.severity,
            source: self.source@,
            description: self.description@,
        }
    }
}

impl Clone for AlarmEvent {
    fn clone(&self) -> (copy: AlarmEvent)
        ensures
            copy@ == self@,
    {
        AlarmEvent {
            code: self.code,
            severity: self.severity,
            source: self.source.clone(),
            description: self.description.clone(),
        }
    }
}

/// The alarm for the node named `node_name`, whose subscription failed.
pub open spec fn subscription_alarm(node_name: Seq<char>) -> AlarmView {
    AlarmView {
        code: SUBSCRIPTION_FAILED_ALARM,
        severity: AlarmSeverity::Major,
        source: node_name,
        description: "Subscription Failed"@,
    }
}

/// Builds the alarm for the node named `node_name`, whose subscription
/// failed.
pub fn build_subscription_alarm(node_name: &str) -> (alarm: AlarmEvent)
    ensures
        alarm@ == subscription_alarm(node_name@),
{
    AlarmEvent {
        code: SUBSCRIPTION_FAILED_ALARM,
        severity: AlarmSeverity::Major,
        source: node_name.to_owned(),
        description: "Subscription Failed".to_owned(),
    }
}

} // verus!
