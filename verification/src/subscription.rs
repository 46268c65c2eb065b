//! The subscription that is requested of each managed node.

use vstd::prelude::*;
use crate::settings::{Settings, SettingsView};

verus! {

/// Instance identifier of the one subscription detail of every request.
pub const EVENT_INSTANCE_ID: u32 = 1235;

/// Function of the node that every request addresses.
pub const RAN_FUNCTION_ID: i32 = 0;

/// Identifier of the one action of every request.
pub const REPORT_ACTION_ID: u8 = 1;

/// A managed node, as the node inventory names it.
#[derive(Debug)]
pub struct NodeIdentity {
    pub inventory_name: String,
    pub plmn_id: String,
    pub nb_id: String,
}

/// Mathematical value of a [`NodeIdentity`].
pub struct NodeView {
    pub inventory_name: Seq<char>,
    pub plmn_id: Seq<char>,
    pub nb_id: Seq<char>,
}

impl View for NodeIdentity {
    type V = NodeView;

    open spec fn view(&self) -> NodeView {
        NodeView {
            inventory_name: self.inventory_name@,
            plmn_id: self.plmn_id@,
            nb_id: self.nb_id@,
        }
    }
}

impl Clone for NodeIdentity {
    fn clone(&self) -> (copy: NodeIdentity)
        ensures
            copy@ == self@,
    {
        NodeIdentity {
            inventory_name: self.inventory_name.clone(),
            plmn_id: self.plmn_id.clone(),
            nb_id: self.nb_id.clone(),
        }
    }
}

/// What the node does once an action is completed.
#[derive(Clone, Copy, Debug, PartialEq, Eq, Structural)]
pub enum SubsequentActionKind {
    Continue,
    Terminate,
}

/// How long the node waits before it does so.
#[derive(Clone, Copy, Debug, PartialEq, Eq, Structural)]
pub enum TimeToWait {
    Zero,
    W1ms,
    W2ms,
    W5ms,
    W10ms,
    W20ms,
    W30ms,
    W40ms,
    W50ms,
    W100ms,
    W200ms,
    W500ms,
    W1s,
    W2s,
    W5s,
    W10s,
    W20s,
    W60s,
}

#[derive(Clone, Copy, Debug, PartialEq, Eq, Structural)]
pub struct SubsequentAction {
    pub kind: SubsequentActionKind,
    pub time_to_wait: TimeToWait,
}

#[derive(Clone, Copy, Debug, PartialEq, Eq, Structural)]
pub enum ActionType {
    Insert,
    Policy,
    Report,
}

/// One action that a subscription sets up on the node.
#[derive(Debug)]
pub struct ActionToSetup {
    pub action_id: u8,
    pub action_type: ActionType,
    pub action_definition: Vec<u8>,
    pub subsequent_action: Option<SubsequentAction>,
}

/// Mathematical value of an [`ActionToSetup`].
pub struct ActionView {
    pub action_id: u8,
    pub action_type: ActionType,
    pub action_definition: Seq<u8>,
    pub subsequent_action: Option<SubsequentAction>,
}

impl View for ActionToSetup {
    type V = ActionView;

    open spec fn view(&self) -> ActionView {
        ActionView {
            action_id: self.action_id,
            action_type: self.action_type,
            action_definition: self.action_definition@,
            subsequent_action: self.subsequent_action,
        }
    }
}

impl Clone for ActionToSetup {
    fn clone(&self) -> (copy: ActionToSetup)
        ensures
            copy@ == self@,
    {
        ActionToSetup {
            action_id: self.action_id,
            action_type: self.action_type,
            action_definition: self.action_definition.clone(),
            subsequent_action: self.subsequent_action,
        }
    }
}

/// Event triggers and the actions that they set off.
#[derive(Debug)]
pub struct SubscriptionDetail {
    pub instance_id: u32,
    pub event_triggers: Vec<i32>,
    pub actions: Vec<ActionToSetup>,
}

/// Mathematical value of a [`SubscriptionDetail`].
pub struct DetailView {
    pub instance_id: u32,
    pub event_triggers: Seq<i32>,
    pub actions: Seq<ActionView>,
}

impl View for SubscriptionDetail {
    type V = DetailView;

    open spec fn view(&self) -> DetailView {
        DetailView {
            instance_id: self.instance_id,
            event_triggers: self.event_triggers@,
            actions: self.actions@.map_values(|action: ActionToSetup| action@),
        }
    }
}

impl Clone for SubscriptionDetail {
    fn clone(&self) -> (copy: SubscriptionDetail)
        ensures
            copy@ == self@,
    {
        let mut actions: Vec<ActionToSetup> = Vec::new();
        let mut i: usize = 0;
        while i < self.actions.len()
            invariant
                i <= self.actions.len(),
                actions.len() == i,
                forall|j: int| 0 <= j < i ==> actions[j]@ == self.actions[j]@,
            decreases self.actions.len() - i,
        {
            actions.push(self.actions[i].clone());
            i = i + 1;
        }
        let copy = SubscriptionDetail {
            instance_id: self.instance_id,
            event_triggers: self.event_triggers.clone(),
            actions,
        };
        assert(copy@.actions =~= self@.actions);
        copy
    }
}

/// Where the node sends what was subscribed to.
#[derive(Debug)]
pub struct ClientEndpoint {
    pub host: String,
    pub http_port: u16,
    pub transport_port: u16,
}

/// Mathematical value of a [`ClientEndpoint`].
pub struct EndpointView {
    pub host: Seq<char>,
    pub http_port: u16,
    pub transport_port: u16,
}

impl View for ClientEndpoint {
    type V = EndpointView;

    open spec fn view(&self) -> EndpointView {
        EndpointView {
            host: self.host@,
            http_port: self.http_port,
            transport_port: self.transport_port,
        }
    }
}

impl Clone for ClientEndpoint {
    fn clone(&self) -> (copy: ClientEndpoint)
        ensures
            copy@ == self@,
    {
        ClientEndpoint {
            host: self.host.clone(),
            http_port: self.http_port,
            transport_port: self.transport_port,
        }
    }
}

/// A subscription, as it is handed to the subscription service.
#[derive(Debug)]
pub struct SubscriptionRequest {
    pub client_endpoint: ClientEndpoint,
    pub target_node_id: String,
    pub function_id: i32,
    pub details: Vec<SubscriptionDetail>,
    /// Assigned by the target; unset in a request that was not yet answered.
    pub request_id: Option<String>,
}

/// Mathematical value of a [`SubscriptionRequest`].
pub struct RequestView {
    pub client_endpoint: EndpointView,
    pub target_node_id: Seq<char>,
    pub function_id: i32,
    pub details: Seq<DetailView>,
    pub request_id: Option<Seq<char>>,
}

impl View for SubscriptionRequest {
    type V = RequestView;

    open spec fn view(&self) -> RequestView {
        RequestView {
            client_endpoint: self.client_endpoint@,
            target_node_id: self.target_node_id@,
            function_id: self.function_id,
            details: self.details@.map_values(|detail: SubscriptionDetail| detail@),
            request_id: match self.request_id {
                Some(id) => Some(id@),
                None => None,
            },
        }
    }
}

impl Clone for SubscriptionRequest {
    fn clone(&self) -> (copy: SubscriptionRequest)
        ensures
            copy@ == self@,
    {
        let mut details: Vec<SubscriptionDetail> = Vec::new();
        let mut i: usize = 0;
        while i < self.details.len()
            invariant
                i <= self.details.len(),
                details.len() == i,
                forall|j: int| 0 <= j < i ==> details[j]@ == self.details[j]@,
            decreases self.details.len() - i,
        {
            details.push(self.details[i].clone());
            i = i + 1;
        }
        let request_id = match &self.request_id {
            Some(id) => Some(id.clone()),
            None => None,
        };
        let copy = SubscriptionRequest {
            client_endpoint: self.client_endpoint.clone(),
            target_node_id: self.target_node_id.clone(),
            function_id: self.function_id,
            details,
            request_id,
        };
        assert(copy@.details =~= self@.details);
        copy
    }
}

impl RequestView {
    /// A request holds at least one detail, and every detail at least one
    /// action.
    pub open spec fn well_formed(self) -> bool {
        &&& self.details.len() >= 1
        &&& forall|i: int| 0 <= i < self.details.len() ==> (#[trigger] self.details[i]).actions.len() >= 1
    }
}

/// The one action of every request: a report, after which the node goes on
/// ten milliseconds later.
pub open spec fn report_action(settings: SettingsView) -> ActionView {
    ActionView {
        action_id: REPORT_ACTION_ID,
        action_type: ActionType::Report,
        action_definition: settings.action_definition,
        subsequent_action: Some(
            SubsequentAction { kind: SubsequentActionKind::Continue, time_to_wait: TimeToWait::W10ms },
        ),
    }
}

/// The one detail of every request.
pub open spec fn report_detail(settings: SettingsView) -> DetailView {
    DetailView {
        instance_id: EVENT_INSTANCE_ID,
        event_triggers: settings.event_triggers,
        actions: seq![report_action(settings)],
    }
}

/// The request that subscribes the node named `node_name`.
pub open spec fn subscription_request(settings: SettingsView, node_name: Seq<char>) -> RequestView {
    RequestView {
        client_endpoint: EndpointView {
            host: settings.callback_host,
            http_port: settings.callback_http_port,
            transport_port: settings.callback_transport_port,
        },
        target_node_id: node_name,
        function_id: RAN_FUNCTION_ID,
        details: seq![report_detail(settings)],
        request_id: None,
    }
}

/// Every request built from settings is well formed.
pub proof fn lemma_subscription_request_well_formed(settings: SettingsView, node_name: Seq<char>)
    ensures
        subscription_request(settings, node_name).well_formed(),
{
}

/// Builds the request that subscribes the node named `node_name`.
pub fn build_subscription(settings: &Settings, node_name: &str) -> (request: SubscriptionRequest)
    ensures
        request@ == subscription_request(settings@, node_name@),
        request@.well_formed(),
{
    let client_endpoint = ClientEndpoint {
        host: settings.callback_host.clone(),
        http_port: settings.callback_http_port,
        transport_port: settings.callback_transport_port,
    };
    let action = ActionToSetup {
        action_id: REPORT_ACTION_ID,
        action_type: ActionType::Report,
        action_definition: settings.action_definition.clone(),
        subsequent_action: Some(
            SubsequentAction { kind: SubsequentActionKind::Continue, time_to_wait: TimeToWait::W10ms },
        ),
    };
    assert(action@ == report_action(settings@));
    let mut actions: Vec<ActionToSetup> = Vec::new();
    actions.push(action);
    let detail = SubscriptionDetail {
        instance_id: EVENT_INSTANCE_ID,
        event_triggers: settings.event_triggers.clone(),
        actions,
    };
    assert(detail@.actions =~= seq![report_action(settings@)]);
    assert(detail@ == report_detail(settings@));
    let mut details: Vec<SubscriptionDetail> = Vec::new();
    details.push(detail);
    let request = SubscriptionRequest {
        client_endpoint,
        target_node_id: node_name.to_owned(),
        function_id: RAN_FUNCTION_ID,
        details,
        request_id: None,
    };
    assert(request@.details =~= seq![report_detail(settings@)]);
    request
}

} // verus!
