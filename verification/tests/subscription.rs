use hw_xapp::alarm::{build_subscription_alarm, AlarmSeverity, SUBSCRIPTION_FAILED_ALARM};
use hw_xapp::settings::Settings;
use hw_xapp::subscription::{
    build_subscription, ActionType, SubsequentAction, SubsequentActionKind, TimeToWait,
    EVENT_INSTANCE_ID, RAN_FUNCTION_ID, REPORT_ACTION_ID,
};

#[test]
fn default_settings_hold_the_documented_values() {
    let settings = Settings::default();
    assert_eq!(settings.app_name, "hw-rust");
    assert_eq!(settings.transport_port, 4560);
    assert_eq!(settings.probe_host, "0.0.0.0");
    assert_eq!(settings.probe_port, 8080);
    assert_eq!(settings.callback_host, "service-ricxapp-hw-rust-http.ricxapp");
    assert_eq!(settings.callback_http_port, 8080);
    assert_eq!(settings.callback_transport_port, 4560);
    assert_eq!(settings.max_attempts, 10);
    assert_eq!(settings.poll_interval_ms, 1000);
    assert_eq!(settings.propagation_wait_ms, 60_000);
    assert_eq!(settings.event_triggers, vec![1, 2, 3, 4]);
    assert_eq!(settings.action_definition, vec![1u8, 2, 3, 4]);
}

#[test]
fn settings_clone_keeps_every_field() {
    let mut settings = Settings::default();
    settings.app_name = String::from("other");
    settings.max_attempts = 3;
    settings.event_triggers = vec![9, 8];
    let copy = settings.clone();
    assert_eq!(copy.app_name, "other");
    assert_eq!(copy.max_attempts, 3);
    assert_eq!(copy.event_triggers, vec![9, 8]);
    assert_eq!(copy.callback_host, settings.callback_host);
    assert_eq!(copy.action_definition, settings.action_definition);
    assert_eq!(copy.propagation_wait_ms, settings.propagation_wait_ms);
}

#[test]
fn subscription_for_a_node_has_the_fixed_shape() {
    let settings = Settings::default();
    let request = build_subscription(&settings, "gnb_208_092_303030");

    assert_eq!(request.client_endpoint.host, "service-ricxapp-hw-rust-http.ricxapp");
    assert_eq!(request.client_endpoint.http_port, 8080);
    assert_eq!(request.client_endpoint.transport_port, 4560);
    assert_eq!(request.target_node_id, "gnb_208_092_303030");
    assert_eq!(request.function_id, 0);
    assert_eq!(request.function_id, RAN_FUNCTION_ID);
    assert!(request.request_id.is_none());

    assert_eq!(request.details.len(), 1);
    let detail = &request.details[0];
    assert_eq!(detail.instance_id, 1235);
    assert_eq!(detail.instance_id, EVENT_INSTANCE_ID);
    assert_eq!(detail.event_triggers, vec![1, 2, 3, 4]);

    assert_eq!(detail.actions.len(), 1);
    let action = &detail.actions[0];
    assert_eq!(action.action_id, 1);
    assert_eq!(action.action_id, REPORT_ACTION_ID);
    assert_eq!(action.action_type, ActionType::Report);
    assert_eq!(action.action_definition, vec![1u8, 2, 3, 4]);
    assert_eq!(
        action.subsequent_action,
        Some(SubsequentAction {
            kind: SubsequentActionKind::Continue,
            time_to_wait: TimeToWait::W10ms,
        })
    );
}

#[test]
fn subscription_follows_the_settings() {
    let mut settings = Settings::default();
    settings.callback_host = String::from("callbacks.example");
    settings.callback_http_port = 9000;
    settings.callback_transport_port = 4561;
    settings.event_triggers = vec![7];
    settings.action_definition = vec![];
    let request = build_subscription(&settings, "");
    assert_eq!(request.client_endpoint.host, "callbacks.example");
    assert_eq!(request.client_endpoint.http_port, 9000);
    assert_eq!(request.client_endpoint.transport_port, 4561);
    assert_eq!(request.target_node_id, "");
    assert_eq!(request.details[0].event_triggers, vec![7]);
    assert!(request.details[0].actions[0].action_definition.is_empty());
    assert_eq!(request.details.len(), 1);
    assert_eq!(request.details[0].actions.len(), 1);
}

#[test]
fn alarm_for_a_failed_subscription_names_the_node() {
    let alarm = build_subscription_alarm("enb_1");
    assert_eq!(alarm.code, 8086);
    assert_eq!(alarm.code, SUBSCRIPTION_FAILED_ALARM);
    assert_eq!(alarm.severity, AlarmSeverity::Major);
    assert_eq!(alarm.source, "enb_1");
    assert_eq!(alarm.description, "Subscription Failed");
    let copy = alarm.clone();
    assert_eq!(copy.source, "enb_1");
    assert_eq!(copy.code, 8086);
}

#[test]
fn subscription_clone_keeps_every_field() {
    let mut request = build_subscription(&Settings::default(), "node-9");
    request.request_id = Some(String::from("sub-1"));
    let copy = request.clone();
    assert_eq!(copy.client_endpoint.host, request.client_endpoint.host);
    assert_eq!(copy.client_endpoint.http_port, 8080);
    assert_eq!(copy.client_endpoint.transport_port, 4560);
    assert_eq!(copy.target_node_id, "node-9");
    assert_eq!(copy.function_id, 0);
    assert_eq!(copy.request_id, Some(String::from("sub-1")));
    assert_eq!(copy.details.len(), 1);
    assert_eq!(copy.details[0].instance_id, 1235);
    assert_eq!(copy.details[0].event_triggers, vec![1, 2, 3, 4]);
    assert_eq!(copy.details[0].actions.len(), 1);
    assert_eq!(copy.details[0].actions[0].action_id, 1);
    assert_eq!(copy.details[0].actions[0].action_type, ActionType::Report);
    assert_eq!(copy.details[0].actions[0].action_definition, vec![1u8, 2, 3, 4]);
    assert_eq!(
        copy.details[0].actions[0].subsequent_action,
        request.details[0].actions[0].subsequent_action
    );
}
