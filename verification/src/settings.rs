//! The options that the application recognises, with the values it runs with
//! when nothing else is given.

use vstd::prelude::*;

verus! {

/// The recognised options.
#[derive(Debug)]
pub struct Settings {
    /// Name under which the application registers.
    pub app_name: String,
    /// Port on which the transport listens.
    pub transport_port: u16,
    /// Host and port on which the probe server listens.
    pub probe_host: String,
    pub probe_port: u16,
    /// Where a managed node sends what it was subscribed to.
    pub callback_host: String,
    pub callback_http_port: u16,
    pub callback_transport_port: u16,
    /// How often the readiness gate may see the transport not ready.
    pub max_attempts: u32,
    /// Milliseconds between two polls of the readiness gate.
    pub poll_interval_ms: u64,
    /// Milliseconds to wait after registration for routes to propagate.
    pub propagation_wait_ms: u64,
    /// Event triggers of every subscription.
    pub event_triggers: Vec<i32>,
    /// Action definition of every subscription.
    pub action_definition: Vec<u8>,
}

/// Mathematical value of [`Settings`].
pub struct SettingsView {
    pub app_name: Seq<char>,
    pub transport_port: u16,
    pub probe_host: Seq<char>,
    pub probe_port: u16,
    pub callback_host: Seq<char>,
    pub callback_http_port: u16,
    pub callback_transport_port: u16,
    pub max_attempts: u32,
    pub poll_interval_ms: u64,
    pub propagation_wait_ms: u64,
    pub event_triggers: Seq<i32>,
    pub action_definition: Seq<u8>,
}

impl View for Settings {
    type V = SettingsView;

    open spec fn view(&self) -> SettingsView {
        SettingsView {
            app_name: self.app_name@,
            transport_port: self.transport_port,
            probe_host: self.probe_host@,
            probe_port: self.probe_port,
            callback_host: self.callback_host@,
            callback_http_port: self.callback_http_port,
            callback_transport_port: self.callback_transport_port,
            max_attempts: self.max_attempts,
            poll_interval_ms: self.poll_interval_ms,
            propagation_wait_ms: self.propagation_wait_ms,
            event_triggers: self.event_triggers@,
            action_definition: self.action_definition@,
        }
    }
}

/// The values that the application runs with by default: ten polls a second
/// apart, and a minute for routes to propagate.
pub open spec fn default_settings() -> SettingsView {
    SettingsView {
        app_name: "hw-rust"@,
        transport_port: 4560,
        probe_host: "0.0.0.0"@,
        probe_port: 8080,
        callback_host: "service-ricxapp-hw-rust-http.ricxapp"@,
        callback_http_port: 8080,
        callback_transport_port: 4560,
        max_attempts: 10,
        poll_interval_ms: 1000,
        propagation_wait_ms: 60000,
        event_triggers: seq![1i32, 2i32, 3i32, 4i32],
        action_definition: seq![1u8, 2u8, 3u8, 4u8],
    }
}

impl Clone for Settings {
    fn clone(&self) -> (copy: Settings)
        ensures
            copy@ == self@,
    {
        Settings {
            app_name: self.app_name.clone(),
            transport_port: self.transport_port,
            probe_host: self.probe_host.clone(),
            probe_port: self.probe_port,
            callback_host: self.callback_host.clone(),
            callback_http_port: self.callback_http_port,
            callback_transport_port: self.callback_transport_port,
            max_attempts: self.max_attempts,
            poll_interval_ms: self.poll_interval_ms,
            propagation_wait_ms: self.propagation_wait_ms,
            event_triggers: self.event_triggers.clone(),
            action_definition: self.action_definition.clone(),
        }
    }
}

impl Default for Settings {
    fn default() -> (settings: Settings)
        ensures
            settings@ == default_settings(),
    {
        let mut event_triggers: Vec<i32> = Vec::new();
        event_triggers.push(1);
        event_triggers.push(2);
        event_triggers.push(3);
        event_triggers.push(4);
        let mut action_definition: Vec<u8> = Vec::new();
        action_definition.push(1);
        action_definition.push(2);
        action_definition.push(3);
        action_definition.push(4);
        assert(event_triggers@ =~= seq![1i32, 2i32, 3i32, 4i32]);
        assert(action_definition@ =~= seq![1u8, 2u8, 3u8, 4u8]);
        Settings {
            app_name: "hw-rust".to_owned(),
            transport_port: 4560,
            probe_host: "0.0.0.0".to_owned(),
            probe_port: 8080,
            callback_host: "service-ricxapp-hw-rust-http.ricxapp".to_owned(),
            callback_http_port: 8080,
            callback_transport_port: 4560,
            max_attempts: 10,
            poll_interval_ms: 1000,
            propagation_wait_ms: 60000,
            event_triggers,
            action_definition,
        }
    }
}

} // verus!
