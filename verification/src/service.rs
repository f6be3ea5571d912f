//! Lifecycle supervisor for the background broker service.
//!
//! The broker's own message routing is a third-party collaborator run by
//! the host on a dedicated thread; the supervisor holds its configuration
//! and the lifecycle state: start-once decisions, a cooperative stop
//! request, and a liveness query. The host spawns the blocking broker
//! loop when `start` allows it, and reports the loop's completion, seen
//! lazily through its join handle, with `mark_finished`.

use vstd::prelude::*;

use crate::error::AppError;

verus! {

/// The broker's connection configuration: one listen address per server
/// endpoint. The supervisor only decides on whether any is configured;
/// the host hands the full configuration to the broker.
#[derive(Clone)]
pub struct MqttConfig {
    /// The configured listen endpoints.
    pub servers: Vec<String>,
}

impl Default for MqttConfig {
    /// No endpoints configured.
    fn default() -> (r: Self)
        ensures
            r.servers@ == Seq::<String>::empty(),
    {
        MqttConfig { servers: Vec::new() }
    }
}

/// The supervisor: Idle (no handle) or Running (a handle exists and has
/// not reported completion); completion is detected lazily.
pub struct MqttServer {
    config: MqttConfig,
    handle_present: bool,
    finished: bool,
    stop_requested: bool,
}

impl MqttServer {
    /// The configured listen endpoints.
    pub closed spec fn spec_servers(&self) -> Seq<String> {
        self.config.servers@
    }

    /// Whether a spawned execution has been recorded.
    pub closed spec fn spec_handle_present(&self) -> bool {
        self.handle_present
    }

    /// Whether the recorded execution has reported completion.
    pub closed spec fn spec_finished(&self) -> bool {
        self.finished
    }

    /// Whether a cooperative stop has been requested.
    pub closed spec fn spec_stop_requested(&self) -> bool {
        self.stop_requested
    }

    /// A supervisor for the given configuration, idle.
    pub fn new(config: MqttConfig) -> (r: MqttServer)
        ensures
            r.spec_servers() == config.servers@,
            !r.spec_handle_present(),
            !r.spec_finished(),
            !r.spec_stop_requested(),
    {
        MqttServer { config, handle_present: false, finished: false, stop_requested: false }
    }

    /// The configuration the broker is to be run with.
    pub fn config(&self) -> (r: &MqttConfig)
        ensures
            r.servers@ == self.spec_servers(),
    {
        &self.config
    }

    /// Starts the service. With no configured endpoints it fails with the
    /// configuration error and changes nothing; otherwise it records a
    /// fresh running handle and the host spawns the blocking broker loop.
    /// Starting while already running abandons the previous handle.
    pub fn start(&mut self) -> (r: Result<(), AppError>)
        ensures
            final(self).spec_servers() == old(self).spec_servers(),
            final(self).spec_stop_requested() == old(self).spec_stop_requested(),
            old(self).spec_servers().len() == 0 ==> r == Result::<(), AppError>::Err(
                AppError::MqttServerNoConfig,
            ) && final(self).spec_handle_present() == old(self).spec_handle_present()
                && final(self).spec_finished() == old(self).spec_finished(),
            old(self).spec_servers().len() > 0 ==> r == Result::<(), AppError>::Ok(())
                && final(self).spec_handle_present() && !final(self).spec_finished(),
    {
        if self.config.servers.len() == 0 {
            return Err(AppError::MqttServerNoConfig);
        }
        self.handle_present = true;
        self.finished = false;
        Ok(())
    }

    /// Requests a cooperative stop: raises the advisory flag and returns
    /// at once. It neither blocks, joins, nor confirms the broker loop
    /// observed the flag.
    pub fn stop(&mut self)
        ensures
            final(self).spec_stop_requested(),
            final(self).spec_servers() == old(self).spec_servers(),
            final(self).spec_handle_present() == old(self).spec_handle_present(),
            final(self).spec_finished() == old(self).spec_finished(),
    {
        self.stop_requested = true;
    }

    /// True iff a spawned execution exists and has not yet reported
    /// completion; it says nothing about whether a stop was requested.
    pub fn is_running(&self) -> (r: bool)
        ensures
            r == (self.spec_handle_present() && !self.spec_finished()),
    {
        self.handle_present && !self.finished
    }

    /// The host reports that the spawned execution ended.
    pub fn mark_finished(&mut self)
        ensures
            final(self).spec_finished(),
            final(self).spec_servers() == old(self).spec_servers(),
            final(self).spec_handle_present() == old(self).spec_handle_present(),
            final(self).spec_stop_requested() == old(self).spec_stop_requested(),
    {
        self.finished = true;
    }
}

} // verus!
