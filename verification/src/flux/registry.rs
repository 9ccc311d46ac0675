//! What flux reports to the control plane of itself and of the agents on its streams.

use vstd::prelude::*;
use vstd::string::StringExecFns;
use crate::flux::config::Config;
use crate::flux::resource_status;
use crate::scheduler::Report;
use crate::text;

verus! {

/// What flux reports of itself.
#[derive(Clone, Debug)]
pub struct HeartbeatPayload {
    pub flux_id: String,
    pub public_url: String,
    pub internal_url: String,
    pub region: Option<String>,
    pub capacity: usize,
    pub connected_agents_count: usize,
}

/// What flux reports of an agent that has connected.
#[derive(Clone, Debug)]
pub struct AgentConnectionPayload {
    pub flux_id: String,
    pub host_id: String,
    pub capabilities: Vec<String>,
    pub coold_version: Option<String>,
}

/// What flux reports of an agent that has left.
#[derive(Clone, Debug)]
pub struct DisconnectPayload {
    pub flux_id: String,
    pub host_id: String,
    pub reason: String,
}

/// Where flux reports to, and as whom.
#[derive(Clone, Debug)]
pub struct RegistryClient {
    pub base_url: String,
    pub token: String,
    pub flux_id: String,
    pub public_url: String,
    pub internal_url: String,
    pub region: Option<String>,
    pub capacity: usize,
}

/// Where a report goes.
pub open spec fn report_path(r: Report) -> Seq<char> {
    match r {
        Report::Heartbeat => "/api/v1/internal/fluxs/heartbeat"@,
        Report::Connected => "/api/v1/internal/agent-connections/upsert"@,
        Report::Disconnected => "/api/v1/internal/agent-connections/disconnect"@,
    }
}

impl RegistryClient {
    /// Where flux reports to: nowhere unless the control plane, its token and the name and
    /// addresses of flux are all known.
    pub fn from_config(config: &Config) -> (r: Option<Self>)
        ensures
            match (
                resource_status::some_base(text::opt_view(config.laravel_api_url)),
                resource_status::some_trimmed(text::opt_view(config.laravel_api_token)),
                resource_status::some_trimmed(text::opt_view(config.flux_id)),
                resource_status::some_trimmed(text::opt_view(config.flux_public_url)),
                resource_status::some_trimmed(text::opt_view(config.flux_internal_url)),
            ) {
                (Some(base), Some(token), Some(id), Some(public), Some(internal)) => {
                    &&& r matches Some(c)
                    &&& c.base_url@ == base
                    &&& c.token@ == token
                    &&& c.flux_id@ == id
                    &&& c.public_url@ == public
                    &&& c.internal_url@ == internal
                    &&& text::opt_view(c.region) == text::opt_view(config.flux_region)
                    &&& c.capacity == config.agent_capacity
                },
                _ => r is None,
            },
    {
        match (
            resource_status::base_opt(&config.laravel_api_url),
            resource_status::trimmed_opt(&config.laravel_api_token),
            resource_status::trimmed_opt(&config.flux_id),
            resource_status::trimmed_opt(&config.flux_public_url),
            resource_status::trimmed_opt(&config.flux_internal_url),
        ) {
            (Some(base_url), Some(token), Some(flux_id), Some(public_url), Some(internal_url)) => {
                Some(
                    RegistryClient {
                        base_url,
                        token,
                        flux_id,
                        public_url,
                        internal_url,
                        region: text::copy_opt(&config.flux_region),
                        capacity: config.agent_capacity,
                    },
                )
            },
            _ => None,
        }
    }

    /// What flux reports of itself.
    pub fn heartbeat_payload(&self, connected_agents_count: usize) -> (r: HeartbeatPayload)
        ensures
            r.flux_id@ == self.flux_id@,
            r.public_url@ == self.public_url@,
            r.internal_url@ == self.internal_url@,
            text::opt_view(r.region) == text::opt_view(self.region),
            r.capacity == self.capacity,
            r.connected_agents_count == connected_agents_count,
    {
        HeartbeatPayload {
            flux_id: self.flux_id.clone(),
            public_url: self.public_url.clone(),
            internal_url: self.internal_url.clone(),
            region: text::copy_opt(&self.region),
            capacity: self.capacity,
            connected_agents_count,
        }
    }

    /// What flux reports of an agent that has connected: the capabilities it has in effect.
    pub fn connection_payload(
        &self,
        host_id: &str,
        capabilities: Vec<String>,
        coold_version: Option<String>,
    ) -> (r: AgentConnectionPayload)
        ensures
            r.flux_id@ == self.flux_id@,
            r.host_id@ == host_id@,
            r.capabilities == capabilities,
            r.coold_version == coold_version,
    {
        AgentConnectionPayload {
            flux_id: self.flux_id.clone(),
            host_id: host_id.to_owned(),
            capabilities,
            coold_version,
        }
    }

    /// What flux reports of an agent that has left, and why.
    pub fn disconnect_payload(&self, host_id: &str, reason: &str) -> (r: DisconnectPayload)
        ensures
            r.flux_id@ == self.flux_id@,
            r.host_id@ == host_id@,
            r.reason@ == reason@,
    {
        DisconnectPayload {
            flux_id: self.flux_id.clone(),
            host_id: host_id.to_owned(),
            reason: reason.to_owned(),
        }
    }

    /// Where a report goes.
    pub fn url(&self, report: Report) -> (r: String)
        ensures
            r@ == self.base_url@ + report_path(report),
    {
        let path: &str = match report {
            Report::Heartbeat => "/api/v1/internal/fluxs/heartbeat",
            Report::Connected => "/api/v1/internal/agent-connections/upsert",
            Report::Disconnected => "/api/v1/internal/agent-connections/disconnect",
        };
        let mut out: String = self.base_url.clone();
        out.append(path);
        out
    }
}

} // verus!
