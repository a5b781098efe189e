use vstd::prelude::*;

use crate::error::Error;

verus! {

/// Where the scheduler can reach the agent.
pub struct Hostname {
    pub host: String,
    pub port: u32,
}

/// The agent's side of its relationship with the scheduler: unregistered
/// until the scheduler assigns an id, registered from then on.
pub struct SchedulerService {
    agent_advertise_url: String,
    port: u32,
    agent_id: Option<u32>,
}

impl SchedulerService {
    pub closed spec fn spec_agent_id(&self) -> Option<u32> {
        self.agent_id
    }

    pub closed spec fn spec_host(&self) -> Seq<char> {
        self.agent_advertise_url@
    }

    pub closed spec fn spec_port(&self) -> u32 {
        self.port
    }

    /// An unregistered session advertising `agent_host:port`.
    pub fn init(agent_host: String, port: u32) -> (r: SchedulerService)
        ensures
            r.spec_agent_id() is None,
            r.spec_host() == agent_host@,
            r.spec_port() == port,
    {
        SchedulerService { agent_advertise_url: agent_host, port, agent_id: None }
    }

    /// The address sent with the registration request.
    pub fn hostname(&self) -> (r: Hostname)
        ensures
            r.host@ == self.spec_host(),
            r.port == self.spec_port(),
    {
        Hostname { host: self.agent_advertise_url.clone(), port: self.port }
    }

    /// Records the id that the scheduler assigned.
    pub fn register(&mut self, assigned_id: u32)
        ensures
            final(self).spec_agent_id() == Some(assigned_id),
            final(self).spec_host() == old(self).spec_host(),
            final(self).spec_port() == old(self).spec_port(),
    {
        self.agent_id = Some(assigned_id);
    }

    /// The id to tag health reports with; refused before registration.
    pub fn report_health(&self) -> (r: Result<u32, Error>)
        ensures
            match self.spec_agent_id() {
                Some(id) => r == Ok::<u32, Error>(id),
                None => r == Err::<u32, Error>(Error::NotRegisteredError),
            },
    {
        match self.agent_id {
            Some(id) => Ok(id),
            None => Err(Error::NotRegisteredError),
        }
    }

    pub fn agent_id(&self) -> (r: Option<u32>)
        ensures
            r == self.spec_agent_id(),
    {
        self.agent_id
    }
}

} // verus!
