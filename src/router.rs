//! Routing of an activated reverse-connection to a loopback service.
use vstd::prelude::*;

use crate::protocol::ProxyConnectionMessage;

verus! {

/// Default loopback port of the local dashboard.
pub const DEFAULT_HOME_PORT: u16 = 3030;

/// Default loopback port of the editor server.
pub const DEFAULT_EDITOR_PORT: u16 = 3000;

/// Default loopback port of the SSH server.
pub const DEFAULT_SSH_PORT: u16 = 22;

/// The loopback ports of the three local services.
#[derive(Debug, Clone, Copy, PartialEq, Eq, Structural)]
pub struct ServicePorts {
    pub home: u16,
    pub editor: u16,
    pub ssh: u16,
}

/// The loopback port that an activation tag routes to; other messages route nowhere.
pub open spec fn spec_port_for(ports: ServicePorts, tag: ProxyConnectionMessage) -> Option<u16> {
    match tag {
        ProxyConnectionMessage::DataHome => Some(ports.home),
        ProxyConnectionMessage::DataVscode => Some(ports.editor),
        ProxyConnectionMessage::DataSsh => Some(ports.ssh),
        _ => None,
    }
}

impl ServicePorts {
    pub fn new(home: u16, editor: u16, ssh: u16) -> (r: ServicePorts)
        ensures
            r == (ServicePorts { home, editor, ssh }),
    {
        ServicePorts { home, editor, ssh }
    }

    /// The loopback port for an activation tag.
    pub fn port_for(&self, tag: ProxyConnectionMessage) -> (r: Option<u16>)
        ensures
            r == spec_port_for(*self, tag),
    {
        match tag {
            ProxyConnectionMessage::DataHome => Some(self.home),
            ProxyConnectionMessage::DataVscode => Some(self.editor),
            ProxyConnectionMessage::DataSsh => Some(self.ssh),
            _ => None,
        }
    }
}

impl Default for ServicePorts {
    fn default() -> (r: ServicePorts)
        ensures
            r == (ServicePorts {
                home: DEFAULT_HOME_PORT,
                editor: DEFAULT_EDITOR_PORT,
                ssh: DEFAULT_SSH_PORT,
            }),
    {
        ServicePorts { home: DEFAULT_HOME_PORT, editor: DEFAULT_EDITOR_PORT, ssh: DEFAULT_SSH_PORT }
    }
}

/// Every activation tag routes to some port, and nothing else does.
pub proof fn lemma_activation_routes(ports: ServicePorts, tag: ProxyConnectionMessage)
    ensures
        spec_port_for(ports, tag).is_some() <==> crate::protocol::is_activation(tag),
{
}

} // verus!
