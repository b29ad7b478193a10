//! The command line.

use crate::types::LocalProtocol;
use std::path::PathBuf;
use vstd::prelude::*;

verus! {

/// What the command line says.
#[derive(Debug)]
pub struct Cli {
    pub target: Option<String>,
    pub command: Option<Commands>,
    pub version: bool,
    pub protocol: Option<LocalProtocol>,
    pub http: bool,
    pub https: bool,
    pub tcp: bool,
    pub insecure: bool,
    pub export: bool,
    pub detach: bool,
    pub home: Option<PathBuf>,
}

/// A command.
#[allow(inconsistent_fields)]
#[derive(Debug)]
pub enum Commands {
    /// Signs in, or changes the token.
    Auth { token: Option<String> },
    /// Lists the tunnels.
    Ls,
    /// Stops a tunnel.
    Stop { domain: String },
    /// Removes a tunnel and its DNS record.
    Rm { domain: String },
    /// Shows a log.
    Logs { domain: Option<String>, follow: bool, lines: usize },
    /// Looks for what is wrong.
    Doctor,
    /// Brings the tunnels of a configuration file online.
    Up { file: PathBuf },
    /// Shares a service: for now only the terms are recorded.
    Share { target: String, expires: String, password: String },
    /// Serves the metrics.
    Metrics { port: u16 },
}

impl Cli {
    /// The protocol that the command line asks for: by its name, or by a flag.
    pub open spec fn wanted_protocol(self) -> Option<LocalProtocol> {
        if self.protocol is Some {
            self.protocol
        } else if self.http {
            Some(LocalProtocol::Http)
        } else if self.https {
            Some(LocalProtocol::Https)
        } else if self.tcp {
            Some(LocalProtocol::Tcp)
        } else {
            None
        }
    }

    /// The protocol that the command line asks for: by its name, or by a flag.
    pub fn selected_protocol(&self) -> (protocol: Option<LocalProtocol>)
        ensures
            protocol == self.wanted_protocol(),
    {
        match self.protocol {
            Some(protocol) => Some(protocol),
            None => if self.http {
                Some(LocalProtocol::Http)
            } else if self.https {
                Some(LocalProtocol::Https)
            } else if self.tcp {
                Some(LocalProtocol::Tcp)
            } else {
                None
            },
        }
    }
}

/// A protocol that is named is the one that is wanted, whatever the flags say.
pub proof fn named_protocol_wins(cli: Cli, protocol: LocalProtocol)
    requires
        cli.protocol == Some(protocol),
    ensures
        cli.wanted_protocol() == Some(protocol),
{
}

/// Without a name a flag says which protocol is wanted, and without a flag none is: the service is
/// looked at then.
pub proof fn flags_choose_the_protocol(cli: Cli)
    requires
        cli.protocol is None,
    ensures
        cli.http ==> cli.wanted_protocol() == Some(LocalProtocol::Http),
        cli.https && !cli.http ==> cli.wanted_protocol() == Some(LocalProtocol::Https),
        cli.tcp && !cli.http && !cli.https ==> cli.wanted_protocol() == Some(LocalProtocol::Tcp),
        !cli.http && !cli.https && !cli.tcp ==> cli.wanted_protocol() is None,
{
}

} // verus!
