//! What the operator says on the command line.

use vstd::prelude::*;
use crate::app::Connection;

verus! {

/// The arguments of the command line.
#[derive(Clone, Debug, PartialEq, Eq)]
pub struct CliArgs {
    /// The address of the host to connect to.
    pub ip: Option<String>,
    /// The serial port to connect to.
    pub serial_port: Option<String>,
    /// The TCP port of the stream interface.
    pub tcp_port: u16,
}

/// The TCP port of the stream interface where the operator names none.
pub const DEFAULT_TCP_PORT: u16 = 4403;

impl CliArgs {
    /// The target that the arguments name: the host where one is given, else the serial
    /// port, else none.
    pub open spec fn target(self) -> Connection {
        match self.ip {
            Some(host) => Connection::TCP(host, self.tcp_port),
            None => match self.serial_port {
                Some(device) => Connection::Serial(device),
                None => Connection::Unset,
            },
        }
    }

    /// Where the radio is reached according to the arguments. A host takes precedence
    /// over a serial port; with neither there is no target.
    pub fn connection(self) -> (connection: Connection)
        ensures
            connection == self.target(),
    {
        let CliArgs { ip, serial_port, tcp_port } = self;
        match ip {
            Some(host) => Connection::TCP(host, tcp_port),
            None => match serial_port {
                Some(device) => Connection::Serial(device),
                None => Connection::Unset,
            },
        }
    }
}

} // verus!
