//! The settings that a run starts from, as they stand once they are read.

use vstd::prelude::*;

verus! {

/// The port that the switch listens on where the settings name none.
pub const DEFAULT_PORT: u16 = 23;

/// Where the switch is reached.
#[derive(Debug)]
pub struct ServerConfiguration {
    pub host: String,
    pub port: Option<u16>,
}

/// The input aliases, each an alias and the input name it points at.
#[derive(Debug)]
pub struct InputConfiguration {
    pub aliases: Vec<(String, String)>,
}

/// The output aliases, each an alias and the output name it points at.
#[derive(Debug)]
pub struct OutputConfiguration {
    pub aliases: Vec<(String, String)>,
}

/// All settings of a run.
#[derive(Debug)]
pub struct Configuration {
    pub server: ServerConfiguration,
    pub input: InputConfiguration,
    pub output: OutputConfiguration,
}

impl Configuration {
    /// The port to connect to: the one that the settings name, or else
    /// the default.
    pub open spec fn port(&self) -> u16 {
        match self.server.port {
            Some(port) => port,
            None => DEFAULT_PORT,
        }
    }

    /// The port to connect to.
    pub fn get_port(&self) -> (port: u16)
        ensures
            port == self.port(),
            self.server.port is None ==> port == 23,
    {
        match self.server.port {
            Some(port) => port,
            None => DEFAULT_PORT,
        }
    }
}

} // verus!
