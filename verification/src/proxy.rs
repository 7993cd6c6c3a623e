//! Telemetry relay: where upstream telemetry comes from, and how that source
//! is described in log lines.

use vstd::prelude::*;
use vstd::string::*;
use crate::text::{append_decimal, decimal_chars};

verus! {

/// Where the relay reads telemetry from.
pub enum UpstreamSource {
    /// A TCP telemetry server at `addr` (`host:port`).
    Tcp { addr: String },
    /// A serial port at the given baud rate.
    Serial { port: String, baud: u32 },
}

/// The description of a source: `tcp:<addr>` or `serial:<port>@<baud>`.
pub open spec fn description_spec(source: &UpstreamSource) -> Seq<char> {
    match source {
        UpstreamSource::Tcp { addr } => "tcp:"@ + addr@,
        UpstreamSource::Serial { port, baud } => "serial:"@ + port@ + "@"@ + decimal_chars(
            *baud as nat,
        ),
    }
}

impl UpstreamSource {
    /// A short description of the source for log lines.
    pub fn description(&self) -> (d: String)
        ensures
            d@ == description_spec(self),
    {
        match self {
            UpstreamSource::Tcp { addr } => {
                let mut d = String::from_str("tcp:");
                d.append(addr.as_str());
                d
            },
            UpstreamSource::Serial { port, baud } => {
                let mut d = String::from_str("serial:");
                d.append(port.as_str());
                d.append("@");
                append_decimal(&mut d, *baud);
                d
            },
        }
    }
}

} // verus!
