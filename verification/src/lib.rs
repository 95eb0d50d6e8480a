//! A typed front end for the `bgpq3` and `bgpq4` IRR query tools.
//!
//! The crate covers everything around the child process itself: it turns an
//! AS-SET name or an AS number into the query string, lays out the command
//! line for the selected binary, judges the exit status of the finished
//! process and parses the prefixes that the tool reported into networks.
//! Spawning the process and decoding its JSON document are left to the
//! caller, who hands over plain values.

pub mod command;
pub mod decimal;
pub mod error;
pub mod network;
pub mod output;
pub mod query;
pub mod settings;
pub mod version;

pub use command::CommandLine;
pub use error::{Bgpq3Error, Bgpq3Result};
pub use network::{Ipv4Net, Ipv6Net};
pub use output::{collect_networks, Bgpq3Output, Bgpq3OutputInner, CommandOutput};
pub use query::Bgpq3Query;
pub use settings::{Bgpq3, Bgpq3Settings};
pub use version::Version;
