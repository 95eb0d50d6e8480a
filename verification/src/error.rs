use vstd::prelude::*;
use vstd::std_specs::convert::FromSpecImpl;

verus! {

/// `std::io::Error`, as reported when a process cannot be started or its
/// output cannot be read. The value is carried as it is; nothing is read from it.
#[verifier::external_type_specification]
#[verifier::external_body]
pub struct ExIoError(std::io::Error);

/// `serde_json::Error`, as reported by the JSON decoder. The value is carried
/// as it is; nothing is read from it.
#[verifier::external_type_specification]
#[verifier::external_body]
pub struct ExJsonError(serde_json::Error);

/// `ipnetwork::IpNetworkError`, as reported when a text is no network. The
/// value is carried as it is; nothing is read from it.
#[verifier::external_type_specification]
#[verifier::external_body]
pub struct ExIpNetworkError(ipnetwork::IpNetworkError);

/// Why a query gave no list of networks.
///
/// Every failure reaches the caller as one of these; nothing is retried and
/// no partial list is handed out.
#[derive(Debug)]
pub enum Bgpq3Error {
    /// The process could not be started, or its output could not be read.
    Io(std::io::Error),
    /// The process ran and exited with a status other than success. What it
    /// wrote to standard error is not kept.
    StatusNotSuccess,
    /// Standard output was not JSON of the expected shape.
    Json(serde_json::Error),
    /// A reported prefix was no network of the requested address family.
    IpNetwork(ipnetwork::IpNetworkError),
}

pub type Bgpq3Result<T> = Result<T, Bgpq3Error>;

impl From<std::io::Error> for Bgpq3Error {
    fn from(error: std::io::Error) -> (wrapped: Bgpq3Error) {
        Bgpq3Error::Io(error)
    }
}

impl FromSpecImpl<std::io::Error> for Bgpq3Error {
    open spec fn obeys_from_spec() -> bool {
        true
    }

    open spec fn from_spec(error: std::io::Error) -> Bgpq3Error {
        Bgpq3Error::Io(error)
    }
}

impl From<serde_json::Error> for Bgpq3Error {
    fn from(error: serde_json::Error) -> (wrapped: Bgpq3Error) {
        Bgpq3Error::Json(error)
    }
}

impl FromSpecImpl<serde_json::Error> for Bgpq3Error {
    open spec fn obeys_from_spec() -> bool {
        true
    }

    open spec fn from_spec(error: serde_json::Error) -> Bgpq3Error {
        Bgpq3Error::Json(error)
    }
}

impl From<ipnetwork::IpNetworkError> for Bgpq3Error {
    fn from(error: ipnetwork::IpNetworkError) -> (wrapped: Bgpq3Error) {
        Bgpq3Error::IpNetwork(error)
    }
}

impl FromSpecImpl<ipnetwork::IpNetworkError> for Bgpq3Error {
    open spec fn obeys_from_spec() -> bool {
        true
    }

    open spec fn from_spec(error: ipnetwork::IpNetworkError) -> Bgpq3Error {
        Bgpq3Error::IpNetwork(error)
    }
}

} // verus!
