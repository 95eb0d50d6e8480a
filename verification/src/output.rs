use vstd::prelude::*;
use crate::error::Bgpq3Error;
use crate::network::{
    ipv4_network_of, ipv6_network_of, parse_ipv4_network, parse_ipv6_network, Ipv4Net, Ipv6Net,
};

verus! {

/// What is kept of a finished process: whether it exited with success, and
/// all that it wrote to standard output.
#[derive(Debug, Clone)]
pub struct CommandOutput {
    pub success: bool,
    pub stdout: Vec<u8>,
}

impl CommandOutput {
    /// Hands out standard output if the process succeeded. Output of a
    /// process that failed is never looked at.
    pub fn into_stdout(self) -> (stdout: Result<Vec<u8>, Bgpq3Error>)
        ensures
            self.success ==> stdout == Ok::<Vec<u8>, Bgpq3Error>(self.stdout),
            !self.success ==> stdout == Err::<Vec<u8>, Bgpq3Error>(Bgpq3Error::StatusNotSuccess),
    {
        if !self.success {
            return Err(Bgpq3Error::StatusNotSuccess);
        }
        Ok(self.stdout)
    }
}

/// One entry of the tool's report. Only the prefix is read.
#[derive(Debug, Clone)]
pub struct Bgpq3OutputInner {
    pub prefix: String,
}

/// The tool's report, decoded: the entries of its list, in the order in
/// which the tool wrote them.
#[derive(Debug, Clone)]
pub struct Bgpq3Output {
    pub nn: Vec<Bgpq3OutputInner>,
}

impl View for Bgpq3Output {
    type V = Seq<Seq<char>>;

    /// The reported prefixes as texts, in order.
    open spec fn view(&self) -> Seq<Seq<char>> {
        Seq::new(self.nn@.len(), |i: int| self.nn@[i].prefix@)
    }
}

/// Every entry is a network.
pub open spec fn all_networks<N>(parsed: Seq<Result<N, ipnetwork::IpNetworkError>>) -> bool {
    forall|i: int| 0 <= i < parsed.len() ==> (#[trigger] parsed[i]) is Ok
}

/// Entry `i` is the first one that is no network.
pub open spec fn is_first_failure<N>(
    parsed: Seq<Result<N, ipnetwork::IpNetworkError>>,
    i: int,
) -> bool {
    &&& 0 <= i < parsed.len()
    &&& parsed[i] is Err
    &&& forall|j: int| 0 <= j < i ==> (#[trigger] parsed[j]) is Ok
}

/// `collected` is what the entries `parsed` come to: all networks in the
/// order of their entries if every entry is one, and otherwise the error of
/// the first entry that is none.
pub open spec fn is_collected<N>(
    parsed: Seq<Result<N, ipnetwork::IpNetworkError>>,
    collected: Result<Vec<N>, Bgpq3Error>,
) -> bool {
    match collected {
        Ok(networks) => {
            &&& networks@.len() == parsed.len()
            &&& forall|i: int|
                0 <= i < parsed.len() ==> #[trigger] parsed[i] == Ok::<
                    N,
                    ipnetwork::IpNetworkError,
                >(networks@[i])
        },
        Err(error) => exists|i: int|
            #[trigger] is_first_failure(parsed, i) && error == Bgpq3Error::IpNetwork(
                parsed[i]->Err_0,
            ),
    }
}

/// Each text of a report, parsed as an IPv4 network.
pub open spec fn parsed_v4(texts: Seq<Seq<char>>) -> Seq<Result<Ipv4Net, ipnetwork::IpNetworkError>> {
    Seq::new(texts.len(), |i: int| ipv4_network_of(texts[i]))
}

/// Each text of a report, parsed as an IPv6 network.
pub open spec fn parsed_v6(texts: Seq<Seq<char>>) -> Seq<Result<Ipv6Net, ipnetwork::IpNetworkError>> {
    Seq::new(texts.len(), |i: int| ipv6_network_of(texts[i]))
}

/// A list comes out exactly where every entry is a network.
pub proof fn lemma_collected_ok<N>(
    parsed: Seq<Result<N, ipnetwork::IpNetworkError>>,
    collected: Result<Vec<N>, Bgpq3Error>,
)
    requires
        is_collected(parsed, collected),
    ensures
        collected is Ok <==> all_networks(parsed),
{
    match collected {
        Ok(networks) => {
            assert forall|i: int| 0 <= i < parsed.len() implies (#[trigger] parsed[i]) is Ok by {
                assert(parsed[i] == Ok::<N, ipnetwork::IpNetworkError>(networks@[i]));
            }
        },
        Err(error) => {
            let i = choose|i: int| #[trigger] is_first_failure(parsed, i);
            assert(parsed[i] is Err);
        },
    }
}

/// Entries have one first failure at most, so what they come to is settled
/// by the entries alone: two outcomes of the same entries hold the same
/// networks, or the same error.
pub proof fn lemma_collected_unique<N>(
    parsed: Seq<Result<N, ipnetwork::IpNetworkError>>,
    a: Result<Vec<N>, Bgpq3Error>,
    b: Result<Vec<N>, Bgpq3Error>,
)
    requires
        is_collected(parsed, a),
        is_collected(parsed, b),
    ensures
        a is Ok <==> b is Ok,
        a is Ok ==> a->Ok_0@ == b->Ok_0@,
        a is Err ==> a->Err_0 == b->Err_0,
{
    match (a, b) {
        (Ok(x), Ok(y)) => {
            assert forall|i: int| 0 <= i < x@.len() implies x@[i] == y@[i] by {
                assert(parsed[i] == Ok::<N, ipnetwork::IpNetworkError>(x@[i]));
                assert(parsed[i] == Ok::<N, ipnetwork::IpNetworkError>(y@[i]));
            }
            assert(x@ =~= y@);
        },
        (Err(x), Err(y)) => {
            let i = choose|i: int|
                #[trigger] is_first_failure(parsed, i) && x == Bgpq3Error::IpNetwork(
                    parsed[i]->Err_0,
                );
            let j = choose|j: int|
                #[trigger] is_first_failure(parsed, j) && y == Bgpq3Error::IpNetwork(
                    parsed[j]->Err_0,
                );
            if i < j {
                assert(parsed[i] is Ok);
            }
            if j < i {
                assert(parsed[j] is Ok);
            }
        },
        (Ok(x), Err(y)) => {
            let j = choose|j: int| #[trigger] is_first_failure(parsed, j);
            assert(parsed[j] == Ok::<N, ipnetwork::IpNetworkError>(x@[j]));
        },
        (Err(x), Ok(y)) => {
            let i = choose|i: int| #[trigger] is_first_failure(parsed, i);
            assert(parsed[i] == Ok::<N, ipnetwork::IpNetworkError>(y@[i]));
        },
    }
}

/// Gathers parsed entries into one list, in their order. The first entry
/// that is no network ends it with that entry's error; no partial list is
/// handed out.
pub fn collect_networks<N>(parsed: Vec<Result<N, ipnetwork::IpNetworkError>>) -> (collected: Result<
    Vec<N>,
    Bgpq3Error,
>)
    ensures
        is_collected(parsed@, collected),
        collected is Ok <==> all_networks(parsed@),
{
    let ghost entries = parsed@;
    let mut networks: Vec<N> = Vec::new();
    for entry in it: parsed
        invariant
            it.seq() == entries,
            networks@.len() == it.index(),
            forall|j: int|
                0 <= j < it.index() ==> #[trigger] entries[j] == Ok::<
                    N,
                    ipnetwork::IpNetworkError,
                >(networks@[j]),
    {
        match entry {
            Ok(network) => {
                networks.push(network);
            },
            Err(error) => {
                assert(is_first_failure(entries, it.index() as int));
                return Err(Bgpq3Error::IpNetwork(error));
            },
        }
    }
    proof {
        lemma_collected_ok(entries, Ok(networks));
    }
    Ok(networks)
}

impl Bgpq3Output {
    /// Parses every reported prefix as an IPv4 network.
    pub fn prefixes_v4(self) -> (networks: Result<Vec<Ipv4Net>, Bgpq3Error>)
        ensures
            is_collected(parsed_v4(self@), networks),
            networks is Ok <==> all_networks(parsed_v4(self@)),
            networks matches Ok(list) ==> forall|i: int|
                0 <= i < list@.len() ==> (#[trigger] list@[i]).wf(),
    {
        let mut parsed: Vec<Result<Ipv4Net, ipnetwork::IpNetworkError>> = Vec::new();
        let mut i: usize = 0;
        while i < self.nn.len()
            invariant
                i <= self.nn@.len(),
                parsed@.len() == i,
                forall|j: int| 0 <= j < i ==> #[trigger] parsed@[j] == ipv4_network_of(self@[j]),
                forall|j: int|
                    0 <= j < i ==> ((#[trigger] parsed@[j]) matches Ok(network) ==> network.wf()),
            decreases self.nn@.len() - i,
        {
            let entry = parse_ipv4_network(self.nn[i].prefix.as_str());
            parsed.push(entry);
            i += 1;
        }
        assert(parsed@ =~= parsed_v4(self@));
        let ghost entries = parsed@;
        let networks = collect_networks(parsed);
        proof {
            if networks is Ok {
                let list = networks->Ok_0@;
                assert forall|i: int| 0 <= i < list.len() implies (#[trigger] list[i]).wf() by {
                    assert(entries[i] == Ok::<Ipv4Net, ipnetwork::IpNetworkError>(list[i]));
                }
            }
        }
        networks
    }

    /// Parses every reported prefix as an IPv6 network.
    pub fn prefixes_v6(self) -> (networks: Result<Vec<Ipv6Net>, Bgpq3Error>)
        ensures
            is_collected(parsed_v6(self@), networks),
            networks is Ok <==> all_networks(parsed_v6(self@)),
            networks matches Ok(list) ==> forall|i: int|
                0 <= i < list@.len() ==> (#[trigger] list@[i]).wf(),
    {
        let mut parsed: Vec<Result<Ipv6Net, ipnetwork::IpNetworkError>> = Vec::new();
        let mut i: usize = 0;
        while i < self.nn.len()
            invariant
                i <= self.nn@.len(),
                parsed@.len() == i,
                forall|j: int| 0 <= j < i ==> #[trigger] parsed@[j] == ipv6_network_of(self@[j]),
                forall|j: int|
                    0 <= j < i ==> ((#[trigger] parsed@[j]) matches Ok(network) ==> network.wf()),
            decreases self.nn@.len() - i,
        {
            let entry = parse_ipv6_network(self.nn[i].prefix.as_str());
            parsed.push(entry);
            i += 1;
        }
        assert(parsed@ =~= parsed_v6(self@));
        let ghost entries = parsed@;
        let networks = collect_networks(parsed);
        proof {
            if networks is Ok {
                let list = networks->Ok_0@;
                assert forall|i: int| 0 <= i < list.len() implies (#[trigger] list[i]).wf() by {
                    assert(entries[i] == Ok::<Ipv6Net, ipnetwork::IpNetworkError>(list[i]));
                }
            }
        }
        networks
    }
}

} // verus!
