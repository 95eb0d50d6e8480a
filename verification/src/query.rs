use vstd::prelude::*;
use vstd::string::*;
use vstd::std_specs::cmp::PartialEqSpecImpl;
use vstd::std_specs::convert::FromSpecImpl;
use crate::command::{command_line, json_flag, ipv6_flag, texts, CommandLine};
use crate::decimal::{
    decimal, decimal_value, is_digit, lemma_decimal_digits, lemma_decimal_no_leading_zero,
    lemma_decimal_round_trip, push_decimal,
};
use crate::settings::Bgpq3Settings;

verus! {

/// The query string for an AS number: `AS` and the decimal numeral of the number.
pub open spec fn asn_text(asn: u32) -> Seq<char> {
    seq!['A', 'S'] + decimal(asn as nat)
}

/// The query string of an AS number is `AS` and then the decimal numeral of
/// the number: digits only, without a leading zero, and denoting that number.
pub proof fn lemma_asn_text(asn: u32)
    ensures
        asn_text(asn).len() >= 3,
        asn_text(asn)[0] == 'A',
        asn_text(asn)[1] == 'S',
        asn_text(asn).skip(2) == decimal(asn as nat),
        forall|i: int| 2 <= i < asn_text(asn).len() ==> is_digit(#[trigger] asn_text(asn)[i]),
        asn_text(asn)[2] == '0' <==> asn == 0,
        asn == 0 ==> asn_text(asn) == seq!['A', 'S', '0'],
        decimal_value(asn_text(asn).skip(2)) == asn,
{
    let numeral = decimal(asn as nat);
    lemma_decimal_digits(asn as nat);
    lemma_decimal_no_leading_zero(asn as nat);
    lemma_decimal_round_trip(asn as nat);
    assert(asn_text(asn).skip(2) =~= numeral);
    assert forall|i: int| 2 <= i < asn_text(asn).len() implies is_digit(
        #[trigger] asn_text(asn)[i],
    ) by {
        assert(asn_text(asn)[i] == numeral[i - 2]);
    }
    assert(asn_text(asn)[2] == numeral[0]);
    if asn == 0 {
        assert(asn_text(asn) =~= seq!['A', 'S', '0']);
    }
}

/// A query for the tool: the name of an AS-SET, or an AS number.
///
/// A query is its query string. Two queries are equal where their strings are.
#[derive(Debug, Clone)]
pub struct Bgpq3Query {
    query_string: String,
}

impl View for Bgpq3Query {
    type V = Seq<char>;

    /// The query string, as it is handed to the tool.
    closed spec fn view(&self) -> Seq<char> {
        self.query_string@
    }
}

impl Bgpq3Query {
    /// Builds a query for an AS-SET. The name is taken as it is; no naming
    /// rule is applied to it.
    pub fn as_set(as_set: &str) -> (query: Bgpq3Query)
        ensures
            query@ == as_set@,
    {
        Bgpq3Query { query_string: String::from_str(as_set) }
    }

    /// Builds a query for an AS number.
    pub fn asn(asn: u32) -> (query: Bgpq3Query)
        ensures
            query@ == asn_text(asn),
    {
        let mut query_string = String::from_str("AS");
        proof {
            reveal_strlit("AS");
        }
        assert(query_string@ =~= seq!['A', 'S']);
        push_decimal(&mut query_string, asn);
        Bgpq3Query { query_string }
    }

    /// The query string.
    pub fn as_str(&self) -> (text: &str)
        ensures
            text@ == self@,
    {
        self.query_string.as_str()
    }

    /// A copy of the query string.
    pub fn to_string(&self) -> (text: String)
        ensures
            text@ == self@,
    {
        self.query_string.clone()
    }

    /// Lays out the command line that runs this query with the binary that
    /// `settings` select, for IPv6 prefixes if `ipv6` is set and for IPv4
    /// prefixes otherwise.
    pub fn build_command(&self, settings: &Bgpq3Settings, ipv6: bool) -> (command: CommandLine)
        ensures
            command@ == command_line(settings@, self@, ipv6),
    {
        let program = String::from_str(settings.selected_version().bin_name());
        let mut args: Vec<String> = Vec::new();
        proof {
            reveal_strlit("-j");
            reveal_strlit("-6");
        }
        let json = String::from_str("-j");
        assert(json@ =~= json_flag());
        args.push(json);
        if ipv6 {
            let family = String::from_str("-6");
            assert(family@ =~= ipv6_flag());
            args.push(family);
        }
        args.push(self.query_string.clone());
        assert(texts(args@) =~= command_line(settings@, self@, ipv6).args);
        CommandLine::new(program, args)
    }
}

impl PartialEq for Bgpq3Query {
    fn eq(&self, other: &Bgpq3Query) -> (equal: bool) {
        self.query_string == other.query_string
    }
}

impl Eq for Bgpq3Query {

}

impl PartialEqSpecImpl for Bgpq3Query {
    open spec fn obeys_eq_spec() -> bool {
        true
    }

    /// Queries are compared by their query strings.
    open spec fn eq_spec(&self, other: &Bgpq3Query) -> bool {
        self@ == other@
    }
}

impl<'a> From<&'a str> for Bgpq3Query {
    /// The query for the AS-SET of that name.
    fn from(as_set: &'a str) -> (query: Bgpq3Query)
        ensures
            query@ == as_set@,
    {
        Bgpq3Query::as_set(as_set)
    }
}

impl<'a> FromSpecImpl<&'a str> for Bgpq3Query {
    /// A query is known by its text, which `from` states; which string
    /// holds the text is left open.
    open spec fn obeys_from_spec() -> bool {
        false
    }

    open spec fn from_spec(as_set: &'a str) -> Bgpq3Query {
        arbitrary()
    }
}

impl From<u32> for Bgpq3Query {
    /// The query for that AS number.
    fn from(asn: u32) -> (query: Bgpq3Query)
        ensures
            query@ == asn_text(asn),
    {
        Bgpq3Query::asn(asn)
    }
}

impl FromSpecImpl<u32> for Bgpq3Query {
    /// A query is known by its text, which `from` states; which string
    /// holds the text is left open.
    open spec fn obeys_from_spec() -> bool {
        false
    }

    open spec fn from_spec(asn: u32) -> Bgpq3Query {
        arbitrary()
    }
}

} // verus!
