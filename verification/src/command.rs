use vstd::prelude::*;
use vstd::string::*;
use crate::version::Version;

verus! {

/// The text of each string of a list, in order.
pub open spec fn texts(strings: Seq<String>) -> Seq<Seq<char>> {
    Seq::new(strings.len(), |i: int| strings[i]@)
}

/// The option that asks the tool for JSON output.
pub open spec fn json_flag() -> Seq<char> {
    seq!['-', 'j']
}

/// The option that asks the tool for IPv6 prefixes.
pub open spec fn ipv6_flag() -> Seq<char> {
    seq!['-', '6']
}

/// What a command line consists of: the program and its arguments in order.
pub struct CommandLineView {
    pub program: Seq<char>,
    pub args: Seq<Seq<char>>,
}

/// The command line of one invocation of the tool.
///
/// The program is given by name and is found through the search path of
/// whoever spawns the process.
#[derive(Debug, Clone)]
pub struct CommandLine {
    program: String,
    args: Vec<String>,
}

impl View for CommandLine {
    type V = CommandLineView;

    closed spec fn view(&self) -> CommandLineView {
        CommandLineView { program: self.program@, args: texts(self.args@) }
    }
}

impl CommandLine {
    /// A command line of the given program and arguments.
    pub fn new(program: String, args: Vec<String>) -> (command: CommandLine)
        ensures
            command@.program == program@,
            command@.args == texts(args@),
    {
        CommandLine { program, args }
    }

    /// The name of the program to run.
    pub fn program(&self) -> (program: &str)
        ensures
            program@ == self@.program,
    {
        self.program.as_str()
    }

    /// The arguments to pass, in order.
    pub fn args(&self) -> (args: &Vec<String>)
        ensures
            texts(args@) == self@.args,
    {
        &self.args
    }
}

/// The command line that queries `query` with the binary of `version`:
/// `<binary> -j [-6] <query>`.
pub open spec fn command_line(version: Version, query: Seq<char>, ipv6: bool) -> CommandLineView {
    CommandLineView {
        program: version.bin_name_spec(),
        args: if ipv6 {
            seq![json_flag(), ipv6_flag(), query]
        } else {
            seq![json_flag(), query]
        },
    }
}

/// The shape of every command line: the query is the final argument and the
/// options stand before it; `-j` is always among the options, and `-6` is
/// among them exactly for an IPv6 query. A query that is not itself the text
/// `-6` therefore leaves `-6` out of the whole argument list of an IPv4 query.
pub proof fn lemma_command_line_shape(version: Version, query: Seq<char>, ipv6: bool)
    ensures
        command_line(version, query, ipv6).program == version.bin_name_spec(),
        command_line(version, query, ipv6).args.len() >= 2,
        command_line(version, query, ipv6).args.last() == query,
        command_line(version, query, ipv6).args.drop_last().contains(json_flag()),
        command_line(version, query, ipv6).args.drop_last().contains(ipv6_flag()) <==> ipv6,
        query != ipv6_flag() ==> (command_line(version, query, ipv6).args.contains(ipv6_flag())
            <==> ipv6),
{
    let args = command_line(version, query, ipv6).args;
    let options = args.drop_last();
    assert(json_flag()[1] == 'j');
    assert(ipv6_flag()[1] == '6');
    assert(options[0] == json_flag());
    if ipv6 {
        assert(options[1] == ipv6_flag());
        assert(args[1] == ipv6_flag());
    } else {
        assert(options =~= seq![json_flag()]);
    }
}

} // verus!
