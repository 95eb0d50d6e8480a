use vstd::prelude::*;

verus! {

/// Selects whether the `bgpq3` or the `bgpq4` binary is used.
///
/// `bgpq3` is the default; `bgpq4` is the maintained fork and should be
/// preferred where it is installed.
#[derive(Debug, Copy, Clone, PartialEq, Eq, Structural)]
pub enum Version {
    Bgpq3,
    Bgpq4,
}

impl Version {
    /// The name under which the selected binary is looked up in the search path.
    pub open spec fn bin_name_spec(self) -> Seq<char> {
        match self {
            Version::Bgpq3 => seq!['b', 'g', 'p', 'q', '3'],
            Version::Bgpq4 => seq!['b', 'g', 'p', 'q', '4'],
        }
    }

    pub fn bin_name(self) -> (name: &'static str)
        ensures
            name@ == self.bin_name_spec(),
    {
        match self {
            Version::Bgpq3 => {
                proof {
                    reveal_strlit("bgpq3");
                }
                assert("bgpq3"@ =~= Version::Bgpq3.bin_name_spec());
                "bgpq3"
            },
            Version::Bgpq4 => {
                proof {
                    reveal_strlit("bgpq4");
                }
                assert("bgpq4"@ =~= Version::Bgpq4.bin_name_spec());
                "bgpq4"
            },
        }
    }
}

impl Default for Version {
    fn default() -> (version: Version)
        ensures
            version == Version::Bgpq3,
    {
        Version::Bgpq3
    }
}

} // verus!
