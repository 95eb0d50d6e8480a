use vstd::prelude::*;
use crate::version::Version;

verus! {

/// Settings from which a [`Bgpq3`] wrapper is built.
///
/// The only option is the binary to invoke.
#[derive(Debug, Clone)]
pub struct Bgpq3Settings {
    version: Version,
}

impl View for Bgpq3Settings {
    type V = Version;

    /// The settings stand for the binary that they select.
    closed spec fn view(&self) -> Version {
        self.version
    }
}

impl Bgpq3Settings {
    pub fn new() -> (settings: Bgpq3Settings)
        ensures
            settings@ == Version::Bgpq3,
    {
        Bgpq3Settings { version: Version::Bgpq3 }
    }

    pub fn version(self, version: Version) -> (settings: Bgpq3Settings)
        ensures
            settings@ == version,
    {
        let mut settings = self;
        settings.version = version;
        settings
    }

    pub fn build(self) -> (wrapper: Bgpq3)
        ensures
            wrapper@ == self@,
    {
        Bgpq3::with_settings(&self)
    }

    /// The binary that these settings select.
    pub fn selected_version(&self) -> (version: Version)
        ensures
            version == self@,
    {
        self.version
    }
}

impl Default for Bgpq3Settings {
    fn default() -> (settings: Bgpq3Settings)
        ensures
            settings@ == Version::Bgpq3,
    {
        Bgpq3Settings::new()
    }
}

/// A wrapper around the `bgpq3` or `bgpq4` binary.
///
/// The default wrapper is made by [`Bgpq3::new`]; a custom one is built from
/// [`Bgpq3Settings`]. The wrapper holds its settings and nothing else, so it
/// can be cloned and used for any number of queries.
#[derive(Debug, Clone)]
pub struct Bgpq3 {
    settings: Bgpq3Settings,
}

impl View for Bgpq3 {
    type V = Version;

    /// A wrapper stands for the binary that it invokes.
    closed spec fn view(&self) -> Version {
        self.settings@
    }
}

impl Bgpq3 {
    /// Creates a wrapper with the default settings.
    pub fn new() -> (wrapper: Bgpq3)
        ensures
            wrapper@ == Version::Bgpq3,
    {
        Bgpq3::builder().build()
    }

    /// Creates a wrapper with bgpq3 as a backend.
    pub fn bgpq3() -> (wrapper: Bgpq3)
        ensures
            wrapper@ == Version::Bgpq3,
    {
        Bgpq3::builder().version(Version::Bgpq3).build()
    }

    /// Creates a wrapper with bgpq4 as a backend.
    pub fn bgpq4() -> (wrapper: Bgpq3)
        ensures
            wrapper@ == Version::Bgpq4,
    {
        Bgpq3::builder().version(Version::Bgpq4).build()
    }

    /// Creates the builder for a wrapper.
    pub fn builder() -> (settings: Bgpq3Settings)
        ensures
            settings@ == Version::Bgpq3,
    {
        Bgpq3Settings::new()
    }

    /// Creates a wrapper from settings, which stay with the caller.
    pub fn with_settings(settings: &Bgpq3Settings) -> (wrapper: Bgpq3)
        ensures
            wrapper@ == settings@,
    {
        Bgpq3 { settings: Bgpq3Settings { version: settings.version } }
    }

    /// The settings that this wrapper was built from.
    pub fn settings(&self) -> (settings: &Bgpq3Settings)
        ensures
            settings@ == self@,
    {
        &self.settings
    }
}

impl Default for Bgpq3 {
    fn default() -> (wrapper: Bgpq3)
        ensures
            wrapper@ == Version::Bgpq3,
    {
        Bgpq3::new()
    }
}

} // verus!
