//! The one configuration record, built at process start from
//! environment inputs by the surrounding program and passed by
//! reference into every component. Paths are plain text here; the
//! layout rules under the base directory are stated and proved.
use vstd::prelude::*;
use vstd::string::*;
use crate::version::{Version, spec_version_chars};

verus! {

/// Verbosity of command output.
#[derive(Clone, Copy, PartialEq, Eq, Structural, Debug)]
pub enum LogLevel {
    Quiet,
    ErrorsOnly,
    Info,
}

/// How ambient version files are discovered: only in the working
/// directory, or walking upward through its ancestors.
#[derive(Clone, Copy, PartialEq, Eq, Structural, Debug)]
pub enum VersionFileStrategy {
    Local,
    Recursive,
}

impl Default for VersionFileStrategy {
    fn default() -> (r: Self)
        ensures
            r == VersionFileStrategy::Local,
    {
        VersionFileStrategy::Local
    }
}

/// The configuration record.
pub struct NvcConfig {
    /// The release mirror, normalized URL text.
    pub node_dist_mirror: String,
    /// The root directory of installations, when overridden.
    pub base_dir: Option<String>,
    /// The architecture of the binaries to install.
    pub arch: String,
    pub multishell_path: Option<String>,
    pub log_level: LogLevel,
    pub version_file_strategy: VersionFileStrategy,
    pub corepack_enabled: bool,
    pub resolve_engines: bool,
}

/// The installations directory under a base directory.
pub open spec fn spec_installations_dir(base: Seq<char>) -> Seq<char> {
    base + "/node-versions"@
}

/// The aliases directory under a base directory.
pub open spec fn spec_aliases_dir(base: Seq<char>) -> Seq<char> {
    base + "/aliases"@
}

/// The `default` alias path under a base directory.
pub open spec fn spec_default_version_dir(base: Seq<char>) -> Seq<char> {
    base + "/aliases"@ + "/default"@
}

/// The directory one installed version occupies.
pub open spec fn spec_version_dir(base: Seq<char>, v: Version) -> Seq<char> {
    base + "/node-versions"@ + "/"@ + spec_version_chars(v)
}

/// The directory whose binaries go on `PATH` for a version: the
/// `bin` subdirectory on Unix-like targets, the installation root
/// elsewhere.
pub open spec fn spec_bin_dir(base: Seq<char>, v: Version, windows: bool) -> Seq<char> {
    if windows {
        spec_version_dir(base, v)
    } else {
        spec_version_dir(base, v) + "/bin"@
    }
}

impl NvcConfig {
    /// Builds the record from already-gathered environment inputs.
    pub fn new(
        node_dist_mirror: String,
        base_dir: Option<String>,
        arch: String,
        multishell_path: Option<String>,
        log_level: LogLevel,
        version_file_strategy: VersionFileStrategy,
        corepack_enabled: bool,
        resolve_engines: bool,
    ) -> (r: NvcConfig)
        ensures
            r.node_dist_mirror == node_dist_mirror,
            r.base_dir == base_dir,
            r.arch == arch,
            r.spec_multishell_path() == multishell_path,
            r.spec_log_level() == log_level,
            r.spec_version_file_strategy() == version_file_strategy,
            r.spec_corepack_enabled() == corepack_enabled,
            r.spec_resolve_engines() == resolve_engines,
    {
        NvcConfig {
            node_dist_mirror,
            base_dir,
            arch,
            multishell_path,
            log_level,
            version_file_strategy,
            corepack_enabled,
            resolve_engines,
        }
    }

    pub open spec fn spec_multishell_path(self) -> Option<String> {
        self.multishell_path
    }

    pub open spec fn spec_log_level(self) -> LogLevel {
        self.log_level
    }

    pub open spec fn spec_version_file_strategy(self) -> VersionFileStrategy {
        self.version_file_strategy
    }

    pub open spec fn spec_corepack_enabled(self) -> bool {
        self.corepack_enabled
    }

    pub open spec fn spec_resolve_engines(self) -> bool {
        self.resolve_engines
    }

    pub fn version_file_strategy(&self) -> (r: &VersionFileStrategy)
        ensures
            *r == self.spec_version_file_strategy(),
    {
        &self.version_file_strategy
    }

    pub fn corepack_enabled(&self) -> (r: bool)
        ensures
            r == self.spec_corepack_enabled(),
    {
        self.corepack_enabled
    }

    pub fn resolve_engines(&self) -> (r: bool)
        ensures
            r == self.spec_resolve_engines(),
    {
        self.resolve_engines
    }

    pub fn multishell_path(&self) -> (r: Option<&String>)
        ensures
            match r {
                Some(p) => self.spec_multishell_path() matches Some(q) && q@ == p@,
                None => self.spec_multishell_path() is None,
            },
    {
        match &self.multishell_path {
            None => None,
            Some(v) => Some(v),
        }
    }

    pub fn log_level(&self) -> (r: &LogLevel)
        ensures
            *r == self.spec_log_level(),
    {
        &self.log_level
    }

    /// The base directory: the explicit override when set, else the
    /// legacy home-directory location when the caller found it on
    /// disk, else the platform data directory. The caller supplies
    /// the latter two, already joined with the application's name,
    /// and must offer at least one of the three.
    pub fn base_dir_with_default(&self, legacy: Option<&String>, modern: Option<&String>) -> (r:
        String)
        requires
            self.base_dir is Some || legacy is Some || modern is Some,
        ensures
            match self.base_dir {
                Some(d) => r@ == d@,
                None => match legacy {
                    Some(d) => r@ == d@,
                    None => r@ == modern->0@,
                },
            },
    {
        match &self.base_dir {
            Some(d) => d.as_str().to_owned(),
            None => match legacy {
                Some(d) => d.as_str().to_owned(),
                None => match modern {
                    Some(d) => d.as_str().to_owned(),
                    None => {
                        proof {
                            assert(false);
                        }
                        String::new()
                    },
                },
            },
        }
    }

    /// The installations directory under `base`.
    pub fn installations_dir(&self, base: &str) -> (r: String)
        ensures
            r@ == spec_installations_dir(base@),
    {
        let mut s = base.to_owned();
        s.append("/node-versions");
        s
    }

    /// The `default` alias path under `base`.
    pub fn default_version_dir(&self, base: &str) -> (r: String)
        ensures
            r@ == spec_default_version_dir(base@),
    {
        let mut s = self.aliases_dir(base);
        s.append("/default");
        s
    }

    /// The aliases directory under `base`.
    pub fn aliases_dir(&self, base: &str) -> (r: String)
        ensures
            r@ == spec_aliases_dir(base@),
    {
        let mut s = base.to_owned();
        s.append("/aliases");
        s
    }

    /// The same record with another base-directory override.
    pub fn with_base_dir(self, base_dir: Option<String>) -> (r: Self)
        ensures
            r.base_dir == base_dir,
            r.node_dist_mirror == self.node_dist_mirror,
            r.arch == self.arch,
            r.spec_multishell_path() == self.spec_multishell_path(),
            r.spec_log_level() == self.spec_log_level(),
            r.spec_version_file_strategy() == self.spec_version_file_strategy(),
            r.spec_corepack_enabled() == self.spec_corepack_enabled(),
            r.spec_resolve_engines() == self.spec_resolve_engines(),
    {
        NvcConfig { base_dir, ..self }
    }
}

/// The directory one installed version occupies, under `base`.
pub fn version_dir(base: &str, v: &Version) -> (r: String)
    ensures
        r@ == spec_version_dir(base@, *v),
{
    let mut s = base.to_owned();
    s.append("/node-versions");
    s.append("/");
    let vs = v.v_str();
    s.append(vs.as_str());
    s
}

/// The directory whose binaries go on `PATH` for a version.
pub fn bin_dir(base: &str, v: &Version, windows: bool) -> (r: String)
    ensures
        r@ == spec_bin_dir(base@, *v, windows),
{
    let mut s = version_dir(base, v);
    if !windows {
        s.append("/bin");
    }
    s
}

} // verus!
