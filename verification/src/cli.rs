//! The command line of the resolver, as data: what was asked for, what has
//! to be done for it, and how an error ends the process.

use crate::dist::DistOptions;
use crate::error::DistError;
use crate::text::{list_chars, opt_chars};
use vstd::prelude::*;
use vstd::string::*;

verus! {

/// The arguments of the command line.
#[derive(Clone, Debug, PartialEq, Eq)]
pub struct Cli {
    /// The cache directory to use in place of the default.
    pub cache_dir: Option<String>,
    /// No fetching from the network.
    pub offline: bool,
    pub command: Commands,
}

/// The commands.
#[derive(Clone, Debug, PartialEq, Eq)]
#[allow(inconsistent_fields)]
pub enum Commands {
    /// Resolve a reference and print its digest.
    Resolve { reference: String, json: bool },
    /// Pull a reference or a lockfile into the cache.
    Pull { reference: Option<String>, lock: Option<String>, json: bool },
    /// Manage the cache.
    Cache { command: CacheCommand },
    /// Log in; not available yet.
    Auth { command: AuthCommand },
}

/// The commands on the cache.
#[derive(Clone, Debug, PartialEq, Eq)]
pub enum CacheCommand {
    /// List the cached digests.
    Ls { json: bool },
    /// Remove cached digests.
    Rm { digests: Vec<String>, json: bool },
    /// Collect the entries that lack their artifact.
    Gc { json: bool },
}

/// The commands on logins.
#[derive(Clone, Debug, PartialEq, Eq)]
pub enum AuthCommand {
    Login { target: String },
}

/// How the process ends on an error: its exit code and what it prints.
#[derive(Clone, Debug, PartialEq, Eq)]
pub struct CliError {
    pub code: i32,
    pub message: String,
}

impl CliError {
    /// The end of the process for a resolver error: the error's exit code
    /// and its message.
    pub fn from_dist(err: DistError) -> (out: CliError)
        ensures
            out.code == err@.exit_code(),
            out.message@ == err@.message(),
    {
        CliError { code: err.exit_code(), message: err.message() }
    }
}

/// What a command asks the resolver to do.
#[derive(Clone, Debug, PartialEq, Eq)]
pub enum CliTask {
    Resolve { reference: String, json: bool },
    PullLock { lock: String, json: bool },
    PullReference { reference: String, json: bool },
    CacheLs { json: bool },
    CacheRm { digests: Vec<String>, json: bool },
    CacheGc { json: bool },
}

/// A [`CliTask`] as plain values.
pub enum CliTaskView {
    Resolve { reference: Seq<char>, json: bool },
    PullLock { lock: Seq<char>, json: bool },
    PullReference { reference: Seq<char>, json: bool },
    CacheLs { json: bool },
    CacheRm { digests: Seq<Seq<char>>, json: bool },
    CacheGc { json: bool },
}

impl View for CliTask {
    type V = CliTaskView;

    open spec fn view(&self) -> CliTaskView {
        match *self {
            CliTask::Resolve { reference, json } => CliTaskView::Resolve {
                reference: reference@,
                json,
            },
            CliTask::PullLock { lock, json } => CliTaskView::PullLock { lock: lock@, json },
            CliTask::PullReference { reference, json } => CliTaskView::PullReference {
                reference: reference@,
                json,
            },
            CliTask::CacheLs { json } => CliTaskView::CacheLs { json },
            CliTask::CacheRm { digests, json } => CliTaskView::CacheRm {
                digests: list_chars(digests@),
                json,
            },
            CliTask::CacheGc { json } => CliTaskView::CacheGc { json },
        }
    }
}

/// What ends a command before the resolver is asked: its exit code and
/// its message.
pub struct CliErrorView {
    pub code: int,
    pub message: Seq<char>,
}

/// What a command comes to. A pull takes the lockfile where one is
/// given, else the reference, and is a usage error without either. A
/// login is refused.
pub open spec fn task_spec(command: Commands) -> Result<CliTaskView, CliErrorView> {
    match command {
        Commands::Resolve { reference, json } => Ok(
            CliTaskView::Resolve { reference: reference@, json },
        ),
        Commands::Pull { reference, lock, json } => match lock {
            Some(lock) => Ok(CliTaskView::PullLock { lock: lock@, json }),
            None => match reference {
                Some(reference) => Ok(CliTaskView::PullReference { reference: reference@, json }),
                None => Err(
                    CliErrorView {
                        code: 2,
                        message: "pull requires either a reference or --lock"@,
                    },
                ),
            },
        },
        Commands::Cache { command } => match command {
            CacheCommand::Ls { json } => Ok(CliTaskView::CacheLs { json }),
            CacheCommand::Rm { digests, json } => Ok(
                CliTaskView::CacheRm { digests: list_chars(digests@), json },
            ),
            CacheCommand::Gc { json } => Ok(CliTaskView::CacheGc { json }),
        },
        Commands::Auth { command } => match command {
            AuthCommand::Login { target } => Err(
                CliErrorView {
                    code: 5,
                    message: "auth login for `"@ + target@
                        + "` is not implemented yet; stubbed for future store/repo"@,
                },
            ),
        },
    }
}

/// The view of a task or of the error in its place.
pub open spec fn task_view(res: Result<CliTask, CliError>) -> Result<CliTaskView, CliErrorView> {
    match res {
        Ok(t) => Ok(t@),
        Err(e) => Err(CliErrorView { code: e.code as int, message: e.message@ }),
    }
}

impl Commands {
    /// What the command asks the resolver to do, or how it ends at once.
    pub fn task(self) -> (res: Result<CliTask, CliError>)
        ensures
            task_view(res) == task_spec(self),
    {
        match self {
            Commands::Resolve { reference, json } => Ok(CliTask::Resolve { reference, json }),
            Commands::Pull { reference, lock, json } => match lock {
                Some(lock) => Ok(CliTask::PullLock { lock, json }),
                None => match reference {
                    Some(reference) => Ok(CliTask::PullReference { reference, json }),
                    None => Err(
                        CliError {
                            code: 2,
                            message: String::from_str("pull requires either a reference or --lock"),
                        },
                    ),
                },
            },
            Commands::Cache { command } => match command {
                CacheCommand::Ls { json } => Ok(CliTask::CacheLs { json }),
                CacheCommand::Rm { digests, json } => Ok(CliTask::CacheRm { digests, json }),
                CacheCommand::Gc { json } => Ok(CliTask::CacheGc { json }),
            },
            Commands::Auth { command } => match command {
                AuthCommand::Login { target } => Err(
                    CliError {
                        code: 5,
                        message: String::from_str("auth login for `").concat(
                            target.as_str(),
                        ).concat("` is not implemented yet; stubbed for future store/repo"),
                    },
                ),
            },
        }
    }
}

impl Cli {
    /// The resolver's options for these arguments. `default_cache_dir` is
    /// the cache directory to use where none is given, `default_offline`
    /// whether the environment asks for offline mode.
    pub fn options(&self, default_cache_dir: String, default_offline: bool) -> (opts: DistOptions)
        ensures
            opts.allow_tags,
            opts.offline == (self.offline || default_offline),
            opts.cache_dir@ == match opt_chars(self.cache_dir) {
                Some(dir) => dir,
                None => default_cache_dir@,
            },
    {
        let cache_dir = match &self.cache_dir {
            Some(dir) => dir.clone(),
            None => default_cache_dir,
        };
        DistOptions::new(cache_dir, self.offline || default_offline)
    }
}

/// A cache root: a directory, and the names that lead down from it.
#[derive(Clone, Debug, PartialEq, Eq)]
pub struct CacheRoot {
    /// The directory to start from.
    pub base: String,
    /// The names to go down from there, in order.
    pub below: Vec<String>,
}

/// A [`CacheRoot`] as plain values.
pub struct CacheRootView {
    pub base: Seq<char>,
    pub below: Seq<Seq<char>>,
}

impl View for CacheRoot {
    type V = CacheRootView;

    open spec fn view(&self) -> CacheRootView {
        CacheRootView { base: self.base@, below: list_chars(self.below@) }
    }
}

/// The default cache root. `override_dir` is what the environment names
/// as the cache directory, `home` what it names as the home of the
/// installation, `os_cache` the cache directory of the user's system. The
/// root is the named cache directory itself; else `cache/components`
/// under the installation's home; else `greentic/components` under the
/// user's cache directory; else `.greentic/cache/components`.
pub open spec fn default_root_spec(
    override_dir: Option<Seq<char>>,
    home: Option<Seq<char>>,
    os_cache: Option<Seq<char>>,
) -> CacheRootView {
    match override_dir {
        Some(dir) => CacheRootView { base: dir, below: Seq::empty() },
        None => match home {
            Some(home) => CacheRootView { base: home, below: seq!["cache"@, "components"@] },
            None => match os_cache {
                Some(dir) => CacheRootView { base: dir, below: seq!["greentic"@, "components"@] },
                None => CacheRootView {
                    base: ".greentic"@,
                    below: seq!["cache"@, "components"@],
                },
            },
        },
    }
}

/// Computes [`default_root_spec`].
pub fn default_cache_root(
    override_dir: Option<String>,
    home: Option<String>,
    os_cache: Option<String>,
) -> (root: CacheRoot)
    ensures
        root@ == default_root_spec(opt_chars(override_dir), opt_chars(home), opt_chars(os_cache)),
{
    let mut below: Vec<String> = Vec::new();
    let base = match override_dir {
        Some(dir) => dir,
        None => match home {
            Some(home) => {
                below.push(String::from_str("cache"));
                below.push(String::from_str("components"));
                home
            },
            None => match os_cache {
                Some(dir) => {
                    below.push(String::from_str("greentic"));
                    below.push(String::from_str("components"));
                    dir
                },
                None => {
                    below.push(String::from_str("cache"));
                    below.push(String::from_str("components"));
                    String::from_str(".greentic")
                },
            },
        },
    };
    let root = CacheRoot { base, below };
    assert(root@.below =~= default_root_spec(
        opt_chars(override_dir),
        opt_chars(home),
        opt_chars(os_cache),
    ).below);
    root
}

} // verus!
