use greentic_dist::cli::{
    default_cache_root, AuthCommand, CacheCommand, Cli, CliTask, Commands,
};

fn s(text: &str) -> String {
    text.to_string()
}

#[test]
fn resolve_and_cache_commands_become_tasks() {
    match (Commands::Resolve { reference: s("r"), json: true }).task() {
        Ok(CliTask::Resolve { reference, json }) => {
            assert_eq!(reference, "r");
            assert!(json);
        }
        other => panic!("unexpected task: {other:?}"),
    }
    match (Commands::Cache { command: CacheCommand::Ls { json: false } }).task() {
        Ok(CliTask::CacheLs { json }) => assert!(!json),
        other => panic!("unexpected task: {other:?}"),
    }
    match (Commands::Cache { command: CacheCommand::Gc { json: true } }).task() {
        Ok(CliTask::CacheGc { json }) => assert!(json),
        other => panic!("unexpected task: {other:?}"),
    }
    let rm = CacheCommand::Rm { digests: vec![s("a"), s("b")], json: false };
    match (Commands::Cache { command: rm }).task() {
        Ok(CliTask::CacheRm { digests, json }) => {
            assert_eq!(digests, vec![s("a"), s("b")]);
            assert!(!json);
        }
        other => panic!("unexpected task: {other:?}"),
    }
}

#[test]
fn pull_prefers_the_lockfile() {
    let both = Commands::Pull { reference: Some(s("r")), lock: Some(s("pack.lock")), json: false };
    match both.task() {
        Ok(CliTask::PullLock { lock, json }) => {
            assert_eq!(lock, "pack.lock");
            assert!(!json);
        }
        other => panic!("unexpected task: {other:?}"),
    }
    let one = Commands::Pull { reference: Some(s("r")), lock: None, json: true };
    match one.task() {
        Ok(CliTask::PullReference { reference, json }) => {
            assert_eq!(reference, "r");
            assert!(json);
        }
        other => panic!("unexpected task: {other:?}"),
    }
}

#[test]
fn pull_without_anything_is_a_usage_error() {
    let e = (Commands::Pull { reference: None, lock: None, json: false }).task().unwrap_err();
    assert_eq!(e.code, 2);
    assert_eq!(e.message, "pull requires either a reference or --lock");
}

#[test]
fn login_is_refused() {
    let login = Commands::Auth { command: AuthCommand::Login { target: s("store://x") } };
    let e = login.task().unwrap_err();
    assert_eq!(e.code, 5);
    assert_eq!(
        e.message,
        "auth login for `store://x` is not implemented yet; stubbed for future store/repo"
    );
}

#[test]
fn options_merge_arguments_and_defaults() {
    let command = || Commands::Cache { command: CacheCommand::Ls { json: false } };
    let cli = Cli { cache_dir: None, offline: false, command: command() };
    let opts = cli.options(s("/default"), false);
    assert_eq!(opts.cache_dir, "/default");
    assert!(!opts.offline);
    assert!(opts.allow_tags);
    let opts = cli.options(s("/default"), true);
    assert!(opts.offline);
    let cli = Cli { cache_dir: Some(s("/mine")), offline: true, command: command() };
    let opts = cli.options(s("/default"), false);
    assert_eq!(opts.cache_dir, "/mine");
    assert!(opts.offline);
}

#[test]
fn default_cache_root_by_precedence() {
    let root = default_cache_root(Some(s("/o")), Some(s("/h")), Some(s("/c")));
    assert_eq!((root.base.as_str(), root.below.len()), ("/o", 0));
    let root = default_cache_root(None, Some(s("/h")), Some(s("/c")));
    assert_eq!(root.base, "/h");
    assert_eq!(root.below, vec![s("cache"), s("components")]);
    let root = default_cache_root(None, None, Some(s("/c")));
    assert_eq!(root.base, "/c");
    assert_eq!(root.below, vec![s("greentic"), s("components")]);
    let root = default_cache_root(None, None, None);
    assert_eq!(root.base, ".greentic");
    assert_eq!(root.below, vec![s("cache"), s("components")]);
}
