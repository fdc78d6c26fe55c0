use rawcmd::Command;
use rawcmd::Flag;
use rawcmd::Intent;
use rawcmd::ResolveError;

type Resolver = fn(Intent) -> Option<usize>;

fn resolver0(_: Intent) -> Option<usize> {
    Some(0)
}

fn resolver1(_: Intent) -> Option<usize> {
    Some(1)
}

fn never(_: Intent) -> Option<usize> {
    panic!("resolver must not be invoked");
}

fn check_root_summary(intent: Intent) -> Option<usize> {
    if intent.command().name().as_str() == "root" && intent.supcommands().is_empty() {
        Some(7)
    } else {
        None
    }
}

fn three_children() -> Command<Resolver> {
    Command::new("0")
        .with_subcommand(Command::new("1").with_resolver(resolver0 as Resolver))
        .with_subcommand(Command::new("2").with_resolver(resolver1 as Resolver))
        .with_subcommand(Command::new("3").with_resolver(resolver0 as Resolver))
        .with_resolver(resolver0 as Resolver)
}

#[test]
fn empty_args_invoke_root_resolver() {
    let app = Command::new("root").with_resolver(check_root_summary as Resolver);
    assert_eq!(app.run(vec![]), Ok(Some(7)));
}

#[test]
fn second_child_resolver_wins() {
    assert_eq!(three_children().perform(vec!["2".to_string()]), Some(1));
}

#[test]
fn nested_chain_matches_innermost() {
    let app = Command::new("top")
        .with_subcommand(
            Command::new("mid")
                .with_subcommand(Command::new("leaf").with_resolver(resolver1 as Resolver))
                .with_resolver(resolver0 as Resolver),
        )
        .with_resolver(resolver0 as Resolver);
    let args = vec!["mid".to_string(), "leaf".to_string()];
    assert_eq!(app.run(args), Ok(Some(1)));
}

#[test]
fn unknown_bare_token_stays_at_root() {
    assert_eq!(
        three_children().perform(vec!["nonesuch".to_string()]),
        Some(0)
    );
}

#[test]
fn missing_resolver_is_config_error() {
    let app: Command<Resolver> = Command::new("root");
    assert_eq!(app.run(vec![]), Err(ResolveError::Config));
}

#[test]
fn unmatched_flag_is_error_and_no_resolver_call() {
    let app = Command::new("root")
        .with_flag(Flag::new("known"))
        .with_resolver(never as Resolver);
    assert_eq!(
        app.run(vec!["--nope".to_string()]),
        Err(ResolveError::UnrecognizedFlag("--nope".to_string()))
    );
}

#[test]
fn resolving_twice_builds_equal_intents() {
    let app = three_children().with_flag(Flag::new("verbose").with_default_value("off"));
    let args = vec!["--verbose".to_string()];
    let first = app.build_intent(args.clone()).unwrap();
    let second = app.build_intent(args).unwrap();
    assert_eq!(first, second);
}

#[test]
fn error_messages_name_the_cause() {
    assert_eq!(ResolveError::Config.message(), "resolver not set");
    assert_eq!(
        ResolveError::UnrecognizedFlag("--nope".to_string()).message(),
        "unrecognized flag: --nope"
    );
}
