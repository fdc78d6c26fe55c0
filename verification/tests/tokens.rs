use rawcmd::classify;
use rawcmd::flag_body;
use rawcmd::Command;
use rawcmd::Flag;
use rawcmd::Intent;
use rawcmd::TokenKind;

type Resolver = fn(Intent) -> Option<usize>;

fn resolver0(_: Intent) -> Option<usize> {
    Some(0)
}

#[test]
fn classifies_long_flags() {
    assert_eq!(classify("--config"), TokenKind::LongFlag);
    assert_eq!(classify("--"), TokenKind::LongFlag);
}

#[test]
fn classifies_short_flags() {
    assert_eq!(classify("-c"), TokenKind::ShortFlag);
    assert_eq!(classify("-"), TokenKind::ShortFlag);
}

#[test]
fn classifies_bare_tokens() {
    assert_eq!(classify("config"), TokenKind::Bare);
    assert_eq!(classify(""), TokenKind::Bare);
    assert_eq!(classify("a-b"), TokenKind::Bare);
}

#[test]
fn strips_the_marker() {
    assert_eq!(flag_body("--config"), "config");
    assert_eq!(flag_body("-c"), "c");
}

#[test]
fn command_getters_report_declarations() {
    let app: Command<Resolver> = Command::new("app")
        .with_description("an application")
        .with_flag(Flag::new("verbose"))
        .with_subcommand(Command::new("child"));
    assert_eq!(app.name().as_str(), "app");
    assert_eq!(app.description(), &Some("an application".to_string()));
    assert_eq!(app.flags().len(), 1);
    assert_eq!(app.flags()[0].name().as_str(), "verbose");
    assert_eq!(app.commands().len(), 1);
    assert_eq!(app.commands()[0].name().as_str(), "child");
}

#[test]
fn intent_getters_report_parts() {
    let app = Command::new("app")
        .with_subcommand(
            Command::new("child")
                .with_subcommand(Command::new("grandchild"))
                .with_resolver(resolver0 as Resolver),
        )
        .with_resolver(resolver0 as Resolver);
    let args = vec!["child".to_string()];
    let intent = app.build_intent(args.clone()).unwrap();
    assert_eq!(intent.args(), &args);
    assert_eq!(intent.command().name().as_str(), "child");
    assert_eq!(intent.supcommands().len(), 1);
    assert_eq!(intent.supcommands()[0].name().as_str(), "app");
    assert_eq!(intent.subcommands().len(), 1);
    assert_eq!(intent.subcommands()[0].name().as_str(), "grandchild");
    assert_eq!(intent.flags().len(), 0);
}
