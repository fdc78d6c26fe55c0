use rawcmd::Command;
use rawcmd::CommandSummary;
use rawcmd::Intent;

type Resolver = fn(Intent) -> Option<usize>;

fn resolver0(_: Intent) -> Option<usize> {
    Some(0)
}

fn resolver1(_: Intent) -> Option<usize> {
    Some(1)
}

#[test]
fn performs_command() {
    let app = Command::new("a").with_resolver(resolver0 as Resolver);
    assert_eq!(app.perform(vec![]), Some(0));
}

#[test]
fn performs_subcommand() {
    let app = Command::new("a")
        .with_subcommand(Command::new("b").with_resolver(resolver1 as Resolver))
        .with_resolver(resolver0 as Resolver);
    assert_eq!(app.perform(vec!["b".to_string()]), Some(1));
}

#[test]
fn builds_summary() {
    let app: Command<Resolver> = Command::new("name").with_description("description");
    assert_eq!(
        app.summarize(),
        CommandSummary::new("name", Some("description".to_string()))
    );
}
