use rawcmd::Command;
use rawcmd::Flag;
use rawcmd::FlagSummary;
use rawcmd::Intent;

type Resolver = fn(Intent) -> Option<usize>;

fn resolver0(_: Intent) -> Option<usize> {
    Some(0)
}

fn config_app() -> Command<Resolver> {
    Command::new("app")
        .with_flag(
            Flag::new("config")
                .with_alias("c")
                .with_hint("path of the configuration file")
                .with_value(true),
        )
        .with_flag(Flag::new("verbose").with_default_value("off"))
        .with_resolver(resolver0 as Resolver)
}

fn summaries(app: &Command<Resolver>, args: Vec<String>) -> Vec<FlagSummary> {
    app.build_intent(args).unwrap().flags().clone()
}

#[test]
fn alias_with_value_token_is_provided() {
    let app = config_app();
    let flags = summaries(&app, vec!["-c".to_string(), "file.txt".to_string()]);
    assert_eq!(flags[0].name().as_str(), "config");
    assert!(flags[0].provided());
    assert_eq!(flags[0].value(), &Some("file.txt".to_string()));
}

#[test]
fn long_name_with_value_token_is_provided() {
    let app = config_app();
    let flags = summaries(&app, vec!["--config".to_string(), "file.txt".to_string()]);
    assert!(flags[0].provided());
    assert_eq!(flags[0].value(), &Some("file.txt".to_string()));
}

#[test]
fn absent_flags_fall_back_to_defaults() {
    let app = config_app();
    let flags = summaries(&app, vec![]);
    assert_eq!(flags.len(), 2);
    assert_eq!(flags[0].name().as_str(), "config");
    assert!(!flags[0].provided());
    assert_eq!(flags[0].value(), &None);
    assert_eq!(flags[1].name().as_str(), "verbose");
    assert!(!flags[1].provided());
    assert_eq!(flags[1].value(), &Some("off".to_string()));
    assert_eq!(flags[1].default_value(), &Some("off".to_string()));
}

#[test]
fn value_missing_at_end_of_input_keeps_default() {
    let app = Command::new("app")
        .with_flag(Flag::new("config").with_value(true).with_default_value("a.cfg"))
        .with_resolver(resolver0 as Resolver);
    let flags = summaries(&app, vec!["--config".to_string()]);
    assert!(flags[0].provided());
    assert_eq!(flags[0].value(), &Some("a.cfg".to_string()));
}

#[test]
fn flag_shaped_token_is_not_consumed_as_value() {
    let app = config_app();
    let args = vec!["--config".to_string(), "--verbose".to_string()];
    let flags = summaries(&app, args);
    assert!(flags[0].provided());
    assert_eq!(flags[0].value(), &None);
    assert!(flags[1].provided());
}

#[test]
fn later_occurrence_wins() {
    let app = config_app();
    let args = vec![
        "-c".to_string(),
        "first.txt".to_string(),
        "-c".to_string(),
        "second.txt".to_string(),
    ];
    let flags = summaries(&app, args);
    assert_eq!(flags[0].value(), &Some("second.txt".to_string()));
}

#[test]
fn boolean_switch_records_provided_only() {
    let app = config_app();
    let flags = summaries(&app, vec!["--verbose".to_string(), "extra".to_string()]);
    assert!(flags[1].provided());
    assert_eq!(flags[1].value(), &Some("off".to_string()));
    assert!(!flags[0].provided());
}

#[test]
fn flag_summary_reports_its_fields() {
    let summary = FlagSummary::with_name(
        "config",
        Some("c".to_string()),
        Some("a hint".to_string()),
        Some("given".to_string()),
        Some("fallback".to_string()),
        true,
        true,
    );
    assert_eq!(summary.name().as_str(), "config");
    assert_eq!(summary.alias(), &Some("c".to_string()));
    assert_eq!(summary.hint(), &Some("a hint".to_string()));
    assert_eq!(summary.value(), &Some("given".to_string()));
    assert_eq!(summary.default_value(), &Some("fallback".to_string()));
    assert!(summary.accepts_value());
    assert!(summary.provided());
}

#[test]
fn flag_builders_set_their_fields() {
    let flag = Flag::new("config")
        .with_alias("c")
        .with_hint("a hint")
        .with_default_value("fallback")
        .with_value(true);
    assert_eq!(flag.name().as_str(), "config");
    assert_eq!(flag.alias(), &Some("c".to_string()));
    assert_eq!(flag.hint(), &Some("a hint".to_string()));
    assert_eq!(flag.default_value(), &Some("fallback".to_string()));
    assert!(flag.accepts_value());
}
