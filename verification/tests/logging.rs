use mihomo_tui::logging::bootstrap::{
    begin, Config, Diagnostics, FileSink, InitError, InstallOutcome, Layer, OpenOutcome, Start,
};
use mihomo_tui::logging::filter::{
    choose_filter, is_parse_safe, is_usable, project_level_var, resolve_filter, FilterChoice,
    FilterSource, LevelOverrides, UnusableFilter, FALLBACK_LEVEL, GENERIC_LEVEL_VAR,
    PROJECT_LEVEL_SUFFIX,
};

fn text(s: &str) -> Option<String> {
    Some(String::from(s))
}

fn overrides(project: Option<&str>, generic: Option<&str>) -> LevelOverrides {
    LevelOverrides { project: project.map(String::from), generic: generic.map(String::from) }
}

fn choice(source: FilterSource, directives: &str) -> FilterChoice {
    FilterChoice { source, directives: String::from(directives) }
}

fn unusable(source: FilterSource, directives: &str) -> UnusableFilter {
    UnusableFilter { source, directives: String::from(directives) }
}

fn file_sink(path: &str, filter: FilterChoice) -> Layer {
    Layer::File(FileSink {
        path: String::from(path),
        filter,
        with_file: true,
        with_line_number: true,
        with_target: false,
        with_ansi: false,
    })
}

#[test]
fn names_of_the_level_overrides() {
    assert_eq!(GENERIC_LEVEL_VAR, "RUST_LOG");
    assert_eq!(PROJECT_LEVEL_SUFFIX, "_LOG_LEVEL");
    assert_eq!(FALLBACK_LEVEL, "info");
    assert_eq!(project_level_var("MIHOMO_TUI"), "MIHOMO_TUI_LOG_LEVEL");
    assert_eq!(project_level_var(""), "_LOG_LEVEL");
}

#[test]
fn levels_and_targets_are_usable() {
    assert!(is_usable("info"));
    assert!(is_usable("INFO"));
    assert!(is_usable("trace"));
    assert!(is_usable("off"));
    assert!(is_usable("my_crate=debug"));
    assert!(is_usable("warn,my_crate::module=trace"));
    assert!(is_usable("my_crate[span{field=1}]=debug"));
    assert!(is_usable(""));
}

#[test]
fn malformed_directives_are_not_usable() {
    assert!(!is_usable("my_crate=loud"));
    assert!(!is_usable("info,my_crate=loud"));
    assert!(!is_usable("=="));
    assert!(!is_usable("[span"));
}

#[test]
fn directives_outside_ascii_are_usable() {
    assert!(is_usable("caf\u{e9}=debug"));
    assert!(is_usable("caf\u{e9}"));
    assert!(is_usable("\u{e9}=debug"));
    assert!(is_usable("warn,caf\u{e9}::\u{4e16}=trace"));
    assert!(is_usable("caf\u{e9}[span{field=1}]=debug"));
    assert!(!is_usable("caf\u{e9}=loud"));
}

#[test]
fn directives_that_the_parser_would_cut_inside_a_character_are_not_usable() {
    assert!(!is_usable(" \u{e9}=debug"));
    assert!(!is_usable("info,\u{3000}\u{4e16}=trace"));
    assert!(!is_usable("\u{a0}x=debug"));
    assert!(!is_usable("info,\tcaf\u{e9}=debug"));
}

#[test]
fn parse_safety_goes_piece_by_piece() {
    assert!(is_parse_safe(""));
    assert!(is_parse_safe("info"));
    assert!(is_parse_safe(" info"));
    assert!(is_parse_safe("a=debug, b=info"));
    assert!(is_parse_safe("caf\u{e9}"));
    assert!(is_parse_safe("caf\u{e9} "));
    assert!(is_parse_safe("\u{e9} ,b"));
    assert!(is_parse_safe("caf\u{e9}=debug, info"));
    assert!(is_parse_safe(",,caf\u{e9},,"));
    assert!(!is_parse_safe(" caf\u{e9}"));
    assert!(!is_parse_safe("a,\u{a0}b"));
    assert!(!is_parse_safe("a,\tb\u{e9}"));
    assert!(!is_parse_safe("\u{3000}"));
    assert!(!is_parse_safe("a, b,\n\u{4e16}"));
}

#[test]
fn white_space_after_a_comma_does_not_spoil_other_pieces() {
    assert!(is_usable("caf\u{e9}=debug, info"));
    assert!(is_usable("caf\u{e9}=debug, other"));
}

#[test]
fn parser_has_the_last_word_on_text_it_can_be_shown() {
    assert!(is_parse_safe("my_crate=debug, other=info"));
    assert!(!is_usable("my_crate=debug, other=info"));
    assert!(is_parse_safe("caf\u{e9}=loud"));
    assert!(!is_usable("caf\u{e9}=loud"));
}

#[test]
fn bootstrap_without_destination_is_disabled() {
    let config = Config { log_file: None, log_level: None };
    assert_eq!(begin(&config), Start::Disabled);
    let with_level = Config { log_file: None, log_level: text("debug") };
    assert_eq!(begin(&with_level), Start::Disabled);
    let with_bad_level = Config { log_file: None, log_level: text("my_crate=loud") };
    assert_eq!(begin(&with_bad_level), Start::Disabled);
}

#[test]
fn bootstrap_without_destination_leaves_the_state_alone() {
    let mut diagnostics = Diagnostics::new();
    let config = Config { log_file: None, log_level: None };
    assert_eq!(begin(&config), Start::Disabled);
    assert!(!diagnostics.is_initialized());
    assert_eq!(diagnostics.complete(InstallOutcome::Installed), Ok(()));
    assert_eq!(begin(&config), Start::Disabled);
    assert!(diagnostics.is_initialized());
}

#[test]
fn bootstrap_with_destination_opens_it_for_appending() {
    let config = Config { log_file: text("/var/log/app.log"), log_level: None };
    assert_eq!(
        begin(&config),
        Start::Open { path: String::from("/var/log/app.log"), create: true, append: true }
    );
}

#[test]
fn project_override_wins_over_everything() {
    let resolution = resolve_filter(&overrides(Some("trace"), Some("warn")), &text("error"));
    assert_eq!(resolution, Ok(choice(FilterSource::ProjectOverride, "trace")));
}

#[test]
fn generic_override_wins_over_the_configured_level() {
    let resolution = resolve_filter(&overrides(None, Some("warn")), &text("error"));
    assert_eq!(resolution, Ok(choice(FilterSource::GenericOverride, "warn")));
}

#[test]
fn configured_level_wins_without_overrides() {
    let resolution = resolve_filter(&overrides(None, None), &text("error"));
    assert_eq!(resolution, Ok(choice(FilterSource::Configured, "error")));
}

#[test]
fn fallback_level_is_info() {
    let resolution = resolve_filter(&overrides(None, None), &None);
    assert_eq!(resolution, Ok(choice(FilterSource::Fallback, "info")));
}

#[test]
fn unusable_project_override_is_passed_over() {
    let resolution =
        resolve_filter(&overrides(Some("my_crate=loud"), Some("warn")), &text("error"));
    assert_eq!(resolution, Ok(choice(FilterSource::GenericOverride, "warn")));
}

#[test]
fn unusable_overrides_leave_the_configured_level() {
    let resolution = resolve_filter(&overrides(Some("=="), Some("[span")), &text("debug"));
    assert_eq!(resolution, Ok(choice(FilterSource::Configured, "debug")));
    let fallback = resolve_filter(&overrides(Some("=="), Some("[span")), &None);
    assert_eq!(fallback, Ok(choice(FilterSource::Fallback, "info")));
}

#[test]
fn override_outside_ascii_wins() {
    let project =
        resolve_filter(&overrides(Some("caf\u{e9}=debug"), Some("warn")), &text("error"));
    assert_eq!(project, Ok(choice(FilterSource::ProjectOverride, "caf\u{e9}=debug")));
    let generic = resolve_filter(&overrides(None, Some("caf\u{e9}")), &text("error"));
    assert_eq!(generic, Ok(choice(FilterSource::GenericOverride, "caf\u{e9}")));
}

#[test]
fn override_that_cannot_be_parsed_safely_is_passed_over() {
    let resolution = resolve_filter(&overrides(Some(" \u{e9}=debug"), None), &text("warn"));
    assert_eq!(resolution, Ok(choice(FilterSource::Configured, "warn")));
}

#[test]
fn empty_override_counts_as_set() {
    let resolution = resolve_filter(&overrides(Some(""), Some("warn")), &text("error"));
    assert_eq!(resolution, Ok(choice(FilterSource::ProjectOverride, "")));
}

#[test]
fn unusable_configured_level_is_an_error() {
    let resolution = resolve_filter(&overrides(None, None), &text("my_crate=loud"));
    assert_eq!(resolution, Err(unusable(FilterSource::Configured, "my_crate=loud")));
    let after_overrides = resolve_filter(&overrides(Some("=="), Some("[span")), &text("x=y=z"));
    assert_eq!(after_overrides, Err(unusable(FilterSource::Configured, "x=y=z")));
}

#[test]
fn configured_level_outside_ascii_is_used() {
    let resolution = resolve_filter(&overrides(None, None), &text("caf\u{e9}=debug"));
    assert_eq!(resolution, Ok(choice(FilterSource::Configured, "caf\u{e9}=debug")));
    let diagnostics = Diagnostics::new();
    let plan = diagnostics.plan(
        String::from("app.log"),
        OpenOutcome::Opened,
        &overrides(None, None),
        &text("caf\u{e9}"),
        false,
    );
    assert_eq!(
        plan,
        Ok(vec![file_sink("app.log", choice(FilterSource::Configured, "caf\u{e9}")), Layer::SpanTrace])
    );
}

#[test]
fn unusable_configured_level_does_not_fall_back() {
    let resolution = resolve_filter(&overrides(None, None), &text(" \u{e9}=debug"));
    assert_eq!(resolution, Err(unusable(FilterSource::Configured, " \u{e9}=debug")));
    let malformed = resolve_filter(&overrides(None, None), &text("caf\u{e9}=loud"));
    assert_eq!(malformed, Err(unusable(FilterSource::Configured, "caf\u{e9}=loud")));
}

#[test]
fn choose_filter_takes_the_first_usable_source() {
    assert_eq!(
        choose_filter(text("a"), true, text("b"), true, text("c"), true),
        Ok(choice(FilterSource::ProjectOverride, "a"))
    );
    assert_eq!(
        choose_filter(text("a"), false, text("b"), true, text("c"), true),
        Ok(choice(FilterSource::GenericOverride, "b"))
    );
    assert_eq!(
        choose_filter(text("a"), false, text("b"), false, text("c"), true),
        Ok(choice(FilterSource::Configured, "c"))
    );
    assert_eq!(
        choose_filter(text("a"), false, text("b"), false, None, true),
        Ok(choice(FilterSource::Fallback, "info"))
    );
    assert_eq!(
        choose_filter(text("a"), false, text("b"), false, text("c"), false),
        Err(unusable(FilterSource::Configured, "c"))
    );
    assert_eq!(
        choose_filter(None, false, None, false, None, false),
        Err(unusable(FilterSource::Fallback, "info"))
    );
}

#[test]
fn choose_filter_ignores_the_verdict_on_an_unset_override() {
    assert_eq!(
        choose_filter(None, true, text("b"), true, text("c"), true),
        Ok(choice(FilterSource::GenericOverride, "b"))
    );
    assert_eq!(
        choose_filter(None, true, None, true, text("c"), true),
        Ok(choice(FilterSource::Configured, "c"))
    );
    assert_eq!(
        choose_filter(None, true, None, true, None, false),
        Err(unusable(FilterSource::Fallback, "info"))
    );
}

#[test]
fn release_plan_has_file_sink_and_span_trace() {
    let diagnostics = Diagnostics::new();
    let plan = diagnostics.plan(
        String::from("app.log"),
        OpenOutcome::Opened,
        &overrides(None, Some("warn")),
        &text("error"),
        false,
    );
    assert_eq!(
        plan,
        Ok(vec![
            file_sink("app.log", choice(FilterSource::GenericOverride, "warn")),
            Layer::SpanTrace,
        ])
    );
}

#[test]
fn debug_plan_adds_the_console() {
    let diagnostics = Diagnostics::new();
    let plan = diagnostics.plan(
        String::from("app.log"),
        OpenOutcome::Opened,
        &overrides(None, None),
        &None,
        true,
    );
    assert_eq!(
        plan,
        Ok(vec![
            file_sink("app.log", choice(FilterSource::Fallback, "info")),
            Layer::SpanTrace,
            Layer::Console,
        ])
    );
}

#[test]
fn file_sink_names_file_and_line_but_no_target_and_no_colour() {
    let diagnostics = Diagnostics::new();
    let plan = diagnostics
        .plan_with(
            String::from("app.log"),
            OpenOutcome::Opened,
            Ok(choice(FilterSource::Configured, "debug")),
            true,
        )
        .unwrap();
    match &plan[0] {
        Layer::File(sink) => {
            assert_eq!(sink.path, "app.log");
            assert_eq!(sink.filter, choice(FilterSource::Configured, "debug"));
            assert!(sink.with_file);
            assert!(sink.with_line_number);
            assert!(!sink.with_target);
            assert!(!sink.with_ansi);
        }
        other => panic!("the first layer is {:?}", other),
    }
    let files = plan.iter().filter(|layer| matches!(layer, Layer::File(_))).count();
    assert_eq!(files, 1);
}

#[test]
fn console_is_planned_in_debug_builds_only() {
    let diagnostics = Diagnostics::new();
    let filter = choice(FilterSource::Configured, "debug");
    let release = diagnostics
        .plan_with(String::from("app.log"), OpenOutcome::Opened, Ok(filter.clone()), false)
        .unwrap();
    assert!(!release.contains(&Layer::Console));
    let debug = diagnostics
        .plan_with(String::from("app.log"), OpenOutcome::Opened, Ok(filter), true)
        .unwrap();
    assert_eq!(debug.iter().filter(|layer| **layer == Layer::Console).count(), 1);
    assert_eq!(debug.last(), Some(&Layer::Console));
}

#[test]
fn failure_to_open_is_reported_with_the_path() {
    let diagnostics = Diagnostics::new();
    let plan = diagnostics.plan(
        String::from("/nowhere/app.log"),
        OpenOutcome::Failed { reason: String::from("No such file or directory") },
        &overrides(None, None),
        &None,
        true,
    );
    let error = plan.unwrap_err();
    assert_eq!(
        error,
        InitError::OpenFailed {
            path: String::from("/nowhere/app.log"),
            reason: String::from("No such file or directory"),
        }
    );
    assert_eq!(error.message(), "Fail to open file `/nowhere/app.log`");
}

#[test]
fn failure_to_open_comes_before_a_bad_filter() {
    let diagnostics = Diagnostics::new();
    let plan = diagnostics.plan(
        String::from("app.log"),
        OpenOutcome::Failed { reason: String::from("denied") },
        &overrides(None, None),
        &text("my_crate=loud"),
        false,
    );
    assert!(matches!(plan, Err(InitError::OpenFailed { .. })));
}

#[test]
fn bad_filter_is_fatal() {
    let diagnostics = Diagnostics::new();
    let plan = diagnostics.plan(
        String::from("app.log"),
        OpenOutcome::Opened,
        &overrides(None, None),
        &text("my_crate=loud"),
        false,
    );
    let error = plan.unwrap_err();
    assert_eq!(error, InitError::BadFilter(unusable(FilterSource::Configured, "my_crate=loud")));
    assert_eq!(error.message(), "No usable log filter in `my_crate=loud`");
}

#[test]
fn bad_filter_comes_before_the_state() {
    let mut diagnostics = Diagnostics::new();
    assert_eq!(diagnostics.complete(InstallOutcome::Installed), Ok(()));
    let plan = diagnostics.plan_with(
        String::from("app.log"),
        OpenOutcome::Opened,
        Err(unusable(FilterSource::Fallback, "info")),
        false,
    );
    assert_eq!(plan, Err(InitError::BadFilter(unusable(FilterSource::Fallback, "info"))));
}

#[test]
fn diagnostics_start_uninitialized() {
    assert!(!Diagnostics::new().is_initialized());
}

#[test]
fn installation_initializes() {
    let mut diagnostics = Diagnostics::new();
    assert_eq!(diagnostics.complete(InstallOutcome::Installed), Ok(()));
    assert!(diagnostics.is_initialized());
}

#[test]
fn second_bootstrap_fails() {
    let mut diagnostics = Diagnostics::new();
    let config = Config { log_file: text("app.log"), log_level: text("debug") };
    let path = match begin(&config) {
        Start::Open { path, .. } => path,
        Start::Disabled => panic!("a destination is configured"),
    };
    let plan = diagnostics.plan(
        path.clone(),
        OpenOutcome::Opened,
        &overrides(None, None),
        &config.log_level,
        false,
    );
    assert!(plan.is_ok());
    assert_eq!(diagnostics.complete(InstallOutcome::Installed), Ok(()));

    assert_eq!(
        begin(&config),
        Start::Open { path: String::from("app.log"), create: true, append: true }
    );
    let again = diagnostics.plan(
        path,
        OpenOutcome::Opened,
        &overrides(None, None),
        &config.log_level,
        false,
    );
    assert_eq!(again, Err(InitError::AlreadyInitialized));
    assert_eq!(diagnostics.complete(InstallOutcome::Installed), Err(InitError::AlreadyInitialized));
    assert!(diagnostics.is_initialized());
    assert_eq!(InitError::AlreadyInitialized.message(), "Diagnostics are already initialized");
}

#[test]
fn refused_installation_leaves_the_state_uninitialized() {
    let mut diagnostics = Diagnostics::new();
    let end = diagnostics.complete(InstallOutcome::Refused {
        reason: String::from("a global default trace dispatcher has already been set"),
    });
    let error = end.unwrap_err();
    assert_eq!(
        error,
        InitError::InstallRefused {
            reason: String::from("a global default trace dispatcher has already been set"),
        }
    );
    assert_eq!(
        error.message(),
        "Fail to install diagnostics: a global default trace dispatcher has already been set"
    );
    assert!(!diagnostics.is_initialized());
    assert_eq!(diagnostics.complete(InstallOutcome::Installed), Ok(()));
    assert!(diagnostics.is_initialized());
}

#[test]
fn refusal_after_installation_reports_the_earlier_installation() {
    let mut diagnostics = Diagnostics::new();
    assert_eq!(diagnostics.complete(InstallOutcome::Installed), Ok(()));
    let end = diagnostics.complete(InstallOutcome::Refused { reason: String::from("taken") });
    assert_eq!(end, Err(InitError::AlreadyInitialized));
    assert!(diagnostics.is_initialized());
}
