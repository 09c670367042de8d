use forge::{
    Action, Category, Event, Forge, ForgeConfig, Format, InitialVersion, Line, Options, Phase,
    PlannedTest, RunSession, TestInfo, TestResult, TestSummary, Version,
};

fn info(name: &str, ignored: bool) -> TestInfo {
    TestInfo::new(name.to_string(), ignored)
}

fn names(tests: &[TestInfo]) -> Vec<String> {
    tests.iter().map(|t| t.name.clone()).collect()
}

fn render(lines: &[Line]) -> String {
    let mut out = String::new();
    for line in lines {
        let text = match line {
            Line::Blank => String::new(),
            Line::Running(n) => format!("running {} tests", n),
            Line::Verdict(name, ok) => {
                format!("test {} ... {}", name, if *ok { "ok" } else { "FAILED" })
            }
            Line::ErrorMessage(m) => format!("Error: {}", m),
            Line::FailuresHeader => "failures:".to_string(),
            Line::FailedName(n) => format!("    {}", n),
            Line::Outcome { success, passed, failed, filtered_out } => format!(
                "test result: {}. {} passed; {} failed; {} filtered out",
                if *success { "ok" } else { "FAILED" },
                passed,
                failed,
                filtered_out
            ),
            Line::Listed(n) => format!("{}: test", n),
            Line::TestCount(n) => format!("{} tests", n),
        };
        out.push_str(&text);
        out.push('\n');
    }
    out
}

fn network_forge(options: Options, tests: Vec<TestInfo>) -> Forge {
    Forge::new(options, ForgeConfig::new().with_network_tests(tests))
}

/// Drives a session to its end, answering each test with the next outcome.
fn drive(session: &mut RunSession, mut outcomes: Vec<TestResult>) -> (Vec<PlannedTest>, Action) {
    let mut ran = Vec::new();
    let mut action = session.next_action();
    outcomes.reverse();
    loop {
        action = match action {
            Action::LaunchSwarm => session.step(Event::SwarmReady),
            Action::RunTest(p) => {
                ran.push(p);
                let r = outcomes.pop().expect("an outcome for each test");
                session.step(Event::TestFinished(r, Vec::new()))
            }
            Action::PrintReport => session.step(Event::ReportPrinted),
            other => return (ran, other),
        };
    }
}

#[test]
fn ignored_filter_default_selects_not_ignored() {
    let forge = network_forge(Options::new(), vec![info("A", false), info("B", true)]);
    let all = forge.tests.all_tests();
    assert_eq!(names(&forge.filter_tests(&all)), vec!["A"]);
}

#[test]
fn ignored_filter_ignored_only() {
    let mut o = Options::new();
    o.ignored = true;
    let forge = network_forge(o, vec![info("A", false), info("B", true)]);
    let all = forge.tests.all_tests();
    assert_eq!(names(&forge.filter_tests(&all)), vec!["B"]);
}

#[test]
fn ignored_filter_include_ignored() {
    let mut o = Options::new();
    o.include_ignored = true;
    o.ignored = true;
    let forge = network_forge(o, vec![info("A", false), info("B", true)]);
    let all = forge.tests.all_tests();
    assert_eq!(names(&forge.filter_tests(&all)), vec!["A", "B"]);
}

#[test]
fn name_filter_substring() {
    let mut o = Options::new();
    o.filter = Some("alpha".to_string());
    let forge = network_forge(o, vec![info("alpha_test", false), info("beta_test", false)]);
    let all = forge.tests.all_tests();
    assert_eq!(names(&forge.filter_tests(&all)), vec!["alpha_test"]);
}

#[test]
fn name_filter_substring_in_the_middle() {
    let mut o = Options::new();
    o.filter = Some("ta_t".to_string());
    let forge = network_forge(o, vec![info("alpha_test", false), info("beta_test", false)]);
    let all = forge.tests.all_tests();
    assert_eq!(names(&forge.filter_tests(&all)), vec!["beta_test"]);
}

#[test]
fn name_filter_exact() {
    let mut o = Options::new();
    o.filter = Some("alpha_test".to_string());
    o.filter_exact = true;
    let forge = network_forge(o, vec![info("alpha_test", false), info("beta_test", false)]);
    let all = forge.tests.all_tests();
    assert_eq!(names(&forge.filter_tests(&all)), vec!["alpha_test"]);
}

#[test]
fn name_filter_exact_needs_whole_name() {
    let mut o = Options::new();
    o.filter = Some("alpha_test".to_string());
    o.filter_exact = true;
    let forge = network_forge(o, vec![info("alpha", false)]);
    let all = forge.tests.all_tests();
    assert!(forge.filter_tests(&all).is_empty());
}

#[test]
fn crash_does_not_stop_the_run() {
    let forge = network_forge(
        Options::new(),
        vec![info("one", false), info("two", false), info("three", false)],
    );
    let mut session = forge.start_run();
    let outcomes = vec![
        TestResult::Passed,
        TestResult::from_outcome(None),
        TestResult::from_outcome(Some(Ok(()))),
    ];
    let (ran, end) = drive(&mut session, outcomes);
    assert_eq!(ran.iter().map(|p| p.name.as_str()).collect::<Vec<_>>(), vec!["one", "two", "three"]);
    assert_eq!(end, Action::Exit(false));
    assert_eq!(session.summary.passed, 2);
    assert_eq!(session.summary.failed, vec!["two".to_string()]);
}

#[test]
fn literal_transcript() {
    let forge = network_forge(
        Options::new(),
        vec![info("Net1", false), info("Net2", false), info("Net3", false)],
    );
    let mut session = forge.start_run();
    let outcomes = vec![
        TestResult::from_outcome(Some(Ok(()))),
        TestResult::from_outcome(Some(Err("bad state".to_string()))),
        TestResult::from_outcome(None),
    ];
    let (_, end) = drive(&mut session, outcomes);
    assert_eq!(end, Action::Exit(false));
    let expected = "running 3 tests
test Net1 ... ok
test Net2 ... FAILED
Error: bad state
test Net3 ... FAILED

failures:
    Net2
    Net3

test result: FAILED. 1 passed; 2 failed; 0 filtered out";
    assert_eq!(render(&session.summary.lines).trim(), expected);
    assert_eq!(
        session.report.entries,
        vec!["Test Ok".to_string(), "Test Failed: bad state".to_string(), "Test Failed".to_string()]
    );
}

#[test]
fn list_is_repeatable_and_provisions_nothing() {
    let mut o = Options::new();
    o.list = true;
    let config = ForgeConfig::new()
        .with_admin_tests(vec![info("adm", false)])
        .with_aptos_tests(vec![info("apt", false), info("skip", true)])
        .with_network_tests(vec![info("net", false)]);
    let forge = Forge::new(o, config);
    let first = forge.list();
    let second = forge.list();
    assert_eq!(first, second);
    assert_eq!(render(&first), "apt: test\nadm: test\nnet: test\n\n3 tests\n");
}

#[test]
fn list_terse_has_no_count() {
    let mut o = Options::new();
    o.format = Format::Terse;
    let forge = network_forge(o, vec![info("n", false)]);
    assert_eq!(forge.list(), vec![Line::Listed("n".to_string())]);
}

#[test]
fn filter_twice_gives_the_same() {
    let mut o = Options::new();
    o.filter = Some("a".to_string());
    let forge = network_forge(o, vec![info("a1", false), info("b", false), info("a2", true), info("ca", false)]);
    let all = forge.tests.all_tests();
    let once = forge.filter_tests(&all);
    let again = forge.filter_tests(&all);
    let twice = forge.filter_tests(&once);
    assert_eq!(names(&once), vec!["a1", "ca"]);
    assert_eq!(names(&once), names(&again));
    assert_eq!(names(&once), names(&twice));
}

#[test]
fn counts_add_up_with_filtered_out() {
    let mut o = Options::new();
    o.filter = Some("x".to_string());
    let config = ForgeConfig::new()
        .with_aptos_tests(vec![info("x1", false), info("y", false)])
        .with_admin_tests(vec![info("x2", false)])
        .with_network_tests(vec![info("z", false), info("x3", false)]);
    let forge = Forge::new(o, config);
    let mut session = forge.start_run();
    assert_eq!(session.summary.filtered_out, 2);
    assert_eq!(session.summary.total, 5);
    let (ran, end) = drive(&mut session, vec![TestResult::Passed, TestResult::Failed, TestResult::Passed]);
    assert_eq!(end, Action::Exit(false));
    assert_eq!(
        ran,
        vec![
            PlannedTest { category: Category::Aptos, index: 0, name: "x1".to_string() },
            PlannedTest { category: Category::Admin, index: 0, name: "x2".to_string() },
            PlannedTest { category: Category::Network, index: 1, name: "x3".to_string() },
        ]
    );
    assert_eq!(session.summary.passed + session.summary.failed.len(), 3);
    assert_eq!(
        session.summary.lines.last(),
        Some(&Line::Blank)
    );
    assert!(session.summary.lines.contains(&Line::Outcome {
        success: false,
        passed: 2,
        failed: 1,
        filtered_out: 2
    }));
}

#[test]
fn empty_selection_skips_provisioning() {
    let forge = Forge::new(Options::new(), ForgeConfig::new());
    let session = forge.start_run();
    assert_eq!(session.phase, Phase::Done);
    assert_eq!(session.next_action(), Action::Exit(true));
    assert_eq!(
        render(&session.summary.lines),
        "\nrunning 0 tests\n\ntest result: ok. 0 passed; 0 failed; 0 filtered out\n\n"
    );
}

#[test]
fn all_passing_run_succeeds() {
    let forge = network_forge(Options::new(), vec![info("only", false)]);
    let mut session = forge.start_run();
    let (_, end) = drive(&mut session, vec![TestResult::Passed]);
    assert_eq!(end, Action::Exit(true));
}

#[test]
fn provisioning_failure_aborts() {
    let forge = network_forge(Options::new(), vec![info("only", false)]);
    let mut session = forge.start_run();
    assert_eq!(session.next_action(), Action::LaunchSwarm);
    assert_eq!(session.step(Event::SwarmFailed), Action::Abort);
    assert_eq!(session.phase, Phase::Aborted);
    assert_eq!(session.summary.lines.len(), 2);
}

#[test]
fn out_of_turn_event_changes_nothing() {
    let forge = network_forge(Options::new(), vec![info("only", false)]);
    let mut session = forge.start_run();
    assert_eq!(session.step(Event::ReportPrinted), Action::LaunchSwarm);
    assert_eq!(session.step(Event::TestFinished(TestResult::Passed, Vec::new())), Action::LaunchSwarm);
    assert_eq!(session.next, 0);
}

#[test]
fn test_notes_precede_the_outcome_in_the_report() {
    let forge = network_forge(Options::new(), vec![info("only", false)]);
    let mut session = forge.start_run();
    session.step(Event::SwarmReady);
    session.step(Event::TestFinished(TestResult::Passed, vec!["note".to_string()]));
    assert_eq!(session.report.entries, vec!["note".to_string(), "Test Ok".to_string()]);
    assert_eq!(session.phase, Phase::Reporting);
}

#[test]
fn result_texts() {
    assert_eq!(TestResult::Passed.text(), "Test Ok");
    assert_eq!(TestResult::Failed.text(), "Test Failed");
    assert_eq!(TestResult::FailedWithMsg("x".to_string()).text(), "Test Failed: x");
}

#[test]
fn summary_counts_and_verdicts() {
    let mut s = TestSummary::new(4, 1);
    s.write_starting_msg();
    s.handle_result("a".to_string(), TestResult::Passed);
    s.handle_result("b".to_string(), TestResult::FailedWithMsg("m".to_string()));
    assert!(!s.success());
    assert_eq!(
        s.lines,
        vec![
            Line::Blank,
            Line::Running(3),
            Line::Verdict("a".to_string(), true),
            Line::Verdict("b".to_string(), false),
            Line::ErrorMessage("m".to_string()),
        ]
    );
}

fn versions() -> Vec<Version> {
    vec![
        Version { rank: 3, name: "v3".to_string() },
        Version { rank: 1, name: "v1a".to_string() },
        Version { rank: 5, name: "v5a".to_string() },
        Version { rank: 1, name: "v1b".to_string() },
        Version { rank: 5, name: "v5b".to_string() },
    ]
}

#[test]
fn initial_version_oldest_is_first_least() {
    let forge = Forge::new(Options::new(), ForgeConfig::new());
    assert_eq!(forge.initial_version(&versions()).unwrap().name, "v1a");
}

#[test]
fn initial_version_newest_is_last_greatest() {
    let forge = Forge::new(Options::new(), ForgeConfig::new().with_initial_version(InitialVersion::Newest));
    assert_eq!(forge.initial_version(&versions()).unwrap().name, "v5b");
    assert_eq!(forge.genesis_version(&versions()).unwrap().name, "v5b");
}

#[test]
fn no_versions_offered() {
    let forge = Forge::new(Options::new(), ForgeConfig::new());
    assert!(forge.initial_version(&Vec::new()).is_none());
    assert!(forge.genesis_version(&Vec::new()).is_none());
}

#[test]
fn registry_builders() {
    let config = ForgeConfig::new();
    assert_eq!(config.initial_validator_count, 1);
    assert_eq!(config.initial_fullnode_count, 0);
    assert_eq!(config.initial_version, InitialVersion::Oldest);
    assert!(config.genesis_config.is_none());
    let config = config
        .with_initial_validator_count(4)
        .with_initial_fullnode_count(2)
        .with_genesis_module_bundle(vec![vec![1, 2]])
        .with_genesis_modules_path("mods".to_string())
        .with_aptos_tests(vec![info("a", false)])
        .with_admin_tests(vec![info("b", false), info("c", true)]);
    assert_eq!(config.initial_validator_count, 4);
    assert_eq!(config.initial_fullnode_count, 2);
    assert!(matches!(&config.genesis_config, Some(forge::GenesisConfig::Path(p)) if p == "mods"));
    assert_eq!(config.number_of_tests(), 3);
    assert_eq!(names(&config.all_tests()), vec!["a", "b", "c"]);
}

#[test]
fn registry_size_fits() {
    let config = ForgeConfig::new().with_network_tests(vec![info("a", false)]);
    assert!(config.count_fits());
}

#[test]
fn defaults() {
    assert_eq!(Format::default(), Format::Pretty);
    let config = ForgeConfig::default();
    assert_eq!(config.number_of_tests(), 0);
    assert_eq!(config.initial_validator_count, 1);
}
