use vstd::prelude::*;
use vstd::string::StringExecFns;

verus! {

/// The outcome of one test.
#[derive(Debug)]
pub enum TestResult {
    Passed,
    /// The test crashed.
    Failed,
    /// The test returned this error.
    FailedWithMsg(String),
}

/// The text that the report holds for an outcome.
pub open spec fn result_text(r: TestResult) -> Seq<char> {
    match r {
        TestResult::Passed => "Test Ok"@,
        TestResult::Failed => "Test Failed"@,
        TestResult::FailedWithMsg(msg) => "Test Failed: "@ + msg@,
    }
}

impl TestResult {
    /// Classifies how a test body ended: `None` when it crashed, otherwise what it returned.
    pub fn from_outcome(outcome: Option<Result<(), String>>) -> (r: TestResult)
        ensures
            outcome is None ==> r is Failed,
            outcome == Some(Ok::<(), String>(())) ==> r is Passed,
            forall|e: String| outcome == Some(Err::<(), String>(e)) ==> r == TestResult::FailedWithMsg(e),
    {
        match outcome {
            None => TestResult::Failed,
            Some(Ok(())) => TestResult::Passed,
            Some(Err(e)) => TestResult::FailedWithMsg(e),
        }
    }

    pub fn is_ok(&self) -> (r: bool)
        ensures
            r == (*self is Passed),
    {
        match self {
            TestResult::Passed => true,
            _ => false,
        }
    }

    /// The line that the report records for this outcome.
    pub fn text(&self) -> (r: String)
        ensures
            r@ == result_text(*self),
    {
        match self {
            TestResult::Passed => String::from_str("Test Ok"),
            TestResult::Failed => String::from_str("Test Failed"),
            TestResult::FailedWithMsg(msg) => String::from_str("Test Failed: ").concat(msg.as_str()),
        }
    }
}

/// One line of the console transcript. Its text is fixed by the variant:
/// `Running(n)` is `running n tests`, `Verdict(name, true)` is `test name ... ok`
/// (with `ok` in the pass colour) and `Verdict(name, false)` `test name ... FAILED`
/// (in the failure colour), `ErrorMessage(m)` is `Error: m`, `FailuresHeader` is
/// `failures:`, `FailedName(name)` is the name indented by four spaces,
/// `Outcome { .. }` is `test result: ok. P passed; F failed; K filtered out`
/// (`FAILED` in place of `ok` when `success` is false), `Listed(name)` is
/// `name: test` and `TestCount(n)` is `n tests`.
#[derive(Debug, PartialEq, Eq)]
pub enum Line {
    Blank,
    Running(usize),
    Verdict(String, bool),
    ErrorMessage(String),
    FailuresHeader,
    FailedName(String),
    Outcome { success: bool, passed: usize, failed: usize, filtered_out: usize },
    Listed(String),
    TestCount(usize),
}

/// The lines written for one recorded test.
pub open spec fn verdict_lines(name: String, r: TestResult) -> Seq<Line> {
    match r {
        TestResult::Passed => seq![Line::Verdict(name, true)],
        TestResult::Failed => seq![Line::Verdict(name, false)],
        TestResult::FailedWithMsg(msg) => seq![Line::Verdict(name, false), Line::ErrorMessage(msg)],
    }
}

/// The indented list of failed test names.
pub open spec fn failure_lines(failed: Seq<String>) -> Seq<Line> {
    failed.map_values(|n: String| Line::FailedName(n))
}

/// The closing lines: the failures, if any, then the result line.
pub open spec fn footer_lines(passed: nat, failed: Seq<String>, filtered_out: nat) -> Seq<Line> {
    let head = if failed.len() == 0 {
        Seq::empty()
    } else {
        seq![Line::Blank, Line::FailuresHeader] + failure_lines(failed)
    };
    head + seq![
        Line::Blank,
        Line::Outcome {
            success: failed.len() == 0,
            passed: passed as usize,
            failed: failed.len() as usize,
            filtered_out: filtered_out as usize,
        },
        Line::Blank,
    ]
}

/// Running counts of a suite and the transcript written so far.
pub struct TestSummary {
    pub total: usize,
    pub filtered_out: usize,
    pub passed: usize,
    /// Names of the failed tests, in execution order.
    pub failed: Vec<String>,
    /// The transcript, in the order it is written.
    pub lines: Vec<Line>,
}

pub struct SummaryView {
    pub total: nat,
    pub filtered_out: nat,
    pub passed: nat,
    pub failed: Seq<String>,
    pub lines: Seq<Line>,
}

impl SummaryView {
    /// The summary after recording `r` for the test `name`.
    pub open spec fn record(self, name: String, r: TestResult) -> SummaryView {
        SummaryView {
            passed: if r is Passed { self.passed + 1 } else { self.passed },
            failed: if r is Passed { self.failed } else { self.failed.push(name) },
            lines: self.lines + verdict_lines(name, r),
            ..self
        }
    }

    /// The number of tests recorded.
    pub open spec fn recorded(self) -> nat {
        self.passed + self.failed.len()
    }
}

impl View for TestSummary {
    type V = SummaryView;

    open spec fn view(&self) -> SummaryView {
        SummaryView {
            total: self.total as nat,
            filtered_out: self.filtered_out as nat,
            passed: self.passed as nat,
            failed: self.failed@,
            lines: self.lines@,
        }
    }
}

impl TestSummary {
    /// A summary of `total` tests of which `filtered_out` are not run.
    pub fn new(total: usize, filtered_out: usize) -> (r: TestSummary)
        ensures
            r@ == (SummaryView {
                total: total as nat,
                filtered_out: filtered_out as nat,
                passed: 0,
                failed: Seq::empty(),
                lines: Seq::empty(),
            }),
    {
        TestSummary { total, filtered_out, passed: 0, failed: Vec::new(), lines: Vec::new() }
    }

    /// Writes a blank line and `running N tests`, N being the tests not filtered out.
    pub fn write_starting_msg(&mut self)
        requires
            old(self).filtered_out <= old(self).total,
        ensures
            final(self)@ == (SummaryView {
                lines: old(self)@.lines + seq![
                    Line::Blank,
                    Line::Running((old(self).total - old(self).filtered_out) as usize),
                ],
                ..old(self)@
            }),
    {
        self.lines.push(Line::Blank);
        self.lines.push(Line::Running(self.total - self.filtered_out));
        proof {
            assert(final(self)@.lines =~= old(self)@.lines + seq![
                Line::Blank,
                Line::Running((old(self).total - old(self).filtered_out) as usize),
            ]);
        }
    }

    /// Counts the outcome of the test `name` and writes its verdict.
    pub fn handle_result(&mut self, name: String, result: TestResult)
        requires
            old(self)@.recorded() < usize::MAX,
        ensures
            final(self)@ == old(self)@.record(name, result),
    {
        match result {
            TestResult::Passed => {
                self.passed = self.passed + 1;
                self.lines.push(Line::Verdict(name, true));
            },
            TestResult::Failed => {
                self.failed.push(name.clone());
                self.lines.push(Line::Verdict(name, false));
            },
            TestResult::FailedWithMsg(msg) => {
                self.failed.push(name.clone());
                self.lines.push(Line::Verdict(name, false));
                self.lines.push(Line::ErrorMessage(msg));
            },
        }
        proof {
            assert(final(self)@.lines =~= old(self)@.record(name, result).lines);
        }
    }

    /// Writes the failed names, if any, and the result line.
    pub fn write_summary(&mut self)
        ensures
            final(self)@ == (SummaryView {
                lines: old(self)@.lines + footer_lines(
                    old(self)@.passed,
                    old(self)@.failed,
                    old(self)@.filtered_out,
                ),
                ..old(self)@
            }),
    {
        let ghost start = self.lines@;
        let ghost head: Seq<Line> = if self.failed.len() == 0 {
            Seq::empty()
        } else {
            seq![Line::Blank, Line::FailuresHeader] + failure_lines(self.failed@)
        };
        if self.failed.len() > 0 {
            self.lines.push(Line::Blank);
            self.lines.push(Line::FailuresHeader);
            let mut i: usize = 0;
            while i < self.failed.len()
                invariant
                    i <= self.failed@.len(),
                    self.failed@ == old(self).failed@,
                    self.passed == old(self).passed,
                    self.total == old(self).total,
                    self.filtered_out == old(self).filtered_out,
                    self.lines@ == start + seq![Line::Blank, Line::FailuresHeader]
                        + failure_lines(self.failed@.subrange(0, i as int)),
                decreases self.failed@.len() - i,
            {
                let name = self.failed[i].clone();
                self.lines.push(Line::FailedName(name));
                i += 1;
                assert(failure_lines(self.failed@.subrange(0, i as int)) =~= failure_lines(
                    self.failed@.subrange(0, i - 1),
                ).push(Line::FailedName(self.failed@[i - 1])));
            }
            assert(self.failed@.subrange(0, i as int) =~= self.failed@);
        }
        assert(self.lines@ =~= start + head);
        let success = self.failed.len() == 0;
        self.lines.push(Line::Blank);
        self.lines.push(
            Line::Outcome {
                success,
                passed: self.passed,
                failed: self.failed.len(),
                filtered_out: self.filtered_out,
            },
        );
        self.lines.push(Line::Blank);
        proof {
            assert(self.lines@ =~= start + footer_lines(
                old(self)@.passed,
                old(self)@.failed,
                old(self)@.filtered_out,
            ));
        }
    }

    /// No test has failed.
    pub fn success(&self) -> (r: bool)
        ensures
            r == (self@.failed.len() == 0),
    {
        self.failed.len() == 0
    }
}

/// Free-text narrative of a run: an append-only sequence of entries.
pub struct TestReport {
    pub entries: Vec<String>,
}

impl TestReport {
    pub fn new() -> (r: TestReport)
        ensures
            r.entries@.len() == 0,
    {
        TestReport { entries: Vec::new() }
    }

    /// Appends one entry.
    pub fn report_text(&mut self, text: String)
        ensures
            final(self).entries@ == old(self).entries@.push(text),
    {
        self.entries.push(text);
    }

    /// Appends each of `texts`, in order.
    pub fn report_all(&mut self, texts: &Vec<String>)
        ensures
            final(self).entries@ == old(self).entries@ + texts@,
    {
        let ghost start = self.entries@;
        let mut i: usize = 0;
        while i < texts.len()
            invariant
                i <= texts@.len(),
                self.entries@ == start + texts@.subrange(0, i as int),
            decreases texts@.len() - i,
        {
            self.entries.push(texts[i].clone());
            i += 1;
            assert(start + texts@.subrange(0, i as int) =~= (start + texts@.subrange(0, i - 1)).push(
                texts@[i - 1],
            ));
        }
        assert(texts@.subrange(0, i as int) =~= texts@);
    }
}

} // verus!
