use crate::filter::kept;
use crate::runner::{Forge, PlannedTest};
use crate::summary::{footer_lines, result_text, SummaryView, TestReport, TestResult, TestSummary};
use vstd::prelude::*;

verus! {

/// Where a run stands.
#[derive(Clone, Copy, Debug, PartialEq, Eq, Structural)]
pub enum Phase {
    /// Waiting for the swarm to come up.
    Provisioning,
    /// Waiting for the planned test at `next` to finish.
    Executing,
    /// Every planned test has run; waiting for the report to be printed.
    Reporting,
    /// The summary is written; the run is over.
    Done,
    /// Provisioning failed; the run ends with that error, and no summary.
    Aborted,
}

/// What the driver of a run is asked to do next.
#[derive(Debug, PartialEq, Eq)]
pub enum Action {
    /// Resolve the versions and launch the swarm, then report `SwarmReady` or `SwarmFailed`.
    LaunchSwarm,
    /// Run this test in a fresh context of its category, then report `TestFinished`.
    RunTest(PlannedTest),
    /// Print the report (and, when a test failed, where the swarm's logs are), then
    /// report `ReportPrinted`.
    PrintReport,
    /// Exit: with success exactly when no test failed.
    Exit(bool),
    /// Exit with the provisioning error.
    Abort,
}

/// What the driver of a run reports back.
#[derive(Debug)]
pub enum Event {
    SwarmReady,
    SwarmFailed,
    /// The current test ended with this outcome, after writing these report entries.
    TestFinished(TestResult, Vec<String>),
    ReportPrinted,
}

/// One run of a forge's selected tests: the plan, how far it has got, and what it has recorded.
pub struct RunSession {
    pub plan: Vec<PlannedTest>,
    pub next: usize,
    pub phase: Phase,
    pub summary: TestSummary,
    pub report: TestReport,
}

impl RunSession {
    pub open spec fn wf(&self) -> bool {
        &&& self.next <= self.plan@.len()
        &&& self.plan@.len() < usize::MAX
        &&& self.summary@.recorded() == self.next
        &&& match self.phase {
            Phase::Provisioning => self.next == 0 && self.plan@.len() > 0,
            Phase::Executing => self.next < self.plan@.len(),
            Phase::Reporting | Phase::Done => self.next == self.plan@.len(),
            Phase::Aborted => self.next == 0,
        }
    }

    /// The action the session waits on in its phase.
    pub open spec fn pending(&self) -> Action {
        match self.phase {
            Phase::Provisioning => Action::LaunchSwarm,
            Phase::Executing => Action::RunTest(self.plan@[self.next as int]),
            Phase::Reporting => Action::PrintReport,
            Phase::Done => Action::Exit(self.summary@.failed.len() == 0),
            Phase::Aborted => Action::Abort,
        }
    }

    /// The action the session waits on.
    pub fn next_action(&self) -> (r: Action)
        requires
            self.wf(),
        ensures
            r == self.pending(),
    {
        match self.phase {
            Phase::Provisioning => Action::LaunchSwarm,
            Phase::Executing => {
                let p = &self.plan[self.next];
                Action::RunTest(PlannedTest { category: p.category, index: p.index, name: p.name.clone() })
            },
            Phase::Reporting => Action::PrintReport,
            Phase::Done => Action::Exit(self.summary.success()),
            Phase::Aborted => Action::Abort,
        }
    }

    /// Advances the run by one event. An event that does not answer the pending
    /// action leaves the session as it was.
    pub fn step(&mut self, event: Event) -> (r: Action)
        requires
            old(self).wf(),
        ensures
            final(self).wf(),
            final(self).plan == old(self).plan,
            r == final(self).pending(),
            match event {
                Event::SwarmReady => if old(self).phase == Phase::Provisioning {
                    *final(self) == (RunSession { phase: Phase::Executing, ..*old(self) })
                } else {
                    *final(self) == *old(self)
                },
                Event::SwarmFailed => if old(self).phase == Phase::Provisioning {
                    *final(self) == (RunSession { phase: Phase::Aborted, ..*old(self) })
                } else {
                    *final(self) == *old(self)
                },
                Event::TestFinished(res, notes) => if old(self).phase == Phase::Executing {
                    &&& final(self).next == old(self).next + 1
                    &&& final(self).phase == if old(self).next + 1 < old(self).plan@.len() {
                        Phase::Executing
                    } else {
                        Phase::Reporting
                    }
                    &&& final(self).summary@ == old(self).summary@.record(
                        old(self).plan@[old(self).next as int].name,
                        res,
                    )
                    &&& final(self).report.entries@.len() == old(self).report.entries@.len()
                        + notes@.len() + 1
                    &&& final(self).report.entries@.drop_last() == old(self).report.entries@
                        + notes@
                    &&& final(self).report.entries@.last()@ == result_text(res)
                } else {
                    *final(self) == *old(self)
                },
                Event::ReportPrinted => if old(self).phase == Phase::Reporting {
                    &&& final(self).phase == Phase::Done
                    &&& final(self).next == old(self).next
                    &&& final(self).report == old(self).report
                    &&& final(self).summary@ == (SummaryView {
                        lines: old(self).summary@.lines + footer_lines(
                            old(self).summary@.passed,
                            old(self).summary@.failed,
                            old(self).summary@.filtered_out,
                        ),
                        ..old(self).summary@
                    })
                } else {
                    *final(self) == *old(self)
                },
            },
    {
        match event {
            Event::SwarmReady => {
                if self.phase == Phase::Provisioning {
                    self.phase = Phase::Executing;
                }
            },
            Event::SwarmFailed => {
                if self.phase == Phase::Provisioning {
                    self.phase = Phase::Aborted;
                }
            },
            Event::TestFinished(res, notes) => {
                if self.phase == Phase::Executing {
                    self.report.report_all(&notes);
                    self.report.report_text(res.text());
                    let name = self.plan[self.next].name.clone();
                    self.summary.handle_result(name, res);
                    self.next = self.next + 1;
                    if self.next == self.plan.len() {
                        self.phase = Phase::Reporting;
                    }
                }
            },
            Event::ReportPrinted => {
                if self.phase == Phase::Reporting {
                    self.summary.write_summary();
                    self.phase = Phase::Done;
                }
            },
        }
        self.next_action()
    }
}

impl Forge {
    /// Starts a run of the selected tests: writes `running N tests` and plans the
    /// selected tests in execution order. With none selected it provisions nothing
    /// and writes the closing summary at once.
    pub fn start_run(&self) -> (r: RunSession)
        requires
            self.tests.all_view().len() < usize::MAX,
        ensures
            r.wf(),
            r.plan@ == self.plan_view(),
            r.next == 0,
            r.report.entries@.len() == 0,
            r.summary@.total == self.tests.all_view().len(),
            r.summary@.filtered_out == self.tests.all_view().len() - self.selected_view().len(),
            r.phase == if self.selected_view().len() == 0 {
                Phase::Done
            } else {
                Phase::Provisioning
            },
            r.summary@.lines == seq![
                crate::summary::Line::Blank,
                crate::summary::Line::Running(self.selected_view().len() as usize),
            ] + if self.selected_view().len() == 0 {
                footer_lines(0, Seq::empty(), r.summary@.filtered_out)
            } else {
                Seq::empty()
            },
    {
        proof {
            self.lemma_plan_is_selection();
        }
        let plan = self.plan();
        let total = self.tests.number_of_tests();
        let filtered_out = total - plan.len();
        let mut summary = TestSummary::new(total, filtered_out);
        summary.write_starting_msg();
        let phase = if plan.len() == 0 {
            summary.write_summary();
            Phase::Done
        } else {
            Phase::Provisioning
        };
        let r = RunSession { plan, next: 0, phase, summary, report: TestReport::new() };
        proof {
            if self.selected_view().len() != 0 {
                assert(r.summary@.lines =~= seq![
                    crate::summary::Line::Blank,
                    crate::summary::Line::Running(self.selected_view().len() as usize),
                ] + Seq::empty());
            }
        }
        r
    }

    /// Every run that ends has recorded each selected test exactly once: the tests
    /// that passed and those that failed add up to the tests that the filter keeps.
    pub proof fn lemma_finished_run_counts_selected(&self, s: RunSession)
        requires
            self.tests.all_view().len() < usize::MAX,
            s.wf(),
            s.plan@ == self.plan_view(),
            s.phase == Phase::Done,
        ensures
            kept(self.options, self.tests.all_view()).len() == s.summary@.passed
                + s.summary@.failed.len(),
    {
        self.lemma_plan_is_selection();
    }
}

} // verus!
