//! Running the probes of every configured line, one after the other.

use crate::config::{Config, LineSettings};
use crate::decimal::Millionths;
use crate::diagnostics::{
    is_ping_report, is_traceroute_report, merged_output, ping_args, ping_args_spec, ping_command,
    ping_command_name, ping_report, traceroute_args, traceroute_args_spec, traceroute_command,
    traceroute_command_name, traceroute_report, utf8_lossy, PingReport, Platform,
    TracerouteReport,
};
use crate::text::strings_view;
use vstd::prelude::*;

verus! {

/// How a run is to be carried out.
#[derive(Clone, Copy, Debug)]
pub struct RunOptions {
    /// Leave out the route tracing and only ping.
    pub skip_traceroute: bool,
}

/// What the probes of one line told.
#[derive(Debug)]
pub struct LineResult {
    pub name: String,
    pub target: String,
    /// Packet loss, in percent, above which the line raises an alert.
    pub loss_threshold: Millionths,
    pub ping: PingReport,
    pub traceroute: Option<TracerouteReport>,
    /// Whether this run traced the route at all.
    pub traceroute_requested: bool,
}

impl LineResult {
    /// The reports are well formed, and a route was traced only where that
    /// was asked for.
    pub open spec fn wf(self) -> bool {
        &&& self.ping.wf()
        &&& self.traceroute matches Some(report) ==> report.wf() && self.traceroute_requested
    }
}

/// The two probes of a line.
#[derive(Clone, Copy, Debug, PartialEq, Eq, Structural)]
pub enum ProbeKind {
    Ping,
    Traceroute,
}

/// A probe that is to be run: the program and its arguments.
#[derive(Debug)]
pub struct ProbeRequest {
    pub kind: ProbeKind,
    /// The index of the line that the probe is for.
    pub line: usize,
    pub command: &'static str,
    pub args: Vec<String>,
}

/// What came of running a probe.
#[derive(Debug)]
pub enum ProbeOutcome {
    /// The process ran to its end. A failing exit status is no error of the
    /// run: it shows in the report.
    Exited { success: bool, stdout: Vec<u8>, stderr: Vec<u8> },
    /// The process could not be started at all.
    NotStarted,
}

/// A probe could not be started, which ends the run.
#[derive(Debug)]
pub struct RunError {
    pub kind: ProbeKind,
    /// The name of the line whose probe it was.
    pub line: String,
}

/// A run between two probes: the lines, the results of the lines that are
/// done, and what is known of the line in progress.
#[derive(Debug)]
pub struct LineRunner {
    lines: Vec<LineSettings>,
    skip_traceroute: bool,
    platform: Platform,
    results: Vec<LineResult>,
    ping: Option<PingReport>,
}

/// Where a run stands after a step.
#[derive(Debug)]
pub enum RunStep {
    /// A probe is to be run, and its outcome handed to
    /// [`LineRunner::advance`].
    Probe(LineRunner),
    /// Every line is done.
    Finished(Vec<LineResult>),
    /// A probe could not be started. There are no results.
    Failed(RunError),
}

/// `result` is the result of `line` in a run that skips the route tracing
/// or not: it carries the line's name, target and threshold, and has a
/// traceroute report exactly if the route was to be traced.
pub open spec fn result_is_for(result: LineResult, line: LineSettings, skip_traceroute: bool) -> bool {
    &&& result.name@ == line.name@
    &&& result.target@ == line.target@
    &&& result.loss_threshold == line.packet_loss_alert_threshold
    &&& result.traceroute_requested == !skip_traceroute
    &&& result.traceroute is Some <==> !skip_traceroute
    &&& result.wf()
}

/// The results of the lines that are done after a step.
pub open spec fn results_after(step: RunStep) -> Seq<LineResult> {
    match step {
        RunStep::Probe(runner) => runner.results(),
        RunStep::Finished(results) => results@,
        RunStep::Failed(_) => Seq::empty(),
    }
}

/// The probes that are still to be run after a step: none once the run is
/// finished or has failed.
pub open spec fn probes_left_after(step: RunStep) -> int {
    match step {
        RunStep::Probe(runner) => runner.probes_left(),
        _ => 0,
    }
}

/// What a run error says.
pub open spec fn run_error_text(kind: ProbeKind, line: Seq<char>) -> Seq<char> {
    match kind {
        ProbeKind::Ping => "Ping check failed for line '"@ + line + "'"@,
        ProbeKind::Traceroute => "Traceroute failed for line '"@ + line + "'"@,
    }
}

impl RunError {
    /// Names the probe that failed and its line.
    pub fn message(&self) -> (text: String)
        ensures
            text@ == run_error_text(self.kind, self.line@),
    {
        let mut text = match self.kind {
            ProbeKind::Ping => String::from_str("Ping check failed for line '"),
            ProbeKind::Traceroute => String::from_str("Traceroute failed for line '"),
        };
        text.append(self.line.as_str());
        text.append("'");
        text
    }
}

impl LineRunner {
    #[verifier::type_invariant]
    spec fn inv(self) -> bool {
        &&& self.results@.len() < self.lines@.len()
        &&& self.ping matches Some(report) ==> !self.skip_traceroute && report.wf()
        &&& forall|i: int|
            0 <= i < self.results@.len() ==> result_is_for(
                #[trigger] self.results@[i],
                self.lines@[i],
                self.skip_traceroute,
            )
    }

    /// The lines of the run, in their order.
    pub closed spec fn lines(self) -> Seq<LineSettings> {
        self.lines@
    }

    /// The results of the lines that are done.
    pub closed spec fn results(self) -> Seq<LineResult> {
        self.results@
    }

    /// The ping report of the line in progress, once its ping is done.
    pub closed spec fn ping_done(self) -> Option<PingReport> {
        self.ping
    }

    /// Whether the run leaves out the route tracing.
    pub closed spec fn skips_traceroute(self) -> bool {
        self.skip_traceroute
    }

    /// The conventions by which the run builds its commands.
    pub closed spec fn platform(self) -> Platform {
        self.platform
    }

    /// The probe that is to be run next: the ping of the line in progress,
    /// or its route tracing once the ping is done.
    pub open spec fn pending(self) -> ProbeKind {
        if self.ping_done() is Some {
            ProbeKind::Traceroute
        } else {
            ProbeKind::Ping
        }
    }

    /// The probes that are still to be run, the pending one among them: one
    /// for each line that is not done, or two where the route is traced too,
    /// less the ping of the line in progress once that is done.
    pub open spec fn probes_left(self) -> int {
        let lines_left = self.lines().len() - self.results().len();
        let begun: int = if self.ping_done() is Some {
            1
        } else {
            0
        };
        if self.skips_traceroute() {
            lines_left
        } else {
            2 * lines_left - begun
        }
    }

    /// Starts a run over the lines of `config`. Without lines the run is
    /// finished at once; otherwise the first line is to be pinged.
    pub fn start(config: Config, options: RunOptions, platform: Platform) -> (step: RunStep)
        ensures
            match step {
                RunStep::Probe(runner) => {
                    &&& config.lines@.len() > 0
                    &&& runner.lines() == config.lines@
                    &&& runner.results().len() == 0
                    &&& runner.ping_done() is None
                    &&& runner.skips_traceroute() == options.skip_traceroute
                    &&& runner.platform() == platform
                },
                RunStep::Finished(results) => config.lines@.len() == 0 && results@.len() == 0,
                RunStep::Failed(_) => false,
            },
            probes_left_after(step) == if options.skip_traceroute {
                config.lines@.len() as int
            } else {
                2 * config.lines@.len() as int
            },
    {
        if config.lines.len() == 0 {
            RunStep::Finished(Vec::new())
        } else {
            RunStep::Probe(
                LineRunner {
                    lines: config.lines,
                    skip_traceroute: options.skip_traceroute,
                    platform,
                    results: Vec::new(),
                    ping: None,
                },
            )
        }
    }

    /// The probe that is to be run next, with its program and arguments.
    pub fn request(&self) -> (probe: ProbeRequest)
        ensures
            probe.kind == self.pending(),
            probe.line == self.results().len(),
            probe.line < self.lines().len(),
            probe.command@ == match self.pending() {
                ProbeKind::Ping => ping_command_name(self.platform()),
                ProbeKind::Traceroute => traceroute_command_name(self.platform()),
            },
            strings_view(probe.args@) == match self.pending() {
                ProbeKind::Ping => ping_args_spec(
                    self.lines()[probe.line as int],
                    self.platform(),
                ),
                ProbeKind::Traceroute => traceroute_args_spec(
                    self.lines()[probe.line as int],
                    self.platform(),
                ),
            },
    {
        proof {
            use_type_invariant(self);
        }
        let index = self.results.len();
        let line = &self.lines[index];
        match self.ping {
            None => ProbeRequest {
                kind: ProbeKind::Ping,
                line: index,
                command: ping_command(self.platform),
                args: ping_args(line, self.platform),
            },
            Some(_) => ProbeRequest {
                kind: ProbeKind::Traceroute,
                line: index,
                command: traceroute_command(self.platform),
                args: traceroute_args(line, self.platform),
            },
        }
    }

    /// Takes the outcome of the probe that was to be run and says how the
    /// run goes on.
    ///
    /// A probe that could not be started ends the run with an error that
    /// names the probe and its line. A probe that ran to its end is turned
    /// into its report, whatever its exit status. After the ping of a line
    /// its route is traced, unless the run skips that; then the line is done,
    /// its result joins the others, and the next line is pinged. The run is
    /// finished when the last line is done.
    pub fn advance(self, outcome: ProbeOutcome) -> (step: RunStep)
        ensures
            match outcome {
                ProbeOutcome::NotStarted => {
                    &&& step matches RunStep::Failed(error)
                    &&& error.kind == self.pending()
                    &&& error.line@ == self.lines()[self.results().len() as int].name@
                },
                ProbeOutcome::Exited { success, stdout, stderr } => {
                    let raw = merged_output(
                        utf8_lossy(stdout@),
                        stderr@.len() > 0,
                        utf8_lossy(stderr@),
                    );
                    let line = self.lines()[self.results().len() as int];
                    let done = results_after(step);
                    if self.pending() == ProbeKind::Ping && !self.skips_traceroute() {
                        &&& step matches RunStep::Probe(next)
                        &&& next.results() == self.results()
                        &&& next.ping_done() matches Some(report)
                        &&& is_ping_report(report, success, raw)
                    } else {
                        &&& done.len() == self.results().len() + 1
                        &&& done.drop_last() == self.results()
                        &&& result_is_for(done.last(), line, self.skips_traceroute())
                        &&& match self.ping_done() {
                            Some(report) => {
                                &&& done.last().ping == report
                                &&& done.last().traceroute matches Some(traced)
                                &&& is_traceroute_report(traced, line.target@, success, raw)
                            },
                            None => is_ping_report(done.last().ping, success, raw),
                        }
                        &&& if done.len() == self.lines().len() {
                            step is Finished
                        } else {
                            step matches RunStep::Probe(next) && next.ping_done() is None
                        }
                    }
                },
            },
            step matches RunStep::Probe(next) ==> {
                &&& next.lines() == self.lines()
                &&& next.skips_traceroute() == self.skips_traceroute()
                &&& next.platform() == self.platform()
            },
            step matches RunStep::Finished(results) ==> {
                &&& results@.len() == self.lines().len()
                &&& forall|i: int|
                    0 <= i < results@.len() ==> result_is_for(
                        #[trigger] results@[i],
                        self.lines()[i],
                        self.skips_traceroute(),
                    )
            },
            self.probes_left() >= 1,
            outcome is Exited ==> probes_left_after(step) == self.probes_left() - 1,
    {
        proof {
            use_type_invariant(&self);
        }
        let LineRunner { lines, skip_traceroute, platform, results, ping } = self;
        let index = results.len();
        match outcome {
            ProbeOutcome::NotStarted => {
                let kind = match ping {
                    Some(_) => ProbeKind::Traceroute,
                    None => ProbeKind::Ping,
                };
                RunStep::Failed(RunError { kind, line: lines[index].name.clone() })
            },
            ProbeOutcome::Exited { success, stdout, stderr } => {
                match ping {
                    None => {
                        let report = ping_report(success, stdout.as_slice(), stderr.as_slice());
                        if skip_traceroute {
                            Self::complete(lines, skip_traceroute, platform, results, report, None)
                        } else {
                            RunStep::Probe(
                                LineRunner {
                                    lines,
                                    skip_traceroute,
                                    platform,
                                    results,
                                    ping: Some(report),
                                },
                            )
                        }
                    },
                    Some(report) => {
                        let traced = traceroute_report(
                            lines[index].target.as_str(),
                            success,
                            stdout.as_slice(),
                            stderr.as_slice(),
                        );
                        Self::complete(
                            lines,
                            skip_traceroute,
                            platform,
                            results,
                            report,
                            Some(traced),
                        )
                    },
                }
            },
        }
    }

    /// Closes the line in progress with its reports and moves on.
    fn complete(
        lines: Vec<LineSettings>,
        skip_traceroute: bool,
        platform: Platform,
        results: Vec<LineResult>,
        ping: PingReport,
        traceroute: Option<TracerouteReport>,
    ) -> (step: RunStep)
        requires
            results@.len() < lines@.len(),
            ping.wf(),
            traceroute is Some <==> !skip_traceroute,
            traceroute matches Some(report) ==> report.wf(),
            forall|i: int|
                0 <= i < results@.len() ==> result_is_for(
                    #[trigger] results@[i],
                    lines@[i],
                    skip_traceroute,
                ),
        ensures
            results_after(step).len() == results@.len() + 1,
            results_after(step).drop_last() == results@,
            result_is_for(
                results_after(step).last(),
                lines@[results@.len() as int],
                skip_traceroute,
            ),
            results_after(step).last().ping == ping,
            results_after(step).last().traceroute == traceroute,
            if results@.len() + 1 == lines@.len() {
                step is Finished
            } else {
                step matches RunStep::Probe(next) && next.ping_done() is None
            },
            step matches RunStep::Probe(next) ==> {
                &&& next.lines() == lines@
                &&& next.skips_traceroute() == skip_traceroute
                &&& next.platform() == platform
            },
            step matches RunStep::Finished(all) ==> {
                &&& all@.len() == lines@.len()
                &&& forall|i: int|
                    0 <= i < all@.len() ==> result_is_for(
                        #[trigger] all@[i],
                        lines@[i],
                        skip_traceroute,
                    )
            },
    {
        let mut results = results;
        let ghost before = results@;
        let line = &lines[results.len()];
        let result = LineResult {
            name: line.name.clone(),
            target: line.target.clone(),
            loss_threshold: line.packet_loss_alert_threshold,
            ping,
            traceroute,
            traceroute_requested: !skip_traceroute,
        };
        results.push(result);
        assert(results@.drop_last() == before);
        assert forall|i: int| 0 <= i < results@.len() implies result_is_for(
            #[trigger] results@[i],
            lines@[i],
            skip_traceroute,
        ) by {
            if i < before.len() {
                assert(results@[i] == before[i]);
            }
        }
        if results.len() == lines.len() {
            RunStep::Finished(results)
        } else {
            RunStep::Probe(LineRunner { lines, skip_traceroute, platform, results, ping: None })
        }
    }
}

} // verus!
