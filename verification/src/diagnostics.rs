//! Probe output: merging the captured streams of `ping` and `traceroute`
//! and reading packet loss, latency and hop count out of their text.

use crate::config::LineSettings;
use crate::decimal::{decimal_string, decimal_text, parse_decimal, parse_decimal_spec, Millionths};
use crate::pattern::{last_capture, last_of, regex_groups, groups_view, search_groups};
use crate::text::{
    chars_of, contains, contains_from, first_token, line_views, lines_of, parse_u32, read_u32,
    scan_token, scan_whitespace, split_lines, strings_view, trim_start,
};
use vstd::prelude::*;
use vstd::utf8::{decode_utf8, valid_utf8};

verus! {

/// A packet loss of one hundred percent, in millionths of a percent.
pub const FULL_LOSS: u64 = 100_000_000;

/// A number, a percent sign, and the word `loss` or the words `packet loss`.
pub const LOSS_PATTERN: &'static str = r"(?P<loss>\d+(?:\.\d+)?)%\s*(?:packet\s+loss|loss)";

/// An equals sign and the round-trip times `min/avg/max`, as Unix `ping`
/// prints them; the group captures the average.
pub const UNIX_LATENCY_PATTERN: &'static str = r"= [\d\.]+/([\d\.]+)/[\d\.]+";

/// The labelled average that Windows `ping` prints.
pub const WINDOWS_LATENCY_PATTERN: &'static str = r"Average = (\d+)ms";

/// What one run of `ping` told.
#[derive(Debug)]
pub struct PingReport {
    /// Whether the process exited successfully.
    pub success: bool,
    /// Packet loss in percent, where the output names one.
    pub packet_loss_pct: Option<Millionths>,
    /// Average round-trip time in milliseconds, where the output names one.
    pub average_latency_ms: Option<Millionths>,
    /// Everything the process printed.
    pub raw_output: String,
}

/// What one run of `traceroute` told.
#[derive(Debug)]
pub struct TracerouteReport {
    /// Whether the process exited successfully.
    pub success: bool,
    /// The hop at which the target answered, or the furthest hop reached.
    pub hop_count: Option<u32>,
    /// Everything the process printed.
    pub raw_output: String,
}

impl PingReport {
    /// A packet loss, where present, is at most one hundred percent.
    pub open spec fn wf(self) -> bool {
        self.packet_loss_pct matches Some(loss) ==> loss.0 <= FULL_LOSS
    }
}

impl TracerouteReport {
    /// A hop count, where present, is at least one.
    pub open spec fn wf(self) -> bool {
        self.hop_count matches Some(hops) ==> hops >= 1
    }
}

/// The packet loss that a captured numeral stands for: its value, unless it
/// is no numeral or exceeds one hundred percent.
pub open spec fn packet_loss_of(captured: Option<Seq<char>>) -> Option<Millionths> {
    match captured {
        Some(numeral) => match parse_decimal_spec(numeral) {
            Some(loss) => if loss.0 <= FULL_LOSS {
                Some(loss)
            } else {
                None
            },
            None => None,
        },
        None => None,
    }
}

/// The latency that a captured numeral stands for.
pub open spec fn latency_of(captured: Option<Seq<char>>) -> Option<Millionths> {
    match captured {
        Some(numeral) => parse_decimal_spec(numeral),
        None => None,
    }
}

/// The packet loss told by the matches of [`LOSS_PATTERN`]: the last match
/// decides, and a loss that cannot be read or lies above one hundred percent
/// counts as unknown.
pub fn packet_loss_from_matches(found: &Option<Vec<Option<String>>>) -> (loss: Option<Millionths>)
    ensures
        loss == packet_loss_of(last_capture(groups_view(*found))),
        loss matches Some(value) ==> value.0 <= FULL_LOSS,
{
    match last_of(found) {
        Some(numeral) => match parse_decimal(numeral) {
            Some(loss) => if loss.0 <= FULL_LOSS {
                Some(loss)
            } else {
                None
            },
            None => None,
        },
        None => None,
    }
}

/// The latency told by the matches of one of the latency patterns: the last
/// match decides.
pub fn latency_from_matches(found: &Option<Vec<Option<String>>>) -> (latency: Option<Millionths>)
    ensures
        latency == latency_of(last_capture(groups_view(*found))),
{
    match last_of(found) {
        Some(numeral) => parse_decimal(numeral),
        None => None,
    }
}

/// The packet loss, in percent, that `output` reports.
///
/// Of all the places where a number is followed by a percent sign and the
/// word `loss`, the last one counts. The result is never above one hundred
/// percent.
pub fn extract_packet_loss(output: &str) -> (loss: Option<Millionths>)
    ensures
        loss == packet_loss_of(last_capture(regex_groups(LOSS_PATTERN@, output@, 1))),
        loss matches Some(value) ==> value.0 <= FULL_LOSS,
{
    let found = search_groups(LOSS_PATTERN, output, 1);
    packet_loss_from_matches(&found)
}

/// The average round-trip time, in milliseconds, that `output` reports.
///
/// The last `min/avg/max` triple behind an equals sign counts; where there
/// is none, or its average cannot be read, the last `Average = ..ms` does.
pub fn extract_average_latency(output: &str) -> (latency: Option<Millionths>)
    ensures
        latency == match latency_of(
            last_capture(regex_groups(UNIX_LATENCY_PATTERN@, output@, 1)),
        ) {
            Some(value) => Some(value),
            None => latency_of(last_capture(regex_groups(WINDOWS_LATENCY_PATTERN@, output@, 1))),
        },
{
    let unix = search_groups(UNIX_LATENCY_PATTERN, output, 1);
    match latency_from_matches(&unix) {
        Some(value) => Some(value),
        None => {
            let windows = search_groups(WINDOWS_LATENCY_PATTERN, output, 1);
            latency_from_matches(&windows)
        },
    }
}

/// The hop index that a line of `traceroute` output starts with: its first
/// whitespace-delimited token, read as a positive integer.
pub open spec fn line_hop(line: Seq<char>) -> Option<u32> {
    match parse_u32(first_token(line)) {
        Some(hop) => if hop >= 1 {
            Some(hop)
        } else {
            None
        },
        None => None,
    }
}

/// The line starts with a hop index and names `target` behind its leading
/// whitespace.
pub open spec fn reaches(line: Seq<char>, target: Seq<char>) -> bool {
    line_hop(line) is Some && contains(trim_start(line), target)
}

/// `hop` is the hop count that `lines` tell for `target`: the hop index of
/// the first line that names the target; without such a line, the hop index
/// of the last line that has one; nothing where no line has one.
pub open spec fn is_hop_count(lines: Seq<Seq<char>>, target: Seq<char>, hop: Option<u32>) -> bool {
    &&& forall|i: int|
        0 <= i < lines.len() && reaches(#[trigger] lines[i], target) && (forall|j: int|
            0 <= j < i ==> !reaches(#[trigger] lines[j], target)) ==> hop == line_hop(lines[i])
    &&& forall|i: int|
        0 <= i < lines.len() && line_hop(#[trigger] lines[i]) is Some && (forall|j: int|
            0 <= j < lines.len() ==> !reaches(#[trigger] lines[j], target)) && (forall|j: int|
            i < j < lines.len() ==> line_hop(#[trigger] lines[j]) is None) ==> hop == line_hop(
            lines[i],
        )
    &&& (forall|i: int| 0 <= i < lines.len() ==> line_hop(#[trigger] lines[i]) is None) ==> hop
        is None
}

/// The first of the first `bound` lines that names the target, where one of
/// them does.
proof fn first_reaching(lines: Seq<Seq<char>>, target: Seq<char>, bound: int) -> (first: int)
    requires
        0 <= bound <= lines.len(),
        exists|i: int| 0 <= i < bound && reaches(#[trigger] lines[i], target),
    ensures
        0 <= first < bound,
        reaches(lines[first], target),
        forall|j: int| 0 <= j < first ==> !reaches(#[trigger] lines[j], target),
    decreases bound,
{
    if exists|i: int| 0 <= i < bound - 1 && reaches(#[trigger] lines[i], target) {
        first_reaching(lines, target, bound - 1)
    } else {
        bound - 1
    }
}

/// The last of the lines from `from` on that has a hop index, where one of
/// them does.
proof fn last_with_hop(lines: Seq<Seq<char>>, from: int) -> (last: int)
    requires
        0 <= from <= lines.len(),
        exists|i: int| from <= i < lines.len() && line_hop(#[trigger] lines[i]) is Some,
    ensures
        from <= last < lines.len(),
        line_hop(lines[last]) is Some,
        forall|j: int| last < j < lines.len() ==> line_hop(#[trigger] lines[j]) is None,
    decreases lines.len() - from,
{
    if exists|i: int| from + 1 <= i < lines.len() && line_hop(#[trigger] lines[i]) is Some {
        last_with_hop(lines, from + 1)
    } else {
        from
    }
}

/// Lines tell one hop count for a target and no other.
pub proof fn lemma_hop_count_unique(
    lines: Seq<Seq<char>>,
    target: Seq<char>,
    a: Option<u32>,
    b: Option<u32>,
)
    requires
        is_hop_count(lines, target, a),
        is_hop_count(lines, target, b),
    ensures
        a == b,
{
    if exists|i: int| 0 <= i < lines.len() && reaches(#[trigger] lines[i], target) {
        let first = first_reaching(lines, target, lines.len() as int);
        assert(a == line_hop(lines[first]));
        assert(b == line_hop(lines[first]));
    } else if exists|i: int| 0 <= i < lines.len() && line_hop(#[trigger] lines[i]) is Some {
        let last = last_with_hop(lines, 0);
        assert(a == line_hop(lines[last]));
        assert(b == line_hop(lines[last]));
    }
}

/// The hop index that `line` starts with.
pub fn hop_of_line(line: &Vec<char>) -> (hop: Option<u32>)
    ensures
        hop == line_hop(line@),
{
    let from = scan_whitespace(line, 0);
    let to = scan_token(line, from);
    match read_u32(line, from, to) {
        Some(hop) => if hop >= 1 {
            Some(hop)
        } else {
            None
        },
        None => None,
    }
}

/// The number of hops to `target` that `output` reports.
///
/// Lines are read from the top. Only a line whose first token is a positive
/// integer counts, and that integer is its hop index. The first such line
/// that names `target` gives the result at once. Where no line names it, the
/// result is the hop index of the last line that has one, the furthest hop
/// reached; where no line has one, there is no result.
pub fn extract_hop_count(output: &str, target: &str) -> (hop: Option<u32>)
    ensures
        is_hop_count(lines_of(output@), target@, hop),
        hop matches Some(count) ==> count >= 1,
{
    let text = chars_of(output);
    let needle = chars_of(target);
    let lines = split_lines(&text);
    let ghost all = lines_of(output@);
    let mut last_seen: Option<u32> = None;
    let ghost mut last_at: int = -1;
    let mut k: usize = 0;
    while k < lines.len()
        invariant
            k <= lines.len(),
            all == line_views(lines@),
            all == lines_of(output@),
            needle@ == target@,
            forall|j: int| 0 <= j < k ==> !reaches(#[trigger] all[j], target@),
            last_seen is None ==> forall|j: int| 0 <= j < k ==> line_hop(#[trigger] all[j]) is None,
            last_seen is Some ==> 0 <= last_at < k && line_hop(all[last_at]) == last_seen
                && forall|j: int| last_at < j < k ==> line_hop(#[trigger] all[j]) is None,
        decreases lines.len() - k,
    {
        let line = &lines[k];
        assert(all[k as int] == line@);
        match hop_of_line(line) {
            Some(hop) => {
                let from = scan_whitespace(line, 0);
                if contains_from(line, from, &needle) {
                    assert(reaches(all[k as int], target@));
                    return Some(hop);
                }
                last_seen = Some(hop);
                proof {
                    last_at = k as int;
                }
            },
            None => {},
        }
        k += 1;
    }
    last_seen
}

/// The conventions by which `ping` and `traceroute` take their arguments.
#[derive(Clone, Copy, Debug, PartialEq, Eq, Structural)]
pub enum Platform {
    /// `ping -n <count> -w <milliseconds>` and `tracert -h <hops>`.
    Windows,
    /// `ping -c <count> -W <seconds>` and `traceroute -m <hops>`.
    Linux,
    /// `ping -c <count> -W <milliseconds>` and `traceroute -m <hops>`.
    Unix,
}

/// The name of the ping program.
pub open spec fn ping_command_name(platform: Platform) -> Seq<char> {
    "ping"@
}

/// The name of the route-tracing program.
pub open spec fn traceroute_command_name(platform: Platform) -> Seq<char> {
    match platform {
        Platform::Windows => "tracert"@,
        _ => "traceroute"@,
    }
}

/// A timeout in whole seconds: the milliseconds rounded up, and one second at
/// the least.
pub open spec fn timeout_seconds(timeout_ms: u64) -> nat {
    let rounded_up = timeout_ms / 1000 + if timeout_ms % 1000 == 0 {
        0nat
    } else {
        1nat
    };
    if rounded_up < 1 {
        1
    } else {
        rounded_up as nat
    }
}

/// The arguments with which `ping` probes `line`.
///
/// On Windows the count and the timeout in milliseconds are always given.
/// Elsewhere a timeout of zero is left out; Linux takes it in seconds.
pub open spec fn ping_args_spec(line: LineSettings, platform: Platform) -> Seq<Seq<char>> {
    let count = decimal_text(line.ping_count as nat);
    let millis = decimal_text(line.ping_timeout_ms as nat);
    match platform {
        Platform::Windows => seq!["-n"@, count, "-w"@, millis, line.target@],
        Platform::Linux => if line.ping_timeout_ms > 0 {
            seq![
                "-c"@,
                count,
                "-W"@,
                decimal_text(timeout_seconds(line.ping_timeout_ms)),
                line.target@,
            ]
        } else {
            seq!["-c"@, count, line.target@]
        },
        Platform::Unix => if line.ping_timeout_ms > 0 {
            seq!["-c"@, count, "-W"@, millis, line.target@]
        } else {
            seq!["-c"@, count, line.target@]
        },
    }
}

/// The arguments with which `traceroute` probes `line`: the hop limit, then
/// the target.
pub open spec fn traceroute_args_spec(line: LineSettings, platform: Platform) -> Seq<Seq<char>> {
    let hops = decimal_text(line.traceroute_max_hops as nat);
    match platform {
        Platform::Windows => seq!["-h"@, hops, line.target@],
        _ => seq!["-m"@, hops, line.target@],
    }
}

/// The program that pings.
pub fn ping_command(platform: Platform) -> (name: &'static str)
    ensures
        name@ == ping_command_name(platform),
{
    "ping"
}

/// The program that traces routes.
pub fn traceroute_command(platform: Platform) -> (name: &'static str)
    ensures
        name@ == traceroute_command_name(platform),
{
    match platform {
        Platform::Windows => "tracert",
        _ => "traceroute",
    }
}

/// The arguments with which `ping` probes `line` on `platform`.
pub fn ping_args(line: &LineSettings, platform: Platform) -> (args: Vec<String>)
    ensures
        strings_view(args@) == ping_args_spec(*line, platform),
{
    let mut args: Vec<String> = Vec::new();
    match platform {
        Platform::Windows => {
            args.push(String::from_str("-n"));
            args.push(decimal_string(line.ping_count as u64));
            args.push(String::from_str("-w"));
            args.push(decimal_string(line.ping_timeout_ms));
        },
        _ => {
            args.push(String::from_str("-c"));
            args.push(decimal_string(line.ping_count as u64));
            if line.ping_timeout_ms > 0 {
                args.push(String::from_str("-W"));
                let value: u64 = match platform {
                    Platform::Linux => {
                        let whole = line.ping_timeout_ms / 1000;
                        let seconds = if line.ping_timeout_ms % 1000 == 0 {
                            whole
                        } else {
                            whole + 1
                        };
                        if seconds < 1 {
                            1
                        } else {
                            seconds
                        }
                    },
                    _ => line.ping_timeout_ms,
                };
                args.push(decimal_string(value));
            }
        },
    }
    args.push(line.target.clone());
    assert(strings_view(args@) =~= ping_args_spec(*line, platform));
    args
}

/// The arguments with which `traceroute` probes `line` on `platform`.
pub fn traceroute_args(line: &LineSettings, platform: Platform) -> (args: Vec<String>)
    ensures
        strings_view(args@) == traceroute_args_spec(*line, platform),
{
    let mut args: Vec<String> = Vec::new();
    match platform {
        Platform::Windows => {
            args.push(String::from_str("-h"));
        },
        _ => {
            args.push(String::from_str("-m"));
        },
    }
    args.push(decimal_string(line.traceroute_max_hops as u64));
    args.push(line.target.clone());
    assert(strings_view(args@) =~= traceroute_args_spec(*line, platform));
    args
}

/// The text that `String::from_utf8_lossy` makes of `bytes`.
pub uninterp spec fn utf8_lossy(bytes: Seq<u8>) -> Seq<char>;

/// Decodes `bytes` with `String::from_utf8_lossy`.
///
/// Trusted: that the result is the one named by [`utf8_lossy`], and that
/// bytes which are valid UTF-8 decode to the text they encode.
#[verifier::external_body]
pub(crate) fn decode_lossy(bytes: &[u8]) -> (text: String)
    ensures
        text@ == utf8_lossy(bytes@),
        valid_utf8(bytes@) ==> text@ == decode_utf8(bytes@),
{
    String::from_utf8_lossy(bytes).into_owned()
}

/// Standard output first; then, where there is any error output, the error
/// output, on a line of its own.
pub open spec fn merged_output(out: Seq<char>, has_err: bool, err: Seq<char>) -> Seq<char> {
    if !has_err {
        out
    } else if out.len() > 0 && out.last() != '\n' {
        out + seq!['\n'] + err
    } else {
        out + err
    }
}

/// Joins the decoded streams of a process into one text.
///
/// Without error output the result is `out`. Otherwise `err` follows `out`,
/// after a line feed where `out` is not empty and does not end in one.
pub fn merge_streams(out: String, has_err: bool, err: &str) -> (body: String)
    ensures
        body@ == merged_output(out@, has_err, err@),
{
    let mut body = out;
    if has_err {
        let n = body.as_str().unicode_len();
        if n > 0 && body.as_str().get_char(n - 1) != '\n' {
            proof {
                reveal_strlit("\n");
            }
            body.append("\n");
            assert(body@ == out@ + seq!['\n']);
        }
        body.append(err);
    }
    body
}

/// Everything a process printed, as one text: its standard output, then its
/// standard error. Bytes that are not UTF-8 are replaced, not refused.
pub fn collect_output(stdout: &[u8], stderr: &[u8]) -> (body: String)
    ensures
        body@ == merged_output(utf8_lossy(stdout@), stderr@.len() > 0, utf8_lossy(stderr@)),
{
    let out = decode_lossy(stdout);
    if stderr.len() > 0 {
        let err = decode_lossy(stderr);
        merge_streams(out, true, err.as_str())
    } else {
        out
    }
}

/// The packet loss and the latency that the text `raw` reports for a `ping`
/// that exited with `success`.
pub open spec fn is_ping_report(report: PingReport, success: bool, raw: Seq<char>) -> bool {
    &&& report.success == success
    &&& report.raw_output@ == raw
    &&& report.packet_loss_pct == packet_loss_of(
        last_capture(regex_groups(LOSS_PATTERN@, raw, 1)),
    )
    &&& report.average_latency_ms == match latency_of(
        last_capture(regex_groups(UNIX_LATENCY_PATTERN@, raw, 1)),
    ) {
        Some(value) => Some(value),
        None => latency_of(last_capture(regex_groups(WINDOWS_LATENCY_PATTERN@, raw, 1))),
    }
}

/// The report of a `ping` that ran to its end: whether it exited with
/// success, what it printed, and what that output tells. Output that cannot
/// be read leaves a value out and fails nothing.
pub fn ping_report(success: bool, stdout: &[u8], stderr: &[u8]) -> (report: PingReport)
    ensures
        is_ping_report(
            report,
            success,
            merged_output(utf8_lossy(stdout@), stderr@.len() > 0, utf8_lossy(stderr@)),
        ),
        report.wf(),
{
    let raw_output = collect_output(stdout, stderr);
    let packet_loss_pct = extract_packet_loss(raw_output.as_str());
    let average_latency_ms = extract_average_latency(raw_output.as_str());
    PingReport { success, packet_loss_pct, average_latency_ms, raw_output }
}

/// The hop count that the text `raw` reports towards `target` for a
/// `traceroute` that exited with `success`.
pub open spec fn is_traceroute_report(
    report: TracerouteReport,
    target: Seq<char>,
    success: bool,
    raw: Seq<char>,
) -> bool {
    &&& report.success == success
    &&& report.raw_output@ == raw
    &&& is_hop_count(lines_of(raw), target, report.hop_count)
}

/// The report of a `traceroute` towards `target` that ran to its end.
pub fn traceroute_report(target: &str, success: bool, stdout: &[u8], stderr: &[u8]) -> (report:
    TracerouteReport)
    ensures
        is_traceroute_report(
            report,
            target@,
            success,
            merged_output(utf8_lossy(stdout@), stderr@.len() > 0, utf8_lossy(stderr@)),
        ),
        report.wf(),
{
    let raw_output = collect_output(stdout, stderr);
    let hop_count = extract_hop_count(raw_output.as_str(), target);
    TracerouteReport { success, hop_count, raw_output }
}

} // verus!
