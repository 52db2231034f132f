//! Classifying the results of a run against their thresholds and rendering
//! them as text.

use crate::decimal::{fixed2_text, lemma_fixed2_text_shape, push_fixed2, Millionths};
use crate::runner::LineResult;
use crate::text::{
    chars_of, copy_range, ends_lines, is_blank, is_digit, lemma_line_end_bounds,
    lemma_lines_of_concat, lemma_lines_of_single, lines_of, no_line_feed, scan_line,
    scan_whitespace,
};
use vstd::prelude::*;

verus! {

/// The alert status of one signal of a line.
#[derive(Clone, Copy, Debug, PartialEq, Eq, Structural)]
pub enum Status {
    /// The signal is present and within bounds.
    Good,
    /// The signal is bad, or a probe that was asked for gave none.
    Alert,
    /// The signal could not be determined.
    Unknown,
    /// The signal was not asked for.
    Skipped,
}

/// The word that stands for a status in the summary.
pub open spec fn status_label(status: Status) -> Seq<char> {
    match status {
        Status::Good => "OK"@,
        Status::Alert => "ALERT"@,
        Status::Unknown => "UNKNOWN"@,
        Status::Skipped => "SKIPPED"@,
    }
}

/// The ping of a line is in order exactly if the process exited with
/// success.
pub open spec fn ping_status_of(result: LineResult) -> Status {
    if result.ping.success {
        Status::Good
    } else {
        Status::Alert
    }
}

/// The packet loss of a line raises an alert exactly if it lies above the
/// line's threshold; a loss equal to the threshold is in order. A loss that
/// is not known is neither.
pub open spec fn loss_status_of(result: LineResult) -> Status {
    match result.ping.packet_loss_pct {
        Some(loss) => if loss.0 > result.loss_threshold.0 {
            Status::Alert
        } else {
            Status::Good
        },
        None => Status::Unknown,
    }
}

/// The route tracing of a line is skipped where it was not asked for; where
/// it was, it is in order exactly if there is a report of a process that
/// exited with success.
pub open spec fn traceroute_status_of(result: LineResult) -> Status {
    if !result.traceroute_requested {
        Status::Skipped
    } else {
        match result.traceroute {
            Some(report) => if report.success {
                Status::Good
            } else {
                Status::Alert
            },
            None => Status::Alert,
        }
    }
}

impl Status {
    /// The word that stands for this status in the summary.
    pub fn label(self) -> (word: &'static str)
        ensures
            word@ == status_label(self),
    {
        match self {
            Status::Good => "OK",
            Status::Alert => "ALERT",
            Status::Unknown => "UNKNOWN",
            Status::Skipped => "SKIPPED",
        }
    }
}

/// The status of a line's ping.
pub fn ping_status(result: &LineResult) -> (status: Status)
    ensures
        status == ping_status_of(*result),
{
    if result.ping.success {
        Status::Good
    } else {
        Status::Alert
    }
}

/// The status of a line's packet loss against its threshold.
pub fn loss_status(result: &LineResult) -> (status: Status)
    ensures
        status == loss_status_of(*result),
{
    match result.ping.packet_loss_pct {
        Some(loss) => if loss.0 > result.loss_threshold.0 {
            Status::Alert
        } else {
            Status::Good
        },
        None => Status::Unknown,
    }
}

/// The status of a line's route tracing.
pub fn traceroute_status(result: &LineResult) -> (status: Status)
    ensures
        status == traceroute_status_of(*result),
{
    if !result.traceroute_requested {
        Status::Skipped
    } else {
        match &result.traceroute {
            Some(report) => if report.success {
                Status::Good
            } else {
                Status::Alert
            },
            None => Status::Alert,
        }
    }
}

/// A packet loss as the summary shows it.
pub open spec fn loss_text(loss: Option<Millionths>) -> Seq<char> {
    match loss {
        Some(value) => fixed2_text(value.0 as nat) + "%"@,
        None => "n/a"@,
    }
}

/// A latency as the summary shows it.
pub open spec fn latency_text(latency: Option<Millionths>) -> Seq<char> {
    match latency {
        Some(value) => fixed2_text(value.0 as nat) + " ms"@,
        None => "n/a"@,
    }
}

/// What the summary tells of one result: its name and target, then the
/// status of its ping, its packet loss with status, its latency, and the
/// status of its route tracing.
pub open spec fn summary_body(result: LineResult) -> Seq<char> {
    "- "@ + result.name@ + " ("@ + result.target@ + "): ping="@ + status_label(
        ping_status_of(result),
    ) + ", loss="@ + loss_text(result.ping.packet_loss_pct) + " ("@ + status_label(
        loss_status_of(result),
    ) + "), latency="@ + latency_text(result.ping.average_latency_ms) + ", traceroute="@
        + status_label(traceroute_status_of(result))
}

/// The line of the summary that tells of one result, with its line feed.
pub open spec fn summary_line(result: LineResult) -> Seq<char> {
    summary_body(result) + seq!['\n']
}

/// The first line of every summary.
pub open spec fn summary_header() -> Seq<char> {
    "ICMPMolester summary"@
}

/// The lines of the summary that tell of `results`, in their order.
pub open spec fn summary_lines(results: Seq<LineResult>) -> Seq<char>
    decreases results.len(),
{
    if results.len() == 0 {
        Seq::empty()
    } else {
        summary_lines(results.drop_last()) + summary_line(results.last())
    }
}

/// The summary of a run: a header line, then one line for each result.
pub open spec fn summary_text(results: Seq<LineResult>) -> Seq<char> {
    summary_header() + seq!['\n'] + summary_lines(results)
}

fn loss_string(loss: Option<Millionths>) -> (text: String)
    ensures
        text@ == loss_text(loss),
{
    match loss {
        Some(value) => {
            let mut text = String::new();
            push_fixed2(&mut text, value);
            text.append("%");
            assert(text@ =~= loss_text(loss));
            text
        },
        None => String::from_str("n/a"),
    }
}

fn latency_string(latency: Option<Millionths>) -> (text: String)
    ensures
        text@ == latency_text(latency),
{
    match latency {
        Some(value) => {
            let mut text = String::new();
            push_fixed2(&mut text, value);
            text.append(" ms");
            assert(text@ =~= latency_text(latency));
            text
        },
        None => String::from_str("n/a"),
    }
}

fn summary_line_string(result: &LineResult) -> (line: String)
    ensures
        line@ == summary_line(*result),
{
    let loss = loss_string(result.ping.packet_loss_pct);
    let latency = latency_string(result.ping.average_latency_ms);
    let mut line = String::from_str("- ");
    line.append(result.name.as_str());
    line.append(" (");
    line.append(result.target.as_str());
    line.append("): ping=");
    line.append(ping_status(result).label());
    line.append(", loss=");
    line.append(loss.as_str());
    line.append(" (");
    line.append(loss_status(result).label());
    line.append("), latency=");
    line.append(latency.as_str());
    line.append(", traceroute=");
    line.append(traceroute_status(result).label());
    proof {
        reveal_strlit("\n");
    }
    line.append("\n");
    assert("\n"@ == seq!['\n']);
    line
}

/// A short summary of a run, fit for a notification: the header line, then
/// for each result, in the order given, one line with the status of its
/// ping, its packet loss, its latency and its route tracing.
pub fn format_summary(results: &[LineResult]) -> (summary: String)
    ensures
        summary@ == summary_text(results@),
{
    let mut summary = String::from_str("ICMPMolester summary");
    proof {
        reveal_strlit("\n");
    }
    summary.append("\n");
    assert("\n"@ == seq!['\n']);
    let ghost head = summary_header() + seq!['\n'];
    let mut i: usize = 0;
    assert(head + summary_lines(results@.take(0)) == head);
    while i < results.len()
        invariant
            i <= results.len(),
            head == summary_header() + seq!['\n'],
            summary@ == head + summary_lines(results@.take(i as int)),
        decreases results.len() - i,
    {
        let line = summary_line_string(&results[i]);
        summary.append(line.as_str());
        proof {
            let next = results@.take(i + 1);
            assert(next.drop_last() == results@.take(i as int));
            assert(next.last() == results@[i as int]);
            assert(head + summary_lines(results@.take(i as int)) + summary_line(
                results@[i as int],
            ) == head + summary_lines(next));
        }
        i += 1;
    }
    assert(results@.take(results@.len() as int) == results@);
    summary
}

/// How the detailed view names the exit of a process.
pub open spec fn exit_text(success: bool) -> Seq<char> {
    if success {
        "OK success"@
    } else {
        "ALERT command failed"@
    }
}

/// The packet-loss line of the detailed view.
pub open spec fn loss_line(result: LineResult) -> Seq<char> {
    match result.ping.packet_loss_pct {
        Some(loss) => "Packet loss: "@ + fixed2_text(loss.0 as nat) + "% ("@ + (if loss.0
            > result.loss_threshold.0 {
            "ALERT above threshold"@
        } else {
            "OK within threshold"@
        }) + ")\n"@,
        None => "Packet loss: unavailable\n"@,
    }
}

/// The latency line of the detailed view.
pub open spec fn latency_line(result: LineResult) -> Seq<char> {
    match result.ping.average_latency_ms {
        Some(latency) => "Average latency: "@ + fixed2_text(latency.0 as nat) + " ms\n"@,
        None => "Average latency: unavailable\n"@,
    }
}

/// The first line of `raw`, if `raw` is not empty.
pub open spec fn first_line(raw: Seq<char>) -> Option<Seq<char>> {
    if lines_of(raw).len() > 0 {
        Some(lines_of(raw)[0])
    } else {
        None
    }
}

/// What the detailed view shows of a traceroute's output: its first line,
/// unless there is none or it is blank.
pub open spec fn first_hop_line(raw: Seq<char>) -> Seq<char> {
    match first_line(raw) {
        Some(line) => if is_blank(line) {
            "Traceroute output empty\n"@
        } else {
            "First hop: "@ + line + "\n"@
        },
        None => "Traceroute output empty\n"@,
    }
}

/// The traceroute part of the detailed view: the full status where there is
/// a report; else a failure where the route was to be traced; else a note
/// that it was skipped.
pub open spec fn traceroute_section(result: LineResult) -> Seq<char> {
    match result.traceroute {
        Some(report) => "Traceroute status: "@ + exit_text(report.success) + "\n"@
            + first_hop_line(report.raw_output@),
        None => if result.traceroute_requested {
            "Traceroute status: ALERT command failed\n"@
        } else {
            "Traceroute: skipped\n"@
        },
    }
}

/// The detailed view of one result, closed by an empty line.
pub open spec fn cli_block(result: LineResult) -> Seq<char> {
    "=== ICMPMolester: "@ + result.name@ + " ("@ + result.target@ + ") ===\n"@ + "Ping status: "@
        + exit_text(result.ping.success) + "\n"@ + loss_line(result) + latency_line(result)
        + traceroute_section(result) + "\n"@
}

/// The detailed view of `results`, in their order.
pub open spec fn cli_text(results: Seq<LineResult>) -> Seq<char>
    decreases results.len(),
{
    if results.len() == 0 {
        Seq::empty()
    } else {
        cli_text(results.drop_last()) + cli_block(results.last())
    }
}

/// How the detailed view names the exit of a process.
pub fn bool_to_status(success: bool) -> (text: &'static str)
    ensures
        text@ == exit_text(success),
{
    if success {
        "OK success"
    } else {
        "ALERT command failed"
    }
}

fn loss_line_string(result: &LineResult) -> (line: String)
    ensures
        line@ == loss_line(*result),
{
    match result.ping.packet_loss_pct {
        Some(loss) => {
            let mut line = String::from_str("Packet loss: ");
            push_fixed2(&mut line, loss);
            line.append("% (");
            if loss.0 > result.loss_threshold.0 {
                line.append("ALERT above threshold");
            } else {
                line.append("OK within threshold");
            }
            line.append(")\n");
            line
        },
        None => String::from_str("Packet loss: unavailable\n"),
    }
}

fn latency_line_string(result: &LineResult) -> (line: String)
    ensures
        line@ == latency_line(*result),
{
    match result.ping.average_latency_ms {
        Some(latency) => {
            let mut line = String::from_str("Average latency: ");
            push_fixed2(&mut line, latency);
            line.append(" ms\n");
            line
        },
        None => String::from_str("Average latency: unavailable\n"),
    }
}

fn first_hop_line_string(raw: &str) -> (line: String)
    ensures
        line@ == first_hop_line(raw@),
{
    let chars = chars_of(raw);
    if chars.len() == 0 {
        return String::from_str("Traceroute output empty\n");
    }
    let end = scan_line(&chars, 0);
    let stop = if 0 < end && end < chars.len() && chars[end - 1] == '\r' {
        end - 1
    } else {
        end
    };
    let first = copy_range(&chars, 0, stop);
    proof {
        lemma_line_end_bounds(raw@, 0);
        assert(lines_of(raw@)[0] == first@);
    }
    if scan_whitespace(&first, 0) >= first.len() {
        String::from_str("Traceroute output empty\n")
    } else {
        let mut line = String::from_str("First hop: ");
        line.append(raw.substring_char(0, stop));
        line.append("\n");
        line
    }
}

fn traceroute_section_string(result: &LineResult) -> (section: String)
    ensures
        section@ == traceroute_section(*result),
{
    match &result.traceroute {
        Some(report) => {
            let hop = first_hop_line_string(report.raw_output.as_str());
            let mut section = String::from_str("Traceroute status: ");
            section.append(bool_to_status(report.success));
            section.append("\n");
            section.append(hop.as_str());
            section
        },
        None => if result.traceroute_requested {
            String::from_str("Traceroute status: ALERT command failed\n")
        } else {
            String::from_str("Traceroute: skipped\n")
        },
    }
}

fn cli_block_string(result: &LineResult) -> (block: String)
    ensures
        block@ == cli_block(*result),
{
    let loss = loss_line_string(result);
    let latency = latency_line_string(result);
    let traced = traceroute_section_string(result);
    let mut block = String::from_str("=== ICMPMolester: ");
    block.append(result.name.as_str());
    block.append(" (");
    block.append(result.target.as_str());
    block.append(") ===\n");
    block.append("Ping status: ");
    block.append(bool_to_status(result.ping.success));
    block.append("\n");
    block.append(loss.as_str());
    block.append(latency.as_str());
    block.append(traced.as_str());
    block.append("\n");
    block
}

/// The detailed view of a run, fit for a terminal: for each result, in the
/// order given, a heading with its name and target, the status of its ping,
/// its packet loss against the threshold, its latency, and its route
/// tracing, closed by an empty line.
pub fn render_cli(results: &[LineResult]) -> (view: String)
    ensures
        view@ == cli_text(results@),
{
    let mut view = String::new();
    let mut i: usize = 0;
    assert(cli_text(results@.take(0)) == Seq::<char>::empty());
    while i < results.len()
        invariant
            i <= results.len(),
            view@ == cli_text(results@.take(i as int)),
        decreases results.len() - i,
    {
        let block = cli_block_string(&results[i]);
        view.append(block.as_str());
        proof {
            let next = results@.take(i + 1);
            assert(next.drop_last() == results@.take(i as int));
            assert(next.last() == results@[i as int]);
        }
        i += 1;
    }
    assert(results@.take(results@.len() as int) == results@);
    view
}

/// A packet loss that equals the threshold of its line is in order: an alert
/// takes a loss above the threshold.
pub proof fn lemma_loss_at_threshold_is_good(result: LineResult)
    requires
        result.ping.packet_loss_pct == Some(result.loss_threshold),
    ensures
        loss_status_of(result) == Status::Good,
        loss_status_of(result) != Status::Alert,
{
}

/// A line whose route was not traced shows as skipped, and one whose packet
/// loss is not known shows as unknown, whatever its other signals are.
pub proof fn lemma_absent_signals(result: LineResult)
    ensures
        !result.traceroute_requested ==> traceroute_status_of(result) == Status::Skipped,
        result.ping.packet_loss_pct is None ==> loss_status_of(result) == Status::Unknown,
{
}

proof fn lemma_status_label_plain(status: Status)
    ensures
        no_line_feed(status_label(status)),
        status_label(status).len() > 0,
        status_label(status).last() != '\r',
{
    reveal_strlit("OK");
    reveal_strlit("ALERT");
    reveal_strlit("UNKNOWN");
    reveal_strlit("SKIPPED");
}

proof fn lemma_value_text_plain(value: Option<Millionths>)
    ensures
        no_line_feed(loss_text(value)),
        no_line_feed(latency_text(value)),
{
    reveal_strlit("n/a");
    reveal_strlit("%");
    reveal_strlit(" ms");
    match value {
        Some(v) => {
            lemma_fixed2_text_shape(v.0 as nat);
            let digits = fixed2_text(v.0 as nat);
            assert forall|i: int| 0 <= i < digits.len() implies #[trigger] digits[i] != '\n' by {
                assert(is_digit(digits[i]) || digits[i] == '.');
            }
            let _ = plain_concat(digits, "%"@);
            let _ = plain_concat(digits, " ms"@);
        },
        None => {},
    }
}

/// `a` followed by `b`, which holds no line feed where neither does.
proof fn plain_concat(a: Seq<char>, b: Seq<char>) -> (joined: Seq<char>)
    requires
        no_line_feed(a),
        no_line_feed(b),
    ensures
        joined == a + b,
        no_line_feed(joined),
{
    assert forall|i: int| 0 <= i < (a + b).len() implies #[trigger] (a + b)[i] != '\n' by {
        if i < a.len() {
            assert((a + b)[i] == a[i]);
        } else {
            assert((a + b)[i] == b[i - a.len()]);
        }
    }
    a + b
}

/// What the summary tells of a result is one line of text, where neither
/// the name nor the target of the result holds a line feed.
proof fn lemma_summary_body_plain(result: LineResult)
    requires
        no_line_feed(result.name@),
        no_line_feed(result.target@),
    ensures
        no_line_feed(summary_body(result)),
        summary_body(result).len() > 0,
        summary_body(result).last() != '\r',
{
    reveal_strlit("- ");
    reveal_strlit(" (");
    reveal_strlit("): ping=");
    reveal_strlit(", loss=");
    reveal_strlit("), latency=");
    reveal_strlit(", traceroute=");
    lemma_status_label_plain(ping_status_of(result));
    lemma_status_label_plain(loss_status_of(result));
    lemma_status_label_plain(traceroute_status_of(result));
    lemma_value_text_plain(result.ping.packet_loss_pct);
    lemma_value_text_plain(result.ping.average_latency_ms);
    let mut text = plain_concat("- "@, result.name@);
    text = plain_concat(text, " ("@);
    text = plain_concat(text, result.target@);
    text = plain_concat(text, "): ping="@);
    text = plain_concat(text, status_label(ping_status_of(result)));
    text = plain_concat(text, ", loss="@);
    text = plain_concat(text, loss_text(result.ping.packet_loss_pct));
    text = plain_concat(text, " ("@);
    text = plain_concat(text, status_label(loss_status_of(result)));
    text = plain_concat(text, "), latency="@);
    text = plain_concat(text, latency_text(result.ping.average_latency_ms));
    text = plain_concat(text, ", traceroute="@);
    let last = status_label(traceroute_status_of(result));
    let whole = plain_concat(text, last);
    assert(summary_body(result) == whole);
    assert((text + last).last() == last.last());
}

/// The summary of the results so far ends in a line feed.
proof fn lemma_summary_text_ends_lines(results: Seq<LineResult>)
    ensures
        ends_lines(summary_text(results)),
        summary_text(results).len() > 0,
    decreases results.len(),
{
    if results.len() == 0 {
        assert(summary_lines(results) == Seq::<char>::empty());
        assert(summary_text(results) == summary_header() + seq!['\n']);
    } else {
        let line = summary_line(results.last());
        assert(summary_text(results) == summary_text(results.drop_last()) + line);
        assert(line.last() == '\n');
    }
}

/// A summary has one line of text more than there are results: the header,
/// then for each result, in the order given, the line that tells of it.
///
/// This holds where no name and no target holds a line feed; one that does
/// breaks its line of the summary in two.
pub proof fn lemma_summary_line_count(results: Seq<LineResult>)
    requires
        forall|i: int|
            0 <= i < results.len() ==> no_line_feed((#[trigger] results[i]).name@) && no_line_feed(
                results[i].target@,
            ),
    ensures
        lines_of(summary_text(results)).len() == results.len() + 1,
        lines_of(summary_text(results))[0] == summary_header(),
        forall|i: int|
            0 <= i < results.len() ==> #[trigger] lines_of(summary_text(results))[i + 1]
                == summary_body(results[i]),
    decreases results.len(),
{
    if results.len() == 0 {
        reveal_strlit("ICMPMolester summary");
        assert(summary_lines(results) == Seq::<char>::empty());
        assert(summary_text(results) == summary_header() + seq!['\n']);
        lemma_lines_of_single(summary_header());
    } else {
        let front = results.drop_last();
        let result = results.last();
        assert forall|i: int| 0 <= i < front.len() implies no_line_feed(
            (#[trigger] front[i]).name@,
        ) && no_line_feed(front[i].target@) by {
            assert(front[i] == results[i]);
        }
        lemma_summary_line_count(front);
        lemma_summary_text_ends_lines(front);
        lemma_summary_body_plain(result);
        lemma_lines_of_single(summary_body(result));
        assert(summary_text(results) == summary_text(front) + summary_line(result));
        lemma_lines_of_concat(summary_text(front), summary_line(result));
        let lines = lines_of(summary_text(results));
        assert(lines == lines_of(summary_text(front)) + seq![summary_body(result)]);
        assert forall|i: int| 0 <= i < results.len() implies #[trigger] lines[i + 1]
            == summary_body(results[i]) by {
            if i < front.len() {
                assert(lines[i + 1] == lines_of(summary_text(front))[i + 1]);
                assert(front[i] == results[i]);
            }
        }
    }
}

} // verus!
