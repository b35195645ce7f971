//! What is shown of a result: which results are drawn and how, and the
//! lines of text around the measurements.

use vstd::prelude::*;
use vstd::string::*;
use crate::options::Opts;
use crate::text::{text_view, text_views, decimal_text, number_text};
use crate::resolver::{CountryFacts, CountryFactsView, alpha2_country, facts_view, keshvar_alpha2};

verus! {

/// The width of the frame around one result, in characters.
pub const FRAME_WIDTH: usize = 80;

/// The number of timeouts shown for a ping without a measurement.
pub const DEFAULT_TIMEOUTS: usize = 4;

/// The pause after the line of one timeout, in milliseconds.
pub const TIMEOUT_PAUSE_MS: u64 = 500;

/// The pause after a line of the statistics, in milliseconds.
pub const STATISTICS_PAUSE_MS: u64 = 250;

/// The pause to make where one of `duration` milliseconds is due: none
/// where the configuration asks for no delay.
pub fn sleep_if_enabled(config: &Opts, duration: u64) -> (r: Option<u64>)
    ensures
        r == if config.no_delay {
            None::<u64>
        } else {
            Some(duration)
        },
{
    if config.no_delay {
        None
    } else {
        Some(duration)
    }
}

/// What one result of a job holds, as far as the display asks.
#[derive(Clone, Copy, Debug, PartialEq, Eq, Structural)]
pub struct PingOutcome {
    /// The result carries an error.
    pub failed: bool,
    /// The result carries a measurement.
    pub measured: bool,
    /// Every packet of the measurement was lost.
    pub total_loss: bool,
}

/// What is done with one result of a job.
#[derive(Clone, Copy, Debug, PartialEq, Eq, Structural)]
pub enum RenderStep {
    /// The error is reported, and nothing is drawn.
    ReportError,
    /// The missing node is reported, and nothing is drawn.
    ReportMissingNode,
    /// The ping is drawn as failed.
    ShowFailed,
    /// The ping is drawn as a success, and an empty line after it.
    ShowSuccess,
    /// An empty line is drawn.
    BlankLine,
}

/// What is done with one result: an error is reported; a measurement
/// without its node is reported; a measurement that lost every packet is
/// drawn as failed, any other as a success; a result that holds nothing is
/// an empty line.
pub open spec fn render_step(o: PingOutcome, has_node_info: bool) -> RenderStep {
    if o.failed {
        RenderStep::ReportError
    } else if o.measured {
        if !has_node_info {
            RenderStep::ReportMissingNode
        } else if o.total_loss {
            RenderStep::ShowFailed
        } else {
            RenderStep::ShowSuccess
        }
    } else {
        RenderStep::BlankLine
    }
}

/// What is done with the results of one job, result by result, in order.
pub fn display_job(results: &Vec<PingOutcome>, has_node_info: bool) -> (steps: Vec<RenderStep>)
    ensures
        steps@.len() == results@.len(),
        forall|i: int| 0 <= i < results@.len() ==> steps@[i] == render_step(
            #[trigger] results@[i],
            has_node_info,
        ),
{
    let mut steps: Vec<RenderStep> = Vec::new();
    let mut i: usize = 0;
    while i < results.len()
        invariant
            0 <= i <= results@.len(),
            steps@.len() == i,
            forall|j: int| 0 <= j < i ==> steps@[j] == render_step(
                #[trigger] results@[j],
                has_node_info,
            ),
        decreases results@.len() - i,
    {
        let o = results[i];
        let step = if o.failed {
            RenderStep::ReportError
        } else if o.measured {
            if !has_node_info {
                RenderStep::ReportMissingNode
            } else if o.total_loss {
                RenderStep::ShowFailed
            } else {
                RenderStep::ShowSuccess
            }
        } else {
            RenderStep::BlankLine
        };
        steps.push(step);
        i = i + 1;
    }
    steps
}

/// A text repeated `n` times.
pub open spec fn repeated(t: Seq<char>, n: nat) -> Seq<char>
    decreases n,
{
    if n == 0 {
        Seq::<char>::empty()
    } else {
        repeated(t, (n - 1) as nat) + t
    }
}

/// A frame line: a corner, dashes to the width, and a corner.
pub open spec fn frame_line(left: Seq<char>, right: Seq<char>, width: nat) -> Seq<char> {
    left + repeated("─"@, (width - 2) as nat) + right
}

fn frame(left: &str, right: &str, width: usize) -> (r: String)
    requires
        width >= 2,
    ensures
        r@ == frame_line(left@, right@, width as nat),
{
    let mut line = String::from_str(left);
    let mut i: usize = 0;
    assert(left@ + repeated("─"@, 0) =~= left@);
    while i < width - 2
        invariant
            width >= 2,
            0 <= i <= width - 2,
            line@ == left@ + repeated("─"@, i as nat),
        decreases width - 2 - i,
    {
        line.append("─");
        i = i + 1;
        assert(line@ =~= left@ + repeated("─"@, i as nat));
    }
    line.append(right);
    line
}

/// The upper line of the frame around a result, `width` characters wide.
pub fn print_border(width: usize) -> (r: String)
    requires
        width >= 2,
    ensures
        r@ == frame_line("┌"@, "┐"@, width as nat),
{
    frame("┌", "┐", width)
}

/// The lower line of the frame around a result, `width` characters wide.
pub fn print_footer(width: usize) -> (r: String)
    requires
        width >= 2,
    ensures
        r@ == frame_line("└"@, "┘"@, width as nat),
{
    frame("└", "┘", width)
}

/// The node that a measurement was taken from.
#[derive(Debug)]
pub struct NodeInfo {
    /// The two-letter code of the node's country.
    pub country_code: String,
    pub region_name: String,
    pub isp: String,
    pub operating_system: String,
    /// The place of the node, as it is to be shown.
    pub coordinates: String,
}

/// The first line of the heading: the host and its address.
pub open spec fn ping_line(endpoint: Seq<char>, ip_address: Seq<char>) -> Seq<char> {
    "│ PING "@ + endpoint + " ("@ + ip_address + "): 56 data bytes"@
}

/// The line of the heading that says where the node is.
pub open spec fn origin_line(
    country: CountryFactsView,
    region_name: Seq<char>,
    coordinates: Seq<char>,
) -> Seq<char> {
    "│ ├── Origin: "@ + country.emoji + " "@ + region_name + ", "@ + country.short_name + " "@
        + coordinates
}

/// The line of the heading that names the node's provider.
pub open spec fn isp_line(isp: Seq<char>) -> Seq<char> {
    "│ ├── ISP: "@ + isp
}

/// The line of the heading that names the node's system.
pub open spec fn system_line(operating_system: Seq<char>) -> Seq<char> {
    "│ └── System: "@ + operating_system
}

/// The lines of the heading of one result, given the country that was found
/// for the node: the ping line alone where none was found; else the ping
/// line, the origin, the provider, the system and a separator.
pub open spec fn header_lines(
    endpoint: Seq<char>,
    ip_address: Seq<char>,
    country: Option<CountryFactsView>,
    region_name: Seq<char>,
    coordinates: Seq<char>,
    isp: Seq<char>,
    operating_system: Seq<char>,
) -> Seq<Seq<char>> {
    match country {
        None => seq![ping_line(endpoint, ip_address)],
        Some(c) => seq![
            ping_line(endpoint, ip_address),
            origin_line(c, region_name, coordinates),
            isp_line(isp),
            system_line(operating_system),
            "│ ---"@,
        ],
    }
}

/// The lines of the heading of one result, given the country that was found
/// for the node.
pub fn header_for(
    endpoint: &str,
    ip_address: &str,
    country: &Option<CountryFacts>,
    node_info: &NodeInfo,
) -> (lines: Vec<String>)
    ensures
        text_views(lines@) == header_lines(
            endpoint@,
            ip_address@,
            facts_view(*country),
            node_info.region_name@,
            node_info.coordinates@,
            node_info.isp@,
            node_info.operating_system@,
        ),
{
    let mut lines: Vec<String> = Vec::new();
    let mut ping = String::from_str("│ PING ");
    ping.append(endpoint);
    ping.append(" (");
    ping.append(ip_address);
    ping.append("): 56 data bytes");
    lines.push(ping);
    match country {
        None => {
            assert(text_views(lines@) =~= seq![ping_line(endpoint@, ip_address@)]);
        },
        Some(c) => {
            let mut origin = String::from_str("│ ├── Origin: ");
            origin.append(c.emoji.as_str());
            origin.append(" ");
            origin.append(node_info.region_name.as_str());
            origin.append(", ");
            origin.append(c.short_name.as_str());
            origin.append(" ");
            origin.append(node_info.coordinates.as_str());
            lines.push(origin);
            let mut isp = String::from_str("│ ├── ISP: ");
            isp.append(node_info.isp.as_str());
            lines.push(isp);
            let mut system = String::from_str("│ └── System: ");
            system.append(node_info.operating_system.as_str());
            lines.push(system);
            lines.push(String::from_str("│ ---"));
            assert(text_views(lines@) =~= header_lines(
                endpoint@,
                ip_address@,
                facts_view(*country),
                node_info.region_name@,
                node_info.coordinates@,
                node_info.isp@,
                node_info.operating_system@,
            ));
        },
    }
    lines
}

/// The lines of the heading of one result: the host and its address, and,
/// where the node's country code is known, the origin, the provider and the
/// system of the node.
pub fn format_ping_header(endpoint: &str, ip_address: &str, node_info: &NodeInfo) -> (lines: Vec<
    String,
>)
    ensures
        text_views(lines@) == header_lines(
            endpoint@,
            ip_address@,
            keshvar_alpha2(node_info.country_code@),
            node_info.region_name@,
            node_info.coordinates@,
            node_info.isp@,
            node_info.operating_system@,
        ),
{
    let country = alpha2_country(node_info.country_code.as_str());
    header_for(endpoint, ip_address, &country, node_info)
}

/// The line that reports the timeout of one ping.
pub open spec fn timeout_line(index: nat) -> Seq<char> {
    "│ Request timeout for icmp_seq "@ + decimal_text(index)
}

/// The line that opens the statistics of a host.
pub open spec fn statistics_line(endpoint: Seq<char>) -> Seq<char> {
    "│ --- "@ + endpoint + " ping statistics ---"@
}

/// The line that counts the packets of a ping without a measurement: all
/// sent, all lost.
pub open spec fn all_lost_line(attempts: nat) -> Seq<char> {
    "│ "@ + decimal_text(attempts) + " packets transmitted, 0 packets received, 100% packet loss"@
}

/// The number of timeouts shown for a failed ping: the attempts of its
/// measurement, or the default where it has none.
pub open spec fn timeouts_shown(attempts: Option<usize>) -> nat {
    match attempts {
        Some(n) => n as nat,
        None => DEFAULT_TIMEOUTS as nat,
    }
}

/// The lines of a failed ping below its heading: one timeout for each
/// attempt, the opening of the statistics, and the count of the packets,
/// which is `counted` where the measurement gave one and else says that all
/// were lost.
pub open spec fn failed_lines(
    endpoint: Seq<char>,
    attempts: Option<usize>,
    counted: Option<Seq<char>>,
) -> Seq<Seq<char>> {
    Seq::new(timeouts_shown(attempts), |i: int| timeout_line(i as nat)) + seq![
        statistics_line(endpoint),
        match counted {
            Some(line) => line,
            None => all_lost_line(timeouts_shown(attempts)),
        },
    ]
}

/// The lines of a failed ping below its heading.
pub fn display_failed_ping(endpoint: &str, attempts: Option<usize>, counted: Option<String>) -> (lines:
    Vec<String>)
    ensures
        text_views(lines@) == failed_lines(endpoint@, attempts, text_view(counted)),
{
    let shown = match attempts {
        Some(n) => n,
        None => DEFAULT_TIMEOUTS,
    };
    let ghost counted_view = text_view(counted);
    let mut lines: Vec<String> = Vec::new();
    let mut i: usize = 0;
    while i < shown
        invariant
            0 <= i <= shown,
            lines@.len() == i,
            forall|j: int| 0 <= j < i ==> (#[trigger] lines@[j])@ == timeout_line(j as nat),
        decreases shown - i,
    {
        let mut line = String::from_str("│ Request timeout for icmp_seq ");
        let index = number_text(i);
        line.append(index.as_str());
        lines.push(line);
        i = i + 1;
    }
    let mut statistics = String::from_str("│ --- ");
    statistics.append(endpoint);
    statistics.append(" ping statistics ---");
    lines.push(statistics);
    let last = match counted {
        Some(line) => line,
        None => {
            let mut line = String::from_str("│ ");
            let count = number_text(shown);
            line.append(count.as_str());
            line.append(" packets transmitted, 0 packets received, 100% packet loss");
            line
        },
    };
    lines.push(last);
    assert(text_views(lines@) =~= failed_lines(endpoint@, attempts, counted_view));
    lines
}

/// The pause that is due after line `index` of a failed ping's lines, in
/// milliseconds: the timeout pause after each timeout, two statistics
/// pauses after the opening of the statistics, one after the count.
pub open spec fn failed_pause(attempts: Option<usize>, index: nat) -> u64 {
    if index < timeouts_shown(attempts) {
        TIMEOUT_PAUSE_MS
    } else if index == timeouts_shown(attempts) {
        (2 * STATISTICS_PAUSE_MS) as u64
    } else {
        STATISTICS_PAUSE_MS
    }
}

/// The pause that is due after line `index` of a failed ping's lines.
pub fn failed_ping_pause(attempts: Option<usize>, index: usize) -> (r: u64)
    ensures
        r == failed_pause(attempts, index as nat),
{
    let shown = match attempts {
        Some(n) => n,
        None => DEFAULT_TIMEOUTS,
    };
    if index < shown {
        TIMEOUT_PAUSE_MS
    } else if index == shown {
        2 * STATISTICS_PAUSE_MS
    } else {
        STATISTICS_PAUSE_MS
    }
}

/// Texts joined by commas.
pub open spec fn joined(parts: Seq<Seq<char>>) -> Seq<char>
    decreases parts.len(),
{
    if parts.len() == 0 {
        Seq::<char>::empty()
    } else if parts.len() == 1 {
        parts[0]
    } else {
        joined(parts.drop_last()) + ","@ + parts.last()
    }
}

/// The text beside the progress bar: the host, and in brackets the regions
/// joined by commas, or "Worldwide" where there is none.
pub open spec fn progress_bar_text(endpoint: Seq<char>, regions: Seq<Seq<char>>) -> Seq<char> {
    "Collecting results for "@ + endpoint + " ["@ + (if regions.len() == 0 {
        "Worldwide"@
    } else {
        joined(regions)
    }) + "]"@
}

/// The text beside the progress bar.
pub fn get_progress_bar_text(endpoint: &str, regions: &Vec<String>) -> (r: String)
    ensures
        r@ == progress_bar_text(endpoint@, text_views(regions@)),
{
    let mut shown = String::new();
    if regions.len() == 0 {
        shown.append("Worldwide");
        assert(shown@ =~= "Worldwide"@);
    } else {
        let mut i: usize = 0;
        let ghost parts = text_views(regions@);
        while i < regions.len()
            invariant
                0 <= i <= regions@.len(),
                parts == text_views(regions@),
                shown@ == joined(parts.take(i as int)),
            decreases regions@.len() - i,
        {
            let ghost before = shown@;
            if i > 0 {
                shown.append(",");
            }
            shown.append(regions[i].as_str());
            proof {
                let next = parts.take(i + 1);
                assert(next.drop_last() =~= parts.take(i as int));
                assert(next.last() == regions@[i as int]@);
                if i == 0 {
                    assert(before =~= Seq::<char>::empty());
                    assert(shown@ =~= next[0]);
                }
            }
            i = i + 1;
        }
        assert(parts.take(i as int) =~= parts);
    }
    let mut text = String::from_str("Collecting results for ");
    text.append(endpoint);
    text.append(" [");
    text.append(shown.as_str());
    text.append("]");
    text
}

} // verus!
