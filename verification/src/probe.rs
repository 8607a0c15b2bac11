//! The port prober's logic: the fixed probe plan, classification of what each
//! connection attempt yielded, and rendering of the ordered result log.

use vstd::prelude::*;
use crate::text::{append_decimal, dec_rep, decode_lossy, lossy_decoded};

verus! {

/// Connect timeout for each probe, in seconds.
pub const CONNECT_TIMEOUT_SECS: u64 = 3;

/// The fixed, ordered probe plan.
pub open spec fn port_plan_spec() -> Seq<u16> {
    seq![80u16, 443u16, 23u16, 22u16, 8080u16]
}

/// The probe plan as a vector, in probe order.
pub fn default_port_plan() -> (plan: Vec<u16>)
    ensures
        plan@ == port_plan_spec(),
{
    let mut plan: Vec<u16> = Vec::new();
    plan.push(80);
    plan.push(443);
    plan.push(23);
    plan.push(22);
    plan.push(8080);
    proof {
        assert(plan@ =~= port_plan_spec());
    }
    plan
}

/// Ports that plausibly speak HTTP and therefore get the minimal GET probe
/// and the larger read buffer.
pub open spec fn is_http_port_spec(port: u16) -> bool {
    port == 80 || port == 443 || port == 8080
}

/// Whether a port gets the HTTP probe.
pub fn is_http_port(port: u16) -> (b: bool)
    ensures
        b == is_http_port_spec(port),
{
    port == 80 || port == 443 || port == 8080
}

/// The minimal HTTP request sent to HTTP-plausible ports after connecting.
pub open spec fn http_request_spec() -> Seq<char> {
    "GET / HTTP/1.0\r\nHost: router\r\n\r\n"@
}

/// The request text to send on an HTTP-plausible port.
pub fn http_probe_request() -> (r: &'static str)
    ensures
        r@ == http_request_spec(),
{
    "GET / HTTP/1.0\r\nHost: router\r\n\r\n"
}

/// How many bytes one bounded read may capture on a port.
pub open spec fn read_buffer_size_spec(port: u16) -> usize {
    if is_http_port_spec(port) {
        4096
    } else {
        512
    }
}

/// The read buffer size for a port.
pub fn read_buffer_size(port: u16) -> (n: usize)
    ensures
        n == read_buffer_size_spec(port),
{
    if is_http_port(port) {
        4096
    } else {
        512
    }
}

/// What one connection attempt yielded on the wire: no connection at all, or
/// a connection together with the outcome of the one bounded read (`None`
/// when the read itself failed, `Some` with the bytes captured otherwise).
pub enum ConnectOutcome {
    NoConnection,
    Connected { read: Option<Vec<u8>> },
}

/// The recorded outcome for one planned port: open with a non-empty banner
/// capture, open with nothing read, or closed/unreachable.
pub enum ProbeResult {
    OpenWithBanner { port: u16, banner: Vec<u8> },
    OpenNoBanner { port: u16 },
    Closed { port: u16 },
}

/// The port a result is about.
pub open spec fn port_of(r: ProbeResult) -> u16 {
    match r {
        ProbeResult::OpenWithBanner { port, banner } => port,
        ProbeResult::OpenNoBanner { port } => port,
        ProbeResult::Closed { port } => port,
    }
}

/// Whether a result reports the port open.
pub open spec fn is_open(r: ProbeResult) -> bool {
    !(r is Closed)
}

/// How a connection attempt's outcome is recorded: a failed connection is
/// closed; a connection is open, with a banner exactly when the read
/// captured at least one byte.
pub open spec fn classify_spec(port: u16, outcome: ConnectOutcome) -> ProbeResult {
    match outcome {
        ConnectOutcome::NoConnection => ProbeResult::Closed { port },
        ConnectOutcome::Connected { read } => match read {
            Option::None => ProbeResult::OpenNoBanner { port },
            Option::Some(bytes) => if bytes@.len() == 0 {
                ProbeResult::OpenNoBanner { port }
            } else {
                ProbeResult::OpenWithBanner { port, banner: bytes }
            },
        },
    }
}

/// Records one port's outcome. Open status is decided by connection success
/// alone; a read failure or an empty read still leaves the port open, just
/// without a banner.
pub fn classify_probe(port: u16, outcome: ConnectOutcome) -> (r: ProbeResult)
    ensures
        r == classify_spec(port, outcome),
{
    match outcome {
        ConnectOutcome::NoConnection => ProbeResult::Closed { port },
        ConnectOutcome::Connected { read } => match read {
            None => ProbeResult::OpenNoBanner { port },
            Some(bytes) => if bytes.len() == 0 {
                ProbeResult::OpenNoBanner { port }
            } else {
                ProbeResult::OpenWithBanner { port, banner: bytes }
            },
        },
    }
}

/// The status line for an open port.
pub open spec fn open_line_spec(port: u16) -> Seq<char> {
    "Port "@ + dec_rep(port as nat) + ": OPEN"@
}

/// The status line for a closed or unreachable port.
pub open spec fn closed_line_spec(port: u16) -> Seq<char> {
    "Port "@ + dec_rep(port as nat) + ": closed or unreachable"@
}

/// The banner line for a port: a label, then the lossy decoding of the
/// captured bytes.
pub open spec fn banner_line_spec(port: u16, banner: Seq<u8>) -> Seq<char> {
    "Port "@ + dec_rep(port as nat) + " banner:\n"@ + lossy_decoded(banner)
}

/// Builds the open-status line for a port.
pub fn open_line(port: u16) -> (line: String)
    ensures
        line@ == open_line_spec(port),
{
    let mut line = String::from_str("Port ");
    append_decimal(&mut line, port);
    line.append(": OPEN");
    line
}

/// Builds the closed-status line for a port.
pub fn closed_line(port: u16) -> (line: String)
    ensures
        line@ == closed_line_spec(port),
{
    let mut line = String::from_str("Port ");
    append_decimal(&mut line, port);
    line.append(": closed or unreachable");
    line
}

/// Builds the banner line for a port from the captured bytes. Decoding is
/// lossy: malformed byte sequences are replaced, never rejected, so this is
/// total over all captures.
pub fn banner_line(port: u16, banner: &[u8]) -> (line: String)
    ensures
        line@ == banner_line_spec(port, banner@),
{
    let mut line = String::from_str("Port ");
    append_decimal(&mut line, port);
    line.append(" banner:\n");
    let decoded = decode_lossy(banner);
    line.append(decoded.as_str());
    line
}

/// The log lines one result contributes: exactly one status line, then a
/// banner line only for an open port with a non-empty capture.
pub open spec fn render_spec(r: ProbeResult) -> Seq<Seq<char>> {
    match r {
        ProbeResult::Closed { port } => seq![closed_line_spec(port)],
        ProbeResult::OpenNoBanner { port } => seq![open_line_spec(port)],
        ProbeResult::OpenWithBanner { port, banner } => seq![
            open_line_spec(port),
            banner_line_spec(port, banner@),
        ],
    }
}

/// Renders one result into its log lines.
pub fn render_result(r: &ProbeResult) -> (lines: Vec<String>)
    ensures
        lines.deep_view() == render_spec(*r),
{
    let mut lines: Vec<String> = Vec::new();
    match r {
        ProbeResult::Closed { port } => {
            lines.push(closed_line(*port));
        },
        ProbeResult::OpenNoBanner { port } => {
            lines.push(open_line(*port));
        },
        ProbeResult::OpenWithBanner { port, banner } => {
            lines.push(open_line(*port));
            lines.push(banner_line(*port, banner.as_slice()));
        },
    }
    proof {
        assert(lines.deep_view() =~~= render_spec(*r));
    }
    lines
}

/// One recorded outcome per planned port, in plan order.
pub open spec fn report_spec(ports: Seq<u16>, outcomes: Seq<ConnectOutcome>) -> Seq<ProbeResult> {
    Seq::new(ports.len(), |i: int| classify_spec(ports[i], outcomes[i]))
}

/// Records the outcome of every planned port, in plan order: exactly one
/// result per port, never zero, never more than one.
pub fn run_report(ports: &Vec<u16>, outcomes: Vec<ConnectOutcome>) -> (report: Vec<ProbeResult>)
    requires
        ports@.len() == outcomes@.len(),
    ensures
        report@ == report_spec(ports@, outcomes@),
        report@.len() == ports@.len(),
{
    let ghost all_outcomes = outcomes@;
    let mut rest = outcomes;
    let mut report: Vec<ProbeResult> = Vec::new();
    let mut i: usize = 0;
    while i < ports.len()
        invariant
            ports@.len() == all_outcomes.len(),
            i <= ports@.len(),
            rest@ =~= all_outcomes.skip(i as int),
            report@ =~= report_spec(ports@, all_outcomes).take(i as int),
        decreases ports@.len() - i,
    {
        let outcome = rest.remove(0);
        let r = classify_probe(ports[i], outcome);
        report.push(r);
        i = i + 1;
        proof {
            assert(rest@ =~= all_outcomes.skip(i as int));
            assert(report@ =~= report_spec(ports@, all_outcomes).take(i as int));
        }
    }
    proof {
        assert(report@ =~= report_spec(ports@, all_outcomes));
    }
    report
}

/// The whole result log for a report: each result's lines in probe order.
pub open spec fn log_spec(report: Seq<ProbeResult>) -> Seq<Seq<char>>
    decreases report.len(),
{
    if report.len() == 0 {
        Seq::empty()
    } else {
        log_spec(report.drop_last()) + render_spec(report.last())
    }
}

/// Renders a whole report into the ordered result log.
pub fn render_log(report: &Vec<ProbeResult>) -> (log: Vec<String>)
    ensures
        log.deep_view() == log_spec(report@),
{
    let mut log: Vec<String> = Vec::new();
    let mut i: usize = 0;
    proof {
        assert(log.deep_view() =~~= log_spec(report@.take(0)));
    }
    while i < report.len()
        invariant
            i <= report@.len(),
            log.deep_view() =~~= log_spec(report@.take(i as int)),
        decreases report@.len() - i,
    {
        let ghost prev = log.deep_view();
        let mut lines = render_result(&report[i]);
        log.append(&mut lines);
        i = i + 1;
        proof {
            assert(log.deep_view() =~~= prev + render_spec(report@[i - 1]));
            assert(report@.take(i as int).drop_last() =~= report@.take(i - 1));
            assert(log.deep_view() =~~= log_spec(report@.take(i as int)));
        }
    }
    proof {
        assert(report@.take(report@.len() as int) =~= report@);
    }
    log
}

/// The prober's whole job on recorded outcomes: classify every planned port's
/// outcome and render the ordered result log.
pub fn collect_results(ports: &Vec<u16>, outcomes: Vec<ConnectOutcome>) -> (log: Vec<String>)
    requires
        ports@.len() == outcomes@.len(),
    ensures
        log.deep_view() == log_spec(report_spec(ports@, outcomes@)),
{
    let report = run_report(ports, outcomes);
    render_log(&report)
}

/// Law: every planned port yields exactly one recorded outcome, carrying that
/// port, whatever came back from the network.
pub proof fn lemma_one_result_per_port(ports: Seq<u16>, outcomes: Seq<ConnectOutcome>)
    requires
        ports.len() == outcomes.len(),
    ensures
        report_spec(ports, outcomes).len() == ports.len(),
        forall|i: int|
            0 <= i < ports.len() ==> port_of(#[trigger] report_spec(ports, outcomes)[i])
                == ports[i],
{
}

/// Law: a port whose connection attempt failed within the timeout window is
/// never reported open — it is recorded closed, nothing else.
pub proof fn lemma_no_connection_never_open(port: u16, outcome: ConnectOutcome)
    requires
        outcome is NoConnection,
    ensures
        !is_open(classify_spec(port, outcome)),
        classify_spec(port, outcome) == (ProbeResult::Closed { port }),
{
}

/// Law: a port reported open with zero bytes read (a failed read or an empty
/// one) contributes the status line only, never a banner line.
pub proof fn lemma_open_without_bytes_has_no_banner(port: u16, read: Option<Vec<u8>>)
    requires
        read matches Some(bytes) ==> bytes@.len() == 0,
    ensures
        render_spec(classify_spec(port, ConnectOutcome::Connected { read })) =~= seq![
            open_line_spec(port),
        ],
{
}

/// Law: banner bytes never fail the run — whatever bytes a read captured, the
/// port's lines are the status line first, then at most one banner line,
/// holding the lossy decoding of exactly those bytes.
pub proof fn lemma_banner_never_fails(port: u16, bytes: Vec<u8>)
    ensures
        render_spec(classify_spec(port, ConnectOutcome::Connected { read: Some(bytes) }))[0]
            == open_line_spec(port),
        bytes@.len() == 0 ==> render_spec(
            classify_spec(port, ConnectOutcome::Connected { read: Some(bytes) }),
        ).len() == 1,
        bytes@.len() > 0 ==> render_spec(
            classify_spec(port, ConnectOutcome::Connected { read: Some(bytes) }),
        ) =~= seq![open_line_spec(port), banner_line_spec(port, bytes@)],
{
}

} // verus!
