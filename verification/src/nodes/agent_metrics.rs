//! `nodes agent-metrics`: the latest metrics one agent reported.
use vstd::prelude::*;
use crate::display::{
    gigabytes_key, kv, lemma_shows_concat, line_key, megabytes_key, section, shows_gigabytes, shows_megabytes, shows_no_count_under, shows, shows_nothing_under, view_lines, Gauge,
    Line, LineView,
};
use crate::nodes::metrics::lines_if;
use crate::request::{get, ApiRequest, ApiRequestView, BodyView, Method};
use crate::text::{byte_prefix, can_show_upto, concat, prefix_upto};

verus! {

/// An agent's metrics as the server reports them. The processor usage is fractional;
/// only whether it was reported is held here.
#[derive(Debug, PartialEq, Eq)]
pub struct AgentMetrics {
    pub cpu_usage_reported: bool,
    pub memory_total_bytes: Option<i64>,
    pub memory_used_bytes: Option<i64>,
    pub disk_total_bytes: Option<i64>,
    pub disk_used_bytes: Option<i64>,
    pub network_rx_bytes: Option<i64>,
    pub network_tx_bytes: Option<i64>,
    pub timestamp: Option<String>,
}

/// The request for the metrics of agent `id`.
pub fn request(id: &str) -> (r: ApiRequest)
    ensures
        r@ == (ApiRequestView {
            method: Method::Get,
            path: "/agents/"@ + id@ + "/metrics"@,
            body: BodyView::Empty,
            spinner: Some("fetching agent metrics..."@),
        }),
{
    get(concat(concat("/agents/", id).as_str(), "/metrics"), "fetching agent metrics...")
}

/// A used / total pair in gigabytes and its usage bar, when both are reported.
pub open spec fn usage_lines(key: Seq<char>, bar: Seq<char>, total: Option<i64>, used: Option<i64>) -> Seq<LineView> {
    match (total, used) {
        (Some(t), Some(u)) => seq![
            LineView::Gigabytes(key, u as int, t as int),
            LineView::Gauge(bar, Gauge::Ratio { used: u, total: t }),
        ],
        _ => seq![],
    }
}

/// The lines about the network, when both counts are reported.
pub open spec fn network_lines(rx: Option<i64>, tx: Option<i64>) -> Seq<LineView> {
    match (rx, tx) {
        (Some(r), Some(t)) => seq![
            LineView::Megabytes("Network RX"@, r as int),
            LineView::Megabytes("Network TX"@, t as int),
        ],
        _ => seq![],
    }
}

/// The timestamp, cut to sixteen bytes, and an empty line, when reported.
pub open spec fn timestamp_lines(ts: Option<String>) -> Seq<LineView> {
    match ts {
        Some(t) => seq![LineView::Kv("Timestamp"@, byte_prefix(t@, 16)), LineView::Blank],
        None => seq![],
    }
}

/// What is shown of an agent's metrics: only what it reported.
pub open spec fn screen(m: AgentMetrics) -> Seq<LineView> {
    seq![LineView::Section("Nodes  /  Agent Metrics"@)] + timestamp_lines(m.timestamp) + lines_if(
        m.cpu_usage_reported,
        seq![LineView::Gauge("CPU Usage"@, Gauge::CpuPercent)],
    ) + seq![LineView::Blank] + usage_lines("Memory"@, "Memory Usage"@, m.memory_total_bytes, m.memory_used_bytes)
        + seq![LineView::Blank] + usage_lines("Disk"@, "Disk Usage"@, m.disk_total_bytes, m.disk_used_bytes) + seq![
        LineView::Blank,
    ] + network_lines(m.network_rx_bytes, m.network_tx_bytes) + seq![LineView::Blank]
}

/// The lines before the memory pair.
spec fn head_lines(m: AgentMetrics) -> Seq<LineView> {
    seq![LineView::Section("Nodes  /  Agent Metrics"@)] + timestamp_lines(m.timestamp) + lines_if(
        m.cpu_usage_reported,
        seq![LineView::Gauge("CPU Usage"@, Gauge::CpuPercent)],
    ) + seq![LineView::Blank]
}

/// The lines before the memory pair carry no count.
proof fn lemma_head_has_no_counts(m: AgentMetrics)
    ensures
        forall|i: int| #![trigger head_lines(m)[i]]
            0 <= i < head_lines(m).len() ==> megabytes_key(head_lines(m)[i]) is None && gigabytes_key(
                head_lines(m)[i],
            ) is None,
{
}

/// Received and sent byte counts are each shown in megabytes under their own key when both
/// are reported; when either is missing, neither is shown.
pub proof fn law_network_counts_shown(m: AgentMetrics)
    ensures
        match (m.network_rx_bytes, m.network_tx_bytes) {
            (Some(r), Some(t)) => {
                &&& shows_megabytes(screen(m), "Network RX"@, r as int)
                &&& shows_megabytes(screen(m), "Network TX"@, t as int)
            },
            _ => {
                &&& shows_no_count_under(screen(m), "Network RX"@)
                &&& shows_no_count_under(screen(m), "Network TX"@)
            },
        },
{
    reveal_strlit("Network RX");
    reveal_strlit("Network TX");
    reveal_strlit("Memory");
    reveal_strlit("Disk");
    assert("Network RX"@.len() == 10 && "Network RX"@[8] == 'R');
    assert("Network TX"@.len() == 10 && "Network TX"@[8] == 'T');
    assert("Memory"@.len() == 6);
    assert("Disk"@.len() == 4);
    lemma_head_has_no_counts(m);
    let l = screen(m);
    let h = head_lines(m);
    let mem = usage_lines("Memory"@, "Memory Usage"@, m.memory_total_bytes, m.memory_used_bytes);
    let disk = usage_lines("Disk"@, "Disk Usage"@, m.disk_total_bytes, m.disk_used_bytes);
    let p = h + mem + seq![LineView::Blank] + disk + seq![LineView::Blank];
    assert(l == p + network_lines(m.network_rx_bytes, m.network_tx_bytes) + seq![LineView::Blank]);
    assert forall|i: int| 0 <= i < p.len() implies megabytes_key(#[trigger] p[i]) is None by {
        if i < h.len() {
            assert(p[i] == h[i]);
        }
    }
    if let (Some(r), Some(t)) = (m.network_rx_bytes, m.network_tx_bytes) {
        assert(megabytes_key(l[p.len() as int]) == Some("Network RX"@));
        assert(megabytes_key(l[p.len() as int + 1]) == Some("Network TX"@));
    }
}

/// Memory and disk are each shown under their own key as used / total in gigabytes, with a
/// usage bar of used over total, when both counts are reported; when either count is missing,
/// no pair is shown under that key.
pub proof fn law_usage_pairs_shown(m: AgentMetrics)
    ensures
        match (m.memory_total_bytes, m.memory_used_bytes) {
            (Some(t), Some(u)) => shows_gigabytes(screen(m), "Memory"@, u as int, t as int) && screen(m).contains(
                LineView::Gauge("Memory Usage"@, Gauge::Ratio { used: u, total: t }),
            ),
            _ => shows_no_count_under(screen(m), "Memory"@),
        },
        match (m.disk_total_bytes, m.disk_used_bytes) {
            (Some(t), Some(u)) => shows_gigabytes(screen(m), "Disk"@, u as int, t as int) && screen(m).contains(
                LineView::Gauge("Disk Usage"@, Gauge::Ratio { used: u, total: t }),
            ),
            _ => shows_no_count_under(screen(m), "Disk"@),
        },
{
    reveal_strlit("Network RX");
    reveal_strlit("Network TX");
    reveal_strlit("Memory");
    reveal_strlit("Disk");
    assert("Network RX"@.len() == 10 && "Network RX"@[8] == 'R');
    assert("Network TX"@.len() == 10 && "Network TX"@[8] == 'T');
    assert("Memory"@.len() == 6);
    assert("Disk"@.len() == 4);
    lemma_head_has_no_counts(m);
    let l = screen(m);
    let h = head_lines(m);
    let mem = usage_lines("Memory"@, "Memory Usage"@, m.memory_total_bytes, m.memory_used_bytes);
    let disk = usage_lines("Disk"@, "Disk Usage"@, m.disk_total_bytes, m.disk_used_bytes);
    let p1 = h + mem + seq![LineView::Blank];
    assert(l == p1 + disk + seq![LineView::Blank] + network_lines(m.network_rx_bytes, m.network_tx_bytes) + seq![
        LineView::Blank,
    ]);
    if let (Some(t), Some(u)) = (m.memory_total_bytes, m.memory_used_bytes) {
        assert(gigabytes_key(l[h.len() as int]) == Some("Memory"@));
        assert(l[h.len() as int + 1] == LineView::Gauge("Memory Usage"@, Gauge::Ratio { used: u, total: t }));
    }
    if let (Some(t), Some(u)) = (m.disk_total_bytes, m.disk_used_bytes) {
        assert(gigabytes_key(l[p1.len() as int]) == Some("Disk"@));
        assert(l[p1.len() as int + 1] == LineView::Gauge("Disk Usage"@, Gauge::Ratio { used: u, total: t }));
    }
}

/// The time of the metrics is shown under its own key, cut to sixteen bytes, when reported;
/// otherwise no line carries that key.
pub proof fn law_timestamp_shown(m: AgentMetrics)
    ensures
        match m.timestamp {
            Some(t) => shows(screen(m), "Timestamp"@, byte_prefix(t@, 16)),
            None => shows_nothing_under(screen(m), "Timestamp"@),
        },
{
    reveal_strlit("Timestamp");
    let key = "Timestamp"@;
    let value = match m.timestamp {
        Some(t) => byte_prefix(t@, 16),
        None => ""@,
    };
    let x0 = seq![LineView::Section("Nodes  /  Agent Metrics"@)];
    let ts = timestamp_lines(m.timestamp);
    let cpu = lines_if(m.cpu_usage_reported, seq![LineView::Gauge("CPU Usage"@, Gauge::CpuPercent)]);
    let blank = seq![LineView::Blank];
    let mem = usage_lines("Memory"@, "Memory Usage"@, m.memory_total_bytes, m.memory_used_bytes);
    let disk = usage_lines("Disk"@, "Disk Usage"@, m.disk_total_bytes, m.disk_used_bytes);
    let net = network_lines(m.network_rx_bytes, m.network_tx_bytes);
    assert(shows_nothing_under(x0, key));
    assert(shows_nothing_under(cpu, key));
    assert(shows_nothing_under(blank, key));
    assert(shows_nothing_under(mem, key));
    assert(shows_nothing_under(disk, key));
    assert(shows_nothing_under(net, key));
    if m.timestamp is Some {
        assert(line_key(ts[0]) == Some(key));
    }
    lemma_shows_concat(x0, ts, key, value);
    let a = x0 + ts;
    lemma_shows_concat(a, cpu, key, value);
    lemma_shows_concat(a + cpu, blank, key, value);
    let b = a + cpu + blank;
    lemma_shows_concat(b, mem, key, value);
    lemma_shows_concat(b + mem, blank, key, value);
    let c = b + mem + blank;
    lemma_shows_concat(c, disk, key, value);
    lemma_shows_concat(c + disk, blank, key, value);
    let d = c + disk + blank;
    lemma_shows_concat(d, net, key, value);
    lemma_shows_concat(d + net, blank, key, value);
    assert(screen(m) == d + net + blank);
}

/// Whether the timestamp can be cut to sixteen bytes.
pub open spec fn showable(m: AgentMetrics) -> bool {
    m.timestamp matches Some(t) ==> can_show_upto(t@, 16)
}

fn push_usage(lines: &mut Vec<Line>, key: &str, bar: &str, total: Option<i64>, used: Option<i64>)
    ensures
        view_lines(final(lines)@) == view_lines(old(lines)@) + usage_lines(key@, bar@, total, used),
{
    if let (Some(t), Some(u)) = (total, used) {
        lines.push(Line::Gigabytes(key.to_owned(), u as i128, t as i128));
        lines.push(Line::Gauge(bar.to_owned(), Gauge::Ratio { used: u, total: t }));
    }
    assert(view_lines(lines@) =~= view_lines(old(lines)@) + usage_lines(key@, bar@, total, used));
}

/// The lines that show an agent's metrics.
pub fn render(m: &AgentMetrics) -> (lines: Vec<Line>)
    requires
        showable(*m),
    ensures
        view_lines(lines@) == screen(*m),
{
    let mut lines: Vec<Line> = Vec::new();
    lines.push(section("Nodes  /  Agent Metrics"));
    if let Some(ts) = &m.timestamp {
        lines.push(kv("Timestamp", prefix_upto(ts.as_str(), 16).as_str()));
        lines.push(Line::Blank);
    }
    if m.cpu_usage_reported {
        lines.push(Line::Gauge("CPU Usage".to_owned(), Gauge::CpuPercent));
    }
    lines.push(Line::Blank);
    let ghost a = view_lines(lines@);
    assert(a =~= seq![LineView::Section("Nodes  /  Agent Metrics"@)] + timestamp_lines(m.timestamp) + lines_if(
        m.cpu_usage_reported,
        seq![LineView::Gauge("CPU Usage"@, Gauge::CpuPercent)],
    ) + seq![LineView::Blank]);
    push_usage(&mut lines, "Memory", "Memory Usage", m.memory_total_bytes, m.memory_used_bytes);
    lines.push(Line::Blank);
    let ghost b = view_lines(lines@);
    assert(b =~= a + usage_lines("Memory"@, "Memory Usage"@, m.memory_total_bytes, m.memory_used_bytes) + seq![
        LineView::Blank,
    ]);
    push_usage(&mut lines, "Disk", "Disk Usage", m.disk_total_bytes, m.disk_used_bytes);
    lines.push(Line::Blank);
    let ghost c = view_lines(lines@);
    assert(c =~= b + usage_lines("Disk"@, "Disk Usage"@, m.disk_total_bytes, m.disk_used_bytes) + seq![
        LineView::Blank,
    ]);
    if let (Some(rx), Some(tx)) = (m.network_rx_bytes, m.network_tx_bytes) {
        lines.push(Line::Megabytes("Network RX".to_owned(), rx as i128));
        lines.push(Line::Megabytes("Network TX".to_owned(), tx as i128));
    }
    lines.push(Line::Blank);
    assert(view_lines(lines@) =~= c + network_lines(m.network_rx_bytes, m.network_tx_bytes) + seq![LineView::Blank]);
    lines
}

} // verus!
