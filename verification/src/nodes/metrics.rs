//! `nodes metrics`: the control plane host's system metrics.
use vstd::prelude::*;
use crate::display::{
    gigabytes_key, kv, lemma_counts_concat, lemma_shows_concat, line_key, megabytes_key, section, shows, shows_gigabytes, shows_megabytes, shows_no_count_under,
    shows_nothing_under, view_lines, Gauge, Line, LineView,
};
use crate::request::{get, ApiRequest, ApiRequestView, BodyView, Method};
use crate::text::{concat, decimal, or_text, text_or, u32_to_string, u64_to_string};

verus! {

/// System metrics as the server reports them. The three usage percentages are
/// fractional; only whether each was reported is held here.
#[derive(Debug, PartialEq, Eq)]
pub struct Metrics {
    pub hostname: Option<String>,
    pub os_name: Option<String>,
    pub os_version: Option<String>,
    pub kernel_version: Option<String>,
    pub uptime_seconds: Option<u64>,
    pub cpu_model: Option<String>,
    pub cpu_cores: Option<u32>,
    pub cpu_threads: Option<u32>,
    pub cpu_usage_reported: bool,
    pub memory_total_bytes: Option<u64>,
    pub memory_used_bytes: Option<u64>,
    pub memory_usage_reported: bool,
    pub disk_total_bytes: Option<u64>,
    pub disk_used_bytes: Option<u64>,
    pub disk_usage_reported: bool,
    pub network_rx_bytes: Option<u64>,
    pub network_tx_bytes: Option<u64>,
}

/// The request for the system metrics.
pub fn request() -> (r: ApiRequest)
    ensures
        r@ == (ApiRequestView {
            method: Method::Get,
            path: "/system/metrics"@,
            body: BodyView::Empty,
            spinner: Some("fetching system metrics..."@),
        }),
{
    get("/system/metrics".to_owned(), "fetching system metrics...")
}

/// An uptime as whole days, hours and minutes: `{d}d {h}h {m}m`.
pub open spec fn uptime_text(seconds: nat) -> Seq<char> {
    decimal(seconds / 86400) + "d "@ + decimal((seconds % 86400) / 3600) + "h "@ + decimal((seconds % 3600) / 60)
        + "m"@
}

/// The uptime text shows whole days, hours under 24 and minutes under 60, which together
/// make up the uptime less its seconds under a minute.
pub proof fn law_uptime_components(seconds: nat)
    ensures
        (seconds % 86400) / 3600 < 24,
        (seconds % 3600) / 60 < 60,
        (seconds / 86400) * 86400 + ((seconds % 86400) / 3600) * 3600 + ((seconds % 3600) / 60) * 60 + seconds % 60
            == seconds,
{
    let s = seconds as int;
    let d = s / 86400;
    let r = s % 86400;
    let h = r / 3600;
    let q = r % 3600;
    assert(s == d * 86400 + r && 0 <= r < 86400) by (nonlinear_arith)
        requires
            s >= 0,
            d == s / 86400,
            r == s % 86400,
    ;
    assert(r == h * 3600 + q && 0 <= q < 3600) by (nonlinear_arith)
        requires
            0 <= r < 86400,
            h == r / 3600,
            q == r % 3600,
    ;
    assert(h < 24) by (nonlinear_arith)
        requires
            0 <= r < 86400,
            h == r / 3600,
    ;
    assert(s % 3600 == q) by (nonlinear_arith)
        requires
            s == d * 86400 + h * 3600 + q,
            0 <= q < 3600,
            d >= 0,
            h >= 0,
    ;
    let m = q / 60;
    assert(q == m * 60 + q % 60 && m < 60) by (nonlinear_arith)
        requires
            0 <= q < 3600,
            m == q / 60,
    ;
    assert(s % 60 == q % 60) by (nonlinear_arith)
        requires
            s == d * 86400 + h * 3600 + q,
            0 <= q < 3600,
            d >= 0,
            h >= 0,
    ;
}

/// The uptime text shows the whole days, the hours of the last day and the minutes of the
/// last hour: whenever the seconds are split into days, hours under 24, minutes under 60 and
/// seconds under 60, it shows exactly those days, hours and minutes.
pub proof fn law_uptime_text_splits(seconds: nat, d: nat, h: nat, m: nat, s: nat)
    requires
        h < 24,
        m < 60,
        s < 60,
        seconds == d * 86400 + h * 3600 + m * 60 + s,
    ensures
        uptime_text(seconds) == decimal(d) + "d "@ + decimal(h) + "h "@ + decimal(m) + "m"@,
{
    let x = seconds as int;
    let r: int = (h * 3600 + m * 60 + s) as int;
    assert(0 <= r < 86400) by (nonlinear_arith)
        requires
            h < 24,
            m < 60,
            s < 60,
            r == h * 3600 + m * 60 + s,
    ;
    vstd::arithmetic::div_mod::lemma_fundamental_div_mod_converse(x, 86400, d as int, r);
    let q: int = (m * 60 + s) as int;
    vstd::arithmetic::div_mod::lemma_fundamental_div_mod_converse(r, 3600, h as int, q);
    assert(x == (d * 24 + h) * 3600 + q) by (nonlinear_arith)
        requires
            x == d * 86400 + h * 3600 + m * 60 + s,
            q == m * 60 + s,
    ;
    vstd::arithmetic::div_mod::lemma_fundamental_div_mod_converse(x, 3600, (d * 24 + h) as int, q);
    vstd::arithmetic::div_mod::lemma_fundamental_div_mod_converse(q, 60, m as int, s as int);
}

/// Formats an uptime in seconds as whole days, hours and minutes.
pub fn format_uptime(seconds: u64) -> (s: String)
    ensures
        s@ == uptime_text(seconds as nat),
{
    let days = seconds / 86400;
    let hours = (seconds % 86400) / 3600;
    let minutes = (seconds % 3600) / 60;
    let mut s = u64_to_string(days);
    s.append("d ");
    s.append(u64_to_string(hours).as_str());
    s.append("h ");
    s.append(u64_to_string(minutes).as_str());
    s.append("m");
    s
}

/// The given lines when `c` holds, none otherwise.
pub open spec fn lines_if(c: bool, lines: Seq<LineView>) -> Seq<LineView> {
    if c { lines } else { seq![] }
}

/// A key and an optional value: one line when the value is there.
pub open spec fn opt_kv(key: Seq<char>, value: Option<String>) -> Seq<LineView> {
    match value {
        Some(v) => seq![LineView::Kv(key, v@)],
        None => seq![],
    }
}

/// The system's name and version (an absent version reads as empty), when the name is reported.
pub open spec fn os_lines(m: Metrics) -> Seq<LineView> {
    match m.os_name {
        Some(os) => seq![LineView::Kv("OS"@, os@ + " "@ + text_or(m.os_version, ""@))],
        None => seq![],
    }
}

/// The uptime, when reported.
pub open spec fn uptime_lines(m: Metrics) -> Seq<LineView> {
    match m.uptime_seconds {
        Some(u) => seq![LineView::Kv("Uptime"@, uptime_text(u as nat))],
        None => seq![],
    }
}

/// The lines about the host: its name, system, kernel and uptime, as far as reported.
pub open spec fn host_lines(m: Metrics) -> Seq<LineView> {
    opt_kv("Hostname"@, m.hostname) + os_lines(m) + opt_kv("Kernel"@, m.kernel_version) + uptime_lines(m)
}

/// The counts of cores and threads, when both are reported.
pub open spec fn count_lines(m: Metrics) -> Seq<LineView> {
    match (m.cpu_cores, m.cpu_threads) {
        (Some(c), Some(t)) => seq![
            LineView::Kv("CPU"@, decimal(c as nat) + " cores / "@ + decimal(t as nat) + " threads"@),
        ],
        _ => seq![],
    }
}

/// The lines about the processor.
pub open spec fn cpu_lines(m: Metrics) -> Seq<LineView> {
    opt_kv("CPU Model"@, m.cpu_model) + count_lines(m) + lines_if(
        m.cpu_usage_reported,
        seq![LineView::Gauge("CPU Usage"@, Gauge::CpuPercent)],
    )
}

/// A key and a used / total pair in gigabytes, when both are reported.
pub open spec fn pair_lines(key: Seq<char>, total: Option<u64>, used: Option<u64>) -> Seq<LineView> {
    match (total, used) {
        (Some(t), Some(u)) => seq![LineView::Gigabytes(key, u as int, t as int)],
        _ => seq![],
    }
}

/// The lines about the network, when both counts are reported.
pub open spec fn network_lines(rx: Option<u64>, tx: Option<u64>) -> Seq<LineView> {
    match (rx, tx) {
        (Some(r), Some(t)) => seq![
            LineView::Megabytes("Network RX"@, r as int),
            LineView::Megabytes("Network TX"@, t as int),
        ],
        _ => seq![],
    }
}

/// What is shown of the system metrics: only what the server reported, in four groups.
pub open spec fn screen(m: Metrics) -> Seq<LineView> {
    seq![LineView::Section("System Metrics"@)] + host_lines(m) + seq![LineView::Blank] + cpu_lines(m) + seq![
        LineView::Blank,
    ] + pair_lines("Memory"@, m.memory_total_bytes, m.memory_used_bytes) + lines_if(
        m.memory_usage_reported,
        seq![LineView::Gauge("Memory Usage"@, Gauge::MemoryPercent)],
    ) + seq![LineView::Blank] + pair_lines("Disk"@, m.disk_total_bytes, m.disk_used_bytes) + lines_if(
        m.disk_usage_reported,
        seq![LineView::Gauge("Disk Usage"@, Gauge::DiskPercent)],
    ) + seq![LineView::Blank] + network_lines(m.network_rx_bytes, m.network_tx_bytes) + seq![LineView::Blank]
}

/// What the host and processor lines show under a key, the whole screen shows: the lines
/// about memory, disk and network carry no key.
proof fn lemma_key_shown(m: Metrics, key: Seq<char>, value: Seq<char>)
    ensures
        ({
            let h1 = opt_kv("Hostname"@, m.hostname);
            let h2 = os_lines(m);
            let h3 = opt_kv("Kernel"@, m.kernel_version);
            let h4 = uptime_lines(m);
            let c1 = opt_kv("CPU Model"@, m.cpu_model);
            let c2 = count_lines(m);
            let c3 = lines_if(m.cpu_usage_reported, seq![LineView::Gauge("CPU Usage"@, Gauge::CpuPercent)]);
            &&& (shows(h1, key, value) && shows_nothing_under(h2, key) && shows_nothing_under(h3, key) && shows_nothing_under(h4, key) && shows_nothing_under(c1, key) && shows_nothing_under(c2, key) && shows_nothing_under(c3, key) ==> shows(screen(m), key, value))
            &&& (shows(h2, key, value) && shows_nothing_under(h1, key) && shows_nothing_under(h3, key) && shows_nothing_under(h4, key) && shows_nothing_under(c1, key) && shows_nothing_under(c2, key) && shows_nothing_under(c3, key) ==> shows(screen(m), key, value))
            &&& (shows(h3, key, value) && shows_nothing_under(h1, key) && shows_nothing_under(h2, key) && shows_nothing_under(h4, key) && shows_nothing_under(c1, key) && shows_nothing_under(c2, key) && shows_nothing_under(c3, key) ==> shows(screen(m), key, value))
            &&& (shows(h4, key, value) && shows_nothing_under(h1, key) && shows_nothing_under(h2, key) && shows_nothing_under(h3, key) && shows_nothing_under(c1, key) && shows_nothing_under(c2, key) && shows_nothing_under(c3, key) ==> shows(screen(m), key, value))
            &&& (shows(c1, key, value) && shows_nothing_under(h1, key) && shows_nothing_under(h2, key) && shows_nothing_under(h3, key) && shows_nothing_under(h4, key) && shows_nothing_under(c2, key) && shows_nothing_under(c3, key) ==> shows(screen(m), key, value))
            &&& (shows(c2, key, value) && shows_nothing_under(h1, key) && shows_nothing_under(h2, key) && shows_nothing_under(h3, key) && shows_nothing_under(h4, key) && shows_nothing_under(c1, key) && shows_nothing_under(c3, key) ==> shows(screen(m), key, value))
            &&& (shows(c3, key, value) && shows_nothing_under(h1, key) && shows_nothing_under(h2, key) && shows_nothing_under(h3, key) && shows_nothing_under(h4, key) && shows_nothing_under(c1, key) && shows_nothing_under(c2, key) ==> shows(screen(m), key, value))
            &&& (shows_nothing_under(h1, key) && shows_nothing_under(h2, key) && shows_nothing_under(h3, key) && shows_nothing_under(h4, key) && shows_nothing_under(c1, key) && shows_nothing_under(c2, key) && shows_nothing_under(c3, key) ==> shows_nothing_under(screen(m), key))
        }),
{
    let h1 = opt_kv("Hostname"@, m.hostname);
    let h2 = os_lines(m);
    let h3 = opt_kv("Kernel"@, m.kernel_version);
    let h4 = uptime_lines(m);
    let c1 = opt_kv("CPU Model"@, m.cpu_model);
    let c2 = count_lines(m);
    let c3 = lines_if(m.cpu_usage_reported, seq![LineView::Gauge("CPU Usage"@, Gauge::CpuPercent)]);
    let blank = seq![LineView::Blank];
    lemma_shows_concat(h1, h2, key, value);
    lemma_shows_concat(h1 + h2, h3, key, value);
    lemma_shows_concat(h1 + h2 + h3, h4, key, value);
    assert(host_lines(m) == h1 + h2 + h3 + h4);
    lemma_shows_concat(c1, c2, key, value);
    lemma_shows_concat(c1 + c2, c3, key, value);
    assert(cpu_lines(m) == c1 + c2 + c3);
    let x0 = seq![LineView::Section("System Metrics"@)];
    assert(shows_nothing_under(x0, key));
    assert(shows_nothing_under(blank, key));
    let x1 = x0 + host_lines(m);
    lemma_shows_concat(x0, host_lines(m), key, value);
    lemma_shows_concat(x1, blank, key, value);
    let x2 = x1 + blank + cpu_lines(m);
    lemma_shows_concat(x1 + blank, cpu_lines(m), key, value);
    lemma_shows_concat(x2, blank, key, value);
    let t1 = pair_lines("Memory"@, m.memory_total_bytes, m.memory_used_bytes);
    let t2 = lines_if(m.memory_usage_reported, seq![LineView::Gauge("Memory Usage"@, Gauge::MemoryPercent)]);
    let t4 = pair_lines("Disk"@, m.disk_total_bytes, m.disk_used_bytes);
    let t5 = lines_if(m.disk_usage_reported, seq![LineView::Gauge("Disk Usage"@, Gauge::DiskPercent)]);
    let t7 = network_lines(m.network_rx_bytes, m.network_tx_bytes);
    assert(shows_nothing_under(t1, key));
    assert(shows_nothing_under(t2, key));
    assert(shows_nothing_under(t4, key));
    assert(shows_nothing_under(t5, key));
    assert(shows_nothing_under(t7, key));
    let y0 = x2 + blank;
    lemma_shows_concat(y0, t1, key, value);
    lemma_shows_concat(y0 + t1, t2, key, value);
    lemma_shows_concat(y0 + t1 + t2, blank, key, value);
    let y1 = y0 + t1 + t2 + blank;
    lemma_shows_concat(y1, t4, key, value);
    lemma_shows_concat(y1 + t4, t5, key, value);
    lemma_shows_concat(y1 + t4 + t5, blank, key, value);
    let y2 = y1 + t4 + t5 + blank;
    lemma_shows_concat(y2, t7, key, value);
    lemma_shows_concat(y2 + t7, blank, key, value);
    assert(screen(m) == y2 + t7 + blank);
}

/// Each reported fact about the host and its processor is shown under its own key: the system
/// as name and version (an absent version reads as empty), the uptime as days, hours and
/// minutes, and the cores and threads together when both are reported. What was not reported
/// has no line.
pub proof fn law_host_fields_shown(m: Metrics)
    ensures
        match m.hostname {
            Some(h) => shows(screen(m), "Hostname"@, h@),
            None => shows_nothing_under(screen(m), "Hostname"@),
        },
        match m.os_name {
            Some(os) => shows(screen(m), "OS"@, os@ + " "@ + match m.os_version { Some(v) => v@, None => ""@ }),
            None => shows_nothing_under(screen(m), "OS"@),
        },
        match m.kernel_version {
            Some(k) => shows(screen(m), "Kernel"@, k@),
            None => shows_nothing_under(screen(m), "Kernel"@),
        },
        match m.uptime_seconds {
            Some(u) => shows(screen(m), "Uptime"@, uptime_text(u as nat)),
            None => shows_nothing_under(screen(m), "Uptime"@),
        },
        match m.cpu_model {
            Some(c) => shows(screen(m), "CPU Model"@, c@),
            None => shows_nothing_under(screen(m), "CPU Model"@),
        },
        match (m.cpu_cores, m.cpu_threads) {
            (Some(c), Some(t)) => shows(screen(m), "CPU"@, decimal(c as nat) + " cores / "@ + decimal(t as nat) + " threads"@),
            _ => shows_nothing_under(screen(m), "CPU"@),
        },
{
    reveal_strlit("Hostname");
    reveal_strlit("OS");
    reveal_strlit("Kernel");
    reveal_strlit("Uptime");
    reveal_strlit("CPU Model");
    reveal_strlit("CPU");
    assert("Hostname"@.len() == 8);
    assert("OS"@.len() == 2);
    assert("Kernel"@.len() == 6 && "Kernel"@[0] == 'K');
    assert("Uptime"@.len() == 6 && "Uptime"@[0] == 'U');
    assert("CPU Model"@.len() == 9);
    assert("CPU"@.len() == 3);
    let h1 = opt_kv("Hostname"@, m.hostname);
    let h2 = os_lines(m);
    let h3 = opt_kv("Kernel"@, m.kernel_version);
    let h4 = uptime_lines(m);
    let c1 = opt_kv("CPU Model"@, m.cpu_model);
    let c2 = count_lines(m);
    let c3 = lines_if(m.cpu_usage_reported, seq![LineView::Gauge("CPU Usage"@, Gauge::CpuPercent)]);
    let os_text = match m.os_name {
        Some(os) => os@ + " "@ + match m.os_version { Some(v) => v@, None => ""@ },
        None => ""@,
    };
    let up_text = match m.uptime_seconds {
        Some(u) => uptime_text(u as nat),
        None => ""@,
    };
    let cpu_text = match (m.cpu_cores, m.cpu_threads) {
        (Some(c), Some(t)) => decimal(c as nat) + " cores / "@ + decimal(t as nat) + " threads"@,
        _ => ""@,
    };
    lemma_key_shown(m, "Hostname"@, text_or(m.hostname, ""@));
    lemma_key_shown(m, "OS"@, os_text);
    lemma_key_shown(m, "Kernel"@, text_or(m.kernel_version, ""@));
    lemma_key_shown(m, "Uptime"@, up_text);
    lemma_key_shown(m, "CPU Model"@, text_or(m.cpu_model, ""@));
    lemma_key_shown(m, "CPU"@, cpu_text);
    if m.hostname is Some {
        assert(line_key(h1[0]) == Some("Hostname"@));
    }
    if m.os_name is Some {
        assert(line_key(h2[0]) == Some("OS"@));
    }
    if m.kernel_version is Some {
        assert(line_key(h3[0]) == Some("Kernel"@));
    }
    if m.uptime_seconds is Some {
        assert(line_key(h4[0]) == Some("Uptime"@));
    }
    if m.cpu_model is Some {
        assert(line_key(c1[0]) == Some("CPU Model"@));
    }
    if m.cpu_cores is Some && m.cpu_threads is Some {
        assert(line_key(c2[0]) == Some("CPU"@));
    }
}

/// What the memory, disk and network lines show in megabytes or gigabytes under a key, the
/// whole screen shows: the lines about the host and the processor carry no count.
proof fn lemma_count_shown(m: Metrics, key: Seq<char>, bytes: int, used: int, total: int)
    ensures
        ({
            let t1 = pair_lines("Memory"@, m.memory_total_bytes, m.memory_used_bytes);
            let t4 = pair_lines("Disk"@, m.disk_total_bytes, m.disk_used_bytes);
            let t7 = network_lines(m.network_rx_bytes, m.network_tx_bytes);
            &&& shows_gigabytes(t1, key, used, total) && shows_no_count_under(t4, key) && shows_no_count_under(t7, key)
                ==> shows_gigabytes(screen(m), key, used, total)
            &&& shows_no_count_under(t1, key) && shows_gigabytes(t4, key, used, total) && shows_no_count_under(t7, key)
                ==> shows_gigabytes(screen(m), key, used, total)
            &&& shows_no_count_under(t1, key) && shows_no_count_under(t4, key) && shows_megabytes(t7, key, bytes)
                ==> shows_megabytes(screen(m), key, bytes)
            &&& shows_no_count_under(t1, key) && shows_no_count_under(t4, key) && shows_no_count_under(t7, key)
                ==> shows_no_count_under(screen(m), key)
        }),
{
    let h1 = opt_kv("Hostname"@, m.hostname);
    let h2 = os_lines(m);
    let h3 = opt_kv("Kernel"@, m.kernel_version);
    let h4 = uptime_lines(m);
    let c1 = opt_kv("CPU Model"@, m.cpu_model);
    let c2 = count_lines(m);
    let c3 = lines_if(m.cpu_usage_reported, seq![LineView::Gauge("CPU Usage"@, Gauge::CpuPercent)]);
    let blank = seq![LineView::Blank];
    let x0 = seq![LineView::Section("System Metrics"@)];
    assert(shows_no_count_under(h1, key));
    assert(shows_no_count_under(h2, key));
    assert(shows_no_count_under(h3, key));
    assert(shows_no_count_under(h4, key));
    assert(shows_no_count_under(c1, key));
    assert(shows_no_count_under(c2, key));
    assert(shows_no_count_under(c3, key));
    assert(shows_no_count_under(blank, key));
    assert(shows_no_count_under(x0, key));
    lemma_counts_concat(h1, h2, key, bytes, used, total);
    lemma_counts_concat(h1 + h2, h3, key, bytes, used, total);
    lemma_counts_concat(h1 + h2 + h3, h4, key, bytes, used, total);
    assert(host_lines(m) == h1 + h2 + h3 + h4);
    lemma_counts_concat(c1, c2, key, bytes, used, total);
    lemma_counts_concat(c1 + c2, c3, key, bytes, used, total);
    assert(cpu_lines(m) == c1 + c2 + c3);
    let x1 = x0 + host_lines(m);
    lemma_counts_concat(x0, host_lines(m), key, bytes, used, total);
    lemma_counts_concat(x1, blank, key, bytes, used, total);
    let x2 = x1 + blank + cpu_lines(m);
    lemma_counts_concat(x1 + blank, cpu_lines(m), key, bytes, used, total);
    lemma_counts_concat(x2, blank, key, bytes, used, total);
    let t1 = pair_lines("Memory"@, m.memory_total_bytes, m.memory_used_bytes);
    let t2 = lines_if(m.memory_usage_reported, seq![LineView::Gauge("Memory Usage"@, Gauge::MemoryPercent)]);
    let t4 = pair_lines("Disk"@, m.disk_total_bytes, m.disk_used_bytes);
    let t5 = lines_if(m.disk_usage_reported, seq![LineView::Gauge("Disk Usage"@, Gauge::DiskPercent)]);
    let t7 = network_lines(m.network_rx_bytes, m.network_tx_bytes);
    assert(shows_no_count_under(t2, key));
    assert(shows_no_count_under(t5, key));
    let y0 = x2 + blank;
    lemma_counts_concat(y0, t1, key, bytes, used, total);
    lemma_counts_concat(y0 + t1, t2, key, bytes, used, total);
    lemma_counts_concat(y0 + t1 + t2, blank, key, bytes, used, total);
    let y1 = y0 + t1 + t2 + blank;
    lemma_counts_concat(y1, t4, key, bytes, used, total);
    lemma_counts_concat(y1 + t4, t5, key, bytes, used, total);
    lemma_counts_concat(y1 + t4 + t5, blank, key, bytes, used, total);
    let y2 = y1 + t4 + t5 + blank;
    lemma_counts_concat(y2, t7, key, bytes, used, total);
    lemma_counts_concat(y2 + t7, blank, key, bytes, used, total);
    assert(screen(m) == y2 + t7 + blank);
}

/// Memory and disk are each shown under their own key as used / total in gigabytes when both
/// counts are reported, and received and sent bytes each in megabytes under their own key when
/// both are reported; a pair or count that was not fully reported is not shown.
pub proof fn law_counts_shown(m: Metrics)
    ensures
        match (m.memory_total_bytes, m.memory_used_bytes) {
            (Some(t), Some(u)) => shows_gigabytes(screen(m), "Memory"@, u as int, t as int),
            _ => shows_no_count_under(screen(m), "Memory"@),
        },
        match (m.disk_total_bytes, m.disk_used_bytes) {
            (Some(t), Some(u)) => shows_gigabytes(screen(m), "Disk"@, u as int, t as int),
            _ => shows_no_count_under(screen(m), "Disk"@),
        },
        match (m.network_rx_bytes, m.network_tx_bytes) {
            (Some(r), Some(t)) => {
                &&& shows_megabytes(screen(m), "Network RX"@, r as int)
                &&& shows_megabytes(screen(m), "Network TX"@, t as int)
            },
            _ => {
                &&& shows_no_count_under(screen(m), "Network RX"@)
                &&& shows_no_count_under(screen(m), "Network TX"@)
            },
        },
{
    reveal_strlit("Memory");
    reveal_strlit("Disk");
    reveal_strlit("Network RX");
    reveal_strlit("Network TX");
    assert("Memory"@.len() == 6);
    assert("Disk"@.len() == 4);
    assert("Network RX"@.len() == 10 && "Network RX"@[8] == 'R');
    assert("Network TX"@.len() == 10 && "Network TX"@[8] == 'T');
    let t1 = pair_lines("Memory"@, m.memory_total_bytes, m.memory_used_bytes);
    let t4 = pair_lines("Disk"@, m.disk_total_bytes, m.disk_used_bytes);
    let t7 = network_lines(m.network_rx_bytes, m.network_tx_bytes);
    let (mu, mt) = match (m.memory_total_bytes, m.memory_used_bytes) {
        (Some(t), Some(u)) => (u as int, t as int),
        _ => (0, 0),
    };
    let (du, dt) = match (m.disk_total_bytes, m.disk_used_bytes) {
        (Some(t), Some(u)) => (u as int, t as int),
        _ => (0, 0),
    };
    let (r, t) = match (m.network_rx_bytes, m.network_tx_bytes) {
        (Some(r), Some(t)) => (r as int, t as int),
        _ => (0, 0),
    };
    lemma_count_shown(m, "Memory"@, 0, mu, mt);
    lemma_count_shown(m, "Disk"@, 0, du, dt);
    lemma_count_shown(m, "Network RX"@, r, 0, 0);
    lemma_count_shown(m, "Network TX"@, t, 0, 0);
    if m.memory_total_bytes is Some && m.memory_used_bytes is Some {
        assert(gigabytes_key(t1[0]) == Some("Memory"@));
    }
    if m.disk_total_bytes is Some && m.disk_used_bytes is Some {
        assert(gigabytes_key(t4[0]) == Some("Disk"@));
    }
    if m.network_rx_bytes is Some && m.network_tx_bytes is Some {
        assert(megabytes_key(t7[0]) == Some("Network RX"@));
        assert(megabytes_key(t7[1]) == Some("Network TX"@));
    }
}



fn push_host(lines: &mut Vec<Line>, m: &Metrics)
    ensures
        view_lines(final(lines)@) == view_lines(old(lines)@) + host_lines(*m),
{
    let ghost start = view_lines(lines@);
    if let Some(h) = &m.hostname {
        lines.push(kv("Hostname", h.as_str()));
    }
    assert(view_lines(lines@) =~= start + opt_kv("Hostname"@, m.hostname));
    let ghost a = view_lines(lines@);
    if let Some(os) = &m.os_name {
        let text = concat(concat(os.as_str(), " ").as_str(), or_text(&m.os_version, "").as_str());
        lines.push(kv("OS", text.as_str()));
    }
    let ghost os_part = os_lines(*m);
    assert(view_lines(lines@) =~= a + os_part);
    let ghost b = view_lines(lines@);
    if let Some(k) = &m.kernel_version {
        lines.push(kv("Kernel", k.as_str()));
    }
    assert(view_lines(lines@) =~= b + opt_kv("Kernel"@, m.kernel_version));
    let ghost c = view_lines(lines@);
    if let Some(u) = m.uptime_seconds {
        lines.push(kv("Uptime", format_uptime(u).as_str()));
    }
    let ghost up_part = uptime_lines(*m);
    assert(view_lines(lines@) =~= c + up_part);
    assert(host_lines(*m) =~= opt_kv("Hostname"@, m.hostname) + os_part + opt_kv("Kernel"@, m.kernel_version)
        + up_part);
}

fn push_cpu(lines: &mut Vec<Line>, m: &Metrics)
    ensures
        view_lines(final(lines)@) == view_lines(old(lines)@) + cpu_lines(*m),
{
    let ghost start = view_lines(lines@);
    if let Some(model) = &m.cpu_model {
        lines.push(kv("CPU Model", model.as_str()));
    }
    assert(view_lines(lines@) =~= start + opt_kv("CPU Model"@, m.cpu_model));
    let ghost a = view_lines(lines@);
    if let (Some(c), Some(t)) = (m.cpu_cores, m.cpu_threads) {
        let mut text = u32_to_string(c);
        text.append(" cores / ");
        text.append(u32_to_string(t).as_str());
        text.append(" threads");
        lines.push(kv("CPU", text.as_str()));
    }
    let ghost count_part = count_lines(*m);
    assert(view_lines(lines@) =~= a + count_part);
    let ghost b = view_lines(lines@);
    if m.cpu_usage_reported {
        lines.push(Line::Gauge("CPU Usage".to_owned(), Gauge::CpuPercent));
    }
    let ghost gauge_part = lines_if(m.cpu_usage_reported, seq![LineView::Gauge("CPU Usage"@, Gauge::CpuPercent)]);
    assert(view_lines(lines@) =~= b + gauge_part);
    assert(cpu_lines(*m) =~= opt_kv("CPU Model"@, m.cpu_model) + count_part + gauge_part);
}

fn push_pair(lines: &mut Vec<Line>, key: &str, total: Option<u64>, used: Option<u64>)
    ensures
        view_lines(final(lines)@) == view_lines(old(lines)@) + pair_lines(key@, total, used),
{
    if let (Some(t), Some(u)) = (total, used) {
        lines.push(Line::Gigabytes(key.to_owned(), u as i128, t as i128));
    }
    assert(view_lines(lines@) =~= view_lines(old(lines)@) + pair_lines(key@, total, used));
}

fn push_gauge(lines: &mut Vec<Line>, reported: bool, key: &str, g: Gauge)
    ensures
        view_lines(final(lines)@) == view_lines(old(lines)@) + lines_if(reported, seq![LineView::Gauge(key@, g)]),
{
    if reported {
        lines.push(Line::Gauge(key.to_owned(), g));
    }
    assert(view_lines(lines@) =~= view_lines(old(lines)@) + lines_if(reported, seq![LineView::Gauge(key@, g)]));
}

fn push_blank(lines: &mut Vec<Line>)
    ensures
        view_lines(final(lines)@) == view_lines(old(lines)@) + seq![LineView::Blank],
{
    lines.push(Line::Blank);
    assert(view_lines(lines@) =~= view_lines(old(lines)@) + seq![LineView::Blank]);
}

/// The lines that show the system metrics.
pub fn render(m: &Metrics) -> (lines: Vec<Line>)
    ensures
        view_lines(lines@) == screen(*m),
{
    let mut lines: Vec<Line> = Vec::new();
    lines.push(section("System Metrics"));
    assert(view_lines(lines@) =~= seq![LineView::Section("System Metrics"@)]);
    push_host(&mut lines, m);
    push_blank(&mut lines);
    push_cpu(&mut lines, m);
    push_blank(&mut lines);
    push_pair(&mut lines, "Memory", m.memory_total_bytes, m.memory_used_bytes);
    push_gauge(&mut lines, m.memory_usage_reported, "Memory Usage", Gauge::MemoryPercent);
    push_blank(&mut lines);
    push_pair(&mut lines, "Disk", m.disk_total_bytes, m.disk_used_bytes);
    push_gauge(&mut lines, m.disk_usage_reported, "Disk Usage", Gauge::DiskPercent);
    push_blank(&mut lines);
    let ghost before_net = view_lines(lines@);
    if let (Some(rx), Some(tx)) = (m.network_rx_bytes, m.network_tx_bytes) {
        lines.push(Line::Megabytes("Network RX".to_owned(), rx as i128));
        lines.push(Line::Megabytes("Network TX".to_owned(), tx as i128));
    }
    assert(view_lines(lines@) =~= before_net + network_lines(m.network_rx_bytes, m.network_tx_bytes));
    push_blank(&mut lines);
    lines
}

} // verus!
