//! `workloads get`: the details of one workload.
use vstd::prelude::*;
use crate::display::{colors, line_key, shows, kv, kv_colored, section, status_color, status_color_of, view_lines, Line, LineView};
use crate::request::{get, ApiRequest, ApiRequestView, BodyView, Method};
use crate::text::{byte_prefix, can_show_upto, concat, div_toward_zero, i32_to_string, i64_div, i64_to_string, or_text, prefix_upto, signed_decimal, text_or};

verus! {

/// A workload as the server describes it.
#[derive(Debug, PartialEq, Eq)]
pub struct Workload {
    pub id: String,
    pub name: String,
    pub image: String,
    pub cpu_millicores: i32,
    pub memory_bytes: i64,
    pub disk_bytes: i64,
    pub status: String,
    pub assigned_agent_id: Option<String>,
    pub container_id: Option<String>,
    pub created_at: String,
    pub updated_at: Option<String>,
}

/// The request for workload `id`.
pub fn request(id: &str) -> (r: ApiRequest)
    ensures
        r@ == (ApiRequestView {
            method: Method::Get,
            path: "/workloads/"@ + id@,
            body: BodyView::Empty,
            spinner: Some("fetching workload..."@),
        }),
{
    get(concat("/workloads/", id), "fetching workload...")
}

/// Megabytes of a byte count: divided by 1024 twice, rounding toward zero.
pub open spec fn megabytes(bytes: int) -> int {
    div_toward_zero(div_toward_zero(bytes, 1024), 1024)
}

/// Gigabytes of a byte count: divided by 1024 three times, rounding toward zero.
pub open spec fn gigabytes(bytes: int) -> int {
    div_toward_zero(megabytes(bytes), 1024)
}

/// A byte count is shown in whole megabytes (1024 * 1024 bytes) and whole gigabytes (1024
/// megabytes), rounded toward zero: a count that is not negative rounds down, and a negative
/// one shows as the negation of its magnitude.
pub proof fn law_units_round_toward_zero(bytes: int)
    ensures
        bytes >= 0 ==> megabytes(bytes) * 1048576 <= bytes < (megabytes(bytes) + 1) * 1048576,
        bytes >= 0 ==> gigabytes(bytes) * 1073741824 <= bytes < (gigabytes(bytes) + 1) * 1073741824,
        megabytes(-bytes) == -megabytes(bytes),
        gigabytes(-bytes) == -gigabytes(bytes),
{
    let b = if bytes >= 0 { bytes } else { -bytes };
    vstd::arithmetic::div_mod::lemma_div_denominator(b, 1024, 1024);
    vstd::arithmetic::div_mod::lemma_div_denominator(b, 1048576, 1024);
    assert(b / 1024 >= 0 && b / 1024 / 1024 >= 0) by (nonlinear_arith)
        requires
            b >= 0,
    ;
    assert(b / 1048576 >= 0 && b / 1048576 / 1024 >= 0) by (nonlinear_arith)
        requires
            b >= 0,
    ;
    let q = b / 1048576;
    assert(q * 1048576 <= b < (q + 1) * 1048576) by (nonlinear_arith)
        requires
            b >= 0,
            q == b / 1048576,
    ;
    let g = b / 1073741824;
    assert(g * 1073741824 <= b < (g + 1) * 1073741824) by (nonlinear_arith)
        requires
            b >= 0,
            g == b / 1073741824,
    ;
}

/// The update time, cut to its first sixteen bytes, or `-`.
pub open spec fn updated_text(u: Option<String>) -> Seq<char> {
    match u {
        Some(t) => byte_prefix(t@, 16),
        None => "-"@,
    }
}

/// What is shown of a workload.
pub open spec fn screen(w: Workload) -> Seq<LineView> {
    seq![
        LineView::Section("Workloads  /  Get"@),
        LineView::Kv("ID"@, w.id@),
        LineView::Kv("Name"@, w.name@),
        LineView::Kv("Image"@, w.image@),
        LineView::KvStyled("Status"@, w.status@, Some(status_color_of(w.status@))),
        LineView::Kv("CPU"@, signed_decimal(w.cpu_millicores as int) + " millicores"@),
        LineView::Kv("Memory"@, signed_decimal(megabytes(w.memory_bytes as int)) + " MB"@),
        LineView::Kv("Disk"@, signed_decimal(gigabytes(w.disk_bytes as int)) + " GB"@),
        LineView::Kv("Agent"@, text_or(w.assigned_agent_id, "-"@)),
        LineView::Kv("Container"@, text_or(w.container_id, "-"@)),
        LineView::Kv("Created"@, byte_prefix(w.created_at@, 16)),
        LineView::Kv("Updated"@, updated_text(w.updated_at)),
        LineView::Blank,
    ]
}

/// Each field of a workload is shown under its own key: the status in its status colour, the
/// processor share in millicores, the memory in megabytes and the disk in gigabytes, the agent
/// and the container when known (`-` only when not), and the times cut to sixteen bytes.
pub proof fn law_workload_fields_shown(w: Workload)
    ensures
        shows(screen(w), "ID"@, w.id@),
        shows(screen(w), "Name"@, w.name@),
        shows(screen(w), "Image"@, w.image@),
        shows(screen(w), "Status"@, w.status@),
        colors(screen(w), "Status"@, Some(status_color_of(w.status@))),
        shows(screen(w), "CPU"@, signed_decimal(w.cpu_millicores as int) + " millicores"@),
        shows(screen(w), "Memory"@, signed_decimal(megabytes(w.memory_bytes as int)) + " MB"@),
        shows(screen(w), "Disk"@, signed_decimal(gigabytes(w.disk_bytes as int)) + " GB"@),
        shows(screen(w), "Agent"@, match w.assigned_agent_id { Some(x) => x@, None => "-"@ }),
        shows(screen(w), "Container"@, match w.container_id { Some(x) => x@, None => "-"@ }),
        shows(screen(w), "Created"@, byte_prefix(w.created_at@, 16)),
        shows(screen(w), "Updated"@, match w.updated_at { Some(x) => byte_prefix(x@, 16), None => "-"@ }),
{
    let l = screen(w);
    reveal_strlit("ID");
    reveal_strlit("Name");
    reveal_strlit("Image");
    reveal_strlit("Status");
    reveal_strlit("CPU");
    reveal_strlit("Memory");
    reveal_strlit("Disk");
    reveal_strlit("Agent");
    reveal_strlit("Container");
    reveal_strlit("Created");
    reveal_strlit("Updated");
    assert("ID"@.len() == 2);
    assert("Name"@.len() == 4 && "Name"@[0] == 'N');
    assert("Image"@.len() == 5 && "Image"@[0] == 'I');
    assert("Status"@.len() == 6 && "Status"@[0] == 'S');
    assert("CPU"@.len() == 3);
    assert("Memory"@.len() == 6 && "Memory"@[0] == 'M');
    assert("Disk"@.len() == 4 && "Disk"@[0] == 'D');
    assert("Agent"@.len() == 5 && "Agent"@[0] == 'A');
    assert("Container"@.len() == 9);
    assert("Created"@.len() == 7 && "Created"@[0] == 'C');
    assert("Updated"@.len() == 7 && "Updated"@[0] == 'U');
    assert(line_key(l[1]) == Some("ID"@));
    assert(line_key(l[2]) == Some("Name"@));
    assert(line_key(l[3]) == Some("Image"@));
    assert(line_key(l[4]) == Some("Status"@));
    assert(line_key(l[5]) == Some("CPU"@));
    assert(line_key(l[6]) == Some("Memory"@));
    assert(line_key(l[7]) == Some("Disk"@));
    assert(line_key(l[8]) == Some("Agent"@));
    assert(line_key(l[9]) == Some("Container"@));
    assert(line_key(l[10]) == Some("Created"@));
    assert(line_key(l[11]) == Some("Updated"@));
}

/// Whether the workload's times can be cut to sixteen bytes.
pub open spec fn showable(w: Workload) -> bool {
    &&& can_show_upto(w.created_at@, 16)
    &&& (w.updated_at matches Some(t) ==> can_show_upto(t@, 16))
}

/// The lines that show a workload.
pub fn render(w: &Workload) -> (lines: Vec<Line>)
    requires
        showable(*w),
    ensures
        view_lines(lines@) == screen(*w),
{
    let mut lines: Vec<Line> = Vec::new();
    lines.push(section("Workloads  /  Get"));
    lines.push(kv("ID", w.id.as_str()));
    lines.push(kv("Name", w.name.as_str()));
    lines.push(kv("Image", w.image.as_str()));
    lines.push(kv_colored("Status", w.status.as_str(), status_color(w.status.as_str())));
    let cpu = concat(i32_to_string(w.cpu_millicores).as_str(), " millicores");
    lines.push(kv("CPU", cpu.as_str()));
    let mb = i64_div(i64_div(w.memory_bytes, 1024), 1024);
    let memory = concat(i64_to_string(mb).as_str(), " MB");
    lines.push(kv("Memory", memory.as_str()));
    let gb = i64_div(i64_div(i64_div(w.disk_bytes, 1024), 1024), 1024);
    let disk = concat(i64_to_string(gb).as_str(), " GB");
    lines.push(kv("Disk", disk.as_str()));
    lines.push(kv("Agent", or_text(&w.assigned_agent_id, "-").as_str()));
    lines.push(kv("Container", or_text(&w.container_id, "-").as_str()));
    lines.push(kv("Created", prefix_upto(w.created_at.as_str(), 16).as_str()));
    let updated = match &w.updated_at {
        Some(t) => prefix_upto(t.as_str(), 16),
        None => "-".to_owned(),
    };
    lines.push(kv("Updated", updated.as_str()));
    lines.push(Line::Blank);
    assert(view_lines(lines@) =~= screen(*w));
    lines
}

} // verus!
