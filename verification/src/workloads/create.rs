//! `workloads create`: schedule a workload.
use vstd::prelude::*;
use crate::display::{colors, line_key, shows, kv, kv_colored, section, status_color, status_color_of, success, view_lines, warn, Line, LineView};
use crate::request::{fields_view, int_field, post, sends, str_field, ApiRequest, ApiRequestView, Body, BodyView, Method, Value, ValueView};
use crate::text::{or_text, text_or};

verus! {

/// The server's answer to a scheduling request.
#[derive(Debug, PartialEq, Eq)]
pub struct CreateResponse {
    pub workload_id: String,
    pub status: String,
    pub assigned_agent_id: Option<String>,
    pub message: String,
}

/// The fields of a scheduling request.
pub open spec fn create_fields(name: Seq<char>, image: Seq<char>, cpu: i32, memory: i64, disk: i64) -> Seq<
    (Seq<char>, ValueView),
> {
    seq![
        ("name"@, ValueView::Str(name)),
        ("image"@, ValueView::Str(image)),
        ("cpu_millicores"@, ValueView::Int(cpu as int)),
        ("memory_bytes"@, ValueView::Int(memory as int)),
        ("disk_bytes"@, ValueView::Int(disk as int)),
    ]
}

/// Each argument of a new workload is sent under its own field: the name and the image as
/// text, the processor share in millicores and the memory and disk in bytes as numbers.
pub proof fn law_create_fields_carry_arguments(name: Seq<char>, image: Seq<char>, cpu: i32, memory: i64, disk: i64)
    ensures
        sends(create_fields(name, image, cpu, memory, disk), "name"@, ValueView::Str(name)),
        sends(create_fields(name, image, cpu, memory, disk), "image"@, ValueView::Str(image)),
        sends(create_fields(name, image, cpu, memory, disk), "cpu_millicores"@, ValueView::Int(cpu as int)),
        sends(create_fields(name, image, cpu, memory, disk), "memory_bytes"@, ValueView::Int(memory as int)),
        sends(create_fields(name, image, cpu, memory, disk), "disk_bytes"@, ValueView::Int(disk as int)),
{
    let f = create_fields(name, image, cpu, memory, disk);
    reveal_strlit("name");
    reveal_strlit("image");
    reveal_strlit("cpu_millicores");
    reveal_strlit("memory_bytes");
    reveal_strlit("disk_bytes");
    assert("name"@.len() == 4);
    assert("image"@.len() == 5);
    assert("cpu_millicores"@.len() == 14);
    assert("memory_bytes"@.len() == 12);
    assert("disk_bytes"@.len() == 10);
    assert(f[0].0 == "name"@);
    assert(f[1].0 == "image"@);
    assert(f[2].0 == "cpu_millicores"@);
    assert(f[3].0 == "memory_bytes"@);
    assert(f[4].0 == "disk_bytes"@);
}

/// The request that schedules a workload.
pub fn request(name: &str, image: &str, cpu: i32, memory: i64, disk: i64) -> (r: ApiRequest)
    ensures
        r@ == (ApiRequestView {
            method: Method::Post,
            path: "/workloads"@,
            body: BodyView::Object(create_fields(name@, image@, cpu, memory, disk)),
            spinner: Some("scheduling workload..."@),
        }),
{
    let mut fields: Vec<(String, Value)> = Vec::new();
    fields.push(str_field("name", name));
    fields.push(str_field("image", image));
    fields.push(int_field("cpu_millicores", cpu as i64));
    fields.push(int_field("memory_bytes", memory));
    fields.push(int_field("disk_bytes", disk));
    assert(fields_view(fields@) =~= create_fields(name@, image@, cpu, memory, disk));
    post("/workloads".to_owned(), Body::Object(fields), "scheduling workload...")
}

/// What is shown of a scheduled workload: success when an agent took it, a warning when it waits.
pub open spec fn screen(r: CreateResponse) -> Seq<LineView> {
    seq![
        LineView::Section("Workloads  /  Create"@),
        LineView::Kv("Workload ID"@, r.workload_id@),
        LineView::KvStyled("Status"@, r.status@, Some(status_color_of(r.status@))),
        LineView::Kv("Assigned Agent"@, text_or(r.assigned_agent_id, "none (pending)"@)),
        LineView::Kv("Message"@, r.message@),
        LineView::Blank,
        if r.assigned_agent_id is Some {
            LineView::Success("workload scheduled"@)
        } else {
            LineView::Warn("no suitable agent available, workload is pending"@)
        },
    ]
}

/// Each field of the answer is shown under its own key, the status in its status colour and
/// the assigned agent when there is one (`none (pending)` only when not); the last line says
/// that the workload was scheduled exactly when an agent was assigned.
pub proof fn law_scheduled_workload_shown(r: CreateResponse)
    ensures
        shows(screen(r), "Workload ID"@, r.workload_id@),
        shows(screen(r), "Status"@, r.status@),
        colors(screen(r), "Status"@, Some(status_color_of(r.status@))),
        shows(screen(r), "Assigned Agent"@, match r.assigned_agent_id { Some(a) => a@, None => "none (pending)"@ }),
        shows(screen(r), "Message"@, r.message@),
        (screen(r).last() is Success) == (r.assigned_agent_id is Some),
{
    let l = screen(r);
    reveal_strlit("Workload ID");
    reveal_strlit("Status");
    reveal_strlit("Assigned Agent");
    reveal_strlit("Message");
    assert("Workload ID"@.len() == 11);
    assert("Status"@.len() == 6);
    assert("Assigned Agent"@.len() == 14);
    assert("Message"@.len() == 7);
    assert(line_key(l[1]) == Some("Workload ID"@));
    assert(line_key(l[2]) == Some("Status"@));
    assert(line_key(l[3]) == Some("Assigned Agent"@));
    assert(line_key(l[4]) == Some("Message"@));
}

/// The lines that show a scheduled workload.
pub fn render(r: &CreateResponse) -> (lines: Vec<Line>)
    ensures
        view_lines(lines@) == screen(*r),
{
    let mut lines: Vec<Line> = Vec::new();
    lines.push(section("Workloads  /  Create"));
    lines.push(kv("Workload ID", r.workload_id.as_str()));
    lines.push(kv_colored("Status", r.status.as_str(), status_color(r.status.as_str())));
    lines.push(kv("Assigned Agent", or_text(&r.assigned_agent_id, "none (pending)").as_str()));
    lines.push(kv("Message", r.message.as_str()));
    lines.push(Line::Blank);
    if r.assigned_agent_id.is_some() {
        lines.push(success("workload scheduled"));
    } else {
        lines.push(warn("no suitable agent available, workload is pending"));
    }
    assert(view_lines(lines@) =~= screen(*r));
    lines
}

} // verus!
