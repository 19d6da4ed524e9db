//! `volumes create`: a new volume.
use vstd::prelude::*;
use crate::display::{colors, line_key, shows, kv, kv_colored, section, status_color, status_color_of, success, view_lines, Line, LineView};
use crate::request::{sends, sends_nothing_under, int_field, post, str_field, ApiRequest, ApiRequestView, Body, BodyView, Method, Value, ValueView};
use crate::text::{concat, i32_to_string, signed_decimal};

verus! {

/// A created volume as the server describes it.
#[derive(Debug, PartialEq, Eq)]
pub struct Volume {
    pub id: String,
    pub name: String,
    pub size_gb: i32,
    pub pool: String,
    pub status: String,
}

/// The fields of the request body: the name and size, and the pool when one is given.
pub open spec fn body_fields(name: Seq<char>, size_gb: i32, pool: Option<String>) -> Seq<(Seq<char>, ValueView)> {
    let base = seq![("name"@, ValueView::Str(name)), ("size_gb"@, ValueView::Int(size_gb as int))];
    match pool {
        Some(p) => base.push(("pool"@, ValueView::Str(p@))),
        None => base,
    }
}

/// The name and the size of a new volume are sent under their own fields, as text and as a
/// number of gigabytes; the pool is sent as text when given, and no pool field at all when not.
pub proof fn law_body_fields_carry_arguments(name: Seq<char>, size_gb: i32, pool: Option<String>)
    ensures
        sends(body_fields(name, size_gb, pool), "name"@, ValueView::Str(name)),
        sends(body_fields(name, size_gb, pool), "size_gb"@, ValueView::Int(size_gb as int)),
        match pool {
            Some(p) => sends(body_fields(name, size_gb, pool), "pool"@, ValueView::Str(p@)),
            None => sends_nothing_under(body_fields(name, size_gb, pool), "pool"@),
        },
{
    let f = body_fields(name, size_gb, pool);
    reveal_strlit("name");
    reveal_strlit("size_gb");
    reveal_strlit("pool");
    assert("name"@.len() == 4 && "name"@[0] == 'n');
    assert("size_gb"@.len() == 7);
    assert("pool"@.len() == 4 && "pool"@[0] == 'p');
    assert(f[0].0 == "name"@);
    assert(f[1].0 == "size_gb"@);
    if pool is Some {
        assert(f[2].0 == "pool"@);
    }
}

/// The request that creates a volume.
pub fn request(name: &str, size_gb: i32, pool: &Option<String>) -> (r: ApiRequest)
    ensures
        r@ == (ApiRequestView {
            method: Method::Post,
            path: "/volumes"@,
            body: BodyView::Object(body_fields(name@, size_gb, *pool)),
            spinner: Some("creating volume..."@),
        }),
{
    let mut fields: Vec<(String, Value)> = Vec::new();
    fields.push(str_field("name", name));
    fields.push(int_field("size_gb", size_gb as i64));
    match pool {
        Some(p) => fields.push(str_field("pool", p.as_str())),
        None => {},
    }
    let body = Body::Object(fields);
    assert(body@ == BodyView::Object(body_fields(name@, size_gb, *pool))) by {
        assert(crate::request::fields_view(fields@) =~= body_fields(name@, size_gb, *pool));
    }
    post("/volumes".to_owned(), body, "creating volume...")
}

/// What is shown of a created volume.
pub open spec fn screen(v: Volume) -> Seq<LineView> {
    seq![
        LineView::Section("Volume Created"@),
        LineView::Kv("ID"@, v.id@),
        LineView::Kv("Name"@, v.name@),
        LineView::Kv("Size"@, signed_decimal(v.size_gb as int) + "G"@),
        LineView::Kv("Pool"@, v.pool@),
        LineView::KvStyled("Status"@, v.status@, Some(status_color_of(v.status@))),
        LineView::Blank,
        LineView::Success("volume created"@),
    ]
}

/// Each field of the new volume is shown under its own key: the size in gigabytes and the
/// status in its status colour.
pub proof fn law_created_volume_shown(v: Volume)
    ensures
        shows(screen(v), "ID"@, v.id@),
        shows(screen(v), "Name"@, v.name@),
        shows(screen(v), "Size"@, signed_decimal(v.size_gb as int) + "G"@),
        shows(screen(v), "Pool"@, v.pool@),
        shows(screen(v), "Status"@, v.status@),
        colors(screen(v), "Status"@, Some(status_color_of(v.status@))),
{
    let l = screen(v);
    reveal_strlit("ID");
    reveal_strlit("Name");
    reveal_strlit("Size");
    reveal_strlit("Pool");
    reveal_strlit("Status");
    assert("ID"@.len() == 2);
    assert("Name"@.len() == 4 && "Name"@[0] == 'N');
    assert("Size"@.len() == 4 && "Size"@[0] == 'S');
    assert("Pool"@.len() == 4 && "Pool"@[0] == 'P');
    assert("Status"@.len() == 6);
    assert(line_key(l[1]) == Some("ID"@));
    assert(line_key(l[2]) == Some("Name"@));
    assert(line_key(l[3]) == Some("Size"@));
    assert(line_key(l[4]) == Some("Pool"@));
    assert(line_key(l[5]) == Some("Status"@));
}

/// The lines that show a created volume.
pub fn render(v: &Volume) -> (lines: Vec<Line>)
    ensures
        view_lines(lines@) == screen(*v),
{
    let mut lines: Vec<Line> = Vec::new();
    lines.push(section("Volume Created"));
    lines.push(kv("ID", v.id.as_str()));
    lines.push(kv("Name", v.name.as_str()));
    let size = concat(i32_to_string(v.size_gb).as_str(), "G");
    lines.push(kv("Size", size.as_str()));
    lines.push(kv("Pool", v.pool.as_str()));
    lines.push(kv_colored("Status", v.status.as_str(), status_color(v.status.as_str())));
    lines.push(Line::Blank);
    lines.push(success("volume created"));
    assert(view_lines(lines@) =~= screen(*v));
    lines
}

} // verus!
