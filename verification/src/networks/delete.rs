//! `networks delete`: remove a network.
use vstd::prelude::*;
use crate::display::{section, success, view_lines, Line, LineView};
use crate::request::{delete, ApiRequest, ApiRequestView, BodyView, Method};
use crate::text::concat;

verus! {

/// The request that deletes network `id`.
pub fn request(id: &str) -> (r: ApiRequest)
    ensures
        r@ == (ApiRequestView {
            method: Method::Delete,
            path: "/networks/"@ + id@,
            body: BodyView::Empty,
            spinner: Some("deleting network..."@),
        }),
{
    delete(concat("/networks/", id), "deleting network...")
}

/// What is shown once network `id` is deleted.
pub open spec fn screen(id: Seq<char>) -> Seq<LineView> {
    seq![LineView::Section("Networks  /  Delete"@), LineView::Success("network "@ + id + " deleted"@)]
}

/// Once a network is deleted, the message names that network.
pub proof fn law_delete_screen_names_network(id: Seq<char>)
    ensures
        screen(id).contains(LineView::Success("network "@ + id + " deleted"@)),
{
    assert(screen(id)[1] == LineView::Success("network "@ + id + " deleted"@));
}

/// The lines shown once network `id` is deleted.
pub fn render(id: &str) -> (lines: Vec<Line>)
    ensures
        view_lines(lines@) == screen(id@),
{
    let mut lines: Vec<Line> = Vec::new();
    lines.push(section("Networks  /  Delete"));
    let message = concat(concat("network ", id).as_str(), " deleted");
    lines.push(success(message.as_str()));
    assert(view_lines(lines@) =~= screen(id@));
    lines
}

} // verus!
