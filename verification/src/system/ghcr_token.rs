//! `system set-ghcr-token`: store the credentials the control plane pulls images with.
use vstd::prelude::*;
use crate::display::{error, success, view_lines, Line, LineView};
use crate::request::{fields_view, post_quietly, sends, str_field, ApiRequest, ApiRequestView, Body, BodyView, Method, Value, ValueView};
use crate::text::concat;

verus! {

/// The fields of the stored credentials.
pub open spec fn token_fields(username: Seq<char>, token: Seq<char>) -> Seq<(Seq<char>, ValueView)> {
    seq![("username"@, ValueView::Str(username)), ("token"@, ValueView::Str(token))]
}

/// The user name and the token are each sent as text under their own field.
pub proof fn law_token_fields_carry_arguments(username: Seq<char>, token: Seq<char>)
    ensures
        sends(token_fields(username, token), "username"@, ValueView::Str(username)),
        sends(token_fields(username, token), "token"@, ValueView::Str(token)),
{
    let f = token_fields(username, token);
    reveal_strlit("username");
    reveal_strlit("token");
    assert("username"@.len() == 8);
    assert("token"@.len() == 5);
    assert(f[0].0 == "username"@);
    assert(f[1].0 == "token"@);
}

/// The request that stores `username` and `token`; an empty token is refused.
pub fn request(username: &str, token: &str) -> (r: Result<ApiRequest, String>)
    ensures
        token@.len() == 0 ==> (r matches Err(e) && e@ == "token must not be empty"@),
        token@.len() != 0 ==> (r matches Ok(q) && q@ == (ApiRequestView {
            method: Method::Post,
            path: "/system/ghcr-token"@,
            body: BodyView::Object(token_fields(username@, token@)),
            spinner: None,
        })),
{
    if token.is_empty() {
        return Err("token must not be empty".to_owned());
    }
    let mut fields: Vec<(String, Value)> = Vec::new();
    fields.push(str_field("username", username));
    fields.push(str_field("token", token));
    assert(fields_view(fields@) =~= token_fields(username@, token@));
    Ok(post_quietly("/system/ghcr-token".to_owned(), Body::Object(fields)))
}

/// The error line shown when the server refuses, with its status and answer.
pub fn failed(status: &str, body: &str) -> (lines: Vec<Line>)
    ensures
        view_lines(lines@) == seq![LineView::Error("request failed: "@ + status@ + " "@ + body@)],
{
    let mut message = concat("request failed: ", status);
    message.append(" ");
    message.append(body);
    let mut lines: Vec<Line> = Vec::new();
    lines.push(error(message.as_str()));
    assert(view_lines(lines@) =~= seq![LineView::Error("request failed: "@ + status@ + " "@ + body@)]);
    lines
}

/// The line shown once the token is stored.
pub fn stored() -> (lines: Vec<Line>)
    ensures
        view_lines(lines@) == seq![LineView::Success("ghcr token stored"@)],
{
    let mut lines: Vec<Line> = Vec::new();
    lines.push(success("ghcr token stored"));
    assert(view_lines(lines@) =~= seq![LineView::Success("ghcr token stored"@)]);
    lines
}

} // verus!
