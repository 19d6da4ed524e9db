//! `system update` and `system update-status`: roll the control plane to a version, and read its update state.
use vstd::prelude::*;
use crate::config::Config;
use crate::display::{colors, line_key, shows, info, kv, kv_colored, section, success, view_lines, Color, Line, LineView};
use crate::request::{get_quietly, ApiRequest, ApiRequestView, BodyView, Method};
use crate::text::{concat, or_text, same_text, text_or, trim_end_slash, trim_end_slashes};

verus! {

/// One step of an update: show a line, or run `docker compose` with the given arguments.
#[derive(Debug, PartialEq, Eq)]
pub enum Step {
    Say(Line),
    Compose(Vec<String>),
}

/// What a step does.
pub enum StepView {
    Say(LineView),
    Compose(Seq<Seq<char>>),
}

impl View for Step {
    type V = StepView;

    open spec fn view(&self) -> StepView {
        match self {
            Step::Say(l) => StepView::Say(l@),
            Step::Compose(args) => StepView::Compose(args@.map_values(|a: String| a@)),
        }
    }
}

/// An update to carry out: the compose file, the image organisation and version it is run
/// with, and its steps, to be taken in order until one fails.
#[derive(Debug, PartialEq, Eq)]
pub struct UpdatePlan {
    pub compose_file: String,
    pub ghcr_org: String,
    pub version: String,
    pub steps: Vec<Step>,
}

/// The compose file in a directory.
pub open spec fn compose_file_in(dir: Seq<char>) -> Seq<char> {
    trim_end_slashes(dir) + "/docker-compose.prod.yml"@
}

/// The steps of an update: pull the images unless the organisation is `local`, then restart the services.
pub open spec fn update_steps(org: Seq<char>, version: Seq<char>) -> Seq<StepView> {
    (if org != "local"@ {
        seq![
            StepView::Say(LineView::Info("pulling images for version "@ + version)),
            StepView::Compose(seq!["pull"@]),
        ]
    } else {
        seq![StepView::Say(LineView::Info("local org detected, skipping pull"@))]
    }) + seq![
        StepView::Say(LineView::Info("restarting services"@)),
        StepView::Compose(seq!["up"@, "-d"@]),
        StepView::Say(LineView::Success("updated to "@ + version)),
    ]
}

/// With the `local` organisation an update never pulls: it announces so, then restarts the services.
pub proof fn law_local_org_never_pulls(version: Seq<char>)
    ensures
        forall|i: int| 0 <= i < update_steps("local"@, version).len() ==>
            #[trigger] update_steps("local"@, version)[i] != StepView::Compose(seq!["pull"@]),
        update_steps("local"@, version).len() == 4,
{
    let steps = update_steps("local"@, version);
    assert forall|i: int| 0 <= i < steps.len() implies #[trigger] steps[i] != StepView::Compose(seq!["pull"@]) by {
        if i == 2 {
            assert(seq!["up"@, "-d"@].len() != seq!["pull"@].len());
        }
    }
}

/// With any other organisation the images are pulled before the services are restarted,
/// and the restart is the only other `docker compose` run.
pub proof fn law_other_org_pulls_before_restart(org: Seq<char>, version: Seq<char>)
    requires
        org != "local"@,
    ensures
        update_steps(org, version).len() == 5,
        update_steps(org, version)[1] == StepView::Compose(seq!["pull"@]),
        update_steps(org, version)[3] == StepView::Compose(seq!["up"@, "-d"@]),
{
}

/// The steps of a plan.
pub open spec fn steps_view(steps: Seq<Step>) -> Seq<StepView> {
    steps.map_values(|s: Step| s@)
}

/// Whether `p` carries out an update to `version` with the compose directory and organisation given.
pub open spec fn plans(p: UpdatePlan, dir: Seq<char>, org: Seq<char>, version: Seq<char>) -> bool {
    &&& p.compose_file@ == compose_file_in(dir)
    &&& p.ghcr_org@ == org
    &&& p.version@ == version
    &&& steps_view(p.steps@) == update_steps(org, version)
}

fn say(l: Line) -> (s: Step)
    ensures
        s@ == StepView::Say(l@),
{
    Step::Say(l)
}

/// Plans an update from the saved settings; refused when there are none, or when the
/// compose directory or the image organisation is not set.
pub fn plan(config: &Option<Config>, version: &str) -> (r: Result<UpdatePlan, String>)
    ensures
        match config {
            None => (r matches Err(e) && e@ == "not configured, run: csfx login"@),
            Some(c) => match c.compose_dir {
                None => (r matches Err(e) && e@ == "compose_dir not set in ~/.csf/config.json"@),
                Some(dir) => match c.ghcr_org {
                    None => (r matches Err(e) && e@ == "ghcr_org not set in ~/.csf/config.json"@),
                    Some(org) => (r matches Ok(p) && plans(p, dir@, org@, version@)),
                },
            },
        },
{
    let c = match config {
        Some(c) => c,
        None => {
            return Err("not configured, run: csfx login".to_owned());
        },
    };
    let dir = match &c.compose_dir {
        Some(d) => d,
        None => {
            return Err("compose_dir not set in ~/.csf/config.json".to_owned());
        },
    };
    let org = match &c.ghcr_org {
        Some(o) => o,
        None => {
            return Err("ghcr_org not set in ~/.csf/config.json".to_owned());
        },
    };
    let compose_file = concat(trim_end_slash(dir.as_str()).as_str(), "/docker-compose.prod.yml");
    let mut steps: Vec<Step> = Vec::new();
    if !same_text(org.as_str(), "local") {
        steps.push(say(info(concat("pulling images for version ", version).as_str())));
        let mut args: Vec<String> = Vec::new();
        args.push("pull".to_owned());
        assert(args@.map_values(|a: String| a@) =~= seq!["pull"@]);
        steps.push(Step::Compose(args));
    } else {
        steps.push(say(info("local org detected, skipping pull")));
    }
    steps.push(say(info("restarting services")));
    let mut args: Vec<String> = Vec::new();
    args.push("up".to_owned());
    args.push("-d".to_owned());
    assert(args@.map_values(|a: String| a@) =~= seq!["up"@, "-d"@]);
    steps.push(Step::Compose(args));
    steps.push(say(success(concat("updated to ", version).as_str())));
    assert(steps_view(steps@) =~= update_steps(org@, version@));
    Ok(UpdatePlan { compose_file, ghcr_org: org.clone(), version: version.to_owned(), steps })
}

/// The arguments of a `docker compose` run on `compose_file`: `compose -f <file>` then `args`.
pub fn compose_args(compose_file: &str, args: &Vec<String>) -> (all: Vec<String>)
    ensures
        all@.map_values(|a: String| a@) == seq!["compose"@, "-f"@, compose_file@] + args@.map_values(
            |a: String| a@,
        ),
{
    let mut all: Vec<String> = Vec::new();
    all.push("compose".to_owned());
    all.push("-f".to_owned());
    all.push(compose_file.to_owned());
    let mut i: usize = 0;
    while i < args.len()
        invariant
            i <= args@.len(),
            all@.len() == 3 + i,
            all@[0]@ == "compose"@,
            all@[1]@ == "-f"@,
            all@[2]@ == compose_file@,
            forall|j: int| 0 <= j < i ==> (#[trigger] all@[3 + j])@ == args@[j]@,
        decreases args@.len() - i,
    {
        all.push(args[i].clone());
        i = i + 1;
    }
    assert(all@.map_values(|a: String| a@) =~= seq!["compose"@, "-f"@, compose_file@] + args@.map_values(
        |a: String| a@,
    )) by {
        assert forall|k: int| 3 <= k < all@.len() implies all@[k]@ == args@[k - 3]@ by {
            assert(all@[3 + (k - 3)]@ == args@[k - 3]@);
        }
    }
    all
}

/// The words of a list joined by single spaces.
pub open spec fn spaced(words: Seq<Seq<char>>) -> Seq<char>
    decreases words.len(),
{
    if words.len() == 0 {
        seq![]
    } else if words.len() == 1 {
        words[0]
    } else {
        spaced(words.drop_last()) + " "@ + words.last()
    }
}

/// The message of a failed `docker compose` run: its arguments and how it exited.
pub fn compose_failure(args: &Vec<String>, exit: &str) -> (m: String)
    ensures
        m@ == "docker compose "@ + spaced(args@.map_values(|a: String| a@)) + " failed: exit "@ + exit@,
{
    let ghost words = args@.map_values(|a: String| a@);
    let mut joined = String::new();
    let mut i: usize = 0;
    while i < args.len()
        invariant
            i <= args@.len(),
            words == args@.map_values(|a: String| a@),
            joined@ == spaced(words.subrange(0, i as int)),
        decreases args@.len() - i,
    {
        assert(words.subrange(0, i + 1).drop_last() =~= words.subrange(0, i as int));
        if i > 0 {
            joined.append(" ");
        }
        joined.append(args[i].as_str());
        assert(joined@ =~= spaced(words.subrange(0, i + 1)));
        i = i + 1;
    }
    assert(words.subrange(0, args@.len() as int) =~= words);
    let mut m = concat("docker compose ", joined.as_str());
    m.append(" failed: exit ");
    m.append(exit);
    m
}

/// The request for the control plane's update state.
pub fn status_request() -> (r: ApiRequest)
    ensures
        r@ == (ApiRequestView {
            method: Method::Get,
            path: "/system/update/status"@,
            body: BodyView::Empty,
            spinner: None,
        }),
{
    get_quietly("/system/update/status".to_owned())
}

/// The colour of the last update's result.
pub open spec fn result_color_of(result: Seq<char>) -> Color {
    if result == "success"@ {
        Color::Green
    } else if result == "failed"@ {
        Color::Red
    } else if result == "in_progress"@ {
        Color::Yellow
    } else {
        Color::White
    }
}

/// The colour of the last update's result: green on success, red on failure, yellow while in progress.
pub fn result_color(result: &str) -> (c: Color)
    ensures
        c == result_color_of(result@),
{
    if same_text(result, "success") {
        Color::Green
    } else if same_text(result, "failed") {
        Color::Red
    } else if same_text(result, "in_progress") {
        Color::Yellow
    } else {
        Color::White
    }
}

/// What is shown of the update state; fields the server left out (or sent as other than text) read `-`.
pub open spec fn status_screen(current: Option<String>, desired: Option<String>, last: Option<String>) -> Seq<
    LineView,
> {
    let result = text_or(last, "-"@);
    seq![
        LineView::Section("Control Plane Update Status"@),
        LineView::Kv("current"@, text_or(current, "-"@)),
        LineView::Kv("desired"@, text_or(desired, "-"@)),
        LineView::KvStyled("last result"@, result, Some(result_color_of(result))),
    ]
}

/// The current and desired versions and the last result are each shown under their own key,
/// `-` when the server left one out; the last result is green on `success`, red on `failed`,
/// yellow on `in_progress` and white otherwise.
pub proof fn law_update_status_shown(current: Option<String>, desired: Option<String>, last: Option<String>)
    ensures
        shows(status_screen(current, desired, last), "current"@, match current { Some(c) => c@, None => "-"@ }),
        shows(status_screen(current, desired, last), "desired"@, match desired { Some(d) => d@, None => "-"@ }),
        shows(status_screen(current, desired, last), "last result"@, match last { Some(r) => r@, None => "-"@ }),
        colors(status_screen(current, desired, last), "last result"@, Some(
            match last {
                Some(r) => if r@ == "success"@ {
                    Color::Green
                } else if r@ == "failed"@ {
                    Color::Red
                } else if r@ == "in_progress"@ {
                    Color::Yellow
                } else {
                    Color::White
                },
                None => Color::White,
            },
        )),
{
    reveal_strlit("current");
    reveal_strlit("desired");
    reveal_strlit("last result");
    assert("current"@.len() == 7 && "current"@[0] == 'c');
    assert("desired"@.len() == 7 && "desired"@[0] == 'd');
    assert("last result"@.len() == 11);
    reveal_strlit("-");
    reveal_strlit("success");
    reveal_strlit("failed");
    reveal_strlit("in_progress");
    assert("-"@.len() == 1);
    assert("success"@.len() == 7);
    assert("failed"@.len() == 6);
    assert("in_progress"@.len() == 11);
    let l = status_screen(current, desired, last);
    assert(line_key(l[1]) == Some("current"@));
    assert(line_key(l[2]) == Some("desired"@));
    assert(line_key(l[3]) == Some("last result"@));
}

/// The lines that show the update state.
pub fn status_lines(current: &Option<String>, desired: &Option<String>, last: &Option<String>) -> (lines: Vec<Line>)
    ensures
        view_lines(lines@) == status_screen(*current, *desired, *last),
{
    let mut lines: Vec<Line> = Vec::new();
    lines.push(section("Control Plane Update Status"));
    lines.push(kv("current", or_text(current, "-").as_str()));
    lines.push(kv("desired", or_text(desired, "-").as_str()));
    let result = or_text(last, "-");
    lines.push(kv_colored("last result", result.as_str(), result_color(result.as_str())));
    assert(view_lines(lines@) =~= status_screen(*current, *desired, *last));
    lines
}

} // verus!
