//! The styled messages that describe pipelines, jobs, projects, keys and tokens.
//! Values that depend on the clock (how long ago something happened) are computed by the
//! caller and handed in as text.
use vstd::prelude::*;
use crate::render::{pieces_view, Piece};
use crate::status::{severity, status_style, StatusState, Style};
use crate::text::{digits, digits_of, duration_text};
use crate::tokens::{scope_name, PersonalAccessTokenScope};
use crate::types::{Job, PersonalAccessToken, Pipeline, Project, SshKey, User};

verus! {

/// The name of each status as it is displayed.
pub open spec fn status_label(s: StatusState) -> Seq<char> {
    match s {
        StatusState::Created => "Created"@,
        StatusState::WaitingForResource => "WaitingForResource"@,
        StatusState::Preparing => "Preparing"@,
        StatusState::Pending => "Pending"@,
        StatusState::Running => "Running"@,
        StatusState::Success => "Success"@,
        StatusState::Failed => "Failed"@,
        StatusState::Canceled => "Canceled"@,
        StatusState::Skipped => "Skipped"@,
        StatusState::Manual => "Manual"@,
        StatusState::Scheduled => "Scheduled"@,
    }
}

/// The name of a status as it is displayed.
pub fn status_text(s: StatusState) -> (r: &'static str)
    ensures
        r@ == status_label(s),
{
    match s {
        StatusState::Created => "Created",
        StatusState::WaitingForResource => "WaitingForResource",
        StatusState::Preparing => "Preparing",
        StatusState::Pending => "Pending",
        StatusState::Running => "Running",
        StatusState::Success => "Success",
        StatusState::Failed => "Failed",
        StatusState::Canceled => "Canceled",
        StatusState::Skipped => "Skipped",
        StatusState::Manual => "Manual",
        StatusState::Scheduled => "Scheduled",
    }
}

/// Appends one piece.
fn put(out: &mut Vec<Piece>, style: Style, text: String)
    ensures
        pieces_view(final(out)@) == pieces_view(old(out)@).push((style, text@)),
{
    let ghost t = text@;
    out.push(Piece { style, text });
    assert(pieces_view(out@) =~= pieces_view(old(out)@).push((style, t)));
}

/// `a`, `b` and `c` joined.
fn join3(a: &str, b: &str, c: &str) -> (r: String)
    ensures
        r@ == a@ + b@ + c@,
{
    String::from_str(a).concat(b).concat(c)
}

/// The status of a run, styled by its severity.
pub open spec fn status_piece(s: StatusState) -> (Style, Seq<char>) {
    (severity(s), status_label(s))
}

/// The header written before a job's log.
pub open spec fn log_header_spec(job: Job, url: bool) -> Seq<(Style, Seq<char>)> {
    seq![
        (Style::Plain, "Log for job "@),
        (Style::Literal, digits_of(job.id.0 as nat)),
        (Style::Plain, " - "@),
        status_piece(job.status),
    ] + (if url {
        seq![(Style::Hint, " ("@ + job.web_url@ + ")"@)]
    } else {
        Seq::empty()
    }) + seq![(Style::Plain, "\n\n"@)]
}

/// The header written before a job's log.
pub fn log_header(job: &Job, url: bool) -> (r: Vec<Piece>)
    ensures
        pieces_view(r@) == log_header_spec(*job, url),
{
    let mut out: Vec<Piece> = Vec::new();
    put(&mut out, Style::Plain, String::from_str("Log for job "));
    put(&mut out, Style::Literal, digits(job.id.0));
    put(&mut out, Style::Plain, String::from_str(" - "));
    put(&mut out, status_style(job.status), String::from_str(status_text(job.status)));
    if url {
        put(&mut out, Style::Hint, join3(" (", job.web_url.as_str(), ")"));
    }
    put(&mut out, Style::Plain, String::from_str("\n\n"));
    assert(pieces_view(out@) =~= log_header_spec(*job, url));
    out
}

/// One line of a job list: id, name, stage, duration when it has started, status, and
/// its page when URLs are shown.
pub open spec fn job_line(job: Job, now: i64, url: bool) -> Seq<(Style, Seq<char>)> {
    seq![
        (Style::Plain, "- Job "@),
        (Style::Literal, digits_of(job.id.0 as nat)),
        (Style::Plain, " "@ + job.name@ + " "@),
        (Style::Hint, "("@ + job.stage@ + ")"@),
    ] + (match job.started_at {
        Some(start) => seq![
            (Style::Plain, " ["@),
            (Style::Literal, duration_text(
                match job.finished_at {
                    Some(end) => end,
                    None => now,
                }.wrapping_sub(start),
            )),
            (Style::Plain, "]"@),
        ],
        None => Seq::empty(),
    }) + seq![(Style::Plain, " - "@), status_piece(job.status)] + (if url {
        seq![(Style::Hint, " ("@ + job.web_url@ + "))"@)]
    } else {
        Seq::empty()
    }) + seq![(Style::Plain, "\n"@)]
}

/// The lines of `jobs`, last job first.
pub open spec fn job_lines_reversed(jobs: Seq<Job>, now: i64, url: bool) -> Seq<(Style, Seq<char>)>
    decreases jobs.len(),
{
    if jobs.len() == 0 {
        Seq::empty()
    } else {
        job_lines_reversed(jobs.drop_first(), now, url) + job_line(jobs[0], now, url)
    }
}

/// A job list in run order (the API lists the newest first), then an empty line; nothing
/// for no job.
pub open spec fn jobs_message_spec(jobs: Seq<Job>, now: i64, url: bool) -> Seq<(Style, Seq<char>)> {
    if jobs.len() == 0 {
        Seq::empty()
    } else {
        job_lines_reversed(jobs, now, url).push((Style::Plain, "\n"@))
    }
}

/// Appends the line of one job.
fn put_job_line(out: &mut Vec<Piece>, job: &Job, now: i64, url: bool)
    ensures
        pieces_view(final(out)@) == pieces_view(old(out)@) + job_line(*job, now, url),
{
    let ghost o = pieces_view(out@);
    put(out, Style::Plain, String::from_str("- Job "));
    put(out, Style::Literal, digits(job.id.0));
    put(out, Style::Plain, join3(" ", job.name.as_str(), " "));
    put(out, Style::Hint, join3("(", job.stage.as_str(), ")"));
    match job.duration(now) {
        Some(d) => {
            put(out, Style::Plain, String::from_str(" ["));
            put(out, Style::Literal, d);
            put(out, Style::Plain, String::from_str("]"));
        },
        None => {},
    }
    put(out, Style::Plain, String::from_str(" - "));
    put(out, status_style(job.status), String::from_str(status_text(job.status)));
    if url {
        put(out, Style::Hint, join3(" (", job.web_url.as_str(), "))"));
    }
    put(out, Style::Plain, String::from_str("\n"));
    assert(pieces_view(out@) =~= o + job_line(*job, now, url));
}

/// The list of `jobs` in run order; `now` is the current time, for jobs still running.
pub fn jobs_message(jobs: &Vec<Job>, now: i64, url: bool) -> (r: Vec<Piece>)
    ensures
        pieces_view(r@) == jobs_message_spec(jobs@, now, url),
{
    let mut out: Vec<Piece> = Vec::new();
    if jobs.len() == 0 {
        assert(pieces_view(out@) =~= Seq::<(Style, Seq<char>)>::empty());
        return out;
    }
    let n = jobs.len();
    let mut i = n;
    assert(jobs@.subrange(n as int, n as int) =~= Seq::<Job>::empty());
    assert(pieces_view(out@) =~= Seq::<(Style, Seq<char>)>::empty());
    while i > 0
        invariant
            i <= n,
            n == jobs.len(),
            pieces_view(out@) == job_lines_reversed(jobs@.subrange(i as int, n as int), now, url),
        decreases i,
    {
        put_job_line(&mut out, &jobs[i - 1], now, url);
        assert(jobs@.subrange(i - 1, n as int).drop_first() =~= jobs@.subrange(i as int, n as int));
        i = i - 1;
    }
    assert(jobs@.subrange(0, n as int) =~= jobs@);
    put(&mut out, Style::Plain, String::from_str("\n"));
    out
}

/// The first eight characters of a commit id, or all of it when shorter.
pub open spec fn short_sha(sha: Seq<char>) -> Seq<char> {
    if sha.len() <= 8 {
        sha
    } else {
        sha.take(8)
    }
}

/// A one-line description of a pipeline: id, project, ref and commit, how long ago it
/// was created (`ago`, when known), status, and its page when URLs are shown.
pub open spec fn pipeline_line(
    p: Pipeline,
    project_name: Seq<char>,
    ago: Option<Seq<char>>,
    url: bool,
) -> Seq<(Style, Seq<char>)> {
    seq![
        (Style::Plain, "Pipeline "@),
        (Style::Literal, digits_of(p.id.0 as nat)),
        (Style::Plain, " ("@ + project_name + " @ "@ + match p.ref_ {
            Some(r) => r@,
            None => "??"@,
        } + " = "@ + short_sha(p.sha.0@) + ")"@),
    ] + (match ago {
        Some(a) => seq![(Style::Plain, " ["@), (Style::Literal, a), (Style::Plain, "]"@)],
        None => Seq::empty(),
    }) + seq![(Style::Plain, " - "@), status_piece(p.status)] + (if url {
        seq![(Style::Hint, " ("@ + p.web_url@ + ")"@)]
    } else {
        Seq::empty()
    }) + seq![(Style::Plain, "\n"@)]
}

/// Appends the description of a pipeline.
pub fn put_pipeline_line(
    out: &mut Vec<Piece>,
    p: &Pipeline,
    project_name: &String,
    ago: Option<String>,
    url: bool,
)
    ensures
        pieces_view(final(out)@) == pieces_view(old(out)@) + pipeline_line(
            *p,
            project_name@,
            ago.deep_view(),
            url,
        ),
{
    let ghost o = pieces_view(out@);
    let ghost ag = ago.deep_view();
    put(out, Style::Plain, String::from_str("Pipeline "));
    put(out, Style::Literal, digits(p.id.0));
    let sha = p.sha.0.as_str();
    let n = sha.unicode_len();
    let short = if n <= 8 {
        sha.substring_char(0, n)
    } else {
        sha.substring_char(0, 8)
    };
    let mut text = join3(" (", project_name.as_str(), " @ ");
    match &p.ref_ {
        Some(r) => text.append(r.as_str()),
        None => text.append("??"),
    }
    text.append(" = ");
    text.append(short);
    text.append(")");
    put(out, Style::Plain, text);
    match ago {
        Some(a) => {
            put(out, Style::Plain, String::from_str(" ["));
            put(out, Style::Literal, a);
            put(out, Style::Plain, String::from_str("]"));
        },
        None => {},
    }
    put(out, Style::Plain, String::from_str(" - "));
    put(out, status_style(p.status), String::from_str(status_text(p.status)));
    if url {
        put(out, Style::Hint, join3(" (", p.web_url.as_str(), ")"));
    }
    put(out, Style::Plain, String::from_str("\n"));
    assert(short@ =~= short_sha(p.sha.0@));
    assert(pieces_view(out@) =~= o + pipeline_line(*p, project_name@, ag, url));
}

/// The header line of a project at a ref.
pub open spec fn project_message_spec(p: Project, ref_: Seq<char>, url: bool) -> Seq<
    (Style, Seq<char>),
> {
    seq![
        (Style::Plain, "Project "@),
        (Style::Literal, digits_of(p.id.0 as nat)),
        (Style::Plain, " ( "@),
        (Style::Literal, p.name_with_namespace@),
        (Style::Plain, " @ "@),
        (Style::Literal, ref_),
        (Style::Plain, " ) "@),
    ] + (if url {
        seq![(Style::Hint, "("@ + p.web_url@ + ")"@)]
    } else {
        Seq::empty()
    }) + seq![(Style::Plain, "\n"@)]
}

/// The header line of a project at a ref.
pub fn project_message(p: &Project, ref_: &String, url: bool) -> (r: Vec<Piece>)
    ensures
        pieces_view(r@) == project_message_spec(*p, ref_@, url),
{
    let mut out: Vec<Piece> = Vec::new();
    put(&mut out, Style::Plain, String::from_str("Project "));
    put(&mut out, Style::Literal, digits(p.id.0));
    put(&mut out, Style::Plain, String::from_str(" ( "));
    put(&mut out, Style::Literal, p.name_with_namespace.clone());
    put(&mut out, Style::Plain, String::from_str(" @ "));
    put(&mut out, Style::Literal, ref_.clone());
    put(&mut out, Style::Plain, String::from_str(" ) "));
    if url {
        put(&mut out, Style::Hint, join3("(", p.web_url.as_str(), ")"));
    }
    put(&mut out, Style::Plain, String::from_str("\n"));
    assert(pieces_view(out@) =~= project_message_spec(*p, ref_@, url));
    out
}

/// The entries of a pipeline list, each a dash and the pipeline's description.
pub open spec fn pipeline_entries(
    ps: Seq<Pipeline>,
    agos: Seq<Option<Seq<char>>>,
    project_name: Seq<char>,
    url: bool,
) -> Seq<(Style, Seq<char>)>
    decreases ps.len(),
{
    if ps.len() == 0 || agos.len() == 0 {
        Seq::empty()
    } else {
        pipeline_entries(ps.drop_last(), agos.drop_last(), project_name, url).push(
            (Style::Plain, "- "@),
        ) + pipeline_line(ps.last(), project_name, agos.last(), url)
    }
}

/// The list of a project's pipelines; `agos[i]` tells how long ago `ps[i]` was created.
pub open spec fn pipelines_message_spec(
    ps: Seq<Pipeline>,
    agos: Seq<Option<Seq<char>>>,
    project_name: Seq<char>,
    url: bool,
) -> Seq<(Style, Seq<char>)> {
    if ps.len() == 0 {
        seq![(Style::Plain, "No pipelines found for "@), (Style::Literal, project_name)]
    } else {
        seq![
            (Style::Plain, "Pipelines for "@),
            (Style::Literal, project_name),
            (Style::Plain, "\n"@),
        ] + pipeline_entries(ps, agos, project_name, url)
    }
}

/// The list of a project's pipelines; `agos[i]` tells how long ago `ps[i]` was created.
pub fn pipelines_message(
    ps: &Vec<Pipeline>,
    agos: &Vec<Option<String>>,
    project_name: &String,
    url: bool,
) -> (r: Vec<Piece>)
    requires
        ps.len() == agos.len(),
    ensures
        pieces_view(r@) == pipelines_message_spec(ps@, agos.deep_view(), project_name@, url),
{
    let mut out: Vec<Piece> = Vec::new();
    let ghost av = agos.deep_view();
    if ps.len() == 0 {
        put(&mut out, Style::Plain, String::from_str("No pipelines found for "));
        put(&mut out, Style::Literal, project_name.clone());
        assert(pieces_view(out@) =~= pipelines_message_spec(ps@, av, project_name@, url));
        return out;
    }
    put(&mut out, Style::Plain, String::from_str("Pipelines for "));
    put(&mut out, Style::Literal, project_name.clone());
    put(&mut out, Style::Plain, String::from_str("\n"));
    let ghost head = pieces_view(out@);
    let mut i: usize = 0;
    assert(ps@.take(0) =~= Seq::<Pipeline>::empty());
    while i < ps.len()
        invariant
            i <= ps.len(),
            ps.len() == agos.len(),
            av == agos.deep_view(),
            pieces_view(out@) == head + pipeline_entries(
                ps@.take(i as int),
                av.take(i as int),
                project_name@,
                url,
            ),
        decreases ps.len() - i,
    {
        put(&mut out, Style::Plain, String::from_str("- "));
        let ago = match &agos[i] {
            Some(a) => Some(a.clone()),
            None => None,
        };
        assert(ago.deep_view() == av[i as int]);
        put_pipeline_line(&mut out, &ps[i], project_name, ago, url);
        assert(ps@.take(i + 1).drop_last() =~= ps@.take(i as int));
        assert(av.take(i + 1).drop_last() =~= av.take(i as int));
        assert(pieces_view(out@) =~= head + pipeline_entries(
            ps@.take(i + 1),
            av.take(i + 1),
            project_name@,
            url,
        ));
        i = i + 1;
    }
    assert(ps@.take(i as int) =~= ps@);
    assert(av.take(i as int) =~= av);
    out
}

/// The lines listing `keys`.
pub open spec fn key_lines(keys: Seq<SshKey>) -> Seq<(Style, Seq<char>)>
    decreases keys.len(),
{
    if keys.len() == 0 {
        Seq::empty()
    } else {
        key_lines(keys.drop_last()) + seq![
            (Style::Plain, "- "@),
            (Style::Literal, keys.last().title@),
            (Style::Plain, " ("@),
            (Style::Hint, digits_of(keys.last().id.0 as nat)),
            (Style::Plain, ")"@),
            (Style::Plain, "\n"@),
        ]
    }
}

/// The header naming a user before a list of their keys or tokens.
pub open spec fn owner_header(what: Seq<char>, user: User) -> Seq<(Style, Seq<char>)> {
    seq![
        (Style::Plain, what + " for user "@),
        (Style::Literal, user.username@),
        (Style::Hint, "("@ + digits_of(user.id.0 as nat) + ") :\n"@),
    ]
}

/// Appends the header naming a user.
fn put_owner_header(out: &mut Vec<Piece>, what: &str, user: &User)
    ensures
        pieces_view(final(out)@) == pieces_view(old(out)@) + owner_header(what@, *user),
{
    let ghost o = pieces_view(out@);
    put(out, Style::Plain, String::from_str(what).concat(" for user "));
    put(out, Style::Literal, user.username.clone());
    let id = digits(user.id.0);
    put(out, Style::Hint, join3("(", id.as_str(), ") :\n"));
    assert(pieces_view(out@) =~= o + owner_header(what@, *user));
}

/// The SSH keys of a user.
pub fn keys_message(keys: &Vec<SshKey>, user: &User) -> (r: Vec<Piece>)
    ensures
        pieces_view(r@) == owner_header("Key(s)"@, *user) + key_lines(keys@),
{
    let mut out: Vec<Piece> = Vec::new();
    put_owner_header(&mut out, "Key(s)", user);
    let ghost head = pieces_view(out@);
    let mut i: usize = 0;
    assert(keys@.take(0) =~= Seq::<SshKey>::empty());
    while i < keys.len()
        invariant
            i <= keys.len(),
            pieces_view(out@) == head + key_lines(keys@.take(i as int)),
        decreases keys.len() - i,
    {
        let k = &keys[i];
        put(&mut out, Style::Plain, String::from_str("- "));
        put(&mut out, Style::Literal, k.title.clone());
        put(&mut out, Style::Plain, String::from_str(" ("));
        put(&mut out, Style::Hint, digits(k.id.0));
        put(&mut out, Style::Plain, String::from_str(")"));
        put(&mut out, Style::Plain, String::from_str("\n"));
        assert(keys@.take(i + 1).drop_last() =~= keys@.take(i as int));
        assert(pieces_view(out@) =~= head + key_lines(keys@.take(i + 1)));
        i = i + 1;
    }
    assert(keys@.take(i as int) =~= keys@);
    out
}

/// Clock-dependent notes on a token, written by the caller: how long ago it was issued,
/// how long ago it expired, and the day it expires, as text.
pub struct TokenTimes {
    pub issued_ago: String,
    pub expired_ago: Option<String>,
    pub expires_on: Option<String>,
}

/// The scopes of a token, separated by commas.
pub open spec fn scope_list(scopes: Seq<PersonalAccessTokenScope>) -> Seq<(Style, Seq<char>)>
    decreases scopes.len(),
{
    if scopes.len() == 0 {
        Seq::empty()
    } else if scopes.len() == 1 {
        seq![(Style::Hint, scope_name(scopes[0]))]
    } else {
        scope_list(scopes.drop_last()) + seq![
            (Style::Hint, ","@),
            (Style::Hint, scope_name(scopes.last())),
        ]
    }
}

/// The start of a token's line: its name and id, the id styled by whether it is active.
pub open spec fn token_head(t: PersonalAccessToken) -> Seq<(Style, Seq<char>)> {
    seq![
        (Style::Literal, "- "@ + t.name@),
        (Style::Hint, "("@),
        (if t.active {
            Style::Good
        } else {
            Style::Error
        }, digits_of(t.id as nat)),
        (Style::Hint, ")"@),
        (Style::Hint, " ["@),
    ]
}

/// Whether the token is active.
pub open spec fn token_state(t: PersonalAccessToken) -> Seq<(Style, Seq<char>)> {
    seq![
        (Style::Hint, "] - "@),
        if t.active {
            (Style::Good, "active"@)
        } else {
            (Style::Error, "inactive"@)
        },
        (Style::Plain, " - "@),
    ]
}

/// Whether the token is revoked, or how long ago it was issued.
pub open spec fn token_issue(t: PersonalAccessToken, times: TokenTimes) -> Seq<(Style, Seq<char>)> {
    (if t.revoked {
        seq![(Style::Error, "revoked"@)]
    } else {
        seq![(Style::Good, "issued"@), (Style::Hint, " ("@ + times.issued_ago@ + ")"@)]
    }) + seq![(Style::Plain, ", "@)]
}

/// Whether the token expired, with when it expired or until when it is valid.
pub open spec fn token_expiry(t: PersonalAccessToken, times: TokenTimes, today: i64) -> Seq<
    (Style, Seq<char>),
> {
    let expired = match t.expires_at {
        Some(d) => today > d,
        None => false,
    };
    (if expired {
        seq![(Style::Error, "expired"@)] + match times.expired_ago {
            Some(a) => seq![(Style::Hint, " ("@ + a@ + ")"@)],
            None => Seq::empty(),
        }
    } else {
        seq![(Style::Good, "valid"@)] + match times.expires_on {
            Some(d) => seq![(Style::Hint, " (until "@ + d@ + ")"@)],
            None => Seq::empty(),
        }
    }) + seq![(Style::Plain, "\n"@)]
}

/// The line of one token; `today` is the current day, counted from 1970-01-01.
pub open spec fn token_line(t: PersonalAccessToken, times: TokenTimes, today: i64) -> Seq<
    (Style, Seq<char>),
> {
    token_head(t) + scope_list(t.scopes@) + token_state(t) + token_issue(t, times) + token_expiry(
        t,
        times,
        today,
    )
}

/// The lines of `tokens`, last first, each with its notes.
pub open spec fn token_lines_reversed(
    tokens: Seq<PersonalAccessToken>,
    times: Seq<TokenTimes>,
    today: i64,
) -> Seq<(Style, Seq<char>)>
    decreases tokens.len(),
{
    if tokens.len() == 0 || times.len() == 0 {
        Seq::empty()
    } else {
        token_lines_reversed(tokens.drop_first(), times.drop_first(), today) + token_line(
            tokens[0],
            times[0],
            today,
        )
    }
}

/// Appends the scopes of a token.
fn put_scopes(out: &mut Vec<Piece>, scopes: &Vec<PersonalAccessTokenScope>)
    ensures
        pieces_view(final(out)@) == pieces_view(old(out)@) + scope_list(scopes@),
{
    let ghost o = pieces_view(out@);
    let mut i: usize = 0;
    assert(scopes@.take(0) =~= Seq::<PersonalAccessTokenScope>::empty());
    assert(pieces_view(out@) =~= o + scope_list(scopes@.take(0)));
    while i < scopes.len()
        invariant
            i <= scopes.len(),
            pieces_view(out@) == o + scope_list(scopes@.take(i as int)),
        decreases scopes.len() - i,
    {
        if i > 0 {
            put(out, Style::Hint, String::from_str(","));
        }
        put(out, Style::Hint, String::from_str(scopes[i].as_str()));
        assert(scopes@.take(i + 1).drop_last() =~= scopes@.take(i as int));
        assert(pieces_view(out@) =~= o + scope_list(scopes@.take(i + 1)));
        i = i + 1;
    }
    assert(scopes@.take(i as int) =~= scopes@);
}

fn put_token_head(out: &mut Vec<Piece>, t: &PersonalAccessToken)
    ensures
        pieces_view(final(out)@) == pieces_view(old(out)@) + token_head(*t),
{
    let ghost o = pieces_view(out@);
    put(out, Style::Literal, String::from_str("- ").concat(t.name.as_str()));
    put(out, Style::Hint, String::from_str("("));
    put(out, if t.active { Style::Good } else { Style::Error }, digits(t.id));
    put(out, Style::Hint, String::from_str(")"));
    put(out, Style::Hint, String::from_str(" ["));
    assert(pieces_view(out@) =~= o + token_head(*t));
}

fn put_token_state(out: &mut Vec<Piece>, t: &PersonalAccessToken)
    ensures
        pieces_view(final(out)@) == pieces_view(old(out)@) + token_state(*t),
{
    let ghost o = pieces_view(out@);
    put(out, Style::Hint, String::from_str("] - "));
    if t.active {
        put(out, Style::Good, String::from_str("active"));
    } else {
        put(out, Style::Error, String::from_str("inactive"));
    }
    put(out, Style::Plain, String::from_str(" - "));
    assert(pieces_view(out@) =~= o + token_state(*t));
}

fn put_token_issue(out: &mut Vec<Piece>, t: &PersonalAccessToken, times: &TokenTimes)
    ensures
        pieces_view(final(out)@) == pieces_view(old(out)@) + token_issue(*t, *times),
{
    let ghost o = pieces_view(out@);
    if t.revoked {
        put(out, Style::Error, String::from_str("revoked"));
    } else {
        put(out, Style::Good, String::from_str("issued"));
        put(out, Style::Hint, join3(" (", times.issued_ago.as_str(), ")"));
    }
    put(out, Style::Plain, String::from_str(", "));
    assert(pieces_view(out@) =~= o + token_issue(*t, *times));
}

fn put_token_expiry(out: &mut Vec<Piece>, t: &PersonalAccessToken, times: &TokenTimes, today: i64)
    ensures
        pieces_view(final(out)@) == pieces_view(old(out)@) + token_expiry(*t, *times, today),
{
    let ghost o = pieces_view(out@);
    if t.expired(today) {
        put(out, Style::Error, String::from_str("expired"));
        match &times.expired_ago {
            Some(a) => put(out, Style::Hint, join3(" (", a.as_str(), ")")),
            None => {},
        }
    } else {
        put(out, Style::Good, String::from_str("valid"));
        match &times.expires_on {
            Some(d) => put(out, Style::Hint, join3(" (until ", d.as_str(), ")")),
            None => {},
        }
    }
    put(out, Style::Plain, String::from_str("\n"));
    assert(pieces_view(out@) =~= o + token_expiry(*t, *times, today));
}

/// Appends the line of one token.
fn put_token_line(out: &mut Vec<Piece>, t: &PersonalAccessToken, times: &TokenTimes, today: i64)
    ensures
        pieces_view(final(out)@) == pieces_view(old(out)@) + token_line(*t, *times, today),
{
    let ghost o = pieces_view(out@);
    put_token_head(out, t);
    put_scopes(out, &t.scopes);
    put_token_state(out, t);
    put_token_issue(out, t, times);
    put_token_expiry(out, t, times, today);
    assert(pieces_view(out@) =~= o + token_line(*t, *times, today));
}

/// The tokens of a user, last first; `times[i]` holds the notes on `tokens[i]` and
/// `today` is the current day, counted from 1970-01-01.
pub fn tokens_message(
    tokens: &Vec<PersonalAccessToken>,
    times: &Vec<TokenTimes>,
    user: &User,
    today: i64,
) -> (r: Vec<Piece>)
    requires
        tokens.len() == times.len(),
    ensures
        pieces_view(r@) == owner_header("Token(s)"@, *user) + token_lines_reversed(
            tokens@,
            times@,
            today,
        ),
{
    let mut out: Vec<Piece> = Vec::new();
    put_owner_header(&mut out, "Token(s)", user);
    let ghost head = pieces_view(out@);
    let n = tokens.len();
    let mut i = n;
    assert(tokens@.subrange(n as int, n as int) =~= Seq::<PersonalAccessToken>::empty());
    assert(pieces_view(out@) =~= head + token_lines_reversed(
        tokens@.subrange(n as int, n as int),
        times@.subrange(n as int, n as int),
        today,
    ));
    while i > 0
        invariant
            i <= n,
            n == tokens.len(),
            n == times.len(),
            pieces_view(out@) == head + token_lines_reversed(
                tokens@.subrange(i as int, n as int),
                times@.subrange(i as int, n as int),
                today,
            ),
        decreases i,
    {
        put_token_line(&mut out, &tokens[i - 1], &times[i - 1], today);
        assert(tokens@.subrange(i - 1, n as int).drop_first() =~= tokens@.subrange(i as int, n as int));
        assert(times@.subrange(i - 1, n as int).drop_first() =~= times@.subrange(i as int, n as int));
        assert(pieces_view(out@) =~= head + token_lines_reversed(
            tokens@.subrange(i - 1, n as int),
            times@.subrange(i - 1, n as int),
            today,
        ));
        i = i - 1;
    }
    assert(tokens@.subrange(0, n as int) =~= tokens@);
    assert(times@.subrange(0, n as int) =~= times@);
    out
}

} // verus!
