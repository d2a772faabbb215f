use gitlab_ci_log::messages::{
    jobs_message, keys_message, log_header, pipelines_message, project_message, status_text,
    tokens_message, TokenTimes,
};
use gitlab_ci_log::render::Piece;
use gitlab_ci_log::status::{StatusState, Style};
use gitlab_ci_log::tokens::PersonalAccessTokenScope;
use gitlab_ci_log::types::{
    Job, JobId, ObjectId, PersonalAccessToken, Pipeline, PipelineId, Project, ProjectId, SshKey,
    SshKeyId, User, UserId,
};

fn view(out: &[Piece]) -> Vec<(Style, String)> {
    out.iter().map(|p| (p.style, p.text.clone())).collect()
}

fn p(style: Style, s: &str) -> (Style, String) {
    (style, s.to_string())
}

fn job(id: u64, status: StatusState, started: Option<i64>, finished: Option<i64>) -> Job {
    Job {
        id: JobId(id),
        name: format!("job{}", id),
        status,
        stage: "build".to_string(),
        web_url: format!("https://h/j/{}", id),
        created_at: 0,
        started_at: started,
        finished_at: finished,
    }
}

fn user() -> User {
    User { username: "ana".to_string(), id: UserId(7), web_url: String::new(), is_admin: None }
}

#[test]
fn status_names() {
    assert_eq!(status_text(StatusState::WaitingForResource), "WaitingForResource");
    assert_eq!(status_text(StatusState::Success), "Success");
}

#[test]
fn log_header_text() {
    let j = job(42, StatusState::Running, None, None);
    assert_eq!(
        view(&log_header(&j, false)),
        vec![
            p(Style::Plain, "Log for job "),
            p(Style::Literal, "42"),
            p(Style::Plain, " - "),
            p(Style::Good, "Running"),
            p(Style::Plain, "\n\n"),
        ]
    );
    assert_eq!(view(&log_header(&j, true))[4], p(Style::Hint, " (https://h/j/42)"));
}

#[test]
fn job_list_in_run_order() {
    let jobs = vec![
        job(2, StatusState::Pending, None, None),
        job(1, StatusState::Success, Some(10), Some(75)),
    ];
    assert_eq!(
        view(&jobs_message(&jobs, 100, false)),
        vec![
            p(Style::Plain, "- Job "),
            p(Style::Literal, "1"),
            p(Style::Plain, " job1 "),
            p(Style::Hint, "(build)"),
            p(Style::Plain, " ["),
            p(Style::Literal, "1:05s"),
            p(Style::Plain, "]"),
            p(Style::Plain, " - "),
            p(Style::Good, "Success"),
            p(Style::Plain, "\n"),
            p(Style::Plain, "- Job "),
            p(Style::Literal, "2"),
            p(Style::Plain, " job2 "),
            p(Style::Hint, "(build)"),
            p(Style::Plain, " - "),
            p(Style::Warning, "Pending"),
            p(Style::Plain, "\n"),
            p(Style::Plain, "\n"),
        ]
    );
    assert!(jobs_message(&vec![], 0, true).is_empty());
}

fn pipeline(id: u64, sha: &str, r: Option<&str>) -> Pipeline {
    Pipeline {
        id: PipelineId(id),
        ref_: r.map(str::to_string),
        status: StatusState::Failed,
        sha: ObjectId(sha.to_string()),
        created_at: Some(0),
        web_url: "https://h/p".to_string(),
    }
}

#[test]
fn pipeline_list() {
    let name = "grp / app".to_string();
    assert_eq!(
        view(&pipelines_message(&vec![], &vec![], &name, false)),
        vec![p(Style::Plain, "No pipelines found for "), p(Style::Literal, "grp / app")]
    );
    let ps = vec![pipeline(5, "0123456789abcdef", Some("main")), pipeline(4, "abc", None)];
    let agos = vec![Some("2 hours ago".to_string()), None];
    assert_eq!(
        view(&pipelines_message(&ps, &agos, &name, true)),
        vec![
            p(Style::Plain, "Pipelines for "),
            p(Style::Literal, "grp / app"),
            p(Style::Plain, "\n"),
            p(Style::Plain, "- "),
            p(Style::Plain, "Pipeline "),
            p(Style::Literal, "5"),
            p(Style::Plain, " (grp / app @ main = 01234567)"),
            p(Style::Plain, " ["),
            p(Style::Literal, "2 hours ago"),
            p(Style::Plain, "]"),
            p(Style::Plain, " - "),
            p(Style::Error, "Failed"),
            p(Style::Hint, " (https://h/p)"),
            p(Style::Plain, "\n"),
            p(Style::Plain, "- "),
            p(Style::Plain, "Pipeline "),
            p(Style::Literal, "4"),
            p(Style::Plain, " (grp / app @ ?? = abc)"),
            p(Style::Plain, " - "),
            p(Style::Error, "Failed"),
            p(Style::Hint, " (https://h/p)"),
            p(Style::Plain, "\n"),
        ]
    );
}

#[test]
fn project_header() {
    let pr = Project {
        id: ProjectId(12),
        name: "app".to_string(),
        web_url: "https://h/grp/app".to_string(),
        name_with_namespace: "grp / app".to_string(),
        path_with_namespace: "grp/app".to_string(),
    };
    assert_eq!(
        view(&project_message(&pr, &"v1.2".to_string(), true)),
        vec![
            p(Style::Plain, "Project "),
            p(Style::Literal, "12"),
            p(Style::Plain, " ( "),
            p(Style::Literal, "grp / app"),
            p(Style::Plain, " @ "),
            p(Style::Literal, "v1.2"),
            p(Style::Plain, " ) "),
            p(Style::Hint, "(https://h/grp/app)"),
            p(Style::Plain, "\n"),
        ]
    );
}

#[test]
fn key_list() {
    let keys = vec![SshKey {
        id: SshKeyId(3),
        title: "laptop".to_string(),
        key: "ssh-ed25519 AAAA".to_string(),
        created_at: 0,
        user: None,
    }];
    assert_eq!(
        view(&keys_message(&keys, &user())),
        vec![
            p(Style::Plain, "Key(s) for user "),
            p(Style::Literal, "ana"),
            p(Style::Hint, "(7) :\n"),
            p(Style::Plain, "- "),
            p(Style::Literal, "laptop"),
            p(Style::Plain, " ("),
            p(Style::Hint, "3"),
            p(Style::Plain, ")"),
            p(Style::Plain, "\n"),
        ]
    );
}

fn token(id: u64, active: bool, revoked: bool, expires_at: Option<i64>) -> PersonalAccessToken {
    PersonalAccessToken {
        id,
        user_id: 7,
        name: format!("t{}", id),
        scopes: vec![PersonalAccessTokenScope::Api, PersonalAccessTokenScope::ReadUser],
        active,
        revoked,
        created_at: 0,
        last_used_at: None,
        expires_at,
        token: None,
    }
}

#[test]
fn token_list() {
    let tokens = vec![token(1, true, false, Some(100)), token(2, false, true, Some(300))];
    let times = vec![
        TokenTimes {
            issued_ago: "3 days ago".to_string(),
            expired_ago: Some("1 day ago".to_string()),
            expires_on: Some("1970-04-11".to_string()),
        },
        TokenTimes {
            issued_ago: "1 week ago".to_string(),
            expired_ago: None,
            expires_on: Some("1970-10-28".to_string()),
        },
    ];
    assert!(tokens[0].expired(101));
    assert!(!tokens[0].expired(100));
    let out = view(&tokens_message(&tokens, &times, &user(), 150));
    let expected = vec![
        p(Style::Plain, "Token(s) for user "),
        p(Style::Literal, "ana"),
        p(Style::Hint, "(7) :\n"),
        p(Style::Literal, "- t2"),
        p(Style::Hint, "("),
        p(Style::Error, "2"),
        p(Style::Hint, ")"),
        p(Style::Hint, " ["),
        p(Style::Hint, "api"),
        p(Style::Hint, ","),
        p(Style::Hint, "read_user"),
        p(Style::Hint, "] - "),
        p(Style::Error, "inactive"),
        p(Style::Plain, " - "),
        p(Style::Error, "revoked"),
        p(Style::Plain, ", "),
        p(Style::Good, "valid"),
        p(Style::Hint, " (until 1970-10-28)"),
        p(Style::Plain, "\n"),
        p(Style::Literal, "- t1"),
        p(Style::Hint, "("),
        p(Style::Good, "1"),
        p(Style::Hint, ")"),
        p(Style::Hint, " ["),
        p(Style::Hint, "api"),
        p(Style::Hint, ","),
        p(Style::Hint, "read_user"),
        p(Style::Hint, "] - "),
        p(Style::Good, "active"),
        p(Style::Plain, " - "),
        p(Style::Good, "issued"),
        p(Style::Hint, " (3 days ago)"),
        p(Style::Plain, ", "),
        p(Style::Error, "expired"),
        p(Style::Hint, " (1 day ago)"),
        p(Style::Plain, "\n"),
    ];
    assert_eq!(out, expected);
}
