use gitlab_ci_log::args::{parse_u64, OwnedNameOrId};
use gitlab_ci_log::config::project_path;
use gitlab_ci_log::args::{ColorChoice, PipelineLog};
use gitlab_ci_log::config::{default_remote, BatchConfig, OAuth2Token};
use gitlab_ci_log::status::{has_log, status_style, StatusState, Style};
use gitlab_ci_log::tokens::{KeyUsage, PersonalAccessTokenScope, PersonalAccessTokenState};
use gitlab_ci_log::types::{JobId, ObjectId, PipelineId, ProjectId, SshKeyId, UserId};

#[test]
fn status_styles() {
    assert_eq!(status_style(StatusState::Success), Style::Good);
    assert_eq!(status_style(StatusState::Running), Style::Good);
    assert_eq!(status_style(StatusState::Failed), Style::Error);
    assert_eq!(status_style(StatusState::Canceled), Style::Error);
    assert_eq!(status_style(StatusState::Pending), Style::Warning);
    assert_eq!(status_style(StatusState::Skipped), Style::Warning);
    assert_eq!(status_style(StatusState::WaitingForResource), Style::Warning);
    assert_eq!(status_style(StatusState::Manual), Style::Literal);
    assert_eq!(status_style(StatusState::Created), Style::Literal);
}

#[test]
fn statuses_with_log() {
    assert!(has_log(StatusState::Running));
    assert!(has_log(StatusState::Success));
    assert!(has_log(StatusState::Failed));
    assert!(has_log(StatusState::Canceled));
    assert!(!has_log(StatusState::Pending));
    assert!(!has_log(StatusState::Manual));
    assert!(!has_log(StatusState::Scheduled));
}

#[test]
fn scope_names_round_trip() {
    let all = [
        PersonalAccessTokenScope::Api,
        PersonalAccessTokenScope::ReadUser,
        PersonalAccessTokenScope::ReadApi,
        PersonalAccessTokenScope::ReadRepository,
        PersonalAccessTokenScope::WriteRepository,
        PersonalAccessTokenScope::ReadRegistry,
        PersonalAccessTokenScope::WriteRegistry,
        PersonalAccessTokenScope::Sudo,
        PersonalAccessTokenScope::AdminMode,
        PersonalAccessTokenScope::CreateRunner,
        PersonalAccessTokenScope::AiFeatures,
        PersonalAccessTokenScope::K8sFeatures,
    ];
    for s in all {
        assert_eq!(PersonalAccessTokenScope::parse(s.as_str()), Some(s));
    }
    assert_eq!(PersonalAccessTokenScope::ReadApi.as_str(), "read_api");
    assert_eq!(PersonalAccessTokenScope::parse("nope"), None);
    assert!("k8s_features".parse::<PersonalAccessTokenScope>().is_ok());
    assert_eq!(
        "bad".parse::<PersonalAccessTokenScope>(),
        Err("Unknown scope bad".to_string())
    );
}

#[test]
fn key_usage_and_token_state_names() {
    assert_eq!(KeyUsage::AuthAndSigning.as_str(), "auth_and_signing");
    assert_eq!(KeyUsage::parse("signing"), Some(KeyUsage::Signing));
    assert_eq!(KeyUsage::parse("Auth"), None);
    assert_eq!(PersonalAccessTokenState::Inactive.as_str(), "inactive");
    assert_eq!(
        PersonalAccessTokenState::parse("active"),
        Some(PersonalAccessTokenState::Active)
    );
    assert_eq!(PersonalAccessTokenState::parse(""), None);
}

#[test]
fn ids_and_small_records() {
    assert_eq!(JobId(3).value(), 3);
    assert_eq!(PipelineId(4).value(), 4);
    assert_eq!(ProjectId(5).value(), 5);
    assert_eq!(UserId(6).value(), 6);
    assert_eq!(SshKeyId(7).value(), 7);
    assert_eq!(ObjectId("abc".to_string()).value(), "abc");
    assert_eq!(OAuth2Token::new("t0k".to_string()).value(), "t0k");
    assert_eq!(default_remote(), "origin");
    let b = BatchConfig::singleton("g/p".to_string(), "v1".to_string());
    assert_eq!(b.0, vec![("g/p".to_string(), "v1".to_string())]);
}

#[test]
fn color_and_filter_options() {
    assert!(ColorChoice::Always.colored(false));
    assert!(ColorChoice::Auto.colored(true));
    assert!(!ColorChoice::Auto.colored(false));
    assert!(!ColorChoice::Never.colored(true));
    let args = PipelineLog {
        project: None,
        ref_: None,
        section: "step_script".to_string(),
        job_id: None,
        all: false,
        headers: true,
        only_headers: false,
        id: None,
    };
    let f = args.filter();
    assert!(f.show_headers && !f.show_all && !f.show_only_headers);
    assert_eq!(f.name_substring, "step_script");
}

#[test]
fn project_argument_parsing() {
    assert_eq!(OwnedNameOrId::parse("42"), OwnedNameOrId::Id(42));
    assert_eq!(OwnedNameOrId::parse("+7"), OwnedNameOrId::Id(7));
    assert_eq!(OwnedNameOrId::parse("group/app"), OwnedNameOrId::Name("group/app".to_string()));
    assert_eq!(OwnedNameOrId::parse("-1"), OwnedNameOrId::Name("-1".to_string()));
    assert_eq!(parse_u64("18446744073709551615"), Some(u64::MAX));
    assert_eq!(parse_u64("18446744073709551616"), None);
    assert_eq!(parse_u64("+"), None);
    assert_eq!(parse_u64(""), None);
    assert_eq!(OwnedNameOrId::Id(12).to_text(), "12");
    assert_eq!(OwnedNameOrId::Name("a/b".to_string()).to_text(), "a/b");
    assert!("x/y".parse::<OwnedNameOrId>().is_ok());
}

#[test]
fn remote_path_to_project() {
    assert_eq!(project_path("/group/app.git"), "group/app");
    assert_eq!(project_path("group/app"), "group/app");
    assert_eq!(project_path("/x"), "x");
    assert_eq!(project_path(".git"), "");
    assert_eq!(project_path("/a.git/"), "a.git/");
}

#[test]
fn color_mode_names() {
    assert_eq!(ColorChoice::parse("always"), Some(ColorChoice::Always));
    assert_eq!(ColorChoice::parse("auto"), Some(ColorChoice::Auto));
    assert_eq!(ColorChoice::parse("never"), Some(ColorChoice::Never));
    assert_eq!(ColorChoice::parse("sometimes"), None);
    assert!("blue".parse::<ColorChoice>().is_err());
}

#[test]
fn extraction_directory_names() {
    assert_eq!(gitlab_ci_log::config::project_dir_name("group/sub/app"), "app");
    assert_eq!(gitlab_ci_log::config::project_dir_name("app"), "app");
    assert_eq!(gitlab_ci_log::config::project_dir_name("group/"), "group/");
    assert_eq!(gitlab_ci_log::config::project_dir_name("/x"), "x");
    assert_eq!(gitlab_ci_log::config::project_dir_name(""), "");
}
