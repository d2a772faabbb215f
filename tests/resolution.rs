use gitlab_ci_log::extract::{extract_action, extract_start, ExtractAction, ExtractStart};
use gitlab_ci_log::resolve::take_single;
use std::collections::HashMap;

use gitlab_ci_log::args::OwnedNameOrId;
use gitlab_ci_log::resolve::{
    latest_pipeline, log_scopes, pipeline_lookup, resolve_job, resolve_project, select_job,
    take_from_vec, PipelineLookup, Ref, RefLookup, RefQuery, RefStep, ResolutionError,
};
use gitlab_ci_log::status::StatusState;
use gitlab_ci_log::types::{Job, JobId, ObjectId, Pipeline, PipelineId, RepoBranch, RepoCommit, Tag};

struct Remote {
    tags: HashMap<String, Tag>,
    branches: HashMap<String, RepoBranch>,
    calls: Vec<RefLookup>,
}

impl Remote {
    fn new(tags: &[&str], branches: &[&str]) -> Remote {
        Remote {
            tags: tags.iter().map(|n| (n.to_string(), tag(n))).collect(),
            branches: branches
                .iter()
                .map(|n| (n.to_string(), RepoBranch { name: n.to_string() }))
                .collect(),
            calls: Vec::new(),
        }
    }

    fn resolve(&mut self, q: &RefQuery) -> Result<Ref, ResolutionError> {
        let mut tried: usize = 0;
        let mut found: Option<Ref> = None;
        loop {
            match q.step(tried, found.take()) {
                RefStep::Resolved(r) => return Ok(r),
                RefStep::Failed(e) => return Err(e),
                RefStep::Lookup(l) => {
                    found = match &l {
                        RefLookup::Tag(n) => self.tags.get(n).cloned().map(Ref::Tag),
                        RefLookup::Branch(n) => self.branches.get(n).cloned().map(Ref::Branch),
                    };
                    self.calls.push(l);
                    tried += 1;
                }
            }
        }
    }
}

fn tag(name: &str) -> Tag {
    Tag {
        commit: RepoCommit {
            id: ObjectId("0123456789abcdef".to_string()),
            short_id: ObjectId("01234567".to_string()),
        },
        name: name.to_string(),
    }
}

fn query(explicit: Option<&str>, tag_hint: Option<&str>, branch_hint: Option<&str>, strict: bool) -> RefQuery {
    RefQuery {
        explicit: explicit.map(str::to_string),
        tag_hint: tag_hint.map(str::to_string),
        branch_hint: branch_hint.map(str::to_string),
        project: "group/app".to_string(),
        strict,
    }
}

fn job(id: u64, status: StatusState) -> Job {
    Job {
        id: JobId(id),
        name: format!("job{}", id),
        status,
        stage: "test".to_string(),
        web_url: String::new(),
        created_at: 0,
        started_at: None,
        finished_at: None,
    }
}

fn pipeline(id: u64, status: StatusState) -> Pipeline {
    Pipeline {
        id: PipelineId(id),
        ref_: Some("main".to_string()),
        status,
        sha: ObjectId("0123456789abcdef".to_string()),
        created_at: None,
        web_url: String::new(),
    }
}

fn s(v: &str) -> String {
    v.to_string()
}

#[test]
fn tag_preferred_over_branch_of_same_name() {
    let mut remote = Remote::new(&["v1.0"], &["v1.0", "main"]);
    let r = remote.resolve(&query(None, Some("v1.0"), Some("v1.0"), false)).unwrap();
    assert!(matches!(r, Ref::Tag(t) if t.name == "v1.0"));
    assert_eq!(remote.calls, vec![RefLookup::Tag(s("v1.0"))]);
}

#[test]
fn falls_back_to_branch_hint() {
    let mut remote = Remote::new(&[], &["main"]);
    let r = remote.resolve(&query(None, Some("v9"), Some("main"), false)).unwrap();
    assert!(matches!(r, Ref::Branch(b) if b.name == "main"));
}

#[test]
fn explicit_branch_is_found() {
    let mut remote = Remote::new(&[], &["dev", "main"]);
    let r = remote.resolve(&query(Some("dev"), None, Some("main"), true)).unwrap();
    assert_eq!(r.name(), "dev");
    assert_eq!(remote.calls, vec![RefLookup::Tag(s("dev")), RefLookup::Branch(s("dev"))]);
}

#[test]
fn strict_ref_divergence() {
    let mut remote = Remote::new(&[], &["v2"]);
    let e = remote.resolve(&query(Some("v1"), None, Some("v2"), true)).unwrap_err();
    assert_eq!(
        e,
        ResolutionError::RefDiverged { requested: s("v1"), found: s("v2"), project: s("group/app") }
    );
}

#[test]
fn lenient_ref_accepts_substitute() {
    let mut remote = Remote::new(&[], &["v2"]);
    let r = remote.resolve(&query(Some("v1"), None, Some("v2"), false)).unwrap();
    assert_eq!(r.name(), "v2");
}

#[test]
fn no_ref_found() {
    let mut remote = Remote::new(&[], &[]);
    let e = remote.resolve(&query(None, Some("v1"), Some("main"), false)).unwrap_err();
    assert_eq!(e, ResolutionError::NoRef { project: s("group/app") });
    let e = remote.resolve(&query(None, None, None, false)).unwrap_err();
    assert_eq!(e, ResolutionError::NoRef { project: s("group/app") });
}

#[test]
fn lookups_in_order() {
    let q = query(Some("x"), Some("t"), Some("b"), false);
    assert_eq!(
        q.ref_lookups(),
        vec![RefLookup::Tag(s("x")), RefLookup::Branch(s("x")), RefLookup::Branch(s("b"))]
    );
    let q = query(Some("b"), None, Some("b"), false);
    assert_eq!(q.ref_lookups(), vec![RefLookup::Tag(s("b")), RefLookup::Branch(s("b"))]);
}

#[test]
fn project_resolution() {
    assert_eq!(
        resolve_project(Some(OwnedNameOrId::Id(42)), Some(s("a/b"))),
        Ok(OwnedNameOrId::Id(42))
    );
    assert_eq!(resolve_project(None, Some(s("a/b"))), Ok(OwnedNameOrId::Name(s("a/b"))));
    assert_eq!(resolve_project(None, None), Err(ResolutionError::NoProject));
}

#[test]
fn pipeline_resolution() {
    assert_eq!(pipeline_lookup(Some(7), &s("main")), PipelineLookup::ById(7));
    assert_eq!(pipeline_lookup(None, &s("main")), PipelineLookup::LatestOf(s("main")));
    let p = latest_pipeline(
        vec![pipeline(9, StatusState::Running), pipeline(8, StatusState::Success)],
        &s("a/b"),
        &s("main"),
    )
    .unwrap();
    assert_eq!(p.id, PipelineId(9));
    let e = latest_pipeline(vec![], &s("a/b"), &s("main")).unwrap_err();
    assert_eq!(e, ResolutionError::NoPipeline { project: s("a/b"), ref_: s("main") });
}

#[test]
fn job_matching_pipeline_status() {
    let p = pipeline(1, StatusState::Running);
    let jobs = vec![
        job(10, StatusState::Pending),
        job(11, StatusState::Running),
        job(12, StatusState::Success),
    ];
    let j = resolve_job(&p, jobs, None, &s("a/b"), &s("main")).unwrap();
    assert_eq!(j.id, JobId(11));
}

#[test]
fn job_fallback_scans_from_end() {
    let p = pipeline(1, StatusState::Success);
    let jobs = vec![job(10, StatusState::Failed), job(11, StatusState::Canceled)];
    let j = resolve_job(&p, jobs, None, &s("a/b"), &s("main")).unwrap();
    assert_eq!(j.id, JobId(11));
}

#[test]
fn job_fallback_when_pipeline_has_no_log() {
    let p = pipeline(1, StatusState::Pending);
    let jobs = vec![
        job(10, StatusState::Success),
        job(11, StatusState::Failed),
        job(12, StatusState::Manual),
    ];
    assert_eq!(select_job(&p, &jobs, None, &s("a/b"), &s("main")), Ok(1));
}

#[test]
fn no_job_with_log() {
    let p = pipeline(1, StatusState::Created);
    let jobs = vec![job(10, StatusState::Created), job(11, StatusState::Skipped)];
    assert_eq!(
        select_job(&p, &jobs, None, &s("a/b"), &s("main")),
        Err(ResolutionError::NoJob { project: s("a/b"), ref_: s("main") })
    );
}

#[test]
fn explicit_job_checks() {
    let p = pipeline(5, StatusState::Running);
    let jobs = vec![job(10, StatusState::Pending), job(11, StatusState::Failed)];
    assert_eq!(select_job(&p, &jobs, Some(11), &s("a/b"), &s("main")), Ok(1));
    assert_eq!(
        select_job(&p, &jobs, Some(10), &s("a/b"), &s("main")),
        Err(ResolutionError::JobHasNoLog { job: 10, pipeline: 5, project: s("a/b"), ref_: s("main") })
    );
    assert_eq!(
        select_job(&p, &jobs, Some(99), &s("a/b"), &s("main")),
        Err(ResolutionError::JobNotInPipeline { job: 99, pipeline: 5, project: s("a/b"), ref_: s("main") })
    );
}

#[test]
fn take_from_vec_bounds() {
    assert_eq!(take_from_vec(vec![1, 2, 3], 1), Some(2));
    assert_eq!(take_from_vec(vec![1, 2, 3], 3), None);
    assert_eq!(take_from_vec(Vec::<u8>::new(), 0), None);
}

#[test]
fn scopes_for_logs() {
    assert_eq!(
        log_scopes(),
        vec![StatusState::Running, StatusState::Failed, StatusState::Success, StatusState::Canceled]
    );
}

#[test]
fn job_duration_text() {
    let mut j = job(1, StatusState::Running);
    assert_eq!(j.duration(100), None);
    j.started_at = Some(40);
    assert_eq!(j.duration(100), Some(s("1:00s")));
    j.finished_at = Some(45);
    assert_eq!(j.duration(100), Some(s("5s")));
}

#[test]
fn single_element() {
    assert_eq!(take_single(vec![5]), Ok(5));
    assert_eq!(take_single(Vec::<u8>::new()), Err(0));
    assert_eq!(take_single(vec![1, 2]), Err(2));
}

#[test]
fn empty_job_list_has_no_job() {
    let p = pipeline(1, StatusState::Success);
    let e = resolve_job(&p, vec![], None, &s("a/b"), &s("main")).unwrap_err();
    assert_eq!(e, ResolutionError::NoJob { project: s("a/b"), ref_: s("main") });
    let e = resolve_job(&p, vec![], Some(3), &s("a/b"), &s("main")).unwrap_err();
    assert_eq!(
        e,
        ResolutionError::JobNotInPipeline { job: 3, pipeline: 1, project: s("a/b"), ref_: s("main") }
    );
}

#[test]
fn extraction_decisions() {
    assert_eq!(extract_start(true, true, true, false), ExtractStart::Skip { unlocked: true });
    assert_eq!(extract_start(true, false, true, false), ExtractStart::Skip { unlocked: false });
    assert_eq!(extract_start(true, true, false, false), ExtractStart::Fetch);
    assert_eq!(extract_start(false, true, true, true), ExtractStart::Fetch);
    assert_eq!(extract_action(true, true, Some(s("abc")), s("abc")), ExtractAction::UpToDate);
    assert_eq!(
        extract_action(true, true, Some(s("old")), s("new")),
        ExtractAction::Extract { commit: s("new"), replace: true, mismatch: true }
    );
    assert_eq!(
        extract_action(true, true, None, s("new")),
        ExtractAction::Extract { commit: s("new"), replace: true, mismatch: false }
    );
    assert_eq!(
        extract_action(false, true, Some(s("old")), s("new")),
        ExtractAction::Extract { commit: s("old"), replace: false, mismatch: false }
    );
    assert_eq!(
        extract_action(true, false, None, s("new")),
        ExtractAction::Extract { commit: s("new"), replace: false, mismatch: false }
    );
}
