//! Resolution of the project, ref, pipeline and job a command acts on.
//!
//! The lookups themselves are remote calls made by the caller; the functions here take
//! what the caller has and what the lookups returned, and decide what comes next.
use vstd::prelude::*;
use crate::args::OwnedNameOrId;
use crate::status::{has_log, has_log_spec, StatusState};
use crate::types::{Job, Pipeline, RepoBranch, Tag};

verus! {

/// Why resolution stopped.
#[derive(Debug, Clone, PartialEq, Eq)]
pub enum ResolutionError {
    /// Neither an explicit project nor a local hint was given.
    NoProject,
    /// No tag and no branch could be found.
    NoRef { project: String },
    /// The resolved ref is not the one that was asked for.
    RefDiverged { requested: String, found: String, project: String },
    /// The ref has no pipeline.
    NoPipeline { project: String, ref_: String },
    /// No job of the pipeline has a log.
    NoJob { project: String, ref_: String },
    /// The requested job does not belong to the pipeline.
    JobNotInPipeline { job: u64, pipeline: u64, project: String, ref_: String },
    /// The requested job has no log.
    JobHasNoLog { job: u64, pipeline: u64, project: String, ref_: String },
}

/// Picks the project to act on: the explicit one, else the local hint.
pub fn resolve_project(explicit: Option<OwnedNameOrId>, local_hint: Option<String>) -> (r: Result<
    OwnedNameOrId,
    ResolutionError,
>)
    ensures
        r == match explicit {
            Some(p) => Ok(p),
            None => match local_hint {
                Some(h) => Ok(OwnedNameOrId::Name(h)),
                None => Err(ResolutionError::NoProject),
            },
        },
{
    match explicit {
        Some(p) => Ok(p),
        None => match local_hint {
            Some(h) => Ok(OwnedNameOrId::Name(h)),
            None => Err(ResolutionError::NoProject),
        },
    }
}

/// A resolved reference: a tag or a branch.
#[derive(Debug, Clone)]
pub enum Ref {
    Tag(Tag),
    Branch(RepoBranch),
}

impl Ref {
    pub open spec fn spec_name(&self) -> String {
        match self {
            Ref::Tag(t) => t.name,
            Ref::Branch(b) => b.name,
        }
    }

    /// The name of the tag or branch.
    pub fn name(&self) -> (r: &String)
        ensures
            *r == self.spec_name(),
    {
        match self {
            Ref::Tag(t) => &t.name,
            Ref::Branch(b) => &b.name,
        }
    }
}

/// One remote lookup of a ref.
#[derive(Debug, Clone, PartialEq, Eq)]
pub enum RefLookup {
    Tag(String),
    Branch(String),
}

/// What to do next while resolving a ref.
#[derive(Debug, Clone)]
pub enum RefStep {
    /// Look this ref up and report the result.
    Lookup(RefLookup),
    /// The ref is found.
    Resolved(Ref),
    /// Resolution failed.
    Failed(ResolutionError),
}

/// The inputs of ref resolution.
#[derive(Debug, Clone)]
pub struct RefQuery {
    /// The ref named on the command line.
    pub explicit: Option<String>,
    /// The tag of the local checkout.
    pub tag_hint: Option<String>,
    /// The branch of the local checkout.
    pub branch_hint: Option<String>,
    /// The project path, for error reports.
    pub project: String,
    /// Whether a resolved ref that differs from the explicit one is an error.
    pub strict: bool,
}

impl RefQuery {
    /// The lookups to make, in order: a tag first (the explicit name, else the tag
    /// hint), then the explicit name as a branch, then the branch hint.
    pub open spec fn lookups(&self) -> Seq<RefLookup> {
        let tag = match self.explicit {
            Some(e) => seq![RefLookup::Tag(e)],
            None => match self.tag_hint {
                Some(t) => seq![RefLookup::Tag(t)],
                None => Seq::empty(),
            },
        };
        let explicit_branch = match self.explicit {
            Some(e) => seq![RefLookup::Branch(e)],
            None => Seq::empty(),
        };
        let hint_branch = match self.branch_hint {
            Some(b) => if (match self.explicit {
                Some(e) => e@ == b@,
                None => false,
            }) {
                Seq::empty()
            } else {
                seq![RefLookup::Branch(b)]
            },
            None => Seq::empty(),
        };
        tag + explicit_branch + hint_branch
    }

    /// The outcome once `r` is found.
    pub open spec fn finish(&self, r: Ref) -> RefStep {
        match self.explicit {
            Some(e) => if self.strict && e@ != r.spec_name()@ {
                RefStep::Failed(
                    ResolutionError::RefDiverged {
                        requested: e,
                        found: r.spec_name(),
                        project: self.project,
                    },
                )
            } else {
                RefStep::Resolved(r)
            },
            None => RefStep::Resolved(r),
        }
    }

    /// The next step once `tried` lookups were made and the last one gave `found`.
    pub open spec fn next_step(&self, tried: int, found: Option<Ref>) -> RefStep {
        match found {
            Some(r) => self.finish(r),
            None => if tried < self.lookups().len() {
                RefStep::Lookup(self.lookups()[tried])
            } else {
                RefStep::Failed(ResolutionError::NoRef { project: self.project })
            },
        }
    }

    /// The lookups to make, in order.
    pub fn ref_lookups(&self) -> (r: Vec<RefLookup>)
        ensures
            r@ == self.lookups(),
    {
        let mut r: Vec<RefLookup> = Vec::new();
        match &self.explicit {
            Some(e) => r.push(RefLookup::Tag(e.clone())),
            None => match &self.tag_hint {
                Some(t) => r.push(RefLookup::Tag(t.clone())),
                None => {},
            },
        }
        match &self.explicit {
            Some(e) => r.push(RefLookup::Branch(e.clone())),
            None => {},
        }
        match &self.branch_hint {
            Some(b) => {
                let same = match &self.explicit {
                    Some(e) => *e == *b,
                    None => false,
                };
                if !same {
                    r.push(RefLookup::Branch(b.clone()));
                }
            },
            None => {},
        }
        assert(r@ =~= self.lookups());
        r
    }

    /// Decides the next step: `tried` lookups were made so far, and `found` is what the
    /// last one returned (`None` before the first one, or when it found nothing).
    pub fn step(&self, tried: usize, found: Option<Ref>) -> (r: RefStep)
        ensures
            r == self.next_step(tried as int, found),
    {
        match found {
            Some(r) => {
                match &self.explicit {
                    Some(e) => {
                        if self.strict && *e != *r.name() {
                            let found_name = r.name().clone();
                            RefStep::Failed(
                                ResolutionError::RefDiverged {
                                    requested: e.clone(),
                                    found: found_name,
                                    project: self.project.clone(),
                                },
                            )
                        } else {
                            RefStep::Resolved(r)
                        }
                    },
                    None => RefStep::Resolved(r),
                }
            },
            None => {
                let lookups = self.ref_lookups();
                if tried < lookups.len() {
                    let l = match &lookups[tried] {
                        RefLookup::Tag(n) => RefLookup::Tag(n.clone()),
                        RefLookup::Branch(n) => RefLookup::Branch(n.clone()),
                    };
                    RefStep::Lookup(l)
                } else {
                    RefStep::Failed(ResolutionError::NoRef { project: self.project.clone() })
                }
            },
        }
    }
}

/// What a lookup finds on a remote whose tags and branches, by name, are `tags` and
/// `branches`.
pub open spec fn lookup_in(
    l: RefLookup,
    tags: Map<Seq<char>, Tag>,
    branches: Map<Seq<char>, RepoBranch>,
) -> Option<Ref> {
    match l {
        RefLookup::Tag(n) => if tags.contains_key(n@) {
            Some(Ref::Tag(tags[n@]))
        } else {
            None
        },
        RefLookup::Branch(n) => if branches.contains_key(n@) {
            Some(Ref::Branch(branches[n@]))
        } else {
            None
        },
    }
}

/// The outcome of ref resolution for `q` on that remote, once `tried` lookups were made
/// and the last one gave `found`.
pub open spec fn ref_outcome(
    q: RefQuery,
    tags: Map<Seq<char>, Tag>,
    branches: Map<Seq<char>, RepoBranch>,
    tried: nat,
    found: Option<Ref>,
) -> Result<Ref, ResolutionError>
    decreases q.lookups().len() - tried,
{
    match q.next_step(tried as int, found) {
        RefStep::Resolved(r) => Ok(r),
        RefStep::Failed(e) => Err(e),
        RefStep::Lookup(l) => if tried < q.lookups().len() {
            ref_outcome(q, tags, branches, tried + 1, lookup_in(l, tags, branches))
        } else {
            Err(ResolutionError::NoRef { project: q.project })
        },
    }
}

/// Tags are preferred: when no ref is named and the local tag hint names a tag that
/// exists, and a branch of the same name exists too, the tag is resolved.
pub proof fn lemma_tag_preferred(
    q: RefQuery,
    tags: Map<Seq<char>, Tag>,
    branches: Map<Seq<char>, RepoBranch>,
    n: Seq<char>,
)
    requires
        q.explicit is None,
        q.tag_hint matches Some(t) && t@ == n,
        tags.contains_key(n),
        branches.contains_key(n),
    ensures
        ref_outcome(q, tags, branches, 0, None) == Ok::<Ref, ResolutionError>(Ref::Tag(tags[n])),
{
    let t = q.tag_hint->Some_0;
    assert(q.lookups()[0] == RefLookup::Tag(t));
    assert(ref_outcome(q, tags, branches, 1, Some(Ref::Tag(tags[n]))) == Ok::<
        Ref,
        ResolutionError,
    >(Ref::Tag(tags[n])));
}

/// Strict resolution does not substitute: when the named ref `v1` is neither a tag nor a
/// branch and only the local branch `v2` resolves, resolution fails with a divergence
/// that names both.
pub proof fn lemma_strict_divergence(
    q: RefQuery,
    tags: Map<Seq<char>, Tag>,
    branches: Map<Seq<char>, RepoBranch>,
    v1: Seq<char>,
    v2: Seq<char>,
)
    requires
        q.strict,
        q.explicit matches Some(e) && e@ == v1,
        q.branch_hint matches Some(b) && b@ == v2,
        v1 != v2,
        !tags.contains_key(v1),
        !branches.contains_key(v1),
        branches.contains_key(v2),
        branches[v2].name@ == v2,
    ensures
        ref_outcome(q, tags, branches, 0, None) matches Err(
            ResolutionError::RefDiverged { requested, found, project },
        ) && requested@ == v1 && found@ == v2,
{
    let e = q.explicit->Some_0;
    let b = q.branch_hint->Some_0;
    let l = q.lookups();
    assert(l == seq![RefLookup::Tag(e), RefLookup::Branch(e), RefLookup::Branch(b)]);
    let r = Ref::Branch(branches[v2]);
    assert(ref_outcome(q, tags, branches, 3, Some(r)) == Err::<Ref, ResolutionError>(
        ResolutionError::RefDiverged { requested: e, found: branches[v2].name, project: q.project },
    ));
    assert(ref_outcome(q, tags, branches, 2, None) == ref_outcome(q, tags, branches, 3, Some(r)));
    assert(ref_outcome(q, tags, branches, 1, None) == ref_outcome(q, tags, branches, 2, None));
    assert(ref_outcome(q, tags, branches, 0, None) == ref_outcome(q, tags, branches, 1, None));
}

/// How to find the pipeline.
#[derive(Debug, Clone, PartialEq, Eq)]
pub enum PipelineLookup {
    /// Fetch the pipeline with this id.
    ById(u64),
    /// List the pipelines of this ref, newest first.
    LatestOf(String),
}

/// The pipeline lookup to make: the explicit id if given, else the newest pipeline of
/// the ref.
pub fn pipeline_lookup(explicit_id: Option<u64>, ref_: &String) -> (r: PipelineLookup)
    ensures
        r == match explicit_id {
            Some(id) => PipelineLookup::ById(id),
            None => PipelineLookup::LatestOf(*ref_),
        },
{
    match explicit_id {
        Some(id) => PipelineLookup::ById(id),
        None => PipelineLookup::LatestOf(ref_.clone()),
    }
}

/// The newest pipeline from a list that the remote API gives newest first.
pub fn latest_pipeline(pipelines: Vec<Pipeline>, project: &String, ref_: &String) -> (r: Result<
    Pipeline,
    ResolutionError,
>)
    ensures
        pipelines.len() > 0 ==> r == Ok::<Pipeline, ResolutionError>(pipelines[0]),
        pipelines.len() == 0 ==> r == Err::<Pipeline, ResolutionError>(
            ResolutionError::NoPipeline { project: *project, ref_: *ref_ },
        ),
{
    match take_from_vec(pipelines, 0) {
        Some(p) => Ok(p),
        None => Err(ResolutionError::NoPipeline { project: project.clone(), ref_: ref_.clone() }),
    }
}

/// Takes the element at index `i` out of `vec`.
pub fn take_from_vec<T>(vec: Vec<T>, i: usize) -> (r: Option<T>)
    ensures
        i < vec.len() ==> r == Some(vec[i as int]),
        i >= vec.len() ==> r is None,
{
    let mut vec = vec;
    if i >= vec.len() {
        None
    } else {
        Some(vec.swap_remove(i))
    }
}

/// The one element of `v`, or how many elements it has when that is not one.
pub fn take_single<T>(v: Vec<T>) -> (r: Result<T, usize>)
    ensures
        v.len() == 1 ==> r == Ok::<T, usize>(v[0]),
        v.len() != 1 ==> r == Err::<T, usize>(v.len()),
{
    let n = v.len();
    if n == 1 {
        match take_from_vec(v, 0) {
            Some(x) => Ok(x),
            None => Err(n),
        }
    } else {
        Err(n)
    }
}

/// The job statuses that are listed when looking for a log.
pub fn log_scopes() -> (r: Vec<StatusState>)
    ensures
        r@ == seq![
            StatusState::Running,
            StatusState::Failed,
            StatusState::Success,
            StatusState::Canceled,
        ],
{
    let r = vec![StatusState::Running, StatusState::Failed, StatusState::Success, StatusState::Canceled];
    assert(r@ =~= seq![
        StatusState::Running,
        StatusState::Failed,
        StatusState::Success,
        StatusState::Canceled,
    ]);
    r
}

/// Whether `i` is the first job with the id `id`.
pub open spec fn first_with_id(jobs: Seq<Job>, id: u64, i: int) -> bool {
    0 <= i < jobs.len() && jobs[i].id.0 == id && forall|k: int|
        0 <= k < i ==> jobs[k].id.0 != id
}

/// Whether `i` is the first job whose status is `status`.
pub open spec fn first_with_status(jobs: Seq<Job>, status: StatusState, i: int) -> bool {
    0 <= i < jobs.len() && jobs[i].status == status && forall|k: int|
        0 <= k < i ==> jobs[k].status != status
}

/// Whether `i` is the last job that has a log.
pub open spec fn last_with_log(jobs: Seq<Job>, i: int) -> bool {
    0 <= i < jobs.len() && has_log_spec(jobs[i].status) && forall|k: int|
        i < k < jobs.len() ==> !has_log_spec(jobs[k].status)
}

/// Whether the pipeline's own status picks the job: it has a log and some job shares it.
pub open spec fn picks_by_status(pipeline: Pipeline, jobs: Seq<Job>) -> bool {
    has_log_spec(pipeline.status) && exists|k: int|
        0 <= k < jobs.len() && jobs[k].status == pipeline.status
}

/// Whether `i` is the job to show. An explicit id names the first job that carries it,
/// which must have a log. Without one, the first job in the pipeline's own status is
/// taken when that status has a log; otherwise the last job that has a log.
pub open spec fn job_choice(pipeline: Pipeline, jobs: Seq<Job>, explicit: Option<u64>, i: int) -> bool {
    match explicit {
        Some(id) => first_with_id(jobs, id, i) && has_log_spec(jobs[i].status),
        None => if picks_by_status(pipeline, jobs) {
            first_with_status(jobs, pipeline.status, i)
        } else {
            last_with_log(jobs, i)
        },
    }
}

/// Whether `e` is the error owed when no job can be chosen.
pub open spec fn job_failure(
    pipeline: Pipeline,
    jobs: Seq<Job>,
    explicit: Option<u64>,
    project: String,
    ref_: String,
    e: ResolutionError,
) -> bool {
    match explicit {
        Some(id) => (e == ResolutionError::JobNotInPipeline {
            job: id,
            pipeline: pipeline.id.0,
            project,
            ref_,
        } && forall|k: int| 0 <= k < jobs.len() ==> jobs[k].id.0 != id) || (e
            == ResolutionError::JobHasNoLog { job: id, pipeline: pipeline.id.0, project, ref_ }
            && exists|i: int| first_with_id(jobs, id, i) && !has_log_spec(jobs[i].status)),
        None => e == ResolutionError::NoJob { project, ref_ } && !picks_by_status(pipeline, jobs)
            && forall|k: int| 0 <= k < jobs.len() ==> !has_log_spec(jobs[k].status),
    }
}

/// Chooses the index of the job to show among the jobs of `pipeline`, in API order.
pub fn select_job(
    pipeline: &Pipeline,
    jobs: &Vec<Job>,
    explicit: Option<u64>,
    project: &String,
    ref_: &String,
) -> (r: Result<usize, ResolutionError>)
    ensures
        match r {
            Ok(i) => job_choice(*pipeline, jobs@, explicit, i as int),
            Err(e) => job_failure(*pipeline, jobs@, explicit, *project, *ref_, e),
        },
{
    match explicit {
        Some(id) => {
            let mut i: usize = 0;
            while i < jobs.len()
                invariant
                    i <= jobs.len(),
                    explicit == Some(id),
                    forall|k: int| 0 <= k < i ==> jobs@[k].id.0 != id,
                decreases jobs.len() - i,
            {
                if jobs[i].id.value() == id {
                    if has_log(jobs[i].status) {
                        return Ok(i);
                    } else {
                        assert(first_with_id(jobs@, id, i as int));
                        return Err(
                            ResolutionError::JobHasNoLog {
                                job: id,
                                pipeline: pipeline.id.value(),
                                project: project.clone(),
                                ref_: ref_.clone(),
                            },
                        );
                    }
                }
                i = i + 1;
            }
            Err(
                ResolutionError::JobNotInPipeline {
                    job: id,
                    pipeline: pipeline.id.value(),
                    project: project.clone(),
                    ref_: ref_.clone(),
                },
            )
        },
        None => {
            if has_log(pipeline.status) {
                let mut i: usize = 0;
                while i < jobs.len()
                    invariant
                        i <= jobs.len(),
                        explicit is None,
                        has_log_spec(pipeline.status),
                        forall|k: int| 0 <= k < i ==> jobs@[k].status != pipeline.status,
                    decreases jobs.len() - i,
                {
                    if jobs[i].status == pipeline.status {
                        assert(picks_by_status(*pipeline, jobs@));
                        return Ok(i);
                    }
                    i = i + 1;
                }
            }
            assert(!picks_by_status(*pipeline, jobs@));
            let mut j: usize = jobs.len();
            while j > 0
                invariant
                    j <= jobs.len(),
                    explicit is None,
                    !picks_by_status(*pipeline, jobs@),
                    forall|k: int| j <= k < jobs.len() ==> !has_log_spec(jobs@[k].status),
                decreases j,
            {
                if has_log(jobs[j - 1].status) {
                    return Ok(j - 1);
                }
                j = j - 1;
            }
            Err(ResolutionError::NoJob { project: project.clone(), ref_: ref_.clone() })
        },
    }
}

/// Resolves the job to show among the jobs of `pipeline`, in API order.
pub fn resolve_job(
    pipeline: &Pipeline,
    jobs: Vec<Job>,
    explicit: Option<u64>,
    project: &String,
    ref_: &String,
) -> (r: Result<Job, ResolutionError>)
    ensures
        match r {
            Ok(j) => exists|i: int| job_choice(*pipeline, jobs@, explicit, i) && j == jobs@[i],
            Err(e) => job_failure(*pipeline, jobs@, explicit, *project, *ref_, e),
        },
{
    match select_job(pipeline, &jobs, explicit, project, ref_) {
        Ok(i) => {
            match take_from_vec(jobs, i) {
                Some(j) => Ok(j),
                None => Err(ResolutionError::NoJob { project: project.clone(), ref_: ref_.clone() }),
            }
        },
        Err(e) => Err(e),
    }
}

} // verus!
