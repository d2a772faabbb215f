//! Records of the remote API that resolution and display work on. Timestamps are
//! seconds since the Unix epoch.
use vstd::prelude::*;
use crate::status::StatusState;
use crate::tokens::PersonalAccessTokenScope;
use crate::text::{duration_text, format_duration};

verus! {

/// The ID of a git object.
#[derive(Debug, Clone)]
pub struct ObjectId(pub String);

impl ObjectId {
    /// The value of the id.
    pub fn value(&self) -> (r: &String)
        ensures
            r == &self.0,
    {
        &self.0
    }
}

/// The ID of a pipeline.
#[derive(Debug, Clone, Copy, PartialEq, Eq, Structural)]
pub struct PipelineId(pub u64);

impl PipelineId {
    /// The value of the id.
    pub fn value(&self) -> (r: u64)
        ensures
            r == self.0,
    {
        self.0
    }
}

/// The ID of a job.
#[derive(Debug, Clone, Copy, PartialEq, Eq, Structural)]
pub struct JobId(pub u64);

impl JobId {
    /// The value of the id.
    pub fn value(&self) -> (r: u64)
        ensures
            r == self.0,
    {
        self.0
    }
}

/// The ID of a project.
#[derive(Debug, Clone, Copy, PartialEq, Eq, Structural)]
pub struct ProjectId(pub u64);

impl ProjectId {
    /// The value of the id.
    pub fn value(&self) -> (r: u64)
        ensures
            r == self.0,
    {
        self.0
    }
}

/// The ID of a user.
#[derive(Debug, Clone, Copy, PartialEq, Eq, Structural)]
pub struct UserId(pub u64);

impl UserId {
    /// The value of the id.
    pub fn value(&self) -> (r: u64)
        ensures
            r == self.0,
    {
        self.0
    }
}

/// The ID of an SSH key.
#[derive(Debug, Clone, Copy, PartialEq, Eq, Structural)]
pub struct SshKeyId(pub u64);

impl SshKeyId {
    /// The value of the id.
    pub fn value(&self) -> (r: u64)
        ensures
            r == self.0,
    {
        self.0
    }
}

/// Information about a job in GitLab CI.
#[derive(Debug, Clone)]
pub struct Job {
    /// The ID of the job.
    pub id: JobId,
    /// The name of the job.
    pub name: String,
    /// The status of the job.
    pub status: StatusState,
    /// The stage the job belongs to.
    pub stage: String,
    /// The URL to the job page.
    pub web_url: String,
    /// When the job was created or marked as pending.
    pub created_at: i64,
    /// When the job was started.
    pub started_at: Option<i64>,
    /// When the job completed.
    pub finished_at: Option<i64>,
}

impl Job {
    /// How long the job ran: from its start to its end, or to `now` while it runs.
    /// A job that has not started has no duration.
    pub fn duration(&self, now: i64) -> (r: Option<String>)
        ensures
            match self.started_at {
                None => r is None,
                Some(start) => r matches Some(t) && t@ == duration_text(
                    match self.finished_at {
                        Some(end) => end,
                        None => now,
                    }.wrapping_sub(start),
                ),
            },
    {
        let end = match self.finished_at {
            Some(end) => end,
            None => now,
        };
        match self.started_at {
            Some(start) => Some(format_duration(end.wrapping_sub(start))),
            None => None,
        }
    }
}

/// Information about a pipeline in GitLab CI.
#[derive(Debug, Clone)]
pub struct Pipeline {
    /// The ID of the pipeline.
    pub id: PipelineId,
    /// The name of the reference that was tested.
    pub ref_: Option<String>,
    /// The status of the pipeline.
    pub status: StatusState,
    /// The object ID that was tested.
    pub sha: ObjectId,
    /// When the pipeline was created.
    pub created_at: Option<i64>,
    /// The URL to the pipeline page.
    pub web_url: String,
}

/// Project information.
#[derive(Debug, Clone)]
pub struct Project {
    /// The ID of the project.
    pub id: ProjectId,
    /// The display name of the project.
    pub name: String,
    /// The URL for the project's homepage.
    pub web_url: String,
    /// The display name of the project with the namespace.
    pub name_with_namespace: String,
    /// The path to the project's repository with its namespace.
    pub path_with_namespace: String,
}

/// A commit in a project.
#[derive(Debug, Clone)]
pub struct RepoCommit {
    /// The ID of the commit.
    pub id: ObjectId,
    /// The short ID of the commit.
    pub short_id: ObjectId,
}

/// A tag of a repository.
#[derive(Debug, Clone)]
pub struct Tag {
    /// The commit the tag points to.
    pub commit: RepoCommit,
    /// The tag name.
    pub name: String,
}

/// A protected tag pattern.
#[derive(Debug, Clone)]
pub struct ProtectedTag {
    /// The name or wildcard.
    pub name: String,
}

/// An access level of a protected branch.
#[derive(Debug, Clone)]
pub struct PRBAccessLevel {
    pub access_level: u64,
    pub access_level_description: String,
}

/// A protected branch of a repository.
#[derive(Debug, Clone)]
pub struct ProtectedRepoBranch {
    pub name: String,
    pub push_access_levels: Vec<PRBAccessLevel>,
    pub merge_access_levels: Vec<PRBAccessLevel>,
    pub code_owner_approval_required: Option<bool>,
}

/// A branch of a repository.
#[derive(Debug, Clone)]
pub struct RepoBranch {
    /// The name of the branch.
    pub name: String,
}

/// An SSH key of a user.
#[derive(Debug, Clone)]
pub struct SshKey {
    pub id: SshKeyId,
    pub title: String,
    pub key: String,
    /// When the key was added.
    pub created_at: i64,
    pub user: Option<User>,
}

/// A personal access token. `expires_at` is a day, counted from 1970-01-01.
#[derive(Debug, Clone)]
pub struct PersonalAccessToken {
    pub id: u64,
    pub user_id: u64,
    pub name: String,
    pub scopes: Vec<PersonalAccessTokenScope>,
    pub active: bool,
    pub revoked: bool,
    pub created_at: i64,
    pub last_used_at: Option<i64>,
    pub expires_at: Option<i64>,
    pub token: Option<String>,
}

impl PersonalAccessToken {
    /// Whether the token expired before `today` (a day counted from 1970-01-01).
    pub fn expired(&self, today: i64) -> (r: bool)
        ensures
            r == match self.expires_at {
                Some(d) => today > d,
                None => false,
            },
    {
        match self.expires_at {
            Some(d) => today > d,
            None => false,
        }
    }
}

/// A user account.
#[derive(Debug, Clone)]
pub struct User {
    /// The username.
    pub username: String,
    /// The user's ID.
    pub id: UserId,
    /// The URL of the user's profile page.
    pub web_url: String,
    /// Only available when talking to GitLab as an admin.
    pub is_admin: Option<bool>,
}

} // verus!
