//! Configuration and local-checkout records. Reading and writing them is done by the
//! caller; the library holds their plain contents.
use vstd::prelude::*;
use std::collections::HashMap;
use crate::text::chars_of;

verus! {

/// Root configuration file.
pub struct Config {
    /// Connection settings per remote host.
    pub hosts: HashMap<String, HostConfig>,
    /// File name the configuration was read from.
    pub name: String,
}

/// Connection settings of one host.
pub struct HostConfig {
    /// Remote name.
    pub remote: String,
    /// Host CA.
    pub ca: Option<String>,
    /// Authentication type.
    pub auth: AuthType,
}

/// The remote name used when the configuration names none.
pub fn default_remote() -> (r: String)
    ensures
        r@ == "origin"@,
{
    String::from_str("origin")
}

/// Authentication types supported.
pub enum AuthType {
    /// Access token.
    Token(String),
    /// OAuth2 configuration.
    OAuth2(OAuth2),
}

/// OIDC configuration.
pub struct OAuth2 {
    /// Id used to identify ourselves to the OAuth2 provider.
    pub id: String,
    /// Secret used with the OAuth2 provider.
    pub secret: String,
    /// Port used to receive the authentication code.
    pub redirect_port: u16,
}

/// OAuth2 login token.
pub struct OAuth2Token(pub String);

impl OAuth2Token {
    /// Wraps a token.
    pub fn new(token: String) -> (r: OAuth2Token)
        ensures
            r.0 == token,
    {
        OAuth2Token(token)
    }

    /// The token text.
    pub fn value(&self) -> (r: &String)
        ensures
            r == &self.0,
    {
        &self.0
    }
}

/// Whether `a` comes strictly before `b` character by character, the order of `String`'s
/// `Ord`.
pub open spec fn text_lt(a: Seq<char>, b: Seq<char>) -> bool
    decreases a.len(),
{
    if a.len() == 0 {
        b.len() > 0
    } else if b.len() == 0 {
        false
    } else if a[0] != b[0] {
        (a[0] as u32) < (b[0] as u32)
    } else {
        text_lt(a.drop_first(), b.drop_first())
    }
}

/// Whether the keys of `v` strictly increase, so that each key occurs once.
pub open spec fn ordered_entries(v: Seq<(String, String)>) -> bool {
    forall|i: int, j: int| 0 <= i < j < v.len() ==> text_lt(#[trigger] v[i].0@, #[trigger] v[j].0@)
}

/// Projects and refs to extract in batch mode, in increasing project order, each project
/// once.
pub struct BatchConfig(pub Vec<(String, String)>);

impl BatchConfig {
    /// Whether the projects are in increasing order, each once.
    pub open spec fn wf(&self) -> bool {
        ordered_entries(self.0@)
    }

    /// A batch of one project at one ref.
    pub fn singleton(project: String, tag: String) -> (r: BatchConfig)
        ensures
            r.0@ == seq![(project, tag)],
            r.wf(),
    {
        let mut v: Vec<(String, String)> = Vec::new();
        v.push((project, tag));
        assert(v@ =~= seq![(project, tag)]);
        BatchConfig(v)
    }
}

/// Commits extracted per project, kept beside a batch file.
pub struct LockFile {
    /// Name of the batch the lock belongs to.
    pub name: String,
    /// Extracted commit per project, in increasing project order, each project once.
    pub commits: Vec<(String, String)>,
}

impl LockFile {
    /// Whether the projects are in increasing order, each once.
    pub open spec fn wf(&self) -> bool {
        ordered_entries(self.commits@)
    }
}

/// What is known of the local git checkout.
#[derive(Debug, Clone)]
pub struct GitProject {
    /// Project path.
    pub name: Option<String>,
    /// Remote host.
    pub host: String,
    /// Local branch.
    pub branch: String,
    /// Tag of the checked-out commit.
    pub tag: Option<String>,
    /// Checked-out commit.
    pub commit: String,
}

/// The project path that a remote URL path names: without a leading `/` and without a
/// trailing `.git`.
pub open spec fn project_path_of(p: Seq<char>) -> Seq<char> {
    let a = if p.len() > 0 && p[0] == '/' {
        p.drop_first()
    } else {
        p
    };
    if a.len() >= 4 && a.subrange(a.len() - 4, a.len() as int) == ".git"@ {
        a.take(a.len() - 4)
    } else {
        a
    }
}

/// The project path that the path of a remote URL names.
pub fn project_path(url_path: &str) -> (r: String)
    ensures
        r@ == project_path_of(url_path@),
{
    let cs = chars_of(url_path);
    let start: usize = if cs.len() > 0 && cs[0] == '/' { 1 } else { 0 };
    let ghost a = if url_path@.len() > 0 && url_path@[0] == '/' {
        url_path@.drop_first()
    } else {
        url_path@
    };
    assert(a =~= cs@.subrange(start as int, cs.len() as int));
    let n = cs.len();
    proof {
        reveal_strlit(".git");
    }
    if n - start >= 4 && cs[n - 4] == '.' && cs[n - 3] == 'g' && cs[n - 2] == 'i' && cs[n - 1] == 't' {
        assert(a.subrange(a.len() - 4, a.len() as int) =~= ".git"@);
        let r = String::from_str(url_path.substring_char(start, n - 4));
        assert(r@ =~= a.take(a.len() - 4));
        r
    } else {
        proof {
            if a.len() >= 4 {
                let tail = a.subrange(a.len() - 4, a.len() as int);
                assert(tail[0] == cs@[n - 4]);
                assert(tail[1] == cs@[n - 3]);
                assert(tail[2] == cs@[n - 2]);
                assert(tail[3] == cs@[n - 1]);
            }
        }
        let r = String::from_str(url_path.substring_char(start, n));
        assert(r@ =~= a);
        r
    }
}

/// Whether `i` is the position of the last `/` in `p`.
pub open spec fn last_slash(p: Seq<char>, i: int) -> bool {
    0 <= i < p.len() && p[i] == '/' && forall|k: int| i < k < p.len() ==> p[k] != '/'
}

/// The directory name a project is extracted to: what follows the last `/` of its path,
/// or the whole path when there is no `/` or nothing follows it.
pub open spec fn dir_name_of(p: Seq<char>) -> Seq<char> {
    if exists|i: int| last_slash(p, i) && i + 1 < p.len() {
        let i = choose|i: int| last_slash(p, i) && i + 1 < p.len();
        p.subrange(i + 1, p.len() as int)
    } else {
        p
    }
}

/// The directory name a project is extracted to.
pub fn project_dir_name(project: &str) -> (r: String)
    ensures
        r@ == dir_name_of(project@),
{
    let cs = chars_of(project);
    let n = cs.len();
    let mut j = n;
    while j > 0 && cs[j - 1] != '/'
        invariant
            j <= n,
            n == cs.len(),
            cs@ == project@,
            forall|k: int| j <= k < n ==> cs@[k] != '/',
        decreases j,
    {
        j = j - 1;
    }
    if j > 0 && j < n {
        let ghost i = j - 1;
        assert(last_slash(project@, i));
        proof {
            let c = choose|c: int| last_slash(project@, c) && c + 1 < project@.len();
            if c < i {
                assert(project@[i] != '/');
            }
            if c > i {
                assert(project@[c] != '/');
            }
        }
        let r = String::from_str(project.substring_char(j, n));
        assert(r@ =~= dir_name_of(project@));
        r
    } else {
        proof {
            if j > 0 {
                assert forall|c: int| last_slash(project@, c) implies !(c + 1 < project@.len()) by {
                    if c < j - 1 {
                        assert(project@[j - 1] != '/');
                    }
                }
            }
        }
        let r = String::from_str(project.substring_char(0, n));
        assert(r@ =~= project@);
        r
    }
}

} // verus!
