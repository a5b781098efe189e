use vstd::prelude::*;
use vstd::string::StringExecFns;

use crate::text::{decimal, decimal_string};

verus! {

/// The GitHub REST endpoint of a repository.
pub fn get_github_api_url(repo_owner: &str, repo_name: &str) -> (r: String)
    ensures
        r@ == "https://api.github.com/repos/"@ + repo_owner@ + "/"@ + repo_name@,
{
    let mut url = String::from_str("https://api.github.com/repos/");
    url.append(repo_owner);
    url.append("/");
    url.append(repo_name);
    url
}

/// The browsable URL of a GitHub repository.
pub fn get_github_repo_url(repo_owner: &str, repo_name: &str) -> (r: String)
    ensures
        r@ == "https://github.com/"@ + repo_owner@ + "/"@ + repo_name@,
{
    let mut url = String::from_str("https://github.com/");
    url.append(repo_owner);
    url.append("/");
    url.append(repo_name);
    url
}

/// The kinds of repository activity a watcher can follow.
#[derive(Clone, Copy, Debug, PartialEq, Eq, Structural)]
pub enum WatchedEvent {
    Commit,
    PullRequest,
    Release,
}

pub open spec fn event_name(kind: WatchedEvent) -> Seq<char> {
    match kind {
        WatchedEvent::Commit => "commit"@,
        WatchedEvent::PullRequest => "pull_request"@,
        WatchedEvent::Release => "release"@,
    }
}

/// Whether a watcher configured for `configured` follows `kind`: its name,
/// or `*` for every kind.
pub fn listens_to(configured: &String, kind: WatchedEvent) -> (r: bool)
    ensures
        r == (configured@ == event_name(kind) || configured@ == "*"@),
{
    let name = match kind {
        WatchedEvent::Commit => String::from_str("commit"),
        WatchedEvent::PullRequest => String::from_str("pull_request"),
        WatchedEvent::Release => String::from_str("release"),
    };
    let any = String::from_str("*");
    *configured == name || *configured == any
}

/// The key by which a pull request is told apart from the previous one:
/// its id, a space, its title.
pub fn pull_request_key(id: u64, title: &str) -> (r: String)
    ensures
        r@ == decimal(id as nat) + " "@ + title@,
{
    let mut key = decimal_string(id);
    key.append(" ");
    key.append(title);
    key
}

/// Remembers the latest thing seen (a commit sha, a tag name, a pull
/// request key) and says when a new one shows up.
pub struct ChangeWatcher {
    last: Option<String>,
}

impl ChangeWatcher {
    pub closed spec fn last_seen(&self) -> Option<Seq<char>> {
        match self.last {
            Some(s) => Some(s@),
            None => None,
        }
    }

    pub fn new(last: Option<String>) -> (r: ChangeWatcher)
        ensures
            r.last_seen() == (match last {
                Some(s) => Some(s@),
                None => None::<Seq<char>>,
            }),
    {
        ChangeWatcher { last }
    }

    /// Records `current` as the latest; true when it differs from what was
    /// seen before, which is when the watcher fires.
    pub fn observe(&mut self, current: String) -> (r: bool)
        ensures
            r == (old(self).last_seen() != Some(current@)),
            final(self).last_seen() == Some(current@),
    {
        let changed = match &self.last {
            Some(last) => *last != current,
            None => true,
        };
        self.last = Some(current);
        changed
    }
}

} // verus!
