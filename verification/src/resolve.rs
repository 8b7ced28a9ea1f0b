//! Revision resolution.  A pinned entry resolves with no remote call: its
//! tarball URL is built from owner, name and revision, and its version label
//! is the revision itself.  An unpinned entry takes the latest commit of the
//! repository's default branch, reported by the surrounding program as a
//! [`FetchReply`], and labels it with the commit date.

use vstd::prelude::*;

use crate::config::Repository;
use crate::config::RepositoryV;
use crate::date::version_label;
use crate::date::version_label_spec;
use crate::date::Date;

verus! {

/// A resolved revision: where to download it and how to label it.
pub struct CommitInfo {
    pub tarball_url: String,
    pub version: String,
}

/// The mathematical value of a [`CommitInfo`].
pub struct CommitInfoV {
    pub tarball_url: Seq<char>,
    pub version: Seq<char>,
}

impl View for CommitInfo {
    type V = CommitInfoV;

    open spec fn view(&self) -> CommitInfoV {
        CommitInfoV { tarball_url: self.tarball_url@, version: self.version@ }
    }
}

impl CommitInfo {
    /// An exact copy, made field by field so the copy's value is known.
    pub fn duplicate(&self) -> (r: CommitInfo)
        ensures
            r@ == self@,
    {
        CommitInfo { tarball_url: self.tarball_url.clone(), version: self.version.clone() }
    }
}

/// The tarball download URL for one revision of `owner/name`.
pub open spec fn tarball_url_spec(owner: Seq<char>, name: Seq<char>, rev: Seq<char>) -> Seq<
    char,
> {
    "https://github.com/"@ + owner + "/"@ + name + "/archive/"@ + rev + ".tar.gz"@
}

/// What resolving a pinned entry yields: the URL for the pinned revision,
/// and the revision string itself as the version label.
pub open spec fn pinned_info_spec(repo: RepositoryV, rev: Seq<char>) -> CommitInfoV {
    CommitInfoV { tarball_url: tarball_url_spec(repo.owner, repo.name, rev), version: rev }
}

/// What resolving an unpinned entry yields once the latest commit is known:
/// the URL for that commit, and the commit date as the version label.
pub open spec fn unpinned_info_spec(repo: RepositoryV, oid: Seq<char>, date: Date) -> CommitInfoV {
    CommitInfoV {
        tarball_url: tarball_url_spec(repo.owner, repo.name, oid),
        version: version_label_spec(date),
    }
}

/// Build the tarball URL for one revision.
pub fn tarball_url(repo: &Repository, rev: &str) -> (r: String)
    ensures
        r@ == tarball_url_spec(repo.owner@, repo.name@, rev@),
{
    let mut url = String::new();
    url.append("https://github.com/");
    url.append(repo.owner.as_str());
    url.append("/");
    url.append(repo.name.as_str());
    url.append("/archive/");
    url.append(rev);
    url.append(".tar.gz");
    proof {
        assert(url@ =~= tarball_url_spec(repo.owner@, repo.name@, rev@));
    }
    url
}

/// Resolve a pinned entry.  No remote call is involved, so the result is a
/// function of owner, name and revision alone.
pub fn commit_info_pinned(repo: &Repository, rev: &str) -> (r: CommitInfo)
    ensures
        r@ == pinned_info_spec(repo@, rev@),
{
    let url = tarball_url(repo, rev);
    CommitInfo { tarball_url: url, version: rev.to_owned() }
}

/// Resolve an unpinned entry from the latest commit's id and date.
pub fn commit_info_unpinned(repo: &Repository, oid: &str, date: &Date) -> (r: CommitInfo)
    requires
        date.wf(),
    ensures
        r@ == unpinned_info_spec(repo@, oid@, *date),
{
    let url = tarball_url(repo, oid);
    CommitInfo { tarball_url: url, version: version_label(date) }
}

/// Pinned resolution is deterministic: two resolutions of the same owner,
/// name and revision yield byte-identical tarball URLs and version labels.
pub proof fn lemma_pinned_resolution_deterministic(
    r1: RepositoryV,
    r2: RepositoryV,
    rev1: Seq<char>,
    rev2: Seq<char>,
)
    requires
        r1.owner == r2.owner,
        r1.name == r2.name,
        rev1 == rev2,
    ensures
        pinned_info_spec(r1, rev1) == pinned_info_spec(r2, rev2),
{
}

/// What the default branch of a repository points at: its latest commit, or
/// something that is not a commit.
pub enum CommitTarget {
    Commit { oid: String, date: Date },
    Other,
}

/// The mathematical value of a [`CommitTarget`].
pub enum CommitTargetV {
    Commit { oid: Seq<char>, date: Date },
    Other,
}

impl View for CommitTarget {
    type V = CommitTargetV;

    open spec fn view(&self) -> CommitTargetV {
        match self {
            CommitTarget::Commit { oid, date } => CommitTargetV::Commit {
                oid: oid@,
                date: *date,
            },
            CommitTarget::Other => CommitTargetV::Other,
        }
    }
}

/// The remote metadata service's answer for one repository, brought back to
/// plain values: any error messages in the reply, and the default branch's
/// target if the reply carried one.
pub struct FetchReply {
    pub errors: Vec<String>,
    pub target: Option<CommitTarget>,
}

/// The mathematical value of a [`FetchReply`].
pub struct FetchReplyV {
    pub errors: Seq<Seq<char>>,
    pub target: Option<CommitTargetV>,
}

impl View for FetchReply {
    type V = FetchReplyV;

    open spec fn view(&self) -> FetchReplyV {
        FetchReplyV {
            errors: self.errors@.map_values(|e: String| e@),
            target: match self.target {
                Some(ref t) => Some(t@),
                None => None,
            },
        }
    }
}

impl FetchReply {
    /// A reply whose commit date the version label can represent.
    pub open spec fn wf(&self) -> bool {
        match self@.target {
            Some(CommitTargetV::Commit { oid, date }) => date.wf(),
            _ => true,
        }
    }
}

} // verus!
