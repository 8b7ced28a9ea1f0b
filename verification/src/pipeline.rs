//! The per-entry pipeline: `Resolving -> Hashing -> Rendering`, ending in a
//! success or a failure.  Each transition consumes the outcome of one
//! external call (the metadata fetch, the content hash) or, for rendering,
//! no outcome at all; a failed stage is terminal for its entry and carries a
//! diagnostic.  No transition re-enters an earlier stage.

use vstd::prelude::*;

use crate::config::Plugin;
use crate::config::PluginV;
use crate::error::Diagnostic;
use crate::error::DiagnosticV;
use crate::error::Stage;
use crate::render::render_stanza;
use crate::render::stanza_spec;
use crate::resolve::commit_info_pinned;
use crate::resolve::commit_info_unpinned;
use crate::resolve::pinned_info_spec;
use crate::resolve::unpinned_info_spec;
use crate::resolve::CommitInfo;
use crate::resolve::CommitInfoV;
use crate::resolve::CommitTarget;
use crate::resolve::CommitTargetV;
use crate::resolve::FetchReply;
use crate::resolve::FetchReplyV;
use crate::text::normalize_name;
use crate::text::normalized;
use crate::text::trim_ws;
use crate::text::trimmed;

verus! {

/// The transient states of one entry's pipeline.  Terminal outcomes live in
/// [`EntryOutcome`]; a task in one of these states still holds its
/// concurrency slot.
pub enum EntryState {
    /// Waiting for the remote metadata lookup.
    Resolving,
    /// Revision resolved; waiting for the content hash of the tarball URL.
    Hashing(CommitInfo),
    /// Hash in hand (already trimmed); only pure rendering is left.
    Rendering(CommitInfo, String),
}

/// The mathematical value of an [`EntryState`].
pub enum EntryStateV {
    Resolving,
    Hashing(CommitInfoV),
    Rendering(CommitInfoV, Seq<char>),
}

impl View for EntryState {
    type V = EntryStateV;

    open spec fn view(&self) -> EntryStateV {
        match self {
            EntryState::Resolving => EntryStateV::Resolving,
            EntryState::Hashing(c) => EntryStateV::Hashing(c@),
            EntryState::Rendering(c, h) => EntryStateV::Rendering(c@, h@),
        }
    }
}

/// How one entry's pipeline ended: the rendered stanza, or a diagnostic.
pub enum EntryOutcome {
    Success(String),
    Failure(Diagnostic),
}

/// The mathematical value of an [`EntryOutcome`].
pub enum EntryOutcomeV {
    Success(Seq<char>),
    Failure(DiagnosticV),
}

impl View for EntryOutcome {
    type V = EntryOutcomeV;

    open spec fn view(&self) -> EntryOutcomeV {
        match self {
            EntryOutcome::Success(t) => EntryOutcomeV::Success(t@),
            EntryOutcome::Failure(d) => EntryOutcomeV::Failure(d@),
        }
    }
}

/// What one transition yields: the next transient state, or the entry's
/// terminal outcome.
pub enum StepResult {
    Continue(EntryState),
    Finished(EntryOutcome),
}

/// The mathematical value of a [`StepResult`].
pub enum StepResultV {
    Continue(EntryStateV),
    Finished(EntryOutcomeV),
}

impl View for StepResult {
    type V = StepResultV;

    open spec fn view(&self) -> StepResultV {
        match self {
            StepResult::Continue(s) => StepResultV::Continue(s@),
            StepResult::Finished(o) => StepResultV::Finished(o@),
        }
    }
}

/// The diagnostic left when `stage` fails for the entry of `p`.
pub open spec fn failure_spec(p: PluginV, stage: Stage, msg: Seq<char>) -> EntryOutcomeV {
    EntryOutcomeV::Failure(
        DiagnosticV { owner: p.repo.owner, repo: p.repo.name, stage, message: msg },
    )
}

/// Where an entry's pipeline starts.  Exactly one resolution strategy is
/// chosen, by the presence of a pin alone: a pinned entry resolves on the
/// spot and goes straight to hashing; an unpinned one must resolve remotely.
pub open spec fn start_spec(p: PluginV) -> EntryStateV {
    match p.rev {
        Some(rev) => EntryStateV::Hashing(pinned_info_spec(p.repo, rev)),
        None => EntryStateV::Resolving,
    }
}

/// The resolving state's transition, on the reply of the remote metadata
/// lookup.  Any reported error, a missing default branch, or a non-commit
/// target fails the entry; it is never silently defaulted.
pub open spec fn resolve_spec(p: PluginV, reply: FetchReplyV) -> StepResultV {
    if reply.errors.len() > 0 {
        StepResultV::Finished(failure_spec(p, Stage::Resolution, reply.errors[0]))
    } else {
        match reply.target {
            None => StepResultV::Finished(
                failure_spec(p, Stage::Resolution, "no default branch commit"@),
            ),
            Some(CommitTargetV::Other) => StepResultV::Finished(
                failure_spec(p, Stage::Resolution, "target is not commit"@),
            ),
            Some(CommitTargetV::Commit { oid, date }) => StepResultV::Continue(
                EntryStateV::Hashing(unpinned_info_spec(p.repo, oid, date)),
            ),
        }
    }
}

/// The hashing state's transition, on the hasher's outcome.  A hash is
/// trimmed of surrounding whitespace before use; a hasher error fails the
/// entry with the hasher's own diagnostic text.
pub open spec fn hash_spec(
    p: PluginV,
    c: CommitInfoV,
    res: Result<Seq<char>, Seq<char>>,
) -> StepResultV {
    match res {
        Ok(h) => StepResultV::Continue(EntryStateV::Rendering(c, trimmed(h))),
        Err(e) => StepResultV::Finished(failure_spec(p, Stage::Hashing, e)),
    }
}

/// The rendering state's transition: always a success, carrying the stanza
/// for the entry's normalized name.  Rendering never fails on resolved data.
pub open spec fn render_spec(
    name: Seq<char>,
    p: PluginV,
    c: CommitInfoV,
    sha: Seq<char>,
) -> EntryOutcomeV {
    EntryOutcomeV::Success(
        stanza_spec(normalized(name), p.repo.owner, p.repo.name, c.version, c.tarball_url, sha),
    )
}

/// Start an entry's pipeline.
pub fn start_entry(p: &Plugin) -> (r: EntryState)
    ensures
        r@ == start_spec(p@),
{
    match &p.rev {
        Some(rev) => EntryState::Hashing(commit_info_pinned(&p.repo, rev.as_str())),
        None => EntryState::Resolving,
    }
}

/// Apply the remote metadata reply to a resolving entry.
pub fn apply_resolution(p: &Plugin, reply: FetchReply) -> (r: StepResult)
    requires
        reply.wf(),
    ensures
        r@ == resolve_spec(p@, reply@),
{
    let FetchReply { mut errors, target } = reply;
    if errors.len() > 0 {
        let first = errors.remove(0);
        StepResult::Finished(
            EntryOutcome::Failure(
                Diagnostic {
                    owner: p.repo.owner.clone(),
                    repo: p.repo.name.clone(),
                    stage: Stage::Resolution,
                    message: first,
                },
            ),
        )
    } else {
        match target {
            None => StepResult::Finished(
                EntryOutcome::Failure(
                    Diagnostic {
                        owner: p.repo.owner.clone(),
                        repo: p.repo.name.clone(),
                        stage: Stage::Resolution,
                        message: String::from_str("no default branch commit"),
                    },
                ),
            ),
            Some(CommitTarget::Other) => StepResult::Finished(
                EntryOutcome::Failure(
                    Diagnostic {
                        owner: p.repo.owner.clone(),
                        repo: p.repo.name.clone(),
                        stage: Stage::Resolution,
                        message: String::from_str("target is not commit"),
                    },
                ),
            ),
            Some(CommitTarget::Commit { oid, date }) => StepResult::Continue(
                EntryState::Hashing(commit_info_unpinned(&p.repo, oid.as_str(), &date)),
            ),
        }
    }
}

/// Apply the hasher's outcome to a hashing entry.
pub fn apply_hash(p: &Plugin, c: CommitInfo, hash_res: Result<String, String>) -> (r: StepResult)
    ensures
        r@ == hash_spec(
            p@,
            c@,
            match hash_res {
                Ok(ref h) => Ok::<Seq<char>, Seq<char>>(h@),
                Err(ref e) => Err::<Seq<char>, Seq<char>>(e@),
            },
        ),
{
    match hash_res {
        Ok(h) => StepResult::Continue(EntryState::Rendering(c, trim_ws(h.as_str()))),
        Err(e) => StepResult::Finished(
            EntryOutcome::Failure(
                Diagnostic {
                    owner: p.repo.owner.clone(),
                    repo: p.repo.name.clone(),
                    stage: Stage::Hashing,
                    message: e,
                },
            ),
        ),
    }
}

/// Render a rendering entry's stanza; the only transition with no external
/// outcome to consume, and the only one that cannot fail.
pub fn apply_render(name: &str, p: &Plugin, c: CommitInfo, sha: String) -> (r: EntryOutcome)
    ensures
        r@ == render_spec(name@, p@, c@, sha@),
{
    let ident = normalize_name(name);
    let text = render_stanza(
        ident.as_str(),
        p.repo.owner.as_str(),
        p.repo.name.as_str(),
        c.version.as_str(),
        c.tarball_url.as_str(),
        sha.as_str(),
    );
    EntryOutcome::Success(text)
}

} // verus!
