//! The output assembler: every successful stanza, wrapped once in the fixed
//! document envelope, with the failures reported beside the document, never
//! inside it.  Failures do not abort assembly — a batch with successes and
//! failures still yields a valid document carrying all the successes.
//! The finished document may be pretty-printed as Nix text.

use vstd::prelude::*;

use crate::batch::results_view;
use crate::batch::EntryResult;
use crate::batch::EntryResultV;
use crate::error::Diagnostic;
use crate::error::DiagnosticV;
use crate::pipeline::EntryOutcome;
use crate::pipeline::EntryOutcomeV;

verus! {

/// The view of a diagnostic list.
pub open spec fn diags_view(ds: Seq<Diagnostic>) -> Seq<DiagnosticV> {
    ds.map_values(|d: Diagnostic| d@)
}

/// The document's opening envelope: the declaration of the two expected
/// build inputs, and the opening brace of the attribute set.
pub open spec fn header_spec() -> Seq<char> {
    "{ buildVimPluginFrom2Nix, fetchurl }:\n    {\n"@
}

/// The document's closing envelope.
pub open spec fn close_spec() -> Seq<char> {
    "}"@
}

/// The stanzas of the successful results, in result order, each exactly
/// once.
pub open spec fn success_texts(rs: Seq<EntryResultV>) -> Seq<Seq<char>>
    decreases rs.len(),
{
    if rs.len() == 0 {
        Seq::empty()
    } else {
        let rest = success_texts(rs.drop_last());
        match rs.last().outcome {
            EntryOutcomeV::Success(t) => rest.push(t),
            EntryOutcomeV::Failure(_) => rest,
        }
    }
}

/// The diagnostics of the failed results, in result order, each exactly
/// once.
pub open spec fn failure_diags(rs: Seq<EntryResultV>) -> Seq<DiagnosticV>
    decreases rs.len(),
{
    if rs.len() == 0 {
        Seq::empty()
    } else {
        let rest = failure_diags(rs.drop_last());
        match rs.last().outcome {
            EntryOutcomeV::Success(_) => rest,
            EntryOutcomeV::Failure(d) => rest.push(d),
        }
    }
}

/// A list of text blocks joined into one.
pub open spec fn concat_texts(ss: Seq<Seq<char>>) -> Seq<char>
    decreases ss.len(),
{
    if ss.len() == 0 {
        Seq::empty()
    } else {
        concat_texts(ss.drop_last()) + ss.last()
    }
}

/// The assembled document: the envelope around the concatenation of every
/// successful stanza.
pub open spec fn document_spec(rs: Seq<EntryResultV>) -> Seq<char> {
    header_spec() + concat_texts(success_texts(rs)) + close_spec()
}

/// Assemble a batch outcome: the document holding every success, and the
/// failure diagnostics on their own channel.
pub fn assemble(results: &Vec<EntryResult>) -> (r: (String, Vec<Diagnostic>))
    ensures
        r.0@ == document_spec(results_view(results@)),
        diags_view(r.1@) == failure_diags(results_view(results@)),
{
    let ghost rv = results_view(results@);
    let mut doc = String::new();
    doc.append("{ buildVimPluginFrom2Nix, fetchurl }:\n    {\n");
    let mut fails: Vec<Diagnostic> = Vec::new();
    let n = results.len();
    let mut i: usize = 0;
    while i < n
        invariant
            i <= n,
            n == results@.len(),
            rv == results_view(results@),
            rv.len() == n,
            doc@ == header_spec() + concat_texts(success_texts(rv.subrange(0, i as int))),
            diags_view(fails@) == failure_diags(rv.subrange(0, i as int)),
        decreases n - i,
    {
        let ghost pre_fails = fails@;
        match &results[i].outcome {
            EntryOutcome::Success(t) => {
                doc.append(t.as_str());
            },
            EntryOutcome::Failure(d) => {
                fails.push(d.duplicate());
            },
        }
        proof {
            let prefix = rv.subrange(0, i as int);
            let ext = rv.subrange(0, i as int + 1);
            assert(ext.drop_last() =~= prefix);
            assert(ext.last() == results@[i as int]@);
            let sts = success_texts(prefix);
            match results@[i as int]@.outcome {
                EntryOutcomeV::Success(t) => {
                    assert(success_texts(ext) == sts.push(t));
                    assert(sts.push(t).drop_last() =~= sts);
                    assert(concat_texts(sts.push(t)) == concat_texts(sts) + t);
                },
                EntryOutcomeV::Failure(_) => {
                    assert(success_texts(ext) == sts);
                },
            }
            assert(doc@ =~= header_spec() + concat_texts(success_texts(ext)));
            if results@[i as int]@.outcome is Failure {
                assert forall|j: int| 0 <= j < fails@.len() implies diags_view(fails@)[j]
                    == failure_diags(ext)[j] by {
                    if j < pre_fails.len() {
                        assert(fails@[j] == pre_fails[j]);
                        assert(diags_view(pre_fails)[j] == failure_diags(prefix)[j]);
                    }
                }
            }
            assert(diags_view(fails@) =~= failure_diags(ext));
        }
        i = i + 1;
    }
    doc.append("}");
    proof {
        assert(rv.subrange(0, n as int) =~= rv);
        assert(doc@ =~= document_spec(rv));
    }
    (doc, fails)
}

/// Assembly is total: every result lands in exactly one of the two
/// channels, so the stanza count and the diagnostic count add up to the
/// batch size — no result is dropped or duplicated.
pub proof fn lemma_assembly_total(rs: Seq<EntryResultV>)
    ensures
        success_texts(rs).len() + failure_diags(rs).len() == rs.len(),
    decreases rs.len(),
{
    if rs.len() > 0 {
        lemma_assembly_total(rs.drop_last());
    }
}

/// A batch with no entries still yields a valid document: the opening and
/// closing envelope with an empty body, and no failures.
pub proof fn lemma_empty_batch_document(rs: Seq<EntryResultV>)
    requires
        rs.len() == 0,
    ensures
        document_spec(rs) == header_spec() + close_spec(),
        failure_diags(rs) == Seq::<DiagnosticV>::empty(),
{
    assert(header_spec() + concat_texts(success_texts(rs)) + close_spec() =~= header_spec()
        + close_spec());
}

/// The name of the pretty-printed form of a Nix document: what the
/// formatter returns for a given display path and source text, or nothing
/// where the source does not parse.  The formatter's output is a function
/// of these two arguments alone.
pub uninterp spec fn pretty_of(path: Seq<char>, code: Seq<char>) -> Option<Seq<char>>;

/// Relies on alejandra::format::in_memory: parses `code` as Nix and
/// pretty-prints it, using `path` only for error display; the result is a
/// function of the two arguments alone.  A parse error comes back as the
/// error's text.
#[verifier::external_body]
fn format_in_memory(path: &str, code: &str) -> (r: Result<String, String>)
    ensures
        r matches Ok(s) ==> pretty_of(path@, code@) == Some(s@),
        r is Err ==> pretty_of(path@, code@) is None,
{
    let (status, out) = alejandra::format::in_memory(path.to_string(), code.to_string());
    match status {
        alejandra::format::Status::Error(e) => Err(e),
        alejandra::format::Status::Changed(_) => Ok(out),
    }
}

/// The document as it is written out: unchanged when formatting is skipped,
/// otherwise the pretty-printed form.  An error here means the assembled
/// document was not valid Nix — an internal defect, not a per-entry
/// condition.
pub fn format_document(path: &str, code: &str, no_format: bool) -> (r: Result<String, String>)
    ensures
        no_format ==> (r matches Ok(s) && s@ == code@),
        !no_format ==> (r matches Ok(s) ==> pretty_of(path@, code@) == Some(s@)),
        !no_format ==> (r is Err ==> pretty_of(path@, code@) is None),
{
    if no_format {
        Ok(code.to_owned())
    } else {
        format_in_memory(path, code)
    }
}

} // verus!
