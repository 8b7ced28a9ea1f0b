use vimplugins::assemble::assemble;
use vimplugins::assemble::format_document;
use vimplugins::batch::EntryResult;
use vimplugins::config::Plugin;
use vimplugins::config::PluginEntry;
use vimplugins::config::Repository;
use vimplugins::error::Diagnostic;
use vimplugins::error::Stage;
use vimplugins::pipeline::EntryOutcome;

const HEADER: &str = "{ buildVimPluginFrom2Nix, fetchurl }:\n    {\n";

fn result(name: &str, outcome: EntryOutcome) -> EntryResult {
    EntryResult {
        entry: PluginEntry {
            name: name.to_string(),
            plugin: Plugin {
                repo: Repository { owner: "o".to_string(), name: "r".to_string() },
                rev: None,
            },
        },
        outcome,
    }
}

#[test]
fn empty_batch_yields_envelope_only() {
    let (doc, fails) = assemble(&vec![]);
    assert_eq!(doc, format!("{}{}", HEADER, "}"));
    assert_eq!(fails.len(), 0);
}

#[test]
fn successes_are_concatenated_in_order() {
    let results = vec![
        result("a", EntryOutcome::Success("S1\n".to_string())),
        result("b", EntryOutcome::Success("S2\n".to_string())),
    ];
    let (doc, fails) = assemble(&results);
    assert_eq!(doc, format!("{}S1\nS2\n{}", HEADER, "}"));
    assert_eq!(fails.len(), 0);
}

#[test]
fn failures_stay_out_of_the_document() {
    let results = vec![
        result("a", EntryOutcome::Success("S1\n".to_string())),
        result(
            "b",
            EntryOutcome::Failure(Diagnostic {
                owner: "own".to_string(),
                repo: "rep".to_string(),
                stage: Stage::Hashing,
                message: "exit 1".to_string(),
            }),
        ),
        result("c", EntryOutcome::Success("S3\n".to_string())),
    ];
    let (doc, fails) = assemble(&results);
    assert_eq!(doc, format!("{}S1\nS3\n{}", HEADER, "}"));
    assert_eq!(fails.len(), 1);
    assert_eq!(fails[0].owner, "own");
    assert_eq!(fails[0].repo, "rep");
    assert_eq!(fails[0].stage, Stage::Hashing);
    assert_eq!(fails[0].message, "exit 1");
    assert!(!doc.contains("exit 1"));
}

#[test]
fn skipped_formatting_passes_the_text_through() {
    let r = format_document("out.nix", "{a=1;}", true);
    assert_eq!(r, Ok("{a=1;}".to_string()));
}

#[test]
fn formatting_pretty_prints_valid_nix() {
    let r = format_document("out.nix", "{a=1;}", false);
    let formatted = r.expect("valid Nix must format");
    assert_ne!(formatted, "{a=1;}");
    assert!(formatted.contains("a = 1;"));
}

#[test]
fn formatting_rejects_invalid_nix() {
    let r = format_document("out.nix", "{{{", false);
    assert!(r.is_err());
}

#[test]
fn empty_document_is_valid_nix() {
    let (doc, _) = assemble(&vec![]);
    let r = format_document("out.nix", doc.as_str(), false);
    assert!(r.is_ok());
}
