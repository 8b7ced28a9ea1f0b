use vimplugins::config::Plugin;
use vimplugins::config::Repository;
use vimplugins::date::Date;
use vimplugins::error::Stage;
use vimplugins::pipeline::apply_hash;
use vimplugins::pipeline::apply_render;
use vimplugins::pipeline::apply_resolution;
use vimplugins::pipeline::start_entry;
use vimplugins::pipeline::EntryOutcome;
use vimplugins::pipeline::EntryState;
use vimplugins::pipeline::StepResult;
use vimplugins::resolve::CommitInfo;
use vimplugins::resolve::CommitTarget;
use vimplugins::resolve::FetchReply;

fn plugin(owner: &str, name: &str, rev: Option<&str>) -> Plugin {
    Plugin {
        repo: Repository { owner: owner.to_string(), name: name.to_string() },
        rev: rev.map(|r| r.to_string()),
    }
}

fn commit(url: &str, version: &str) -> CommitInfo {
    CommitInfo { tarball_url: url.to_string(), version: version.to_string() }
}

#[test]
fn pinned_entry_skips_remote_resolution() {
    match start_entry(&plugin("o", "r", Some("v2"))) {
        EntryState::Hashing(c) => {
            assert_eq!(c.tarball_url, "https://github.com/o/r/archive/v2.tar.gz");
            assert_eq!(c.version, "v2");
        }
        _ => panic!("pinned entry should resolve on the spot"),
    }
}

#[test]
fn unpinned_entry_waits_for_resolution() {
    assert!(matches!(start_entry(&plugin("o", "r", None)), EntryState::Resolving));
}

#[test]
fn resolution_error_fails_the_entry() {
    let reply = FetchReply { errors: vec!["rate limited".to_string()], target: None };
    match apply_resolution(&plugin("own", "rep", None), reply) {
        StepResult::Finished(EntryOutcome::Failure(d)) => {
            assert_eq!(d.owner, "own");
            assert_eq!(d.repo, "rep");
            assert_eq!(d.stage, Stage::Resolution);
            assert_eq!(d.message, "rate limited");
        }
        _ => panic!("a reported error must fail resolution"),
    }
}

#[test]
fn missing_branch_fails_the_entry() {
    let reply = FetchReply { errors: vec![], target: None };
    match apply_resolution(&plugin("o", "r", None), reply) {
        StepResult::Finished(EntryOutcome::Failure(d)) => {
            assert_eq!(d.stage, Stage::Resolution);
            assert_eq!(d.message, "no default branch commit");
        }
        _ => panic!("a missing branch must fail resolution"),
    }
}

#[test]
fn non_commit_target_fails_the_entry() {
    let reply = FetchReply { errors: vec![], target: Some(CommitTarget::Other) };
    match apply_resolution(&plugin("o", "r", None), reply) {
        StepResult::Finished(EntryOutcome::Failure(d)) => {
            assert_eq!(d.message, "target is not commit");
        }
        _ => panic!("a non-commit target must fail resolution"),
    }
}

#[test]
fn good_reply_moves_to_hashing() {
    let reply = FetchReply {
        errors: vec![],
        target: Some(CommitTarget::Commit {
            oid: "abc123".to_string(),
            date: Date { year: 2024, month: 3, day: 7 },
        }),
    };
    match apply_resolution(&plugin("owner", "repo", None), reply) {
        StepResult::Continue(EntryState::Hashing(c)) => {
            assert_eq!(c.tarball_url, "https://github.com/owner/repo/archive/abc123.tar.gz");
            assert_eq!(c.version, "2024-03-07");
        }
        _ => panic!("a commit target must continue to hashing"),
    }
}

#[test]
fn hash_is_trimmed_before_use() {
    match apply_hash(&plugin("o", "r", None), commit("u", "v"), Ok("deadbeef\n".to_string())) {
        StepResult::Continue(EntryState::Rendering(_, h)) => assert_eq!(h, "deadbeef"),
        _ => panic!("a hashed entry must continue to rendering"),
    }
}

#[test]
fn hasher_error_fails_the_entry() {
    match apply_hash(&plugin("o", "r", None), commit("u", "v"), Err("exit 1".to_string())) {
        StepResult::Finished(EntryOutcome::Failure(d)) => {
            assert_eq!(d.stage, Stage::Hashing);
            assert_eq!(d.message, "exit 1");
        }
        _ => panic!("a hasher error must fail the entry"),
    }
}

#[test]
fn rendered_stanza_has_exact_shape() {
    let c = commit("https://github.com/o/r/archive/v2.tar.gz", "v2");
    match apply_render("foo.bar", &plugin("o", "r", Some("v2")), c, "deadbeef".to_string()) {
        EntryOutcome::Success(text) => {
            let expected = "  foo-bar = buildVimPluginFrom2Nix {\n    pname = \"foo-bar\"; # Manifest entry: \"o/r\"\n    version = \"v2\";\n    src = fetchurl {\n      url = \"https://github.com/o/r/archive/v2.tar.gz\";\n      sha256 = \"deadbeef\";\n    };\n  };\n";
            assert_eq!(text, expected);
        }
        _ => panic!("rendering never fails"),
    }
}

#[test]
fn rendered_name_is_normalized() {
    let c = commit("u", "v");
    match apply_render("foo.bar", &plugin("o", "r", None), c, "h".to_string()) {
        EntryOutcome::Success(text) => {
            assert!(text.contains("foo-bar"));
            assert!(!text.contains("foo.bar"));
        }
        _ => panic!("rendering never fails"),
    }
}

#[test]
fn trimmed_hash_lands_in_stanza_field() {
    let p = plugin("o", "r", Some("v1"));
    let c = commit("u", "v1");
    let rendering = apply_hash(&p, c, Ok("deadbeef\n".to_string()));
    let (c2, h) = match rendering {
        StepResult::Continue(EntryState::Rendering(c2, h)) => (c2, h),
        _ => panic!("a hashed entry must continue to rendering"),
    };
    match apply_render("name", &p, c2, h) {
        EntryOutcome::Success(text) => {
            assert!(text.contains("sha256 = \"deadbeef\";"));
            assert!(!text.contains("deadbeef\n\""));
        }
        _ => panic!("rendering never fails"),
    }
}
