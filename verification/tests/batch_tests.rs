use vimplugins::batch::BatchRunner;
use vimplugins::config::Plugin;
use vimplugins::config::PluginEntry;
use vimplugins::config::Repository;
use vimplugins::date::Date;
use vimplugins::error::Stage;
use vimplugins::pipeline::EntryOutcome;
use vimplugins::resolve::CommitTarget;
use vimplugins::resolve::FetchReply;

fn entry(name: &str, owner: &str, repo: &str, rev: Option<&str>) -> PluginEntry {
    PluginEntry {
        name: name.to_string(),
        plugin: Plugin {
            repo: Repository { owner: owner.to_string(), name: repo.to_string() },
            rev: rev.map(|r| r.to_string()),
        },
    }
}

fn good_reply(oid: &str) -> FetchReply {
    FetchReply {
        errors: vec![],
        target: Some(CommitTarget::Commit {
            oid: oid.to_string(),
            date: Date { year: 2024, month: 3, day: 7 },
        }),
    }
}

#[test]
fn ceiling_blocks_admission() {
    let entries = vec![
        entry("a", "o1", "r1", Some("v1")),
        entry("b", "o2", "r2", None),
        entry("c", "o3", "r3", None),
    ];
    let mut runner = BatchRunner::new(entries, 2);
    assert_eq!(runner.limit(), 2);
    assert_eq!(runner.try_admit(), Some(0));
    assert_eq!(runner.try_admit(), Some(1));
    assert_eq!(runner.active_count(), 2);
    // the ceiling is reached: a third task must wait for a slot
    assert_eq!(runner.try_admit(), None);
    // finishing one task frees its slot, and admission resumes
    runner.step_hashed(0, Ok("cafe".to_string()));
    runner.step_rendered(0);
    assert_eq!(runner.active_count(), 1);
    assert_eq!(runner.try_admit(), Some(2));
    assert_eq!(runner.active_count(), 2);
}

#[test]
fn one_failure_leaves_the_others_whole() {
    let entries = vec![
        entry("alpha.plugin", "a", "x", Some("v1")),
        entry("beta", "b", "y", None),
        entry("gamma", "c", "z", None),
    ];
    let mut runner = BatchRunner::new(entries, 2);
    assert_eq!(runner.try_admit(), Some(0));
    assert_eq!(runner.try_admit(), Some(1));
    assert_eq!(runner.try_admit(), None);

    // entry 0: pinned, hashes and renders
    runner.step_hashed(0, Ok("deadbeef\n".to_string()));
    runner.step_rendered(0);

    // entry 2 takes the freed slot
    assert_eq!(runner.try_admit(), Some(2));

    // inject a permanent resolver failure into entry 1 alone
    runner.step_resolved(1, FetchReply { errors: vec!["boom".to_string()], target: None });

    // entry 2 finishes normally
    runner.step_resolved(2, good_reply("abc123"));
    runner.step_hashed(2, Ok("cafebabe".to_string()));
    runner.step_rendered(2);

    assert!(runner.is_finished());
    assert_eq!(runner.active_count(), 0);
    let results = runner.into_results();
    // exactly one result per entry, in entry order
    assert_eq!(results.len(), 3);
    assert_eq!(results[0].entry.name, "alpha.plugin");
    assert_eq!(results[1].entry.name, "beta");
    assert_eq!(results[2].entry.name, "gamma");

    match &results[0].outcome {
        EntryOutcome::Success(text) => {
            assert!(text.contains("alpha-plugin"));
            assert!(text.contains("sha256 = \"deadbeef\";"));
        }
        _ => panic!("entry 0 must succeed"),
    }
    match &results[1].outcome {
        EntryOutcome::Failure(d) => {
            assert_eq!(d.owner, "b");
            assert_eq!(d.repo, "y");
            assert_eq!(d.stage, Stage::Resolution);
            assert_eq!(d.message, "boom");
        }
        _ => panic!("entry 1 must carry the injected failure"),
    }
    match &results[2].outcome {
        EntryOutcome::Success(text) => {
            assert!(text.contains("version = \"2024-03-07\";"));
            assert!(text.contains("https://github.com/c/z/archive/abc123.tar.gz"));
        }
        _ => panic!("entry 2 must succeed"),
    }
}

#[test]
fn empty_batch_finishes_at_once() {
    let runner = BatchRunner::new(vec![], 1);
    assert!(runner.is_finished());
    let results = runner.into_results();
    assert_eq!(results.len(), 0);
}

#[test]
fn admission_is_in_entry_order() {
    let entries = vec![entry("a", "o", "r", Some("v")), entry("b", "o", "r", Some("v"))];
    let mut runner = BatchRunner::new(entries, 5);
    assert_eq!(runner.task_count(), 2);
    assert_eq!(runner.try_admit(), Some(0));
    assert_eq!(runner.try_admit(), Some(1));
    assert_eq!(runner.try_admit(), None);
    assert!(!runner.is_finished());
}
