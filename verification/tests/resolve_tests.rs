use vimplugins::config::Repository;
use vimplugins::date::version_label;
use vimplugins::date::Date;
use vimplugins::resolve::commit_info_pinned;
use vimplugins::resolve::commit_info_unpinned;
use vimplugins::resolve::tarball_url;

fn repo(owner: &str, name: &str) -> Repository {
    Repository { owner: owner.to_string(), name: name.to_string() }
}

#[test]
fn version_label_pads_month_and_day() {
    assert_eq!(version_label(&Date { year: 2024, month: 3, day: 7 }), "2024-03-07");
}

#[test]
fn version_label_pads_year() {
    assert_eq!(version_label(&Date { year: 999, month: 12, day: 31 }), "0999-12-31");
}

#[test]
fn tarball_url_embeds_all_parts() {
    assert_eq!(
        tarball_url(&repo("owner", "repo"), "abc123"),
        "https://github.com/owner/repo/archive/abc123.tar.gz"
    );
}

#[test]
fn pinned_resolution_uses_revision_as_label() {
    let c = commit_info_pinned(&repo("o", "r"), "v1.2.3");
    assert_eq!(c.tarball_url, "https://github.com/o/r/archive/v1.2.3.tar.gz");
    assert_eq!(c.version, "v1.2.3");
}

#[test]
fn pinned_resolution_is_deterministic() {
    let a = commit_info_pinned(&repo("o", "r"), "v1.2.3");
    let b = commit_info_pinned(&repo("o", "r"), "v1.2.3");
    assert_eq!(a.tarball_url, b.tarball_url);
    assert_eq!(a.version, b.version);
}

#[test]
fn unpinned_resolution_labels_with_commit_date() {
    let c = commit_info_unpinned(
        &repo("owner", "repo"),
        "abc123",
        &Date { year: 2024, month: 3, day: 7 },
    );
    assert_eq!(c.version, "2024-03-07");
    assert_eq!(c.tarball_url, "https://github.com/owner/repo/archive/abc123.tar.gz");
}
