//! An end-to-end run over synthetic data: three sibling repositories hold
//! a `foo.txt` under their bare source tree, two of them with matching
//! basenames; the pipeline selects the two most recently created, resolves
//! the reference by the size/modification rule, computes the percentage
//! and classifies it with the catch-all category's profile.

use reference_finder::category::Category;
use reference_finder::locate::get_name_matches;
use reference_finder::report::evaluate;
use reference_finder::select::{get_match, get_two_recently_created, Candidate};
use reference_finder::validate::check_args;

fn lines(v: &[&str]) -> Vec<String> {
    v.iter().map(|s| s.to_string()).collect()
}

#[test]
fn end_to_end_over_three_sibling_repositories() {
    let category = check_args(&"foo.txt".to_string(), &"other".to_string(), true).unwrap();
    assert_eq!(category, Category::Other);

    // what a recursive scan of the three siblings would discover
    let discovered = vec![
        "/base/docs-kotlin/source/foo.txt".to_string(),
        "/base/docs-golang/source/other/bar.txt".to_string(),
        "/base/docs-node/source/nested/foo.txt".to_string(),
    ];
    let matches = get_name_matches(&discovered, &"foo.txt".to_string());
    assert_eq!(matches.len(), 2);

    // metadata: the node copy was created later but the kotlin copy is
    // both larger and more recently modified, so it wins the resolution
    let candidates = vec![
        Candidate { path: matches[0].clone(), size: 400, created: 1_000, modified: 9_000 },
        Candidate { path: matches[1].clone(), size: 300, created: 2_000, modified: 8_000 },
    ];
    let (most_recent, second_most_recent) = get_two_recently_created(&candidates).unwrap();
    assert_eq!(most_recent.path, "/base/docs-node/source/nested/foo.txt");
    assert_eq!(second_most_recent.path, "/base/docs-kotlin/source/foo.txt");
    assert!(most_recent.created >= second_most_recent.created);

    let reference = get_match(&most_recent, &second_most_recent);
    assert_eq!(reference.path, "/base/docs-kotlin/source/foo.txt");

    // the contents of the two selected files
    let most_recent_lines = lines(&["intro", "shared one", "shared two", "fresh"]);
    let second_lines = lines(&["intro", "shared one", "shared two", "old tail"]);
    let report = evaluate(category, &most_recent_lines, &second_lines);

    // one line of the newer file is unique; total = 4 + 4 / 2 = 6
    assert_eq!(report.diff.unique_to_first, 1);
    assert_eq!(report.diff.total, 6);
    assert_eq!(report.mean_milli, 27630);
    // 100 / 6 = 16.67 percent, below 27.63 - 10.844 = 16.786: tier 1
    assert_eq!(report.tier, 1);
    assert_eq!(report.description, "less text than average");
}

#[test]
fn two_empty_files_are_identical_and_lowest_tier() {
    let empty: Vec<String> = vec![];
    let report = evaluate(Category::Fundamentals, &empty, &empty);
    assert_eq!(report.diff.unique_to_first, 0);
    assert_eq!(report.diff.total, 0);
    assert_eq!(report.tier, 1);
    assert_eq!(report.description, "less text than average");
}
