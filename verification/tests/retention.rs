use github_package_gc::packages::{Container, Metadata, Package};
use github_package_gc::retention::{deletion_candidates, skip_count, DEFAULT_SKIP};

fn record(id: i64, tags: &[&str]) -> Package {
    Package {
        id,
        created_at: format!("2023-01-0{id}T00:00:00Z"),
        metadata: Metadata {
            package_type: "container".to_string(),
            container: Container { tags: tags.iter().map(|tag| tag.to_string()).collect() },
        },
        ..Package::default()
    }
}

fn five() -> Vec<Package> {
    vec![
        record(1, &["t1"]),
        record(2, &["t2"]),
        record(3, &[]),
        record(4, &["t4"]),
        record(5, &["t5"]),
    ]
}

fn ids(packages: &[Package]) -> Vec<i64> {
    packages.iter().map(|package| package.id).collect()
}

#[test]
fn skip_defaults_to_four() {
    assert_eq!(DEFAULT_SKIP, 4);
    assert_eq!(skip_count(None), 4);
    assert_eq!(skip_count(Some(0)), 0);
    assert_eq!(skip_count(Some(9)), 9);
}

#[test]
fn keeping_four_of_five_selects_the_fifth() {
    let selected = deletion_candidates(five(), 4);
    assert_eq!(ids(&selected), vec![5]);
    assert_eq!(selected[0], record(5, &["t5"]));
}

#[test]
fn keeping_none_selects_all_in_order() {
    assert_eq!(ids(&deletion_candidates(five(), 0)), vec![1, 2, 3, 4, 5]);
}

#[test]
fn keeping_as_many_as_there_are_selects_none() {
    assert!(deletion_candidates(five(), 5).is_empty());
}

#[test]
fn keeping_more_than_there_are_selects_none() {
    assert!(deletion_candidates(five(), 6).is_empty());
    assert!(deletion_candidates(five(), usize::MAX).is_empty());
    assert!(deletion_candidates(Vec::new(), 0).is_empty());
    assert!(deletion_candidates(Vec::new(), 4).is_empty());
}

#[test]
fn selection_counts_length_minus_kept() {
    for kept in 0..8usize {
        let selected = deletion_candidates(five(), kept);
        assert_eq!(selected.len(), 5usize.saturating_sub(kept));
        for (offset, package) in selected.iter().enumerate() {
            assert_eq!(package.id, (kept + offset + 1) as i64);
        }
    }
}

#[test]
fn selection_follows_the_list_not_the_timestamps() {
    let unordered = vec![record(3, &["c"]), record(1, &["a"]), record(2, &["b"])];
    assert_eq!(ids(&deletion_candidates(unordered, 1)), vec![1, 2]);
}
