use printing_service::artifact::get_temporary_file_path;
use std::collections::HashSet;

#[test]
fn temporary_paths_are_unique_across_thousand_jobs() {
    let mut seen: HashSet<String> = HashSet::new();
    for _ in 0..1000 {
        let p = get_temporary_file_path("/tmp");
        assert!(seen.insert(p), "a temporary path was handed out twice");
    }
    assert_eq!(seen.len(), 1000);
}

#[test]
fn temporary_path_has_stem_random_suffix_and_extension() {
    let p = get_temporary_file_path("/var/tmp");
    let prefix = "/var/tmp/output_";
    assert!(p.starts_with(prefix));
    assert!(p.ends_with(".pdf"));
    let suffix = &p[prefix.len()..p.len() - ".pdf".len()];
    assert_eq!(suffix.len(), 7);
    assert!(suffix.chars().all(|c| c.is_ascii_alphanumeric()));
}

#[test]
fn temporary_path_keeps_the_given_directory() {
    let p = get_temporary_file_path("/some/spool/dir");
    assert!(p.starts_with("/some/spool/dir/output_"));
}
