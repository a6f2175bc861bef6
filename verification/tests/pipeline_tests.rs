use quic_interop::batch::partition;
use quic_interop::resource::{effective_port, file_name_of, parse_request_list, Resource};
use quic_interop::scenario::resolve;

fn res(host: &str, port: Option<u16>, path: &str) -> Resource {
    Resource { host: host.to_string(), port, path: path.as_bytes().to_vec() }
}

fn paths_of_group(g: &quic_interop::batch::ConnectionGroup) -> Vec<Vec<u8>> {
    g.resources.iter().map(|r| r.path.clone()).collect()
}

#[test]
fn url_list_parses_host_port_and_path() {
    let urls = vec!["https://example.com:9000/dir/file".to_string()];
    let rs = parse_request_list(&urls);
    assert_eq!(rs.len(), 1);
    assert_eq!(rs[0].host, "example.com");
    assert_eq!(rs[0].port, Some(9000));
    assert_eq!(rs[0].path, b"/dir/file".to_vec());
}

#[test]
fn url_list_drops_what_does_not_parse() {
    let urls = vec![
        "https://one.test/a".to_string(),
        "not a url".to_string(),
        "https://two.test/b".to_string(),
    ];
    let rs = parse_request_list(&urls);
    assert_eq!(rs.len(), 2);
    assert_eq!(rs[0].host, "one.test");
    assert_eq!(rs[1].host, "two.test");
}

#[test]
fn effective_port_applies_the_harness_default() {
    let urls = vec!["https://example.com/f".to_string()];
    let rs = parse_request_list(&urls);
    assert_eq!(rs[0].port, None);
    assert_eq!(effective_port(&rs[0]), 4433);
    assert_eq!(effective_port(&res("h", Some(22), "/x")), 22);
}

#[test]
fn file_name_is_the_last_path_segment() {
    assert_eq!(file_name_of(&b"/a/bc".to_vec()), b"bc".to_vec());
    assert_eq!(file_name_of(&b"abc".to_vec()), b"abc".to_vec());
    assert_eq!(file_name_of(&b"/a/b/".to_vec()), b"".to_vec());
    assert_eq!(file_name_of(&b"/".to_vec()), b"".to_vec());
    assert_eq!(file_name_of(&b"".to_vec()), b"".to_vec());
}

#[test]
fn partition_single_shared_keeps_everything_in_one_group() {
    let p = resolve("transfer").unwrap();
    let rs = vec![res("h", None, "/a"), res("h", None, "/b"), res("h", None, "/c")];
    let groups = partition(rs, &p);
    assert_eq!(groups.len(), 1);
    assert_eq!(
        paths_of_group(&groups[0]),
        vec![b"/a".to_vec(), b"/b".to_vec(), b"/c".to_vec()]
    );
}

#[test]
fn partition_per_request_makes_singleton_groups_in_order() {
    let p = resolve("handshake").unwrap();
    let rs = vec![res("h", None, "/a"), res("h", None, "/b"), res("h", None, "/c")];
    let groups = partition(rs, &p);
    assert_eq!(groups.len(), 3);
    assert_eq!(paths_of_group(&groups[0]), vec![b"/a".to_vec()]);
    assert_eq!(paths_of_group(&groups[1]), vec![b"/b".to_vec()]);
    assert_eq!(paths_of_group(&groups[2]), vec![b"/c".to_vec()]);
}

#[test]
fn partition_first_separate_carves_out_a_singleton_first_group() {
    let p = resolve("resumption").unwrap();
    let rs = vec![res("h", None, "/a"), res("h", None, "/b"), res("h", None, "/c")];
    let groups = partition(rs, &p);
    assert_eq!(groups.len(), 2);
    assert_eq!(paths_of_group(&groups[0]), vec![b"/a".to_vec()]);
    assert_eq!(paths_of_group(&groups[1]), vec![b"/b".to_vec(), b"/c".to_vec()]);
}

#[test]
fn partition_first_separate_with_one_resource_has_one_group() {
    let p = resolve("zerortt").unwrap();
    let rs = vec![res("h", None, "/only")];
    let groups = partition(rs, &p);
    assert_eq!(groups.len(), 1);
    assert_eq!(paths_of_group(&groups[0]), vec![b"/only".to_vec()]);
}

#[test]
fn partition_of_nothing_yields_no_groups() {
    let p = resolve("transfer").unwrap();
    let groups = partition(Vec::new(), &p);
    assert!(groups.is_empty());
    let p = resolve("handshake").unwrap();
    let groups = partition(Vec::new(), &p);
    assert!(groups.is_empty());
}

#[test]
fn transfer_scenario_runs_two_files_over_one_connection() {
    let urls = vec![
        "https://host/4433/file1".to_string(),
        "https://host/4433/file2".to_string(),
    ];
    let rs = parse_request_list(&urls);
    assert_eq!(rs.len(), 2);
    let p = resolve("transfer").unwrap();
    let groups = partition(rs, &p);
    assert_eq!(groups.len(), 1);
    assert_eq!(groups[0].resources.len(), 2);
    assert_eq!(file_name_of(&groups[0].resources[0].path), b"file1".to_vec());
    assert_eq!(file_name_of(&groups[0].resources[1].path), b"file2".to_vec());
}
