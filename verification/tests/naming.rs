use metrics_core::naming::build_fq_name;

#[test]
fn test_build_fq_name() {
    let tbl = vec![
        ("a", "b", "c", "a_b_c"),
        ("", "b", "c", "b_c"),
        ("a", "", "c", "a_c"),
        ("", "", "c", "c"),
        ("a", "b", "", ""),
        ("a", "", "", ""),
        ("", "b", "", ""),
        (" ", "", "", ""),
    ];

    for (namespace, subsystem, name, res) in tbl {
        assert_eq!(&build_fq_name(namespace, subsystem, name), res);
    }
}

#[test]
fn all_three_components_are_joined_in_order() {
    assert_eq!(build_fq_name("http", "server", "requests_total"), "http_server_requests_total");
}

#[test]
fn an_empty_name_gives_an_empty_result() {
    assert_eq!(build_fq_name("", "", ""), "");
    assert_eq!(build_fq_name("namespace", "subsystem", ""), "");
}

#[test]
fn a_blank_namespace_is_not_an_empty_one() {
    assert_eq!(build_fq_name(" ", "", "c"), " _c");
    assert_eq!(build_fq_name("", " ", "c"), " _c");
    assert_eq!(build_fq_name(" ", " ", "c"), " _ _c");
}

#[test]
fn characters_are_taken_as_they_are() {
    assert_eq!(build_fq_name("a_", "_b", "c"), "a___b_c");
    assert_eq!(build_fq_name("größe", "", "zähler"), "größe_zähler");
    assert_eq!(build_fq_name("", "9", "-"), "9_-");
}

#[test]
fn the_name_alone_stands_for_itself() {
    assert_eq!(build_fq_name("", "", "up"), "up");
    assert_eq!(build_fq_name("", "", "_"), "_");
}
