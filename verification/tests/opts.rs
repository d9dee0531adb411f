use metrics_core::{ConstLabels, Desc, DescValidator, Opts};

#[test]
fn new_sets_name_and_help_and_nothing_else() {
    let opts = Opts::new("requests", "Requests served.");
    assert_eq!(opts.name, "requests");
    assert_eq!(opts.help, "Requests served.");
    assert_eq!(opts.namespace, "");
    assert_eq!(opts.subsystem, "");
    assert!(opts.const_labels.is_empty());
    assert_eq!(opts.variable_labels.len(), 0);
}

#[test]
fn new_takes_owned_strings_too() {
    let opts = Opts::new(String::from("requests"), String::from("Requests served."));
    assert_eq!(opts.name, "requests");
    assert_eq!(opts.help, "Requests served.");
}

#[test]
fn new_with_label_takes_the_label_names_in_order() {
    let opts = Opts::new_with_label("requests", "Requests served.", ["method", "code"]);
    assert_eq!(opts.name, "requests");
    assert_eq!(opts.help, "Requests served.");
    assert_eq!(opts.namespace, "");
    assert_eq!(opts.subsystem, "");
    assert!(opts.const_labels.is_empty());
    assert_eq!(opts.variable_labels, ["method".to_owned(), "code".to_owned()]);
}

#[test]
fn namespace_and_subsystem_set_their_field_only() {
    let opts = Opts::new_with_label("requests", "Requests served.", ["method"])
        .const_label("zone", "eu")
        .namespace("http");
    assert_eq!(opts.namespace, "http");
    assert_eq!(opts.subsystem, "");
    let opts = opts.subsystem("server");
    assert_eq!(opts.namespace, "http");
    assert_eq!(opts.subsystem, "server");
    assert_eq!(opts.name, "requests");
    assert_eq!(opts.help, "Requests served.");
    assert_eq!(opts.const_labels.get("zone"), Some("eu"));
    assert_eq!(opts.variable_labels, ["method".to_owned()]);
}

#[test]
fn a_later_namespace_replaces_an_earlier_one() {
    let opts = Opts::new("requests", "Requests served.").namespace("a").namespace("b");
    assert_eq!(opts.namespace, "b");
    assert_eq!(opts.fq_name(), "b_requests");
}

#[test]
fn const_label_inserts_and_overwrites() {
    let opts = Opts::new("requests", "Requests served.")
        .const_label("zone", "eu")
        .const_label("rack", "7")
        .const_label("zone", "us");
    assert_eq!(opts.const_labels.len(), 2);
    assert_eq!(opts.const_labels.get("zone"), Some("us"));
    assert_eq!(opts.const_labels.get("rack"), Some("7"));
}

#[test]
fn const_labels_replaces_the_whole_mapping() {
    let mut labels = ConstLabels::new();
    labels.insert("rack".to_owned(), "7".to_owned());
    let opts = Opts::new("requests", "Requests served.")
        .const_label("zone", "eu")
        .const_labels(labels);
    assert_eq!(opts.const_labels.len(), 1);
    assert_eq!(opts.const_labels.get("zone"), None);
    assert_eq!(opts.const_labels.get("rack"), Some("7"));
    assert_eq!(opts.name, "requests");
}

#[test]
fn variable_labels_replaces_the_label_names() {
    let opts = Opts::new_with_label("requests", "Requests served.", ["method", "code"])
        .namespace("http")
        .variable_labels(["handler", "zone"]);
    assert_eq!(opts.variable_labels, ["handler".to_owned(), "zone".to_owned()]);
    assert_eq!(opts.namespace, "http");
    assert_eq!(opts.name, "requests");
}

#[test]
fn fq_name_joins_the_components() {
    let opts = Opts::new("c", "help");
    assert_eq!(opts.fq_name(), "c");
    let opts = opts.namespace("a");
    assert_eq!(opts.fq_name(), "a_c");
    let opts = opts.subsystem("b");
    assert_eq!(opts.fq_name(), "a_b_c");
    let opts = opts.namespace("");
    assert_eq!(opts.fq_name(), "b_c");
}

#[test]
fn fq_name_is_empty_without_a_name() {
    let opts = Opts::new("", "help").namespace("a").subsystem("b");
    assert_eq!(opts.fq_name(), "");
}

#[test]
fn fq_name_gives_the_same_name_every_time() {
    let opts = Opts::new("requests", "Requests served.").namespace("http").subsystem("server");
    let first = opts.fq_name();
    for _ in 0..5 {
        assert_eq!(opts.fq_name(), first);
    }
    assert_eq!(first, "http_server_requests");
    assert_eq!(opts.namespace, "http");
    assert_eq!(opts.subsystem, "server");
    assert_eq!(opts.name, "requests");
}

#[test]
fn options_come_from_a_pair() {
    let opts: Opts<[&'static str; 0]> = Opts::from(("requests", "Requests served."));
    assert_eq!(opts.name, "requests");
    assert_eq!(opts.help, "Requests served.");
    assert_eq!(opts.fq_name(), "requests");
    assert!(opts.const_labels.is_empty());
}

#[test]
fn options_come_from_a_triple() {
    let opts: Opts<[&'static str; 2]> = ("requests", "Requests served.", ["method", "code"]).into();
    assert_eq!(opts.name, "requests");
    assert_eq!(opts.help, "Requests served.");
    assert_eq!(opts.variable_labels, ["method".to_owned(), "code".to_owned()]);
}

#[test]
fn a_clone_says_the_same() {
    let opts = Opts::new_with_label("requests", "Requests served.", ["method"])
        .namespace("http")
        .subsystem("server")
        .const_label("zone", "eu");
    let copy = opts.clone();
    assert_eq!(copy.namespace, "http");
    assert_eq!(copy.subsystem, "server");
    assert_eq!(copy.name, "requests");
    assert_eq!(copy.help, "Requests served.");
    assert_eq!(copy.const_labels.get("zone"), Some("eu"));
    assert_eq!(copy.variable_labels, ["method".to_owned()]);
}

#[test]
fn describe_gathers_the_four_parts() {
    let opts = Opts::new_with_label("requests", "Requests served.", ["method", "code"])
        .namespace("http")
        .subsystem("server")
        .const_label("zone", "eu");
    let desc = opts.describe();
    assert_eq!(desc.fq_name, "http_server_requests");
    assert_eq!(desc.help, "Requests served.");
    assert_eq!(desc.variable_labels, vec!["method".to_owned(), "code".to_owned()]);
    assert_eq!(desc.const_labels.len(), 1);
    assert_eq!(desc.const_labels.get("zone"), Some("eu"));
}

#[test]
fn describe_copies_the_constant_labels() {
    let opts = Opts::new("requests", "Requests served.").const_label("zone", "eu");
    let mut desc = opts.describe();
    desc.const_labels.insert("zone".to_owned(), "us".to_owned());
    assert_eq!(opts.const_labels.get("zone"), Some("eu"));
    assert_eq!(opts.describe().const_labels.get("zone"), Some("eu"));
}

#[test]
fn describe_of_a_nameless_metric_has_an_empty_name() {
    let desc = Opts::new("", "help").namespace("a").describe();
    assert_eq!(desc.fq_name, "");
    assert_eq!(desc.variable_labels.len(), 0);
}

#[test]
fn a_descriptor_clone_says_the_same() {
    let desc = Opts::new_with_label("requests", "Requests served.", ["method"])
        .const_label("zone", "eu")
        .describe();
    let copy = desc.clone();
    assert_eq!(copy.fq_name, desc.fq_name);
    assert_eq!(copy.help, desc.help);
    assert_eq!(copy.variable_labels, desc.variable_labels);
    assert_eq!(copy.const_labels.get("zone"), Some("eu"));
}

struct NeedsName;

impl DescValidator for NeedsName {
    type Error = String;

    fn validate(&self, desc: &Desc) -> Result<(), String> {
        if desc.fq_name.is_empty() {
            Err("no name".to_owned())
        } else {
            Ok(())
        }
    }
}

#[test]
fn try_describe_hands_out_what_the_validator_accepts() {
    let opts = Opts::new("requests", "Requests served.").namespace("http");
    let described = opts.try_describe(&NeedsName);
    assert!(described.is_ok());
    let desc = described.ok().unwrap();
    assert_eq!(desc.fq_name, "http_requests");
    assert_eq!(desc.help, "Requests served.");
}

#[test]
fn try_describe_relays_the_validators_error() {
    let opts = Opts::new("", "Requests served.").namespace("http");
    let described = opts.try_describe(&NeedsName);
    assert_eq!(described.err(), Some("no name".to_owned()));
}
