use metrics_core::const_labels::ConstLabels;

#[test]
fn new_labels_are_empty() {
    let labels = ConstLabels::new();
    assert!(labels.is_empty());
    assert_eq!(labels.len(), 0);
    assert_eq!(labels.get("zone"), None);
    assert_eq!(labels.pairs().len(), 0);
}

#[test]
fn insert_adds_a_label() {
    let mut labels = ConstLabels::new();
    labels.insert("zone".to_owned(), "eu".to_owned());
    assert!(!labels.is_empty());
    assert_eq!(labels.len(), 1);
    assert_eq!(labels.get("zone"), Some("eu"));
    assert_eq!(labels.get("rack"), None);
}

#[test]
fn insert_overwrites_a_label_of_the_same_name() {
    let mut labels = ConstLabels::new();
    labels.insert("zone".to_owned(), "eu".to_owned());
    labels.insert("rack".to_owned(), "7".to_owned());
    labels.insert("zone".to_owned(), "us".to_owned());
    assert_eq!(labels.len(), 2);
    assert_eq!(labels.get("zone"), Some("us"));
    assert_eq!(labels.get("rack"), Some("7"));
}

#[test]
fn names_are_told_apart_exactly() {
    let mut labels = ConstLabels::new();
    labels.insert("zone".to_owned(), "eu".to_owned());
    labels.insert("Zone".to_owned(), "us".to_owned());
    labels.insert("".to_owned(), "none".to_owned());
    assert_eq!(labels.len(), 3);
    assert_eq!(labels.get("zone"), Some("eu"));
    assert_eq!(labels.get("Zone"), Some("us"));
    assert_eq!(labels.get(""), Some("none"));
    assert_eq!(labels.get("zon"), None);
}

#[test]
fn pairs_hold_each_name_once() {
    let mut labels = ConstLabels::new();
    labels.insert("zone".to_owned(), "eu".to_owned());
    labels.insert("rack".to_owned(), "7".to_owned());
    labels.insert("zone".to_owned(), "us".to_owned());
    let mut seen: Vec<(String, String)> = labels
        .pairs()
        .iter()
        .map(|pair| (pair.get_name().to_owned(), pair.get_value().to_owned()))
        .collect();
    seen.sort();
    assert_eq!(
        seen,
        vec![("rack".to_owned(), "7".to_owned()), ("zone".to_owned(), "us".to_owned())]
    );
}

#[test]
fn a_clone_holds_the_same_labels_and_lives_on_its_own() {
    let mut labels = ConstLabels::new();
    labels.insert("zone".to_owned(), "eu".to_owned());
    let mut copy = labels.clone();
    assert_eq!(copy.len(), 1);
    assert_eq!(copy.get("zone"), Some("eu"));
    copy.insert("zone".to_owned(), "us".to_owned());
    copy.insert("rack".to_owned(), "7".to_owned());
    assert_eq!(labels.len(), 1);
    assert_eq!(labels.get("zone"), Some("eu"));
    assert_eq!(labels.get("rack"), None);
}
