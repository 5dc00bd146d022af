use brainmux::models::{head_of_name, model_listed, model_present, name_matches, MODEL};

fn names(v: &[Option<&str>]) -> Vec<Option<String>> {
    v.iter().map(|n| n.map(|s| s.to_string())).collect()
}

#[test]
fn tagged_model_is_present() {
    assert!(model_present(&Some(names(&[Some("llama3:8b"), Some("bge-m3:latest")]))));
}

#[test]
fn untagged_model_is_present() {
    assert!(model_present(&Some(names(&[Some("bge-m3")]))));
}

#[test]
fn similar_names_do_not_count() {
    assert!(!model_present(&Some(names(&[Some("bge-m3-large"), Some("org:bge-m3"), Some("bge-m")]))));
}

#[test]
fn entries_without_names_are_skipped() {
    assert!(!model_present(&Some(names(&[None, None]))));
    assert!(model_present(&Some(names(&[None, Some("bge-m3:567m")]))));
}

#[test]
fn no_list_means_absent() {
    assert!(!model_present(&None));
    assert!(!model_present(&Some(vec![])));
}

#[test]
fn head_is_text_before_first_colon() {
    assert_eq!(head_of_name("a:b:c"), "a");
    assert_eq!(head_of_name("plain"), "plain");
    assert_eq!(head_of_name(":tag"), "");
    assert_eq!(head_of_name("ç:ş"), "ç");
}

#[test]
fn matching_other_models() {
    assert!(name_matches("nomic-embed-text:v1.5", "nomic-embed-text"));
    assert!(!name_matches("nomic-embed-text", MODEL));
    assert!(model_listed(&names(&[Some("x:y")]), "x"));
}

#[test]
fn tags_reply_with_the_model() {
    let body = r#"{"models":[{"name":"llama3:8b","size":1},{"name":"bge-m3:latest"}]}"#;
    assert!(brainmux::models::model_present_in_reply(body));
}

#[test]
fn tags_reply_without_the_model() {
    let body = r#"{"models":[{"name":"llama3:8b"},{"model":"bge-m3"},{"name":7}]}"#;
    assert!(!brainmux::models::model_present_in_reply(body));
}

#[test]
fn unusable_tags_replies() {
    assert!(!brainmux::models::model_present_in_reply("not json"));
    assert!(!brainmux::models::model_present_in_reply(r#"{"models":{"name":"bge-m3"}}"#));
    assert!(!brainmux::models::model_present_in_reply(r#"{"other":[]}"#));
    assert!(!brainmux::models::model_present_in_reply(r#"{"name":"bge-m3"}"#));
}
