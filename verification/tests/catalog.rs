use audio_store::catalog::{catalog_text, load_catalog};

#[test]
fn load_absent_catalog_returns_default() {
    let v = load_catalog(None).expect("absent catalog must load as the default");
    let expected: serde_json::Value = serde_json::from_str("{\"files\":[]}").unwrap();
    assert_eq!(v, expected);
}

#[test]
fn load_malformed_catalog_fails() {
    let r = load_catalog(Some(String::from("{\"files\": [")));
    let message = r.expect_err("malformed catalog text must be a hard failure");
    assert!(!message.is_empty());
}

#[test]
fn load_well_formed_catalog_succeeds() {
    let v = load_catalog(Some(String::from("{\"files\":[]}"))).unwrap();
    let expected: serde_json::Value = serde_json::from_str("{\"files\":[]}").unwrap();
    assert_eq!(v, expected);
}

#[test]
fn save_then_load_round_trip() {
    let v: serde_json::Value =
        serde_json::from_str("{\"files\":[{\"id\":\"x\",\"name\":\"a.wav\"},{\"id\":\"y\",\"name\":\"b.mp3\"}],\"version\":3}")
            .unwrap();
    let text = catalog_text(&v).expect("a JSON value must serialize");
    let back = load_catalog(Some(text)).expect("saved catalog text must load back");
    assert_eq!(back, v);
}

#[test]
fn save_then_load_single_entry() {
    let v: serde_json::Value =
        serde_json::from_str("{\"files\":[{\"id\":\"abc123\",\"name\":\"tone.wav\"}]}").unwrap();
    let text = catalog_text(&v).unwrap();
    let back = load_catalog(Some(text)).unwrap();
    let files = back.get("files").expect("files member").as_array().expect("files array");
    assert_eq!(files.len(), 1);
    assert_eq!(files[0].get("id").unwrap().as_str().unwrap(), "abc123");
    assert_eq!(files[0].get("name").unwrap().as_str().unwrap(), "tone.wav");
}

#[test]
fn catalog_text_is_pretty_printed_json() {
    let v: serde_json::Value =
        serde_json::from_str("{\"files\":[{\"id\":\"abc123\",\"name\":\"tone.wav\"}]}").unwrap();
    let text = catalog_text(&v).unwrap();
    assert!(text.contains('\n'));
    assert_eq!(text, serde_json::to_string_pretty(&v).unwrap());
    let reparsed: serde_json::Value = serde_json::from_str(&text).unwrap();
    assert_eq!(reparsed, v);
}
