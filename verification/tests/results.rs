use audio_store::results::{load_file_result, op_result, save_file_result};

#[test]
fn save_file_result_on_success_carries_path() {
    let r = save_file_result(String::from("/data/audio-files/abc123-tone.wav"), Ok(()));
    assert!(r.success);
    assert_eq!(r.path.as_deref(), Some("/data/audio-files/abc123-tone.wav"));
    assert!(r.error.is_none());
}

#[test]
fn save_file_result_on_failure_carries_message() {
    let r = save_file_result(String::from("/p"), Err(String::from("permission denied")));
    assert!(!r.success);
    assert!(r.path.is_none());
    assert_eq!(r.error.as_deref(), Some("permission denied"));
}

#[test]
fn load_file_result_on_success_carries_buffer() {
    let r = load_file_result(Ok(vec![1u8, 2u8, 3u8]));
    assert!(r.success);
    assert_eq!(r.buffer, Some(vec![1u8, 2u8, 3u8]));
    assert!(r.error.is_none());
}

#[test]
fn load_file_result_on_failure_carries_message() {
    let r = load_file_result(Err(String::from("no such file")));
    assert!(!r.success);
    assert!(r.buffer.is_none());
    assert_eq!(r.error.as_deref(), Some("no such file"));
}

#[test]
fn op_result_reports_success_exactly_without_error() {
    let ok = op_result(Ok(()));
    assert!(ok.success);
    assert!(ok.error.is_none());
    let err = op_result(Err(String::from("disk full")));
    assert!(!err.success);
    assert_eq!(err.error.as_deref(), Some("disk full"));
}
