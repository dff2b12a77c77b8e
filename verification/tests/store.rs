use audio_store::store::BlobStore;

fn sample_bytes(n: usize) -> Vec<u8> {
    let mut v = Vec::new();
    for i in 0..n {
        v.push((i % 251) as u8);
    }
    v
}

#[test]
fn write_then_read_round_trip() {
    let mut s = BlobStore::new(String::from("/data/audio-files"));
    let bytes = sample_bytes(64);
    s.write("k1", "a.wav", bytes.clone());
    let back = s.read("k1", "a.wav").expect("read after write must succeed");
    assert_eq!(back, bytes);
}

#[test]
fn read_never_written_fails() {
    let s = BlobStore::new(String::from("/data/audio-files"));
    assert!(s.read("nope", "missing.wav").is_err());
}

#[test]
fn delete_after_write_makes_read_fail() {
    let mut s = BlobStore::new(String::from("/data/audio-files"));
    s.write("k1", "a.wav", sample_bytes(16));
    s.delete("k1", "a.wav").expect("delete after write must succeed");
    assert!(s.read("k1", "a.wav").is_err());
}

#[test]
fn delete_never_written_fails() {
    let mut s = BlobStore::new(String::from("/data/audio-files"));
    assert!(s.delete("nope", "missing.wav").is_err());
}

#[test]
fn write_replaces_content_in_full() {
    let mut s = BlobStore::new(String::from("/data/audio-files"));
    s.write("k1", "a.wav", sample_bytes(128));
    let second = vec![9u8, 8u8, 7u8];
    s.write("k1", "a.wav", second.clone());
    assert_eq!(s.read("k1", "a.wav").unwrap(), second);
}

#[test]
fn writes_under_distinct_keys_stay_apart() {
    let mut s = BlobStore::new(String::from("/data/audio-files"));
    s.write("k1", "a.wav", vec![1u8]);
    s.write("k2", "b.wav", vec![2u8]);
    assert_eq!(s.read("k1", "a.wav").unwrap(), vec![1u8]);
    assert_eq!(s.read("k2", "b.wav").unwrap(), vec![2u8]);
}

#[test]
fn write_read_delete_scenario() {
    let mut s = BlobStore::new(String::from("/data/audio-files"));
    let bytes = sample_bytes(512);
    let path = s.write("abc123", "tone.wav", bytes.clone());
    assert!(path.ends_with("audio-files/abc123-tone.wav"));
    assert_eq!(path, s.resolve_path("abc123", "tone.wav"));
    let back = s.read("abc123", "tone.wav").unwrap();
    assert_eq!(back.len(), 512);
    assert_eq!(back, bytes);
    s.delete("abc123", "tone.wav").unwrap();
    assert!(s.read("abc123", "tone.wav").is_err());
}
