use prefixload::digest::{md5_digest, DigestStream};

#[test]
fn digest_stream_equals_one_piece_digest() {
    let content: Vec<u8> = (0u16..2048).map(|i| (i % 251) as u8).collect();
    let whole = md5_digest(&content);
    assert_eq!(whole, md5::compute(&content).0.to_vec());

    // The same bytes, chunked differently, give the same digest.
    for chunk_len in [1usize, 7, 64, 500, 2048] {
        let mut stream = DigestStream::new();
        for chunk in content.chunks(chunk_len) {
            stream.update(chunk);
        }
        assert_eq!(stream.finish(), whole);
    }
}

#[test]
fn digest_of_empty_input() {
    let stream = DigestStream::new();
    let d = stream.finish();
    assert_eq!(d.len(), 16);
    assert_eq!(d, md5::compute(b"").0.to_vec());
}

#[test]
fn digest_is_not_the_input() {
    let content = b"hello world".to_vec();
    let d = md5_digest(&content);
    assert_eq!(d.len(), 16);
    assert_ne!(d, content);
}
