use curl_http::body::{BodyBuffer, BodyReader, Sink};

#[test]
fn buffer_takes_every_chunk_whole() {
    let mut buffer = BodyBuffer::new();
    assert_eq!(buffer.len(), 0);
    assert_eq!(buffer.on_bytes(b"hello "), 6);
    assert_eq!(buffer.on_bytes(b""), 0);
    assert_eq!(buffer.on_bytes(b"world"), 5);
    assert_eq!(buffer.len(), 11);
    let mut reader = buffer.consume();
    assert_eq!(reader.remaining(), 11);
    assert_eq!(reader.read_to_end(), b"hello world");
}

#[test]
fn reader_reads_in_order() {
    let mut reader = BodyReader::new(b"abcdef".to_vec());
    assert_eq!(reader.read(2), b"ab");
    assert_eq!(reader.remaining(), 4);
    assert_eq!(reader.read(0), b"");
    assert_eq!(reader.read(3), b"cde");
    assert_eq!(reader.read(10), b"f");
    assert_eq!(reader.remaining(), 0);
    assert_eq!(reader.read(10), b"");
    assert_eq!(reader.read_to_end(), b"");
}

#[test]
fn reader_of_nothing() {
    let mut reader = BodyReader::new(Vec::new());
    assert_eq!(reader.remaining(), 0);
    assert_eq!(reader.read(usize::MAX), b"");
}
