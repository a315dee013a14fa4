use downloader_rs::downloader::Downloader;
use downloader_rs::error::{Error, IoKind, TransportFault};
use downloader_rs::session::{ResponseInfo, Session};

struct Recorder {
    inits: Vec<u64>,
    chunks: Vec<Vec<u8>>,
}

impl Recorder {
    fn new() -> Recorder {
        Recorder { inits: Vec::new(), chunks: Vec::new() }
    }

    fn bytes(&self) -> Vec<u8> {
        let mut all: Vec<u8> = Vec::new();
        for c in &self.chunks {
            all.extend_from_slice(c);
        }
        all
    }
}

impl Downloader for Recorder {
    fn init(&mut self, total_size: u64) {
        self.inits.push(total_size);
    }

    fn update(&mut self, chunk: &[u8]) {
        self.chunks.push(chunk.to_vec());
    }
}

#[test]
fn accepted_response_returns_declared_total() {
    let mut s = Session::new();
    let r = s.on_response(ResponseInfo { status: 200, content_length: Some(42) });
    assert_eq!(r, Ok(42));
}

#[test]
fn missing_content_length_fails_and_sink_is_untouched() {
    let sink = Recorder::new();
    let mut s = Session::new();
    let r = s.on_response(ResponseInfo { status: 200, content_length: None });
    assert_eq!(r, Err(Error::GetTotalSize));
    assert!(s.is_failed());
    assert_eq!(sink.inits.len(), 0);
    assert_eq!(sink.chunks.len(), 0);
}

#[test]
fn error_status_fails_with_that_code() {
    let mut s = Session::new();
    let r = s.on_response(ResponseInfo { status: 403, content_length: Some(10) });
    assert_eq!(r, Err(Error::Status(Some(403))));
    assert!(s.is_failed());
}

#[test]
fn error_status_is_detected_before_the_missing_length() {
    let mut s = Session::new();
    let r = s.on_response(ResponseInfo { status: 404, content_length: None });
    assert_eq!(r, Err(Error::Status(Some(404))));
}

#[test]
fn not_found_and_server_error_statuses_fail() {
    let mut s = Session::new();
    let r = s.on_response(ResponseInfo { status: 404, content_length: Some(10) });
    assert_eq!(r, Err(Error::Status(Some(404))));

    let mut s2 = Session::new();
    let r2 = s2.on_response(ResponseInfo { status: 500, content_length: Some(10) });
    assert_eq!(r2, Err(Error::Status(Some(500))));

    let mut s3 = Session::new();
    let r3 = s3.on_response(ResponseInfo { status: 599, content_length: Some(10) });
    assert_eq!(r3, Err(Error::Status(Some(599))));
}

#[test]
fn informational_and_redirect_statuses_are_accepted() {
    let mut s = Session::new();
    let r = s.on_response(ResponseInfo { status: 399, content_length: Some(10) });
    assert_eq!(r, Ok(10));
}

#[test]
fn file_creation_failure_carries_kind_and_sink_is_untouched() {
    let sink = Recorder::new();
    let mut s = Session::new();
    let r = s.on_response(ResponseInfo { status: 200, content_length: Some(10) });
    assert_eq!(r, Ok(10));
    let e = s.on_file_error(IoKind::NotFound);
    assert_eq!(e, Error::FileCreation(IoKind::NotFound));
    assert!(s.is_failed());
    assert_eq!(sink.inits.len(), 0);
    assert_eq!(sink.chunks.len(), 0);
}

#[test]
fn request_failure_before_response_is_classified() {
    let mut s = Session::new();
    let e = s.fail_request(TransportFault {
        redirect: false,
        request: true,
        status_flag: false,
        url: Some(String::from("http://example.test/big")),
        status: None,
    });
    assert_eq!(e, Error::Url(Some(String::from("http://example.test/big"))));
    assert!(s.is_failed());
}

#[test]
fn full_download_delivers_every_chunk_in_order() {
    let mut sink = Recorder::new();
    let mut s = Session::new();
    let r = s.on_response(ResponseInfo { status: 200, content_length: Some(10000) });
    assert_eq!(r, Ok(10000));
    s.start(&mut sink);

    let first = vec![1u8; 4096];
    let second = vec![2u8; 4096];
    let third = vec![3u8; 1808];
    s.on_chunk(&mut sink, &first);
    s.on_chunk(&mut sink, &second);
    s.on_chunk(&mut sink, &third);
    s.complete();

    assert!(s.is_complete());
    assert_eq!(sink.inits, vec![10000]);
    let lens: Vec<usize> = sink.chunks.iter().map(|c| c.len()).collect();
    assert_eq!(lens, vec![4096, 4096, 1808]);
    assert_eq!(sink.bytes().len(), 10000);

    let mut expected: Vec<u8> = Vec::new();
    expected.extend_from_slice(&first);
    expected.extend_from_slice(&second);
    expected.extend_from_slice(&third);
    assert_eq!(sink.bytes(), expected);
}

#[test]
fn init_comes_once_and_before_every_update() {
    let mut sink = Recorder::new();
    let mut s = Session::new();
    s.on_response(ResponseInfo { status: 200, content_length: Some(3) }).unwrap();
    assert_eq!(sink.inits.len(), 0);
    s.start(&mut sink);
    assert_eq!(sink.inits, vec![3]);
    assert_eq!(sink.chunks.len(), 0);
    s.on_chunk(&mut sink, &[9, 9, 9]);
    s.complete();
    assert_eq!(sink.inits, vec![3]);
    assert_eq!(sink.chunks.len(), 1);
}

#[test]
fn mid_stream_failure_keeps_what_was_delivered() {
    let mut sink = Recorder::new();
    let mut s = Session::new();
    s.on_response(ResponseInfo { status: 200, content_length: Some(8) }).unwrap();
    s.start(&mut sink);
    s.on_chunk(&mut sink, &[5, 6, 7, 8]);
    let e = s.fail_stream(TransportFault {
        redirect: false,
        request: false,
        status_flag: false,
        url: None,
        status: None,
    });
    assert_eq!(e, Error::Unknown);
    assert!(s.is_failed());
    assert_eq!(sink.inits, vec![8]);
    assert_eq!(sink.bytes(), vec![5, 6, 7, 8]);
}

#[test]
fn repeating_a_download_yields_the_same_content() {
    let chunks: Vec<Vec<u8>> = vec![vec![10, 20], vec![30], vec![40, 50, 60]];
    let mut contents: Vec<Vec<u8>> = Vec::new();
    for _run in 0..2 {
        let mut sink = Recorder::new();
        let mut s = Session::new();
        s.on_response(ResponseInfo { status: 200, content_length: Some(6) }).unwrap();
        s.start(&mut sink);
        for c in &chunks {
            s.on_chunk(&mut sink, c);
        }
        s.complete();
        assert!(s.is_complete());
        contents.push(sink.bytes());
    }
    assert_eq!(contents[0], contents[1]);
    assert_eq!(contents[0], vec![10, 20, 30, 40, 50, 60]);
}

#[test]
fn empty_resource_downloads_with_no_updates() {
    let mut sink = Recorder::new();
    let mut s = Session::new();
    let r = s.on_response(ResponseInfo { status: 200, content_length: Some(0) });
    assert_eq!(r, Ok(0));
    s.start(&mut sink);
    s.complete();
    assert!(s.is_complete());
    assert_eq!(sink.inits, vec![0]);
    assert_eq!(sink.chunks.len(), 0);
    assert_eq!(sink.bytes().len(), 0);
}
