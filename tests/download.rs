use rocket_download_response::{
    decimal_text, disposition_value, encode_filename, Body, BuildError, Delivery,
    DownloadResponseData, DownloadResponsePro, FileMeta, Header, IoCause, MediaType,
    ResolvedResponse, TempFileReader, Upload, UploadStorage,
};

fn pairs(headers: &[Header]) -> Vec<(String, String)> {
    headers.iter().map(|h| (h.name.clone(), h.value.clone())).collect()
}

fn pair(name: &str, value: &str) -> (String, String) {
    (name.to_string(), value.to_string())
}

fn fixed_len<S>(r: &ResolvedResponse<'_, S>) -> Option<u64> {
    match &r.delivery {
        Delivery::Fixed { len, .. } => Some(*len),
        Delivery::Chunked { .. } => None,
    }
}

#[test]
fn owned_buffer_without_name_or_type() {
    let src = DownloadResponsePro::<()>::from_vec(vec![1, 2, 3, 4, 5], None, None);
    let r = src.respond_to().unwrap();
    assert_eq!(
        pairs(&r.headers),
        vec![pair("Content-Disposition", "attachment"), pair("Content-Length", "5")]
    );
    assert_eq!(fixed_len(&r), Some(5));
}

#[test]
fn owned_buffer_round_trip_keeps_bytes() {
    let bytes: Vec<u8> = (0..=255u8).rev().collect();
    let src = DownloadResponsePro::<()>::from_vec(bytes.clone(), None, None);
    let r = src.respond_to().unwrap();
    assert_eq!(pairs(&r.headers).last().unwrap(), &pair("Content-Length", "256"));
    match r.delivery {
        Delivery::Fixed { len, body: Body::Vec(b) } => {
            assert_eq!(len, 256);
            assert_eq!(b, bytes);
        }
        _ => panic!("expected a fixed delivery of the owned bytes"),
    }
}

#[test]
fn file_with_explicit_name() {
    let src = DownloadResponsePro::<u32>::from_file(
        "report.csv".to_string(),
        7,
        Ok(FileMeta { len: 1234, is_file: true }),
        Some("q1 report.csv".to_string()),
        None,
    );
    let r = src.respond_to().unwrap();
    assert_eq!(
        pairs(&r.headers),
        vec![
            pair("Content-Disposition", "attachment; filename*=UTF-8''q1%20report.csv"),
            pair("Content-Type", "text/csv"),
            pair("Content-Length", "1234"),
        ]
    );
    match r.delivery {
        Delivery::Fixed { len: 1234, body: Body::Stream(7) } => {}
        _ => panic!("expected the opened file as a fixed delivery"),
    }
}

#[test]
fn file_name_derived_from_path() {
    let src = DownloadResponsePro::<u32>::from_file(
        "/srv/files/photo.PNG".to_string(),
        1,
        Ok(FileMeta { len: 10, is_file: true }),
        None,
        None,
    );
    let r = src.respond_to().unwrap();
    assert_eq!(
        pairs(&r.headers),
        vec![
            pair("Content-Disposition", "attachment; filename*=UTF-8''photo.PNG"),
            pair("Content-Type", "image/png"),
            pair("Content-Length", "10"),
        ]
    );
}

#[test]
fn file_without_extension_is_binary() {
    let src = DownloadResponsePro::<u32>::from_file(
        "/srv/files/README".to_string(),
        1,
        Ok(FileMeta { len: 0, is_file: true }),
        None,
        None,
    );
    let r = src.respond_to().unwrap();
    assert_eq!(
        pairs(&r.headers),
        vec![
            pair("Content-Disposition", "attachment; filename*=UTF-8''README"),
            pair("Content-Type", "application/octet-stream"),
            pair("Content-Length", "0"),
        ]
    );
}

#[test]
fn file_explicit_type_wins() {
    let csv = MediaType::parse("text/plain").unwrap();
    let src = DownloadResponsePro::<u32>::from_file(
        "data.csv".to_string(),
        1,
        Ok(FileMeta { len: 3, is_file: true }),
        None,
        Some(csv),
    );
    let r = src.respond_to().unwrap();
    assert_eq!(pairs(&r.headers)[1], pair("Content-Type", "text/plain"));
}

#[test]
fn missing_file_is_not_found() {
    let src = DownloadResponsePro::<u32>::from_file(
        "missing.bin".to_string(),
        0,
        Err(IoCause::NotFound),
        None,
        None,
    );
    assert!(matches!(src.respond_to(), Err(BuildError::NotFound)));
}

#[test]
fn directory_is_invalid_input() {
    let src = DownloadResponsePro::<u32>::from_file(
        "/srv/files".to_string(),
        0,
        Ok(FileMeta { len: 4096, is_file: false }),
        None,
        None,
    );
    assert!(matches!(src.respond_to(), Err(BuildError::InvalidInput)));
}

#[test]
fn unreadable_file_is_io_failure() {
    let src = DownloadResponsePro::<u32>::from_file(
        "secret.txt".to_string(),
        0,
        Err(IoCause::Other),
        None,
        None,
    );
    assert!(matches!(src.respond_to(), Err(BuildError::IoFailure)));
}

#[test]
fn same_file_twice_gives_same_headers() {
    let build = || {
        DownloadResponsePro::<u32>::from_file(
            "report.csv".to_string(),
            9,
            Ok(FileMeta { len: 42, is_file: true }),
            None,
            None,
        )
        .respond_to()
        .unwrap()
    };
    assert_eq!(pairs(&build().headers), pairs(&build().headers));
}

#[test]
fn empty_explicit_name_on_slice_is_bare() {
    let data = b"hello";
    let src = DownloadResponsePro::<()>::from_slice(data, Some(String::new()), None);
    let r = src.respond_to().unwrap();
    assert_eq!(
        pairs(&r.headers),
        vec![pair("Content-Disposition", "attachment"), pair("Content-Length", "5")]
    );
    match r.delivery {
        Delivery::Fixed { len: 5, body: Body::Slice(b) } => assert_eq!(b, b"hello"),
        _ => panic!("expected the slice as a fixed delivery"),
    }
}

#[test]
fn empty_explicit_name_hides_path_name() {
    let src = DownloadResponsePro::<u32>::from_file(
        "report.csv".to_string(),
        1,
        Ok(FileMeta { len: 1, is_file: true }),
        Some(String::new()),
        None,
    );
    let r = src.respond_to().unwrap();
    assert_eq!(pairs(&r.headers)[0], pair("Content-Disposition", "attachment"));
}

#[test]
fn reader_without_length_is_chunked() {
    let src = DownloadResponsePro::<&str>::from_reader("stream", Some("a b".to_string()), None, None);
    let r = src.respond_to().unwrap();
    assert_eq!(
        pairs(&r.headers),
        vec![pair("Content-Disposition", "attachment; filename*=UTF-8''a%20b")]
    );
    assert!(matches!(r.delivery, Delivery::Chunked { body: Body::Stream("stream") }));
}

#[test]
fn reader_with_length_is_fixed() {
    let t = MediaType::parse("image/jpeg").unwrap();
    let src = DownloadResponsePro::<&str>::from_reader("stream", None, Some(t), Some(77));
    let r = src.respond_to().unwrap();
    assert_eq!(
        pairs(&r.headers),
        vec![
            pair("Content-Disposition", "attachment"),
            pair("Content-Type", "image/jpeg"),
            pair("Content-Length", "77"),
        ]
    );
    assert_eq!(fixed_len(&r), Some(77));
}

#[test]
fn upload_removed_from_disk_fails() {
    let upload = Upload::<u32> {
        storage: UploadStorage::OnDisk { path: "/tmp/upload-1".to_string(), opened: Err(IoCause::NotFound) },
        name: Some("big.zip".to_string()),
        content_type: None,
        len: 100,
    };
    let src = DownloadResponsePro::from_temp_file(upload, None, None);
    assert!(matches!(src.respond_to(), Err(BuildError::NotFound)));
}

#[test]
fn upload_unopenable_is_io_failure() {
    let upload = Upload::<u32> {
        storage: UploadStorage::OnDisk { path: "/tmp/upload-2".to_string(), opened: Err(IoCause::Other) },
        name: None,
        content_type: None,
        len: 100,
    };
    let src = DownloadResponsePro::from_temp_file(upload, None, None);
    assert!(matches!(src.respond_to(), Err(BuildError::IoFailure)));
}

#[test]
fn upload_on_disk_streams_file() {
    let upload = Upload::<u32> {
        storage: UploadStorage::OnDisk { path: "/tmp/upload-3".to_string(), opened: Ok(5) },
        name: Some("notes.txt".to_string()),
        content_type: None,
        len: 12,
    };
    let src = DownloadResponsePro::from_temp_file(upload, None, None);
    let r = src.respond_to().unwrap();
    assert_eq!(
        pairs(&r.headers),
        vec![
            pair("Content-Disposition", "attachment; filename*=UTF-8''notes.txt"),
            pair("Content-Type", "text/plain"),
            pair("Content-Length", "12"),
        ]
    );
    assert!(matches!(
        r.delivery,
        Delivery::Fixed { len: 12, body: Body::TempFile(TempFileReader::File { file: 5 }) }
    ));
}

#[test]
fn upload_declared_type_wins_over_extension() {
    let content = b"{\"a\":1}";
    let upload = Upload::<u32> {
        storage: UploadStorage::Buffered(content),
        name: Some("data.txt".to_string()),
        content_type: MediaType::parse("application/json"),
        len: 7,
    };
    let src = DownloadResponsePro::from_temp_file(upload, None, None);
    let r = src.respond_to().unwrap();
    assert_eq!(pairs(&r.headers)[1], pair("Content-Type", "application/json"));
}

#[test]
fn upload_without_name_is_bare_binary() {
    let content = b"abc";
    let upload = Upload::<u32> {
        storage: UploadStorage::Buffered(content),
        name: None,
        content_type: None,
        len: 3,
    };
    let src = DownloadResponsePro::from_temp_file(upload, None, None);
    let r = src.respond_to().unwrap();
    assert_eq!(
        pairs(&r.headers),
        vec![
            pair("Content-Disposition", "attachment"),
            pair("Content-Type", "application/octet-stream"),
            pair("Content-Length", "3"),
        ]
    );
}

#[test]
fn buffered_upload_reads_in_pieces() {
    let content = b"0123456789";
    let upload = Upload::<u32> {
        storage: UploadStorage::Buffered(content),
        name: None,
        content_type: None,
        len: 10,
    };
    let src = DownloadResponsePro::from_temp_file(upload, None, None);
    let r = src.respond_to().unwrap();
    let mut reader = match r.delivery {
        Delivery::Fixed { body: Body::TempFile(reader), .. } => reader,
        _ => panic!("expected an upload reader"),
    };
    let mut out = Vec::new();
    assert_eq!(reader.read_buffered(&mut out, 4), 4);
    assert_eq!(out, b"0123".to_vec());
    assert_eq!(reader.read_buffered(&mut out, 4), 4);
    assert_eq!(reader.read_buffered(&mut out, 4), 2);
    assert_eq!(reader.read_buffered(&mut out, 4), 0);
    assert_eq!(out, content.to_vec());
}

#[test]
fn reader_from_buffered_storage_starts_at_zero() {
    let reader = TempFileReader::<u32>::from(UploadStorage::Buffered(b"xy")).unwrap();
    assert!(matches!(reader, TempFileReader::Buffered { pos: 0, .. }));
}

#[test]
fn encoded_filename_escapes_unsafe_characters() {
    let e = encode_filename("a b\"c<d>e`f#g?h{i}j");
    assert_eq!(e, "a%20b%22c%3Cd%3Ee%60f%23g%3Fh%7Bi%7Dj");
    for c in [' ', '"', '<', '>', '`', '#', '?', '{', '}'] {
        assert!(!e.contains(c));
    }
}

#[test]
fn encoded_filename_escapes_non_ascii() {
    assert_eq!(encode_filename("résumé.pdf"), "r%C3%A9sum%C3%A9.pdf");
    assert_eq!(encode_filename("a-b.c_d~e"), "a-b.c_d~e");
}

#[test]
fn disposition_values() {
    assert_eq!(disposition_value(""), "attachment");
    assert_eq!(disposition_value("x y"), "attachment; filename*=UTF-8''x%20y");
}

#[test]
fn media_type_from_known_extensions() {
    assert_eq!(MediaType::from_extension("csv").as_str(), "text/csv");
    assert_eq!(MediaType::from_extension("CSV").as_str(), "text/csv");
    assert_eq!(MediaType::from_extension("png").as_str(), "image/png");
}

#[test]
fn media_type_from_unknown_extensions() {
    assert_eq!(MediaType::from_extension("").as_str(), "application/octet-stream");
    assert_eq!(MediaType::from_extension("nosuchext").as_str(), "application/octet-stream");
}

#[test]
fn media_type_parse() {
    assert_eq!(MediaType::parse("text/html").unwrap().as_str(), "text/html");
    assert_eq!(MediaType::parse("Text/HTML").unwrap().as_str(), "text/html");
    assert!(MediaType::parse("not a type").is_none());
}

#[test]
fn decimal_formatting() {
    assert_eq!(decimal_text(0), "0");
    assert_eq!(decimal_text(7), "7");
    assert_eq!(decimal_text(10), "10");
    assert_eq!(decimal_text(1234567890), "1234567890");
    assert_eq!(decimal_text(u64::MAX), "18446744073709551615");
}

#[test]
fn build_error_from_cause() {
    assert_eq!(BuildError::from_cause(IoCause::NotFound), BuildError::NotFound);
    assert_eq!(BuildError::from_cause(IoCause::Other), BuildError::IoFailure);
}

#[test]
fn source_data_is_kept() {
    let src = DownloadResponsePro::<()>::from_vec(vec![9], Some("n".to_string()), None);
    assert_eq!(src.file_name.as_deref(), Some("n"));
    assert!(matches!(src.data, DownloadResponseData::Vec(ref v) if v == &vec![9]));
}
