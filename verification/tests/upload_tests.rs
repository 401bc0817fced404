use anki::error::{AnkiError, SyncErrorKind};
use anki::gzip::gzipped_data_from_vec;
use anki::response::SyncResponse;
use anki::upload::{
    check_full_upload_size, check_upload_limit, decimal_string, format_mb, full_upload_result,
    upload_limit_applies, UploadResponse,
};
use std::io::Read;
use std::io::Write;

fn float_message(size: usize, limit: usize) -> String {
    let mb: f64 = 1024.0 * 1024.0;
    format!("{:.2} MB > {:.2} MB", size as f64 / mb, limit as f64 / mb)
}

#[test]
fn upload_limit_refuses_at_the_limit() {
    assert!(check_upload_limit(99, 100).is_ok());
    match check_upload_limit(100, 100) {
        Err(AnkiError::SyncError { info, kind }) => {
            assert_eq!(kind, SyncErrorKind::UploadTooLarge);
            assert_eq!(info, "0.00 MB > 0.00 MB");
        }
        _ => panic!("expected an error"),
    }
    match check_upload_limit(1572864, 1048576) {
        Err(AnkiError::SyncError { info, .. }) => assert_eq!(info, "1.50 MB > 1.00 MB"),
        _ => panic!("expected an error"),
    }
}

#[test]
fn upload_limit_message_matches_float_formatting() {
    let samples: Vec<usize> = vec![
        0, 1, 5242, 5243, 10485, 10486, 131072, 393216, 655360, 1048575, 1048576, 1053818,
        1053819, 262144000, 786432000, 4294967295, 123456789012,
    ];
    for &size in &samples {
        for &limit in &samples {
            if size >= limit {
                match check_upload_limit(size, limit) {
                    Err(AnkiError::SyncError { info, .. }) => {
                        assert_eq!(info, float_message(size, limit))
                    }
                    _ => panic!("expected an error"),
                }
            }
        }
    }
    for k in 0..4000usize {
        let size = k * 131072 + k;
        assert_eq!(format!("{} MB > {} MB", format_mb(size), format_mb(0)), float_message(size, 0));
    }
}

#[test]
fn decimal_strings() {
    assert_eq!(decimal_string(0), "0");
    assert_eq!(decimal_string(7), "7");
    assert_eq!(decimal_string(1234567890), "1234567890");
    assert_eq!(format_mb(131072), "0.12");
    assert_eq!(format_mb(393216), "0.38");
}

#[test]
fn only_ankiweb_uploads_are_limited() {
    assert!(upload_limit_applies("https://sync.ankiweb.net/"));
    assert!(!upload_limit_applies("http://localhost:8080/"));
    assert!(check_full_upload_size("http://localhost:8080/", 500, 100).is_ok());
    assert!(check_full_upload_size("https://sync2.ankiweb.net/", 500, 100).is_err());
    assert!(check_full_upload_size("https://sync2.ankiweb.net/", 50, 100).is_ok());
}

#[test]
fn upload_reply_decides_the_outcome() {
    assert!(full_upload_result(UploadResponse::Accepted).is_ok());
    match full_upload_result(UploadResponse::Rejected("too big".to_string())) {
        Err(AnkiError::SyncError { info, kind }) => {
            assert_eq!(info, "too big");
            assert_eq!(kind, SyncErrorKind::ServerMessage);
        }
        _ => panic!("expected an error"),
    }
}

#[test]
fn upload_response_reads_bare_text() {
    let ok: SyncResponse<UploadResponse> = SyncResponse::from_vec(b"OK".to_vec());
    assert_eq!(ok.upload_response(), UploadResponse::Accepted);
    let no: SyncResponse<UploadResponse> = SyncResponse::from_vec(b"collection too large".to_vec());
    assert_eq!(no.upload_response(), UploadResponse::Rejected("collection too large".to_string()));
    let lower: SyncResponse<UploadResponse> = SyncResponse::from_vec(b"ok".to_vec());
    assert_eq!(lower.upload_response(), UploadResponse::Rejected("ok".to_string()));
    let bad: SyncResponse<UploadResponse> = SyncResponse::from_vec(vec![b'O', 0xff]);
    assert_eq!(bad.upload_response(), UploadResponse::Rejected("O\u{FFFD}".to_string()));
    let empty: SyncResponse<UploadResponse> = SyncResponse::from_vec(vec![]);
    assert_eq!(empty.upload_response(), UploadResponse::Rejected(String::new()));
    assert_eq!(ok.data, b"OK".to_vec());
}

#[test]
fn gzip_round_trips() {
    let data: Vec<u8> = (0..20000u32).map(|i| (i % 251) as u8).collect();
    let gz = gzipped_data_from_vec(data.clone()).ok().unwrap();
    assert_eq!(&gz[..2], &[0x1f, 0x8b]);
    let mut out = Vec::new();
    flate2::read::GzDecoder::new(&gz[..]).read_to_end(&mut out).unwrap();
    assert_eq!(out, data);
    let empty = gzipped_data_from_vec(vec![]).ok().unwrap();
    let mut out2 = Vec::new();
    flate2::read::GzDecoder::new(&empty[..]).read_to_end(&mut out2).unwrap();
    assert!(out2.is_empty());
}

#[test]
fn gzip_matches_chunked_encoding() {
    let data: Vec<u8> = (0..50000u32).map(|i| ((i * 7919) % 256) as u8).collect();
    let mut encoder = flate2::write::GzEncoder::new(Vec::new(), flate2::Compression::default());
    for chunk in data.chunks(4096) {
        encoder.write_all(chunk).unwrap();
    }
    let chunked = encoder.finish().unwrap();
    assert_eq!(gzipped_data_from_vec(data).ok().unwrap(), chunked);
}
