use bucket_ops::ops::absorb_remote;
use bucket_ops::ops::delete_begin;
use bucket_ops::ops::download_begin;
use bucket_ops::ops::download_finish;
use bucket_ops::ops::download_save;
use bucket_ops::ops::upload_begin;
use bucket_ops::ops::OpError;
use bucket_ops::ops::OpReport;
use bucket_ops::ObjectSummary;

#[test]
fn upload_then_download_round_trip() {
    let path = "data.txt".to_string();
    let plan = upload_begin(&path, Ok(())).unwrap();
    assert_eq!(plan.key, "data.txt");

    let summary = ObjectSummary::new(Some(plan.key), None, None);
    let download = download_begin(&summary).unwrap();
    assert_eq!(download.key, "data.txt");

    let write = download_save(download, Ok(b"hello".to_vec())).unwrap();
    assert_eq!(write.path, "data.txt");
    assert_eq!(write.contents, b"hello".to_vec());

    let report = download_finish(Ok(())).unwrap();
    assert!(matches!(report, OpReport::Done));
}

#[test]
fn download_without_key_fails_before_any_fetch() {
    let summary = ObjectSummary::new(None, Some(0), Some(5));
    let begun = download_begin(&summary);
    assert!(matches!(begun, Err(OpError::MissingKey)));
}

#[test]
fn delete_without_key_fails_before_any_send() {
    let summary = ObjectSummary::new(None, None, None);
    assert!(matches!(delete_begin(&summary), Err(OpError::MissingKey)));
}

#[test]
fn delete_with_key_sends_that_key() {
    let summary = ObjectSummary::new(Some("victim".to_string()), None, None);
    assert_eq!(delete_begin(&summary).unwrap(), "victim");
}

#[test]
fn remote_failure_is_absorbed_with_one_diagnostic() {
    let report = absorb_remote(Err("network error".to_string()));
    match report {
        OpReport::Recovered(diagnostic) => assert_eq!(diagnostic, "network error"),
        OpReport::Done => panic!("a failed remote call must carry its diagnostic"),
    }
}

#[test]
fn remote_success_completes_the_operation() {
    assert!(matches!(absorb_remote(Ok(())), OpReport::Done));
}

#[test]
fn body_collection_failure_is_a_hard_error() {
    let summary = ObjectSummary::new(Some("k".to_string()), None, None);
    let plan = download_begin(&summary).unwrap();
    let saved = download_save(plan, Err("connection reset".to_string()));
    match saved {
        Err(OpError::BodyRead(m)) => assert_eq!(m, "connection reset"),
        _ => panic!("a body that cannot be collected must be a hard error"),
    }
}

#[test]
fn file_write_failure_is_a_hard_error() {
    let finished = download_finish(Err("disk full".to_string()));
    match finished {
        Err(OpError::LocalFile(m)) => assert_eq!(m, "disk full"),
        _ => panic!("a failed file write must be a hard error"),
    }
}

#[test]
fn upload_open_failure_is_a_hard_error() {
    let path = "missing.txt".to_string();
    let begun = upload_begin(&path, Err("no such file".to_string()));
    match begun {
        Err(OpError::LocalFile(m)) => assert_eq!(m, "no such file"),
        _ => panic!("a file that cannot be opened must be a hard error"),
    }
}

#[test]
fn upload_key_is_the_path_verbatim() {
    let path = "dir/sub/data.txt".to_string();
    let plan = upload_begin(&path, Ok(())).unwrap();
    assert_eq!(plan.key, "dir/sub/data.txt");
}
