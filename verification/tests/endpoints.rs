use processing_svc::azure_storage::{
    blob_url, endpoint_with_segments, service_endpoint, AzureStorageError,
};

#[test]
fn builds_emulator_queue_endpoint() {
    let endpoint = service_endpoint("devstoreaccount1", Some("127.0.0.1"), 10001, "queue").unwrap();

    assert_eq!(endpoint, "http://127.0.0.1:10001/devstoreaccount1");
}

#[test]
fn builds_azure_queue_endpoint() {
    let endpoint = service_endpoint("lumenstorage", None, 10001, "queue").unwrap();

    assert_eq!(endpoint, "https://lumenstorage.queue.core.windows.net/");
}

#[test]
fn builds_emulator_blob_url() {
    let endpoint = service_endpoint("devstoreaccount1", Some("127.0.0.1"), 10000, "blob").unwrap();

    let url = blob_url(&endpoint, "raw-viirs", "VNP46A2/2026-05-21/h11v06.h5").unwrap();

    assert_eq!(
        url,
        "http://127.0.0.1:10000/devstoreaccount1/raw-viirs/VNP46A2/2026-05-21/h11v06.h5"
    );
}

#[test]
fn builds_azure_blob_url() {
    let endpoint = service_endpoint("lumenstorage", None, 10000, "blob").unwrap();

    let url = blob_url(&endpoint, "raw-viirs", "VNP46A2/2026-05-21/h11v06.h5").unwrap();

    assert_eq!(
        url,
        "https://lumenstorage.blob.core.windows.net/raw-viirs/VNP46A2/2026-05-21/h11v06.h5"
    );
}

#[test]
fn emulator_host_trailing_slashes_are_removed() {
    let endpoint = service_endpoint("devstoreaccount1", Some("azurite//"), 10000, "blob").unwrap();

    assert_eq!(endpoint, "http://azurite:10000/devstoreaccount1");
}

#[test]
fn refused_emulator_host_names_the_configured_host() {
    let error = service_endpoint("devstoreaccount1", Some("bad host"), 10000, "blob").unwrap_err();

    assert!(matches!(
        &error,
        AzureStorageError::InvalidEmulatorHost { host } if host == "bad host"
    ));
    assert_eq!(
        error.message(),
        "azure storage error: invalid storage emulator host 'bad host'"
    );
}

#[test]
fn cloud_endpoint_that_is_not_a_url_is_an_endpoint_error() {
    let error = service_endpoint("bad account", None, 10000, "blob").unwrap_err();

    assert!(matches!(error, AzureStorageError::Endpoint(_)));
    assert!(error
        .message()
        .starts_with("azure storage error: failed to build storage endpoint: "));
}

#[test]
fn queue_urls_append_queue_and_message_segments() {
    let endpoint = service_endpoint("devstoreaccount1", Some("127.0.0.1"), 10001, "queue").unwrap();
    let segments = vec!["viirs-processing".to_owned(), "messages".to_owned()];
    assert_eq!(
        endpoint_with_segments(&endpoint, &segments).unwrap(),
        "http://127.0.0.1:10001/devstoreaccount1/viirs-processing/messages"
    );

    let cloud = service_endpoint("lumenhorizonstorage", None, 10001, "queue").unwrap();
    assert_eq!(
        endpoint_with_segments(&cloud, &segments).unwrap(),
        "https://lumenhorizonstorage.queue.core.windows.net/viirs-processing/messages"
    );

    let message = vec![
        "viirs-processing".to_owned(),
        "messages".to_owned(),
        "message-1".to_owned(),
    ];
    assert_eq!(
        endpoint_with_segments(&endpoint, &message).unwrap(),
        "http://127.0.0.1:10001/devstoreaccount1/viirs-processing/messages/message-1"
    );
}

#[test]
fn blob_path_segments_are_percent_encoded() {
    let url = blob_url("https://a.blob.core.windows.net/", "c", "dir/with space.h5").unwrap();

    assert_eq!(url, "https://a.blob.core.windows.net/c/dir/with%20space.h5");
}

#[test]
fn url_that_cannot_be_a_base_is_refused() {
    assert!(matches!(
        blob_url("mailto:someone@example.com", "c", "b"),
        Err(AzureStorageError::CannotBeBaseUrl)
    ));
    assert!(matches!(
        blob_url("not a url", "c", "b"),
        Err(AzureStorageError::CannotBeBaseUrl)
    ));
}
