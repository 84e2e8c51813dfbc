use processing_svc::azure_storage::{
    canonicalized_resource, escape_xml_text, queue_message_body, shared_key_authorization_header,
    storage_string_to_sign, storage_string_to_sign_with_headers, validate_queue_name,
    AzureStorageError, SharedKeyRequest, StorageStringToSignRequest,
};
use processing_svc::storage::{
    blob_list_page, blob_list_query_lines, delete_blob_outcome, delete_query_lines,
    processed_blob_header_lines, receive_query_lines, DeleteBlobOutcome,
};

const TEST_STORAGE_ACCESS_KEY: &str = "dGVzdC1zdG9yYWdlLWFjY291bnQta2V5";

fn as_strs(lines: &[String]) -> Vec<&str> {
    lines.iter().map(String::as_str).collect()
}

#[test]
fn validates_queue_names() {
    validate_queue_name("viirs-processing").unwrap();
    validate_queue_name("viirs-processing-deadletter").unwrap();

    assert!(validate_queue_name("Viirs").is_err());
    assert!(validate_queue_name("-viirs").is_err());
    assert!(validate_queue_name("viirs--processing").is_err());
}

#[test]
fn canonicalized_resource_includes_ordered_query_lines() {
    assert_eq!(
        canonicalized_resource(
            "devstoreaccount1",
            "/devstoreaccount1/viirs-processing/messages",
            &["numofmessages:1", "visibilitytimeout:900"],
        ),
        "/devstoreaccount1/devstoreaccount1/viirs-processing/messages\nnumofmessages:1\nvisibilitytimeout:900"
    );
}

#[test]
fn storage_get_string_to_sign_includes_query_lines() {
    let value = storage_string_to_sign(
        "devstoreaccount1",
        "GET",
        "/devstoreaccount1/viirs-processing/messages",
        None,
        None,
        &["numofmessages:1", "visibilitytimeout:900"],
        "Sun, 24 May 2026 12:00:00 GMT",
    );

    assert!(value.contains("x-ms-date:Sun, 24 May 2026 12:00:00 GMT"));
    assert!(value.contains("x-ms-version:2023-11-03"));
    assert!(value.contains("/devstoreaccount1/devstoreaccount1/viirs-processing/messages"));
    assert!(value.contains("numofmessages:1"));
    assert!(value.contains("visibilitytimeout:900"));
}

#[test]
fn storage_string_to_sign_includes_additional_x_ms_headers_before_date() {
    let value = storage_string_to_sign_with_headers(StorageStringToSignRequest {
        account: "devstoreaccount1",
        method: "PUT",
        request_path: "/devstoreaccount1/raw-viirs/blob.h5",
        content_length: Some(123),
        content_type: None,
        canonicalized_query: &[],
        additional_canonicalized_headers: &["x-ms-blob-type:BlockBlob"],
        x_ms_date: "Sun, 24 May 2026 12:00:00 GMT",
    });

    assert!(value.contains("x-ms-blob-type:BlockBlob\nx-ms-date:Sun, 24 May 2026 12:00:00 GMT"));
}

#[test]
fn storage_post_string_to_sign_includes_content_headers() {
    let value = storage_string_to_sign(
        "devstoreaccount1",
        "POST",
        "/devstoreaccount1/viirs-processing/messages",
        Some(123),
        Some("application/xml"),
        &[],
        "Sun, 24 May 2026 12:00:00 GMT",
    );

    assert!(value.contains("\n123\n"));
    assert!(value.contains("\napplication/xml\n"));
    assert!(value.contains("/devstoreaccount1/devstoreaccount1/viirs-processing/messages"));
}

#[test]
fn storage_string_to_sign_leaves_zero_content_length_empty() {
    let value = storage_string_to_sign(
        "devstoreaccount1",
        "DELETE",
        "/devstoreaccount1/raw-viirs/blob.h5",
        Some(0),
        None,
        &[],
        "Sun, 24 May 2026 12:00:00 GMT",
    );

    assert_eq!(
        value,
        "DELETE\n\n\n\n\n\n\n\n\n\n\n\nx-ms-date:Sun, 24 May 2026 12:00:00 GMT\nx-ms-version:2023-11-03\n/devstoreaccount1/devstoreaccount1/raw-viirs/blob.h5"
    );
}

#[test]
fn escapes_queue_message_xml_text() {
    assert_eq!(
        escape_xml_text("a&b<c>d\"e'f"),
        "a&amp;b&lt;c&gt;d&quot;e&apos;f"
    );
}

#[test]
fn queue_message_body_wraps_escaped_text() {
    assert_eq!(
        queue_message_body("a&b<c>d\"e'f"),
        "<QueueMessage><MessageText>a&amp;b&lt;c&gt;d&quot;e&apos;f</MessageText></QueueMessage>"
    );
}

#[test]
fn signs_requests_with_the_decoded_account_key() {
    let header = shared_key_authorization_header(SharedKeyRequest {
        account: "devstoreaccount1",
        access_key: TEST_STORAGE_ACCESS_KEY,
        method: "GET",
        request_path: "/devstoreaccount1/viirs-processing/messages",
        content_length: None,
        content_type: None,
        canonicalized_query: &["numofmessages:1"],
        additional_canonicalized_headers: &[],
        x_ms_date: "Sun, 24 May 2026 12:00:00 GMT",
    })
    .unwrap();

    assert!(header.starts_with("SharedKey devstoreaccount1:"));
    // A base64 HMAC-SHA256 tag: 32 bytes, 44 characters with padding.
    assert_eq!(header.len(), "SharedKey devstoreaccount1:".len() + 44);
    assert!(header.ends_with('='));
}

#[test]
fn refuses_keys_that_are_not_base64() {
    let error = shared_key_authorization_header(SharedKeyRequest {
        account: "devstoreaccount1",
        access_key: "not base64!",
        method: "GET",
        request_path: "/devstoreaccount1",
        content_length: None,
        content_type: None,
        canonicalized_query: &[],
        additional_canonicalized_headers: &[],
        x_ms_date: "Sun, 24 May 2026 12:00:00 GMT",
    })
    .unwrap_err();

    assert!(matches!(error, AzureStorageError::DecodeAccessKey(_)));
}

#[test]
fn processed_blob_upload_signature_includes_cache_and_content_type_headers() {
    let headers =
        processed_blob_header_lines("public, max-age=300, must-revalidate", "application/json");
    let value = storage_string_to_sign_with_headers(StorageStringToSignRequest {
        account: "devstoreaccount1",
        method: "PUT",
        request_path: "/devstoreaccount1/processed-tiles/manifests/latest.json",
        content_length: Some(123),
        content_type: None,
        canonicalized_query: &[],
        additional_canonicalized_headers: &as_strs(&headers),
        x_ms_date: "Sun, 24 May 2026 12:00:00 GMT",
    });

    assert!(value.contains("x-ms-blob-cache-control:public, max-age=300, must-revalidate"));
    assert!(value.contains("x-ms-blob-content-type:application/json"));
    assert!(value.contains("x-ms-blob-type:BlockBlob"));
    assert!(value.contains("/devstoreaccount1/devstoreaccount1/processed-tiles/manifests/latest.json"));
}

#[test]
fn blob_list_signature_uses_ordered_query_lines() {
    let query = blob_list_query_lines("tiles/set-a/", 500);
    let value = storage_string_to_sign(
        "devstoreaccount1",
        "GET",
        "/devstoreaccount1/processed-tiles",
        None,
        None,
        &as_strs(&query),
        "Sun, 24 May 2026 12:00:00 GMT",
    );

    assert_eq!(
        query,
        vec![
            "comp:list",
            "maxresults:500",
            "prefix:tiles/set-a/",
            "restype:container"
        ]
    );
    assert!(value.contains("comp:list"));
    assert!(value.contains("maxresults:500"));
    assert!(value.contains("prefix:tiles/set-a/"));
    assert!(value.contains("restype:container"));
    assert!(value.contains("/devstoreaccount1/devstoreaccount1/processed-tiles"));
}

#[test]
fn receive_query_signing_uses_expected_query_lines() {
    let query = receive_query_lines(1, 900);
    let value = storage_string_to_sign(
        "devstoreaccount1",
        "GET",
        "/devstoreaccount1/viirs-processing/messages",
        None,
        None,
        &as_strs(&query),
        "Sun, 24 May 2026 12:00:00 GMT",
    );

    assert!(value.contains("numofmessages:1"));
    assert!(value.contains("visibilitytimeout:900"));
    assert!(value.contains("/devstoreaccount1/devstoreaccount1/viirs-processing/messages"));
}

#[test]
fn delete_query_signing_uses_pop_receipt() {
    let query = delete_query_lines("receipt-1");
    let value = storage_string_to_sign(
        "devstoreaccount1",
        "DELETE",
        "/devstoreaccount1/viirs-processing/messages/message-1",
        None,
        None,
        &as_strs(&query),
        "Sun, 24 May 2026 12:00:00 GMT",
    );

    assert!(value.contains("popreceipt:receipt-1"));
    assert!(value.contains("/devstoreaccount1/devstoreaccount1/viirs-processing/messages/message-1"));
}

#[test]
fn parses_blob_list_response_names() {
    let page = blob_list_page(
        vec![
            "tiles/set-a/3/1/2.png".to_owned(),
            "tiles/set-a/3/1/3.png".to_owned(),
        ],
        None,
    );

    assert_eq!(
        page.blob_paths,
        vec![
            "tiles/set-a/3/1/2.png".to_owned(),
            "tiles/set-a/3/1/3.png".to_owned()
        ]
    );
    assert!(!page.has_more);
}

#[test]
fn parses_blob_list_response_continuation_marker() {
    let page = blob_list_page(
        vec!["tiles/set-a/3/1/2.png".to_owned()],
        Some("marker-1".to_owned()),
    );

    assert_eq!(page.blob_paths, vec!["tiles/set-a/3/1/2.png".to_owned()]);
    assert!(page.has_more);
    assert!(!blob_list_page(Vec::new(), Some(String::new())).has_more);
}

#[test]
fn maps_delete_statuses_to_outcomes() {
    assert_eq!(delete_blob_outcome(202), Some(DeleteBlobOutcome::Deleted));
    assert_eq!(delete_blob_outcome(200), Some(DeleteBlobOutcome::Deleted));
    assert_eq!(delete_blob_outcome(404), Some(DeleteBlobOutcome::Missing));
    assert_eq!(delete_blob_outcome(409), None);
    assert_eq!(delete_blob_outcome(500), None);
}
