//! Azure Blob and Queue storage: the values that the service reads from
//! storage responses, and the request lines that it signs.
use vstd::prelude::*;

use crate::text::{chars_of, dec, push_dec, push_str};

verus! {

/// Whether a blob was deleted or was already gone.
#[derive(Debug, Clone, Copy, PartialEq, Eq, Structural)]
pub enum DeleteBlobOutcome {
    Deleted,
    Missing,
}

/// One page of a blob listing.
#[derive(Debug, Clone, PartialEq, Eq)]
pub struct BlobListPage {
    pub blob_paths: Vec<String>,
    pub has_more: bool,
}

/// A message taken from a queue.
#[derive(Debug, Clone, PartialEq, Eq)]
pub struct ReceivedQueueMessage {
    pub message_id: String,
    pub pop_receipt: String,
    pub dequeue_count: u32,
    pub message_text: String,
}

/// Whether an HTTP status is a success (2xx).
pub open spec fn status_success(status: u16) -> bool {
    200 <= status <= 299
}

/// The outcome of a blob deletion answered with `status`: a success means
/// deleted, 404 means already missing, anything else is an error (`None`).
pub fn delete_blob_outcome(status: u16) -> (r: Option<DeleteBlobOutcome>)
    ensures
        status_success(status) ==> r == Some(DeleteBlobOutcome::Deleted),
        status == 404 ==> r == Some(DeleteBlobOutcome::Missing),
        !status_success(status) && status != 404 ==> r is None,
{
    if 200 <= status && status <= 299 {
        Some(DeleteBlobOutcome::Deleted)
    } else if status == 404 {
        Some(DeleteBlobOutcome::Missing)
    } else {
        None
    }
}

/// A listing page from the names of a response and its continuation marker:
/// more blobs follow when the marker is present and not empty.
pub fn blob_list_page(blob_paths: Vec<String>, next_marker: Option<String>) -> (p: BlobListPage)
    ensures
        p.blob_paths@ == blob_paths@,
        p.has_more == (next_marker matches Some(m) && m@.len() > 0),
{
    let has_more = match &next_marker {
        Some(marker) => chars_of(marker.as_str()).len() > 0,
        None => false,
    };
    BlobListPage { blob_paths, has_more }
}

/// The canonicalized query lines of a blob listing, in the order that
/// signing requires.
pub open spec fn blob_list_query(prefix: Seq<char>, max_results: u32) -> Seq<Seq<char>> {
    seq![
        "comp:list"@,
        "maxresults:"@ + dec(max_results as nat),
        "prefix:"@ + prefix,
        "restype:container"@,
    ]
}

/// The canonicalized query lines of a blob listing.
pub fn blob_list_query_lines(prefix: &str, max_results: u32) -> (r: Vec<String>)
    ensures
        r@.map_values(|s: String| s@) == blob_list_query(prefix@, max_results),
{
    let mut r: Vec<String> = Vec::new();
    let mut a = String::new();
    push_str(&mut a, "comp:list");
    let mut b = String::new();
    push_str(&mut b, "maxresults:");
    push_dec(&mut b, max_results as u64);
    let mut c = String::new();
    push_str(&mut c, "prefix:");
    push_str(&mut c, prefix);
    let mut d = String::new();
    push_str(&mut d, "restype:container");
    r.push(a);
    r.push(b);
    r.push(c);
    r.push(d);
    assert(r@.map_values(|s: String| s@) =~= blob_list_query(prefix@, max_results));
    r
}

/// The extra canonicalized headers of a processed-blob upload.
pub open spec fn processed_blob_headers(cache_control: Seq<char>, content_type: Seq<char>) -> Seq<
    Seq<char>,
> {
    seq![
        "x-ms-blob-cache-control:"@ + cache_control,
        "x-ms-blob-content-type:"@ + content_type,
        "x-ms-blob-type:BlockBlob"@,
    ]
}

/// The extra canonicalized headers of a processed-blob upload, in the order
/// that signing requires.
pub fn processed_blob_header_lines(cache_control: &str, content_type: &str) -> (r: Vec<String>)
    ensures
        r@.map_values(|s: String| s@) == processed_blob_headers(cache_control@, content_type@),
{
    let mut r: Vec<String> = Vec::new();
    let mut a = String::new();
    push_str(&mut a, "x-ms-blob-cache-control:");
    push_str(&mut a, cache_control);
    let mut b = String::new();
    push_str(&mut b, "x-ms-blob-content-type:");
    push_str(&mut b, content_type);
    let mut c = String::new();
    push_str(&mut c, "x-ms-blob-type:BlockBlob");
    r.push(a);
    r.push(b);
    r.push(c);
    assert(r@.map_values(|s: String| s@) =~= processed_blob_headers(cache_control@, content_type@));
    r
}

/// The canonicalized query lines of a queue receive.
pub open spec fn receive_query(max_messages: usize, visibility_timeout_seconds: u64) -> Seq<
    Seq<char>,
> {
    seq![
        "numofmessages:"@ + dec(max_messages as nat),
        "visibilitytimeout:"@ + dec(visibility_timeout_seconds as nat),
    ]
}

/// The canonicalized query lines of a queue receive.
pub fn receive_query_lines(max_messages: usize, visibility_timeout_seconds: u64) -> (r: Vec<
    String,
>)
    ensures
        r@.map_values(|s: String| s@) == receive_query(max_messages, visibility_timeout_seconds),
{
    let mut r: Vec<String> = Vec::new();
    let mut a = String::new();
    push_str(&mut a, "numofmessages:");
    push_dec(&mut a, max_messages as u64);
    let mut b = String::new();
    push_str(&mut b, "visibilitytimeout:");
    push_dec(&mut b, visibility_timeout_seconds);
    r.push(a);
    r.push(b);
    assert(r@.map_values(|s: String| s@) =~= receive_query(
        max_messages,
        visibility_timeout_seconds,
    ));
    r
}

/// The canonicalized query line of a queue message deletion.
pub fn delete_query_lines(pop_receipt: &str) -> (r: Vec<String>)
    ensures
        r@.map_values(|s: String| s@) == seq!["popreceipt:"@ + pop_receipt@],
{
    let mut r: Vec<String> = Vec::new();
    let mut a = String::new();
    push_str(&mut a, "popreceipt:");
    push_str(&mut a, pop_receipt);
    r.push(a);
    assert(r@.map_values(|s: String| s@) =~= seq!["popreceipt:"@ + pop_receipt@]);
    r
}

} // verus!
