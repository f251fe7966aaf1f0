//! File storage at the provider: where each object lives and what a
//! refused operation comes to. Sending is left to the caller.

use super::auth::{is_success, success_status};
use super::client::SupabaseClient;
use crate::text::{replace_all, replaced};
use vstd::prelude::*;
use vstd::string::*;

verus! {

/// What the provider says of a stored file.
#[derive(Debug, Clone, PartialEq, Eq)]
pub struct UploadResponse {
    pub path: String,
    pub id: String,
    pub full_path: String,
}

/// The ways a storage operation fails; each text is for the log.
#[derive(Debug, Clone, PartialEq, Eq)]
pub enum StorageError {
    NetworkError(String),
    NotFound(String),
    Unauthorized(String),
    InvalidRequest(String),
}

/// A storage error as text.
pub enum StorageErrorModel {
    NetworkError(Seq<char>),
    NotFound(Seq<char>),
    Unauthorized(Seq<char>),
    InvalidRequest(Seq<char>),
}

impl View for StorageError {
    type V = StorageErrorModel;

    open spec fn view(&self) -> StorageErrorModel {
        match self {
            StorageError::NetworkError(detail) => StorageErrorModel::NetworkError(detail@),
            StorageError::NotFound(detail) => StorageErrorModel::NotFound(detail@),
            StorageError::Unauthorized(detail) => StorageErrorModel::Unauthorized(detail@),
            StorageError::InvalidRequest(detail) => StorageErrorModel::InvalidRequest(detail@),
        }
    }
}

/// The message of an error: what kind it is, then its detail.
pub open spec fn error_text(error: StorageErrorModel) -> Seq<char> {
    match error {
        StorageErrorModel::NetworkError(detail) => "Network error: "@ + detail,
        StorageErrorModel::NotFound(detail) => "Not found: "@ + detail,
        StorageErrorModel::Unauthorized(detail) => "Unauthorized: "@ + detail,
        StorageErrorModel::InvalidRequest(detail) => "Invalid request: "@ + detail,
    }
}

impl StorageError {
    /// The message of this error.
    pub fn message(&self) -> (text: String)
        ensures
            text@ == error_text(self@),
    {
        match self {
            StorageError::NetworkError(detail) => String::from_str("Network error: ").concat(
                detail.as_str(),
            ),
            StorageError::NotFound(detail) => String::from_str("Not found: ").concat(
                detail.as_str(),
            ),
            StorageError::Unauthorized(detail) => String::from_str("Unauthorized: ").concat(
                detail.as_str(),
            ),
            StorageError::InvalidRequest(detail) => String::from_str("Invalid request: ").concat(
                detail.as_str(),
            ),
        }
    }
}

/// The operations on stored files.
#[derive(Debug, Clone, Copy, PartialEq, Eq, Structural)]
pub enum StorageOperation {
    Upload,
    Download,
    CreateSignedUrl,
    Delete,
    List,
    Move,
    Copy,
}

/// The address of `path` below the storage root. A base that points at the
/// authentication root is taken back to the provider's own root first.
pub open spec fn storage_address(base: Seq<char>, path: Seq<char>) -> Seq<char> {
    replaced(base, "/auth/v1"@, Seq::<char>::empty()) + "/storage/v1"@ + path
}

/// The path of a file in a public bucket.
pub open spec fn public_path(bucket: Seq<char>, path: Seq<char>) -> Seq<char> {
    "/object/public/"@ + bucket + "/"@ + path
}

impl SupabaseClient {
    /// The full address of a storage endpoint.
    pub fn storage_url(&self, path: &str) -> (address: String)
        ensures
            address@ == storage_address(self.base_url(), path@),
    {
        proof {
            reveal_strlit("");
        }
        let mut address = replace_all(self.url(), "/auth/v1", "");
        assert(""@ =~= Seq::<char>::empty());
        address.append("/storage/v1");
        address.append(path);
        address
    }

    /// The address under which a file of a public bucket can be fetched.
    pub fn get_public_url(&self, bucket: &str, path: &str) -> (address: String)
        ensures
            address@ == storage_address(self.base_url(), public_path(bucket@, path@)),
    {
        let mut object = String::from_str("/object/public/");
        object.append(bucket);
        object.append("/");
        object.append(path);
        self.storage_url(object.as_str())
    }
}

/// What a refused operation comes to. `status_text` is the status as the
/// log shall show it. Only a refused upload or download tells a missing
/// permission and a missing file apart.
pub open spec fn refusal(operation: StorageOperation, status: u16, status_text: Seq<char>) -> StorageErrorModel {
    match operation {
        StorageOperation::Upload => if status == 401 || status == 403 {
            StorageErrorModel::Unauthorized("Unauthorized access"@)
        } else if status == 404 {
            StorageErrorModel::NotFound("Bucket or path not found"@)
        } else {
            StorageErrorModel::InvalidRequest("Upload failed with status "@ + status_text)
        },
        StorageOperation::Download => if status == 401 || status == 403 {
            StorageErrorModel::Unauthorized("Unauthorized access"@)
        } else if status == 404 {
            StorageErrorModel::NotFound("File not found"@)
        } else {
            StorageErrorModel::InvalidRequest("Download failed with status "@ + status_text)
        },
        StorageOperation::CreateSignedUrl => StorageErrorModel::InvalidRequest(
            "Failed to create signed URL with status "@ + status_text,
        ),
        StorageOperation::Delete => StorageErrorModel::InvalidRequest(
            "Delete failed with status "@ + status_text,
        ),
        StorageOperation::List => StorageErrorModel::InvalidRequest(
            "List failed with status "@ + status_text,
        ),
        StorageOperation::Move => StorageErrorModel::InvalidRequest(
            "Move failed with status "@ + status_text,
        ),
        StorageOperation::Copy => StorageErrorModel::InvalidRequest(
            "Copy failed with status "@ + status_text,
        ),
    }
}

/// An `InvalidRequest` whose detail is `lead` followed by the status.
fn invalid_request(lead: &str, status_text: &str) -> (error: StorageError)
    ensures
        error@ == StorageErrorModel::InvalidRequest(lead@ + status_text@),
{
    StorageError::InvalidRequest(String::from_str(lead).concat(status_text))
}

/// Accepts a status of the success class and turns every other into the
/// error of the operation.
pub fn check_status(operation: StorageOperation, status: u16, status_text: &str) -> (checked:
    Result<(), StorageError>)
    ensures
        match checked {
            Ok(_) => success_status(status),
            Err(error) => !success_status(status) && error@ == refusal(
                operation,
                status,
                status_text@,
            ),
        },
{
    if is_success(status) {
        return Ok(());
    }
    let denied = status == 401 || status == 403;
    let error = match operation {
        StorageOperation::Upload => if denied {
            StorageError::Unauthorized(String::from_str("Unauthorized access"))
        } else if status == 404 {
            StorageError::NotFound(String::from_str("Bucket or path not found"))
        } else {
            invalid_request("Upload failed with status ", status_text)
        },
        StorageOperation::Download => if denied {
            StorageError::Unauthorized(String::from_str("Unauthorized access"))
        } else if status == 404 {
            StorageError::NotFound(String::from_str("File not found"))
        } else {
            invalid_request("Download failed with status ", status_text)
        },
        StorageOperation::CreateSignedUrl => invalid_request(
            "Failed to create signed URL with status ",
            status_text,
        ),
        StorageOperation::Delete => invalid_request("Delete failed with status ", status_text),
        StorageOperation::List => invalid_request("List failed with status ", status_text),
        StorageOperation::Move => invalid_request("Move failed with status ", status_text),
        StorageOperation::Copy => invalid_request("Copy failed with status ", status_text),
    };
    Err(error)
}

/// Whether an upload replaces what is there: `PUT` where it may, `POST`
/// where it may not.
pub fn upload_method(upsert: bool) -> (method: &'static str)
    ensures
        method@ == (if upsert {
            "PUT"@
        } else {
            "POST"@
        }),
{
    if upsert {
        "PUT"
    } else {
        "POST"
    }
}

/// The window of a listing: at most a hundred entries from the start
/// unless the caller says otherwise.
pub fn list_window(limit: Option<u32>, offset: Option<u32>) -> (window: (u32, u32))
    ensures
        window.0 == (match limit {
            Some(count) => count,
            None => 100u32,
        }),
        window.1 == (match offset {
            Some(start) => start,
            None => 0u32,
        }),
{
    let count: u32 = match limit {
        Some(count) => count,
        None => 100,
    };
    let start: u32 = match offset {
        Some(start) => start,
        None => 0,
    };
    (count, start)
}

} // verus!
