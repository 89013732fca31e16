use crate::models::{document_with_image, first_leaf_exists, ProductDocument};
use crate::object_id::{is_object_id_text, object_id_bytes, ObjectId};
use vstd::prelude::*;
use vstd::string::StringExecFns;

verus! {

/// Why a request failed.
#[derive(Debug)]
pub enum ServiceError {
    /// The image could not be read or the object store refused it.
    Upload(String),
    /// The document could not be converted to the storage format.
    Serialization(String),
    /// The store refused the insert.
    Insert(String),
    /// The store refused the update.
    Update(String),
    /// The identifier in the path is not twenty-four hexadecimal digits.
    InvalidIdentifier,
}

/// What an update that reached the store found.
#[derive(Debug, PartialEq, Eq)]
pub enum UpdateOutcome {
    /// At least one stored document matched and was overwritten.
    Updated,
    /// No stored document matched the identifier.
    NotFound,
}

/// The answer to one request.
#[derive(Debug)]
pub enum Reply {
    Welcome,
    Created { inserted_id: ObjectId, image_url: String },
    Updated,
    NotFound,
    Failed(ServiceError),
}

/// The next thing to do while creating a product.
#[derive(Debug)]
pub enum CreateStep {
    /// Answer the request with this reply and store nothing.
    Respond(Reply),
    /// Insert this document; the uploaded image is at `image_url`.
    Insert { document: ProductDocument, image_url: String },
}

/// The next thing to do while replacing a product.
#[derive(Debug)]
pub enum UpdateStep {
    /// Answer the request with this reply and make no storage call.
    Respond(Reply),
    /// Overwrite the stored document with this identifier.
    Store { id: ObjectId, document: ProductDocument },
}

pub open spec fn status_of(r: Reply) -> u16 {
    match r {
        Reply::Welcome => 200,
        Reply::Created { .. } => 200,
        Reply::Updated => 200,
        Reply::NotFound => 404,
        Reply::Failed(ServiceError::InvalidIdentifier) => 400,
        Reply::Failed(_) => 500,
    }
}

pub open spec fn message_of(r: Reply) -> Seq<char> {
    match r {
        Reply::Welcome => "Welcome to the Rust Mongo API with AWS S3 Integration"@,
        Reply::Created { image_url, .. } => image_url@,
        Reply::Updated => "Product updated successfully"@,
        Reply::NotFound => "Product not found"@,
        Reply::Failed(ServiceError::Upload(e)) => "Image upload failed: "@ + e@,
        Reply::Failed(ServiceError::Serialization(e)) => "Error converting to BSON: "@ + e@,
        Reply::Failed(ServiceError::Insert(e)) => "Error inserting product: "@ + e@,
        Reply::Failed(ServiceError::Update(e)) => "Error updating product: "@ + e@,
        Reply::Failed(ServiceError::InvalidIdentifier) => "Invalid product ID"@,
    }
}

/// The virtual-hosted-style address of object `key` in `bucket`.
pub open spec fn object_url_of(bucket: Seq<char>, key: Seq<char>) -> Seq<char> {
    "https://"@ + bucket + ".s3.amazonaws.com/"@ + key
}

impl Reply {
    /// The HTTP status code of this reply.
    pub fn status(&self) -> (r: u16)
        ensures
            r == status_of(*self),
    {
        match self {
            Reply::Welcome => 200,
            Reply::Created { .. } => 200,
            Reply::Updated => 200,
            Reply::NotFound => 404,
            Reply::Failed(ServiceError::InvalidIdentifier) => 400,
            Reply::Failed(_) => 500,
        }
    }

    /// The text this reply carries: the welcome text, the status or error
    /// text, or, for a created product, the address of its image.
    pub fn message(&self) -> (r: String)
        ensures
            r@ == message_of(*self),
    {
        match self {
            Reply::Welcome => String::from_str("Welcome to the Rust Mongo API with AWS S3 Integration"),
            Reply::Created { image_url, .. } => image_url.clone(),
            Reply::Updated => String::from_str("Product updated successfully"),
            Reply::NotFound => String::from_str("Product not found"),
            Reply::Failed(ServiceError::Upload(e)) => prefixed("Image upload failed: ", e),
            Reply::Failed(ServiceError::Serialization(e)) => prefixed("Error converting to BSON: ", e),
            Reply::Failed(ServiceError::Insert(e)) => prefixed("Error inserting product: ", e),
            Reply::Failed(ServiceError::Update(e)) => prefixed("Error updating product: ", e),
            Reply::Failed(ServiceError::InvalidIdentifier) => String::from_str("Invalid product ID"),
        }
    }
}

fn prefixed(prefix: &str, detail: &String) -> (r: String)
    ensures
        r@ == prefix@ + detail@,
{
    let mut r = String::from_str(prefix);
    r.append(detail.as_str());
    r
}

/// The address under which an object uploaded as `key` to `bucket` is served.
pub fn object_url(bucket: &str, key: &str) -> (r: String)
    ensures
        r@ == object_url_of(bucket@, key@),
{
    let mut r = String::from_str("https://");
    r.append(bucket);
    r.append(".s3.amazonaws.com/");
    r.append(key);
    r
}

/// The reply to the root route.
pub fn index() -> (r: Reply)
    ensures
        r is Welcome,
{
    Reply::Welcome
}

/// Decides what follows the image upload of a create request: on failure,
/// an upload error and no insert; on success, the document with the image
/// address attached, to be inserted.
pub fn after_upload(document: ProductDocument, upload: Result<String, String>) -> (r: CreateStep)
    ensures
        upload is Err ==> r == CreateStep::Respond(Reply::Failed(ServiceError::Upload(upload->Err_0))),
        upload is Ok ==> r is Insert && r->image_url == upload->Ok_0,
        upload is Ok && first_leaf_exists(document) ==> document_with_image(
            document,
            r->Insert_document,
            upload->Ok_0,
        ),
        upload is Ok && !first_leaf_exists(document) ==> r->Insert_document == document,
{
    match upload {
        Err(e) => CreateStep::Respond(Reply::Failed(ServiceError::Upload(e))),
        Ok(url) => {
            let mut document = document;
            document.attach_image(url.clone());
            CreateStep::Insert { document, image_url: url }
        },
    }
}

/// The reply once the insert has been tried: the new identifier with the
/// image address, or the store's error.
pub fn after_insert(image_url: String, inserted: Result<ObjectId, String>) -> (r: Reply)
    ensures
        inserted is Ok ==> r == (Reply::Created { inserted_id: inserted->Ok_0, image_url }),
        inserted is Err ==> r == Reply::Failed(ServiceError::Insert(inserted->Err_0)),
{
    match inserted {
        Ok(inserted_id) => Reply::Created { inserted_id, image_url },
        Err(e) => Reply::Failed(ServiceError::Insert(e)),
    }
}

/// Decides the first step of a replace request: a malformed identifier is
/// answered at once, without any storage call.
pub fn plan_update(id: &str, document: ProductDocument) -> (r: UpdateStep)
    ensures
        !is_object_id_text(id@) ==> r == UpdateStep::Respond(Reply::Failed(ServiceError::InvalidIdentifier)),
        is_object_id_text(id@) ==> r is Store && r->Store_document == document
            && r->Store_id.bytes@ == object_id_bytes(id@),
{
    match ObjectId::parse_str(id) {
        Some(oid) => UpdateStep::Store { id: oid, document },
        None => UpdateStep::Respond(Reply::Failed(ServiceError::InvalidIdentifier)),
    }
}

/// The outcome of an update whose selector matched `matched_count` documents.
pub fn update_outcome(matched_count: u64) -> (r: UpdateOutcome)
    ensures
        r == (if matched_count > 0 { UpdateOutcome::Updated } else { UpdateOutcome::NotFound }),
{
    if matched_count > 0 {
        UpdateOutcome::Updated
    } else {
        UpdateOutcome::NotFound
    }
}

/// The reply once the update has been tried: the matched count decides
/// between updated and not found, and a store error is passed on.
pub fn after_update(result: Result<u64, String>) -> (r: Reply)
    ensures
        result is Ok && result->Ok_0 > 0 ==> r is Updated,
        result is Ok && result->Ok_0 == 0 ==> r is NotFound,
        result is Err ==> r == Reply::Failed(ServiceError::Update(result->Err_0)),
{
    match result {
        Ok(matched_count) => match update_outcome(matched_count) {
            UpdateOutcome::Updated => Reply::Updated,
            UpdateOutcome::NotFound => Reply::NotFound,
        },
        Err(e) => Reply::Failed(ServiceError::Update(e)),
    }
}

} // verus!
