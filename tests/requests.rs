use product_api::handlers::{
    after_insert, after_update, after_upload, index, object_url, plan_update, update_outcome,
    CreateStep, Reply, ServiceError, UpdateOutcome, UpdateStep,
};
use product_api::models::{
    ProductBrand, ProductDocument, ProductItem, ProductItemDetails, ProductType,
};
use product_api::object_id::ObjectId;

fn one_leaf() -> ProductDocument {
    let leaf = ProductItemDetails {
        id: None,
        product_name: "Lamp".to_string(),
        title: vec![],
        subtitle: vec![],
        description: String::new(),
        amount: 10.0f64.to_bits(),
        discount_amount: 0.0f64.to_bits(),
        quantity: 1,
        images: vec![],
    };
    let brand = ProductBrand { id: None, brand_name: "Lux".to_string(), items: vec![leaf] };
    let item = ProductItem { id: None, item_name: "Desk lamp".to_string(), brands: vec![brand] };
    ProductDocument { type_: vec![ProductType { id: None, name: "Lighting".to_string(), items: vec![item] }] }
}

#[test]
fn root_route_welcomes() {
    let r = index();
    assert_eq!(r.status(), 200);
    assert_eq!(r.message(), "Welcome to the Rust Mongo API with AWS S3 Integration");
}

#[test]
fn object_url_is_virtual_hosted() {
    assert_eq!(object_url("shop-images", "lamp.png"), "https://shop-images.s3.amazonaws.com/lamp.png");
}

#[test]
fn create_attaches_uploaded_image() {
    let url = object_url("bucket", "lamp.png");
    assert!(url.ends_with("lamp.png"));
    match after_upload(one_leaf(), Ok(url.clone())) {
        CreateStep::Insert { document, image_url } => {
            assert_eq!(image_url, url);
            assert_eq!(document.type_[0].items[0].brands[0].items[0].images, vec![url.clone()]);
        }
        CreateStep::Respond(_) => panic!("expected an insert"),
    }
    let id = ObjectId::parse_str("64b7f0c2a1b2c3d4e5f60718").unwrap();
    let r = after_insert(url.clone(), Ok(id));
    assert_eq!(r.status(), 200);
    assert_eq!(r.message(), url);
    assert!(matches!(r, Reply::Created { inserted_id, .. } if inserted_id == id));
}

#[test]
fn create_without_types_still_inserts() {
    match after_upload(ProductDocument { type_: vec![] }, Ok(object_url("bucket", "a.jpg"))) {
        CreateStep::Insert { document, .. } => assert!(document.type_.is_empty()),
        CreateStep::Respond(_) => panic!("expected an insert"),
    }
}

#[test]
fn failed_upload_is_reported() {
    match after_upload(one_leaf(), Err("no such file".to_string())) {
        CreateStep::Respond(r) => {
            assert_eq!(r.status(), 500);
            assert_eq!(r.message(), "Image upload failed: no such file");
        }
        CreateStep::Insert { .. } => panic!("expected a reply"),
    }
}

#[test]
fn failed_insert_is_reported() {
    let r = after_insert("u".to_string(), Err("connection refused".to_string()));
    assert_eq!(r.status(), 500);
    assert_eq!(r.message(), "Error inserting product: connection refused");
}

#[test]
fn serialization_failure_is_reported() {
    let r = Reply::Failed(ServiceError::Serialization("bad value".to_string()));
    assert_eq!(r.status(), 500);
    assert_eq!(r.message(), "Error converting to BSON: bad value");
}

#[test]
fn malformed_id_is_rejected_without_storage() {
    match plan_update("not-an-id", one_leaf()) {
        UpdateStep::Respond(r) => {
            assert!(matches!(r, Reply::Failed(ServiceError::InvalidIdentifier)));
            assert_eq!(r.status(), 400);
            assert_eq!(r.message(), "Invalid product ID");
        }
        UpdateStep::Store { .. } => panic!("no storage call expected"),
    }
}

#[test]
fn well_formed_id_goes_to_storage() {
    match plan_update("64b7f0c2a1b2c3d4e5f60718", one_leaf()) {
        UpdateStep::Store { id, document } => {
            assert_eq!(id.to_hex(), "64b7f0c2a1b2c3d4e5f60718");
            assert_eq!(document.type_[0].name, "Lighting");
        }
        UpdateStep::Respond(_) => panic!("expected a storage call"),
    }
}

#[test]
fn unmatched_update_is_not_found() {
    let r = after_update(Ok(0));
    assert_eq!(r.status(), 404);
    assert_eq!(r.message(), "Product not found");
}

#[test]
fn matched_update_is_reported() {
    let r = after_update(Ok(1));
    assert_eq!(r.status(), 200);
    assert_eq!(r.message(), "Product updated successfully");
    assert!(matches!(after_update(Ok(7)), Reply::Updated));
}

#[test]
fn failed_update_is_reported() {
    let r = after_update(Err("timeout".to_string()));
    assert_eq!(r.status(), 500);
    assert_eq!(r.message(), "Error updating product: timeout");
}

#[test]
fn outcome_follows_matched_count() {
    assert_eq!(update_outcome(0), UpdateOutcome::NotFound);
    assert_eq!(update_outcome(1), UpdateOutcome::Updated);
    assert_eq!(update_outcome(u64::MAX), UpdateOutcome::Updated);
}

#[test]
fn created_id_can_be_updated() {
    let id = ObjectId { bytes: [0x64, 0xb7, 0xf0, 0xc2, 1, 2, 3, 4, 5, 6, 7, 8] };
    match plan_update(&id.to_hex(), one_leaf()) {
        UpdateStep::Store { id: parsed, .. } => assert_eq!(parsed, id),
        UpdateStep::Respond(_) => panic!("expected a storage call"),
    }
    assert!(matches!(after_update(Ok(1)), Reply::Updated));
}
