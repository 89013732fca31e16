use crate::object_id::ObjectId;
use vstd::prelude::*;

verus! {

/// A titled piece of detail text, with an optional tree of nested subtitles.
#[derive(Debug)]
pub struct Subtitle {
    pub id: Option<ObjectId>,
    pub title: String,
    pub titledetail: String,
    pub subtitle: Option<Vec<Subtitle>>,
}

/// The leaf of a product document: one concrete article.
///
/// `amount` and `discount_amount` hold the bit patterns of IEEE-754 binary64
/// values; the library only carries them.
#[derive(Debug)]
pub struct ProductItemDetails {
    pub id: Option<ObjectId>,
    pub product_name: String,
    pub title: Vec<String>,
    pub subtitle: Vec<Subtitle>,
    pub description: String,
    pub amount: u64,
    pub discount_amount: u64,
    pub quantity: i32,
    pub images: Vec<String>,
}

#[derive(Debug)]
pub struct ProductBrand {
    pub id: Option<ObjectId>,
    pub brand_name: String,
    pub items: Vec<ProductItemDetails>,
}

#[derive(Debug)]
pub struct ProductItem {
    pub id: Option<ObjectId>,
    pub item_name: String,
    pub brands: Vec<ProductBrand>,
}

#[derive(Debug)]
pub struct ProductType {
    pub id: Option<ObjectId>,
    pub name: String,
    pub items: Vec<ProductItem>,
}

/// A whole product catalogue entry, as it is stored.
#[derive(Debug)]
pub struct ProductDocument {
    pub type_: Vec<ProductType>,
}

/// The path `type_[0].items[0].brands[0].items[0]` exists in `d`.
pub open spec fn first_leaf_exists(d: ProductDocument) -> bool {
    &&& d.type_@.len() > 0
    &&& d.type_@[0].items@.len() > 0
    &&& d.type_@[0].items@[0].brands@.len() > 0
    &&& d.type_@[0].items@[0].brands@[0].items@.len() > 0
}

/// `b` is `a` with its first element replaced and every other element kept.
pub open spec fn first_replaced<T>(a: Seq<T>, b: Seq<T>) -> bool {
    a.len() > 0 && b == a.update(0, b[0])
}

/// `b` is the leaf `a` with `image` appended to its image list, and nothing else changed.
pub open spec fn leaf_with_image(a: ProductItemDetails, b: ProductItemDetails, image: String) -> bool {
    &&& b.id == a.id
    &&& b.product_name == a.product_name
    &&& b.title == a.title
    &&& b.subtitle == a.subtitle
    &&& b.description == a.description
    &&& b.amount == a.amount
    &&& b.discount_amount == a.discount_amount
    &&& b.quantity == a.quantity
    &&& b.images@ == a.images@.push(image)
}

/// `b` is the brand `a` with the image appended to its first article only.
pub open spec fn brand_with_image(a: ProductBrand, b: ProductBrand, image: String) -> bool {
    &&& b.id == a.id
    &&& b.brand_name == a.brand_name
    &&& first_replaced(a.items@, b.items@)
    &&& leaf_with_image(a.items@[0], b.items@[0], image)
}

/// `b` is the item `a` with the image appended below its first brand only.
pub open spec fn item_with_image(a: ProductItem, b: ProductItem, image: String) -> bool {
    &&& b.id == a.id
    &&& b.item_name == a.item_name
    &&& first_replaced(a.brands@, b.brands@)
    &&& brand_with_image(a.brands@[0], b.brands@[0], image)
}

/// `b` is the type `a` with the image appended below its first item only.
pub open spec fn type_with_image(a: ProductType, b: ProductType, image: String) -> bool {
    &&& b.id == a.id
    &&& b.name == a.name
    &&& first_replaced(a.items@, b.items@)
    &&& item_with_image(a.items@[0], b.items@[0], image)
}

/// `b` is the document `a` with `image` appended to the image list of its
/// first leaf, and no other field or node changed.
pub open spec fn document_with_image(a: ProductDocument, b: ProductDocument, image: String) -> bool {
    &&& first_replaced(a.type_@, b.type_@)
    &&& type_with_image(a.type_@[0], b.type_@[0], image)
}

impl ProductDocument {
    /// Appends `image` to the image list of `type_[0].items[0].brands[0].items[0]`
    /// when that path exists; otherwise leaves the document as it was.
    pub fn attach_image(&mut self, image: String)
        ensures
            first_leaf_exists(*old(self)) ==> document_with_image(*old(self), *final(self), image),
            !first_leaf_exists(*old(self)) ==> *final(self) == *old(self),
    {
        if self.type_.len() > 0 && self.type_[0].items.len() > 0
            && self.type_[0].items[0].brands.len() > 0
            && self.type_[0].items[0].brands[0].items.len() > 0 {
            self.type_[0].items[0].brands[0].items[0].images.push(image);
        }
    }
}

} // verus!
