use vstd::prelude::*;
use crate::clock::{is_utc_rfc3339_text, now_rfc3339};
use crate::ids::{is_uuid_v4_text, new_id};
use crate::text::{lowercase, replace_spaces, spaces_to_hyphens, to_lowercase};

verus! {

/// A product category, as stored.
#[derive(Clone, Debug, PartialEq, Eq)]
pub struct Category {
    pub id: String,
    pub name: String,
    pub slug: String,
    pub icon: Option<String>,
    pub is_active: bool,
    pub created_at: String,
    pub updated_at: String,
}

/// The body of a request that creates a category.
#[derive(Clone, Debug, PartialEq, Eq)]
pub struct CreateCategoryRequest {
    pub name: String,
    pub slug: Option<String>,
    pub icon: Option<String>,
    pub is_active: Option<bool>,
}

/// The body of a request that changes a category; absent fields stay.
#[derive(Clone, Debug, PartialEq, Eq)]
pub struct UpdateCategoryRequest {
    pub name: Option<String>,
    pub slug: Option<String>,
    pub icon: Option<String>,
    pub is_active: Option<bool>,
}

/// The category a product belongs to, as products show it.
#[derive(Clone, Debug, PartialEq, Eq)]
pub struct CategorySummary {
    pub id: String,
    pub name: String,
}

/// A photo of a product, as stored.
#[derive(Clone, Debug, PartialEq, Eq)]
pub struct ProductPhoto {
    pub id: String,
    pub product_id: String,
    pub url: String,
    pub is_primary: bool,
    pub sort_order: i32,
    pub created_at: String,
}

/// The body of a request that adds a photo to a product.
#[derive(Clone, Debug, PartialEq, Eq)]
pub struct CreateProductPhotoRequest {
    pub product_id: String,
    pub url: String,
    pub is_primary: Option<bool>,
    pub sort_order: Option<i32>,
}

/// The body of a request that changes a photo; absent fields stay.
#[derive(Clone, Debug, PartialEq, Eq)]
pub struct UpdateProductPhotoRequest {
    pub product_id: Option<String>,
    pub url: Option<String>,
    pub is_primary: Option<bool>,
    pub sort_order: Option<i32>,
}

/// The body of a request that switches a product on or off, or switches
/// its stock tracking.
#[derive(Clone, Debug, PartialEq, Eq)]
pub struct PatchProductRequest {
    pub is_active: Option<bool>,
    pub track_stock: Option<bool>,
}

/// A product as stored, with the name of its category when it was read
/// with it. Prices are of type `M`: the library carries them but never
/// computes with them.
#[derive(Clone, Debug, PartialEq)]
pub struct ProductRaw<M> {
    pub id: String,
    pub name: String,
    pub sku: Option<String>,
    pub barcode: Option<String>,
    pub base_price: M,
    pub cost_price: Option<M>,
    pub category_id: Option<String>,
    pub category_name: Option<String>,
    pub track_stock: bool,
    pub is_active: bool,
    pub image_url: Option<String>,
    pub created_at: String,
    pub updated_at: String,
}

/// A product as the API shows it: the category as an id and name together.
#[derive(Clone, Debug, PartialEq)]
pub struct ProductResponse<M> {
    pub id: String,
    pub name: String,
    pub sku: Option<String>,
    pub barcode: Option<String>,
    pub base_price: M,
    pub cost_price: Option<M>,
    pub category_id: Option<CategorySummary>,
    pub track_stock: bool,
    pub is_active: bool,
    pub image_url: Option<String>,
    pub created_at: String,
    pub updated_at: String,
}

/// The body of a request that creates a product.
#[derive(Clone, Debug, PartialEq)]
pub struct CreateProductRequest<M> {
    pub name: String,
    pub sku: Option<String>,
    pub barcode: Option<String>,
    pub base_price: M,
    pub cost_price: Option<M>,
    pub category_id: Option<String>,
    pub track_stock: Option<bool>,
    pub is_active: Option<bool>,
    pub image_url: Option<String>,
}

/// The body of a request that changes a product; absent fields stay.
#[derive(Clone, Debug, PartialEq)]
pub struct UpdateProductRequest<M> {
    pub name: Option<String>,
    pub sku: Option<String>,
    pub barcode: Option<String>,
    pub base_price: Option<M>,
    pub cost_price: Option<M>,
    pub category_id: Option<String>,
    pub track_stock: Option<bool>,
    pub is_active: Option<bool>,
    pub image_url: Option<String>,
}

/// The value of an optional field, or the stored value when it is absent.
pub open spec fn or_keep<T>(given: Option<T>, stored: T) -> T {
    match given {
        Some(v) => v,
        None => stored,
    }
}

/// An optional field, or the stored optional value when it is absent.
pub open spec fn or_keep_opt<T>(given: Option<T>, stored: Option<T>) -> Option<T> {
    match given {
        Some(v) => Some(v),
        None => stored,
    }
}

/// The slug a category gets from its name: lowercased, spaces turned into
/// hyphens.
pub open spec fn slug_of(name: Seq<char>) -> Seq<char> {
    spaces_to_hyphens(lowercase(name))
}

/// The slug derived from a category name (`name.to_lowercase().replace(' ', "-")`).
pub fn slugify(name: &str) -> (slug: String)
    ensures
        slug@ == slug_of(name@),
{
    let lower = to_lowercase(name);
    replace_spaces(lower.as_str())
}

/// The category that an update request makes of a stored one, when the
/// update happens at time `at`.
pub open spec fn category_after_update(stored: Category, req: UpdateCategoryRequest, at: String) -> Category {
    Category {
        id: stored.id,
        name: or_keep(req.name, stored.name),
        slug: or_keep(req.slug, stored.slug),
        icon: or_keep_opt(req.icon, stored.icon),
        is_active: or_keep(req.is_active, stored.is_active),
        created_at: stored.created_at,
        updated_at: at,
    }
}

/// The photo that an update request makes of a stored one.
pub open spec fn photo_after_update(stored: ProductPhoto, req: UpdateProductPhotoRequest) -> ProductPhoto {
    ProductPhoto {
        id: stored.id,
        product_id: or_keep(req.product_id, stored.product_id),
        url: or_keep(req.url, stored.url),
        is_primary: or_keep(req.is_primary, stored.is_primary),
        sort_order: or_keep(req.sort_order, stored.sort_order),
        created_at: stored.created_at,
    }
}

impl Category {
    /// A new category: a fresh id, the requested name and icon, the given
    /// slug or one derived from the name, active unless told otherwise,
    /// created and updated at the same moment.
    pub fn create(req: CreateCategoryRequest) -> (c: Category)
        ensures
            is_uuid_v4_text(c.id@),
            c.name == req.name,
            c.slug@ == match req.slug {
                Some(s) => s@,
                None => slug_of(req.name@),
            },
            c.icon == req.icon,
            c.is_active == or_keep(req.is_active, true),
            c.created_at == c.updated_at,
            is_utc_rfc3339_text(c.created_at@),
    {
        let slug = match req.slug {
            Some(s) => s,
            None => slugify(req.name.as_str()),
        };
        let now = now_rfc3339();
        Category {
            id: new_id(),
            name: req.name,
            slug,
            icon: req.icon,
            is_active: match req.is_active {
                Some(b) => b,
                None => true,
            },
            created_at: now.clone(),
            updated_at: now,
        }
    }

    /// The category after an update made at time `now`: each field the
    /// request gives replaces the stored one, the others stay; the id and
    /// creation time never change and the update time becomes `now`.
    pub fn apply_update(self, req: UpdateCategoryRequest, now: String) -> (c: Category)
        ensures
            c == category_after_update(self, req, now),
            req.name matches Some(x) ==> c.name == x,
            req.name is None ==> c.name == self.name,
            req.slug matches Some(x) ==> c.slug == x,
            req.slug is None ==> c.slug == self.slug,
            req.icon matches Some(x) ==> c.icon == Some(x),
            req.icon is None ==> c.icon == self.icon,
            req.is_active matches Some(x) ==> c.is_active == x,
            req.is_active is None ==> c.is_active == self.is_active,
            c.id == self.id,
            c.created_at == self.created_at,
            c.updated_at == now,
    {
        Category {
            id: self.id,
            name: match req.name {
                Some(v) => v,
                None => self.name,
            },
            slug: match req.slug {
                Some(v) => v,
                None => self.slug,
            },
            icon: match req.icon {
                Some(v) => Some(v),
                None => self.icon,
            },
            is_active: match req.is_active {
                Some(v) => v,
                None => self.is_active,
            },
            created_at: self.created_at,
            updated_at: now,
        }
    }
}

/// The category of a product as it is shown: present only when both the id
/// and the name of the category are known.
pub fn category_summary(id: Option<String>, name: Option<String>) -> (r: Option<CategorySummary>)
    ensures
        match (id, name) {
            (Some(i), Some(n)) => r == Some(CategorySummary { id: i, name: n }),
            _ => r is None,
        },
{
    match (id, name) {
        (Some(id), Some(name)) => Some(CategorySummary { id, name }),
        _ => None,
    }
}

/// The product that an update request makes of a stored one, when the
/// update happens at time `at`.
pub open spec fn product_after_update<M>(stored: ProductRaw<M>, req: UpdateProductRequest<M>, at: String) -> ProductRaw<M> {
    ProductRaw {
        id: stored.id,
        name: or_keep(req.name, stored.name),
        sku: or_keep_opt(req.sku, stored.sku),
        barcode: or_keep_opt(req.barcode, stored.barcode),
        base_price: or_keep(req.base_price, stored.base_price),
        cost_price: or_keep_opt(req.cost_price, stored.cost_price),
        category_id: or_keep_opt(req.category_id, stored.category_id),
        category_name: stored.category_name,
        track_stock: or_keep(req.track_stock, stored.track_stock),
        is_active: or_keep(req.is_active, stored.is_active),
        image_url: or_keep_opt(req.image_url, stored.image_url),
        created_at: stored.created_at,
        updated_at: at,
    }
}

impl<M> ProductRaw<M> {
    /// A new product: a fresh id, the requested fields, stock tracked and
    /// active unless told otherwise, created and updated at the same moment.
    /// Its category's name is not known until it is read back.
    pub fn create(req: CreateProductRequest<M>) -> (p: ProductRaw<M>)
        ensures
            is_uuid_v4_text(p.id@),
            p.name == req.name,
            p.sku == req.sku,
            p.barcode == req.barcode,
            p.base_price == req.base_price,
            p.cost_price == req.cost_price,
            p.category_id == req.category_id,
            p.category_name is None,
            p.track_stock == or_keep(req.track_stock, true),
            p.is_active == or_keep(req.is_active, true),
            p.image_url == req.image_url,
            p.created_at == p.updated_at,
            is_utc_rfc3339_text(p.created_at@),
    {
        let now = now_rfc3339();
        ProductRaw {
            id: new_id(),
            name: req.name,
            sku: req.sku,
            barcode: req.barcode,
            base_price: req.base_price,
            cost_price: req.cost_price,
            category_id: req.category_id,
            category_name: None,
            track_stock: match req.track_stock {
                Some(b) => b,
                None => true,
            },
            is_active: match req.is_active {
                Some(b) => b,
                None => true,
            },
            image_url: req.image_url,
            created_at: now.clone(),
            updated_at: now,
        }
    }

    /// The product after an update made at time `now`: each field the
    /// request gives replaces the stored one, the others stay; the id and
    /// creation time never change and the update time becomes `now`.
    pub fn apply_update(self, req: UpdateProductRequest<M>, now: String) -> (p: ProductRaw<M>)
        ensures
            p == product_after_update(self, req, now),
            req.name matches Some(x) ==> p.name == x,
            req.name is None ==> p.name == self.name,
            req.sku matches Some(x) ==> p.sku == Some(x),
            req.sku is None ==> p.sku == self.sku,
            req.barcode matches Some(x) ==> p.barcode == Some(x),
            req.barcode is None ==> p.barcode == self.barcode,
            req.base_price matches Some(x) ==> p.base_price == x,
            req.base_price is None ==> p.base_price == self.base_price,
            req.cost_price matches Some(x) ==> p.cost_price == Some(x),
            req.cost_price is None ==> p.cost_price == self.cost_price,
            req.category_id matches Some(x) ==> p.category_id == Some(x),
            req.category_id is None ==> p.category_id == self.category_id,
            req.track_stock matches Some(x) ==> p.track_stock == x,
            req.track_stock is None ==> p.track_stock == self.track_stock,
            req.is_active matches Some(x) ==> p.is_active == x,
            req.is_active is None ==> p.is_active == self.is_active,
            req.image_url matches Some(x) ==> p.image_url == Some(x),
            req.image_url is None ==> p.image_url == self.image_url,
            p.id == self.id,
            p.category_name == self.category_name,
            p.created_at == self.created_at,
            p.updated_at == now,
    {
        ProductRaw {
            id: self.id,
            name: match req.name {
                Some(v) => v,
                None => self.name,
            },
            sku: match req.sku {
                Some(v) => Some(v),
                None => self.sku,
            },
            barcode: match req.barcode {
                Some(v) => Some(v),
                None => self.barcode,
            },
            base_price: match req.base_price {
                Some(v) => v,
                None => self.base_price,
            },
            cost_price: match req.cost_price {
                Some(v) => Some(v),
                None => self.cost_price,
            },
            category_id: match req.category_id {
                Some(v) => Some(v),
                None => self.category_id,
            },
            category_name: self.category_name,
            track_stock: match req.track_stock {
                Some(v) => v,
                None => self.track_stock,
            },
            is_active: match req.is_active {
                Some(v) => v,
                None => self.is_active,
            },
            image_url: match req.image_url {
                Some(v) => Some(v),
                None => self.image_url,
            },
            created_at: self.created_at,
            updated_at: now,
        }
    }
}

/// A stored product as the API shows it: every field carried over, the
/// category shown only when both its id and its name are known.
pub fn map_to_response<M>(raw: ProductRaw<M>) -> (r: ProductResponse<M>)
    ensures
        r.id == raw.id,
        r.name == raw.name,
        r.sku == raw.sku,
        r.barcode == raw.barcode,
        r.base_price == raw.base_price,
        r.cost_price == raw.cost_price,
        r.category_id == (match (raw.category_id, raw.category_name) {
            (Some(i), Some(n)) => Some(CategorySummary { id: i, name: n }),
            _ => None,
        }),
        r.track_stock == raw.track_stock,
        r.is_active == raw.is_active,
        r.image_url == raw.image_url,
        r.created_at == raw.created_at,
        r.updated_at == raw.updated_at,
{
    let category = category_summary(raw.category_id, raw.category_name);
    ProductResponse {
        id: raw.id,
        name: raw.name,
        sku: raw.sku,
        barcode: raw.barcode,
        base_price: raw.base_price,
        cost_price: raw.cost_price,
        category_id: category,
        track_stock: raw.track_stock,
        is_active: raw.is_active,
        image_url: raw.image_url,
        created_at: raw.created_at,
        updated_at: raw.updated_at,
    }
}

impl ProductPhoto {
    /// A new photo: a fresh id, the requested product and url, not primary
    /// and first in order unless told otherwise.
    pub fn create(req: CreateProductPhotoRequest) -> (p: ProductPhoto)
        ensures
            is_uuid_v4_text(p.id@),
            p.product_id == req.product_id,
            p.url == req.url,
            p.is_primary == or_keep(req.is_primary, false),
            p.sort_order == or_keep(req.sort_order, 0i32),
            is_utc_rfc3339_text(p.created_at@),
    {
        ProductPhoto {
            id: new_id(),
            product_id: req.product_id,
            url: req.url,
            is_primary: match req.is_primary {
                Some(b) => b,
                None => false,
            },
            sort_order: match req.sort_order {
                Some(n) => n,
                None => 0,
            },
            created_at: now_rfc3339(),
        }
    }

    /// The photo after an update: each field the request gives replaces the
    /// stored one; the id and creation time stay.
    pub fn apply_update(self, req: UpdateProductPhotoRequest) -> (p: ProductPhoto)
        ensures
            p == photo_after_update(self, req),
            req.product_id matches Some(x) ==> p.product_id == x,
            req.product_id is None ==> p.product_id == self.product_id,
            req.url matches Some(x) ==> p.url == x,
            req.url is None ==> p.url == self.url,
            req.is_primary matches Some(x) ==> p.is_primary == x,
            req.is_primary is None ==> p.is_primary == self.is_primary,
            req.sort_order matches Some(x) ==> p.sort_order == x,
            req.sort_order is None ==> p.sort_order == self.sort_order,
            p.id == self.id,
            p.created_at == self.created_at,
    {
        ProductPhoto {
            id: self.id,
            product_id: match req.product_id {
                Some(v) => v,
                None => self.product_id,
            },
            url: match req.url {
                Some(v) => v,
                None => self.url,
            },
            is_primary: match req.is_primary {
                Some(v) => v,
                None => self.is_primary,
            },
            sort_order: match req.sort_order {
                Some(v) => v,
                None => self.sort_order,
            },
            created_at: self.created_at,
        }
    }
}

/// An update that gives no field changes nothing but the update time.
pub proof fn law_empty_category_update(stored: Category, at: String)
    ensures
        category_after_update(
            stored,
            UpdateCategoryRequest { name: None, slug: None, icon: None, is_active: None },
            at,
        ) == (Category { updated_at: at, ..stored }),
{
}

/// Applying the same update twice has the effect of applying it once.
pub proof fn law_category_update_idempotent(
    stored: Category,
    req: UpdateCategoryRequest,
    first: String,
    second: String,
)
    ensures
        category_after_update(category_after_update(stored, req, first), req, second)
            == category_after_update(stored, req, second),
{
}

/// A product update that gives no field changes nothing but the update time.
pub proof fn law_empty_product_update<M>(stored: ProductRaw<M>, at: String)
    ensures
        product_after_update(
            stored,
            UpdateProductRequest {
                name: None,
                sku: None,
                barcode: None,
                base_price: None,
                cost_price: None,
                category_id: None,
                track_stock: None,
                is_active: None,
                image_url: None,
            },
            at,
        ) == (ProductRaw { updated_at: at, ..stored }),
{
}

/// Applying the same product update twice has the effect of applying it once.
pub proof fn law_product_update_idempotent<M>(
    stored: ProductRaw<M>,
    req: UpdateProductRequest<M>,
    first: String,
    second: String,
)
    ensures
        product_after_update(product_after_update(stored, req, first), req, second)
            == product_after_update(stored, req, second),
{
}

/// A photo update that gives no field leaves the photo as it was.
pub proof fn law_empty_photo_update(stored: ProductPhoto)
    ensures
        photo_after_update(
            stored,
            UpdateProductPhotoRequest { product_id: None, url: None, is_primary: None, sort_order: None },
        ) == stored,
{
}

/// Applying the same photo update twice has the effect of applying it once.
pub proof fn law_photo_update_idempotent(stored: ProductPhoto, req: UpdateProductPhotoRequest)
    ensures
        photo_after_update(photo_after_update(stored, req), req) == photo_after_update(stored, req),
{
}

/// A derived slug holds no space and is as long as the lowercased name.
pub proof fn law_slug_has_no_spaces(name: Seq<char>)
    ensures
        forall|i: int| 0 <= i < slug_of(name).len() ==> #[trigger] slug_of(name)[i] != ' ',
        slug_of(name).len() == lowercase(name).len(),
{
}

// ---------------------------------------------------------------------------
// The photos of a product: at most one is primary
// ---------------------------------------------------------------------------

/// The photo table after `UPDATE product_photos SET is_primary = 0 WHERE
/// product_id = ?`: no photo of `product` is primary any more.
pub open spec fn clear_primary(table: Seq<ProductPhoto>, product: Seq<char>) -> Seq<ProductPhoto> {
    table.map_values(
        |p: ProductPhoto|
            if p.product_id@ == product {
                ProductPhoto { is_primary: false, ..p }
            } else {
                p
            },
    )
}

/// Whether a new or changed photo makes the other photos of its product lose
/// their primary mark before it is written.
pub fn resets_other_primaries(photo: &ProductPhoto) -> (b: bool)
    ensures
        b == photo.is_primary,
{
    photo.is_primary
}

/// The photo table after a photo is added: the other photos of its product
/// lose their primary mark when it is primary, then the photo is inserted.
pub open spec fn table_after_create(table: Seq<ProductPhoto>, photo: ProductPhoto) -> Seq<ProductPhoto> {
    (if photo.is_primary { clear_primary(table, photo.product_id@) } else { table }).push(photo)
}

/// The photo table after a photo is changed to `photo` (the merged record):
/// the photos of its product lose their primary mark when it is primary,
/// then the row with its id is overwritten.
pub open spec fn table_after_update(table: Seq<ProductPhoto>, photo: ProductPhoto) -> Seq<ProductPhoto> {
    let cleared = if photo.is_primary { clear_primary(table, photo.product_id@) } else { table };
    cleared.map_values(|p: ProductPhoto| if p.id@ == photo.id@ { photo } else { p })
}

/// No product has two primary photos.
pub open spec fn at_most_one_primary(table: Seq<ProductPhoto>) -> bool {
    forall|i: int, j: int|
        0 <= i < table.len() && 0 <= j < table.len() && i != j && #[trigger] table[i].is_primary
            && #[trigger] table[j].is_primary ==> table[i].product_id@ != table[j].product_id@
}

/// No two photos share an id.
pub open spec fn ids_unique(table: Seq<ProductPhoto>) -> bool {
    forall|i: int, j: int|
        0 <= i < table.len() && 0 <= j < table.len() && i != j ==> #[trigger] table[i].id@
            != #[trigger] table[j].id@
}

/// The photo table after the photo at position `k` is deleted (photo ids are
/// unique, so `DELETE ... WHERE id = ?` removes that one row).
pub open spec fn table_after_delete(table: Seq<ProductPhoto>, k: int) -> Seq<ProductPhoto> {
    table.remove(k)
}

/// Deleting a photo keeps every product at one primary photo at most.
pub proof fn law_delete_keeps_one_primary(table: Seq<ProductPhoto>, k: int)
    requires
        at_most_one_primary(table),
        0 <= k < table.len(),
    ensures
        at_most_one_primary(table_after_delete(table, k)),
{
    let t = table_after_delete(table, k);
    assert forall|i: int, j: int|
        0 <= i < t.len() && 0 <= j < t.len() && i != j && #[trigger] t[i].is_primary
            && #[trigger] t[j].is_primary implies t[i].product_id@ != t[j].product_id@ by {
        let oi = if i < k { i } else { i + 1 };
        let oj = if j < k { j } else { j + 1 };
        assert(t[i] == table[oi] && t[j] == table[oj]);
        assert(table[oi].is_primary && table[oj].is_primary);
    }
}

/// Adding a photo keeps every product at one primary photo at most.
pub proof fn law_create_keeps_one_primary(table: Seq<ProductPhoto>, photo: ProductPhoto)
    requires
        at_most_one_primary(table),
    ensures
        at_most_one_primary(table_after_create(table, photo)),
{
    let t = table_after_create(table, photo);
    assert forall|i: int, j: int|
        0 <= i < t.len() && 0 <= j < t.len() && i != j && #[trigger] t[i].is_primary
            && #[trigger] t[j].is_primary implies t[i].product_id@ != t[j].product_id@ by {
        if i < table.len() && j < table.len() {
            assert(table[i].is_primary && table[j].is_primary);
        }
    }
}

/// Changing a photo keeps every product at one primary photo at most, as
/// long as photo ids are unique.
pub proof fn law_update_keeps_one_primary(table: Seq<ProductPhoto>, photo: ProductPhoto)
    requires
        at_most_one_primary(table),
        ids_unique(table),
    ensures
        at_most_one_primary(table_after_update(table, photo)),
{
    let cleared = if photo.is_primary { clear_primary(table, photo.product_id@) } else { table };
    let t = table_after_update(table, photo);
    assert forall|i: int, j: int|
        0 <= i < t.len() && 0 <= j < t.len() && i != j && #[trigger] t[i].is_primary
            && #[trigger] t[j].is_primary implies t[i].product_id@ != t[j].product_id@ by {
        assert(cleared[i].id@ == table[i].id@ && cleared[j].id@ == table[j].id@);
        if cleared[i].id@ == photo.id@ && cleared[j].id@ == photo.id@ {
            assert(table[i].id@ != table[j].id@);
        } else if cleared[i].id@ == photo.id@ {
            assert(cleared[j].is_primary);
        } else if cleared[j].id@ == photo.id@ {
            assert(cleared[i].is_primary);
        } else {
            assert(cleared[i].is_primary && cleared[j].is_primary);
            assert(table[i].is_primary && table[j].is_primary);
        }
    }
}

/// An update of a category replaces each field the request gives by the
/// given value and keeps each field it leaves out; the id and creation time
/// stay and the update time becomes the time of the update.
pub proof fn law_category_update_replaces_given_fields(stored: Category, req: UpdateCategoryRequest, at: String)
    ensures
        ({
            let u = category_after_update(stored, req, at);
            &&& req.name matches Some(x) ==> u.name == x
            &&& req.name is None ==> u.name == stored.name
            &&& req.slug matches Some(x) ==> u.slug == x
            &&& req.slug is None ==> u.slug == stored.slug
            &&& req.icon matches Some(x) ==> u.icon == Some(x)
            &&& req.icon is None ==> u.icon == stored.icon
            &&& req.is_active matches Some(x) ==> u.is_active == x
            &&& req.is_active is None ==> u.is_active == stored.is_active
            &&& u.id == stored.id
            &&& u.created_at == stored.created_at
            &&& u.updated_at == at
        }),
{
}

/// An update of a product replaces each field the request gives by the
/// given value and keeps each field it leaves out; the id, the category name
/// and the creation time stay and the update time becomes the time of the
/// update.
pub proof fn law_product_update_replaces_given_fields<M>(stored: ProductRaw<M>, req: UpdateProductRequest<M>, at: String)
    ensures
        ({
            let u = product_after_update(stored, req, at);
            &&& req.name matches Some(x) ==> u.name == x
            &&& req.name is None ==> u.name == stored.name
            &&& req.sku matches Some(x) ==> u.sku == Some(x)
            &&& req.sku is None ==> u.sku == stored.sku
            &&& req.barcode matches Some(x) ==> u.barcode == Some(x)
            &&& req.barcode is None ==> u.barcode == stored.barcode
            &&& req.base_price matches Some(x) ==> u.base_price == x
            &&& req.base_price is None ==> u.base_price == stored.base_price
            &&& req.cost_price matches Some(x) ==> u.cost_price == Some(x)
            &&& req.cost_price is None ==> u.cost_price == stored.cost_price
            &&& req.category_id matches Some(x) ==> u.category_id == Some(x)
            &&& req.category_id is None ==> u.category_id == stored.category_id
            &&& req.track_stock matches Some(x) ==> u.track_stock == x
            &&& req.track_stock is None ==> u.track_stock == stored.track_stock
            &&& req.is_active matches Some(x) ==> u.is_active == x
            &&& req.is_active is None ==> u.is_active == stored.is_active
            &&& req.image_url matches Some(x) ==> u.image_url == Some(x)
            &&& req.image_url is None ==> u.image_url == stored.image_url
            &&& u.id == stored.id
            &&& u.category_name == stored.category_name
            &&& u.created_at == stored.created_at
            &&& u.updated_at == at
        }),
{
}

/// An update of a photo replaces each field the request gives by the given
/// value and keeps each field it leaves out; the id and creation time stay.
pub proof fn law_photo_update_replaces_given_fields(stored: ProductPhoto, req: UpdateProductPhotoRequest)
    ensures
        ({
            let u = photo_after_update(stored, req);
            &&& req.product_id matches Some(x) ==> u.product_id == x
            &&& req.product_id is None ==> u.product_id == stored.product_id
            &&& req.url matches Some(x) ==> u.url == x
            &&& req.url is None ==> u.url == stored.url
            &&& req.is_primary matches Some(x) ==> u.is_primary == x
            &&& req.is_primary is None ==> u.is_primary == stored.is_primary
            &&& req.sort_order matches Some(x) ==> u.sort_order == x
            &&& req.sort_order is None ==> u.sort_order == stored.sort_order
            &&& u.id == stored.id
            &&& u.created_at == stored.created_at
        }),
{
}

} // verus!
