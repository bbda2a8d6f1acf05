use lions_pos::catalog::{category_summary, slugify, Category, CategorySummary, CreateCategoryRequest, CreateProductPhotoRequest, ProductPhoto, UpdateCategoryRequest, UpdateProductPhotoRequest};
use lions_pos::error::{missing, require_deleted, require_found, AppError, Record};
use lions_pos::inventory::{plan_stock_adjustment, sale_movement, Branch, CreateBranchRequest, CreateWarehouseRequest, UpdateBranchRequest, UpdateStockRequest, Warehouse};
use lions_pos::upload::{file_extension, image_url, products_dir, require_upload, save_path, stored_file_name};

#[test]
fn slug_is_lowercase_with_hyphens() {
    assert_eq!(slugify("Es Teh Manis"), "es-teh-manis");
    assert_eq!(slugify("Snack & Cemilan"), "snack-&-cemilan");
}

#[test]
fn new_category_takes_defaults() {
    let c = Category::create(CreateCategoryRequest {
        name: "Minuman Dingin".to_string(),
        slug: None,
        icon: None,
        is_active: None,
    });
    assert_eq!(c.name, "Minuman Dingin");
    assert_eq!(c.slug, "minuman-dingin");
    assert!(c.is_active);
    assert_eq!(c.created_at, c.updated_at);
    assert_eq!(c.id.len(), 36);
    assert_eq!(&c.id[14..15], "4");
    let given = Category::create(CreateCategoryRequest {
        name: "X".to_string(),
        slug: Some("custom".to_string()),
        icon: Some("Cake".to_string()),
        is_active: Some(false),
    });
    assert_eq!(given.slug, "custom");
    assert_eq!(given.icon, Some("Cake".to_string()));
    assert!(!given.is_active);
}

#[test]
fn category_update_merges_fields() {
    let c = Category::create(CreateCategoryRequest {
        name: "Makanan".to_string(),
        slug: None,
        icon: Some("Utensils".to_string()),
        is_active: None,
    });
    let u = c.clone().apply_update(
        UpdateCategoryRequest {
            name: Some("Makanan Berat".to_string()),
            slug: None,
            icon: None,
            is_active: Some(false),
        },
        "2024-05-01T10:00:00+00:00".to_string(),
    );
    assert_eq!(u.id, c.id);
    assert_eq!(u.name, "Makanan Berat");
    assert_eq!(u.slug, "makanan");
    assert_eq!(u.icon, Some("Utensils".to_string()));
    assert!(!u.is_active);
    assert_eq!(u.created_at, c.created_at);
    assert_eq!(u.updated_at, "2024-05-01T10:00:00+00:00");
}

#[test]
fn summary_needs_both_id_and_name() {
    assert_eq!(
        category_summary(Some("cat-food".to_string()), Some("Makanan".to_string())),
        Some(CategorySummary { id: "cat-food".to_string(), name: "Makanan".to_string() })
    );
    assert_eq!(category_summary(Some("cat-food".to_string()), None), None);
    assert_eq!(category_summary(None, Some("Makanan".to_string())), None);
}

#[test]
fn photo_defaults_and_update() {
    let p = ProductPhoto::create(CreateProductPhotoRequest {
        product_id: "prod-1".to_string(),
        url: "/a.jpg".to_string(),
        is_primary: None,
        sort_order: None,
    });
    assert!(!p.is_primary);
    assert_eq!(p.sort_order, 0);
    let q = p.clone().apply_update(UpdateProductPhotoRequest {
        product_id: None,
        url: None,
        is_primary: Some(true),
        sort_order: Some(3),
    });
    assert_eq!(q.id, p.id);
    assert_eq!(q.url, "/a.jpg");
    assert!(q.is_primary);
    assert_eq!(q.sort_order, 3);
}

#[test]
fn branch_and_warehouse_creation() {
    let b = Branch::create(CreateBranchRequest {
        name: "Cabang Dua".to_string(),
        code: "BR-002".to_string(),
        address: None,
        phone: Some("021".to_string()),
        is_active: None,
    });
    assert!(b.is_active);
    assert_eq!(b.code, "BR-002");
    let b2 = b.clone().apply_update(
        UpdateBranchRequest {
            name: None,
            code: Some("BR-020".to_string()),
            address: Some("Jl. Baru".to_string()),
            phone: None,
            is_active: None,
        },
        "2024-05-02T11:30:00+00:00".to_string(),
    );
    assert_eq!(b2.updated_at, "2024-05-02T11:30:00+00:00");
    assert_eq!(b2.created_at, b.created_at);
    assert_eq!(b2.name, "Cabang Dua");
    assert_eq!(b2.code, "BR-020");
    assert_eq!(b2.address, Some("Jl. Baru".to_string()));
    assert_eq!(b2.phone, Some("021".to_string()));
    let w = Warehouse::create(CreateWarehouseRequest {
        branch_id: Some(b.id.clone()),
        name: "Gudang".to_string(),
        code: "WH-2".to_string(),
        is_active: Some(false),
    });
    assert_eq!(w.branch_id, Some(b.id));
    assert!(!w.is_active);
}

#[test]
fn missing_records_answer_not_found() {
    assert_eq!(require_found::<u8>(Some(3), Record::Branch), Ok(3));
    assert_eq!(
        require_found::<u8>(None, Record::Category),
        Err(AppError::NotFound("Kategori tidak ditemukan".to_string()))
    );
    assert_eq!(
        require_deleted(0, Record::Voucher),
        Err(AppError::NotFound("Voucher tidak ditemukan".to_string()))
    );
    assert_eq!(require_deleted(1, Record::Product), Ok(true));
    assert_eq!(missing(Record::Order).status_code(), 404);
    assert_eq!(missing(Record::ActiveVoucher).message(), "Voucher tidak valid atau sudah tidak aktif");
}

fn stock_req(qty: i64, min: Option<i64>) -> UpdateStockRequest {
    UpdateStockRequest {
        branch_id: "branch-main".to_string(),
        product_id: "prod-1".to_string(),
        quantity: qty,
        min_stock: min,
    }
}

#[test]
fn manual_adjustment_down_records_out() {
    let a = plan_stock_adjustment(stock_req(47, None), Some(("sb-1".to_string(), 50)));
    assert!(!a.is_new);
    assert_eq!(a.balance.id, "sb-1");
    assert_eq!(a.balance.quantity, 47);
    assert_eq!(a.balance.min_stock, 5);
    assert_eq!(a.mutation.mutation_type, "OUT");
    assert_eq!(a.mutation.quantity, 3);
    assert_eq!(a.mutation.balance_before, 50);
    assert_eq!(a.mutation.balance_after, 47);
    assert_eq!(a.mutation.reference_no, Some("MANUAL_ADJUST".to_string()));
    assert_eq!(a.mutation.notes, Some("Penyesuaian stok manual".to_string()));
    assert_eq!(a.mutation.created_at, a.balance.updated_at);
}

#[test]
fn manual_adjustment_of_new_balance_records_in() {
    let a = plan_stock_adjustment(stock_req(12, Some(2)), None);
    assert!(a.is_new);
    assert_eq!(a.balance.id.len(), 36);
    assert_eq!(a.balance.min_stock, 2);
    assert_eq!(a.mutation.mutation_type, "IN");
    assert_eq!(a.mutation.quantity, 12);
    assert_eq!(a.mutation.balance_before, 0);
    let same = plan_stock_adjustment(stock_req(5, None), Some(("sb".to_string(), 5)));
    assert_eq!(same.mutation.mutation_type, "IN");
    assert_eq!(same.mutation.quantity, 0);
}

#[test]
fn sale_deducts_the_sold_quantity() {
    let now = "2026-01-01T00:00:00+00:00".to_string();
    let m = sale_movement(
        &"branch-main".to_string(),
        &"prod-1".to_string(),
        &"ORD-TEST-001".to_string(),
        Some(50),
        3,
        &now,
    );
    assert_eq!(m.new_quantity, 47);
    assert_eq!(m.mutation.mutation_type, "SALE");
    assert_eq!(m.mutation.quantity, 3);
    assert_eq!(m.mutation.balance_before, 50);
    assert_eq!(m.mutation.balance_after, 47);
    assert_eq!(m.mutation.reference_no, Some("ORD-TEST-001".to_string()));
    assert_eq!(m.mutation.notes, Some("Penjualan Kasir POS".to_string()));
    assert_eq!(m.mutation.created_at, now);
    let none = sale_movement(&"b".to_string(), &"p".to_string(), &"o".to_string(), None, 2, &now);
    assert_eq!(none.new_quantity, -2);
}

#[test]
fn upload_names_keep_the_extension() {
    assert_eq!(file_extension("Foto.PNG"), "png");
    assert_eq!(file_extension("archive.tar.gz"), "gz");
    assert_eq!(file_extension("noext"), "noext");
    let n = stored_file_name(Some("Menu.JPG"));
    assert_eq!(n.len(), 36 + 4);
    assert!(n.ends_with(".jpg"));
    let d = stored_file_name(None);
    assert!(d.ends_with(".jpg"));
    assert_eq!(products_dir("./uploads"), "./uploads/products");
    assert_eq!(save_path("./uploads/products", "x.png"), "./uploads/products/x.png");
    assert_eq!(image_url("x.png"), "/uploads/products/x.png");
    assert_eq!(
        require_upload(None),
        Err(AppError::BadRequest("File tidak ditemukan dalam form upload".to_string()))
    );
}
