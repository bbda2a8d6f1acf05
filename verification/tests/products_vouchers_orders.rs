use lions_pos::catalog::{map_to_response, CategorySummary, CreateProductRequest, ProductRaw, UpdateProductRequest};
use lions_pos::error::AppError;
use lions_pos::orders::{OrderDetailResponse, OrderItemRow, OrderRow, PaymentRow};
use lions_pos::vouchers::{CreateVoucherRequest, UpdateVoucherRequest, Voucher};

fn tea() -> CreateProductRequest<f64> {
    CreateProductRequest {
        name: "Es Teh Manis Segar".to_string(),
        sku: Some("TEH-001".to_string()),
        barcode: None,
        base_price: 6000.0,
        cost_price: Some(2000.0),
        category_id: None,
        track_stock: Some(true),
        is_active: Some(true),
        image_url: None,
    }
}

#[test]
fn new_product_keeps_the_request() {
    let p = ProductRaw::create(tea());
    assert_eq!(p.name, "Es Teh Manis Segar");
    assert_eq!(p.sku, Some("TEH-001".to_string()));
    assert_eq!(p.base_price, 6000.0);
    assert_eq!(p.cost_price, Some(2000.0));
    assert!(p.track_stock && p.is_active);
    assert_eq!(p.category_name, None);
    assert_eq!(p.created_at, p.updated_at);
    let mut req = tea();
    req.track_stock = None;
    req.is_active = None;
    let d = ProductRaw::create(req);
    assert!(d.track_stock && d.is_active);
}

#[test]
fn product_update_merges_and_shows_category() {
    let mut p = ProductRaw::create(tea());
    p.category_id = Some("cat-drink".to_string());
    p.category_name = Some("Minuman".to_string());
    let u = p.clone().apply_update(
        UpdateProductRequest {
            name: None,
            sku: None,
            barcode: Some("899".to_string()),
            base_price: Some(7000.0),
            cost_price: None,
            category_id: None,
            track_stock: Some(false),
            is_active: None,
            image_url: None,
        },
        "2024-05-01T10:00:00+00:00".to_string(),
    );
    assert_eq!(u.updated_at, "2024-05-01T10:00:00+00:00");
    assert_eq!(u.id, p.id);
    assert_eq!(u.name, p.name);
    assert_eq!(u.barcode, Some("899".to_string()));
    assert_eq!(u.base_price, 7000.0);
    assert_eq!(u.cost_price, Some(2000.0));
    assert!(!u.track_stock);
    assert_eq!(u.created_at, p.created_at);
    let r = map_to_response(u);
    assert_eq!(
        r.category_id,
        Some(CategorySummary { id: "cat-drink".to_string(), name: "Minuman".to_string() })
    );
    assert_eq!(r.base_price, 7000.0);
    let plain = map_to_response(ProductRaw::create(tea()));
    assert_eq!(plain.category_id, None);
}

fn voucher(quota: Option<i64>) -> Voucher<f64> {
    Voucher::create(CreateVoucherRequest {
        code: "DISCOUNT10".to_string(),
        description: None,
        discount_type: "PERCENTAGE".to_string(),
        discount_value: 10.0,
        min_spend: Some(30000.0),
        max_discount: Some(15000.0),
        quota,
        is_active: None,
        start_date: None,
        end_date: None,
    })
}

#[test]
fn voucher_lifecycle() {
    let mut v = voucher(Some(2));
    assert_eq!(v.used_count, 0);
    assert!(v.is_active);
    assert_eq!(v.check_available(), Ok(()));
    v.used_count = 2;
    assert_eq!(v.check_available(), Err(AppError::BadRequest("Kuota voucher telah habis".to_string())));
    let u = v.clone().apply_update(UpdateVoucherRequest {
        code: None,
        description: Some("Diskon".to_string()),
        discount_type: None,
        discount_value: None,
        min_spend: None,
        max_discount: None,
        quota: Some(5),
        is_active: Some(false),
        start_date: None,
        end_date: None,
    });
    assert_eq!(u.used_count, 2);
    assert_eq!(u.quota, Some(5));
    assert_eq!(u.code, "DISCOUNT10");
    assert_eq!(u.discount_value, 10.0);
    assert!(!u.is_active);
    assert_eq!(u.check_available(), Ok(()));
    assert_eq!(voucher(None).check_available(), Ok(()));
}

#[test]
fn order_detail_gathers_lines_and_payments() {
    let row = OrderRow {
        id: "o1".to_string(),
        order_number: "ORD-TEST-001".to_string(),
        branch_id: "branch-main".to_string(),
        user_id: None,
        cashier_name: None,
        shift_id: None,
        voucher_id: None,
        buyer_name: Some("Pelanggan Setia".to_string()),
        subtotal: 54000.0,
        discount_amount: 0.0,
        tax_amount: 0.0,
        total: 54000.0,
        status: "PAID".to_string(),
        notes: None,
        manual_discount_type: None,
        manual_discount_value: None,
        manual_discount_note: None,
        created_at: "t".to_string(),
        updated_at: "t".to_string(),
    };
    let item = OrderItemRow {
        id: "i1".to_string(),
        order_id: "o1".to_string(),
        product_id: "prod-1".to_string(),
        product_name: "Kopi Susu Gula Aren".to_string(),
        product_sku: Some("KOP-001".to_string()),
        unit_price: 18000.0,
        quantity: 3,
        discount_type: None,
        discount_value: None,
        discount_amount: 0.0,
        subtotal: 54000.0,
        note: Some("Sedikit gula".to_string()),
    };
    let pay = PaymentRow {
        id: "p1".to_string(),
        order_id: "o1".to_string(),
        method: "CASH".to_string(),
        amount: 54000.0,
        cash_tendered: Some(60000.0),
        change_due: Some(6000.0),
        bank_name: None,
        reference_no: None,
        created_at: "t".to_string(),
    };
    let d = OrderDetailResponse::assemble(row, Some("Cabang Utama POS".to_string()), vec![item], vec![pay]);
    assert_eq!(d.order_number, "ORD-TEST-001");
    assert_eq!(d.total, 54000.0);
    assert_eq!(d.branch_name, Some("Cabang Utama POS".to_string()));
    assert_eq!(d.items.len(), 1);
    assert_eq!(d.items[0].qty, 3);
    assert_eq!(d.items[0].item_note, Some("Sedikit gula".to_string()));
    assert_eq!(d.payments[0].method, "CASH");
    assert_eq!(d.payments[0].change_due, Some(6000.0));
}
