use lions_pos::error::AppError;
use lions_pos::shifts::{ensure_no_open_shift, ensure_shift_open, CashierShift, OpenShiftRequest};
use lions_pos::vouchers::check_voucher_quota;
use lions_pos::orders::{check_item_stock, format_order_number, manual_discount_kind, order_number_or_default, require_items, require_product, select_payments, voucher_discount_kind, DiscountKind};
use lions_pos::response::StandardResponse;
use lions_pos::seed::{admin_grants, permission_seeds, seed_branch, seed_categories, seed_roles, seed_warehouse, should_seed};

#[test]
fn empty_cart_is_refused() {
    let none: Vec<u8> = vec![];
    assert_eq!(require_items(&none), Err(AppError::BadRequest("Keranjang belanja kosong".to_string())));
    assert_eq!(require_items(&vec![1u8]), Ok(()));
}

#[test]
fn unknown_product_in_cart_is_refused() {
    assert_eq!(
        require_product::<u8>(None, "prod-9"),
        Err(AppError::BadRequest("Produk id prod-9 tidak ditemukan".to_string()))
    );
}

#[test]
fn short_stock_is_refused_with_counts() {
    assert_eq!(check_item_stock("Kopi Susu Gula Aren", true, Some(50), 3), Ok(()));
    assert_eq!(check_item_stock("Kopi Susu Gula Aren", true, Some(3), 3), Ok(()));
    assert_eq!(
        check_item_stock("Kopi Susu Gula Aren", true, Some(2), 3),
        Err(AppError::BadRequest(
            "Stok produk 'Kopi Susu Gula Aren' tidak mencukupi (tersedia: 2, diminta: 3)".to_string()
        ))
    );
    assert_eq!(
        check_item_stock("Es", true, None, 1),
        Err(AppError::BadRequest("Stok produk 'Es' tidak mencukupi (tersedia: 0, diminta: 1)".to_string()))
    );
    assert_eq!(check_item_stock("Es", false, None, 100), Ok(()));
}

#[test]
fn order_numbers() {
    assert_eq!(format_order_number(1_700_000_000_123), "ORD-1700000000123");
    assert_eq!(order_number_or_default(Some("ORD-TEST-001".to_string())), "ORD-TEST-001");
    let generated = order_number_or_default(None);
    assert!(generated.starts_with("ORD-"));
    assert!(generated[4..].parse::<i64>().is_ok());
}

#[test]
fn discount_kinds() {
    assert_eq!(manual_discount_kind(&"PERCENTAGE".to_string()), DiscountKind::Percentage);
    assert_eq!(manual_discount_kind(&"percent".to_string()), DiscountKind::Percentage);
    assert_eq!(manual_discount_kind(&"FIXED".to_string()), DiscountKind::Fixed);
    assert_eq!(voucher_discount_kind(&"PERCENTAGE".to_string()), DiscountKind::Percentage);
    assert_eq!(voucher_discount_kind(&"percent".to_string()), DiscountKind::Fixed);
}

#[test]
fn payments_prefer_the_split_list() {
    assert_eq!(select_payments(Some(vec![1, 2]), Some(9)), vec![1, 2]);
    assert_eq!(select_payments(None, Some(9)), vec![9]);
    assert_eq!(select_payments::<u8>(None, None), Vec::<u8>::new());
}

#[test]
fn voucher_quota() {
    assert_eq!(check_voucher_quota(None, 1000), Ok(()));
    assert_eq!(check_voucher_quota(Some(100), 99), Ok(()));
    assert_eq!(
        check_voucher_quota(Some(100), 100),
        Err(AppError::BadRequest("Kuota voucher telah habis".to_string()))
    );
}

#[test]
fn shift_rules() {
    assert_eq!(ensure_no_open_shift(None), Ok(()));
    assert_eq!(
        ensure_no_open_shift(Some("s1".to_string())),
        Err(AppError::BadRequest("Anda masih memiliki shift aktif di cabang ini".to_string()))
    );
    assert_eq!(ensure_shift_open(&"OPEN".to_string()), Ok(()));
    assert_eq!(
        ensure_shift_open(&"CLOSED".to_string()),
        Err(AppError::BadRequest("Shift ini sudah ditutup sebelumnya".to_string()))
    );
}

#[test]
fn success_envelope() {
    let r = StandardResponse::success(5u8, Some("Login berhasil"));
    assert!(r.success);
    assert_eq!(r.message, Some("Login berhasil".to_string()));
    assert_eq!(r.data, 5);
    let q = StandardResponse::success("x", None);
    assert_eq!(q.message, None);
}

#[test]
fn seeded_permissions_cover_every_module_action() {
    assert!(should_seed(0));
    assert!(!should_seed(1));
    let perms = permission_seeds();
    assert_eq!(perms.len(), 80);
    assert_eq!(perms[0].id, "perm-user-index");
    assert_eq!(perms[0].name, "index user");
    assert_eq!(perms[0].slug, "user.index");
    assert_eq!(perms[79].id, "perm-log-delete");
    assert_eq!(perms[17].slug, "stock-mutation.store");
    let links = admin_grants(&perms);
    assert_eq!(links.len(), 80);
    assert!(links.iter().all(|l| l.0 == "role-admin"));
    assert_eq!(links[42].1, perms[42].id);
}

#[test]
fn seeded_roles_branch_and_categories() {
    let now = "t".to_string();
    let roles = seed_roles(&now);
    assert_eq!(roles[0].name, "ADMIN");
    assert_eq!(roles[1].slug, "cashier");
    let b = seed_branch(&now);
    assert_eq!(b.id, "branch-main");
    assert_eq!(b.code, "BR-001");
    let w = seed_warehouse(&now);
    assert_eq!(w.branch_id, Some("branch-main".to_string()));
    let cats = seed_categories(&now);
    assert_eq!(cats.len(), 4);
    assert_eq!(cats[2].name, "Snack & Cemilan");
    assert_eq!(cats[3].icon, Some("Cake".to_string()));
}

#[test]
fn shift_opens_and_closes_once() {
    let s = CashierShift::open(
        "user-admin".to_string(),
        OpenShiftRequest { branch_id: "branch-main".to_string(), starting_cash: 100000.0, notes: Some("pagi".to_string()) },
    );
    assert_eq!(s.status, "OPEN");
    assert_eq!(s.starting_cash, 100000.0);
    assert_eq!(s.start_time, s.created_at);
    assert_eq!(s.end_time, None);
    assert!(s.start_time.ends_with("+00:00") && s.start_time.contains('T'));
    let c = s.clone().close(154000.0, 154000.0, 0.0, None, "2024-05-01T10:00:00+00:00".to_string()).unwrap();
    assert_eq!(c.status, "CLOSED");
    assert_eq!(c.actual_cash, Some(154000.0));
    assert_eq!(c.difference, Some(0.0));
    assert_eq!(c.notes, None);
    assert_eq!(c.end_time, Some("2024-05-01T10:00:00+00:00".to_string()));
    assert_eq!(c.start_time, s.start_time);
    assert_eq!(
        c.close(1.0, 1.0, 0.0, None, "2024-05-02T11:30:00+00:00".to_string()),
        Err(AppError::BadRequest("Shift ini sudah ditutup sebelumnya".to_string()))
    );
}
