use lions_pos::catalog::{Category, CreateCategoryRequest};
use lions_pos::error::AppError;
use lions_pos::inventory::sale_movement;
use lions_pos::orders::{check_cart_stock, check_item_stock, total_requested};
use lions_pos::seed::{seed_primary_photo, seed_stock_balance};
use lions_pos::shifts::{ensure_no_open_shift, CashierShift, OpenShiftRequest};

fn cart(lines: &[(&str, i64)]) -> Vec<(String, i64)> {
    lines.iter().map(|(p, q)| (p.to_string(), *q)).collect()
}

#[test]
fn cart_total_adds_every_line_of_the_product() {
    let lines = cart(&[("kopi", 2), ("teh", 7), ("kopi", 3)]);
    assert_eq!(total_requested(&lines, &"kopi".to_string()), 5);
    assert_eq!(total_requested(&lines, &"teh".to_string()), 7);
    assert_eq!(total_requested(&lines, &"roti".to_string()), 0);
    assert_eq!(total_requested(&Vec::new(), &"kopi".to_string()), 0);
}

#[test]
fn two_lines_of_one_product_are_checked_together() {
    let lines = cart(&[("kopi", 3), ("kopi", 3)]);
    // each line alone fits the stock of 5 ...
    assert!(check_item_stock("Kopi Susu", true, Some(5), 3).is_ok());
    // ... but the cart asks 6 of it
    assert_eq!(
        check_cart_stock("Kopi Susu", true, Some(5), &lines, &"kopi".to_string()),
        Err(AppError::BadRequest("Stok produk 'Kopi Susu' tidak mencukupi (tersedia: 5, diminta: 6)".to_string()))
    );
    assert_eq!(check_cart_stock("Kopi Susu", true, Some(6), &lines, &"kopi".to_string()), Ok(()));
    assert_eq!(check_cart_stock("Kopi Susu", false, Some(0), &lines, &"kopi".to_string()), Ok(()));
    assert_eq!(
        check_cart_stock("Kopi Susu", true, None, &lines, &"kopi".to_string()),
        Err(AppError::BadRequest("Stok produk 'Kopi Susu' tidak mencukupi (tersedia: 0, diminta: 3)".to_string()))
    );
}

#[test]
fn a_single_line_over_the_stock_is_refused_with_its_own_quantity() {
    let lines = cart(&[("kopi", 10), ("kopi", -5)]);
    assert_eq!(total_requested(&lines, &"kopi".to_string()), 5);
    assert_eq!(
        check_cart_stock("Kopi", true, Some(7), &lines, &"kopi".to_string()),
        Err(AppError::BadRequest("Stok produk 'Kopi' tidak mencukupi (tersedia: 7, diminta: 10)".to_string()))
    );
    let later = cart(&[("teh", 1), ("kopi", 2), ("kopi", 9), ("kopi", 8)]);
    assert_eq!(
        check_cart_stock("Kopi", true, Some(7), &later, &"kopi".to_string()),
        Err(AppError::BadRequest("Stok produk 'Kopi' tidak mencukupi (tersedia: 7, diminta: 9)".to_string()))
    );
    assert_eq!(check_cart_stock("Kopi", false, Some(7), &lines, &"kopi".to_string()), Ok(()));
}

#[test]
fn cart_total_beyond_i64_is_written_in_full() {
    let lines = cart(&[("kopi", i64::MAX), ("kopi", i64::MAX)]);
    assert_eq!(total_requested(&lines, &"kopi".to_string()), 2 * (i64::MAX as i128));
    assert_eq!(
        check_cart_stock("Kopi", true, Some(i64::MAX), &lines, &"kopi".to_string()),
        Err(AppError::BadRequest(
            "Stok produk 'Kopi' tidak mencukupi (tersedia: 9223372036854775807, diminta: 18446744073709551614)".to_string()
        ))
    );
}

#[test]
fn accepted_cart_never_drives_stock_negative() {
    let lines = cart(&[("kopi", 2), ("teh", 9), ("kopi", 3), ("kopi", 0)]);
    let product = "kopi".to_string();
    let now = "2024-05-01T10:00:00+00:00".to_string();
    assert!(check_cart_stock("Kopi", true, Some(5), &lines, &product).is_ok());
    let mut balance = Some(5i64);
    for (pid, qty) in &lines {
        if *pid == product {
            let sale = sale_movement(&"branch-main".to_string(), &product, &"ORD-1".to_string(), balance, *qty, &now);
            assert!(sale.new_quantity >= 0);
            balance = Some(sale.new_quantity);
        }
    }
    assert_eq!(balance, Some(0));
}

#[test]
fn one_open_shift_per_cashier_and_branch() {
    let open = |branch: &str| {
        CashierShift::open(
            "user-admin".to_string(),
            OpenShiftRequest { branch_id: branch.to_string(), starting_cash: 50000.0, notes: None },
        )
    };
    let mut table: Vec<CashierShift<f64>> = Vec::new();
    let lookup = |table: &Vec<CashierShift<f64>>, branch: &str| {
        table
            .iter()
            .find(|s| s.user_id == "user-admin" && s.branch_id == branch && s.status == "OPEN")
            .map(|s| s.id.clone())
    };
    assert_eq!(ensure_no_open_shift(lookup(&table, "branch-main")), Ok(()));
    table.push(open("branch-main"));
    assert_eq!(
        ensure_no_open_shift(lookup(&table, "branch-main")),
        Err(AppError::BadRequest("Anda masih memiliki shift aktif di cabang ini".to_string()))
    );
    assert_eq!(ensure_no_open_shift(lookup(&table, "branch-dua")), Ok(()));
    let closed = table[0].clone().close(50000.0, 50000.0, 0.0, None, "2024-05-01T18:00:00+00:00".to_string()).unwrap();
    table[0] = closed;
    assert_eq!(ensure_no_open_shift(lookup(&table, "branch-main")), Ok(()));
}

#[test]
fn records_are_stamped_with_a_utc_time() {
    let c = Category::create(CreateCategoryRequest {
        name: "Roti".to_string(),
        slug: None,
        icon: None,
        is_active: None,
    });
    assert!(c.created_at.ends_with("+00:00"));
    assert!(c.created_at.contains('T'));
    assert_eq!(c.created_at, c.updated_at);
}

#[test]
fn sample_photo_and_stock_rows() {
    let now = "2024-05-01T10:00:00+00:00".to_string();
    let p = seed_primary_photo("prod-kopi", "/uploads/products/kopi.jpg", &now);
    assert_eq!(p.product_id, "prod-kopi");
    assert_eq!(p.url, "/uploads/products/kopi.jpg");
    assert!(p.is_primary);
    assert_eq!(p.sort_order, 0);
    assert_eq!(p.created_at, now);
    assert_eq!(p.id.len(), 36);
    let b = seed_stock_balance(&"branch-main".to_string(), "prod-kopi", 120, &now);
    assert_eq!(b.branch_id, "branch-main");
    assert_eq!(b.product_id, "prod-kopi");
    assert_eq!(b.quantity, 120);
    assert_eq!(b.min_stock, 5);
    assert_eq!(b.updated_at, now);
    assert_ne!(b.id, p.id);
}
