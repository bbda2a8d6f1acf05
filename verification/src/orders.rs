use vstd::prelude::*;
use crate::clock::now_millis;
use crate::error::{AppError, ErrorKind};
use crate::inventory::stock_or_zero;
use crate::text::{decimal_text, format_i128, format_i64, join2, law_i64_text_roundtrip, spec_parse_i64};

verus! {

/// The query of the order listing: an optional branch (and status) filter.
#[derive(Clone, Debug, PartialEq, Eq)]
pub struct OrderFilterQuery {
    pub branch_id: Option<String>,
    pub status: Option<String>,
}

/// An order, as stored, with the name of its cashier. Amounts are of type
/// `M`: the library carries them but never computes with them.
#[derive(Clone, Debug, PartialEq)]
pub struct OrderRow<M> {
    pub id: String,
    pub order_number: String,
    pub branch_id: String,
    pub user_id: Option<String>,
    pub cashier_name: Option<String>,
    pub shift_id: Option<String>,
    pub voucher_id: Option<String>,
    pub buyer_name: Option<String>,
    pub subtotal: M,
    pub discount_amount: M,
    pub tax_amount: M,
    pub total: M,
    pub status: String,
    pub notes: Option<String>,
    pub manual_discount_type: Option<String>,
    pub manual_discount_value: Option<M>,
    pub manual_discount_note: Option<String>,
    pub created_at: String,
    pub updated_at: String,
}

/// One line of an order, as stored.
#[derive(Clone, Debug, PartialEq)]
pub struct OrderItemRow<M> {
    pub id: String,
    pub order_id: String,
    pub product_id: String,
    pub product_name: String,
    pub product_sku: Option<String>,
    pub unit_price: M,
    pub quantity: i64,
    pub discount_type: Option<String>,
    pub discount_value: Option<M>,
    pub discount_amount: M,
    pub subtotal: M,
    pub note: Option<String>,
}

/// One payment of an order, as stored.
#[derive(Clone, Debug, PartialEq)]
pub struct PaymentRow<M> {
    pub id: String,
    pub order_id: String,
    pub method: String,
    pub amount: M,
    pub cash_tendered: Option<M>,
    pub change_due: Option<M>,
    pub bank_name: Option<String>,
    pub reference_no: Option<String>,
    pub created_at: String,
}

/// One line of an order, as the API shows it.
#[derive(Clone, Debug, PartialEq)]
pub struct OrderItemDetail<M> {
    pub id: String,
    pub product_id: String,
    pub product_name: String,
    pub product_sku: Option<String>,
    pub unit_price: M,
    pub qty: i64,
    pub discount_type: Option<String>,
    pub discount_value: Option<M>,
    pub discount_amount: M,
    pub subtotal: M,
    pub item_note: Option<String>,
}

/// One payment of an order, as the API shows it.
#[derive(Clone, Debug, PartialEq)]
pub struct PaymentDetail<M> {
    pub id: String,
    pub method: String,
    pub amount: M,
    pub cash_tendered: Option<M>,
    pub change_due: Option<M>,
    pub bank_name: Option<String>,
    pub reference_no: Option<String>,
}

/// An order with its branch name, lines and payments, as the API shows it.
#[derive(Clone, Debug, PartialEq)]
pub struct OrderDetailResponse<M> {
    pub id: String,
    pub order_number: String,
    pub branch_id: String,
    pub branch_name: Option<String>,
    pub user_id: Option<String>,
    pub cashier_name: Option<String>,
    pub shift_id: Option<String>,
    pub voucher_id: Option<String>,
    pub buyer_name: Option<String>,
    pub subtotal: M,
    pub discount_amount: M,
    pub tax_amount: M,
    pub total: M,
    pub status: String,
    pub notes: Option<String>,
    pub manual_discount_type: Option<String>,
    pub manual_discount_value: Option<M>,
    pub manual_discount_note: Option<String>,
    pub created_at: String,
    pub items: Vec<OrderItemDetail<M>>,
    pub payments: Vec<PaymentDetail<M>>,
}

/// The API form of a stored order line.
pub open spec fn item_detail_of<M>(i: OrderItemRow<M>) -> OrderItemDetail<M> {
    OrderItemDetail {
        id: i.id,
        product_id: i.product_id,
        product_name: i.product_name,
        product_sku: i.product_sku,
        unit_price: i.unit_price,
        qty: i.quantity,
        discount_type: i.discount_type,
        discount_value: i.discount_value,
        discount_amount: i.discount_amount,
        subtotal: i.subtotal,
        item_note: i.note,
    }
}

/// The API form of a stored payment.
pub open spec fn payment_detail_of<M>(p: PaymentRow<M>) -> PaymentDetail<M> {
    PaymentDetail {
        id: p.id,
        method: p.method,
        amount: p.amount,
        cash_tendered: p.cash_tendered,
        change_due: p.change_due,
        bank_name: p.bank_name,
        reference_no: p.reference_no,
    }
}

impl<M> OrderItemDetail<M> {
    /// The API form of a stored order line.
    pub fn from_row(i: OrderItemRow<M>) -> (d: OrderItemDetail<M>)
        ensures
            d == item_detail_of(i),
            d.id == i.id,
            d.product_id == i.product_id,
            d.product_name == i.product_name,
            d.product_sku == i.product_sku,
            d.unit_price == i.unit_price,
            d.qty == i.quantity,
            d.discount_type == i.discount_type,
            d.discount_value == i.discount_value,
            d.discount_amount == i.discount_amount,
            d.subtotal == i.subtotal,
            d.item_note == i.note,
    {
        OrderItemDetail {
            id: i.id,
            product_id: i.product_id,
            product_name: i.product_name,
            product_sku: i.product_sku,
            unit_price: i.unit_price,
            qty: i.quantity,
            discount_type: i.discount_type,
            discount_value: i.discount_value,
            discount_amount: i.discount_amount,
            subtotal: i.subtotal,
            item_note: i.note,
        }
    }
}

impl<M> PaymentDetail<M> {
    /// The API form of a stored payment.
    pub fn from_row(p: PaymentRow<M>) -> (d: PaymentDetail<M>)
        ensures
            d == payment_detail_of(p),
            d.id == p.id,
            d.method == p.method,
            d.amount == p.amount,
            d.cash_tendered == p.cash_tendered,
            d.change_due == p.change_due,
            d.bank_name == p.bank_name,
            d.reference_no == p.reference_no,
    {
        PaymentDetail {
            id: p.id,
            method: p.method,
            amount: p.amount,
            cash_tendered: p.cash_tendered,
            change_due: p.change_due,
            bank_name: p.bank_name,
            reference_no: p.reference_no,
        }
    }
}

impl<M> OrderDetailResponse<M> {
    /// An order as the API shows it: the stored order with its branch name,
    /// and its lines and payments in the order they were read.
    pub fn assemble(
        row: OrderRow<M>,
        branch_name: Option<String>,
        items: Vec<OrderItemRow<M>>,
        payments: Vec<PaymentRow<M>>,
    ) -> (r: OrderDetailResponse<M>)
        ensures
            r.id == row.id,
            r.order_number == row.order_number,
            r.branch_id == row.branch_id,
            r.branch_name == branch_name,
            r.user_id == row.user_id,
            r.cashier_name == row.cashier_name,
            r.shift_id == row.shift_id,
            r.voucher_id == row.voucher_id,
            r.buyer_name == row.buyer_name,
            r.subtotal == row.subtotal,
            r.discount_amount == row.discount_amount,
            r.tax_amount == row.tax_amount,
            r.total == row.total,
            r.status == row.status,
            r.notes == row.notes,
            r.manual_discount_type == row.manual_discount_type,
            r.manual_discount_value == row.manual_discount_value,
            r.manual_discount_note == row.manual_discount_note,
            r.created_at == row.created_at,
            r.items@ == items@.map_values(|i: OrderItemRow<M>| item_detail_of(i)),
            r.payments@ == payments@.map_values(|p: PaymentRow<M>| payment_detail_of(p)),
            r.items@.len() == items@.len(),
            forall|k: int|
                0 <= k < items@.len() ==> {
                    let d = #[trigger] r.items@[k];
                    let i = items@[k];
                    &&& d.id == i.id
                    &&& d.product_id == i.product_id
                    &&& d.product_name == i.product_name
                    &&& d.product_sku == i.product_sku
                    &&& d.unit_price == i.unit_price
                    &&& d.qty == i.quantity
                    &&& d.discount_type == i.discount_type
                    &&& d.discount_value == i.discount_value
                    &&& d.discount_amount == i.discount_amount
                    &&& d.subtotal == i.subtotal
                    &&& d.item_note == i.note
                },
            r.payments@.len() == payments@.len(),
            forall|k: int|
                0 <= k < payments@.len() ==> {
                    let d = #[trigger] r.payments@[k];
                    let p = payments@[k];
                    &&& d.id == p.id
                    &&& d.method == p.method
                    &&& d.amount == p.amount
                    &&& d.cash_tendered == p.cash_tendered
                    &&& d.change_due == p.change_due
                    &&& d.bank_name == p.bank_name
                    &&& d.reference_no == p.reference_no
                },
    {
        let ghost item_rows = items@;
        let mut details: Vec<OrderItemDetail<M>> = Vec::new();
        let mut rest = items;
        while rest.len() > 0
            invariant
                details@ + rest@.map_values(|i: OrderItemRow<M>| item_detail_of(i)) == item_rows.map_values(
                    |i: OrderItemRow<M>| item_detail_of(i),
                ),
            decreases rest.len(),
        {
            let ghost before = rest@;
            let i = rest.remove(0);
            assert(before.map_values(|i: OrderItemRow<M>| item_detail_of(i)) =~= seq![item_detail_of(i)]
                + rest@.map_values(|i: OrderItemRow<M>| item_detail_of(i)));
            details.push(OrderItemDetail::from_row(i));
        }
        let ghost payment_rows = payments@;
        let mut paid: Vec<PaymentDetail<M>> = Vec::new();
        let mut rest_p = payments;
        while rest_p.len() > 0
            invariant
                paid@ + rest_p@.map_values(|p: PaymentRow<M>| payment_detail_of(p)) == payment_rows.map_values(
                    |p: PaymentRow<M>| payment_detail_of(p),
                ),
            decreases rest_p.len(),
        {
            let ghost before = rest_p@;
            let p = rest_p.remove(0);
            assert(before.map_values(|p: PaymentRow<M>| payment_detail_of(p)) =~= seq![payment_detail_of(p)]
                + rest_p@.map_values(|p: PaymentRow<M>| payment_detail_of(p)));
            paid.push(PaymentDetail::from_row(p));
        }
        assert(details@ =~= item_rows.map_values(|i: OrderItemRow<M>| item_detail_of(i)));
        assert(paid@ =~= payment_rows.map_values(|p: PaymentRow<M>| payment_detail_of(p)));
        OrderDetailResponse {
            id: row.id,
            order_number: row.order_number,
            branch_id: row.branch_id,
            branch_name,
            user_id: row.user_id,
            cashier_name: row.cashier_name,
            shift_id: row.shift_id,
            voucher_id: row.voucher_id,
            buyer_name: row.buyer_name,
            subtotal: row.subtotal,
            discount_amount: row.discount_amount,
            tax_amount: row.tax_amount,
            total: row.total,
            status: row.status,
            notes: row.notes,
            manual_discount_type: row.manual_discount_type,
            manual_discount_value: row.manual_discount_value,
            manual_discount_note: row.manual_discount_note,
            created_at: row.created_at,
            items: details,
            payments: paid,
        }
    }
}

/// A stored order line is shown with each stored field carried into the
/// field of the same meaning: the price per unit stays the price per unit,
/// the line total stays the line total, and so on.
pub proof fn law_line_detail_carries_fields<M>(i: OrderItemRow<M>)
    ensures
        ({
            let d = item_detail_of(i);
            &&& d.id == i.id
            &&& d.product_id == i.product_id
            &&& d.product_name == i.product_name
            &&& d.product_sku == i.product_sku
            &&& d.unit_price == i.unit_price
            &&& d.qty == i.quantity
            &&& d.discount_type == i.discount_type
            &&& d.discount_value == i.discount_value
            &&& d.discount_amount == i.discount_amount
            &&& d.subtotal == i.subtotal
            &&& d.item_note == i.note
        }),
{
}

/// A stored payment is shown with each stored field carried into the field
/// of the same meaning.
pub proof fn law_payment_detail_carries_fields<M>(p: PaymentRow<M>)
    ensures
        ({
            let d = payment_detail_of(p);
            &&& d.id == p.id
            &&& d.method == p.method
            &&& d.amount == p.amount
            &&& d.cash_tendered == p.cash_tendered
            &&& d.change_due == p.change_due
            &&& d.bank_name == p.bank_name
            &&& d.reference_no == p.reference_no
        }),
{
}

/// How a discount is measured.
#[derive(Clone, Copy, Debug, PartialEq, Eq, Structural)]
pub enum DiscountKind {
    /// A percentage of the amount it applies to.
    Percentage,
    /// A fixed amount.
    Fixed,
}

/// Refuses a checkout whose cart is empty.
pub fn require_items<T>(items: &Vec<T>) -> (r: Result<(), AppError>)
    ensures
        items@.len() > 0 <==> r is Ok,
        r matches Err(e) ==> e@ == (ErrorKind::BadRequest, "Keranjang belanja kosong"@),
{
    if items.len() == 0 {
        Err(AppError::from_text(ErrorKind::BadRequest, "Keranjang belanja kosong"))
    } else {
        Ok(())
    }
}

/// The product a cart line names, or a refusal naming the missing id.
pub fn require_product<T>(product: Option<T>, product_id: &str) -> (r: Result<T, AppError>)
    ensures
        match product {
            Some(p) => r == Ok::<T, AppError>(p),
            None => r matches Err(e) && e@ == (
                ErrorKind::BadRequest,
                "Produk id "@ + product_id@ + " tidak ditemukan"@,
            ),
        },
{
    match product {
        Some(p) => Ok(p),
        None => {
            let mut m = join2("Produk id ", product_id);
            m.append(" tidak ditemukan");
            Err(AppError::BadRequest(m))
        },
    }
}

/// The message refusing a cart line for want of stock.
pub open spec fn short_stock_text(product_name: Seq<char>, available: int, requested: int) -> Seq<char> {
    "Stok produk '"@ + product_name + "' tidak mencukupi (tersedia: "@ + decimal_text(available)
        + ", diminta: "@ + decimal_text(requested) + ")"@
}

/// Checks one cart line against stock. A product whose stock is tracked
/// needs at least the requested quantity in the branch (no balance counts
/// as 0); an untracked product always passes.
pub fn check_item_stock(product_name: &str, track_stock: bool, available: Option<i64>, requested: i64) -> (r: Result<(), AppError>)
    ensures
        ({
            let avail = match available {
                Some(q) => q as int,
                None => 0int,
            };
            &&& (r is Ok <==> (!track_stock || avail >= requested))
            &&& r matches Err(e) ==> e@ == (
                ErrorKind::BadRequest,
                short_stock_text(product_name@, avail, requested as int),
            )
        }),
{
    if !track_stock {
        return Ok(());
    }
    let avail: i64 = match available {
        Some(q) => q,
        None => 0,
    };
    if avail < requested {
        Err(short_stock_error(product_name, avail, requested as i128))
    } else {
        Ok(())
    }
}

/// The refusal of a cart for want of stock of one product.
fn short_stock_error(product_name: &str, available: i64, requested: i128) -> (e: AppError)
    ensures
        e@ == (ErrorKind::BadRequest, short_stock_text(product_name@, available as int, requested as int)),
{
    let mut m = join2("Stok produk '", product_name);
    m.append("' tidak mencukupi (tersedia: ");
    let a = format_i64(available);
    m.append(a.as_str());
    m.append(", diminta: ");
    let q = format_i128(requested);
    m.append(q.as_str());
    m.append(")");
    AppError::BadRequest(m)
}

/// The quantity a cart asks of one product: the sum of the quantities of
/// the cart lines (product id, quantity) that name it.
pub open spec fn requested_of(lines: Seq<(String, i64)>, product_id: Seq<char>) -> int
    decreases lines.len(),
{
    if lines.len() == 0 {
        0
    } else {
        requested_of(lines.drop_last(), product_id) + if lines.last().0@ == product_id {
            lines.last().1 as int
        } else {
            0
        }
    }
}

/// Adds up the quantities a cart asks of one product over all its lines.
pub fn total_requested(lines: &Vec<(String, i64)>, product_id: &String) -> (t: i128)
    ensures
        t == requested_of(lines@, product_id@),
{
    let mut t: i128 = 0;
    let mut i: usize = 0;
    while i < lines.len()
        invariant
            i <= lines@.len(),
            t == requested_of(lines@.subrange(0, i as int), product_id@),
            -(i as int) * 0x8000_0000_0000_0000 <= t <= (i as int) * 0x8000_0000_0000_0000,
        decreases lines@.len() - i,
    {
        assert(lines@.subrange(0, i + 1).drop_last() =~= lines@.subrange(0, i as int));
        if lines[i].0 == *product_id {
            t = t + lines[i].1 as i128;
        }
        i = i + 1;
    }
    assert(lines@.subrange(0, i as int) =~= lines@);
    t
}

/// Whether line `k` of the cart names the product and on its own asks more
/// than `available`.
pub open spec fn line_short(lines: Seq<(String, i64)>, product_id: Seq<char>, available: int, k: int) -> bool {
    0 <= k < lines.len() && lines[k].0@ == product_id && lines[k].1 > available
}

/// Whether line `k` is the first line of the cart that on its own asks more
/// of the product than `available`.
pub open spec fn first_short_line(lines: Seq<(String, i64)>, product_id: Seq<char>, available: int, k: int) -> bool {
    &&& line_short(lines, product_id, available, k)
    &&& forall|j: int| 0 <= j < k ==> !line_short(lines, product_id, available, j)
}

/// Checks a product against stock for the whole cart. A product whose stock
/// is tracked (no balance counts as 0) is refused when one of its lines on
/// its own asks more than the stock, naming the first such line's quantity,
/// and otherwise when all its lines together ask more, naming their total.
/// An untracked product always passes.
pub fn check_cart_stock(
    product_name: &str,
    track_stock: bool,
    available: Option<i64>,
    lines: &Vec<(String, i64)>,
    product_id: &String,
) -> (r: Result<(), AppError>)
    ensures
        ({
            let avail = stock_or_zero(available) as int;
            let wanted = requested_of(lines@, product_id@);
            let no_short_line = forall|k: int| !#[trigger] line_short(lines@, product_id@, avail, k);
            &&& (r is Ok <==> (!track_stock || (no_short_line && avail >= wanted)))
            &&& forall|k: int|
                track_stock && #[trigger] first_short_line(lines@, product_id@, avail, k) ==> (r matches Err(
                    e,
                ) && e@ == (
                    ErrorKind::BadRequest,
                    short_stock_text(product_name@, avail, lines@[k].1 as int),
                ))
            &&& (track_stock && no_short_line && avail < wanted) ==> (r matches Err(e) && e@ == (
                ErrorKind::BadRequest,
                short_stock_text(product_name@, avail, wanted),
            ))
        }),
{
    if !track_stock {
        return Ok(());
    }
    let avail: i64 = match available {
        Some(q) => q,
        None => 0,
    };
    let ghost a: int = avail as int;
    let mut i: usize = 0;
    while i < lines.len()
        invariant
            i <= lines@.len(),
            a == stock_or_zero(available) as int,
            a == avail as int,
            track_stock,
            forall|j: int| 0 <= j < i ==> !#[trigger] line_short(lines@, product_id@, a, j),
        decreases lines@.len() - i,
    {
        let same: bool = lines[i].0 == *product_id;
        let q: i64 = lines[i].1;
        if same && q > avail {
            let e = short_stock_error(product_name, avail, q as i128);
            proof {
                // line `i` is the first short line, and no other line is
                assert(line_short(lines@, product_id@, a, i as int));
                assert forall|k: int| #[trigger] first_short_line(lines@, product_id@, a, k) implies e@
                    == (ErrorKind::BadRequest, short_stock_text(product_name@, a, lines@[k].1 as int)) by {
                    if k > i {
                        assert(!line_short(lines@, product_id@, a, i as int));
                    }
                }
            }
            return Err(e);
        }
        proof {
            assert(!line_short(lines@, product_id@, a, i as int));
        }
        i = i + 1;
    }
    proof {
        assert forall|k: int| !#[trigger] line_short(lines@, product_id@, a, k) by {
            if 0 <= k < lines@.len() {
                assert(!line_short(lines@, product_id@, a, k));
            }
        }
    }
    let wanted = total_requested(lines, product_id);
    if (avail as i128) < wanted {
        Err(short_stock_error(product_name, avail, wanted))
    } else {
        Ok(())
    }
}

/// Whether every line of the cart that names the product asks a quantity
/// of at least zero.
pub open spec fn quantities_non_negative(lines: Seq<(String, i64)>, product_id: Seq<char>) -> bool {
    forall|k: int| 0 <= k < lines.len() && (#[trigger] lines[k]).0@ == product_id ==> lines[k].1 >= 0
}

/// A cart whose product passed `check_cart_stock` can have its lines
/// deducted one after another from the balance it was checked against
/// without the balance ever going below zero: after the first `n` lines the
/// balance is the checked one less what those lines asked, and at the end it
/// is the checked one less the whole quantity.
pub proof fn law_accepted_cart_keeps_stock(available: Option<i64>, lines: Seq<(String, i64)>, product_id: Seq<char>, n: int)
    requires
        stock_or_zero(available) >= requested_of(lines, product_id),
        quantities_non_negative(lines, product_id),
        0 <= n <= lines.len(),
    ensures
        stock_or_zero(available) - requested_of(lines.subrange(0, n), product_id) >= 0,
        stock_or_zero(available) - requested_of(lines.subrange(0, n), product_id)
            >= stock_or_zero(available) - requested_of(lines, product_id),
    decreases lines.len() - n,
{
    if n < lines.len() {
        law_accepted_cart_keeps_stock(available, lines, product_id, n + 1);
        assert(lines.subrange(0, n + 1).drop_last() =~= lines.subrange(0, n));
        assert(lines.subrange(0, n + 1).last() == lines[n]);
    } else {
        assert(lines.subrange(0, n) =~= lines);
    }
}

/// A cart line that passed the stock check leaves its balance non-negative
/// when it is deducted from the same balance it was checked against.
pub proof fn law_accepted_line_keeps_stock(available: Option<i64>, requested: i64)
    requires
        stock_or_zero(available) >= requested,
    ensures
        stock_or_zero(available) - requested >= 0,
{
}

/// The order number derived from a time in milliseconds: `ORD-<millis>`.
pub fn format_order_number(millis: i64) -> (n: String)
    ensures
        n@ == "ORD-"@ + decimal_text(millis as int),
{
    let digits = format_i64(millis);
    join2("ORD-", digits.as_str())
}

/// Two different times give two different order numbers: the text after
/// `ORD-` reads back as the time it was made from.
pub proof fn law_order_numbers_differ(a: i64, b: i64)
    requires
        a != b,
    ensures
        "ORD-"@ + decimal_text(a as int) != "ORD-"@ + decimal_text(b as int),
        spec_parse_i64(("ORD-"@ + decimal_text(a as int)).skip(4)) == Some(a),
{
    reveal_strlit("ORD-");
    law_i64_text_roundtrip(a);
    law_i64_text_roundtrip(b);
    assert(("ORD-"@ + decimal_text(a as int)).skip(4) =~= decimal_text(a as int));
    assert(("ORD-"@ + decimal_text(b as int)).skip(4) =~= decimal_text(b as int));
}

/// The number of a new order: the one the cashier gave, or one derived from
/// the current time.
pub fn order_number_or_default(given: Option<String>) -> (n: String)
    ensures
        given matches Some(g) ==> n == g,
        given is None ==> exists|ms: i64| n@ == "ORD-"@ + decimal_text(ms as int),
{
    match given {
        Some(g) => g,
        None => {
            let ms = now_millis();
            format_order_number(ms)
        },
    }
}

/// How a manual discount is measured: `PERCENTAGE` or `percent` mean a
/// percentage, anything else a fixed amount.
pub fn manual_discount_kind(discount_type: &String) -> (k: DiscountKind)
    ensures
        k == (if discount_type@ == "PERCENTAGE"@ || discount_type@ == "percent"@ {
            DiscountKind::Percentage
        } else {
            DiscountKind::Fixed
        }),
{
    if *discount_type == String::from_str("PERCENTAGE") || *discount_type == String::from_str("percent") {
        DiscountKind::Percentage
    } else {
        DiscountKind::Fixed
    }
}

/// How a voucher's discount is measured: `PERCENTAGE` means a percentage,
/// anything else a fixed amount.
pub fn voucher_discount_kind(discount_type: &String) -> (k: DiscountKind)
    ensures
        k == (if discount_type@ == "PERCENTAGE"@ {
            DiscountKind::Percentage
        } else {
            DiscountKind::Fixed
        }),
{
    if *discount_type == String::from_str("PERCENTAGE") {
        DiscountKind::Percentage
    } else {
        DiscountKind::Fixed
    }
}

/// The payments an order records: the list when one is given (a split
/// payment), else the single payment when given, else none.
pub fn select_payments<T>(payments: Option<Vec<T>>, payment: Option<T>) -> (r: Vec<T>)
    ensures
        match payments {
            Some(ps) => r@ == ps@,
            None => match payment {
                Some(p) => r@ == seq![p],
                None => r@.len() == 0,
            },
        },
{
    match payments {
        Some(ps) => ps,
        None => {
            let mut r: Vec<T> = Vec::new();
            match payment {
                Some(p) => {
                    r.push(p);
                },
                None => {},
            }
            r
        },
    }
}

} // verus!
