use vstd::prelude::*;
use crate::catalog::{or_keep, or_keep_opt};
use crate::clock::{is_utc_rfc3339_text, now_rfc3339};
use crate::ids::{is_uuid_v4_text, new_id};

verus! {

/// A shop branch, as stored.
#[derive(Clone, Debug, PartialEq, Eq)]
pub struct Branch {
    pub id: String,
    pub name: String,
    pub code: String,
    pub address: Option<String>,
    pub phone: Option<String>,
    pub is_active: bool,
    pub created_at: String,
    pub updated_at: String,
}

/// The body of a request that creates a branch.
#[derive(Clone, Debug, PartialEq, Eq)]
pub struct CreateBranchRequest {
    pub name: String,
    pub code: String,
    pub address: Option<String>,
    pub phone: Option<String>,
    pub is_active: Option<bool>,
}

/// The body of a request that changes a branch; absent fields stay.
#[derive(Clone, Debug, PartialEq, Eq)]
pub struct UpdateBranchRequest {
    pub name: Option<String>,
    pub code: Option<String>,
    pub address: Option<String>,
    pub phone: Option<String>,
    pub is_active: Option<bool>,
}

/// A warehouse, possibly attached to a branch.
#[derive(Clone, Debug, PartialEq, Eq)]
pub struct Warehouse {
    pub id: String,
    pub branch_id: Option<String>,
    pub name: String,
    pub code: String,
    pub is_active: bool,
    pub created_at: String,
    pub updated_at: String,
}

/// The body of a request that creates a warehouse.
#[derive(Clone, Debug, PartialEq, Eq)]
pub struct CreateWarehouseRequest {
    pub branch_id: Option<String>,
    pub name: String,
    pub code: String,
    pub is_active: Option<bool>,
}

/// How many units of a product a branch holds, and the level below which
/// stock counts as low.
#[derive(Clone, Debug, PartialEq, Eq)]
pub struct StockBalance {
    pub id: String,
    pub branch_id: String,
    pub product_id: String,
    pub quantity: i64,
    pub min_stock: i64,
    pub updated_at: String,
}

/// A stock balance with the name and SKU of its product.
#[derive(Clone, Debug, PartialEq, Eq)]
pub struct StockBalanceResponse {
    pub id: String,
    pub branch_id: String,
    pub product_id: String,
    pub product_name: Option<String>,
    pub product_sku: Option<String>,
    pub quantity: i64,
    pub min_stock: i64,
    pub updated_at: String,
}

/// The body of a request that sets the stock of a product in a branch.
#[derive(Clone, Debug, PartialEq, Eq)]
pub struct UpdateStockRequest {
    pub branch_id: String,
    pub product_id: String,
    pub quantity: i64,
    pub min_stock: Option<i64>,
}

/// One recorded movement of stock.
#[derive(Clone, Debug, PartialEq, Eq)]
pub struct StockMutation {
    pub id: String,
    pub branch_id: String,
    pub product_id: String,
    /// `SALE`, `IN` or `OUT` (also `PURCHASE`, `ADJUSTMENT`, `TRANSFER_IN`,
    /// `TRANSFER_OUT` in stored data).
    pub mutation_type: String,
    pub quantity: i64,
    pub balance_before: i64,
    pub balance_after: i64,
    pub reference_no: Option<String>,
    pub notes: Option<String>,
    pub created_at: String,
}

/// The query of the stock listings: an optional branch to restrict to.
#[derive(Clone, Debug, PartialEq, Eq)]
pub struct StockQuery {
    pub branch_id: Option<String>,
}

/// The branch that an update request makes of a stored one, when the
/// update happens at time `at`.
pub open spec fn branch_after_update(stored: Branch, req: UpdateBranchRequest, at: String) -> Branch {
    Branch {
        id: stored.id,
        name: or_keep(req.name, stored.name),
        code: or_keep(req.code, stored.code),
        address: or_keep_opt(req.address, stored.address),
        phone: or_keep_opt(req.phone, stored.phone),
        is_active: or_keep(req.is_active, stored.is_active),
        created_at: stored.created_at,
        updated_at: at,
    }
}

/// An update that gives no field changes nothing but the update time.
pub proof fn law_empty_branch_update(stored: Branch, at: String)
    ensures
        branch_after_update(
            stored,
            UpdateBranchRequest { name: None, code: None, address: None, phone: None, is_active: None },
            at,
        ) == (Branch { updated_at: at, ..stored }),
{
}

/// Applying the same update twice has the effect of applying it once.
pub proof fn law_branch_update_idempotent(stored: Branch, req: UpdateBranchRequest, first: String, second: String)
    ensures
        branch_after_update(branch_after_update(stored, req, first), req, second)
            == branch_after_update(stored, req, second),
{
}

impl Branch {
    /// A new branch: a fresh id, the requested fields, active unless told
    /// otherwise, created and updated at the same moment.
    pub fn create(req: CreateBranchRequest) -> (b: Branch)
        ensures
            is_uuid_v4_text(b.id@),
            b.name == req.name,
            b.code == req.code,
            b.address == req.address,
            b.phone == req.phone,
            b.is_active == or_keep(req.is_active, true),
            b.created_at == b.updated_at,
            is_utc_rfc3339_text(b.created_at@),
    {
        let now = now_rfc3339();
        Branch {
            id: new_id(),
            name: req.name,
            code: req.code,
            address: req.address,
            phone: req.phone,
            is_active: match req.is_active {
                Some(b) => b,
                None => true,
            },
            created_at: now.clone(),
            updated_at: now,
        }
    }

    /// The branch after an update made at time `now`: each field the request
    /// gives replaces the stored one, the others stay; the id and creation
    /// time never change and the update time becomes `now`.
    pub fn apply_update(self, req: UpdateBranchRequest, now: String) -> (b: Branch)
        ensures
            b == branch_after_update(self, req, now),
            req.name matches Some(x) ==> b.name == x,
            req.name is None ==> b.name == self.name,
            req.code matches Some(x) ==> b.code == x,
            req.code is None ==> b.code == self.code,
            req.address matches Some(x) ==> b.address == Some(x),
            req.address is None ==> b.address == self.address,
            req.phone matches Some(x) ==> b.phone == Some(x),
            req.phone is None ==> b.phone == self.phone,
            req.is_active matches Some(x) ==> b.is_active == x,
            req.is_active is None ==> b.is_active == self.is_active,
            b.id == self.id,
            b.created_at == self.created_at,
            b.updated_at == now,
    {
        Branch {
            id: self.id,
            name: match req.name {
                Some(v) => v,
                None => self.name,
            },
            code: match req.code {
                Some(v) => v,
                None => self.code,
            },
            address: match req.address {
                Some(v) => Some(v),
                None => self.address,
            },
            phone: match req.phone {
                Some(v) => Some(v),
                None => self.phone,
            },
            is_active: match req.is_active {
                Some(v) => v,
                None => self.is_active,
            },
            created_at: self.created_at,
            updated_at: now,
        }
    }
}

impl Warehouse {
    /// A new warehouse: a fresh id, the requested fields, active unless
    /// told otherwise, created and updated at the same moment.
    pub fn create(req: CreateWarehouseRequest) -> (w: Warehouse)
        ensures
            is_uuid_v4_text(w.id@),
            w.branch_id == req.branch_id,
            w.name == req.name,
            w.code == req.code,
            w.is_active == or_keep(req.is_active, true),
            w.created_at == w.updated_at,
            is_utc_rfc3339_text(w.created_at@),
    {
        let now = now_rfc3339();
        Warehouse {
            id: new_id(),
            branch_id: req.branch_id,
            name: req.name,
            code: req.code,
            is_active: match req.is_active {
                Some(b) => b,
                None => true,
            },
            created_at: now.clone(),
            updated_at: now,
        }
    }
}

// ---------------------------------------------------------------------------
// Stock movements
// ---------------------------------------------------------------------------

/// The signed change a mutation records: positive for stock coming in,
/// negative for stock going out or sold.
pub open spec fn signed_change(m: StockMutation) -> int {
    if m.mutation_type@ == "IN"@ {
        m.quantity as int
    } else {
        -(m.quantity as int)
    }
}

/// A mutation is consistent when the change it records leads from the
/// balance before to the balance after.
pub open spec fn mutation_consistent(m: StockMutation) -> bool {
    m.balance_before + signed_change(m) == m.balance_after
}

/// The result of a manual stock adjustment: the balance to write (a new row
/// when `is_new`), and the movement it records.
#[derive(Clone, Debug, PartialEq, Eq)]
pub struct StockAdjustment {
    pub balance: StockBalance,
    pub is_new: bool,
    pub mutation: StockMutation,
}

/// The stock a branch held before an adjustment: the stored quantity, or 0
/// when there is no balance yet.
pub open spec fn quantity_before(existing: Option<(String, i64)>) -> i64 {
    match existing {
        Some(e) => e.1,
        None => 0,
    }
}

/// Sets the stock of a product in a branch. `existing` is the id and
/// quantity of the stored balance, if any. The balance gets the requested
/// quantity and minimum (5 when none is given); the movement records the
/// difference to the previous quantity as `IN` (when it did not fall) or
/// `OUT`, by its size, tagged as a manual adjustment.
pub fn plan_stock_adjustment(req: UpdateStockRequest, existing: Option<(String, i64)>) -> (r: StockAdjustment)
    requires
        i64::MIN < req.quantity - quantity_before(existing) <= i64::MAX,
    ensures
        ({
            let before = quantity_before(existing);
            let diff = req.quantity - before;
            &&& r.is_new == existing is None
            &&& match existing {
                Some(e) => r.balance.id == e.0,
                None => is_uuid_v4_text(r.balance.id@),
            }
            &&& r.balance.branch_id == req.branch_id
            &&& r.balance.product_id == req.product_id
            &&& r.balance.quantity == req.quantity
            &&& r.balance.min_stock == or_keep(req.min_stock, 5i64)
            &&& is_uuid_v4_text(r.mutation.id@)
            &&& r.mutation.branch_id == req.branch_id
            &&& r.mutation.product_id == req.product_id
            &&& r.mutation.mutation_type@ == (if diff >= 0 { "IN"@ } else { "OUT"@ })
            &&& r.mutation.quantity == (if diff >= 0 { diff } else { -diff })
            &&& r.mutation.balance_before == before
            &&& r.mutation.balance_after == req.quantity
            &&& r.mutation.reference_no matches Some(t) && t@ == "MANUAL_ADJUST"@
            &&& r.mutation.notes matches Some(t) && t@ == "Penyesuaian stok manual"@
            &&& r.mutation.created_at == r.balance.updated_at
            &&& is_utc_rfc3339_text(r.balance.updated_at@)
            &&& mutation_consistent(r.mutation)
        }),
{
    let now = now_rfc3339();
    let min_stock: i64 = match req.min_stock {
        Some(m) => m,
        None => 5,
    };
    let (stock_id, old_qty, is_new) = match existing {
        Some((id, qty)) => (id, qty, false),
        None => (new_id(), 0i64, true),
    };
    let diff: i64 = req.quantity - old_qty;
    let mutation_type = if diff >= 0 { String::from_str("IN") } else { String::from_str("OUT") };
    let size: i64 = if diff >= 0 { diff } else { -diff };
    proof {
        reveal_strlit("IN");
        reveal_strlit("OUT");
        assert("OUT"@.len() != "IN"@.len());
    }
    let mutation = StockMutation {
        id: new_id(),
        branch_id: req.branch_id.clone(),
        product_id: req.product_id.clone(),
        mutation_type,
        quantity: size,
        balance_before: old_qty,
        balance_after: req.quantity,
        reference_no: Some(String::from_str("MANUAL_ADJUST")),
        notes: Some(String::from_str("Penyesuaian stok manual")),
        created_at: now.clone(),
    };
    let balance = StockBalance {
        id: stock_id,
        branch_id: req.branch_id,
        product_id: req.product_id,
        quantity: req.quantity,
        min_stock,
        updated_at: now,
    };
    StockAdjustment { balance, is_new, mutation }
}

/// The balance and recorded movement of one sold item.
#[derive(Clone, Debug, PartialEq, Eq)]
pub struct SaleMovement {
    pub new_quantity: i64,
    pub mutation: StockMutation,
}

/// The stock stored before a sale: the balance's quantity, or 0 when the
/// branch has no balance for the product.
pub open spec fn stock_or_zero(current: Option<i64>) -> i64 {
    match current {
        Some(q) => q,
        None => 0,
    }
}

/// Deducts a sold quantity from the stock of a tracked product: the new
/// quantity is the old one less the quantity sold, and the movement records
/// the sale (`SALE`, by the quantity sold) against the order number.
pub fn sale_movement(
    branch_id: &String,
    product_id: &String,
    order_number: &String,
    current: Option<i64>,
    qty: i64,
    now: &String,
) -> (r: SaleMovement)
    requires
        i64::MIN <= stock_or_zero(current) - qty <= i64::MAX,
    ensures
        r.new_quantity == stock_or_zero(current) - qty,
        is_uuid_v4_text(r.mutation.id@),
        r.mutation.branch_id == *branch_id,
        r.mutation.product_id == *product_id,
        r.mutation.mutation_type@ == "SALE"@,
        r.mutation.quantity == qty,
        r.mutation.balance_before == stock_or_zero(current),
        r.mutation.balance_after == r.new_quantity,
        r.mutation.reference_no == Some(*order_number),
        r.mutation.notes matches Some(t) && t@ == "Penjualan Kasir POS"@,
        r.mutation.created_at == *now,
        mutation_consistent(r.mutation),
{
    proof {
        reveal_strlit("SALE");
        reveal_strlit("IN");
        assert("SALE"@.len() != "IN"@.len());
    }
    let before: i64 = match current {
        Some(q) => q,
        None => 0,
    };
    let after: i64 = before - qty;
    SaleMovement {
        new_quantity: after,
        mutation: StockMutation {
            id: new_id(),
            branch_id: branch_id.clone(),
            product_id: product_id.clone(),
            mutation_type: String::from_str("SALE"),
            quantity: qty,
            balance_before: before,
            balance_after: after,
            reference_no: Some(order_number.clone()),
            notes: Some(String::from_str("Penjualan Kasir POS")),
            created_at: now.clone(),
        },
    }
}

/// An update of a branch replaces each field the request gives by the given
/// value and keeps each field it leaves out; the id and creation time stay
/// and the update time becomes the time of the update.
pub proof fn law_branch_update_replaces_given_fields(stored: Branch, req: UpdateBranchRequest, at: String)
    ensures
        ({
            let u = branch_after_update(stored, req, at);
            &&& req.name matches Some(x) ==> u.name == x
            &&& req.name is None ==> u.name == stored.name
            &&& req.code matches Some(x) ==> u.code == x
            &&& req.code is None ==> u.code == stored.code
            &&& req.address matches Some(x) ==> u.address == Some(x)
            &&& req.address is None ==> u.address == stored.address
            &&& req.phone matches Some(x) ==> u.phone == Some(x)
            &&& req.phone is None ==> u.phone == stored.phone
            &&& req.is_active matches Some(x) ==> u.is_active == x
            &&& req.is_active is None ==> u.is_active == stored.is_active
            &&& u.id == stored.id
            &&& u.created_at == stored.created_at
            &&& u.updated_at == at
        }),
{
}

} // verus!
