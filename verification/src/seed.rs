use vstd::prelude::*;
use crate::auth::login_accepted;
use crate::catalog::{Category, ProductPhoto};
use crate::error::{AppError, ErrorKind};
use crate::ids::{is_uuid_v4_text, new_id};
use crate::inventory::{Branch, StockBalance, Warehouse};
use crate::password::{bcrypt_hash, bcrypt_verify_outcome};
use crate::text::join2;
use crate::users::{hashing_failure, Permission, Role, User};

verus! {

/// Whether an optional text is present and equal to `t`.
pub open spec fn has_text(o: Option<String>, t: Seq<char>) -> bool {
    o matches Some(s) && s@ == t
}

/// A database needs its initial data exactly when it has no user yet.
pub fn should_seed(user_count: i64) -> (b: bool)
    ensures
        b == (user_count <= 0),
{
    user_count <= 0
}

/// The modules permissions are granted on, in seeding order.
pub open spec fn seed_module(i: int) -> Seq<char> {
    if i == 0 { "user"@ }
    else if i == 1 { "produk"@ }
    else if i == 2 { "category"@ }
    else if i == 3 { "stock-mutation"@ }
    else if i == 4 { "partner"@ }
    else if i == 5 { "location"@ }
    else if i == 6 { "voucher"@ }
    else if i == 7 { "role"@ }
    else if i == 8 { "permission"@ }
    else if i == 9 { "module"@ }
    else if i == 10 { "supplier"@ }
    else if i == 11 { "order"@ }
    else if i == 12 { "purchase-order"@ }
    else if i == 13 { "transfer-request"@ }
    else if i == 14 { "stock-opname"@ }
    else { "log"@ }
}

/// The actions each module grants, in seeding order.
pub open spec fn seed_action(j: int) -> Seq<char> {
    if j == 0 { "index"@ }
    else if j == 1 { "show"@ }
    else if j == 2 { "store"@ }
    else if j == 3 { "update"@ }
    else { "delete"@ }
}

/// The number of seeded modules.
pub const MODULE_COUNT: usize = 16;

/// The number of seeded actions per module.
pub const ACTION_COUNT: usize = 5;

fn module_name(i: usize) -> (m: &'static str)
    requires
        i < MODULE_COUNT,
    ensures
        m@ == seed_module(i as int),
{
    match i {
        0 => "user",
        1 => "produk",
        2 => "category",
        3 => "stock-mutation",
        4 => "partner",
        5 => "location",
        6 => "voucher",
        7 => "role",
        8 => "permission",
        9 => "module",
        10 => "supplier",
        11 => "order",
        12 => "purchase-order",
        13 => "transfer-request",
        14 => "stock-opname",
        _ => "log",
    }
}

fn action_name(j: usize) -> (a: &'static str)
    requires
        j < ACTION_COUNT,
    ensures
        a@ == seed_action(j as int),
{
    match j {
        0 => "index",
        1 => "show",
        2 => "store",
        3 => "update",
        _ => "delete",
    }
}

/// The permission for `action` on `module`: id `perm-<module>-<action>`,
/// name `<action> <module>`, slug `<module>.<action>`.
pub open spec fn is_seed_permission(p: Permission, module: Seq<char>, action: Seq<char>) -> bool {
    &&& p.id@ == "perm-"@ + module + "-"@ + action
    &&& p.name@ == action + " "@ + module
    &&& p.slug@ == module + "."@ + action
    &&& p.module@ == module
    &&& p.action@ == action
}

fn seed_permission(module: &str, action: &str) -> (p: Permission)
    ensures
        is_seed_permission(p, module@, action@),
{
    let mut id = join2("perm-", module);
    id.append("-");
    id.append(action);
    let mut name = join2(action, " ");
    name.append(module);
    let mut slug = join2(module, ".");
    slug.append(action);
    Permission {
        id,
        name,
        slug,
        module: String::from_str(module),
        action: String::from_str(action),
    }
}

/// Every permission the system knows: each action on each module, modules
/// in order, actions in order within a module.
pub fn permission_seeds() -> (perms: Vec<Permission>)
    ensures
        perms@.len() == MODULE_COUNT * ACTION_COUNT,
        forall|k: int|
            0 <= k < perms@.len() ==> is_seed_permission(
                #[trigger] perms@[k],
                seed_module(k / 5),
                seed_action(k % 5),
            ),
{
    let mut perms: Vec<Permission> = Vec::new();
    let mut i: usize = 0;
    while i < MODULE_COUNT
        invariant
            i <= MODULE_COUNT,
            perms@.len() == i * ACTION_COUNT,
            forall|k: int|
                0 <= k < perms@.len() ==> is_seed_permission(
                    #[trigger] perms@[k],
                    seed_module(k / 5),
                    seed_action(k % 5),
                ),
        decreases MODULE_COUNT - i,
    {
        let module = module_name(i);
        let mut j: usize = 0;
        while j < ACTION_COUNT
            invariant
                i < MODULE_COUNT,
                j <= ACTION_COUNT,
                module@ == seed_module(i as int),
                perms@.len() == i * ACTION_COUNT + j,
                forall|k: int|
                    0 <= k < perms@.len() ==> is_seed_permission(
                        #[trigger] perms@[k],
                        seed_module(k / 5),
                        seed_action(k % 5),
                    ),
            decreases ACTION_COUNT - j,
        {
            let action = action_name(j);
            let p = seed_permission(module, action);
            let ghost k = perms@.len() as int;
            assert(k / 5 == i as int && k % 5 == j as int);
            perms.push(p);
            j = j + 1;
        }
        i = i + 1;
    }
    perms
}

/// The id of the administrator role.
pub open spec fn admin_role_id() -> Seq<char> {
    "role-admin"@
}

/// The two roles a fresh system has: the administrator, with full access,
/// and the cashier.
pub fn seed_roles(now: &String) -> (roles: Vec<Role>)
    ensures
        roles@.len() == 2,
        roles@[0].id@ == admin_role_id(),
        roles@[0].name@ == "ADMIN"@,
        roles@[0].slug@ == "admin"@,
        roles@[0].description matches Some(d) && d@ == "Administrator with full access"@,
        roles@[1].id@ == "role-cashier"@,
        roles@[1].name@ == "CASHIER"@,
        roles@[1].slug@ == "cashier"@,
        roles@[1].description matches Some(d) && d@ == "Cashier with POS checkout access"@,
        roles@[0].created_at == *now && roles@[1].created_at == *now,
{
    let mut roles: Vec<Role> = Vec::new();
    roles.push(Role {
        id: String::from_str("role-admin"),
        name: String::from_str("ADMIN"),
        slug: String::from_str("admin"),
        description: Some(String::from_str("Administrator with full access")),
        created_at: now.clone(),
    });
    roles.push(Role {
        id: String::from_str("role-cashier"),
        name: String::from_str("CASHIER"),
        slug: String::from_str("cashier"),
        description: Some(String::from_str("Cashier with POS checkout access")),
        created_at: now.clone(),
    });
    roles
}

/// The role-permission links of a fresh system: the administrator role gets
/// every given permission, in order.
pub fn admin_grants(perms: &Vec<Permission>) -> (links: Vec<(String, String)>)
    ensures
        links@.len() == perms@.len(),
        forall|k: int|
            0 <= k < links@.len() ==> (#[trigger] links@[k]).0@ == admin_role_id() && links@[k].1
                == perms@[k].id,
{
    let mut links: Vec<(String, String)> = Vec::new();
    let mut k: usize = 0;
    let n: usize = perms.len();
    while k < n
        invariant
            n == perms@.len(),
            k <= n,
            links@.len() == k,
            forall|q: int|
                0 <= q < links@.len() ==> (#[trigger] links@[q]).0@ == admin_role_id()
                    && links@[q].1 == perms@[q].id,
        decreases n - k,
    {
        links.push((String::from_str("role-admin"), perms[k].id.clone()));
        k = k + 1;
    }
    links
}

/// The main branch every fresh system starts with.
pub fn seed_branch(now: &String) -> (b: Branch)
    ensures
        b.id@ == "branch-main"@,
        b.name@ == "Cabang Utama POS"@,
        b.code@ == "BR-001"@,
        b.address matches Some(a) && a@ == "Jl. Sudirman No. 1, Jakarta Pusat"@,
        b.phone matches Some(p) && p@ == "081234567890"@,
        b.is_active,
        b.created_at == *now && b.updated_at == *now,
{
    Branch {
        id: String::from_str("branch-main"),
        name: String::from_str("Cabang Utama POS"),
        code: String::from_str("BR-001"),
        address: Some(String::from_str("Jl. Sudirman No. 1, Jakarta Pusat")),
        phone: Some(String::from_str("081234567890")),
        is_active: true,
        created_at: now.clone(),
        updated_at: now.clone(),
    }
}

/// The central warehouse of the main branch.
pub fn seed_warehouse(now: &String) -> (w: Warehouse)
    ensures
        w.id@ == "wh-main"@,
        w.branch_id matches Some(b) && b@ == "branch-main"@,
        w.name@ == "Gudang Pusat"@,
        w.code@ == "WH-001"@,
        w.is_active,
        w.created_at == *now && w.updated_at == *now,
{
    Warehouse {
        id: String::from_str("wh-main"),
        branch_id: Some(String::from_str("branch-main")),
        name: String::from_str("Gudang Pusat"),
        code: String::from_str("WH-001"),
        is_active: true,
        created_at: now.clone(),
        updated_at: now.clone(),
    }
}

/// The default administrator account from the outcome of hashing its
/// password: with a hash, username `admin` in the main branch, that hash,
/// created and updated at `now` like the rest of the seed data; with a
/// hashing failure, an internal error carrying the failure's text.
pub fn admin_from_hash(hashed: Result<String, String>, now: &String) -> (r: Result<User, AppError>)
    ensures
        hashed matches Ok(h) ==> r matches Ok(u) && {
            &&& u.id@ == "user-admin"@
            &&& u.username@ == "admin"@
            &&& u.password_hash == h
            &&& u.fullname@ == "Super Admin Lion POS"@
            &&& u.phone matches Some(p) && p@ == "081234567890"@
            &&& u.avatar matches Some(a) && a@ == "https://api.dicebear.com/7.x/avataaars/svg?seed=admin"@
            &&& u.branch_id matches Some(b) && b@ == "branch-main"@
            &&& u.is_active
            &&& u.created_at == *now
            &&& u.updated_at == *now
        },
        hashed matches Err(t) ==> r matches Err(e) && e@ == (ErrorKind::Internal, t@),
{
    let password_hash = match hashed {
        Ok(h) => h,
        Err(text) => return Err(hashing_failure(text)),
    };
    Ok(User {
        id: String::from_str("user-admin"),
        username: String::from_str("admin"),
        password_hash,
        fullname: String::from_str("Super Admin Lion POS"),
        phone: Some(String::from_str("081234567890")),
        avatar: Some(String::from_str("https://api.dicebear.com/7.x/avataaars/svg?seed=admin")),
        branch_id: Some(String::from_str("branch-main")),
        is_active: true,
        created_at: now.clone(),
        updated_at: now.clone(),
    })
}

/// The default administrator account: username `admin`, password
/// `password123`, in the main branch, created and updated at `now`. The
/// password is hashed with bcrypt and the outcome goes through
/// `admin_from_hash`; a success logs in with the default password, a
/// failure is an internal error.
pub fn seed_admin_user(now: &String) -> (r: Result<User, AppError>)
    ensures
        r matches Ok(u) ==> {
            &&& u.id@ == "user-admin"@
            &&& u.username@ == "admin"@
            &&& bcrypt_verify_outcome("password123"@, u.password_hash@) == Some(true)
            &&& login_accepted(Some(u), "password123"@)
            &&& u.fullname@ == "Super Admin Lion POS"@
            &&& u.phone matches Some(p) && p@ == "081234567890"@
            &&& u.avatar matches Some(a) && a@ == "https://api.dicebear.com/7.x/avataaars/svg?seed=admin"@
            &&& u.branch_id matches Some(b) && b@ == "branch-main"@
            &&& u.is_active
            &&& u.created_at == *now
            &&& u.updated_at == *now
        },
        r matches Err(e) ==> e@.0 == ErrorKind::Internal,
{
    let hashed = bcrypt_hash("password123");
    admin_from_hash(hashed, now)
}

/// The sample categories: food, drinks, snacks and desserts.
pub fn seed_categories(now: &String) -> (cats: Vec<Category>)
    ensures
        cats@.len() == 4,
        cats@[0].id@ == "cat-food"@ && cats@[0].name@ == "Makanan"@ && cats@[0].slug@ == "makanan"@
            && has_text(cats@[0].icon, "Utensils"@),
        cats@[1].id@ == "cat-drink"@ && cats@[1].name@ == "Minuman"@ && cats@[1].slug@ == "minuman"@
            && has_text(cats@[1].icon, "Coffee"@),
        cats@[2].id@ == "cat-snack"@ && cats@[2].name@ == "Snack & Cemilan"@ && cats@[2].slug@
            == "snack"@ && has_text(cats@[2].icon, "Cookie"@),
        cats@[3].id@ == "cat-dessert"@ && cats@[3].name@ == "Dessert"@ && cats@[3].slug@
            == "dessert"@ && has_text(cats@[3].icon, "Cake"@),
        forall|k: int|
            0 <= k < 4 ==> (#[trigger] cats@[k]).is_active && cats@[k].created_at == *now
                && cats@[k].updated_at == *now,
{
    let mut cats: Vec<Category> = Vec::new();
    cats.push(seed_category("cat-food", "Makanan", "makanan", "Utensils", now));
    cats.push(seed_category("cat-drink", "Minuman", "minuman", "Coffee", now));
    cats.push(seed_category("cat-snack", "Snack & Cemilan", "snack", "Cookie", now));
    cats.push(seed_category("cat-dessert", "Dessert", "dessert", "Cake", now));
    cats
}

fn seed_category(id: &str, name: &str, slug: &str, icon: &str, now: &String) -> (c: Category)
    ensures
        c.id@ == id@,
        c.name@ == name@,
        c.slug@ == slug@,
        c.icon matches Some(i) && i@ == icon@,
        c.is_active,
        c.created_at == *now,
        c.updated_at == *now,
{
    Category {
        id: String::from_str(id),
        name: String::from_str(name),
        slug: String::from_str(slug),
        icon: Some(String::from_str(icon)),
        is_active: true,
        created_at: now.clone(),
        updated_at: now.clone(),
    }
}

/// The primary photo of a sample product: a fresh id, the product's
/// picture, first in order, taken at `now`.
pub fn seed_primary_photo(product_id: &str, url: &str, now: &String) -> (p: ProductPhoto)
    ensures
        is_uuid_v4_text(p.id@),
        p.product_id@ == product_id@,
        p.url@ == url@,
        p.is_primary,
        p.sort_order == 0,
        p.created_at == *now,
{
    ProductPhoto {
        id: new_id(),
        product_id: String::from_str(product_id),
        url: String::from_str(url),
        is_primary: true,
        sort_order: 0,
        created_at: now.clone(),
    }
}

/// The opening stock of a sample product in a branch: a fresh id, the given
/// quantity, a minimum of 5, recorded at `now`.
pub fn seed_stock_balance(branch_id: &String, product_id: &str, quantity: i64, now: &String) -> (b: StockBalance)
    ensures
        is_uuid_v4_text(b.id@),
        b.branch_id == *branch_id,
        b.product_id@ == product_id@,
        b.quantity == quantity,
        b.min_stock == 5,
        b.updated_at == *now,
{
    StockBalance {
        id: new_id(),
        branch_id: branch_id.clone(),
        product_id: String::from_str(product_id),
        quantity,
        min_stock: 5,
        updated_at: now.clone(),
    }
}

} // verus!
