use lions_pos::auth::{bearer_token, check_credentials, credentials_decision, require_active_user, require_refresh_token, Claims, RefreshQuery};
use lions_pos::error::{AppError, ErrorKind};
use lions_pos::seed::seed_admin_user;
use lions_pos::users::{ensure_username_free, group_permissions_by_module, CreateUserRequest, Permission, User, UserMeResponse};

fn request(password: &str) -> CreateUserRequest {
    CreateUserRequest {
        username: "kasir1".to_string(),
        password: password.to_string(),
        fullname: "Kasir Satu".to_string(),
        phone: Some("0811".to_string()),
        avatar: None,
        branch_id: Some("branch-main".to_string()),
        role_ids: Some(vec!["role-cashier".to_string()]),
    }
}

#[test]
fn bearer_token_is_extracted() {
    assert_eq!(bearer_token(Some("Bearer abc.def.ghi")), Ok("abc.def.ghi".to_string()));
}

#[test]
fn bearer_token_missing_header_is_unauthorized() {
    assert_eq!(
        bearer_token(None),
        Err(AppError::Unauthorized("Token otentikasi tidak ditemukan".to_string()))
    );
}

#[test]
fn bearer_token_other_scheme_is_unauthorized() {
    assert_eq!(
        bearer_token(Some("Basic abc")),
        Err(AppError::Unauthorized("Format header otentikasi tidak valid".to_string()))
    );
    assert_eq!(
        bearer_token(Some("bearer abc")),
        Err(AppError::Unauthorized("Format header otentikasi tidak valid".to_string()))
    );
}

#[test]
fn claims_expire_after_the_given_hours() {
    let c = Claims::issue("user-admin", "admin", vec!["ADMIN".to_string()], vec![], 1_000, 24);
    assert_eq!(c.sub, "user-admin");
    assert_eq!(c.username, "admin");
    assert_eq!(c.roles, vec!["ADMIN".to_string()]);
    assert_eq!(c.iat, 1_000);
    assert_eq!(c.exp, 1_000 + 24 * 3600);
}

#[test]
fn registered_user_logs_in_with_its_password() {
    let u = User::register(&request("rahasia")).unwrap();
    assert_eq!(u.username, "kasir1");
    assert_eq!(u.fullname, "Kasir Satu");
    assert_eq!(u.phone, Some("0811".to_string()));
    assert_eq!(u.branch_id, Some("branch-main".to_string()));
    assert!(u.is_active);
    assert_eq!(u.created_at, u.updated_at);
    assert_eq!(u.id.len(), 36);
    assert_eq!(u.password_hash.len(), 60);
    assert!(u.password_hash.starts_with("$2b$12$"));
    assert_ne!(u.password_hash, "rahasia");
    let logged = check_credentials(Some(u.clone()), "rahasia").unwrap();
    assert_eq!(logged, u);
}

#[test]
fn wrong_password_is_refused() {
    let u = User::register(&request("rahasia")).unwrap();
    assert_eq!(
        check_credentials(Some(u), "salah"),
        Err(AppError::Unauthorized("Username atau password salah".to_string()))
    );
}

#[test]
fn unknown_user_is_refused() {
    assert_eq!(
        check_credentials(None, "password123"),
        Err(AppError::Unauthorized("Username atau password salah".to_string()))
    );
}

#[test]
fn unreadable_hash_is_an_internal_error() {
    let mut u = User::register(&request("x")).unwrap();
    u.password_hash = "not-a-hash".to_string();
    let e = check_credentials(Some(u), "x").unwrap_err();
    assert_eq!(e.kind(), ErrorKind::Internal);
    assert_eq!(e.status_code(), 500);
}

#[test]
fn credentials_decision_follows_the_comparison() {
    let u = User::register(&request("x")).unwrap();
    assert_eq!(credentials_decision(u.clone(), Ok(true)), Ok(u.clone()));
    assert_eq!(
        credentials_decision(u.clone(), Ok(false)),
        Err(AppError::Unauthorized("Username atau password salah".to_string()))
    );
    assert_eq!(credentials_decision(u, Err("boom".to_string())), Err(AppError::Internal("boom".to_string())));
}

#[test]
fn seeded_admin_logs_in_with_default_password() {
    let now = "2024-05-01T10:00:00+00:00".to_string();
    let admin = seed_admin_user(&now).unwrap();
    assert_eq!(admin.created_at, now);
    assert_eq!(admin.updated_at, now);
    assert_eq!(admin.id, "user-admin");
    assert_eq!(admin.username, "admin");
    assert_eq!(admin.fullname, "Super Admin Lion POS");
    assert_eq!(admin.branch_id, Some("branch-main".to_string()));
    assert!(check_credentials(Some(admin.clone()), "password123").is_ok());
    assert!(check_credentials(Some(admin), "password1234").is_err());
}

#[test]
fn refresh_requires_a_token_and_an_active_user() {
    assert_eq!(
        require_refresh_token(RefreshQuery { refresh_token: None }),
        Err(AppError::BadRequest("Parameter refreshToken wajib diisi".to_string()))
    );
    assert_eq!(require_refresh_token(RefreshQuery { refresh_token: Some("t".to_string()) }), Ok("t".to_string()));
    assert_eq!(
        require_active_user(None),
        Err(AppError::Unauthorized("Pengguna tidak aktif atau tidak ditemukan".to_string()))
    );
}

#[test]
fn taken_username_is_refused() {
    assert_eq!(ensure_username_free(None), Ok(()));
    assert_eq!(
        ensure_username_free(Some("user-admin".to_string())),
        Err(AppError::BadRequest("Username sudah digunakan".to_string()))
    );
}

#[test]
fn profile_carries_roles_branch_and_warehouse() {
    let admin = seed_admin_user(&"2024-05-01T10:00:00+00:00".to_string()).unwrap();
    let me = UserMeResponse::assemble(
        admin,
        vec!["ADMIN".to_string()],
        vec!["user.index".to_string()],
        Some("Cabang Utama POS".to_string()),
        Some(("wh-main".to_string(), "Gudang Pusat".to_string())),
    );
    assert_eq!(me.username, "admin");
    assert_eq!(me.roles[0], "ADMIN");
    assert_eq!(me.plan, "pro");
    assert_eq!(me.branch_name, Some("Cabang Utama POS".to_string()));
    assert_eq!(me.warehouse_id, Some("wh-main".to_string()));
    assert_eq!(me.warehouse_name, Some("Gudang Pusat".to_string()));
    assert_eq!(me.partner_id, None);
    assert_eq!(me.partner_name, None);
}

fn perm(id: &str, module: &str) -> Permission {
    Permission {
        id: id.to_string(),
        name: id.to_string(),
        slug: id.to_string(),
        module: module.to_string(),
        action: "index".to_string(),
    }
}

#[test]
fn permissions_are_grouped_by_module() {
    let perms = vec![perm("a", "order"), perm("b", "user"), perm("c", "order"), perm("d", "log")];
    let groups = group_permissions_by_module(perms);
    let keys: Vec<&str> = groups.iter().map(|g| g.0.as_str()).collect();
    assert_eq!(keys, vec!["order", "user", "log"]);
    let ids: Vec<&str> = groups[0].1.iter().map(|p| p.id.as_str()).collect();
    assert_eq!(ids, vec!["a", "c"]);
    assert_eq!(groups[1].1.len(), 1);
    assert_eq!(groups[2].1[0].id, "d");
    assert!(group_permissions_by_module(vec![]).is_empty());
}
