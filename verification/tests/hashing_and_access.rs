use lions_pos::auth::require_permission;
use lions_pos::error::AppError;
use lions_pos::seed::admin_from_hash;
use lions_pos::users::{CreateUserRequest, User};

fn request() -> CreateUserRequest {
    CreateUserRequest {
        username: "kasir2".to_string(),
        password: "rahasia".to_string(),
        fullname: "Kasir Dua".to_string(),
        phone: None,
        avatar: Some("/a.png".to_string()),
        branch_id: Some("branch-main".to_string()),
        role_ids: None,
    }
}

#[test]
fn user_record_takes_the_given_hash() {
    let u = User::from_hash(&request(), Ok("$2b$12$abc".to_string())).unwrap();
    assert_eq!(u.password_hash, "$2b$12$abc");
    assert_eq!(u.username, "kasir2");
    assert_eq!(u.fullname, "Kasir Dua");
    assert_eq!(u.phone, None);
    assert_eq!(u.avatar, Some("/a.png".to_string()));
    assert_eq!(u.branch_id, Some("branch-main".to_string()));
    assert!(u.is_active);
    assert_eq!(u.id.len(), 36);
    assert_eq!(u.created_at, u.updated_at);
    assert!(u.created_at.ends_with("+00:00"));
}

#[test]
fn user_record_reports_a_hashing_failure() {
    assert_eq!(
        User::from_hash(&request(), Err("invalid cost".to_string())),
        Err(AppError::Internal("invalid cost".to_string()))
    );
}

#[test]
fn admin_record_takes_the_given_hash() {
    let now = "2024-05-01T10:00:00+00:00".to_string();
    let a = admin_from_hash(Ok("$2b$12$xyz".to_string()), &now).unwrap();
    assert_eq!(a.id, "user-admin");
    assert_eq!(a.username, "admin");
    assert_eq!(a.password_hash, "$2b$12$xyz");
    assert_eq!(a.fullname, "Super Admin Lion POS");
    assert_eq!(a.phone, Some("081234567890".to_string()));
    assert_eq!(a.branch_id, Some("branch-main".to_string()));
    assert_eq!(a.created_at, now);
    assert_eq!(a.updated_at, now);
    assert_eq!(admin_from_hash(Err("rng".to_string()), &now), Err(AppError::Internal("rng".to_string())));
}

#[test]
fn permission_is_required() {
    let perms = vec!["user.index".to_string(), "user.store".to_string()];
    assert_eq!(require_permission(&perms, "user.store"), Ok(()));
    assert_eq!(require_permission(&perms, "user.index"), Ok(()));
    let refused = Err(AppError::Unauthorized("Anda tidak memiliki izin untuk tindakan ini".to_string()));
    assert_eq!(require_permission(&perms, "user.delete"), refused);
    assert_eq!(require_permission(&Vec::new(), "user.store"), refused);
    assert_eq!(require_permission(&perms, "user"), refused);
}
