use vstd::prelude::*;
use crate::auth::login_accepted;
use crate::clock::{is_utc_rfc3339_text, now_rfc3339};
use crate::error::{AppError, ErrorKind};
use crate::ids::{is_uuid_v4_text, new_id};
use crate::password::{bcrypt_hash, bcrypt_verify_outcome};
use crate::text::clone_opt;

verus! {

/// A person who can sign in, as stored.
#[derive(Clone, Debug, PartialEq, Eq)]
pub struct User {
    pub id: String,
    pub username: String,
    pub password_hash: String,
    pub fullname: String,
    pub phone: Option<String>,
    pub avatar: Option<String>,
    pub branch_id: Option<String>,
    pub is_active: bool,
    pub created_at: String,
    pub updated_at: String,
}

/// A named set of permissions.
#[derive(Clone, Debug, PartialEq, Eq)]
pub struct Role {
    pub id: String,
    pub name: String,
    pub slug: String,
    pub description: Option<String>,
    pub created_at: String,
}

/// The right to perform one action in one module (slug `module.action`).
#[derive(Clone, Debug, PartialEq, Eq)]
pub struct Permission {
    pub id: String,
    pub name: String,
    pub slug: String,
    pub module: String,
    pub action: String,
}

/// The body of a login request.
#[derive(Clone, Debug, PartialEq, Eq)]
pub struct LoginRequest {
    pub username: String,
    pub password: String,
}

/// What the signed-in user sees about themself.
#[derive(Clone, Debug, PartialEq, Eq)]
pub struct UserMeResponse {
    pub id: String,
    pub username: String,
    pub fullname: String,
    pub avatar: Option<String>,
    pub roles: Vec<String>,
    pub permissions: Vec<String>,
    pub plan: String,
    pub branch_id: Option<String>,
    pub branch_name: Option<String>,
    pub warehouse_id: Option<String>,
    pub warehouse_name: Option<String>,
    pub partner_id: Option<String>,
    pub partner_name: Option<String>,
}

/// The body of a request that creates a user.
#[derive(Clone, Debug, PartialEq, Eq)]
pub struct CreateUserRequest {
    pub username: String,
    pub password: String,
    pub fullname: String,
    pub phone: Option<String>,
    pub avatar: Option<String>,
    pub branch_id: Option<String>,
    pub role_ids: Option<Vec<String>>,
}

impl UserMeResponse {
    /// The profile of `user`, with the role names and permission slugs it
    /// holds, the name of its branch and the first warehouse of that branch
    /// (each when found). The plan is always `pro`; there is no partner.
    pub fn assemble(
        user: User,
        roles: Vec<String>,
        permissions: Vec<String>,
        branch_name: Option<String>,
        warehouse: Option<(String, String)>,
    ) -> (r: UserMeResponse)
        ensures
            r.id == user.id,
            r.username == user.username,
            r.fullname == user.fullname,
            r.avatar == user.avatar,
            r.roles == roles,
            r.permissions == permissions,
            r.plan@ == "pro"@,
            r.branch_id == user.branch_id,
            r.branch_name == branch_name,
            r.warehouse_id == (match warehouse {
                Some(w) => Some(w.0),
                None => None::<String>,
            }),
            r.warehouse_name == (match warehouse {
                Some(w) => Some(w.1),
                None => None::<String>,
            }),
            r.partner_id is None,
            r.partner_name is None,
    {
        let (warehouse_id, warehouse_name) = match warehouse {
            Some((wid, wname)) => (Some(wid), Some(wname)),
            None => (None, None),
        };
        UserMeResponse {
            id: user.id,
            username: user.username,
            fullname: user.fullname,
            avatar: user.avatar,
            roles,
            permissions,
            plan: String::from_str("pro"),
            branch_id: user.branch_id,
            branch_name,
            warehouse_id,
            warehouse_name,
            partner_id: None,
            partner_name: None,
        }
    }
}

/// Refuses a new user whose username is already taken (`existing` is the id
/// of the user that holds it, if any).
pub fn ensure_username_free(existing: Option<String>) -> (r: Result<(), AppError>)
    ensures
        existing is None <==> r is Ok,
        r matches Err(e) ==> e@ == (ErrorKind::BadRequest, "Username sudah digunakan"@),
{
    match existing {
        Some(_) => Err(AppError::from_text(ErrorKind::BadRequest, "Username sudah digunakan")),
        None => Ok(()),
    }
}

/// The error a failed password hashing reports.
pub fn hashing_failure(text: String) -> (e: AppError)
    ensures
        e@ == (ErrorKind::Internal, text@),
{
    AppError::Internal(text)
}

impl User {
    /// The record of a newly registered user from the outcome of hashing its
    /// password: with a hash, a fresh id, the request's fields, that hash,
    /// active, created and updated at the same moment; with a hashing
    /// failure, an internal error carrying the failure's text.
    pub fn from_hash(req: &CreateUserRequest, hashed: Result<String, String>) -> (r: Result<User, AppError>)
        ensures
            hashed matches Ok(h) ==> r matches Ok(u) && {
                &&& is_uuid_v4_text(u.id@)
                &&& u.username == req.username
                &&& u.password_hash == h
                &&& u.fullname == req.fullname
                &&& u.phone == req.phone
                &&& u.avatar == req.avatar
                &&& u.branch_id == req.branch_id
                &&& u.is_active
                &&& u.created_at == u.updated_at
                &&& is_utc_rfc3339_text(u.created_at@)
            },
            hashed matches Err(t) ==> r matches Err(e) && e@ == (ErrorKind::Internal, t@),
    {
        let password_hash = match hashed {
            Ok(h) => h,
            Err(text) => return Err(hashing_failure(text)),
        };
        let now = now_rfc3339();
        Ok(User {
            id: new_id(),
            username: req.username.clone(),
            password_hash,
            fullname: req.fullname.clone(),
            phone: clone_opt(&req.phone),
            avatar: clone_opt(&req.avatar),
            branch_id: clone_opt(&req.branch_id),
            is_active: true,
            created_at: now.clone(),
            updated_at: now,
        })
    }

    /// The record of a newly registered user: its password is hashed with
    /// bcrypt and the outcome goes through `User::from_hash`. Whatever the
    /// hashing gives, a success is the request's user with a hash that
    /// verifies its password, and a failure is an internal error.
    pub fn register(req: &CreateUserRequest) -> (r: Result<User, AppError>)
        ensures
            r matches Ok(u) ==> {
                &&& is_uuid_v4_text(u.id@)
                &&& u.username == req.username
                &&& u.fullname == req.fullname
                &&& u.phone == req.phone
                &&& u.avatar == req.avatar
                &&& u.branch_id == req.branch_id
                &&& u.is_active
                &&& u.created_at == u.updated_at
                &&& is_utc_rfc3339_text(u.created_at@)
                &&& bcrypt_verify_outcome(req.password@, u.password_hash@) == Some(true)
                &&& login_accepted(Some(u), req.password@)
            },
            r matches Err(e) ==> e@.0 == ErrorKind::Internal,
    {
        let hashed = bcrypt_hash(req.password.as_str());
        User::from_hash(req, hashed)
    }
}

// ---------------------------------------------------------------------------
// Permissions grouped by module
// ---------------------------------------------------------------------------

/// The permissions of `perms` that belong to `module`, in their order.
pub open spec fn in_module(perms: Seq<Permission>, module: Seq<char>) -> Seq<Permission> {
    perms.filter(|p: Permission| p.module@ == module)
}

/// The modules of `groups`, in order.
pub open spec fn group_keys(groups: Seq<(String, Vec<Permission>)>) -> Seq<Seq<char>> {
    groups.map_values(|g: (String, Vec<Permission>)| g.0@)
}

/// `groups` is the grouping of `perms` by module: one group per module that
/// occurs, each holding exactly that module's permissions in the order they
/// have in `perms`.
pub open spec fn is_grouping(perms: Seq<Permission>, groups: Seq<(String, Vec<Permission>)>) -> bool {
    &&& forall|i: int, j: int|
        0 <= i < j < groups.len() ==> #[trigger] groups[i].0@ != #[trigger] groups[j].0@
    &&& forall|i: int|
        0 <= i < groups.len() ==> #[trigger] groups[i].1@ == in_module(perms, groups[i].0@)
    &&& forall|i: int|
        0 <= i < groups.len() ==> in_module(perms, #[trigger] groups[i].0@).len() > 0
    &&& forall|k: int|
        0 <= k < perms.len() ==> group_keys(groups).contains(#[trigger] perms[k].module@)
}

/// Filtering a sequence extended by one item.
proof fn lemma_in_module_push(perms: Seq<Permission>, p: Permission, module: Seq<char>)
    ensures
        in_module(perms.push(p), module) == if p.module@ == module {
            in_module(perms, module).push(p)
        } else {
            in_module(perms, module)
        },
{
    reveal_with_fuel(Seq::filter, 1);
    assert(perms.push(p).drop_last() =~= perms);
}

/// No permission of `perms` belongs to `module`, so its group is empty.
proof fn lemma_in_module_empty(perms: Seq<Permission>, module: Seq<char>)
    requires
        forall|k: int| 0 <= k < perms.len() ==> #[trigger] perms[k].module@ != module,
    ensures
        in_module(perms, module) =~= Seq::<Permission>::empty(),
    decreases perms.len(),
{
    if perms.len() > 0 {
        let init = perms.drop_last();
        lemma_in_module_empty(init, module);
        lemma_in_module_push(init, perms.last(), module);
        assert(init.push(perms.last()) =~= perms);
    }
}

/// Groups permissions by their module, keeping the order of permissions
/// within each module.
pub fn group_permissions_by_module(perms: Vec<Permission>) -> (groups: Vec<(String, Vec<Permission>)>)
    ensures
        is_grouping(perms@, groups@),
{
    let ghost all = perms@;
    let mut rest = perms;
    let mut groups: Vec<(String, Vec<Permission>)> = Vec::new();
    let ghost mut done: Seq<Permission> = Seq::empty();
    while rest.len() > 0
        invariant
            done + rest@ == all,
            is_grouping(done, groups@),
        decreases rest.len(),
    {
        let p = rest.remove(0);
        let ghost old_groups = groups@;
        let ghost old_done = done;
        let mut i: usize = 0;
        let n: usize = groups.len();
        while i < n && groups[i].0 != p.module
            invariant
                n == groups.len(),
                groups@ == old_groups,
                i <= n,
                forall|j: int| 0 <= j < i ==> groups@[j].0@ != p.module@,
            decreases n - i,
        {
            i = i + 1;
        }
        proof {
            done = old_done.push(p);
            assert forall|m: Seq<char>| m != p.module@ implies in_module(done, m) == in_module(
                old_done,
                m,
            ) by {
                lemma_in_module_push(old_done, p, m);
            }
            lemma_in_module_push(old_done, p, p.module@);
        }
        if i < n {
            let mut group: (String, Vec<Permission>) = (String::new(), Vec::new());
            groups.set_and_swap(i, &mut group);
            group.1.push(p);
            groups.set_and_swap(i, &mut group);
            proof {
                assert(groups@ == old_groups.update(i as int, groups@[i as int]));
                assert forall|k: int| 0 <= k < done.len() implies group_keys(groups@).contains(
                    #[trigger] done[k].module@,
                ) by {
                    if k < old_done.len() {
                        assert(old_done[k] == done[k]);
                        let w = choose|w: int|
                            0 <= w < old_groups.len() && group_keys(old_groups)[w]
                                == old_done[k].module@;
                        assert(group_keys(groups@)[w] == done[k].module@);
                    } else {
                        assert(group_keys(groups@)[i as int] == done[k].module@);
                    }
                }
                assert forall|j: int| 0 <= j < groups@.len() implies #[trigger] groups@[j].1@
                    == in_module(done, groups@[j].0@) by {
                    if j != i {
                        assert(groups@[j] == old_groups[j]);
                    }
                }
            }
        } else {
            let key = p.module.clone();
            let mut members: Vec<Permission> = Vec::new();
            members.push(p);
            groups.push((key, members));
            proof {
                reveal_with_fuel(Seq::filter, 1);
                assert(in_module(old_done, p.module@) =~= Seq::<Permission>::empty()) by {
                    assert forall|k: int| 0 <= k < old_done.len() implies #[trigger] old_done[k].module@
                        != p.module@ by {
                        if old_done[k].module@ == p.module@ {
                            let w = choose|w: int|
                                0 <= w < old_groups.len() && group_keys(old_groups)[w]
                                    == old_done[k].module@;
                            assert(old_groups[w].0@ == group_keys(old_groups)[w]);
                        }
                    }
                    lemma_in_module_empty(old_done, p.module@);
                }
                assert forall|k: int| 0 <= k < done.len() implies group_keys(groups@).contains(
                    #[trigger] done[k].module@,
                ) by {
                    if k < old_done.len() {
                        assert(old_done[k] == done[k]);
                        let w = choose|w: int|
                            0 <= w < old_groups.len() && group_keys(old_groups)[w]
                                == old_done[k].module@;
                        assert(group_keys(groups@)[w] == done[k].module@);
                    } else {
                        assert(group_keys(groups@)[n as int] == done[k].module@);
                    }
                }
                assert forall|j: int| 0 <= j < groups@.len() implies #[trigger] groups@[j].1@
                    == in_module(done, groups@[j].0@) by {
                    if j < n {
                        assert(groups@[j] == old_groups[j]);
                    } else {
                        assert(groups@[j].1@ =~= seq![p]);
                    }
                }
            }
        }
        proof {
            assert(done + rest@ =~= all);
        }
    }
    assert(done =~= all);
    groups
}

} // verus!
