use vstd::prelude::*;
use crate::catalog::{or_keep, or_keep_opt};
use crate::clock::{is_utc_rfc3339_text, now_rfc3339};
use crate::error::{AppError, ErrorKind};
use crate::ids::{is_uuid_v4_text, new_id};

verus! {

/// A discount voucher, as stored. Amounts are of type `M`: the library
/// carries them but never computes with them.
#[derive(Clone, Debug, PartialEq)]
pub struct Voucher<M> {
    pub id: String,
    pub code: String,
    pub description: Option<String>,
    /// `PERCENTAGE` or `FIXED`.
    pub discount_type: String,
    pub discount_value: M,
    pub min_spend: Option<M>,
    pub max_discount: Option<M>,
    pub quota: Option<i64>,
    pub used_count: i64,
    pub is_active: bool,
    pub start_date: Option<String>,
    pub end_date: Option<String>,
    pub created_at: String,
}

/// The body of a request that creates a voucher.
#[derive(Clone, Debug, PartialEq)]
pub struct CreateVoucherRequest<M> {
    pub code: String,
    pub description: Option<String>,
    pub discount_type: String,
    pub discount_value: M,
    pub min_spend: Option<M>,
    pub max_discount: Option<M>,
    pub quota: Option<i64>,
    pub is_active: Option<bool>,
    pub start_date: Option<String>,
    pub end_date: Option<String>,
}

/// The body of a request that changes a voucher; absent fields stay.
#[derive(Clone, Debug, PartialEq)]
pub struct UpdateVoucherRequest<M> {
    pub code: Option<String>,
    pub description: Option<String>,
    pub discount_type: Option<String>,
    pub discount_value: Option<M>,
    pub min_spend: Option<M>,
    pub max_discount: Option<M>,
    pub quota: Option<i64>,
    pub is_active: Option<bool>,
    pub start_date: Option<String>,
    pub end_date: Option<String>,
}

/// The voucher that an update request makes of a stored one. Its usage
/// count and creation time never change.
pub open spec fn voucher_after_update<M>(stored: Voucher<M>, req: UpdateVoucherRequest<M>) -> Voucher<M> {
    Voucher {
        id: stored.id,
        code: or_keep(req.code, stored.code),
        description: or_keep_opt(req.description, stored.description),
        discount_type: or_keep(req.discount_type, stored.discount_type),
        discount_value: or_keep(req.discount_value, stored.discount_value),
        min_spend: or_keep_opt(req.min_spend, stored.min_spend),
        max_discount: or_keep_opt(req.max_discount, stored.max_discount),
        quota: or_keep_opt(req.quota, stored.quota),
        used_count: stored.used_count,
        is_active: or_keep(req.is_active, stored.is_active),
        start_date: or_keep_opt(req.start_date, stored.start_date),
        end_date: or_keep_opt(req.end_date, stored.end_date),
        created_at: stored.created_at,
    }
}

/// Whether a voucher may still be used: with a quota, while it has been
/// used fewer times than the quota.
pub open spec fn has_quota_left(quota: Option<i64>, used_count: i64) -> bool {
    match quota {
        Some(q) => used_count < q,
        None => true,
    }
}

impl<M> Voucher<M> {
    /// A new voucher: a fresh id, the requested fields, never used yet,
    /// active unless told otherwise.
    pub fn create(req: CreateVoucherRequest<M>) -> (v: Voucher<M>)
        ensures
            is_uuid_v4_text(v.id@),
            v.code == req.code,
            v.description == req.description,
            v.discount_type == req.discount_type,
            v.discount_value == req.discount_value,
            v.min_spend == req.min_spend,
            v.max_discount == req.max_discount,
            v.quota == req.quota,
            v.used_count == 0,
            v.is_active == or_keep(req.is_active, true),
            v.start_date == req.start_date,
            v.end_date == req.end_date,
            is_utc_rfc3339_text(v.created_at@),
    {
        Voucher {
            id: new_id(),
            code: req.code,
            description: req.description,
            discount_type: req.discount_type,
            discount_value: req.discount_value,
            min_spend: req.min_spend,
            max_discount: req.max_discount,
            quota: req.quota,
            used_count: 0,
            is_active: match req.is_active {
                Some(b) => b,
                None => true,
            },
            start_date: req.start_date,
            end_date: req.end_date,
            created_at: now_rfc3339(),
        }
    }

    /// The voucher after an update: each field the request gives replaces
    /// the stored one, the others stay.
    pub fn apply_update(self, req: UpdateVoucherRequest<M>) -> (v: Voucher<M>)
        ensures
            v == voucher_after_update(self, req),
            req.code matches Some(x) ==> v.code == x,
            req.code is None ==> v.code == self.code,
            req.description matches Some(x) ==> v.description == Some(x),
            req.description is None ==> v.description == self.description,
            req.discount_type matches Some(x) ==> v.discount_type == x,
            req.discount_type is None ==> v.discount_type == self.discount_type,
            req.discount_value matches Some(x) ==> v.discount_value == x,
            req.discount_value is None ==> v.discount_value == self.discount_value,
            req.min_spend matches Some(x) ==> v.min_spend == Some(x),
            req.min_spend is None ==> v.min_spend == self.min_spend,
            req.max_discount matches Some(x) ==> v.max_discount == Some(x),
            req.max_discount is None ==> v.max_discount == self.max_discount,
            req.quota matches Some(x) ==> v.quota == Some(x),
            req.quota is None ==> v.quota == self.quota,
            req.is_active matches Some(x) ==> v.is_active == x,
            req.is_active is None ==> v.is_active == self.is_active,
            req.start_date matches Some(x) ==> v.start_date == Some(x),
            req.start_date is None ==> v.start_date == self.start_date,
            req.end_date matches Some(x) ==> v.end_date == Some(x),
            req.end_date is None ==> v.end_date == self.end_date,
            v.id == self.id,
            v.used_count == self.used_count,
            v.created_at == self.created_at,
    {
        Voucher {
            id: self.id,
            code: match req.code {
                Some(x) => x,
                None => self.code,
            },
            description: match req.description {
                Some(x) => Some(x),
                None => self.description,
            },
            discount_type: match req.discount_type {
                Some(x) => x,
                None => self.discount_type,
            },
            discount_value: match req.discount_value {
                Some(x) => x,
                None => self.discount_value,
            },
            min_spend: match req.min_spend {
                Some(x) => Some(x),
                None => self.min_spend,
            },
            max_discount: match req.max_discount {
                Some(x) => Some(x),
                None => self.max_discount,
            },
            quota: match req.quota {
                Some(x) => Some(x),
                None => self.quota,
            },
            used_count: self.used_count,
            is_active: match req.is_active {
                Some(x) => x,
                None => self.is_active,
            },
            start_date: match req.start_date {
                Some(x) => Some(x),
                None => self.start_date,
            },
            end_date: match req.end_date {
                Some(x) => Some(x),
                None => self.end_date,
            },
            created_at: self.created_at,
        }
    }

    /// Refuses a voucher whose quota is used up.
    pub fn check_available(&self) -> (r: Result<(), AppError>)
        ensures
            r is Ok <==> has_quota_left(self.quota, self.used_count),
            r matches Err(e) ==> e@ == (ErrorKind::BadRequest, "Kuota voucher telah habis"@),
    {
        check_voucher_quota(self.quota, self.used_count)
    }
}

/// Refuses a voucher whose quota is used up: with a quota, it stays
/// available while it has been used fewer times than the quota.
pub fn check_voucher_quota(quota: Option<i64>, used_count: i64) -> (r: Result<(), AppError>)
    ensures
        r is Ok <==> has_quota_left(quota, used_count),
        r matches Err(e) ==> e@ == (ErrorKind::BadRequest, "Kuota voucher telah habis"@),
{
    match quota {
        Some(q) => {
            if used_count >= q {
                Err(AppError::from_text(ErrorKind::BadRequest, "Kuota voucher telah habis"))
            } else {
                Ok(())
            }
        },
        None => Ok(()),
    }
}

/// A voucher update that gives no field leaves the voucher as it was.
pub proof fn law_empty_voucher_update<M>(stored: Voucher<M>)
    ensures
        voucher_after_update(
            stored,
            UpdateVoucherRequest {
                code: None,
                description: None,
                discount_type: None,
                discount_value: None,
                min_spend: None,
                max_discount: None,
                quota: None,
                is_active: None,
                start_date: None,
                end_date: None,
            },
        ) == stored,
{
}

/// Applying the same voucher update twice has the effect of applying it once.
pub proof fn law_voucher_update_idempotent<M>(stored: Voucher<M>, req: UpdateVoucherRequest<M>)
    ensures
        voucher_after_update(voucher_after_update(stored, req), req) == voucher_after_update(stored, req),
{
}

/// Editing a voucher never gives back used-up quota: its usage count stays.
pub proof fn law_update_keeps_usage<M>(stored: Voucher<M>, req: UpdateVoucherRequest<M>)
    ensures
        voucher_after_update(stored, req).used_count == stored.used_count,
{
}

/// An update of a voucher replaces each field the request gives by the given
/// value and keeps each field it leaves out; the id, the usage count and the
/// creation time stay.
pub proof fn law_voucher_update_replaces_given_fields<M>(stored: Voucher<M>, req: UpdateVoucherRequest<M>)
    ensures
        ({
            let u = voucher_after_update(stored, req);
            &&& req.code matches Some(x) ==> u.code == x
            &&& req.code is None ==> u.code == stored.code
            &&& req.description matches Some(x) ==> u.description == Some(x)
            &&& req.description is None ==> u.description == stored.description
            &&& req.discount_type matches Some(x) ==> u.discount_type == x
            &&& req.discount_type is None ==> u.discount_type == stored.discount_type
            &&& req.discount_value matches Some(x) ==> u.discount_value == x
            &&& req.discount_value is None ==> u.discount_value == stored.discount_value
            &&& req.min_spend matches Some(x) ==> u.min_spend == Some(x)
            &&& req.min_spend is None ==> u.min_spend == stored.min_spend
            &&& req.max_discount matches Some(x) ==> u.max_discount == Some(x)
            &&& req.max_discount is None ==> u.max_discount == stored.max_discount
            &&& req.quota matches Some(x) ==> u.quota == Some(x)
            &&& req.quota is None ==> u.quota == stored.quota
            &&& req.is_active matches Some(x) ==> u.is_active == x
            &&& req.is_active is None ==> u.is_active == stored.is_active
            &&& req.start_date matches Some(x) ==> u.start_date == Some(x)
            &&& req.start_date is None ==> u.start_date == stored.start_date
            &&& req.end_date matches Some(x) ==> u.end_date == Some(x)
            &&& req.end_date is None ==> u.end_date == stored.end_date
            &&& u.id == stored.id
            &&& u.used_count == stored.used_count
            &&& u.created_at == stored.created_at
        }),
{
}

} // verus!
