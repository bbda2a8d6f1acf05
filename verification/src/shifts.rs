use vstd::prelude::*;
use crate::clock::{is_utc_rfc3339_text, now_rfc3339};
use crate::error::{AppError, ErrorKind};
use crate::ids::{is_uuid_v4_text, new_id};

verus! {

/// The query of the active-shift lookup: an optional branch to look in.
#[derive(Clone, Debug, PartialEq, Eq)]
pub struct ActiveShiftQuery {
    pub branch_id: Option<String>,
}

/// A cashier's shift at a branch. Cash amounts are of type `M`: the library
/// carries them but never computes with them.
#[derive(Clone, Debug, PartialEq)]
pub struct CashierShift<M> {
    pub id: String,
    pub user_id: String,
    pub user_name: Option<String>,
    pub branch_id: String,
    pub branch_name: Option<String>,
    pub start_time: String,
    pub end_time: Option<String>,
    pub starting_cash: M,
    pub actual_cash: Option<M>,
    pub expected_cash: Option<M>,
    pub difference: Option<M>,
    pub notes: Option<String>,
    /// `OPEN` or `CLOSED`.
    pub status: String,
    pub created_at: String,
}

/// The body of a request that opens a shift.
#[derive(Clone, Debug, PartialEq)]
pub struct OpenShiftRequest<M> {
    pub branch_id: String,
    pub starting_cash: M,
    pub notes: Option<String>,
}

/// The body of a request that closes a shift.
#[derive(Clone, Debug, PartialEq)]
pub struct CloseShiftRequest<M> {
    pub shift_id: String,
    pub actual_cash: M,
    pub notes: Option<String>,
}

/// A shift can be closed unless it already is.
pub open spec fn can_close<M>(shift: CashierShift<M>) -> bool {
    shift.status@ != "CLOSED"@
}

impl<M> CashierShift<M> {
    /// A newly opened shift of `user_id` at the requested branch: a fresh
    /// id, the starting cash and notes, status `OPEN`, started now, not yet
    /// counted.
    pub fn open(user_id: String, req: OpenShiftRequest<M>) -> (s: CashierShift<M>)
        ensures
            is_uuid_v4_text(s.id@),
            s.user_id == user_id,
            s.branch_id == req.branch_id,
            s.starting_cash == req.starting_cash,
            s.notes == req.notes,
            s.status@ == "OPEN"@,
            s.start_time == s.created_at,
            is_utc_rfc3339_text(s.start_time@),
            s.end_time is None,
            s.actual_cash is None && s.expected_cash is None && s.difference is None,
            s.user_name is None && s.branch_name is None,
            can_close(s),
    {
        proof {
            reveal_strlit("OPEN");
            reveal_strlit("CLOSED");
            assert("OPEN"@.len() != "CLOSED"@.len());
        }
        let now = now_rfc3339();
        CashierShift {
            id: new_id(),
            user_id,
            user_name: None,
            branch_id: req.branch_id,
            branch_name: None,
            start_time: now.clone(),
            end_time: None,
            starting_cash: req.starting_cash,
            actual_cash: None,
            expected_cash: None,
            difference: None,
            notes: req.notes,
            status: String::from_str("OPEN"),
            created_at: now,
        }
    }

    /// Closes the shift at time `now` with the counted cash, the cash the
    /// system expected and their difference, and the closing notes (which
    /// replace the opening ones). A shift that is already closed is refused.
    pub fn close(
        self,
        actual_cash: M,
        expected_cash: M,
        difference: M,
        notes: Option<String>,
        now: String,
    ) -> (r: Result<CashierShift<M>, AppError>)
        ensures
            r is Ok <==> can_close(self),
            r matches Err(e) ==> e@ == (ErrorKind::BadRequest, "Shift ini sudah ditutup sebelumnya"@),
            r matches Ok(c) ==> {
                &&& c.id == self.id
                &&& c.user_id == self.user_id
                &&& c.user_name == self.user_name
                &&& c.branch_name == self.branch_name
                &&& c.branch_id == self.branch_id
                &&& c.start_time == self.start_time
                &&& c.starting_cash == self.starting_cash
                &&& c.created_at == self.created_at
                &&& c.end_time == Some(now)
                &&& c.actual_cash == Some(actual_cash)
                &&& c.expected_cash == Some(expected_cash)
                &&& c.difference == Some(difference)
                &&& c.notes == notes
                &&& c.status@ == "CLOSED"@
                &&& !can_close(c)
            },
    {
        match ensure_shift_open(&self.status) {
            Err(e) => Err(e),
            Ok(()) => Ok(CashierShift {
                id: self.id,
                user_id: self.user_id,
                user_name: self.user_name,
                branch_id: self.branch_id,
                branch_name: self.branch_name,
                start_time: self.start_time,
                end_time: Some(now),
                starting_cash: self.starting_cash,
                actual_cash: Some(actual_cash),
                expected_cash: Some(expected_cash),
                difference: Some(difference),
                notes,
                status: String::from_str("CLOSED"),
                created_at: self.created_at,
            }),
        }
    }
}

/// Refuses to open a shift for a cashier who already has one open in the
/// branch (`existing_open` is its id, if any).
pub fn ensure_no_open_shift(existing_open: Option<String>) -> (r: Result<(), AppError>)
    ensures
        existing_open is None <==> r is Ok,
        r matches Err(e) ==> e@ == (
            ErrorKind::BadRequest,
            "Anda masih memiliki shift aktif di cabang ini"@,
        ),
{
    match existing_open {
        Some(_) => Err(
            AppError::from_text(ErrorKind::BadRequest, "Anda masih memiliki shift aktif di cabang ini"),
        ),
        None => Ok(()),
    }
}

/// Refuses to close a shift that is already closed.
pub fn ensure_shift_open(status: &String) -> (r: Result<(), AppError>)
    ensures
        r is Ok <==> status@ != "CLOSED"@,
        r matches Err(e) ==> e@ == (ErrorKind::BadRequest, "Shift ini sudah ditutup sebelumnya"@),
{
    if *status == String::from_str("CLOSED") {
        Err(AppError::from_text(ErrorKind::BadRequest, "Shift ini sudah ditutup sebelumnya"))
    } else {
        Ok(())
    }
}

// ---------------------------------------------------------------------------
// The shift table: a cashier has at most one open shift per branch
// ---------------------------------------------------------------------------

/// Whether a shift is open (`status = 'OPEN'`).
pub open spec fn is_open<M>(shift: CashierShift<M>) -> bool {
    shift.status@ == "OPEN"@
}

/// Whether `shift` is an open shift of `user` at `branch`.
pub open spec fn is_open_shift_of<M>(shift: CashierShift<M>, user: Seq<char>, branch: Seq<char>) -> bool {
    is_open(shift) && shift.user_id@ == user && shift.branch_id@ == branch
}

/// What the lookup before a shift is opened finds: whether the table holds
/// an open shift of `user` at `branch`.
pub open spec fn has_open_shift<M>(table: Seq<CashierShift<M>>, user: Seq<char>, branch: Seq<char>) -> bool {
    exists|i: int| 0 <= i < table.len() && is_open_shift_of(#[trigger] table[i], user, branch)
}

/// No cashier has two open shifts at one branch.
pub open spec fn at_most_one_open<M>(table: Seq<CashierShift<M>>) -> bool {
    forall|i: int, j: int|
        0 <= i < table.len() && 0 <= j < table.len() && i != j && is_open(#[trigger] table[i])
            && is_open(#[trigger] table[j]) ==> !(table[i].user_id@ == table[j].user_id@
            && table[i].branch_id@ == table[j].branch_id@)
}

/// The shift table after a request to open `opened`: unchanged when its
/// cashier already has an open shift at its branch (the request is refused
/// by `ensure_no_open_shift`), else with `opened` inserted.
pub open spec fn table_after_open<M>(table: Seq<CashierShift<M>>, opened: CashierShift<M>) -> Seq<CashierShift<M>> {
    if has_open_shift(table, opened.user_id@, opened.branch_id@) {
        table
    } else {
        table.push(opened)
    }
}

/// The shift table after the shift at position `k` is overwritten by its
/// closed version (shift ids are unique, so `UPDATE ... WHERE id = ?`
/// changes that one row).
pub open spec fn table_after_close<M>(table: Seq<CashierShift<M>>, k: int, closed: CashierShift<M>) -> Seq<CashierShift<M>> {
    table.update(k, closed)
}

/// Opening a shift keeps every cashier at one open shift per branch at
/// most, whether the request is refused or accepted; and when the shift
/// that `CashierShift::open` made is open, its cashier afterwards has an
/// open shift at its branch.
pub proof fn law_open_keeps_one_open<M>(table: Seq<CashierShift<M>>, opened: CashierShift<M>)
    requires
        at_most_one_open(table),
    ensures
        at_most_one_open(table_after_open(table, opened)),
        is_open(opened) ==> has_open_shift(
            table_after_open(table, opened),
            opened.user_id@,
            opened.branch_id@,
        ),
{
    let t = table_after_open(table, opened);
    if !has_open_shift(table, opened.user_id@, opened.branch_id@) {
        assert forall|i: int, j: int|
            0 <= i < t.len() && 0 <= j < t.len() && i != j && is_open(#[trigger] t[i]) && is_open(
                #[trigger] t[j],
            ) implies !(t[i].user_id@ == t[j].user_id@ && t[i].branch_id@ == t[j].branch_id@) by {
            if i < table.len() && j < table.len() {
                assert(t[i] == table[i] && t[j] == table[j]);
            } else if i < table.len() {
                assert(t[i] == table[i]);
                if t[i].user_id@ == t[j].user_id@ && t[i].branch_id@ == t[j].branch_id@ {
                    assert(is_open_shift_of(table[i], opened.user_id@, opened.branch_id@));
                }
            } else {
                assert(t[j] == table[j]);
                if t[i].user_id@ == t[j].user_id@ && t[i].branch_id@ == t[j].branch_id@ {
                    assert(is_open_shift_of(table[j], opened.user_id@, opened.branch_id@));
                }
            }
        }
        if is_open(opened) {
            assert(is_open_shift_of(t[table.len() as int], opened.user_id@, opened.branch_id@));
        }
    }
}

/// Closing a shift keeps every cashier at one open shift per branch at
/// most; when the closed shift was open, its cashier afterwards has no open
/// shift at that branch, so a new one can be opened.
pub proof fn law_close_keeps_one_open<M>(table: Seq<CashierShift<M>>, k: int, closed: CashierShift<M>)
    requires
        at_most_one_open(table),
        0 <= k < table.len(),
        closed.status@ == "CLOSED"@,
    ensures
        at_most_one_open(table_after_close(table, k, closed)),
        is_open(table[k]) ==> !has_open_shift(
            table_after_close(table, k, closed),
            table[k].user_id@,
            table[k].branch_id@,
        ),
{
    reveal_strlit("OPEN");
    reveal_strlit("CLOSED");
    assert("OPEN"@.len() != "CLOSED"@.len());
    assert(!is_open(closed));
    let t = table_after_close(table, k, closed);
    assert forall|i: int, j: int|
        0 <= i < t.len() && 0 <= j < t.len() && i != j && is_open(#[trigger] t[i]) && is_open(
            #[trigger] t[j],
        ) implies !(t[i].user_id@ == t[j].user_id@ && t[i].branch_id@ == t[j].branch_id@) by {
        assert(i != k && j != k);
        assert(t[i] == table[i] && t[j] == table[j]);
    }
    if is_open(table[k]) && has_open_shift(t, table[k].user_id@, table[k].branch_id@) {
        let w = choose|w: int| 0 <= w < t.len() && is_open_shift_of(#[trigger] t[w], table[k].user_id@, table[k].branch_id@);
        assert(w != k);
        assert(t[w] == table[w]);
        assert(is_open(table[w]) && is_open(table[k]));
    }
}

} // verus!
