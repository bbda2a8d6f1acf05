use vstd::prelude::*;

verus! {

/// The name the library gives to the outcome of `bcrypt::verify` on a
/// password and a stored hash: `Some(matches)` when the hash can be read,
/// `None` when bcrypt reports an error. The outcome depends on the two
/// strings alone: the salt and cost come from the hash.
pub uninterp spec fn bcrypt_verify_outcome(password: Seq<char>, hash: Seq<char>) -> Option<bool>;

/// The prefix bcrypt writes for the default cost: version `2b`, cost 12.
pub open spec fn default_cost_prefix() -> Seq<char> {
    seq!['$', '2', 'b', '$', '1', '2', '$']
}

#[verifier::external_body]
/// Calls `bcrypt::verify(password, hash)`. Claims that the result is the
/// named outcome for these two strings; an error is handed back as its
/// display text.
pub(crate) fn bcrypt_verify(password: &str, hash: &str) -> (r: Result<bool, String>)
    ensures
        match r {
            Ok(b) => bcrypt_verify_outcome(password@, hash@) == Some(b),
            Err(_) => bcrypt_verify_outcome(password@, hash@) is None,
        },
{
    bcrypt::verify(password, hash).map_err(|e| e.to_string())
}

#[verifier::external_body]
/// Calls `bcrypt::hash(password, bcrypt::DEFAULT_COST)`, which draws a
/// random salt. Claims of every successful outcome what the bcrypt source
/// shows: the text is `$2b$12$` followed by a 22-character salt and a
/// 31-character digest (60 characters in all), and `bcrypt::verify` of the
/// same password against it succeeds with `true` (it re-hashes with the salt
/// and cost read from the text). A failure (the random source failing) is
/// handed back as its display text.
pub(crate) fn bcrypt_hash(password: &str) -> (r: Result<String, String>)
    ensures
        r matches Ok(h) ==> h@.len() == 60 && h@.subrange(0, 7) == default_cost_prefix()
            && bcrypt_verify_outcome(password@, h@) == Some(true),
{
    bcrypt::hash(password, bcrypt::DEFAULT_COST).map_err(|e| e.to_string())
}

} // verus!
