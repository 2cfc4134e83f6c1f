//! Decisions of the storage layer: how storage failures become application
//! errors, and the text of queries built at run time.
use vstd::prelude::*;
use crate::errors::AppError;

verus! {

/// A failure reported by the database layer.
#[derive(Debug, Clone)]
pub enum DbFailure {
    /// The query that must return a row returned none.
    RowNotFound,
    /// Any other failure, by its message.
    Other(String),
}

impl AppError {
    /// The application error for a storage failure: a missing row is a
    /// missing record; anything else is a database error with its message.
    pub fn from_db_failure(f: DbFailure) -> (e: AppError)
        ensures
            match f {
                DbFailure::RowNotFound => e matches AppError::NotFound(w) && w@ == "record"@,
                DbFailure::Other(m) => e == AppError::Database(m),
            },
    {
        match f {
            DbFailure::RowNotFound => AppError::NotFound(String::from_str("record")),
            DbFailure::Other(m) => AppError::Database(m),
        }
    }
}

/// The error of a lookup of one `entity` (such as `Ride`) that failed: a
/// missing row is that entity not found; anything else a database error.
pub fn lookup_failure(f: DbFailure, entity: &str) -> (e: AppError)
    ensures
        match f {
            DbFailure::RowNotFound => e matches AppError::NotFound(w) && w@ == entity@,
            DbFailure::Other(m) => e == AppError::Database(m),
        },
{
    match f {
        DbFailure::RowNotFound => AppError::NotFound(String::from_str(entity)),
        DbFailure::Other(m) => AppError::Database(m),
    }
}

/// The error of an SOS event lookup that failed.
pub fn sos_lookup_failure(f: DbFailure) -> (e: AppError)
    ensures
        match f {
            DbFailure::RowNotFound => e == AppError::SosNotFound,
            DbFailure::Other(m) => e == AppError::Database(m),
        },
{
    match f {
        DbFailure::RowNotFound => AppError::SosNotFound,
        DbFailure::Other(m) => AppError::Database(m),
    }
}

/// The outcome of deleting a user's emergency contact, by the number of rows
/// removed: none removed means the contact was not found.
pub fn contact_delete_outcome(rows_affected: u64) -> (r: Result<(), AppError>)
    ensures
        r is Ok <==> rows_affected != 0,
        r matches Err(e) ==> e matches AppError::NotFound(w) && w@ == "Emergency contact"@,
{
    if rows_affected == 0 {
        return Err(AppError::NotFound(String::from_str("Emergency contact")));
    }
    Ok(())
}

/// `n` placeholders `?` separated by `", "`.
pub open spec fn spec_placeholders(n: nat) -> Seq<char>
    decreases n,
{
    if n == 0 {
        Seq::empty()
    } else if n == 1 {
        seq!['?']
    } else {
        spec_placeholders((n - 1) as nat) + ", ?"@
    }
}

/// The query reading the stored locations of `n` users.
pub open spec fn spec_group_locations_query(n: nat) -> Seq<char> {
    "SELECT user_id, latitude, longitude, speed, accuracy, recorded_at FROM locations WHERE user_id IN ("@
        + spec_placeholders(n) + ")"@
}

/// The query reading the stored locations of `n` users (one placeholder per
/// user id).
pub fn group_locations_query(n: usize) -> (q: String)
    ensures
        q@ == spec_group_locations_query(n as nat),
{
    let mut q = String::from_str(
        "SELECT user_id, latitude, longitude, speed, accuracy, recorded_at FROM locations WHERE user_id IN (",
    );
    let ghost prefix = q@;
    let mut i: usize = 0;
    while i < n
        invariant
            0 <= i <= n,
            q@ == prefix + spec_placeholders(i as nat),
        decreases n - i,
    {
        if i == 0 {
            q.append("?");
            proof {
                reveal_strlit("?");
                assert(spec_placeholders(1) =~= "?"@);
            }
        } else {
            q.append(", ?");
        }
        i = i + 1;
    }
    q.append(")");
    q
}

} // verus!
