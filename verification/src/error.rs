//! Errors of the app's commands.

use vstd::prelude::*;
use crate::db::sql::DbError;

verus! {

#[derive(Debug)]
pub enum AppError {
    /// No todo has this id.
    TodoNotFound(i64),
    Database(DbError),
}

/// A statement failed inside SQLite.
pub open spec fn is_sqlite_failure(e: AppError) -> bool {
    e matches AppError::Database(DbError::Sqlite(_))
}

/// A query failed inside SQLite, or one of its columns did not hold the kind
/// of value read from it.
pub open spec fn is_read_failure(e: AppError) -> bool {
    e matches AppError::Database(d) && (d is Sqlite || d is ColumnType)
}

/// `TodoNotFound` for this id.
pub open spec fn is_not_found(e: AppError, id: i64) -> bool {
    e matches AppError::TodoNotFound(x) && x == id
}

} // verus!
