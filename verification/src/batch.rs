//! Validating the shape of an instrument batch before pricing.
//!
//! A batch must carry the four numeric parameter columns `asset_price`,
//! `strike`, `maturity` and `sigma`, all of one row count and with no nulls.
//! The host layer reduces what it found for each required column to a
//! [`ColumnStatus`]; [`validate_batch`] then decides, before any computation,
//! whether pricing may start and which [`PricingError`] to fail with if not.
//! Columns are examined in a fixed order (asset price, strike, maturity,
//! sigma) and schema faults are reported before row-count mismatches, which
//! are reported before missing values.

use vstd::prelude::*;

verus! {

use crate::error::ColumnKind;
use crate::error::PricingError;

/// What the host found for one required column of the batch.
#[derive(Clone, Copy, Debug, PartialEq, Eq, Structural)]
pub enum ColumnStatus {
    /// No column of that name exists.
    Missing,
    /// A column of that name exists but does not hold numeric values.
    NonNumeric,
    /// A numeric column with `len` rows, `null_count` of them null.
    Numeric { len: usize, null_count: usize },
}

/// The statuses of the four required columns of one batch.
#[derive(Clone, Copy, Debug, PartialEq, Eq, Structural)]
pub struct BatchShape {
    pub asset_price: ColumnStatus,
    pub strike: ColumnStatus,
    pub maturity: ColumnStatus,
    pub sigma: ColumnStatus,
}

/// A column is usable at row count `n` when it is numeric, has exactly `n`
/// rows, and holds no null.
pub open spec fn column_usable(status: ColumnStatus, n: int) -> bool {
    status matches ColumnStatus::Numeric { len, null_count } && len == n && null_count == 0
}

/// The batch's row count: the row count of its asset price column. Only
/// meaningful once the schema has been checked.
pub open spec fn batch_rows(shape: BatchShape) -> int {
    match shape.asset_price {
        ColumnStatus::Numeric { len, .. } => len as int,
        _ => 0,
    }
}

/// A batch may be priced exactly when all four required columns are numeric,
/// of one shared row count, and free of nulls.
pub open spec fn batch_ok(shape: BatchShape) -> bool {
    &&& column_usable(shape.asset_price, batch_rows(shape))
    &&& column_usable(shape.strike, batch_rows(shape))
    &&& column_usable(shape.maturity, batch_rows(shape))
    &&& column_usable(shape.sigma, batch_rows(shape))
}

/// The schema fault of one column, if any.
pub open spec fn schema_fault_of(status: ColumnStatus, kind: ColumnKind) -> Option<PricingError> {
    match status {
        ColumnStatus::Missing => Some(PricingError::MissingColumn { column: kind }),
        ColumnStatus::NonNumeric => Some(PricingError::NonNumericColumn { column: kind }),
        ColumnStatus::Numeric { .. } => None,
    }
}

/// The row-count fault of one column against the batch row count, if any.
/// Only meaningful for a numeric column.
pub open spec fn length_fault_of(status: ColumnStatus, kind: ColumnKind, n: int) -> Option<
    PricingError,
> {
    match status {
        ColumnStatus::Numeric { len, .. } => if len != n {
            Some(PricingError::LengthMismatch { column: kind })
        } else {
            None
        },
        _ => None,
    }
}

/// The missing-value fault of one column, if any. Only meaningful for a
/// numeric column.
pub open spec fn null_fault_of(status: ColumnStatus, kind: ColumnKind) -> Option<PricingError> {
    match status {
        ColumnStatus::Numeric { null_count, .. } => if null_count != 0 {
            Some(PricingError::MissingValues { column: kind })
        } else {
            None
        },
        _ => None,
    }
}

/// The first of two possible faults.
pub open spec fn first_fault(a: Option<PricingError>, b: Option<PricingError>) -> Option<
    PricingError,
> {
    if a is Some {
        a
    } else {
        b
    }
}

/// The fault `validate_batch` reports for a shape, if any: the first schema
/// fault in column order, else the first row-count mismatch against the asset
/// price column, else the first column with nulls.
pub open spec fn batch_fault(shape: BatchShape) -> Option<PricingError> {
    first_fault(
        first_fault(
            first_fault(
                schema_fault_of(shape.asset_price, ColumnKind::AssetPrice),
                schema_fault_of(shape.strike, ColumnKind::Strike),
            ),
            first_fault(
                schema_fault_of(shape.maturity, ColumnKind::Maturity),
                schema_fault_of(shape.sigma, ColumnKind::Sigma),
            ),
        ),
        first_fault(
            first_fault(
                first_fault(
                    length_fault_of(shape.strike, ColumnKind::Strike, batch_rows(shape)),
                    length_fault_of(shape.maturity, ColumnKind::Maturity, batch_rows(shape)),
                ),
                length_fault_of(shape.sigma, ColumnKind::Sigma, batch_rows(shape)),
            ),
            first_fault(
                first_fault(
                    null_fault_of(shape.asset_price, ColumnKind::AssetPrice),
                    null_fault_of(shape.strike, ColumnKind::Strike),
                ),
                first_fault(
                    null_fault_of(shape.maturity, ColumnKind::Maturity),
                    null_fault_of(shape.sigma, ColumnKind::Sigma),
                ),
            ),
        ),
    )
}

/// Decide whether a batch of this shape may be priced. Returns the shared row
/// count when it may, and the exact fault when it may not: either a fully
/// priced batch will be produced from these columns, or this error is
/// surfaced before any computation.
pub fn validate_batch(shape: &BatchShape) -> (r: Result<usize, PricingError>)
    ensures
        r is Ok <==> batch_ok(*shape),
        r matches Ok(n) ==> n == batch_rows(*shape),
        r matches Err(e) ==> batch_fault(*shape) == Some(e),
{
    let n: usize = match shape.asset_price {
        ColumnStatus::Missing => {
            return Err(PricingError::MissingColumn { column: ColumnKind::AssetPrice });
        },
        ColumnStatus::NonNumeric => {
            return Err(PricingError::NonNumericColumn { column: ColumnKind::AssetPrice });
        },
        ColumnStatus::Numeric { len, .. } => len,
    };
    match shape.strike {
        ColumnStatus::Missing => {
            return Err(PricingError::MissingColumn { column: ColumnKind::Strike });
        },
        ColumnStatus::NonNumeric => {
            return Err(PricingError::NonNumericColumn { column: ColumnKind::Strike });
        },
        ColumnStatus::Numeric { .. } => (),
    }
    match shape.maturity {
        ColumnStatus::Missing => {
            return Err(PricingError::MissingColumn { column: ColumnKind::Maturity });
        },
        ColumnStatus::NonNumeric => {
            return Err(PricingError::NonNumericColumn { column: ColumnKind::Maturity });
        },
        ColumnStatus::Numeric { .. } => (),
    }
    match shape.sigma {
        ColumnStatus::Missing => {
            return Err(PricingError::MissingColumn { column: ColumnKind::Sigma });
        },
        ColumnStatus::NonNumeric => {
            return Err(PricingError::NonNumericColumn { column: ColumnKind::Sigma });
        },
        ColumnStatus::Numeric { .. } => (),
    }
    if column_len(&shape.strike) != n {
        return Err(PricingError::LengthMismatch { column: ColumnKind::Strike });
    }
    if column_len(&shape.maturity) != n {
        return Err(PricingError::LengthMismatch { column: ColumnKind::Maturity });
    }
    if column_len(&shape.sigma) != n {
        return Err(PricingError::LengthMismatch { column: ColumnKind::Sigma });
    }
    if column_nulls(&shape.asset_price) != 0 {
        return Err(PricingError::MissingValues { column: ColumnKind::AssetPrice });
    }
    if column_nulls(&shape.strike) != 0 {
        return Err(PricingError::MissingValues { column: ColumnKind::Strike });
    }
    if column_nulls(&shape.maturity) != 0 {
        return Err(PricingError::MissingValues { column: ColumnKind::Maturity });
    }
    if column_nulls(&shape.sigma) != 0 {
        return Err(PricingError::MissingValues { column: ColumnKind::Sigma });
    }
    Ok(n)
}

/// The row count of a column already known to be numeric.
fn column_len(status: &ColumnStatus) -> (n: usize)
    requires
        *status matches ColumnStatus::Numeric { len, null_count },
    ensures
        *status matches ColumnStatus::Numeric { len, null_count } && n == len,
{
    match status {
        ColumnStatus::Numeric { len, .. } => *len,
        _ => 0,
    }
}

/// The null count of a column already known to be numeric.
fn column_nulls(status: &ColumnStatus) -> (n: usize)
    requires
        *status matches ColumnStatus::Numeric { len, null_count },
    ensures
        *status matches ColumnStatus::Numeric { len, null_count } && n == null_count,
{
    match status {
        ColumnStatus::Numeric { null_count, .. } => *null_count,
        _ => 0,
    }
}

} // verus!
