//! The error taxonomy of the pricing engine.
//!
//! Every failure the engine can report is a value of [`PricingError`]: a
//! schema fault (a required column absent or not numeric), a missing-value
//! fault (a null in a required column), a row-count mismatch between the
//! required columns, or a failure to discover the host's parallelism. The
//! engine never substitutes a default for bad input and never returns a
//! partially priced batch.

use vstd::prelude::*;

verus! {

/// One of the four per-instrument parameter columns the engine requires.
#[derive(Clone, Copy, Debug, PartialEq, Eq, Structural)]
pub enum ColumnKind {
    AssetPrice,
    Strike,
    Maturity,
    Sigma,
}

impl ColumnKind {
    /// The column's name in the batch, as the engine expects to find it.
    pub open spec fn spec_name(self) -> Seq<char> {
        match self {
            ColumnKind::AssetPrice => "asset_price"@,
            ColumnKind::Strike => "strike"@,
            ColumnKind::Maturity => "maturity"@,
            ColumnKind::Sigma => "sigma"@,
        }
    }

    /// The column's name in the batch.
    pub fn name(&self) -> (s: &'static str)
        ensures
            s@ == self.spec_name(),
    {
        match self {
            ColumnKind::AssetPrice => "asset_price",
            ColumnKind::Strike => "strike",
            ColumnKind::Maturity => "maturity",
            ColumnKind::Sigma => "sigma",
        }
    }
}

/// Why a pricing call failed. No variant carries a partial result: a call
/// either produces a fully priced batch or one of these.
#[derive(Clone, Copy, Debug, PartialEq, Eq, Structural)]
pub enum PricingError {
    /// A required column is absent from the batch.
    MissingColumn { column: ColumnKind },
    /// A required column is present but does not hold numeric values.
    NonNumericColumn { column: ColumnKind },
    /// A required column holds at least one null; the engine never fills one in.
    MissingValues { column: ColumnKind },
    /// A required column's row count differs from the first required column's.
    LengthMismatch { column: ColumnKind },
    /// The host could not report its available execution units; the caller
    /// should fall back to the serial entry point.
    ParallelismUnavailable,
}

/// The name of the column the engine attaches to a priced batch.
pub fn output_column_name() -> (s: &'static str)
    ensures
        s@ == "option_price"@,
{
    "option_price"
}

} // verus!
