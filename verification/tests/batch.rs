use option_pricer::batch::{validate_batch, BatchShape, ColumnStatus};
use option_pricer::error::{output_column_name, ColumnKind, PricingError};

fn numeric(len: usize, null_count: usize) -> ColumnStatus {
    ColumnStatus::Numeric { len, null_count }
}

fn clean_shape(len: usize) -> BatchShape {
    BatchShape {
        asset_price: numeric(len, 0),
        strike: numeric(len, 0),
        maturity: numeric(len, 0),
        sigma: numeric(len, 0),
    }
}

#[test]
fn clean_batch_is_accepted() {
    assert_eq!(validate_batch(&clean_shape(3)), Ok(3));
}

#[test]
fn empty_batch_is_accepted() {
    assert_eq!(validate_batch(&clean_shape(0)), Ok(0));
}

#[test]
fn missing_asset_price_column_is_reported() {
    let mut shape = clean_shape(3);
    shape.asset_price = ColumnStatus::Missing;
    assert_eq!(
        validate_batch(&shape),
        Err(PricingError::MissingColumn { column: ColumnKind::AssetPrice })
    );
}

#[test]
fn non_numeric_strike_column_is_reported() {
    let mut shape = clean_shape(3);
    shape.strike = ColumnStatus::NonNumeric;
    assert_eq!(
        validate_batch(&shape),
        Err(PricingError::NonNumericColumn { column: ColumnKind::Strike })
    );
}

#[test]
fn earlier_schema_fault_wins() {
    let mut shape = clean_shape(3);
    shape.maturity = ColumnStatus::Missing;
    shape.sigma = ColumnStatus::NonNumeric;
    assert_eq!(
        validate_batch(&shape),
        Err(PricingError::MissingColumn { column: ColumnKind::Maturity })
    );
}

#[test]
fn schema_fault_beats_missing_values() {
    let mut shape = clean_shape(3);
    shape.asset_price = numeric(3, 1);
    shape.sigma = ColumnStatus::NonNumeric;
    assert_eq!(
        validate_batch(&shape),
        Err(PricingError::NonNumericColumn { column: ColumnKind::Sigma })
    );
}

#[test]
fn row_count_mismatch_is_reported() {
    let mut shape = clean_shape(3);
    shape.strike = numeric(2, 0);
    assert_eq!(
        validate_batch(&shape),
        Err(PricingError::LengthMismatch { column: ColumnKind::Strike })
    );
}

#[test]
fn earlier_row_count_mismatch_wins() {
    let mut shape = clean_shape(3);
    shape.maturity = numeric(4, 0);
    shape.sigma = numeric(5, 0);
    assert_eq!(
        validate_batch(&shape),
        Err(PricingError::LengthMismatch { column: ColumnKind::Maturity })
    );
}

#[test]
fn row_count_mismatch_beats_missing_values() {
    let mut shape = clean_shape(3);
    shape.strike = numeric(2, 0);
    shape.maturity = numeric(3, 1);
    assert_eq!(
        validate_batch(&shape),
        Err(PricingError::LengthMismatch { column: ColumnKind::Strike })
    );
}

#[test]
fn null_in_asset_price_is_reported() {
    let mut shape = clean_shape(3);
    shape.asset_price = numeric(3, 1);
    assert_eq!(
        validate_batch(&shape),
        Err(PricingError::MissingValues { column: ColumnKind::AssetPrice })
    );
}

#[test]
fn earlier_null_fault_wins() {
    let mut shape = clean_shape(4);
    shape.strike = numeric(4, 2);
    shape.sigma = numeric(4, 4);
    assert_eq!(
        validate_batch(&shape),
        Err(PricingError::MissingValues { column: ColumnKind::Strike })
    );
}

#[test]
fn required_column_names() {
    assert_eq!(ColumnKind::AssetPrice.name(), "asset_price");
    assert_eq!(ColumnKind::Strike.name(), "strike");
    assert_eq!(ColumnKind::Maturity.name(), "maturity");
    assert_eq!(ColumnKind::Sigma.name(), "sigma");
}

#[test]
fn output_column_is_option_price() {
    assert_eq!(output_column_name(), "option_price");
}
