//! Federal income tax computation from the IRS Tax Table and Tax Computation
//! Worksheet.
//!
//! The single public operation is [`compute_tax`]: given a tax year, a filing
//! status and a whole-dollar taxable income it returns the tax owed, using the
//! discrete Tax Table for incomes below $100,000 and the per-bracket worksheet
//! formula `income * rate - subtraction_amount` at or above that threshold.
//!
//! Every function carries a contract that pins its result down to the
//! mathematical model of the embedded per-year rate schedules.

pub mod compute;
pub mod laws;
pub mod parse;
pub mod schedule;
pub mod table;
pub mod types;
pub mod worksheet;

pub use compute::compute_tax;
pub use types::FilingStatus;
pub use types::TaxError;
pub use types::TaxYear;

