//! Public types: tax year, filing status, and error definitions.

use vstd::prelude::*;

verus! {

/// A tax year supported by this crate.
///
/// Each variant corresponds to one embedded set of IRS rate schedules. New
/// variants are added as the IRS publishes updated instructions each year.
#[derive(Debug, Clone, Copy, PartialEq, Eq, Hash, Structural)]
pub enum TaxYear {
    /// Tax year 2023 (filed in 2024).
    Y2023,
    /// Tax year 2024 (filed in 2025).
    Y2024,
    /// Tax year 2025 (filed in 2026).
    Y2025,
}

/// IRS filing status for Form 1040.
///
/// Filing status determines which Tax Table column and which worksheet
/// bracket set applies.
#[derive(Debug, Clone, Copy, PartialEq, Eq, Hash, Structural)]
pub enum FilingStatus {
    /// Unmarried or legally separated/divorced on the last day of the tax
    /// year, and not qualifying for another filing status.
    Single,
    /// Married couples who agree to file a joint return.
    MarriedFilingJointly,
    /// Married individuals who choose to file separate returns.
    MarriedFilingSeparately,
    /// Unmarried individuals who paid more than half the cost of keeping up
    /// a home for a qualifying person.
    HeadOfHousehold,
    /// A surviving spouse with a dependent child. Uses the joint-return
    /// rates: every lookup resolves this status to `MarriedFilingJointly`.
    QualifyingSurvivingSpouse,
}

/// Errors that can occur during tax computation.
#[derive(Debug, Clone, PartialEq, Eq, Structural)]
pub enum TaxError {
    /// The provided taxable income was negative.
    NegativeIncome,
    /// No matching tax bracket was found for the given income.
    ///
    /// [`crate::compute_tax`] proves this unreachable for the embedded data;
    /// it can still arise when caller-supplied rows or brackets (for example
    /// from [`crate::parse::parse_tax_table`]) do not cover an income.
    NoBracketFound,
}

/// The filing status whose table column and bracket set a lookup uses:
/// `QualifyingSurvivingSpouse` resolves to `MarriedFilingJointly`, every
/// other status to itself.
pub open spec fn resolve_spec(status: FilingStatus) -> FilingStatus {
    match status {
        FilingStatus::QualifyingSurvivingSpouse => FilingStatus::MarriedFilingJointly,
        _ => status,
    }
}

/// Normalize a filing status for data lookup. This is the single place where
/// the `QualifyingSurvivingSpouse` alias is applied.
pub fn resolve_status(status: FilingStatus) -> (r: FilingStatus)
    ensures
        r == resolve_spec(status),
        r != FilingStatus::QualifyingSurvivingSpouse,
{
    match status {
        FilingStatus::QualifyingSurvivingSpouse => FilingStatus::MarriedFilingJointly,
        _ => status,
    }
}

impl TaxYear {
    /// Human-readable label of the year.
    pub fn label(&self) -> (r: &'static str)
        ensures
            *self == TaxYear::Y2023 ==> r@ == "2023"@,
            *self == TaxYear::Y2024 ==> r@ == "2024"@,
            *self == TaxYear::Y2025 ==> r@ == "2025"@,
    {
        match self {
            TaxYear::Y2023 => "2023",
            TaxYear::Y2024 => "2024",
            TaxYear::Y2025 => "2025",
        }
    }
}

impl FilingStatus {
    /// Human-readable label of the filing status.
    pub fn label(&self) -> (r: &'static str)
        ensures
            *self == FilingStatus::Single ==> r@ == "Single"@,
            *self == FilingStatus::MarriedFilingJointly ==> r@ == "Married Filing Jointly"@,
            *self == FilingStatus::MarriedFilingSeparately ==> r@ == "Married Filing Separately"@,
            *self == FilingStatus::HeadOfHousehold ==> r@ == "Head of Household"@,
            *self == FilingStatus::QualifyingSurvivingSpouse ==> r@
                == "Qualifying Surviving Spouse"@,
    {
        match self {
            FilingStatus::Single => "Single",
            FilingStatus::MarriedFilingJointly => "Married Filing Jointly",
            FilingStatus::MarriedFilingSeparately => "Married Filing Separately",
            FilingStatus::HeadOfHousehold => "Head of Household",
            FilingStatus::QualifyingSurvivingSpouse => "Qualifying Surviving Spouse",
        }
    }
}

impl TaxError {
    /// Human-readable description of the error.
    pub fn label(&self) -> (r: &'static str)
        ensures
            *self == TaxError::NegativeIncome ==> r@ == "taxable income cannot be negative"@,
            *self == TaxError::NoBracketFound ==> r@ == "no matching tax bracket found"@,
    {
        match self {
            TaxError::NegativeIncome => "taxable income cannot be negative",
            TaxError::NoBracketFound => "no matching tax bracket found",
        }
    }
}

} // verus!
