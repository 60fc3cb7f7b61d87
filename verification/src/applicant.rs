//! Loan applicants and the rules by which a loan is granted.

use vstd::prelude::*;

verus! {

/// The youngest age at which an applicant is eligible.
pub const MIN_AGE: u8 = 21;

/// The oldest age at which an applicant is eligible.
pub const MAX_AGE: u8 = 65;

/// The lowest income of their own with which an applicant is eligible.
pub const MIN_INCOME: u32 = 30_000;

/// Why a loan is not granted.
#[derive(Clone, Copy, Debug, PartialEq, Eq, Structural)]
pub enum LoanError {
    /// The applicant's age is outside the eligible range.
    AgeError { age: u8 },
    /// An income is below what is required: the applicant's own income
    /// below the minimum, or the income of applicant and co-applicant
    /// together below half of the amount asked for.
    IncomeError { income: u64, required: u64 },
}

/// Someone who applies for a loan, alone or with one co-applicant.
pub struct Applicant {
    pub name: String,
    pub age: u8,
    pub income: u32,
    pub loan_amount: u32,
    pub co_applicant: Option<Box<Applicant>>,
}

/// What is known of a loan that was granted.
#[derive(Clone, Copy, Debug, PartialEq, Eq)]
pub struct Approval {
    /// The income that the loan was granted on: the applicant's and the
    /// co-applicant's together.
    pub total_income: u64,
    /// Whether the co-applicant, if there is one, would be eligible alone.
    /// It does not bear on the decision.
    pub co_applicant: Option<Result<(), LoanError>>,
}

impl Applicant {
    /// Whether this applicant is eligible by age and own income, and if not,
    /// why not. The age is examined first.
    pub open spec fn eligibility(&self) -> Result<(), LoanError> {
        if self.age < MIN_AGE || self.age > MAX_AGE {
            Err(LoanError::AgeError { age: self.age })
        } else if self.income < MIN_INCOME {
            Err(LoanError::IncomeError { income: self.income as u64, required: MIN_INCOME as u64 })
        } else {
            Ok(())
        }
    }

    /// The applicant's income and, if there is a co-applicant, the
    /// co-applicant's own income, added up.
    pub open spec fn spec_total_income(&self) -> int {
        match self.co_applicant {
            Some(co) => self.income + co.income,
            None => self.income as int,
        }
    }

    /// The eligibility of the co-applicant, if there is one.
    pub open spec fn co_applicant_eligibility(&self) -> Option<Result<(), LoanError>> {
        match self.co_applicant {
            Some(co) => Some(co.eligibility()),
            None => None,
        }
    }

    /// The decision on the loan that this applicant asks for.
    ///
    /// The applicant has to be eligible, and the total income has to reach
    /// half of the amount asked for, rounded down. Whether the co-applicant
    /// is eligible is recorded and decides nothing.
    pub open spec fn decision(&self) -> Result<Approval, LoanError> {
        match self.eligibility() {
            Err(error) => Err(error),
            Ok(_) => {
                if self.spec_total_income() >= self.loan_amount / 2 {
                    Ok(
                        Approval {
                            total_income: self.spec_total_income() as u64,
                            co_applicant: self.co_applicant_eligibility(),
                        },
                    )
                } else {
                    Err(
                        LoanError::IncomeError {
                            income: self.spec_total_income() as u64,
                            required: (self.loan_amount / 2) as u64,
                        },
                    )
                }
            },
        }
    }

    /// An applicant with the given name, age, income and amount asked for,
    /// and with `co_applicant` at their side.
    pub fn new(
        name: &str,
        age: u8,
        income: u32,
        loan_amount: u32,
        co_applicant: Option<Applicant>,
    ) -> (applicant: Applicant)
        ensures
            applicant.name@ == name@,
            applicant.age == age,
            applicant.income == income,
            applicant.loan_amount == loan_amount,
            applicant.co_applicant == (match co_applicant {
                Some(co) => Some(Box::new(co)),
                None => None,
            }),
    {
        let co_applicant = match co_applicant {
            Some(co) => Some(Box::new(co)),
            None => None,
        };
        Applicant { name: name.to_owned(), age, income, loan_amount, co_applicant }
    }

    /// Says whether this applicant is eligible: aged 21 to 65, with an
    /// income of their own of at least 30,000.
    pub fn check_eligibility(&self) -> (result: Result<(), LoanError>)
        ensures
            result == self.eligibility(),
    {
        if self.age < MIN_AGE || self.age > MAX_AGE {
            return Err(LoanError::AgeError { age: self.age });
        }
        if self.income < MIN_INCOME {
            return Err(
                LoanError::IncomeError { income: self.income as u64, required: MIN_INCOME as u64 },
            );
        }
        Ok(())
    }

    /// The applicant's income together with the co-applicant's, if there is
    /// one. The sum is taken in 64 bits, where it cannot overflow.
    pub fn total_income(&self) -> (total: u64)
        ensures
            total == self.spec_total_income(),
    {
        match &self.co_applicant {
            Some(co) => self.income as u64 + co.income as u64,
            None => self.income as u64,
        }
    }
}

/// Decides on the loan that `applicant` asks for.
pub fn process_loan(applicant: &Applicant) -> (result: Result<Approval, LoanError>)
    ensures
        result == applicant.decision(),
{
    applicant.check_eligibility()?;
    let co_applicant = match &applicant.co_applicant {
        Some(co) => Some(co.check_eligibility()),
        None => None,
    };
    let total_income: u64 = applicant.total_income();
    let threshold: u32 = applicant.loan_amount / 2;
    if total_income >= threshold as u64 {
        Ok(Approval { total_income, co_applicant })
    } else {
        Err(LoanError::IncomeError { income: total_income, required: threshold as u64 })
    }
}

} // verus!
