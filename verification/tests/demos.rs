use banking::{
    process_loan, Applicant, Approval, BookingError, Cash, InsufficientCash, LoanError, Plane, ATM,
};

#[test]
fn cash_withdraw_takes_amount_out() {
    let mut cash = Cash::new(500);
    assert_eq!(cash.balance(), 500);
    assert_eq!(cash.withdraw(100), Ok(100));
    assert_eq!(cash.balance(), 400);
    assert_eq!(cash.withdraw(400), Ok(400));
    assert_eq!(cash.balance(), 0);
    assert_eq!(cash.withdraw(0), Ok(0));
}

#[test]
fn cash_withdraw_of_too_much_changes_nothing() {
    let mut cash = Cash::new(200);
    assert_eq!(cash.withdraw(300), Err(InsufficientCash { requested: 300, available: 200 }));
    assert_eq!(cash.balance(), 200);
}

#[test]
fn atm_session() {
    let mut atm = ATM::new(500);
    assert_eq!(atm.check_balance(), 500);
    assert_eq!(atm.withdraw_cash(100), Ok(100));
    assert_eq!(atm.withdraw_cash(200), Ok(200));
    assert_eq!(atm.withdraw_cash(300), Err(InsufficientCash { requested: 300, available: 200 }));
    assert_eq!(atm.check_balance(), 200);
}

#[test]
fn applicant_new_keeps_its_arguments() {
    let dana = Applicant::new("Dana", 42, 30_000, 0, None);
    let charlie = Applicant::new("Charlie", 45, 25_000, 70_000, Some(dana));
    assert_eq!(charlie.name, "Charlie");
    assert_eq!(charlie.age, 45);
    assert_eq!(charlie.income, 25_000);
    assert_eq!(charlie.loan_amount, 70_000);
    let co = charlie.co_applicant.as_ref().unwrap();
    assert_eq!(co.name, "Dana");
    assert_eq!(co.age, 42);
    assert_eq!(co.income, 30_000);
    assert!(co.co_applicant.is_none());
}

#[test]
fn eligibility_by_age() {
    assert_eq!(
        Applicant::new("a", 20, 50_000, 0, None).check_eligibility(),
        Err(LoanError::AgeError { age: 20 })
    );
    assert_eq!(Applicant::new("a", 21, 50_000, 0, None).check_eligibility(), Ok(()));
    assert_eq!(Applicant::new("a", 65, 50_000, 0, None).check_eligibility(), Ok(()));
    assert_eq!(
        Applicant::new("a", 66, 50_000, 0, None).check_eligibility(),
        Err(LoanError::AgeError { age: 66 })
    );
    assert_eq!(
        Applicant::new("a", 20, 10, 0, None).check_eligibility(),
        Err(LoanError::AgeError { age: 20 })
    );
}

#[test]
fn eligibility_by_income() {
    assert_eq!(
        Applicant::new("a", 30, 29_999, 0, None).check_eligibility(),
        Err(LoanError::IncomeError { income: 29_999, required: 30_000 })
    );
    assert_eq!(Applicant::new("a", 30, 30_000, 0, None).check_eligibility(), Ok(()));
}

#[test]
fn total_income_adds_the_co_applicant() {
    let alone = Applicant::new("a", 30, 40_000, 0, None);
    assert_eq!(alone.total_income(), 40_000);
    let co = Applicant::new("b", 30, 30_000, 0, Some(Applicant::new("c", 30, 99, 0, None)));
    let both = Applicant::new("a", 30, 25_000, 0, Some(co));
    assert_eq!(both.total_income(), 55_000);
    let rich = Applicant::new("a", 30, u32::MAX, 0, Some(Applicant::new("b", 30, u32::MAX, 0, None)));
    assert_eq!(rich.total_income(), 2 * (u32::MAX as u64));
}

#[test]
fn loans_of_the_four_applicants() {
    let alice = Applicant::new("Alice", 30, 40_000, 60_000, None);
    assert_eq!(process_loan(&alice), Ok(Approval { total_income: 40_000, co_applicant: None }));
    let bob = Applicant::new("Bob", 20, 50_000, 50_000, None);
    assert_eq!(process_loan(&bob), Err(LoanError::AgeError { age: 20 }));
    let charlie = Applicant::new(
        "Charlie",
        45,
        25_000,
        70_000,
        Some(Applicant::new("Dana", 42, 30_000, 0, None)),
    );
    assert_eq!(
        process_loan(&charlie),
        Err(LoanError::IncomeError { income: 25_000, required: 30_000 })
    );
    let eve = Applicant::new("Eve", 34, 80_000, 90_000, None);
    assert_eq!(process_loan(&eve), Ok(Approval { total_income: 80_000, co_applicant: None }));
}

#[test]
fn loan_needs_half_of_the_amount_as_income() {
    let short = Applicant::new("a", 30, 30_000, 60_002, None);
    assert_eq!(
        process_loan(&short),
        Err(LoanError::IncomeError { income: 30_000, required: 30_001 })
    );
    let odd = Applicant::new("a", 30, 30_000, 60_001, None);
    assert_eq!(process_loan(&odd), Ok(Approval { total_income: 30_000, co_applicant: None }));
    let helped = Applicant::new("a", 30, 30_000, 60_002, Some(Applicant::new("b", 70, 1, 0, None)));
    assert_eq!(
        process_loan(&helped),
        Ok(Approval {
            total_income: 30_001,
            co_applicant: Some(Err(LoanError::AgeError { age: 70 })),
        })
    );
    let pair = Applicant::new("a", 30, 30_000, 0, Some(Applicant::new("b", 40, 30_000, 0, None)));
    assert_eq!(
        process_loan(&pair),
        Ok(Approval { total_income: 60_000, co_applicant: Some(Ok(())) })
    );
}

#[test]
fn plane_booking_session() {
    let mut plane = Plane::new(5);
    assert_eq!(plane.seat_count(), 5);
    assert_eq!(plane.book_seat(0, "Alice"), Ok(()));
    assert_eq!(plane.book_seat(1, "Bob"), Ok(()));
    assert_eq!(plane.passenger(0), Some("Alice"));
    assert_eq!(plane.passenger(1), Some("Bob"));
    assert_eq!(plane.passenger(2), None);
    assert_eq!(plane.free_seat(0), Ok(()));
    assert_eq!(plane.passenger(0), None);
    assert_eq!(plane.auto_book("Charlie"), Ok(0));
    assert_eq!(plane.auto_book("Dana"), Ok(2));
    assert_eq!(plane.auto_book("Eve"), Ok(3));
    assert_eq!(plane.auto_book("Frank"), Ok(4));
    assert_eq!(plane.auto_book("Grace"), Err(BookingError::SeatUnavailable));
    assert_eq!(plane.passenger(0), Some("Charlie"));
    assert_eq!(plane.passenger(1), Some("Bob"));
    assert_eq!(plane.passenger(2), Some("Dana"));
    assert_eq!(plane.passenger(3), Some("Eve"));
    assert_eq!(plane.passenger(4), Some("Frank"));
    assert_eq!(plane.passenger(5), None);
}

#[test]
fn plane_refuses_taken_and_unknown_seats() {
    let mut plane = Plane::new(2);
    assert_eq!(plane.book_seat(2, "Alice"), Err(BookingError::InvalidSeat));
    assert_eq!(plane.free_seat(2), Err(BookingError::InvalidSeat));
    assert_eq!(plane.free_seat(1), Err(BookingError::SeatUnavailable));
    assert_eq!(plane.book_seat(1, "Alice"), Ok(()));
    assert_eq!(plane.book_seat(1, "Bob"), Err(BookingError::SeatUnavailable));
    assert_eq!(plane.passenger(1), Some("Alice"));
    assert_eq!(plane.passenger(0), None);
}

#[test]
fn plane_without_seats_has_none_to_book() {
    let mut plane = Plane::new(0);
    assert_eq!(plane.seat_count(), 0);
    assert_eq!(plane.auto_book("Alice"), Err(BookingError::SeatUnavailable));
    assert_eq!(plane.book_seat(0, "Alice"), Err(BookingError::InvalidSeat));
}
