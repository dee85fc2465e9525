use cdp_treasury::auction::{AuctionManager, Lot};
use cdp_treasury::debit::{issue_outcome, offset_outcome};
use cdp_treasury::error::{ArithmeticError, DispatchError};
use cdp_treasury::ledger::Ledger;
use cdp_treasury::lots::{after_lot, lots_count};
use cdp_treasury::memory::{AuctionBook, MemoryLedger};
use cdp_treasury::amounts::Amounts;
use cdp_treasury::primitives::CurrencyId;
use cdp_treasury::ratio::{Ratio, ACCURACY};

const AUSD: CurrencyId = CurrencyId(1);
const DOT: CurrencyId = CurrencyId(2);

#[test]
fn lots_count_of_a_split() {
    assert_eq!(lots_count(250, 100, 10, true), 3);
    assert_eq!(lots_count(250, 100, 2, true), 2);
    assert_eq!(lots_count(200, 100, 10, true), 2);
    assert_eq!(lots_count(201, 100, 10, true), 3);
    assert_eq!(lots_count(101, 100, 10, true), 2);
    assert_eq!(lots_count(1000, 1, 7, true), 7);
    assert_eq!(lots_count(u128::MAX, 1, u32::MAX, true), u32::MAX as u128);
    assert_eq!(lots_count(u128::MAX, 2, u32::MAX, true), u32::MAX as u128);
    assert_eq!(lots_count(u128::MAX, u128::MAX - 1, 5, true), 2);
}

#[test]
fn lots_count_is_one_without_a_split() {
    assert_eq!(lots_count(250, 100, 10, false), 1);
    assert_eq!(lots_count(250, 100, 0, true), 1);
    assert_eq!(lots_count(250, 0, 10, true), 1);
    assert_eq!(lots_count(100, 100, 10, true), 1);
    assert_eq!(lots_count(99, 100, 10, true), 1);
    assert_eq!(lots_count(0, 100, 10, true), 1);
    assert_eq!(lots_count(0, 0, 0, false), 1);
    assert_eq!(lots_count(250, 100, 1, true), 1);
}

#[test]
fn ratio_from_rational() {
    assert_eq!(ACCURACY, 1_000_000_000_000_000_000);
    assert_eq!(
        Ratio::checked_from_rational(1, 2).map(Ratio::into_inner),
        Some(500_000_000_000_000_000)
    );
    assert_eq!(
        Ratio::checked_from_rational(2, 3).map(Ratio::into_inner),
        Some(666_666_666_666_666_666)
    );
    assert_eq!(Ratio::checked_from_rational(7, 1).map(Ratio::into_inner), Some(7 * ACCURACY));
    assert_eq!(Ratio::checked_from_rational(0, 5).map(Ratio::into_inner), Some(0));
    assert_eq!(
        Ratio::checked_from_rational(u128::MAX, ACCURACY).map(Ratio::into_inner),
        Some(u128::MAX)
    );
    assert_eq!(
        Ratio::checked_from_rational(u128::MAX, u128::MAX).map(Ratio::into_inner),
        Some(ACCURACY)
    );
}

#[test]
fn ratio_from_rational_without_a_result() {
    assert_eq!(Ratio::checked_from_rational(1, 0), None);
    assert_eq!(Ratio::checked_from_rational(0, 0), None);
    assert_eq!(Ratio::checked_from_rational(u128::MAX, 1), None);
    assert_eq!(Ratio::checked_from_rational(u128::MAX, ACCURACY - 1), None);
}

#[test]
fn ratio_holds_its_parts() {
    assert_eq!(Ratio::from_inner(42).into_inner(), 42);
    assert_eq!(Ratio::zero().into_inner(), 0);
    assert_eq!(Ratio::zero(), Ratio::from_inner(0));
}

#[test]
fn amounts_keep_the_last_amount_set() {
    let mut sizes = Amounts::new();
    assert_eq!(sizes.get(DOT), 0);
    sizes.set(DOT, 100);
    sizes.set(AUSD, 5);
    assert_eq!(sizes.get(DOT), 100);
    assert_eq!(sizes.get(AUSD), 5);
    sizes.set(DOT, 0);
    assert_eq!(sizes.get(DOT), 0);
    sizes.set(DOT, 7);
    assert_eq!(sizes.get(DOT), 7);
    assert_eq!(sizes.get(AUSD), 5);
    assert_eq!(sizes.get(CurrencyId(9)), 0);

    let copy = sizes.duplicate();
    sizes.set(DOT, 8);
    assert_eq!(copy.get(DOT), 7);
    assert_eq!(copy.get(AUSD), 5);
    assert_eq!(sizes.get(DOT), 8);
}

#[test]
fn ledger_deposits_and_withdraws() {
    let mut ledger = MemoryLedger::new();
    assert_eq!(ledger.free_balance(DOT, &1), 0);
    assert_eq!(ledger.total_issuance(DOT), 0);
    assert_eq!(ledger.deposit(DOT, &1, 100), Ok(()));
    assert_eq!(ledger.deposit(DOT, &2, 50), Ok(()));
    assert_eq!(ledger.deposit(AUSD, &1, 7), Ok(()));
    assert_eq!(ledger.free_balance(DOT, &1), 100);
    assert_eq!(ledger.free_balance(DOT, &2), 50);
    assert_eq!(ledger.free_balance(AUSD, &1), 7);
    assert_eq!(ledger.free_balance(AUSD, &2), 0);
    assert_eq!(ledger.total_issuance(DOT), 150);
    assert_eq!(ledger.withdraw(DOT, &1, 30), Ok(()));
    assert_eq!(ledger.free_balance(DOT, &1), 70);
    assert_eq!(ledger.total_issuance(DOT), 120);
    assert_eq!(ledger.withdraw(DOT, &1, 71), Err(DispatchError::InsufficientBalance));
    assert_eq!(ledger.free_balance(DOT, &1), 70);
    assert_eq!(ledger.total_issuance(DOT), 120);
    assert_eq!(ledger.withdraw(DOT, &1, 0), Ok(()));
    assert_eq!(ledger.withdraw(DOT, &3, 0), Ok(()));
    assert_eq!(ledger.total_issuance(DOT), 120);
}

#[test]
fn ledger_refuses_what_does_not_fit() {
    let mut ledger = MemoryLedger::new();
    assert_eq!(ledger.deposit(DOT, &1, u128::MAX - 1), Ok(()));
    assert_eq!(
        ledger.deposit(DOT, &2, 2),
        Err(DispatchError::Arithmetic(ArithmeticError::Overflow))
    );
    assert_eq!(ledger.free_balance(DOT, &2), 0);
    assert_eq!(ledger.total_issuance(DOT), u128::MAX - 1);
    assert_eq!(ledger.deposit(DOT, &2, 1), Ok(()));
    assert_eq!(ledger.total_issuance(DOT), u128::MAX);
}

#[test]
fn ledger_transfers() {
    let mut ledger = MemoryLedger::new();
    ledger.deposit(DOT, &1, 100).unwrap();
    assert_eq!(ledger.transfer(DOT, &1, &2, 40), Ok(()));
    assert_eq!(ledger.free_balance(DOT, &1), 60);
    assert_eq!(ledger.free_balance(DOT, &2), 40);
    assert_eq!(ledger.total_issuance(DOT), 100);
    assert_eq!(ledger.transfer(DOT, &1, &2, 61), Err(DispatchError::InsufficientBalance));
    assert_eq!(ledger.transfer(AUSD, &1, &2, 1), Err(DispatchError::InsufficientBalance));
    assert_eq!(ledger.transfer(DOT, &1, &1, 60), Ok(()));
    assert_eq!(ledger.free_balance(DOT, &1), 60);
    assert_eq!(ledger.transfer(DOT, &2, &1, 40), Ok(()));
    assert_eq!(ledger.free_balance(DOT, &1), 100);
    assert_eq!(ledger.free_balance(DOT, &2), 0);
    assert_eq!(ledger.transfer(DOT, &2, &3, 0), Ok(()));
    assert_eq!(ledger.free_balance(DOT, &3), 0);
}

#[test]
fn auction_book_keeps_the_lots() {
    let mut book = AuctionBook::new();
    assert!(book.lots().is_empty());
    assert_eq!(book.get_total_collateral_in_auction(DOT), 0);
    assert_eq!(book.new_collateral_auction(&1, DOT, 10, 100), Ok(()));
    assert_eq!(book.new_collateral_auction(&2, AUSD, 3, 0), Ok(()));
    assert_eq!(book.new_collateral_auction(&1, DOT, 5, 50), Ok(()));
    assert_eq!(
        *book.lots(),
        vec![
            Lot { refund_recipient: 1, currency_id: DOT, amount: 10, target: 100 },
            Lot { refund_recipient: 2, currency_id: AUSD, amount: 3, target: 0 },
            Lot { refund_recipient: 1, currency_id: DOT, amount: 5, target: 50 },
        ]
    );
    assert_eq!(book.get_total_collateral_in_auction(DOT), 15);
    assert_eq!(book.get_total_collateral_in_auction(AUSD), 3);

    let copy = book.snapshot();
    assert_eq!(book.new_collateral_auction(&1, DOT, 1, 1), Ok(()));
    assert_eq!(copy.lots().len(), 3);
    assert_eq!(copy.get_total_collateral_in_auction(DOT), 15);
    assert_eq!(book.lots().len(), 4);
    assert_eq!(book.get_total_collateral_in_auction(DOT), 16);
}

#[test]
fn auction_book_refuses_what_does_not_fit() {
    let mut book = AuctionBook::new();
    assert_eq!(book.new_collateral_auction(&1, DOT, u128::MAX, 1), Ok(()));
    assert_eq!(
        book.new_collateral_auction(&1, DOT, 1, 1),
        Err(DispatchError::Arithmetic(ArithmeticError::Overflow))
    );
    assert_eq!(book.lots().len(), 1);
    assert_eq!(book.get_total_collateral_in_auction(DOT), u128::MAX);
}

#[test]
fn offset_outcome_where_the_ledger_burned() {
    assert_eq!(offset_outcome(100, 60, Ok(())), (40, Ok(60)));
    assert_eq!(offset_outcome(30, 100, Ok(())), (0, Ok(30)));
    assert_eq!(offset_outcome(7, 7, Ok(())), (0, Ok(7)));
    assert_eq!(offset_outcome(0, 5, Ok(())), (0, Ok(0)));
    assert_eq!(offset_outcome(5, 0, Ok(())), (5, Ok(0)));
    assert_eq!(offset_outcome(u128::MAX, u128::MAX, Ok(())), (0, Ok(u128::MAX)));
}

#[test]
fn offset_outcome_where_the_ledger_refused() {
    assert_eq!(
        offset_outcome(100, 60, Err(DispatchError::Other(9))),
        (100, Err(DispatchError::Other(9)))
    );
    assert_eq!(
        offset_outcome(30, 100, Err(DispatchError::InsufficientBalance)),
        (30, Err(DispatchError::InsufficientBalance))
    );
}

#[test]
fn issue_outcome_follows_the_ledger() {
    assert_eq!(issue_outcome(5, 12, Ok(())), (12, Ok(())));
    assert_eq!(issue_outcome(5, 5, Ok(())), (5, Ok(())));
    assert_eq!(
        issue_outcome(5, 12, Err(DispatchError::Other(3))),
        (5, Err(DispatchError::Other(3)))
    );
    assert_eq!(
        issue_outcome(5, 12, Err(DispatchError::Arithmetic(ArithmeticError::Overflow))),
        (5, Err(DispatchError::Arithmetic(ArithmeticError::Overflow)))
    );
}

#[test]
fn after_lot_follows_the_auction_manager() {
    assert_eq!(after_lot(Ok(()), 250, 1000, 83, 333), Ok((167, 667)));
    assert_eq!(after_lot(Ok(()), 84, 334, 84, 334), Ok((0, 0)));
    assert_eq!(after_lot(Ok(()), 5, 9, 7, 3), Ok((0, 6)));
    assert_eq!(after_lot(Ok(()), 9, 5, 3, 7), Ok((6, 0)));
    assert_eq!(
        after_lot(Err(DispatchError::Other(4)), 250, 1000, 83, 333),
        Err(DispatchError::Other(4))
    );
}
