use mangamon_sale::error::SaleError;
use mangamon_sale::vesting::claimable_tokens;

#[test]
fn cliff_only_at_claiming_start() {
    // Twenty percent cliff on a basis of 1000, zero seconds elapsed: the
    // cliff portion alone is claimable.
    let r = claimable_tokens(1000, 0, 20, 1000, 0, 100, 0);
    assert_eq!(r, Ok(200));
}

#[test]
fn linear_halfway_without_cliff() {
    // No cliff, window of 100 seconds, entitlement 100, 50 seconds elapsed.
    let r = claimable_tokens(100, 0, 0, 100, 0, 100, 50);
    assert_eq!(r, Ok(50));
}

#[test]
fn cliff_available_before_claiming_start() {
    // With a cliff, the cliff portion is claimable even before the window
    // opens.
    let r = claimable_tokens(1000, 0, 20, 1000, 10, 110, 5);
    assert_eq!(r, Ok(200));
}

#[test]
fn no_cliff_before_claiming_start_fails_closed() {
    // Without a cliff, asking before the window opens is a fatal underflow,
    // not zero.
    let r = claimable_tokens(100, 0, 0, 100, 10, 110, 5);
    assert_eq!(r, Err(SaleError::ArithmeticUnderflow));
}

#[test]
fn everything_after_window_end() {
    let r = claimable_tokens(1000, 300, 20, 1000, 0, 100, 101);
    assert_eq!(r, Ok(700));
}

#[test]
fn cliff_plus_linear_remainder() {
    // Cliff 200, remainder 800 over 100 seconds, 25 elapsed: 200 + 200.
    let r = claimable_tokens(1000, 0, 20, 1000, 0, 100, 25);
    assert_eq!(r, Ok(400));
}

#[test]
fn cliff_basis_diverging_from_entitlement() {
    // The cliff is computed from the re-derived basis, not the entitlement:
    // basis 500 gives a cliff of 100 even though the entitlement is 1000.
    let r = claimable_tokens(1000, 0, 20, 500, 0, 100, 0);
    assert_eq!(r, Ok(100));
}

#[test]
fn cliff_above_entitlement_fails_closed() {
    // A cliff portion above the entitlement makes the linear remainder
    // negative: fatal underflow.
    let r = claimable_tokens(1000, 0, 100, 2000, 0, 100, 50);
    assert_eq!(r, Err(SaleError::ArithmeticUnderflow));
}

#[test]
fn claimed_above_schedule_fails_closed() {
    // More already claimed than the schedule allows at `now`: fatal
    // underflow, an internal inconsistency rather than a user error.
    let r = claimable_tokens(100, 80, 0, 100, 0, 100, 50);
    assert_eq!(r, Err(SaleError::ArithmeticUnderflow));
}

#[test]
fn repeat_claim_without_time_advance_is_zero() {
    // First claim takes everything vested by `now`; a second claim at the
    // same instant releases nothing more.
    let first = claimable_tokens(1000, 0, 20, 1000, 0, 100, 25).unwrap();
    assert_eq!(first, 400);
    let second = claimable_tokens(1000, first, 20, 1000, 0, 100, 25).unwrap();
    assert_eq!(second, 0);
}

#[test]
fn truncating_rate_never_exceeds_entitlement() {
    // Entitlement 100 over 33 seconds: rate 3; even at the last instant the
    // linear part stays at 99, and only passing the end releases the rest.
    let at_end = claimable_tokens(100, 0, 0, 100, 0, 33, 33).unwrap();
    assert_eq!(at_end, 99);
    let past_end = claimable_tokens(100, 99, 0, 100, 0, 33, 34).unwrap();
    assert_eq!(past_end, 1);
}
