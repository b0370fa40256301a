use dds_escrow::asset::{Principal, Token};
use dds_escrow::errors::{DdsError, TransferError};
use dds_escrow::escrow::{Dds, Holder};
use dds_escrow::gateway::{ScriptedGateway, TokenGateway, TransferRecord};

fn token(fill: u8) -> Token {
    Token { bytes: [fill; 32] }
}

fn holder_list(n: usize) -> Vec<Holder> {
    let mut v = Vec::new();
    let mut i: u64 = 0;
    while (i as usize) < n {
        v.push(Holder { addr: Principal { id: i + 1 }, amount: 10 });
        i += 1;
    }
    v
}

fn accepting() -> ScriptedGateway {
    ScriptedGateway {
        accept: true,
        refusal: TransferError::InsufficientBalance,
        served: Vec::new(),
    }
}

fn refusing(reason: TransferError) -> ScriptedGateway {
    ScriptedGateway { accept: false, refusal: reason, served: Vec::new() }
}

fn invoker() -> Principal {
    Principal { id: 77 }
}

#[test]
fn test() {
    let mut e = Dds::new();
    let mut g = accepting();
    let t = token(32);
    let amount = 100;
    let h = Holder { addr: Principal { id: 1 }, amount: 10 };
    let holders = vec![h];
    let exdate = 1000;
    let result = e.deposit(&mut g, &invoker(), t, amount, holders, exdate, 0);
    assert_eq!(result, Ok(()));
}

#[test]
fn double_deposit_always_rejected() {
    let mut e = Dds::new();
    let mut g = accepting();
    assert_eq!(e.deposit(&mut g, &invoker(), token(1), 100, holder_list(1), 1000, 500), Ok(()));
    // A second deposit fails whatever its arguments, even ones that would
    // have been valid on a fresh instance, and even invalid ones.
    assert_eq!(
        e.deposit(&mut g, &invoker(), token(2), 50, holder_list(3), 2000, 500),
        Err(DdsError::AlreadyInitialized)
    );
    assert_eq!(
        e.deposit(&mut g, &invoker(), token(1), 0, holder_list(0), 10, 500),
        Err(DdsError::AlreadyInitialized)
    );
    // The record from the first call is untouched.
    assert_eq!(e.token(), Ok(token(1)));
    assert_eq!(e.div(), Ok(100));
    assert_eq!(e.exdate(), Ok(1000));
    assert_eq!(e.holders(), Ok(holder_list(1)));
}

#[test]
fn holder_count_boundary() {
    let mut g = accepting();
    let mut e = Dds::new();
    assert_eq!(
        e.deposit(&mut g, &invoker(), token(1), 100, holder_list(0), 1000, 500),
        Err(DdsError::InvalidHolderList)
    );
    assert_eq!(e.deposit(&mut g, &invoker(), token(1), 100, holder_list(1), 1000, 500), Ok(()));
    let mut e10 = Dds::new();
    assert_eq!(e10.deposit(&mut g, &invoker(), token(1), 100, holder_list(10), 1000, 500), Ok(()));
    let mut e11 = Dds::new();
    assert_eq!(
        e11.deposit(&mut g, &invoker(), token(1), 100, holder_list(11), 1000, 500),
        Err(DdsError::InvalidHolderList)
    );
}

#[test]
fn amount_boundary() {
    let mut g = accepting();
    let mut e = Dds::new();
    assert_eq!(
        e.deposit(&mut g, &invoker(), token(1), 0, holder_list(1), 1000, 500),
        Err(DdsError::NonPositiveAmount)
    );
    assert_eq!(
        e.deposit(&mut g, &invoker(), token(1), -1, holder_list(1), 1000, 500),
        Err(DdsError::NonPositiveAmount)
    );
    assert_eq!(e.deposit(&mut g, &invoker(), token(1), 1, holder_list(1), 1000, 500), Ok(()));
}

#[test]
fn date_boundary() {
    let mut g = accepting();
    let mut e = Dds::new();
    // A release date strictly before the current time is turned away.
    assert_eq!(
        e.deposit(&mut g, &invoker(), token(1), 100, holder_list(1), 499, 500),
        Err(DdsError::ExDateInPast)
    );
    // One equal to the current time passes.
    assert_eq!(e.deposit(&mut g, &invoker(), token(1), 100, holder_list(1), 500, 500), Ok(()));

    let mut late = Dds::new();
    assert_eq!(late.deposit(&mut g, &invoker(), token(1), 100, holder_list(1), 1000, 500), Ok(()));
    assert_eq!(late.withdraw(&token(1), 50, 999), Err(DdsError::BeforeExDate));
    assert_eq!(late.withdraw(&token(1), 50, 1000), Ok(()));
    assert_eq!(late.withdraw(&token(1), 50, 1500), Ok(()));
}

#[test]
fn field_round_trip() {
    let mut g = accepting();
    let mut e = Dds::new();
    let t = token(9);
    let hs = vec![
        Holder { addr: Principal { id: 3 }, amount: 40 },
        Holder { addr: Principal { id: 1 }, amount: 25 },
        Holder { addr: Principal { id: 2 }, amount: 35 },
    ];
    assert_eq!(e.deposit(&mut g, &invoker(), t, 12345, hs.clone(), 777, 700), Ok(()));
    assert_eq!(e.token(), Ok(t));
    assert_eq!(e.div(), Ok(12345));
    assert_eq!(e.exdate(), Ok(777));
    // Order-preserving: the list comes back exactly as deposited.
    assert_eq!(e.holders(), Ok(hs));
}

#[test]
fn withdraw_field_mismatch() {
    let mut g = accepting();
    let mut e = Dds::new();
    assert_eq!(e.deposit(&mut g, &invoker(), token(1), 100, holder_list(1), 1000, 500), Ok(()));
    // Wrong token fails even after the release date.
    assert_eq!(e.withdraw(&token(2), 50, 2000), Err(DdsError::WrongToken));
    // Too large a claim fails even with the right token and timing.
    assert_eq!(e.withdraw(&token(1), 101, 2000), Err(DdsError::InsufficientFunds));
    // The whole pool is claimable exactly.
    assert_eq!(e.withdraw(&token(1), 100, 2000), Ok(()));
}

#[test]
fn uninitialized_access() {
    let e = Dds::new();
    assert!(!e.is_initialized());
    assert_eq!(e.withdraw(&token(1), 1, 9999), Err(DdsError::NotInitialized));
    assert_eq!(e.holders(), Err(DdsError::NotInitialized));
    assert_eq!(e.exdate(), Err(DdsError::NotInitialized));
    assert_eq!(e.div(), Err(DdsError::NotInitialized));
    assert_eq!(e.token(), Err(DdsError::NotInitialized));
}

#[test]
fn example_scenario() {
    let mut g = accepting();
    let mut e = Dds::new();
    let t1 = token(1);
    let holders = vec![Holder { addr: Principal { id: 1 }, amount: 10 }];
    assert_eq!(e.deposit(&mut g, &invoker(), t1, 100, holders, 1000, 500), Ok(()));
    assert_eq!(e.exdate(), Ok(1000));
    assert_eq!(e.div(), Ok(100));
    assert_eq!(e.withdraw(&t1, 50, 500), Err(DdsError::BeforeExDate));
    assert_eq!(e.withdraw(&t1, 50, 1000), Ok(()));
    // Validation only: the pool is unchanged, so a too-large claim still fails.
    assert_eq!(e.div(), Ok(100));
    assert_eq!(e.withdraw(&t1, 200, 1000), Err(DdsError::InsufficientFunds));
}

#[test]
fn transfer_refusal_propagates_and_writes_nothing() {
    let mut g = refusing(TransferError::NotAuthorized);
    let mut e = Dds::new();
    assert_eq!(
        e.deposit(&mut g, &invoker(), token(1), 100, holder_list(1), 1000, 500),
        Err(DdsError::TransferFailed(TransferError::NotAuthorized))
    );
    // Nothing was persisted: the instance is still fresh and reusable.
    assert!(!e.is_initialized());
    assert_eq!(e.token(), Err(DdsError::NotInitialized));
    let mut g2 = accepting();
    assert_eq!(e.deposit(&mut g2, &invoker(), token(1), 100, holder_list(1), 1000, 500), Ok(()));
}

#[test]
fn rejected_deposit_never_reaches_the_gateway() {
    let mut g = accepting();
    let mut e = Dds::new();
    assert_eq!(
        e.deposit(&mut g, &invoker(), token(1), -5, holder_list(1), 1000, 500),
        Err(DdsError::NonPositiveAmount)
    );
    assert!(g.served.is_empty());
}

#[test]
fn accepted_deposit_requests_one_transfer() {
    let mut g = accepting();
    let mut e = Dds::new();
    assert_eq!(e.deposit(&mut g, &invoker(), token(4), 250, holder_list(2), 1000, 500), Ok(()));
    assert_eq!(
        g.served,
        vec![TransferRecord { token: token(4), from: invoker(), amount: 250 }]
    );
}

#[test]
fn settle_deposit_follows_the_transfer_outcome() {
    let mut e = Dds::new();
    assert_eq!(
        e.settle_deposit(token(8), 60, holder_list(2), 1200, Err(TransferError::UnknownAsset)),
        Err(DdsError::TransferFailed(TransferError::UnknownAsset))
    );
    assert!(!e.is_initialized());
    assert_eq!(e.settle_deposit(token(8), 60, holder_list(2), 1200, Ok(())), Ok(()));
    assert!(e.is_initialized());
    assert_eq!(e.div(), Ok(60));
    assert_eq!(e.exdate(), Ok(1200));
}

#[test]
fn token_equality_compares_all_bytes() {
    let a = token(5);
    let mut b = token(5);
    assert_eq!(a, b);
    b.bytes[31] = 6;
    assert_ne!(a, b);
    let mut c = token(5);
    c.bytes[0] = 6;
    assert_ne!(a, c);
}

#[test]
fn scripted_gateway_refuses_as_scripted() {
    let mut g = refusing(TransferError::InsufficientBalance);
    let r = g.transfer_into_custody(&token(1), &invoker(), 10);
    assert_eq!(r, Err(TransferError::InsufficientBalance));
    assert!(g.served.is_empty());
}
