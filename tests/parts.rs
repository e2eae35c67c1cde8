use rollup_bridge::error::BridgeError;
use rollup_bridge::escrow::EscrowLedger;
use rollup_bridge::identity::Identity;
use rollup_bridge::proof_gate::{AcceptAll, NonEmptyProof, ProofGate, RejectAll, Transition};
use rollup_bridge::state_root::StateRootLedger;
use rollup_bridge::uint::Uint512;

#[test]
fn uint_from_u64_matches_casper_layout() {
    assert_eq!(
        Uint512::from_u64(0x1234).limbs,
        casper_types::U512::from(0x1234u64).0
    );
    assert_eq!(Uint512::zero().limbs, [0u64; 8]);
}

#[test]
fn uint_checked_add_carries_across_limbs() {
    let a = Uint512 { limbs: [u64::MAX, 0, 0, 0, 0, 0, 0, 0] };
    let one = Uint512::from_u64(1);
    assert_eq!(
        a.checked_add(one),
        Some(Uint512 { limbs: [0, 1, 0, 0, 0, 0, 0, 0] })
    );
    let max = Uint512 { limbs: [u64::MAX; 8] };
    assert_eq!(max.checked_add(one), None);
    assert_eq!(max.checked_add(Uint512::zero()), Some(max));
}

#[test]
fn uint_checked_sub_borrows_across_limbs() {
    let a = Uint512 { limbs: [0, 1, 0, 0, 0, 0, 0, 0] };
    let one = Uint512::from_u64(1);
    assert_eq!(
        a.checked_sub(one),
        Some(Uint512 { limbs: [u64::MAX, 0, 0, 0, 0, 0, 0, 0] })
    );
    assert_eq!(one.checked_sub(a), None);
    assert_eq!(Uint512::from_u64(9).checked_sub(Uint512::from_u64(4)), Some(Uint512::from_u64(5)));
}

#[test]
fn identity_equality_is_exact() {
    let a = Identity { bytes: [3; 32] };
    let mut other = [3u8; 32];
    assert!(a.same_as(&Identity { bytes: other }));
    other[0] = 4;
    assert!(!a.same_as(&Identity { bytes: other }));
    other[0] = 3;
    other[31] = 2;
    assert!(!a.same_as(&Identity { bytes: other }));
}

#[test]
fn gates_decide_as_documented() {
    let t = Transition::Batch { new_root: Uint512::from_u64(1) };
    let w = Transition::Withdrawal { amount: Uint512::from_u64(1) };
    let empty: Vec<u8> = Vec::new();
    let some = vec![0u8];
    assert!(!NonEmptyProof.accepts(&t, &empty));
    assert!(NonEmptyProof.accepts(&t, &some));
    assert!(NonEmptyProof.accepts(&w, &some));
    assert!(!RejectAll.accepts(&t, &some));
    assert!(!RejectAll.accepts(&w, &some));
    assert!(AcceptAll.accepts(&t, &empty));
    assert!(AcceptAll.accepts(&w, &empty));
}

#[test]
fn escrow_credit_and_debit() {
    let mut e = EscrowLedger::new();
    assert_eq!(e.credit(Uint512::from_u64(20)), Ok(()));
    assert_eq!(e.debit(Uint512::from_u64(21)), Err(BridgeError::InsufficientEscrow));
    assert_eq!(e.debit(Uint512::from_u64(15)), Ok(()));
    assert_eq!(e.balance(), Uint512::from_u64(5));
    assert_eq!(e.total_deposited(), Uint512::from_u64(20));
    assert_eq!(e.total_withdrawn(), Uint512::from_u64(15));
    assert_eq!(e.credit(Uint512 { limbs: [u64::MAX; 8] }), Err(BridgeError::AmountOverflow));
    assert_eq!(e.balance(), Uint512::from_u64(5));
}

#[test]
fn root_commit_advances_sequence() {
    let mut l = StateRootLedger::new(Uint512::from_u64(0));
    assert_eq!(l.commit(Uint512::from_u64(7)), Ok(1));
    assert_eq!(l.commit(Uint512::from_u64(8)), Ok(2));
    assert_eq!(l.current_root(), Uint512::from_u64(8));
    assert_eq!(l.sequence(), 2);
}

#[test]
fn uint_same_value() {
    assert!(Uint512::from_u64(5).same_value(Uint512::from_u64(5)));
    assert!(!Uint512::from_u64(5).same_value(Uint512::from_u64(6)));
    let high = Uint512 { limbs: [0, 0, 0, 0, 0, 0, 0, 1] };
    assert!(!high.same_value(Uint512::zero()));
}

#[test]
fn root_commit_refuses_at_counter_limit() {
    let mut l = StateRootLedger::restore(Uint512::from_u64(1), u64::MAX);
    assert_eq!(l.commit(Uint512::from_u64(2)), Err(BridgeError::SequenceOverflow));
    assert_eq!(l.current_root(), Uint512::from_u64(1));
    assert_eq!(l.sequence(), u64::MAX);
}
