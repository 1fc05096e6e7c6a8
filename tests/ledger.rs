use payment_recorder::{AccountId, CallContext, PaymentRecord, PaymentRecorded, PaymentRecorder};

fn alice() -> AccountId {
    AccountId([1u8; 32])
}

fn bob() -> AccountId {
    AccountId([2u8; 32])
}

fn charlie() -> AccountId {
    AccountId([3u8; 32])
}

fn at(caller: AccountId, timestamp: u64) -> CallContext {
    CallContext::new(caller, timestamp)
}

#[test]
fn new_works() {
    let contract = PaymentRecorder::new();
    assert_eq!(contract.get_my_payment_history(at(alice(), 0)), Vec::new());
    assert_eq!(contract.get_payment_history(alice()), Vec::new());
}

#[test]
fn record_payment_works() {
    let mut contract = PaymentRecorder::new();
    let recipient = bob();
    let amount = 100;
    let ctx = at(alice(), 0);

    let mut emitted_events: Vec<PaymentRecorded> = Vec::new();
    emitted_events.push(contract.record_payment(ctx, recipient, amount));
    assert_eq!(emitted_events.len(), 1);

    let history = contract.get_my_payment_history(ctx);
    assert_eq!(history.len(), 1);
    assert_eq!(history[0].recipient, recipient);
    assert_eq!(history[0].amount, amount);

    let recipient2 = charlie();
    let amount2 = 200;
    emitted_events.push(contract.record_payment(ctx, recipient2, amount2));

    let history_updated = contract.get_my_payment_history(ctx);
    assert_eq!(history_updated.len(), 2);
    assert_eq!(history_updated[1].recipient, recipient2);
    assert_eq!(history_updated[1].amount, amount2);

    assert_eq!(contract.get_payment_history(bob()), Vec::new());
}

#[test]
fn get_payment_history_works() {
    let mut contract = PaymentRecorder::new();

    contract.record_payment(at(alice(), 0), bob(), 100);
    contract.record_payment(at(alice(), 0), charlie(), 200);
    contract.record_payment(at(bob(), 0), alice(), 50);

    let alice_history = contract.get_payment_history(alice());
    assert_eq!(alice_history.len(), 2);
    assert_eq!(alice_history[0].recipient, bob());
    assert_eq!(alice_history[0].amount, 100);
    assert_eq!(alice_history[1].recipient, charlie());
    assert_eq!(alice_history[1].amount, 200);

    let bob_history = contract.get_payment_history(bob());
    assert_eq!(bob_history.len(), 1);
    assert_eq!(bob_history[0].recipient, alice());
    assert_eq!(bob_history[0].amount, 50);

    assert_eq!(contract.get_payment_history(charlie()), Vec::new());
}

#[test]
fn record_and_get_history_works() {
    let mut contract = PaymentRecorder::new();
    let bob_account = bob();
    let charlie_account = charlie();

    contract.record_payment(at(alice(), 6), bob_account, 100);
    contract.record_payment(at(alice(), 12), charlie_account, 200);

    let my_history = contract.get_my_payment_history(at(alice(), 18));
    assert_eq!(my_history.len(), 2);
    assert_eq!(my_history[0].recipient, bob_account);
    assert_eq!(my_history[0].amount, 100);
    assert_eq!(my_history[1].recipient, charlie_account);
    assert_eq!(my_history[1].amount, 200);

    let history = contract.get_payment_history(alice());
    assert_eq!(history.len(), 2);
    assert_eq!(history[0].recipient, bob_account);
    assert_eq!(history[0].amount, 100);

    let bob_history = contract.get_payment_history(bob_account);
    assert_eq!(bob_history.len(), 0);
}

#[test]
fn unknown_identity_has_empty_history() {
    let mut contract = PaymentRecorder::default();
    assert!(contract.get_payment_history(charlie()).is_empty());
    contract.record_payment(at(alice(), 1), charlie(), 5);
    assert!(contract.get_payment_history(charlie()).is_empty());
    assert!(contract.get_my_payment_history(at(charlie(), 2)).is_empty());
}

#[test]
fn history_keeps_call_order_and_duplicates() {
    let mut contract = PaymentRecorder::new();
    contract.record_payment(at(alice(), 3), bob(), 7);
    contract.record_payment(at(bob(), 4), alice(), 1);
    contract.record_payment(at(alice(), 3), bob(), 7);
    contract.record_payment(at(alice(), 9), charlie(), 0);
    let expected = vec![
        PaymentRecord { recipient: bob(), amount: 7, timestamp: 3 },
        PaymentRecord { recipient: bob(), amount: 7, timestamp: 3 },
        PaymentRecord { recipient: charlie(), amount: 0, timestamp: 9 },
    ];
    assert_eq!(contract.get_payment_history(alice()), expected);
}

#[test]
fn recipient_history_is_untouched() {
    let mut contract = PaymentRecorder::new();
    contract.record_payment(at(bob(), 1), alice(), 10);
    let before = contract.get_payment_history(bob());
    contract.record_payment(at(alice(), 2), bob(), 20);
    contract.record_payment(at(charlie(), 3), bob(), 30);
    assert_eq!(contract.get_payment_history(bob()), before);
    assert_eq!(before, vec![PaymentRecord { recipient: alice(), amount: 10, timestamp: 1 }]);
}

#[test]
fn notification_matches_appended_record() {
    let mut contract = PaymentRecorder::new();
    let e = contract.record_payment(at(alice(), 42), bob(), 100);
    assert_eq!(
        e,
        PaymentRecorded { sender: alice(), recipient: bob(), amount: 100, timestamp: 42 }
    );
    let history = contract.get_payment_history(alice());
    assert_eq!(history.len(), 1);
    assert_eq!(history[0], e.record());
    assert_eq!(e.record(), PaymentRecord { recipient: bob(), amount: 100, timestamp: 42 });
}

#[test]
fn my_history_equals_history_of_caller() {
    let mut contract = PaymentRecorder::new();
    for who in [alice(), bob(), charlie()] {
        assert_eq!(contract.get_my_payment_history(at(who, 0)), contract.get_payment_history(who));
    }
    contract.record_payment(at(alice(), 1), bob(), 1);
    contract.record_payment(at(bob(), 2), charlie(), 2);
    for who in [alice(), bob(), charlie()] {
        assert_eq!(contract.get_my_payment_history(at(who, 5)), contract.get_payment_history(who));
    }
}

#[test]
fn alice_bob_charlie_scenario() {
    let mut contract = PaymentRecorder::new();
    contract.record_payment(at(alice(), 10), bob(), 100);
    contract.record_payment(at(alice(), 20), charlie(), 200);
    assert_eq!(
        contract.get_payment_history(alice()),
        vec![
            PaymentRecord { recipient: bob(), amount: 100, timestamp: 10 },
            PaymentRecord { recipient: charlie(), amount: 200, timestamp: 20 },
        ]
    );
    assert_eq!(contract.get_payment_history(bob()), Vec::new());
    contract.record_payment(at(bob(), 30), alice(), 50);
    assert_eq!(
        contract.get_payment_history(bob()),
        vec![PaymentRecord { recipient: alice(), amount: 50, timestamp: 30 }]
    );
    assert_eq!(contract.get_payment_history(alice()).len(), 2);
    assert_eq!(contract.get_payment_history(charlie()), Vec::new());
}

#[test]
fn largest_amount_and_time_are_kept() {
    let mut contract = PaymentRecorder::new();
    let e = contract.record_payment(at(alice(), u64::MAX), bob(), u128::MAX);
    assert_eq!(e.amount, u128::MAX);
    assert_eq!(
        contract.get_payment_history(alice()),
        vec![PaymentRecord { recipient: bob(), amount: u128::MAX, timestamp: u64::MAX }]
    );
}

#[test]
fn identities_differ_in_any_byte() {
    let mut last = [1u8; 32];
    last[31] = 2;
    assert_eq!(AccountId::new([1u8; 32]), alice());
    assert_ne!(AccountId::new(last), alice());
    assert_eq!(AccountId::new(last).bytes(), last);
    let mut contract = PaymentRecorder::new();
    contract.record_payment(at(AccountId::new(last), 1), bob(), 3);
    assert_eq!(contract.get_payment_history(alice()), Vec::new());
    assert_eq!(contract.get_payment_history(AccountId::new(last)).len(), 1);
}
