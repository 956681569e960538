use erc20::AccountId;
use erc20::Approve;
use erc20::Erc20;
use erc20::Event;
use erc20::Transfer;

#[test]
fn construction_emits_mint_transfer() {
    let a = AccountId::from([0x1; 32]);
    let contract = Erc20::new(a, 777);
    assert_eq!(
        contract.events().as_slice(),
        &[Event::Transfer(Transfer { from: None, to: Some(a), value: 777 })]
    );
}

#[test]
fn operations_emit_events_in_order() {
    let a = AccountId::from([0x1; 32]);
    let b = AccountId::from([0x2; 32]);
    let s = AccountId::from([0x3; 32]);
    let mut erc20 = Erc20::new(a, 100);
    assert_eq!(erc20.transfer(a, b, 10), Ok(()));
    assert_eq!(erc20.approve(a, s, 50), Ok(()));
    assert_eq!(erc20.transfer_from(s, a, b, 20), Ok(()));
    assert_eq!(
        erc20.events().as_slice(),
        &[
            Event::Transfer(Transfer { from: None, to: Some(a), value: 100 }),
            Event::Transfer(Transfer { from: Some(a), to: Some(b), value: 10 }),
            Event::Approve(Approve { owner: a, spender: s, value: 50 }),
            Event::Transfer(Transfer { from: Some(a), to: Some(b), value: 20 }),
        ]
    );
}

#[test]
fn failed_operations_emit_nothing() {
    let a = AccountId::from([0x1; 32]);
    let b = AccountId::from([0x2; 32]);
    let mut erc20 = Erc20::new(a, 100);
    let _ = erc20.transfer(a, b, 500);
    let _ = erc20.transfer_from(b, a, b, 1);
    assert_eq!(erc20.events().len(), 1);
}
