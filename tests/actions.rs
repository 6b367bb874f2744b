use streaming::account::{get_amount, Account};
use streaming::contract::{ActionType, Contract, ContractError, Dao};
use streaming::stream::{Stream, StreamFinishReason, StreamId, StreamStatus};
use streaming::token::Token;

const T0: u64 = 1_700_000_000_000_000_000;
const SEC: u64 = 1_000_000_000;

fn token() -> String {
    "token.near".to_string()
}

fn contract_with(tokens: Vec<Token>) -> Contract {
    Contract::new(Dao { tokens })
}

fn unlisted_contract() -> Contract {
    contract_with(vec![Token::new_unlisted(&token())])
}

fn stream(balance: u128, rate: u128) -> Stream {
    Stream::new(
        StreamId { hi: 7, lo: 9 },
        None,
        "alice.near".to_string(),
        "bob.near".to_string(),
        token(),
        balance,
        rate,
        true,
        T0,
    )
}

fn account<'a>(c: &'a Contract, id: &str) -> &'a Account {
    c.accounts.iter().find(|a| a.account_id == id).unwrap()
}

fn started(c: &mut Contract, s: &mut Stream) {
    assert!(c.process_action(s, ActionType::Init, T0).unwrap().is_empty());
    assert!(c.process_action(s, ActionType::Start, T0).unwrap().is_empty());
}

#[test]
fn init_registers_stream_as_inactive() {
    let mut c = unlisted_contract();
    let mut s = stream(100, 1);
    let ts = c.process_action(&mut s, ActionType::Init, T0 + 5).unwrap();
    assert!(ts.is_empty());
    assert_eq!(s.status, StreamStatus::Initialized);
    assert_eq!(s.last_action, T0 + 5);
    for id in ["alice.near", "bob.near"] {
        let a = account(&c, id);
        assert_eq!(a.inactive_streams, vec![s.id]);
        assert!(a.active_streams.is_empty());
    }
}

#[test]
fn start_moves_stream_and_adds_rates() {
    let mut c = unlisted_contract();
    let mut s = stream(100, 3);
    started(&mut c, &mut s);
    assert_eq!(s.status, StreamStatus::Active);
    let alice = account(&c, "alice.near");
    let bob = account(&c, "bob.near");
    assert_eq!(alice.active_streams, vec![s.id]);
    assert!(alice.inactive_streams.is_empty());
    assert_eq!(bob.active_streams, vec![s.id]);
    assert_eq!(get_amount(&alice.total_outgoing, &token()), 3);
    assert_eq!(get_amount(&alice.total_incoming, &token()), 0);
    assert_eq!(get_amount(&bob.total_incoming, &token()), 3);
    assert_eq!(get_amount(&bob.total_outgoing, &token()), 0);
}

#[test]
fn pause_settles_and_restores_rate_sums() {
    let mut c = unlisted_contract();
    let mut s = stream(100, 3);
    started(&mut c, &mut s);
    let ts = c.process_action(&mut s, ActionType::Pause, T0 + 4 * SEC).unwrap();
    assert_eq!(ts.len(), 1);
    assert_eq!(ts[0].amount, 12);
    assert_eq!(ts[0].receiver_id, "bob.near");
    assert_eq!(ts[0].token_account_id, token());
    assert_eq!(s.status, StreamStatus::Paused);
    assert_eq!(s.balance, 88);
    assert_eq!(s.tokens_total_withdrawn, 12);
    let alice = account(&c, "alice.near");
    let bob = account(&c, "bob.near");
    assert_eq!(get_amount(&alice.total_outgoing, &token()), 0);
    assert_eq!(get_amount(&bob.total_incoming, &token()), 0);
    assert_eq!(get_amount(&bob.total_received, &token()), 12);
    assert_eq!(alice.inactive_streams, vec![s.id]);
    assert!(alice.active_streams.is_empty());
    assert_eq!(bob.inactive_streams, vec![s.id]);
}

#[test]
fn pause_that_exhausts_leaves_stream_finished() {
    let mut c = unlisted_contract();
    let mut s = stream(10, 3);
    started(&mut c, &mut s);
    let ts = c.process_action(&mut s, ActionType::Pause, T0 + 5 * SEC).unwrap();
    assert_eq!(ts[0].amount, 10);
    assert_eq!(
        s.status,
        StreamStatus::Finished { reason: StreamFinishReason::FinishedNatually }
    );
    assert_eq!(s.balance, 0);
    assert_eq!(get_amount(&account(&c, "alice.near").total_outgoing, &token()), 0);
}

#[test]
fn resume_after_pause_adds_rate_again() {
    let mut c = unlisted_contract();
    let mut s = stream(100, 3);
    started(&mut c, &mut s);
    c.process_action(&mut s, ActionType::Pause, T0 + SEC).unwrap();
    c.process_action(&mut s, ActionType::Start, T0 + 2 * SEC).unwrap();
    assert_eq!(s.status, StreamStatus::Active);
    assert_eq!(get_amount(&account(&c, "alice.near").total_outgoing, &token()), 3);
    let ts = c.process_action(&mut s, ActionType::Withdraw, T0 + 4 * SEC).unwrap();
    assert_eq!(ts[0].amount, 6);
}

#[test]
fn withdraw_keeps_active_until_exhausted() {
    let mut c = unlisted_contract();
    let mut s = stream(10, 3);
    started(&mut c, &mut s);
    let ts = c.process_action(&mut s, ActionType::Withdraw, T0 + 2 * SEC).unwrap();
    assert_eq!(ts[0].amount, 6);
    assert_eq!(s.status, StreamStatus::Active);
    assert_eq!(get_amount(&account(&c, "alice.near").total_outgoing, &token()), 3);
    let ts = c.process_action(&mut s, ActionType::Withdraw, T0 + 9 * SEC).unwrap();
    assert_eq!(ts[0].amount, 4);
    assert_eq!(
        s.status,
        StreamStatus::Finished { reason: StreamFinishReason::FinishedNatually }
    );
    let alice = account(&c, "alice.near");
    let bob = account(&c, "bob.near");
    assert_eq!(get_amount(&alice.total_outgoing, &token()), 0);
    assert_eq!(get_amount(&bob.total_incoming, &token()), 0);
    assert_eq!(get_amount(&bob.total_received, &token()), 10);
    assert_eq!(alice.inactive_streams, vec![s.id]);
    assert!(bob.active_streams.is_empty());
}

#[test]
fn stop_while_paused_refunds_without_payment() {
    let mut c = unlisted_contract();
    let mut s = stream(100, 3);
    started(&mut c, &mut s);
    c.process_action(&mut s, ActionType::Pause, T0 + 2 * SEC).unwrap();
    let received = get_amount(&account(&c, "bob.near").total_received, &token());
    let reason = StreamFinishReason::StoppedByOwner;
    let ts = c.process_action(&mut s, ActionType::Stop { reason }, T0 + 50 * SEC).unwrap();
    assert_eq!(ts.len(), 1);
    assert_eq!(ts[0].receiver_id, "alice.near");
    assert_eq!(ts[0].amount, 94);
    assert_eq!(s.balance, 0);
    assert_eq!(s.tokens_total_withdrawn, 6);
    assert_eq!(s.status, StreamStatus::Finished { reason });
    assert_eq!(s.last_action, T0 + 50 * SEC);
    assert_eq!(get_amount(&account(&c, "bob.near").total_received, &token()), received);
}

#[test]
fn stop_while_active_pays_then_refunds() {
    let mut c = unlisted_contract();
    let mut s = stream(100, 3);
    started(&mut c, &mut s);
    let reason = StreamFinishReason::StoppedByReceiver;
    let ts = c.process_action(&mut s, ActionType::Stop { reason }, T0 + 10 * SEC).unwrap();
    assert_eq!(ts.len(), 2);
    assert_eq!((ts[0].receiver_id.as_str(), ts[0].amount), ("bob.near", 30));
    assert_eq!((ts[1].receiver_id.as_str(), ts[1].amount), ("alice.near", 70));
    assert_eq!(s.status, StreamStatus::Finished { reason });
    assert_eq!(get_amount(&account(&c, "alice.near").total_outgoing, &token()), 0);
    assert_eq!(get_amount(&account(&c, "bob.near").total_incoming, &token()), 0);
}

#[test]
fn stop_after_natural_finish_pays_without_refund() {
    let mut c = unlisted_contract();
    let mut s = stream(10, 3);
    started(&mut c, &mut s);
    let reason = StreamFinishReason::StoppedByOwner;
    let ts = c.process_action(&mut s, ActionType::Stop { reason }, T0 + 60 * SEC).unwrap();
    assert_eq!(ts.len(), 1);
    assert_eq!(ts[0].amount, 10);
    assert_eq!(
        s.status,
        StreamStatus::Finished { reason: StreamFinishReason::FinishedNatually }
    );
}

#[test]
fn stop_initialized_stream_refunds_everything() {
    let mut c = unlisted_contract();
    let mut s = stream(100, 3);
    c.process_action(&mut s, ActionType::Init, T0).unwrap();
    let reason = StreamFinishReason::StoppedByOwner;
    let ts = c.process_action(&mut s, ActionType::Stop { reason }, T0 + SEC).unwrap();
    assert_eq!(ts.len(), 1);
    assert_eq!(ts[0].amount, 100);
    assert_eq!(s.balance, 0);
}

#[test]
fn unknown_token_is_reported_and_changes_nothing() {
    let mut c = contract_with(vec![]);
    let mut s = stream(100, 3);
    started(&mut c, &mut s);
    let r = c.process_action(&mut s, ActionType::Withdraw, T0 + 3 * SEC);
    match r {
        Err(ContractError::UnknownToken { token_account_id }) => assert_eq!(token_account_id, token()),
        _ => panic!("expected an unknown token"),
    }
    assert_eq!(s.balance, 100);
    assert_eq!(s.last_action, T0);
    assert_eq!(get_amount(&account(&c, "bob.near").total_received, &token()), 0);
}

#[test]
fn listed_token_commission_is_kept_from_payment() {
    let mut c = contract_with(vec![Token::new_listed(&token(), 1, 10)]);
    let mut s = stream(1000, 50);
    started(&mut c, &mut s);
    let ts = c.process_action(&mut s, ActionType::Withdraw, T0 + 2 * SEC).unwrap();
    assert_eq!(ts[0].amount, 90);
    assert_eq!(s.balance, 900);
    assert_eq!(get_amount(&account(&c, "bob.near").total_received, &token()), 90);
}

#[test]
fn start_twice_is_data_corruption() {
    let mut c = unlisted_contract();
    let mut s = stream(100, 3);
    started(&mut c, &mut s);
    let r = c.process_action(&mut s, ActionType::Start, T0 + SEC);
    assert!(matches!(r, Err(ContractError::DataCorruption)));
    assert_eq!(s.last_action, T0);
}

#[test]
fn init_twice_is_data_corruption() {
    let mut c = unlisted_contract();
    let mut s = stream(100, 3);
    c.process_action(&mut s, ActionType::Init, T0).unwrap();
    let r = c.process_action(&mut s, ActionType::Init, T0);
    assert!(matches!(r, Err(ContractError::DataCorruption)));
}

#[test]
fn stream_to_self_is_data_corruption() {
    let mut c = unlisted_contract();
    let mut s = stream(100, 3);
    s.receiver_id = s.owner_id.clone();
    let r = c.process_action(&mut s, ActionType::Init, T0);
    assert!(matches!(r, Err(ContractError::DataCorruption)));
    assert!(c.accounts.is_empty());
}

#[test]
fn pause_with_missing_rate_is_data_corruption() {
    let mut c = unlisted_contract();
    let mut s = stream(100, 3);
    started(&mut c, &mut s);
    let mut bob = c.extract_account_or_create(&"bob.near".to_string());
    bob.total_incoming.clear();
    c.save_account(bob);
    let r = c.process_action(&mut s, ActionType::Pause, T0 + SEC);
    assert!(matches!(r, Err(ContractError::DataCorruption)));
    assert_eq!(s.status, StreamStatus::Active);
    assert_eq!(s.balance, 100);
    assert_eq!(get_amount(&account(&c, "alice.near").total_outgoing, &token()), 3);
}

#[test]
fn extract_missing_stream_is_unreachable() {
    let mut c = unlisted_contract();
    let id = StreamId { hi: 1, lo: 1 };
    match c.extract_stream(&id) {
        Err(ContractError::UnreachableStream { stream_id }) => assert_eq!(stream_id, id),
        _ => panic!("expected an unreachable stream"),
    }
}

#[test]
fn save_then_extract_stream() {
    let mut c = unlisted_contract();
    let s = stream(100, 3);
    let id = s.id;
    assert!(c.save_stream(&id, s).is_ok());
    assert!(matches!(c.save_stream(&id, stream(5, 5)), Err(ContractError::DataCorruption)));
    let back = c.extract_stream(&id).ok().unwrap();
    assert_eq!(back.balance, 100);
    assert!(c.extract_stream(&id).is_err());
}

#[test]
fn save_under_other_id_is_data_corruption() {
    let mut c = unlisted_contract();
    let s = stream(100, 3);
    let r = c.save_stream(&StreamId { hi: 0, lo: 0 }, s);
    assert!(matches!(r, Err(ContractError::DataCorruption)));
    assert!(c.streams.is_empty());
}

#[test]
fn zero_transfer_is_a_valid_effect() {
    let c = unlisted_contract();
    let t = c.ft_transfer(&token(), &"bob.near".to_string(), 0);
    assert_eq!(t.amount, 0);
    assert_eq!(t.receiver_id, "bob.near");
}

#[test]
fn unknown_token_lookup_fails() {
    let d = Dao { tokens: vec![Token::new_unlisted(&token())] };
    assert!(d.get_token(&"other.near".to_string()).is_err());
    assert_eq!(d.get_token(&token()).ok().unwrap().account_id, token());
}
