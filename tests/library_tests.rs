use multisend::chains::solana::{
    build_transfer_instruction, chunk_transfers, transfer_plan, BatchSubmission, SubmitAction,
};
use multisend::chains::terra::{
    build_transfer_msgs, build_transfer_msgs_from, ExecuteMsg, QueryMsg, QueryResult,
};
use multisend::chains::{run_validate, validate_local, Chain, Network, Solana, Terra};
use multisend::text::{chars_of, parse_u64, push_decimal, push_json_string, same_text};
use multisend::utils::{sum_amounts, validate_tx_amounts, MultisendInstruction, TransferInstruction};
use multisend::{Error, Role};
use solana_sdk::signer::Signer;

const SOL_A: &str = "11111111111111111111111111111111";
const SOL_B: &str = "4Nd1mBQtrMJVYVfKf2PJy9NZUZdTAsp7D4xWLs4gDB4T";
const TERRA_A: &str = "terra1vgpyaz232wchktgkc88gr2xhqdjqv49hq4tnvk";
const TERRA_B: &str = "terra1kc87mu460fwkqte29rquh4hc20m54fxwtsx7gp";

fn entry(address: &str, amount: u64) -> TransferInstruction {
    TransferInstruction { address: address.to_string(), amount, coin: TERRA_B.to_string() }
}

fn instruction(senders: Vec<(&str, u64)>, recipients: Vec<(&str, u64)>) -> MultisendInstruction {
    MultisendInstruction {
        senders: senders.into_iter().map(|(a, n)| entry(a, n)).collect(),
        recipients: recipients.into_iter().map(|(a, n)| entry(a, n)).collect(),
    }
}

fn solana() -> Solana {
    Solana { network: "devnet".to_string() }
}

fn terra() -> Terra {
    Terra {
        network: "devnet".to_string(),
        gas_price: "0.15uluna".to_string(),
        gas_adjustment: "1.4".to_string(),
        memo: String::new(),
    }
}

#[test]
fn amounts_exactly_at_tolerance_pass() {
    let data = instruction(vec![("", 100_000_000)], vec![("", 90_000_000)]);
    assert_eq!(validate_tx_amounts(&data).unwrap(), true);
}

#[test]
fn amounts_just_over_tolerance_fail_with_totals() {
    let data = instruction(vec![("", 100_000_000)], vec![("", 89_999_999)]);
    match validate_tx_amounts(&data) {
        Err(Error::AmountMismatch { recipients_total, senders_total }) => {
            assert_eq!(recipients_total, 89_999_999);
            assert_eq!(senders_total, 100_000_000);
        }
        other => panic!("unexpected {:?}", other),
    }
}

#[test]
fn amounts_recipients_over_senders_fail() {
    let data = instruction(vec![("", 100_000_000)], vec![("", 60_000_000), ("", 60_000_000)]);
    assert!(matches!(validate_tx_amounts(&data), Err(Error::AmountMismatch { .. })));
}

#[test]
fn empty_instruction_is_balanced() {
    let data = instruction(vec![], vec![]);
    assert_eq!(validate_tx_amounts(&data).unwrap(), true);
}

#[test]
fn sums_do_not_overflow() {
    let data = instruction(vec![("", u64::MAX), ("", u64::MAX)], vec![]);
    assert_eq!(sum_amounts(&data.senders), 2 * (u64::MAX as u128));
}

#[test]
fn solana_accepts_valid_addresses() {
    let data = instruction(vec![(SOL_A, 1)], vec![(SOL_B, 1), (SOL_A, 1)]);
    assert!(solana().validate_addrs(&data).is_ok());
}

#[test]
fn solana_reports_first_bad_sender() {
    let data = instruction(vec![(SOL_A, 1), ("not-base58!", 1), ("", 1)], vec![(SOL_B, 1)]);
    match solana().validate_addrs(&data) {
        Err(Error::InvalidAddress { address, role, index }) => {
            assert_eq!(address, "not-base58!");
            assert_eq!(role, Role::Sender);
            assert_eq!(index, 1);
        }
        other => panic!("unexpected {:?}", other),
    }
}

#[test]
fn solana_checks_recipients_before_senders() {
    let data = instruction(vec![("", 1)], vec![(SOL_B, 1), (TERRA_A, 1)]);
    match solana().validate_addrs(&data) {
        Err(Error::InvalidAddress { role, index, .. }) => {
            assert_eq!(role, Role::Recipient);
            assert_eq!(index, 1);
        }
        other => panic!("unexpected {:?}", other),
    }
}

#[test]
fn terra_accepts_valid_addresses() {
    let data = instruction(vec![(TERRA_A, 1)], vec![(TERRA_B, 1)]);
    assert!(terra().validate_addrs(&data).is_ok());
}

#[test]
fn terra_refuses_empty_and_foreign_addresses() {
    let empty = instruction(vec![(TERRA_A, 1)], vec![("", 1)]);
    assert!(matches!(terra().validate_addrs(&empty), Err(Error::InvalidAddress { .. })));
    let foreign = instruction(vec![(SOL_B, 1)], vec![(TERRA_B, 1)]);
    match terra().validate_addrs(&foreign) {
        Err(Error::InvalidAddress { role, index, .. }) => {
            assert_eq!(role, Role::Sender);
            assert_eq!(index, 0);
        }
        other => panic!("unexpected {:?}", other),
    }
}

#[test]
fn solana_balance_exact_match_passes() {
    let data = instruction(vec![(SOL_A, 500_000_000)], vec![]);
    assert!(solana().validate_balance(&data, &vec![500_000_000]).is_ok());
}

#[test]
fn solana_balance_short_by_one_lamport_fails() {
    let data = instruction(vec![(SOL_A, 1), (SOL_B, 500_000_000)], vec![]);
    match solana().validate_balance(&data, &vec![10, 499_999_999]) {
        Err(Error::InsufficientBalance { address, required, available }) => {
            assert_eq!(address, SOL_B);
            assert_eq!(required, 500_000_000);
            assert_eq!(available, 499_999_999);
        }
        other => panic!("unexpected {:?}", other),
    }
}

#[test]
fn terra_balance_uses_micro_units() {
    let data = instruction(vec![(TERRA_A, 1_500_000_000)], vec![]);
    assert!(terra().validate_balance(&data, &vec![1_500_000]).is_ok());
    match terra().validate_balance(&data, &vec![1_499_999]) {
        Err(Error::InsufficientBalance { required, available, .. }) => {
            assert_eq!(required, 1_500_000);
            assert_eq!(available, 1_499_999);
        }
        other => panic!("unexpected {:?}", other),
    }
}

#[test]
fn validation_runs_amounts_then_addresses_then_balances() {
    let unbalanced = instruction(vec![("", 5)], vec![("", 100_000_000)]);
    assert!(matches!(
        run_validate(&solana(), &unbalanced, &vec![0]),
        Err(Error::AmountMismatch { .. })
    ));
    let bad_address = instruction(vec![("", 5)], vec![(SOL_A, 5)]);
    assert!(matches!(
        run_validate(&solana(), &bad_address, &vec![0]),
        Err(Error::InvalidAddress { .. })
    ));
    let poor = instruction(vec![(SOL_B, 5)], vec![(SOL_A, 5)]);
    assert!(matches!(
        run_validate(&solana(), &poor, &vec![4]),
        Err(Error::InsufficientBalance { .. })
    ));
    assert!(run_validate(&solana(), &poor, &vec![5]).is_ok());
    assert!(validate_local(&solana(), &poor).is_ok());
}

#[test]
fn validation_twice_gives_the_same_result() {
    let data = instruction(vec![(SOL_B, 5)], vec![(SOL_A, 5)]);
    let first = run_validate(&solana(), &data, &vec![4]);
    let second = run_validate(&solana(), &data, &vec![4]);
    assert_eq!(format!("{:?}", first), format!("{:?}", second));
}

#[test]
fn new_keeps_terra_fee_settings() {
    let t = terra().new("mainnet".to_string());
    assert_eq!(t.network, "mainnet");
    assert_eq!(t.gas_price, "0.15uluna");
    let s = solana().new("mainnet".to_string());
    assert_eq!(s.network, "mainnet");
}

#[test]
fn chunks_follow_the_cap() {
    for n in [0usize, 1, 19, 20, 21, 40, 45] {
        let v: Vec<usize> = (0..n).collect();
        let chunks = chunk_transfers(v.clone());
        assert_eq!(chunks.len(), (n + 19) / 20);
        assert!(chunks.iter().all(|c| !c.is_empty() && c.len() <= 20));
        let joined: Vec<usize> = chunks.into_iter().flatten().collect();
        assert_eq!(joined, v);
    }
}

#[test]
fn forty_five_transfers_make_three_chunks() {
    let chunks = chunk_transfers((0..45).collect::<Vec<u32>>());
    let sizes: Vec<usize> = chunks.iter().map(|c| c.len()).collect();
    assert_eq!(sizes, vec![20, 20, 5]);
    assert_eq!(chunks[2][0], 40);
}

#[test]
fn submission_stops_at_failed_chunk() {
    let mut s = BatchSubmission::new(3);
    assert_eq!(s.next_action(), SubmitAction::Submit(0));
    s.record(Ok(()));
    assert_eq!(s.next_action(), SubmitAction::Submit(1));
    s.record(Err("blockhash not found".to_string()));
    assert_eq!(s.next_action(), SubmitAction::Stopped(1));
    match s.result() {
        Err(Error::SubmissionError { chunk_index, cause }) => {
            assert_eq!(chunk_index, 1);
            assert_eq!(cause, "blockhash not found");
        }
        other => panic!("unexpected {:?}", other),
    }
}

#[test]
fn submission_finishes_after_all_chunks() {
    let mut s = BatchSubmission::new(2);
    s.record(Ok(()));
    s.record(Ok(()));
    assert_eq!(s.next_action(), SubmitAction::Finished);
    assert_eq!(s.result().unwrap(), 2);
    assert_eq!(BatchSubmission::new(0).next_action(), SubmitAction::Finished);
}

#[test]
fn solana_plan_converts_to_lamports() {
    let data = instruction(vec![], vec![(SOL_A, 1_000_000_000), (SOL_B, 1_500)]);
    let plan = transfer_plan(&data).unwrap();
    assert_eq!(plan.len(), 2);
    assert_eq!(plan[0].0.to_string(), SOL_A);
    assert_eq!(plan[0].1, 1_000_000_000);
    assert_eq!(plan[1].0.to_string(), SOL_B);
    assert_eq!(plan[1].1, 1_500);
}

#[test]
fn solana_builds_one_instruction_per_recipient() {
    let keypair = solana_sdk::signer::keypair::Keypair::new();
    let data = instruction(vec![], vec![(SOL_A, 1), (SOL_B, 2), (SOL_A, 3)]);
    assert_eq!(build_transfer_instruction(&keypair, &data).unwrap().len(), 3);
    let bad = instruction(vec![], vec![(SOL_A, 1), ("", 2)]);
    match build_transfer_instruction(&keypair, &bad) {
        Err(Error::InvalidAddress { role, index, .. }) => {
            assert_eq!(role, Role::Recipient);
            assert_eq!(index, 1);
        }
        other => panic!("unexpected {:?}", other.map(|v| v.len())),
    }
}

#[test]
fn balance_query_encodes_as_base64_json() {
    let q = QueryMsg::Balance { address: TERRA_A.to_string() };
    assert_eq!(q.to_json(), format!("{{\"balance\":{{\"address\":\"{}\"}}}}", TERRA_A));
    assert_eq!(
        q.base64encode(),
        "eyJiYWxhbmNlIjp7ImFkZHJlc3MiOiJ0ZXJyYTF2Z3B5YXoyMzJ3Y2hrdGdrYzg4Z3IyeGhxZGpxdjQ5aHE0dG52ayJ9fQ=="
    );
}

#[test]
fn query_result_json() {
    let q = QueryMsg::QueryResult(QueryResult { balance: "42".to_string() });
    assert_eq!(q.to_json(), "{\"query_result\":{\"balance\":\"42\"}}");
}

#[test]
fn json_strings_are_escaped() {
    let mut out = String::new();
    push_json_string(&mut out, "a\"b\\c\nd\u{1}é");
    assert_eq!(out, "\"a\\\"b\\\\c\\nd\\u0001é\"");
}

#[test]
fn query_answer_balance() {
    let answer = |b: &str| QueryMsg::QueryResult(QueryResult { balance: b.to_string() }).balance();
    assert_eq!(answer("12345"), Some(12345));
    assert_eq!(answer("+7"), Some(7));
    assert_eq!(answer("18446744073709551615"), Some(u64::MAX));
    assert_eq!(answer("18446744073709551616"), None);
    assert_eq!(answer(""), None);
    assert_eq!(answer("+"), None);
    assert_eq!(answer("12a"), None);
    assert_eq!(answer("-1"), None);
    assert_eq!(QueryMsg::Balance { address: TERRA_A.to_string() }.balance(), None);
}

#[test]
fn decimal_text() {
    let mut out = String::from("x");
    push_decimal(&mut out, 1_500_000);
    assert_eq!(out, "x1500000");
    let mut zero = String::new();
    push_decimal(&mut zero, 0);
    assert_eq!(zero, "0");
    assert_eq!(parse_u64("0042"), Some(42));
    assert_eq!(chars_of("aé"), vec!['a', 'é']);
}

#[test]
fn transfer_message_json() {
    let m = ExecuteMsg::Transfer { amount: "1500000".to_string(), recipient: TERRA_A.to_string() };
    assert_eq!(
        m.to_json(),
        format!("{{\"transfer\":{{\"amount\":\"1500000\",\"recipient\":\"{}\"}}}}", TERRA_A)
    );
}

#[test]
fn terra_builds_one_message_per_recipient() {
    assert!(ExecuteMsg::create_transfer(5, TERRA_A, TERRA_B, TERRA_B).is_ok());
    let key = terra_rust_api::PublicKey::from_account(TERRA_A).unwrap();
    let data = instruction(vec![], vec![(TERRA_B, 1_000_000_000), (TERRA_A, 2_000)]);
    assert_eq!(build_transfer_msgs(&key, &data).unwrap().len(), 2);
}

#[test]
fn transfer_call_writes_amount_in_decimal() {
    match ExecuteMsg::transfer(1_500_000, TERRA_A) {
        ExecuteMsg::Transfer { amount, recipient } => {
            assert_eq!(amount, "1500000");
            assert_eq!(recipient, TERRA_A);
        }
    }
}

#[test]
fn networks_map_to_endpoints() {
    assert_eq!(Network::from_name("mainnet"), Network::Mainnet);
    assert_eq!(Network::from_name("devnet"), Network::Devnet);
    assert_eq!(Network::from_name("testnet"), Network::Devnet);
    assert_eq!(Network::from_name(""), Network::Devnet);
    assert_eq!(Network::Mainnet.solana_rpc_url(), "https://api.mainnet-beta.solana.com");
    assert_eq!(Network::Devnet.solana_rpc_url(), "https://api.devnet.solana.com");
    assert_eq!(Network::Mainnet.terra_lcd(), ("https://lcd.terra.dev", "columbus-5"));
    assert_eq!(Network::Devnet.terra_lcd(), ("https://bombay-lcd.terra.dev", "bombay-12"));
}

#[test]
fn text_comparison() {
    assert!(same_text("mainnet", "mainnet"));
    assert!(!same_text("mainnet", "mainnex"));
    assert!(!same_text("main", "mainnet"));
    assert!(same_text("", ""));
}

#[test]
fn terra_messages_from_account_text() {
    let data = instruction(vec![], vec![(TERRA_B, 1_000_000_000), (TERRA_A, 2_000), (TERRA_B, 0)]);
    assert_eq!(build_transfer_msgs_from(TERRA_A, &data).unwrap().len(), 3);
    assert_eq!(build_transfer_msgs_from(TERRA_A, &instruction(vec![], vec![])).unwrap().len(), 0);
}

#[test]
fn transfer_message_carries_sender_contract_and_json() {
    let m = ExecuteMsg::create_transfer(1_500_000, TERRA_A, TERRA_A, TERRA_B).unwrap();
    let v = serde_json::to_value(&m).unwrap();
    assert_eq!(v["type"], "wasm/MsgExecuteContract");
    assert_eq!(v["value"]["sender"], TERRA_A);
    assert_eq!(v["value"]["contract"], TERRA_B);
    assert_eq!(v["value"]["coins"].as_array().unwrap().len(), 0);
    assert_eq!(v["value"]["execute_msg"]["transfer"]["amount"], "1500000");
    assert_eq!(v["value"]["execute_msg"]["transfer"]["recipient"], TERRA_A);
}

#[test]
fn balance_query_path_carries_contract_and_query() {
    let q = QueryMsg::Balance { address: TERRA_A.to_string() };
    assert_eq!(
        q.store_query_path(TERRA_B),
        format!(
            "/terra/wasm/v1beta1/contracts/{}/store?query_msg=eyJiYWxhbmNlIjp7ImFkZHJlc3MiOiJ0ZXJyYTF2Z3B5YXoyMzJ3Y2hrdGdrYzg4Z3IyeGhxZGpxdjQ5aHE0dG52ayJ9fQ==",
            TERRA_B
        )
    );
}

#[test]
fn solana_instructions_match_system_transfers() {
    let keypair = solana_sdk::signer::keypair::Keypair::new();
    let data = instruction(vec![], vec![(SOL_B, 1_500_000_000), (SOL_A, 7)]);
    let built = build_transfer_instruction(&keypair, &data).unwrap();
    let to_b: solana_sdk::pubkey::Pubkey = SOL_B.parse().unwrap();
    let to_a: solana_sdk::pubkey::Pubkey = SOL_A.parse().unwrap();
    assert_eq!(built[0], solana_sdk::system_instruction::transfer(&keypair.pubkey(), &to_b, 1_500_000_000));
    assert_eq!(built[1], solana_sdk::system_instruction::transfer(&keypair.pubkey(), &to_a, 7));
}

#[test]
fn terra_messages_come_from_the_key_account() {
    let key = terra_rust_api::PublicKey::from_account(TERRA_A).unwrap();
    let data = instruction(vec![], vec![(TERRA_B, 1_000_000)]);
    let msgs = build_transfer_msgs(&key, &data).unwrap();
    let v = serde_json::to_value(&msgs[0]).unwrap();
    assert_eq!(v["value"]["sender"], TERRA_A);
    assert_eq!(v["value"]["contract"], TERRA_B);
    assert_eq!(v["value"]["execute_msg"]["transfer"]["amount"], "1000");
}
