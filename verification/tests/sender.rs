use cosmrs::proto::cosmos::authz::v1beta1::MsgExec;
use cosmrs::proto::cosmos::bank::v1beta1::MsgSend;
use cosmrs::proto::traits::Message;
use cosmrs::tx::Tx;
use k256::ecdsa::signature::Verifier;
use k256::ecdsa::{Signature, VerifyingKey};
use cw_orch_daemon::account::BaseAccount;
use cw_orch_daemon::balance::{BalanceQuery, BalanceStep};
use cw_orch_daemon::chain_info::{ChainInfoOwned, ChainKind, NetworkInfoOwned};
use cw_orch_daemon::cosmos_options::{CosmosOptions, CosmosWalletKey};
use cw_orch_daemon::env::DaemonEnvVars;
use cw_orch_daemon::error::{coin, Coin, DaemonError};
use cw_orch_daemon::fee::Decimal;
use cw_orch_daemon::sender::Wallet;
use cw_orch_daemon::tx_broadcaster::RetryAction;
use cw_orch_daemon::tx_builder::{build_sign_doc, Any, TxBody, TxBuilder};

const MNEMONIC: &str = "clip hire initial neck maid actor venue client foam budget lock catalog sweet steak waste crater broccoli pipe steak sister coyote moment obvious choose";
const ADDRESS: &str = "juno16g2rahf5846rxzp3fwlswy08fz8ccuwk03k57y";

fn chain(prefix: &str, coin_type: u32, kind: ChainKind) -> ChainInfoOwned {
    ChainInfoOwned {
        chain_id: "testing".to_string(),
        gas_denom: "ujunox".to_string(),
        gas_price: Decimal::from_micros(25_000),
        grpc_urls: vec!["http://localhost:9090".to_string()],
        network_info: NetworkInfoOwned {
            chain_name: "juno".to_string(),
            pub_address_prefix: prefix.to_string(),
            coin_type,
        },
        kind,
    }
}

fn granter() -> String {
    cw_orch_daemon::keys::PrivateKey::from_words(MNEMONIC, 0, 1, 118)
        .unwrap()
        .account_id("juno")
        .unwrap()
}

fn local() -> ChainInfoOwned {
    chain("juno", 118, ChainKind::Local)
}

fn with_key(key: CosmosWalletKey) -> CosmosOptions {
    CosmosOptions { key, ..CosmosOptions::default() }
}

fn wallet() -> Wallet {
    Wallet::from_mnemonic(local(), MNEMONIC, DaemonEnvVars::default()).unwrap()
}

fn message(type_url: &str, value: &[u8]) -> Any {
    Any { type_url: type_url.to_string(), value: value.to_vec() }
}

fn body() -> TxBody {
    TxBody {
        messages: vec![message("/cosmos.bank.v1beta1.MsgSend", &[])],
        memo: "a memo".to_string(),
        timeout_height: 110,
    }
}

#[test]
fn wallet_from_a_mnemonic() {
    let wallet = wallet();
    assert_eq!(wallet.pub_addr_str(), ADDRESS);
    assert_eq!(wallet.account_id(), Some(ADDRESS.to_string()));
    assert_eq!(wallet.chain_info, local());
    assert_eq!(wallet.env, DaemonEnvVars::default());
    assert_eq!(wallet.options().authz_granter, None);
    assert_eq!(wallet.options().fee_granter, None);
    assert_eq!(wallet.options().hd_index, None);
    assert_eq!(wallet.options().key, CosmosWalletKey::Mnemonic(MNEMONIC.to_string()));
    assert_eq!(wallet.private_key.coin_type, 118);
    assert_eq!(wallet.get_fee_token(), "ujunox");
}

#[test]
fn wallet_from_the_settings() {
    let mut env = DaemonEnvVars::default();
    env.local_mnemonic = Some(MNEMONIC.to_string());
    let wallet = Wallet::new(local(), CosmosOptions::default(), env.clone()).unwrap();
    assert_eq!(wallet.pub_addr_str(), ADDRESS);

    for (kind, missing) in [
        (ChainKind::Testnet, ChainKind::Testnet),
        (ChainKind::Mainnet, ChainKind::Mainnet),
    ] {
        assert_eq!(
            Wallet::new(chain("juno", 118, kind), CosmosOptions::default(), env.clone()),
            Err(DaemonError::MissingMnemonic { kind: missing })
        );
    }
    env.main_mnemonic = Some(MNEMONIC.to_string());
    let wallet =
        Wallet::new(chain("juno", 118, ChainKind::Mainnet), CosmosOptions::default(), env).unwrap();
    assert_eq!(wallet.pub_addr_str(), ADDRESS);
}

#[test]
fn wallet_from_a_raw_key() {
    let derived = wallet();
    let raw = Wallet::new(
        local(),
        with_key(CosmosWalletKey::RawKey(derived.private_key.raw_key().clone())),
        DaemonEnvVars::default(),
    )
    .unwrap();
    assert_eq!(raw.pub_addr_str(), ADDRESS);
    assert_eq!(
        Wallet::new(
            local(),
            with_key(CosmosWalletKey::RawKey(vec![0; 32])),
            DaemonEnvVars::default()
        ),
        Err(DaemonError::InvalidKeyMaterial)
    );
}

#[test]
fn wallet_at_another_index() {
    let mut options = with_key(CosmosWalletKey::Mnemonic(MNEMONIC.to_string()));
    options.hd_index = Some(1);
    let wallet = Wallet::new(local(), options, DaemonEnvVars::default()).unwrap();
    assert_eq!(wallet.private_key.index, 1);
    assert_ne!(wallet.pub_addr_str(), ADDRESS);
    assert!(wallet.pub_addr_str().starts_with("juno1"));
}

#[test]
fn key_is_rejected_before_address_and_coin_type() {
    let env = DaemonEnvVars::default();
    let ethereum = chain("inj", 60, ChainKind::Local);
    assert_eq!(
        Wallet::from_mnemonic(ethereum.clone(), "not a mnemonic", env.clone()),
        Err(DaemonError::InvalidKeyMaterial)
    );
    assert_eq!(
        Wallet::new(
            ethereum.clone(),
            with_key(CosmosWalletKey::RawKey(vec![0; 32])),
            env.clone()
        ),
        Err(DaemonError::InvalidKeyMaterial)
    );
    assert_eq!(
        Wallet::new(ethereum.clone(), CosmosOptions::default(), env.clone()),
        Err(DaemonError::MissingMnemonic { kind: ChainKind::Local })
    );
    assert_eq!(
        Wallet::from_mnemonic(chain("Inj", 60, ChainKind::Local), MNEMONIC, env.clone()),
        Err(DaemonError::InvalidAddress)
    );
    assert_eq!(
        Wallet::from_mnemonic(chain("Inj", 60, ChainKind::Local), "not a mnemonic", env.clone()),
        Err(DaemonError::InvalidKeyMaterial)
    );
    assert_eq!(
        Wallet::from_mnemonic(ethereum.clone(), MNEMONIC, env.clone()),
        Err(DaemonError::SigningUnsupported { coin_type: 60 })
    );
    let raw = wallet().private_key.raw_key().clone();
    assert_eq!(
        Wallet::new(ethereum, with_key(CosmosWalletKey::RawKey(raw)), env),
        Err(DaemonError::SigningUnsupported { coin_type: 60 })
    );
}

#[test]
fn from_mnemonic_is_new_with_the_phrase_as_key() {
    let env = DaemonEnvVars::default();
    let options = with_key(CosmosWalletKey::Mnemonic(MNEMONIC.to_string()));
    assert_eq!(
        Wallet::from_mnemonic(local(), MNEMONIC, env.clone()),
        Wallet::new(local(), options, env.clone())
    );
    let wallet = Wallet::from_mnemonic(local(), MNEMONIC, env.clone()).unwrap();
    assert_eq!(wallet.private_key.account, 0);
    assert_eq!(wallet.private_key.index, 0);
    let broken = with_key(CosmosWalletKey::Mnemonic("broken".to_string()));
    assert_eq!(
        Wallet::from_mnemonic(local(), "broken", env.clone()),
        Wallet::new(local(), broken, env)
    );
}

#[test]
fn balance_is_read_only_where_the_check_is_on() {
    let mut wallet = wallet();
    let fee = coin(10, "ujunox".to_string());
    assert_eq!(wallet.balance_query(&fee), BalanceQuery::Ask { denom: "ujunox".to_string() });
    wallet.env.wallet_balance_assertion = false;
    assert_eq!(wallet.balance_query(&fee), BalanceQuery::Skip);
}

#[test]
fn wallet_is_refused() {
    let env = DaemonEnvVars::default();
    assert_eq!(
        Wallet::from_mnemonic(chain("inj", 60, ChainKind::Local), MNEMONIC, env.clone()),
        Err(DaemonError::SigningUnsupported { coin_type: 60 })
    );
    assert_eq!(
        Wallet::from_mnemonic(chain("Juno", 118, ChainKind::Local), MNEMONIC, env.clone()),
        Err(DaemonError::InvalidAddress)
    );
    assert_eq!(
        Wallet::from_mnemonic(local(), "not a mnemonic", env.clone()),
        Err(DaemonError::InvalidKeyMaterial)
    );
    assert_eq!(
        Wallet::from_mnemonic(chain("juno", 1 << 31, ChainKind::Local), MNEMONIC, env),
        Err(DaemonError::InvalidKeyMaterial)
    );
}

#[test]
fn granters_are_set() {
    let mut wallet = wallet();
    wallet.set_authz_granter(granter());
    assert_eq!(wallet.options().authz_granter, Some(granter()));
    assert_eq!(wallet.options().fee_granter, None);
    wallet.set_fee_granter(ADDRESS.to_string());
    assert_eq!(wallet.options().fee_granter, Some(ADDRESS.to_string()));
    assert_eq!(wallet.options().authz_granter, Some(granter()));
    assert_eq!(wallet.pub_addr_str(), ADDRESS);
}

#[test]
fn fee_from_gas_uses_chain_and_settings() {
    let mut wallet = wallet();
    // The default floor is 150_000.
    assert_eq!(wallet.get_fee_from_gas(100_000), Ok((150_000, 3_751)));
    assert_eq!(wallet.get_fee_from_gas(200_000), Ok((260_000, 6_502)));
    wallet.env.min_gas = 0;
    assert_eq!(wallet.get_fee_from_gas(100_000), Ok((140_000, 3_501)));
    wallet.env.gas_buffer = Some(Decimal::from_micros(2_000_000));
    assert_eq!(wallet.get_fee_from_gas(100_000), Ok((200_000, 5_002)));
    assert_eq!(
        wallet.simulate(100_000),
        Ok((
            200_000,
            coin(5_002, "ujunox".to_string()),
            BalanceQuery::Ask { denom: "ujunox".to_string() }
        ))
    );
    wallet.env.wallet_balance_assertion = false;
    assert_eq!(
        wallet.simulate(100_000),
        Ok((200_000, coin(5_002, "ujunox".to_string()), BalanceQuery::Skip))
    );
}

#[test]
fn signing_twice_gives_the_same_bytes() {
    let wallet = wallet();
    let fee = wallet.build_fee(200_000, 5_000);
    let doc = build_sign_doc(
        wallet.private_key.raw_key(),
        &body(),
        &fee,
        3,
        "testing".to_string(),
        7,
    )
    .unwrap();
    let first = wallet.sign(doc.clone()).unwrap();
    let second = wallet.sign(doc.clone()).unwrap();
    assert_eq!(first, second);
    assert_ne!(first, doc.body_bytes);

    let tx = Tx::from_bytes(&first).unwrap();
    assert_eq!(tx.signatures.len(), 1);
    assert_eq!(tx.signatures[0].len(), 64);
    assert_eq!(tx.body.memo, "a memo");
    assert_eq!(tx.body.timeout_height.value(), 110);
    assert_eq!(tx.body.messages.len(), 1);
    assert_eq!(tx.auth_info.fee.gas_limit, 200_000);
    assert_eq!(tx.auth_info.fee.amount[0].amount, 5_000);
    assert_eq!(tx.auth_info.fee.amount[0].denom.as_ref(), "ujunox");
    assert_eq!(tx.auth_info.signer_infos[0].sequence, 3);
    let signer = tx.auth_info.signer_infos[0].public_key.clone().unwrap();
    assert_eq!(signer.single().unwrap().account_id("juno").unwrap().to_string(), ADDRESS);
}

#[test]
fn signature_verifies_against_the_document() {
    let wallet = wallet();
    let fee = wallet.build_fee(200_000, 5_000);
    let doc = build_sign_doc(
        wallet.private_key.raw_key(),
        &body(),
        &fee,
        3,
        "testing".to_string(),
        7,
    )
    .unwrap();
    let signed = Tx::from_bytes(&wallet.sign(doc.clone()).unwrap()).unwrap();
    let signer = signed.auth_info.signer_infos[0].public_key.clone().unwrap();
    let key = VerifyingKey::from_sec1_bytes(&signer.single().unwrap().to_bytes()).unwrap();
    let signature = Signature::from_slice(&signed.signatures[0]).unwrap();
    let document = cosmrs::proto::cosmos::tx::v1beta1::SignDoc {
        body_bytes: doc.body_bytes.clone(),
        auth_info_bytes: doc.auth_info_bytes.clone(),
        chain_id: doc.chain_id.clone(),
        account_number: doc.account_number,
    }
    .encode_to_vec();
    assert!(key.verify(&document, &signature).is_ok());
    let mut other = document.clone();
    other[0] ^= 1;
    assert!(key.verify(&other, &signature).is_err());
}

#[test]
fn signature_depends_on_the_document() {
    let wallet = wallet();
    let fee = wallet.build_fee(200_000, 5_000);
    let first = wallet.sign_tx(&body(), &fee, 3, 7).unwrap();
    let other_sequence = wallet.sign_tx(&body(), &fee, 4, 7).unwrap();
    let other_account = wallet.sign_tx(&body(), &fee, 3, 8).unwrap();
    assert_ne!(first, other_sequence);
    assert_ne!(first, other_account);
    let a = Tx::from_bytes(&first).unwrap();
    let b = Tx::from_bytes(&other_account).unwrap();
    assert_ne!(a.signatures, b.signatures);
}

#[test]
fn ethereum_key_does_not_sign() {
    let mut wallet = wallet();
    wallet.private_key.coin_type = 60;
    let fee = wallet.build_fee(1, 1);
    assert_eq!(
        wallet.sign_tx(&body(), &fee, 0, 0),
        Err(DaemonError::SigningUnsupported { coin_type: 60 })
    );
}

#[test]
fn document_needs_a_well_formed_chain_and_fee() {
    let mut wallet = wallet();
    let fee = wallet.build_fee(1, 1);
    wallet.chain_info.chain_id = "not a chain".to_string();
    assert_eq!(wallet.sign_tx(&body(), &fee, 0, 0), Err(DaemonError::Encoding));
    wallet.chain_info.chain_id = "testing".to_string();
    wallet.chain_info.gas_denom = "u".to_string();
    let fee = wallet.build_fee(1, 1);
    assert_eq!(wallet.sign_tx(&body(), &fee, 0, 0), Err(DaemonError::Encoding));
    wallet.chain_info.gas_denom = "ujunox".to_string();
    wallet.set_fee_granter("nobody".to_string());
    let fee = wallet.build_fee(1, 1);
    assert_eq!(wallet.sign_tx(&body(), &fee, 0, 0), Err(DaemonError::Encoding));
}

#[test]
fn simulated_transaction_pays_nothing() {
    let mut wallet = wallet();
    let bytes = wallet.calculate_gas(&body(), 0, 0).unwrap();
    let tx = Tx::from_bytes(&bytes).unwrap();
    assert_eq!(tx.auth_info.fee.gas_limit, 0);
    assert_eq!(tx.auth_info.fee.amount[0].amount, 0);
    assert_eq!(tx.auth_info.fee.amount[0].denom.as_ref(), "ujunox");
    assert_eq!(tx.auth_info.fee.granter, None);
    assert_eq!(tx.auth_info.signer_infos[0].sequence, 0);
    assert_eq!(tx.body.memo, "a memo");

    wallet.set_fee_granter(granter());
    let bytes = wallet.calculate_gas(&body(), 5, 9).unwrap();
    let tx = Tx::from_bytes(&bytes).unwrap();
    assert_eq!(tx.auth_info.fee.granter.unwrap().to_string(), granter());
    assert_eq!(tx.auth_info.signer_infos[0].sequence, 5);
}

#[test]
fn built_transaction_uses_the_account_as_reported() {
    let mut wallet = wallet();
    wallet.env.min_gas = 0;
    let account = BaseAccount::new(ADDRESS.to_string(), 7, 42);
    let mut tx_builder = TxBuilder::new(body());
    let tx = Tx::from_bytes(&wallet.build_tx(&tx_builder, &account, 100_000).unwrap()).unwrap();
    assert_eq!(tx.auth_info.signer_infos[0].sequence, 42);
    assert_eq!(tx.auth_info.fee.gas_limit, 140_000);
    assert_eq!(tx.auth_info.fee.amount[0].amount, 3_501);

    tx_builder.fee_amount(9_000);
    let tx = Tx::from_bytes(&wallet.build_tx(&tx_builder, &account, 100_000).unwrap()).unwrap();
    assert_eq!(tx.auth_info.fee.gas_limit, 140_000);
    assert_eq!(tx.auth_info.fee.amount[0].amount, 9_000);

    tx_builder.gas_limit(500_000);
    tx_builder.sequence(50);
    let tx = Tx::from_bytes(&wallet.build_tx(&tx_builder, &account, 100_000).unwrap()).unwrap();
    assert_eq!(tx.auth_info.fee.gas_limit, 500_000);
    assert_eq!(tx.auth_info.fee.amount[0].amount, 9_000);
    assert_eq!(tx.auth_info.signer_infos[0].sequence, 50);
}

#[test]
fn accepted_broadcasts_consume_one_sequence_each() {
    // A ledger that takes a transaction exactly when it is signed with the
    // account's sequence, and then moves the sequence on by one.
    let wallet = wallet();
    let initial = 42u64;
    let mut ledger_sequence = initial;
    let accepted = 5u64;
    for _ in 0..accepted {
        let observed = BaseAccount::new(ADDRESS.to_string(), 7, ledger_sequence);
        let bytes = wallet.build_tx(&TxBuilder::new(body()), &observed, 100_000).unwrap();
        let tx = Tx::from_bytes(&bytes).unwrap();
        assert_eq!(tx.auth_info.signer_infos[0].sequence, ledger_sequence);
        ledger_sequence += 1;
    }
    assert_eq!(ledger_sequence, initial + accepted);
}

#[test]
fn bank_send_from_the_sender_or_its_granter() {
    let mut wallet = wallet();
    let coins = vec![coin(5, "ujunox".to_string()), coin(7, "uatom".to_string())];
    let sent = wallet.bank_send(&granter(), coins.clone()).unwrap();
    assert_eq!(sent.type_url, "/cosmos.bank.v1beta1.MsgSend");
    let decoded = MsgSend::decode(sent.value.as_slice()).unwrap();
    assert_eq!(decoded.from_address, ADDRESS);
    assert_eq!(decoded.to_address, granter());
    assert_eq!(decoded.amount.len(), 2);
    assert_eq!(decoded.amount[0].denom, "ujunox");
    assert_eq!(decoded.amount[0].amount, "5");
    assert_eq!(decoded.amount[1].denom, "uatom");
    assert_eq!(decoded.amount[1].amount, "7");

    wallet.set_authz_granter(granter());
    let sent = wallet.bank_send(ADDRESS, coins).unwrap();
    let decoded = MsgSend::decode(sent.value.as_slice()).unwrap();
    assert_eq!(decoded.from_address, granter());
    assert_eq!(decoded.to_address, ADDRESS);
}

#[test]
fn bank_send_is_refused() {
    let wallet = wallet();
    assert_eq!(
        wallet.bank_send("nobody", vec![coin(5, "ujunox".to_string())]),
        Err(DaemonError::Encoding)
    );
    assert_eq!(
        wallet.bank_send(&granter(), vec![coin(5, "u".to_string())]),
        Err(DaemonError::Encoding)
    );
}

#[test]
fn broadcast_is_prepared() {
    let wallet = wallet();
    let msgs = vec![message("/a.B", &[1, 2]), message("/c.D", &[3])];
    let (tx_builder, broadcaster) = wallet.commit_tx_any(msgs.clone(), Some("hi"), 100).unwrap();
    assert_eq!(tx_builder.body.messages, msgs);
    assert_eq!(tx_builder.body.memo, "hi");
    assert_eq!(tx_builder.body.timeout_height, 110);
    assert_eq!(tx_builder.fee_amount, None);
    assert_eq!(tx_builder.gas_limit, None);
    assert_eq!(tx_builder.sequence, None);
    assert_eq!(broadcaster.strategies.len(), 2);
    assert_eq!(broadcaster.strategies[0].action, RetryAction::Resubmit);
    assert_eq!(broadcaster.strategies[0].max_retries, None);
    assert_eq!(broadcaster.strategies[1].action, RetryAction::RaiseFee);
    assert_eq!(broadcaster.strategies[1].max_retries, Some(1));

    let (tx_builder, _) = wallet.commit_tx_any(msgs, None, 0).unwrap();
    assert_eq!(tx_builder.body.memo, "");
    assert_eq!(tx_builder.body.timeout_height, 10);
}

#[test]
fn broadcast_at_the_end_of_heights() {
    let wallet = wallet();
    assert_eq!(wallet.commit_tx_any(vec![], None, u64::MAX - 9), Err(DaemonError::Encoding));
    let (tx_builder, _) = wallet.commit_tx_any(vec![], None, u64::MAX - 10).unwrap();
    assert_eq!(tx_builder.body.timeout_height, u64::MAX);
}

#[test]
fn delegated_messages_are_wrapped() {
    let mut wallet = wallet();
    wallet.set_authz_granter(granter());
    let msgs = vec![message("/a.B", &[1, 2]), message("/c.D", &[3])];
    let (tx_builder, _) = wallet.commit_tx_any(msgs, None, 100).unwrap();
    assert_eq!(tx_builder.body.messages.len(), 1);
    assert_eq!(tx_builder.body.messages[0].type_url, "/cosmos.authz.v1beta1.MsgExec");
    let exec = MsgExec::decode(tx_builder.body.messages[0].value.as_slice()).unwrap();
    assert_eq!(exec.grantee, ADDRESS);
    assert_eq!(exec.msgs.len(), 2);
    assert_eq!(exec.msgs[0].type_url, "/a.B");
    assert_eq!(exec.msgs[0].value, vec![1, 2]);
    assert_eq!(exec.msgs[1].type_url, "/c.D");
    assert_eq!(exec.msgs[1].value, vec![3]);
}

#[test]
fn own_account_is_resolved() {
    let wallet = wallet();
    let record = cosmrs::proto::cosmos::auth::v1beta1::BaseAccount {
        address: ADDRESS.to_string(),
        pub_key: None,
        account_number: 7,
        sequence: 42,
    };
    assert_eq!(
        wallet.base_account(&record.encode_to_vec()),
        Ok(BaseAccount::new(ADDRESS.to_string(), 7, 42))
    );
    assert_eq!(wallet.base_account(&[0x0d, 1, 2, 3, 4]), Err(DaemonError::UnknownAccountType));
}

#[test]
fn sender_without_an_address() {
    let mut wallet = wallet();
    wallet.chain_info.network_info.pub_address_prefix = "Juno".to_string();
    assert_eq!(wallet.account_id(), None);
    let coins = vec![coin(5, "ujunox".to_string())];
    assert_eq!(wallet.bank_send(&granter(), coins.clone()), Err(DaemonError::InvalidAddress));
    assert_eq!(wallet.commit_messages(vec![]), Ok(vec![]));
    assert!(wallet.commit_tx_any(vec![], None, 1).is_ok());
    let fee = coin(10, "ujunox".to_string());
    let low = coin(1, "ujunox".to_string());
    assert_eq!(
        wallet.assert_wallet_balance(&fee, &low),
        BalanceStep::Fail(DaemonError::InvalidAddress)
    );
    assert_eq!(wallet.assert_wallet_balance(&fee, &fee), BalanceStep::Proceed);
    wallet.env.manual_interaction = false;
    assert_eq!(
        wallet.assert_wallet_balance(&fee, &low),
        BalanceStep::Fail(DaemonError::InvalidAddress)
    );

    wallet.set_authz_granter(granter());
    assert!(wallet.bank_send(ADDRESS, coins).is_ok());
    assert_eq!(wallet.commit_messages(vec![]), Err(DaemonError::InvalidAddress));
    assert_eq!(wallet.commit_tx_any(vec![], None, 1), Err(DaemonError::InvalidAddress));
    assert_eq!(wallet.commit_tx_any(vec![], None, u64::MAX), Err(DaemonError::InvalidAddress));
}

fn held(amount: u128) -> Coin {
    coin(amount, "ujunox".to_string())
}

#[test]
fn balance_is_checked_against_the_fee() {
    let mut wallet = wallet();
    let fee = held(3_751);
    assert_eq!(wallet.assert_wallet_balance(&fee, &held(3_751)), BalanceStep::Proceed);
    assert_eq!(wallet.assert_wallet_balance(&fee, &held(u128::MAX)), BalanceStep::Proceed);
    assert_eq!(
        wallet.assert_wallet_balance(&fee, &held(3_750)),
        BalanceStep::AskToTopUp {
            message: "Not enough funds on chain testing at address juno16g2rahf5846rxzp3fwlswy08fz8ccuwk03k57y. Needed: 3751ujunox but only have: 3750ujunox. Top up the wallet and answer 'y' to go on.".to_string()
        }
    );
    wallet.env.manual_interaction = false;
    assert_eq!(
        wallet.assert_wallet_balance(&fee, &held(0)),
        BalanceStep::GiveUp {
            message: "Not enough funds on chain testing at address juno16g2rahf5846rxzp3fwlswy08fz8ccuwk03k57y. Needed: 3751ujunox but only have: 0ujunox. Top up the wallet and answer 'y' to go on.".to_string(),
            error: DaemonError::InsufficientBalance { expected: fee.clone(), current: held(0) }
        }
    );
    assert_eq!(wallet.assert_wallet_balance(&fee, &held(3_751)), BalanceStep::Proceed);
}

#[test]
fn balance_is_checked_against_the_fee_for_gas() {
    let mut wallet = wallet();
    wallet.env.manual_interaction = false;
    // 100_000 units of gas are raised to the floor of 150_000 and cost 3751.
    assert_eq!(wallet.has_enough_balance_for_gas(100_000, &held(3_751)), BalanceStep::Proceed);
    match wallet.has_enough_balance_for_gas(100_000, &held(3_750)) {
        BalanceStep::GiveUp { message, error } => {
            assert!(message.contains("Needed: 3751ujunox but only have: 3750ujunox"));
            assert_eq!(
                error,
                DaemonError::InsufficientBalance { expected: held(3_751), current: held(3_750) }
            );
        }
        other => panic!("unexpected step {:?}", other),
    }
}
