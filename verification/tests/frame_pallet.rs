use did_offchain_trade::AccountId;
use did_offchain_trade::AppState;
use did_offchain_trade::AppStatus;
use did_offchain_trade::DIDOffchainTrade;
use did_offchain_trade::DidRegistry;
use did_offchain_trade::Error;
use did_offchain_trade::Event;
use did_offchain_trade::Op;
use did_offchain_trade::Signature;
use did_offchain_trade::State;
use did_offchain_trade::StateProof;
use did_offchain_trade::encode_app_state;
use did_offchain_trade::valid_signers;

fn account_pair(s: &str) -> schnorrkel::Keypair {
    let mut seed = [0u8; 32];
    seed[..s.len()].copy_from_slice(s.as_bytes());
    schnorrkel::MiniSecretKey::from_bytes(&seed)
        .expect("static seeds are valid")
        .expand_to_keypair(schnorrkel::ExpansionMode::Ed25519)
}

fn account_key(s: &str) -> AccountId {
    AccountId { bytes: account_pair(s).public.to_bytes().to_vec() }
}

fn sign_by(pair: &schnorrkel::Keypair, msg: &[u8]) -> Signature {
    Signature { bytes: pair.sign_simple(b"substrate", msg).to_bytes().to_vec() }
}

fn make_proof(pairs: [&schnorrkel::Keypair; 2], nonce: u32, seq_num: u32, condition_key: u32, op: Op) -> StateProof {
    let app_state = AppState { nonce, seq_num, state: State { condition_key, op } };
    let encoded = encode_app_state(&app_state);
    StateProof {
        app_state,
        sigs: vec![sign_by(pairs[0], &encoded), sign_by(pairs[1], &encoded)],
    }
}

fn has_created_event(trade: &DIDOffchainTrade, addr: &AccountId, owner: &AccountId, grantee: &AccountId, ckey: u32, dkey: u32) -> bool {
    trade.events().iter().any(|e| match e {
        Event::AccessConditionCreated { condition_address, owner: o, grantee: g, condition_key, did_key } =>
            condition_address.bytes == addr.bytes && o.bytes == owner.bytes
                && g.bytes == grantee.bytes && *condition_key == ckey && *did_key == dkey,
        _ => false,
    })
}

fn has_intend_settle_event(trade: &DIDOffchainTrade, addr: &AccountId) -> bool {
    trade.events().iter().any(|e| match e {
        Event::IntendSettle { condition_address } => condition_address.bytes == addr.bytes,
        _ => false,
    })
}

fn has_set_idle_event(trade: &DIDOffchainTrade, addr: &AccountId) -> bool {
    trade.events().iter().any(|e| match e {
        Event::SetIdle { condition_address } => condition_address.bytes == addr.bytes,
        _ => false,
    })
}

fn has_swap_event(trade: &DIDOffchainTrade, addr: &AccountId) -> bool {
    trade.events().iter().any(|e| match e {
        Event::SwapPosition { condition_address } => condition_address.bytes == addr.bytes,
        _ => false,
    })
}

fn has_new_did_event(trade: &DIDOffchainTrade, did: &AccountId, dkey: u32) -> bool {
    trade.events().iter().any(|e| match e {
        Event::NewDID { did: d, did_key } => d.bytes == did.bytes && *did_key == dkey,
        _ => false,
    })
}

#[test]
fn validate_signature() {
    let nonce: u32 = 1;
    let seq_num: u32 = 0;

    let alice_pair = account_pair("Alice");
    let alice_public = account_key("Alice");
    let bob_pair = account_pair("Bob");
    let bob_public = account_key("Bob");
    let signers_vec = vec![alice_public.clone(), bob_public.clone()];

    let app_state = AppState {
        nonce,
        seq_num,
        state: State { condition_key: 0, op: Op::RESET_AND_SWAP },
    };
    let encoded = encode_app_state(&app_state);

    let alice_sig = sign_by(&alice_pair, &encoded);
    let bob_sig = sign_by(&bob_pair, &encoded);
    let sig_vec = vec![alice_sig.clone(), bob_sig.clone()];

    assert!(valid_signers(&sig_vec, &encoded, &signers_vec).is_ok());

    let risa_public = account_key("Risa");
    let invalid_signers_vec = vec![alice_public.clone(), risa_public.clone()];
    let invalid_sig_vec = vec![alice_sig.clone(), bob_sig.clone()];

    assert_eq!(
        valid_signers(&invalid_sig_vec, &encoded, &invalid_signers_vec),
        Err(Error::InvalidSignature)
    );
}

#[test]
fn test_create_access_condition() {
    let alice_public = account_key("Alice");
    let bob_public = account_key("Bob");
    let players_vec = vec![alice_public.clone(), bob_public.clone()];

    let condition_account = account_key("Condition");
    let did_account = account_key("DID");
    let nonce = 2;

    let mut registry = DidRegistry::new();
    assert!(registry.register_identity(&alice_public, &did_account).is_ok());

    let mut trade = DIDOffchainTrade::new();
    assert!(trade
        .create_access_condition(
            &registry,
            &alice_public,
            players_vec,
            nonce,
            did_account.clone(),
            condition_account.clone()
        )
        .is_ok());

    assert!(has_created_event(&trade, &condition_account, &alice_public, &bob_public, 0, 2));

    assert_eq!(trade.condition_key(), 1);
    assert_eq!(trade.key_of_condition(&condition_account), Some(0));
    assert_eq!(
        trade.condition_address(0).map(|a| a.bytes),
        Some(condition_account.bytes.clone())
    );
    assert_eq!(trade.did_key(), 3);
    assert_eq!(trade.did_list(2).map(|a| a.bytes), Some(did_account.bytes.clone()));
    assert_eq!(trade.key_of_did(&did_account), Some(2));
    assert_eq!(trade.is_finalized(&condition_account), false);

    let risa_public = account_key("Risa");
    let invalid_players_vec =
        vec![alice_public.clone(), bob_public.clone(), risa_public.clone()];
    assert_eq!(
        trade.create_access_condition(
            &registry,
            &alice_public,
            invalid_players_vec,
            nonce,
            did_account.clone(),
            condition_account.clone()
        ),
        Err(Error::InvalidPlayerLength)
    );
}

#[test]
fn test_intend_settle() {
    let alice_pair = account_pair("Alice");
    let alice_public = account_key("Alice");
    let bob_pair = account_pair("Bob");
    let bob_public = account_key("Bob");
    let players_vec = vec![alice_public.clone(), bob_public.clone()];

    let condition_account = account_key("Condition");
    let did_account = account_key("DID");

    let mut registry = DidRegistry::new();
    assert!(registry.register_identity(&alice_public, &did_account).is_ok());

    let mut trade = DIDOffchainTrade::new();
    assert!(trade
        .create_access_condition(
            &registry,
            &alice_public,
            players_vec,
            2,
            did_account.clone(),
            condition_account.clone()
        )
        .is_ok());

    let state_proof_1 = make_proof([&alice_pair, &bob_pair], 2, 1, 0, Op::FINALIZE(2));
    assert!(trade.intend_settle(&registry, &alice_public, state_proof_1).is_ok());
    assert!(has_intend_settle_event(&trade, &condition_account));
    assert_eq!(trade.is_finalized(&condition_account), true);
    assert_eq!(trade.get_outcome(&condition_account), true);
    assert_eq!(trade.check_permissions(&did_account, &bob_public), true);

    let state_proof_2 = make_proof([&alice_pair, &bob_pair], 2, 2, 0, Op::RESET_ONLY);
    assert!(trade.intend_settle(&registry, &alice_public, state_proof_2).is_ok());
    assert!(has_set_idle_event(&trade, &condition_account));
    assert_eq!(trade.is_finalized(&condition_account), false);
    assert_eq!(trade.get_outcome(&condition_account), false);

    // A swap demands a finalized condition; after the reset it is idle.
    let state_proof_3 = make_proof([&alice_pair, &bob_pair], 2, 3, 0, Op::RESET_AND_SWAP);
    assert_eq!(
        trade.intend_settle(&registry, &alice_public, state_proof_3),
        Err(Error::NotFinalizedStatus)
    );

    // Unknown condition key.
    let state_proof_5 = make_proof([&alice_pair, &bob_pair], 2, 3, 1, Op::RESET_ONLY);
    assert_eq!(
        trade.intend_settle(&registry, &alice_public, state_proof_5),
        Err(Error::InvalidState)
    );

    // A nonce that differs from the stored one.
    let state_proof_6 = make_proof([&alice_pair, &bob_pair], 3, 3, 0, Op::RESET_ONLY);
    assert_eq!(
        trade.intend_settle(&registry, &alice_public, state_proof_6),
        Err(Error::InvalidNonce)
    );

    // A sequence number that does not exceed the stored one.
    let state_proof_7 = make_proof([&alice_pair, &bob_pair], 2, 2, 0, Op::RESET_ONLY);
    assert_eq!(
        trade.intend_settle(&registry, &alice_public, state_proof_7),
        Err(Error::InvalidSeqNum)
    );

    // An operation word that is no registered DID key.
    let state_proof_8 = make_proof([&alice_pair, &bob_pair], 2, 4, 0, Op::FINALIZE(3));
    assert_eq!(
        trade.intend_settle(&registry, &alice_public, state_proof_8),
        Err(Error::InvalidDIDState)
    );

    // A signature from a third party in place of a player's.
    let risa_pair = account_pair("Risa");
    let app_state_9 = AppState {
        nonce: 2,
        seq_num: 4,
        state: State { condition_key: 0, op: Op::RESET_AND_SWAP },
    };
    let encoded_9 = encode_app_state(&app_state_9);
    let state_proof_9 = StateProof {
        app_state: app_state_9,
        sigs: vec![sign_by(&alice_pair, &encoded_9), sign_by(&risa_pair, &encoded_9)],
    };
    assert_eq!(
        trade.intend_settle(&registry, &alice_public, state_proof_9),
        Err(Error::InvalidSignature)
    );
}

#[test]
fn test_set_new_did() {
    let alice_public = account_key("Alice");
    let did_account = account_key("DID");

    let mut registry = DidRegistry::new();
    assert!(registry.register_identity(&alice_public, &did_account).is_ok());

    let mut trade = DIDOffchainTrade::new();
    assert!(trade.set_new_did(&registry, &alice_public, did_account.clone()).is_ok());

    assert!(has_new_did_event(&trade, &did_account, 2));
    assert_eq!(trade.did_key(), 3);
    assert_eq!(trade.did_list(2).map(|a| a.bytes), Some(did_account.bytes.clone()));
    assert_eq!(trade.key_of_did(&did_account), Some(2));
}

#[test]
fn test_another_did_trade() {
    let alice_pair = account_pair("Alice");
    let alice_public = account_key("Alice");
    let bob_pair = account_pair("Bob");
    let bob_public = account_key("Bob");
    let players_vec = vec![alice_public.clone(), bob_public.clone()];

    let condition_account = account_key("Condition");
    let did1_account = account_key("DID1");

    let mut registry = DidRegistry::new();
    assert!(registry.register_identity(&alice_public, &did1_account).is_ok());

    let mut trade = DIDOffchainTrade::new();
    assert!(trade
        .create_access_condition(
            &registry,
            &alice_public,
            players_vec,
            2,
            did1_account.clone(),
            condition_account.clone()
        )
        .is_ok());

    let state_proof_1 = make_proof([&alice_pair, &bob_pair], 2, 1, 0, Op::FINALIZE(2));
    assert!(trade.intend_settle(&registry, &alice_public, state_proof_1).is_ok());

    let did2_account = account_key("DID2");
    assert!(registry.register_identity(&alice_public, &did2_account).is_ok());
    assert!(trade.set_new_did(&registry, &alice_public, did2_account.clone()).is_ok());
    assert_eq!(trade.key_of_did(&did2_account), Some(3));

    // A second grant cannot be finalized while the condition is still
    // finalized from the first one.
    let state_proof_2 = make_proof([&alice_pair, &bob_pair], 2, 2, 0, Op::FINALIZE(3));
    assert_eq!(
        trade.intend_settle(&registry, &alice_public, state_proof_2),
        Err(Error::NotIdleStatus)
    );

    let state_proof_3 = make_proof([&alice_pair, &bob_pair], 2, 2, 0, Op::RESET_ONLY);
    assert!(trade.intend_settle(&registry, &alice_public, state_proof_3).is_ok());
    assert_eq!(trade.is_finalized(&condition_account), false);

    let state_proof_4 = make_proof([&alice_pair, &bob_pair], 2, 3, 0, Op::FINALIZE(3));
    assert!(trade.intend_settle(&registry, &alice_public, state_proof_4).is_ok());
    assert_eq!(trade.is_finalized(&condition_account), true);
    assert_eq!(trade.get_outcome(&condition_account), true);
    assert_eq!(trade.check_permissions(&did2_account, &bob_public), true);
}

#[test]
fn test_another_did_trade_and_swap_owner_grantee() {
    let alice_pair = account_pair("Alice");
    let alice_public = account_key("Alice");
    let bob_pair = account_pair("Bob");
    let bob_public = account_key("Bob");
    let players_vec = vec![alice_public.clone(), bob_public.clone()];

    let condition_account = account_key("Condition");
    let did1_account = account_key("DID1");

    let mut registry = DidRegistry::new();
    assert!(registry.register_identity(&alice_public, &did1_account).is_ok());

    let mut trade = DIDOffchainTrade::new();
    assert!(trade
        .create_access_condition(
            &registry,
            &alice_public,
            players_vec,
            2,
            did1_account.clone(),
            condition_account.clone()
        )
        .is_ok());

    let state_proof_1 = make_proof([&alice_pair, &bob_pair], 2, 1, 0, Op::FINALIZE(2));
    assert!(trade.intend_settle(&registry, &alice_public, state_proof_1).is_ok());

    let did2_account = account_key("DID2");
    assert!(registry.register_identity(&bob_public, &did2_account).is_ok());
    assert!(trade.set_new_did(&registry, &bob_public, did2_account.clone()).is_ok());
    assert_eq!(trade.key_of_did(&did2_account), Some(3));

    let state_proof_2 = make_proof([&alice_pair, &bob_pair], 2, 2, 0, Op::RESET_AND_SWAP);
    assert!(trade.intend_settle(&registry, &alice_public, state_proof_2).is_ok());
    assert!(has_swap_event(&trade, &condition_account));
    assert_eq!(trade.is_finalized(&condition_account), false);
    assert_eq!(
        trade.get_owner(&condition_account).map(|a| a.bytes),
        Ok(bob_public.bytes.clone())
    );

    let state_proof_3 = make_proof([&alice_pair, &bob_pair], 2, 3, 0, Op::FINALIZE(3));
    assert!(trade.intend_settle(&registry, &alice_public, state_proof_3).is_ok());
    assert_eq!(trade.is_finalized(&condition_account), true);
    assert_eq!(trade.get_outcome(&condition_account), true);
    assert_eq!(trade.check_permissions(&did2_account, &alice_public), true);
}

#[test]
fn test_did_trade_with_two_grantee() {
    let alice_pair = account_pair("Alice");
    let alice_public = account_key("Alice");
    let bob_pair = account_pair("Bob");
    let bob_public = account_key("Bob");
    let players_vec_1 = vec![alice_public.clone(), bob_public.clone()];

    let condition_account_1 = account_key("Condition1");
    let did_account = account_key("DID");

    let mut registry = DidRegistry::new();
    assert!(registry.register_identity(&alice_public, &did_account).is_ok());

    let mut trade = DIDOffchainTrade::new();
    assert!(trade
        .create_access_condition(
            &registry,
            &alice_public,
            players_vec_1,
            2,
            did_account.clone(),
            condition_account_1.clone()
        )
        .is_ok());

    let state_proof_1 = make_proof([&alice_pair, &bob_pair], 2, 1, 0, Op::FINALIZE(2));
    assert!(trade.intend_settle(&registry, &alice_public, state_proof_1).is_ok());

    let risa_pair = account_pair("Risa");
    let risa_public = account_key("Risa");
    let players_vec_2 = vec![alice_public.clone(), risa_public.clone()];

    let condition_account_2 = account_key("Condition2");
    assert!(trade
        .create_access_condition(
            &registry,
            &alice_public,
            players_vec_2,
            3,
            did_account.clone(),
            condition_account_2.clone()
        )
        .is_ok());

    let state_proof_2 = make_proof([&alice_pair, &risa_pair], 3, 1, 1, Op::FINALIZE(2));
    assert!(trade.intend_settle(&registry, &alice_public, state_proof_2).is_ok());

    assert_eq!(trade.is_finalized(&condition_account_2), true);
    assert_eq!(trade.get_outcome(&condition_account_2), true);
    assert_eq!(trade.check_permissions(&did_account, &risa_public), true);

    let miwa_public = account_key("Miwa");
    let players_vec_3 = vec![alice_public.clone(), miwa_public.clone()];
    assert_eq!(
        trade.create_access_condition(
            &registry,
            &alice_public,
            players_vec_3,
            4,
            did_account.clone(),
            condition_account_1.clone()
        ),
        Err(Error::ExistAddress)
    );
}

#[test]
fn test_dispatch_function() {
    let alice_pair = account_pair("Alice");
    let alice_public = account_key("Alice");
    let bob_pair = account_pair("Bob");
    let bob_public = account_key("Bob");
    let players_vec = vec![alice_public.clone(), bob_public.clone()];

    let condition_account = account_key("Condition");
    let did_account = account_key("DID");
    let nonce = 2;

    let mut registry = DidRegistry::new();
    assert!(registry.register_identity(&alice_public, &did_account).is_ok());

    let mut trade = DIDOffchainTrade::new();
    assert!(trade
        .create_access_condition(
            &registry,
            &alice_public,
            players_vec.clone(),
            nonce,
            did_account.clone(),
            condition_account.clone()
        )
        .is_ok());

    let condition = trade.get_access_condition(&condition_account).unwrap();
    assert_eq!(condition.nonce, 2);
    assert_eq!(condition.players.len(), 2);
    assert_eq!(condition.players[0].bytes, alice_public.bytes);
    assert_eq!(condition.players[1].bytes, bob_public.bytes);
    assert_eq!(condition.seq_num, 0);
    assert_eq!(condition.owner.bytes, alice_public.bytes);
    assert_eq!(condition.grantee.bytes, bob_public.bytes);

    assert_eq!(
        trade.condition_address(0).map(|a| a.bytes),
        Some(condition_account.bytes.clone())
    );
    assert_eq!(trade.key_of_condition(&condition_account), Some(0));
    assert_eq!(trade.did_list(2).map(|a| a.bytes), Some(did_account.bytes.clone()));
    assert_eq!(trade.key_of_did(&did_account), Some(2));
    assert_eq!(
        trade.get_owner(&condition_account).map(|a| a.bytes),
        Ok(alice_public.bytes.clone())
    );
    assert_eq!(
        trade.get_grantee(&condition_account).map(|a| a.bytes),
        Ok(bob_public.bytes.clone())
    );
    assert_eq!(trade.get_seq_num(&condition_account), Ok(0));
    assert_eq!(trade.get_status(&condition_account), Ok(AppStatus::IDLE));

    let state_proof_1 = make_proof([&alice_pair, &bob_pair], 2, 1, 0, Op::FINALIZE(2));
    assert!(trade.intend_settle(&registry, &alice_public, state_proof_1).is_ok());

    assert_eq!(trade.get_status(&condition_account), Ok(AppStatus::FINALIZED));
}
