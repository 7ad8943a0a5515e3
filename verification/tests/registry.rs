use nft_registry::error::RegistryError;
use nft_registry::model::HookOutcome;
use nft_registry::registry::{NFTCreationContract, ReceiverCall, TransferRecord};
use nft_registry::token::{JsonToken, Metadata};

fn acct(s: &str) -> String {
    s.to_string()
}

fn fresh() -> NFTCreationContract {
    NFTCreationContract::new(false).unwrap()
}

fn mint(c: &mut NFTCreationContract, owner: &str) -> u64 {
    c.create_nft(acct(owner), 1, acct("t"), acct("d"), acct("m")).unwrap()
}

fn owner_of(c: &NFTCreationContract, id: u64) -> String {
    c.nft_token(id).unwrap().owner_id
}

#[test]
fn new_is_refused_where_state_exists() {
    assert!(matches!(NFTCreationContract::new(true), Err(RegistryError::AlreadyInitialized)));
    let c = fresh();
    assert_eq!(c.next_id(), 0);
    assert_eq!(c.next_approval_id(), 0);
    assert_eq!(c.nft_token(0), None);
}

#[test]
fn created_token_is_reported_with_creator_and_metadata() {
    let mut c = fresh();
    let id = c.create_nft(acct("alice"), 1, acct("title"), acct("descr"), acct("ipfs://x"));
    assert_eq!(id, Ok(0));
    assert_eq!(
        c.nft_token(0),
        Some(JsonToken {
            token_id: 0,
            owner_id: acct("alice"),
            metadata: Metadata {
                title: acct("title"),
                description: acct("descr"),
                media: acct("ipfs://x"),
            },
        })
    );
    assert!(!c.get(0).unwrap().has_approvals());
    assert_eq!(c.nft_token(1), None);
    assert!(c.get(1).is_none());
}

#[test]
fn create_needs_exactly_one_unit() {
    let mut c = fresh();
    assert_eq!(
        c.create_nft(acct("alice"), 0, acct("t"), acct("d"), acct("m")),
        Err(RegistryError::InsufficientAttachment)
    );
    assert_eq!(
        c.create_nft(acct("alice"), 2, acct("t"), acct("d"), acct("m")),
        Err(RegistryError::InsufficientAttachment)
    );
    assert_eq!(c.next_id(), 0);
    assert_eq!(c.nft_token(0), None);
    assert_eq!(c.create_nft(acct("alice"), 1, acct("t"), acct("d"), acct("m")), Ok(0));
}

#[test]
fn ids_rise_by_one_across_other_calls() {
    let mut c = fresh();
    assert_eq!(mint(&mut c, "alice"), 0);
    assert_eq!(mint(&mut c, "bob"), 1);
    c.nft_approve(&acct("alice"), 0, acct("carol"), None).unwrap();
    c.nft_transfer(&acct("carol"), 1, acct("dave"), 0, None, None).unwrap();
    assert_eq!(c.nft_revoke_all(&acct("bob"), 1), Ok(()));
    assert_eq!(c.nft_transfer(&acct("zed"), 1, acct("zed"), 1, None, None).is_err(), true);
    assert_eq!(mint(&mut c, "alice"), 2);
    assert_eq!(c.next_id(), 3);
    assert_eq!(owner_of(&c, 0), "dave");
    assert_eq!(owner_of(&c, 1), "bob");
    assert_eq!(owner_of(&c, 2), "alice");
}

#[test]
fn store_create_get_put() {
    let mut c = fresh();
    let m = Metadata { title: acct("t"), description: acct("d"), media: acct("m") };
    assert_eq!(c.create(acct("alice"), m.clone()), Ok(0));
    assert_eq!(c.get(0).unwrap().owner_id(), "alice");
    for k in 0..4 {
        assert_eq!(c.nft_approve(&acct("alice"), 0, acct("dave"), None), Ok(k));
    }
    let mut t = nft_registry::token::NFT::new(acct("bob"), m.clone());
    t.grant(acct("carol"), 3);
    assert!(t.approvals_below(c.next_approval_id()));
    c.put(0, t);
    assert_eq!(c.get(0).unwrap().owner_id(), "bob");
    assert_eq!(c.get(0).unwrap().approval_id(&acct("carol")), Some(3));
    assert_eq!(c.get(0).unwrap().approval_id(&acct("dave")), None);
    assert_eq!(c.next_id(), 1);
    assert_eq!(c.next_approval_id(), 4);
}

#[test]
fn delegate_with_its_approval_id_transfers() {
    let mut c = fresh();
    let id = c.create_nft(acct("A"), 1, acct("t"), acct("d"), acct("m")).unwrap();
    assert_eq!(id, 0);
    let k = c.nft_approve(&acct("B"), 0, acct("B"), None);
    assert_eq!(k, Err(RegistryError::NotOwner));
    let k = c.nft_approve(&acct("A"), 0, acct("B"), None).unwrap();
    assert_eq!(c.get(0).unwrap().approval_id(&acct("B")), Some(k));
    let r = c.nft_transfer(&acct("B"), 1, acct("C"), 0, Some(k), None);
    assert_eq!(
        r,
        Ok(TransferRecord {
            token_id: 0,
            previous_owner: acct("A"),
            new_owner: acct("C"),
            memo: None,
        })
    );
    assert_eq!(owner_of(&c, 0), "C");
    assert!(!c.get(0).unwrap().has_approvals());
    assert_eq!(c.get(0).unwrap().approval_id(&acct("B")), None);
}

#[test]
fn stranger_cannot_transfer() {
    let mut c = fresh();
    assert_eq!(mint(&mut c, "A"), 0);
    let r = c.nft_transfer(&acct("C"), 1, acct("B"), 0, None, None);
    assert_eq!(r, Err(RegistryError::NotOwner));
    assert_eq!(owner_of(&c, 0), "A");
    let r = c.nft_transfer(&acct("C"), 1, acct("B"), 0, Some(0), Some(acct("please")));
    assert_eq!(r, Err(RegistryError::NotOwner));
    assert_eq!(owner_of(&c, 0), "A");
}

#[test]
fn transfer_errors_in_their_order() {
    let mut c = fresh();
    assert_eq!(mint(&mut c, "A"), 0);
    let k = c.nft_approve(&acct("A"), 0, acct("B"), None).unwrap();
    // the attachment is looked at first, then the token, then the caller
    assert_eq!(
        c.nft_transfer(&acct("A"), 0, acct("C"), 7, None, None),
        Err(RegistryError::InsufficientAttachment)
    );
    assert_eq!(
        c.nft_transfer(&acct("A"), 1, acct("C"), 7, None, None),
        Err(RegistryError::NotFound)
    );
    assert_eq!(
        c.nft_transfer(&acct("B"), 1, acct("C"), 0, Some(k + 1), None),
        Err(RegistryError::NotApproved)
    );
    assert_eq!(
        c.nft_transfer(&acct("Z"), 1, acct("C"), 0, Some(k), None),
        Err(RegistryError::NotOwner)
    );
    assert_eq!(owner_of(&c, 0), "A");
    assert_eq!(c.get(0).unwrap().approval_id(&acct("B")), Some(k));
}

#[test]
fn owner_transfers_with_memo_and_any_claim() {
    let mut c = fresh();
    assert_eq!(mint(&mut c, "A"), 0);
    let r = c.nft_transfer(&acct("A"), 1, acct("B"), 0, Some(12345), Some(acct("gift")));
    assert_eq!(
        r,
        Ok(TransferRecord {
            token_id: 0,
            previous_owner: acct("A"),
            new_owner: acct("B"),
            memo: Some(acct("gift")),
        })
    );
    assert_eq!(owner_of(&c, 0), "B");
    // the former owner has no say any more
    assert_eq!(
        c.nft_transfer(&acct("A"), 1, acct("A"), 0, None, None),
        Err(RegistryError::NotOwner)
    );
}

#[test]
fn delegate_without_claim_transfers() {
    let mut c = fresh();
    assert_eq!(mint(&mut c, "A"), 0);
    c.nft_approve(&acct("A"), 0, acct("B"), None).unwrap();
    assert!(c.nft_transfer(&acct("B"), 1, acct("B"), 0, None, None).is_ok());
    assert_eq!(owner_of(&c, 0), "B");
    assert!(!c.get(0).unwrap().has_approvals());
}

#[test]
fn approval_ids_rise_strictly() {
    let mut c = fresh();
    assert_eq!(mint(&mut c, "A"), 0);
    assert_eq!(mint(&mut c, "A"), 1);
    let k0 = c.nft_approve(&acct("A"), 0, acct("B"), None).unwrap();
    let k1 = c.nft_approve(&acct("A"), 1, acct("B"), Some(acct("note"))).unwrap();
    let k2 = c.nft_approve(&acct("A"), 0, acct("B"), None).unwrap();
    assert_eq!((k0, k1, k2), (0, 1, 2));
    assert_eq!(c.next_approval_id(), 3);
    // the approval given again replaces the one before: the old id is stale
    assert_eq!(c.get(0).unwrap().approval_id(&acct("B")), Some(k2));
    assert_eq!(
        c.nft_transfer(&acct("B"), 1, acct("C"), 0, Some(k0), None),
        Err(RegistryError::NotApproved)
    );
    assert_eq!(c.get(1).unwrap().approval_id(&acct("B")), Some(k1));
}

#[test]
fn approve_errors() {
    let mut c = fresh();
    assert_eq!(mint(&mut c, "A"), 0);
    assert_eq!(c.nft_approve(&acct("A"), 5, acct("B"), None), Err(RegistryError::NotFound));
    assert_eq!(c.nft_approve(&acct("B"), 0, acct("B"), None), Err(RegistryError::NotOwner));
    assert_eq!(c.next_approval_id(), 0);
    assert!(!c.get(0).unwrap().has_approvals());
}

#[test]
fn revoke_of_stranger_fails_and_changes_nothing() {
    let mut c = fresh();
    assert_eq!(mint(&mut c, "A"), 0);
    let k = c.nft_approve(&acct("A"), 0, acct("B"), None).unwrap();
    assert_eq!(c.nft_revoke(&acct("A"), 0, &acct("C")), Err(RegistryError::NotApproved));
    assert_eq!(c.get(0).unwrap().approval_id(&acct("B")), Some(k));
    assert_eq!(owner_of(&c, 0), "A");
    assert_eq!(c.nft_revoke(&acct("B"), 0, &acct("B")), Err(RegistryError::NotOwner));
    assert_eq!(c.nft_revoke(&acct("A"), 9, &acct("B")), Err(RegistryError::NotFound));
    assert_eq!(c.get(0).unwrap().approval_id(&acct("B")), Some(k));
}

#[test]
fn revoke_takes_the_delegate_out() {
    let mut c = fresh();
    assert_eq!(mint(&mut c, "A"), 0);
    c.nft_approve(&acct("A"), 0, acct("B"), None).unwrap();
    let kc = c.nft_approve(&acct("A"), 0, acct("C"), None).unwrap();
    assert_eq!(c.nft_revoke(&acct("A"), 0, &acct("B")), Ok(()));
    assert_eq!(c.get(0).unwrap().approval_id(&acct("B")), None);
    assert_eq!(c.get(0).unwrap().approval_id(&acct("C")), Some(kc));
    assert_eq!(
        c.nft_transfer(&acct("B"), 1, acct("B"), 0, None, None),
        Err(RegistryError::NotOwner)
    );
    assert_eq!(c.nft_revoke(&acct("A"), 0, &acct("B")), Err(RegistryError::NotApproved));
}

#[test]
fn revoke_all_without_delegates_is_a_no_op() {
    let mut c = fresh();
    assert_eq!(mint(&mut c, "A"), 0);
    assert_eq!(c.nft_revoke_all(&acct("A"), 0), Ok(()));
    assert_eq!(c.nft_revoke_all(&acct("A"), 0), Ok(()));
    assert_eq!(owner_of(&c, 0), "A");
    assert!(!c.get(0).unwrap().has_approvals());
    assert_eq!(c.nft_revoke_all(&acct("B"), 0), Err(RegistryError::NotOwner));
    assert_eq!(c.nft_revoke_all(&acct("A"), 3), Err(RegistryError::NotFound));
}

#[test]
fn revoke_all_drops_every_delegate() {
    let mut c = fresh();
    assert_eq!(mint(&mut c, "A"), 0);
    c.nft_approve(&acct("A"), 0, acct("B"), None).unwrap();
    c.nft_approve(&acct("A"), 0, acct("C"), None).unwrap();
    assert!(c.get(0).unwrap().has_approvals());
    assert_eq!(c.nft_revoke_all(&acct("A"), 0), Ok(()));
    assert!(!c.get(0).unwrap().has_approvals());
    assert_eq!(c.get(0).unwrap().approval_id(&acct("B")), None);
    assert_eq!(c.get(0).unwrap().approval_id(&acct("C")), None);
}

#[test]
fn transfer_call_moves_the_token_at_once() {
    let mut c = fresh();
    assert_eq!(mint(&mut c, "A"), 0);
    c.nft_approve(&acct("A"), 0, acct("D"), None).unwrap();
    let call = c.nft_transfer_call(&acct("A"), 1, acct("B"), 0, None, Some(acct("memo")), acct("hi"));
    assert_eq!(
        call,
        Ok(ReceiverCall {
            sender_id: acct("A"),
            previous_owner_id: acct("A"),
            receiver_id: acct("B"),
            token_id: 0,
            msg: acct("hi"),
            memo: Some(acct("memo")),
        })
    );
    // while the answer is awaited the receiver is seen as the owner
    assert_eq!(owner_of(&c, 0), "B");
    assert!(!c.get(0).unwrap().has_approvals());
}

#[test]
fn transfer_call_refused_changes_nothing() {
    let mut c = fresh();
    assert_eq!(mint(&mut c, "A"), 0);
    assert_eq!(
        c.nft_transfer_call(&acct("C"), 1, acct("B"), 0, None, None, acct("hi")),
        Err(RegistryError::NotOwner)
    );
    assert_eq!(
        c.nft_transfer_call(&acct("A"), 3, acct("B"), 0, None, None, acct("hi")),
        Err(RegistryError::InsufficientAttachment)
    );
    assert_eq!(
        c.nft_transfer_call(&acct("A"), 1, acct("B"), 4, None, None, acct("hi")),
        Err(RegistryError::NotFound)
    );
    assert_eq!(owner_of(&c, 0), "A");
}

#[test]
fn rejected_transfer_call_is_undone() {
    let mut c = fresh();
    assert_eq!(mint(&mut c, "A"), 0);
    c.nft_approve(&acct("A"), 0, acct("D"), None).unwrap();
    let call = c.nft_transfer_call(&acct("A"), 1, acct("B"), 0, None, None, acct("hi")).unwrap();
    let stands = c.resolve_transfer(
        &acct("registry"),
        &acct("registry"),
        call.previous_owner_id,
        &call.receiver_id,
        call.token_id,
        HookOutcome::Rejected,
    );
    assert_eq!(stands, Ok(false));
    assert_eq!(owner_of(&c, 0), "A");
    assert!(!c.get(0).unwrap().has_approvals());
    assert_eq!(
        c.nft_token(0).unwrap().metadata,
        Metadata { title: acct("t"), description: acct("d"), media: acct("m") }
    );
}

#[test]
fn failed_hook_counts_as_rejection() {
    let mut c = fresh();
    assert_eq!(mint(&mut c, "A"), 0);
    let call = c.nft_transfer_call(&acct("A"), 1, acct("B"), 0, None, None, acct("hi")).unwrap();
    let stands = c.resolve_transfer(
        &acct("registry"),
        &acct("registry"),
        call.previous_owner_id,
        &call.receiver_id,
        call.token_id,
        HookOutcome::Failed,
    );
    assert_eq!(stands, Ok(false));
    assert_eq!(owner_of(&c, 0), "A");
}

#[test]
fn delegate_opened_transfer_goes_back_to_the_owner() {
    let mut c = fresh();
    assert_eq!(mint(&mut c, "A"), 0);
    let k = c.nft_approve(&acct("A"), 0, acct("D"), None).unwrap();
    let call =
        c.nft_transfer_call(&acct("D"), 1, acct("B"), 0, Some(k), None, acct("hi")).unwrap();
    // the receiver is told who asked; the token goes back to who owned it
    assert_eq!(call.sender_id, "D");
    assert_eq!(call.previous_owner_id, "A");
    assert_eq!(call.receiver_id, "B");
    assert_eq!(call.msg, "hi");
    assert_eq!(owner_of(&c, 0), "B");
    let stands = c.resolve_transfer(
        &acct("registry"),
        &acct("registry"),
        call.previous_owner_id,
        &call.receiver_id,
        call.token_id,
        HookOutcome::Rejected,
    );
    assert_eq!(stands, Ok(false));
    assert_eq!(owner_of(&c, 0), "A");
    assert!(!c.get(0).unwrap().has_approvals());
}

#[test]
fn accepted_transfer_call_stands() {
    let mut c = fresh();
    assert_eq!(mint(&mut c, "A"), 0);
    let call = c.nft_transfer_call(&acct("A"), 1, acct("B"), 0, None, None, acct("hi")).unwrap();
    let stands = c.resolve_transfer(
        &acct("registry"),
        &acct("registry"),
        call.previous_owner_id,
        &call.receiver_id,
        call.token_id,
        HookOutcome::Accepted,
    );
    assert_eq!(stands, Ok(true));
    assert_eq!(owner_of(&c, 0), "B");
    assert!(!c.get(0).unwrap().has_approvals());
}

#[test]
fn only_the_registry_resolves() {
    let mut c = fresh();
    assert_eq!(mint(&mut c, "A"), 0);
    let call = c.nft_transfer_call(&acct("A"), 1, acct("B"), 0, None, None, acct("hi")).unwrap();
    let forged = c.resolve_transfer(
        &acct("A"),
        &acct("registry"),
        acct("A"),
        &call.receiver_id,
        0,
        HookOutcome::Rejected,
    );
    assert_eq!(forged, Err(RegistryError::NotOwner));
    assert_eq!(owner_of(&c, 0), "B");
    let unknown = c.resolve_transfer(
        &acct("registry"),
        &acct("registry"),
        acct("A"),
        &call.receiver_id,
        8,
        HookOutcome::Rejected,
    );
    assert_eq!(unknown, Err(RegistryError::NotFound));
    assert_eq!(owner_of(&c, 0), "B");
}

#[test]
fn store_issues_ids_in_order() {
    let mut c = fresh();
    let m = Metadata { title: acct("t"), description: acct("d"), media: acct("m") };
    assert_eq!(c.create(acct("A"), m.clone()), Ok(0));
    assert_eq!(c.create(acct("A"), m.clone()), Ok(1));
    assert_eq!(c.create(acct("B"), m), Ok(2));
    assert_eq!(c.next_id(), 3);
}

#[test]
fn registry_is_rebuilt_from_its_tokens() {
    let m = Metadata { title: acct("t"), description: acct("d"), media: acct("m") };
    let mut t0 = nft_registry::token::NFT::new(acct("A"), m.clone());
    t0.grant(acct("B"), 4);
    t0.grant(acct("C"), 6);
    let t1 = nft_registry::token::NFT::new(acct("D"), m.clone());
    let mut c = NFTCreationContract::from_tokens(vec![t0, t1], 7).unwrap();
    assert_eq!(c.next_id(), 2);
    assert_eq!(c.next_approval_id(), 7);
    assert_eq!(owner_of(&c, 0), "A");
    assert_eq!(owner_of(&c, 1), "D");
    assert!(c.get(2).is_none());
    let mut d = c.get(0).unwrap().delegates();
    d.sort();
    assert_eq!(d, vec![(acct("B"), 4), (acct("C"), 6)]);
    assert_eq!(c.get(1).unwrap().delegates(), vec![]);
    assert_eq!(c.nft_approve(&acct("D"), 1, acct("E"), None), Ok(7));
    assert_eq!(mint(&mut c, "F"), 2);
    let e = NFTCreationContract::from_tokens(vec![], 0).unwrap();
    assert_eq!(e.next_id(), 0);
    assert_eq!(e.nft_token(0), None);
}

#[test]
fn registry_is_not_rebuilt_around_an_approval_id_not_issued() {
    let m = Metadata { title: acct("t"), description: acct("d"), media: acct("m") };
    let mut t0 = nft_registry::token::NFT::new(acct("A"), m.clone());
    t0.grant(acct("B"), 100);
    assert!(NFTCreationContract::from_tokens(vec![t0], 0).is_none());
    let t1 = nft_registry::token::NFT::new(acct("A"), m.clone());
    let mut t2 = nft_registry::token::NFT::new(acct("A"), m.clone());
    t2.grant(acct("B"), 7);
    assert!(NFTCreationContract::from_tokens(vec![t1, t2], 7).is_none());
    let mut t3 = nft_registry::token::NFT::new(acct("A"), m);
    t3.grant(acct("B"), 7);
    let mut c = NFTCreationContract::from_tokens(vec![t3], 8).unwrap();
    // the id issued next is above the one the delegate holds
    assert_eq!(c.nft_approve(&acct("A"), 0, acct("C"), None), Ok(8));
}

#[test]
fn every_id_below_the_next_is_in_use() {
    let mut c = fresh();
    for expected in 0..5 {
        assert_eq!(mint(&mut c, "A"), expected);
    }
    c.nft_transfer(&acct("A"), 1, acct("B"), 2, None, None).unwrap();
    c.nft_approve(&acct("A"), 3, acct("C"), None).unwrap();
    for id in 0..c.next_id() {
        assert!(c.get(id).is_some());
    }
    assert!(c.get(c.next_id()).is_none());
}

#[test]
fn create_without_the_unit_is_refused_for_the_attachment() {
    let mut c = fresh();
    assert_eq!(
        c.create_nft(acct("A"), 0, acct("t"), acct("d"), acct("m")),
        Err(RegistryError::InsufficientAttachment)
    );
    assert_eq!(c.next_id(), 0);
}

#[test]
fn answer_becomes_outcome() {
    assert_eq!(HookOutcome::from_answer(Some(true)), HookOutcome::Accepted);
    assert_eq!(HookOutcome::from_answer(Some(false)), HookOutcome::Rejected);
    assert_eq!(HookOutcome::from_answer(None), HookOutcome::Failed);
}

#[test]
fn each_refusal_has_its_words() {
    assert_eq!(RegistryError::NotFound.message(), "No NFT with this ID");
    assert_eq!(RegistryError::NotOwner.message(), "Caller must be the owner of the NFT");
    assert_eq!(RegistryError::NotApproved.message(), "Account was not approved");
    assert_eq!(RegistryError::AlreadyExists.message(), "NFT already exists");
    assert_eq!(RegistryError::AlreadyInitialized.message(), "Already initialized");
    assert_eq!(
        RegistryError::InsufficientAttachment.message(),
        "Requires attached deposit of exactly 1 yoctoNEAR"
    );
}
