//! The registry: the store of tokens and the operations on it.

use std::collections::HashMap;
use vstd::prelude::*;
use crate::error::RegistryError;
use crate::laws::{law_replacement_keeps_form, law_step_keeps_ids};
use crate::model::{
    attachment_ok, transfer_stands, HookOutcome, Operation, RegistryView, TokenView,
};
use crate::token::{JsonToken, Metadata, NFT};

verus! {

broadcast use vstd::std_specs::hash::group_hash_axioms;

/// The record of a transfer that took place, for whoever keeps the log.
#[derive(Debug, PartialEq, Eq)]
pub struct TransferRecord {
    pub token_id: u64,
    pub previous_owner: String,
    pub new_owner: String,
    pub memo: Option<String>,
}

/// What the receiving party is to be told of a transfer that awaits its
/// answer: `sender_id` is the caller that asked for the transfer.
/// `previous_owner_id` is the owner that the token came from, and the one
/// it goes back to if the receiver does not accept.
#[derive(Debug, PartialEq, Eq)]
pub struct ReceiverCall {
    pub sender_id: String,
    pub previous_owner_id: String,
    pub receiver_id: String,
    pub token_id: u64,
    pub msg: String,
    pub memo: Option<String>,
}

/// The registry: the tokens by id and the two counters from which ids and
/// approval ids are issued.
pub struct NFTCreationContract {
    nfts: HashMap<u64, NFT>,
    next_nft_id: u64,
    next_approval_id: u64,
}

/// The registry that the stored tokens and the two counters stand for.
spec fn assembled(nfts: Map<u64, NFT>, next_id: u64, next_approval_id: u64) -> RegistryView {
    RegistryView {
        tokens: Map::new(|id: u64| nfts.contains_key(id), |id: u64| nfts[id]@),
        next_id,
        next_approval_id,
    }
}

impl NFTCreationContract {
    #[verifier::type_invariant]
    spec fn inv(self) -> bool {
        assembled(self.nfts@, self.next_nft_id, self.next_approval_id).well_formed()
    }

    /// The registry as a map of tokens and two counters.
    pub closed spec fn view(&self) -> RegistryView {
        assembled(self.nfts@, self.next_nft_id, self.next_approval_id)
    }

    /// Empties the registry and hands out what it held, to be put together
    /// again after a change.
    fn dissolve(&mut self) -> (out: (HashMap<u64, NFT>, u64, u64))
        ensures
            assembled(out.0@, out.1, out.2) == old(self)@,
            old(self)@.well_formed(),
            final(self)@ == RegistryView::initial(),
    {
        let mut held = NFTCreationContract {
            nfts: HashMap::new(),
            next_nft_id: 0,
            next_approval_id: 0,
        };
        assert(held@.tokens =~= Map::<u64, TokenView>::empty());
        proof {
            use_type_invariant(&*self);
        }
        std::mem::swap(self, &mut held);
        (held.nfts, held.next_nft_id, held.next_approval_id)
    }

    /// The registry that holds `nfts` and issues `next_id` and
    /// `next_approval_id` next.
    fn assemble(nfts: HashMap<u64, NFT>, next_id: u64, next_approval_id: u64) -> (out: Self)
        requires
            assembled(nfts@, next_id, next_approval_id).well_formed(),
        ensures
            out@ == assembled(nfts@, next_id, next_approval_id),
    {
        NFTCreationContract { nfts, next_nft_id: next_id, next_approval_id }
    }

    /// Sets the registry up, once: where its state exists already, this is
    /// refused.
    pub fn new(state_exists: bool) -> (out: Result<Self, RegistryError>)
        ensures
            match out {
                Ok(c) => !state_exists && c@ == RegistryView::initial(),
                Err(e) => state_exists && e == RegistryError::AlreadyInitialized,
            },
    {
        if state_exists {
            return Err(RegistryError::AlreadyInitialized);
        }
        let nfts: HashMap<u64, NFT> = HashMap::new();
        assert(assembled(nfts@, 0, 0).tokens =~= Map::<u64, TokenView>::empty());
        Ok(Self::assemble(nfts, 0, 0))
    }

    /// The registry that holds `tokens` under the ids from 0 on, in their
    /// order, and that issues `next_approval_id` next: a registry as it was
    /// when these were read out of it. There is none where a delegate holds
    /// an approval id that is not below `next_approval_id`.
    pub fn from_tokens(tokens: Vec<NFT>, next_approval_id: u64) -> (out: Option<Self>)
        ensures
            out is Some <==> forall|i: int|
                0 <= i < tokens@.len() ==> (#[trigger] tokens@[i])@.approvals_below(
                    next_approval_id,
                ),
            match out {
                Some(c) => {
                    &&& c@.well_formed()
                    &&& c@.next_id == tokens@.len()
                    &&& c@.next_approval_id == next_approval_id
                    &&& forall|id: u64|
                        id < tokens@.len() ==> #[trigger] c@.tokens[id] == tokens@[id as int]@
                },
                None => true,
            },
    {
        let total: usize = tokens.len();
        let mut rest = tokens;
        let mut nfts: HashMap<u64, NFT> = HashMap::new();
        while rest.len() > 0
            invariant
                rest@.len() <= total,
                total == tokens@.len(),
                rest@ == tokens@.subrange(0, rest@.len() as int),
                forall|id: u64| #[trigger] nfts@.contains_key(id) <==> rest@.len() <= id < total,
                forall|id: u64|
                    rest@.len() <= id < total ==> #[trigger] nfts@[id] == tokens@[id as int],
                forall|i: int|
                    rest@.len() <= i < total ==> (#[trigger] tokens@[i])@.approvals_below(
                        next_approval_id,
                    ),
            decreases rest@.len(),
        {
            let id: usize = rest.len() - 1;
            let token = rest.pop().unwrap();
            if !token.approvals_below(next_approval_id) {
                assert(token == tokens@[id as int]);
                return None;
            }
            nfts.insert(id as u64, token);
        }
        proof {
            let v = assembled(nfts@, total as u64, next_approval_id);
            assert forall|id: u64| #[trigger] v.tokens.contains_key(id) implies v.tokens[id]
                .approvals_below(next_approval_id) by {
                assert(tokens@[id as int]@.approvals_below(next_approval_id));
            }
        }
        Some(Self::assemble(nfts, total as u64, next_approval_id))
    }

    /// The id that the next token gets.
    pub fn next_id(&self) -> (out: u64)
        ensures
            out == self@.next_id,
            self@.well_formed(),
    {
        proof {
            use_type_invariant(self);
        }
        self.next_nft_id
    }

    /// The approval id that the next approval gets.
    pub fn next_approval_id(&self) -> (out: u64)
        ensures
            out == self@.next_approval_id,
    {
        self.next_approval_id
    }

    /// Stores a new token of `owner` under the next id and returns that id.
    /// Refused only where that id is in use, which it never is: every id in
    /// use lies below the next one.
    pub fn create(&mut self, owner: String, metadata: Metadata) -> (out: Result<u64, RegistryError>)
        requires
            old(self)@.next_id < u64::MAX,
        ensures
            match out {
                Ok(id) => {
                    &&& old(self)@.store_denial() is None
                    &&& id == old(self)@.next_id
                    &&& final(self)@ == old(self)@.created(owner@, metadata@)
                },
                Err(e) => old(self)@.store_denial() == Some(e) && final(self)@ == old(self)@,
            },
            old(self)@.well_formed(),
            out is Ok,
    {
        proof {
            use_type_invariant(&*self);
        }
        let id: u64 = self.next_nft_id;
        if self.nfts.contains_key(&id) {
            return Err(RegistryError::AlreadyExists);
        }
        let (mut nfts, next_id, next_approval_id) = self.dissolve();
        nfts.insert(id, NFT::new(owner, metadata));
        proof {
            let op = Operation::Create { caller: owner@, attached_deposit: 1, metadata: metadata@ };
            law_step_keeps_ids(old(self)@, op);
            assert(assembled(nfts@, (id + 1) as u64, next_approval_id).tokens =~= old(self)@.created(
                owner@,
                metadata@,
            ).tokens);
        }
        *self = Self::assemble(nfts, id + 1, next_approval_id);
        Ok(id)
    }

    /// The token stored under `id`, if there is one.
    pub fn get(&self, id: u64) -> (out: Option<&NFT>)
        ensures
            match out {
                Some(t) => self@.tokens.contains_key(id) && t@ == self@.tokens[id],
                None => !self@.tokens.contains_key(id),
            },
    {
        self.nfts.get(&id)
    }

    /// Replaces the token stored under `id`, by one whose approval ids
    /// were issued.
    pub fn put(&mut self, id: u64, token: NFT)
        requires
            old(self)@.tokens.contains_key(id),
            token@.approvals_below(old(self)@.next_approval_id),
        ensures
            final(self)@ == old(self)@.with_token(id, token@),
    {
        self.replace(id, token);
    }

    /// Takes the token stored under `id` out and puts `token` in its place.
    fn replace(&mut self, id: u64, token: NFT) -> (out: NFT)
        requires
            old(self)@.tokens.contains_key(id),
            token@.approvals_below(old(self)@.next_approval_id),
        ensures
            out@ == old(self)@.tokens[id],
            final(self)@ == old(self)@.with_token(id, token@),
            old(self)@.well_formed(),
    {
        let (mut nfts, next_id, next_approval_id) = self.dissolve();
        assert(old(self)@.tokens.contains_key(id));
        let out = nfts.insert(id, token).unwrap();
        proof {
            law_replacement_keeps_form(old(self)@, id, token@);
            assert(assembled(nfts@, next_id, next_approval_id).tokens =~= old(self)@.with_token(
                id,
                token@,
            ).tokens);
        }
        *self = Self::assemble(nfts, next_id, next_approval_id);
        out
    }

    /// Takes the token stored under `id` out, to be changed and put back:
    /// a token without delegates holds its place meanwhile.
    fn take(&mut self, id: u64) -> (out: NFT)
        requires
            old(self)@.tokens.contains_key(id),
        ensures
            out@ == old(self)@.tokens[id],
            out@.approvals_below(old(self)@.next_approval_id),
            final(self)@.tokens.contains_key(id),
            final(self)@.with_token(id, out@) == old(self)@,
            final(self)@.next_id == old(self)@.next_id,
            final(self)@.next_approval_id == old(self)@.next_approval_id,
    {
        let blank = NFT::new(
            String::new(),
            Metadata { title: String::new(), description: String::new(), media: String::new() },
        );
        let out = self.replace(id, blank);
        assert(self@.with_token(id, out@).tokens =~= old(self)@.tokens);
        out
    }

    /// Puts back a token that `take` took out.
    fn restore(&mut self, id: u64, token: NFT)
        requires
            old(self)@.tokens.contains_key(id),
            token@.approvals_below(old(self)@.next_approval_id),
        ensures
            final(self)@ == old(self)@.with_token(id, token@),
    {
        let _ = self.replace(id, token);
    }

    /// Decides whether `caller` may act as the owner of `token_id`.
    fn owner_check(&self, caller: &String, token_id: u64) -> (out: Result<(), RegistryError>)
        ensures
            match out {
                Ok(_) => self@.owner_denial(caller@, token_id) is None,
                Err(e) => self@.owner_denial(caller@, token_id) == Some(e),
            },
    {
        match self.nfts.get(&token_id) {
            None => Err(RegistryError::NotFound),
            Some(t) => if t.owner_id().eq(caller) {
                Ok(())
            } else {
                Err(RegistryError::NotOwner)
            },
        }
    }

    /// Validates a transfer and, where it is permitted, carries it out.
    /// Returns the owner that the token had.
    fn transfer_checked(
        &mut self,
        caller: &String,
        attached_deposit: u128,
        receiver_id: String,
        token_id: u64,
        approval_id: Option<u64>,
    ) -> (out: Result<String, RegistryError>)
        ensures
            match out {
                Ok(previous) => {
                    &&& old(self)@.transfer_denial(caller@, attached_deposit, token_id, approval_id)
                        is None
                    &&& previous@ == old(self)@.tokens[token_id].owner
                    &&& final(self)@ == old(self)@.transferred(token_id, receiver_id@)
                },
                Err(e) => {
                    &&& old(self)@.transfer_denial(caller@, attached_deposit, token_id, approval_id)
                        == Some(e)
                    &&& final(self)@ == old(self)@
                },
            },
    {
        if attached_deposit != 1 {
            return Err(RegistryError::InsufficientAttachment);
        }
        match self.nfts.get(&token_id) {
            None => {
                return Err(RegistryError::NotFound);
            },
            Some(t) => match t.authorize(caller, approval_id) {
                Err(e) => {
                    return Err(e);
                },
                Ok(_) => {},
            },
        }
        let mut token = self.take(token_id);
        let previous = token.hand_over(receiver_id);
        self.restore(token_id, token);
        assert(self@.tokens =~= old(self)@.transferred(token_id, receiver_id@).tokens);
        Ok(previous)
    }

    /// Creates a token that `caller` owns and returns its id. The call must
    /// carry exactly one unit.
    pub fn create_nft(
        &mut self,
        caller: String,
        attached_deposit: u128,
        title: String,
        description: String,
        media: String,
    ) -> (out: Result<u64, RegistryError>)
        requires
            attachment_ok(attached_deposit) ==> old(self)@.next_id < u64::MAX,
        ensures
            match out {
                Ok(id) => {
                    &&& old(self)@.create_denial(attached_deposit) is None
                    &&& id == old(self)@.next_id
                    &&& final(self)@ == old(self)@.created(
                        caller@,
                        (Metadata { title, description, media })@,
                    )
                },
                Err(e) => {
                    &&& old(self)@.create_denial(attached_deposit) == Some(e)
                    &&& final(self)@ == old(self)@
                },
            },
            old(self)@.well_formed(),
            out is Ok <==> attachment_ok(attached_deposit),
    {
        if attached_deposit != 1 {
            proof {
                use_type_invariant(&*self);
            }
            return Err(RegistryError::InsufficientAttachment);
        }
        self.create(caller, Metadata { title, description, media })
    }

    /// Gives `token_id` to `receiver_id` at once, on behalf of `caller`:
    /// its owner, or a delegate, which may name the approval id it holds.
    /// Returns the record of the transfer. The call must carry exactly one
    /// unit.
    pub fn nft_transfer(
        &mut self,
        caller: &String,
        attached_deposit: u128,
        receiver_id: String,
        token_id: u64,
        approval_id: Option<u64>,
        memo: Option<String>,
    ) -> (out: Result<TransferRecord, RegistryError>)
        ensures
            match out {
                Ok(r) => {
                    &&& old(self)@.transfer_denial(caller@, attached_deposit, token_id, approval_id)
                        is None
                    &&& final(self)@ == old(self)@.transferred(token_id, receiver_id@)
                    &&& r.token_id == token_id
                    &&& r.previous_owner@ == old(self)@.tokens[token_id].owner
                    &&& r.new_owner@ == receiver_id@
                    &&& r.memo == memo
                },
                Err(e) => {
                    &&& old(self)@.transfer_denial(caller@, attached_deposit, token_id, approval_id)
                        == Some(e)
                    &&& final(self)@ == old(self)@
                },
            },
    {
        let new_owner = receiver_id.clone();
        match self.transfer_checked(caller, attached_deposit, receiver_id, token_id, approval_id) {
            Err(e) => Err(e),
            Ok(previous_owner) => Ok(TransferRecord { token_id, previous_owner, new_owner, memo }),
        }
    }

    /// What a reader is told of `token_id`, if it exists.
    pub fn nft_token(&self, token_id: u64) -> (out: Option<JsonToken>)
        ensures
            match out {
                Some(t) => {
                    &&& t.token_id == token_id
                    &&& self@.report(token_id) == Some((t.owner_id@, t.metadata@))
                },
                None => self@.report(token_id) is None,
            },
    {
        match self.nfts.get(&token_id) {
            None => None,
            Some(t) => Some(
                JsonToken {
                    token_id,
                    owner_id: t.owner_id().clone(),
                    metadata: t.metadata().clone(),
                },
            ),
        }
    }

    /// Makes `account_id` a delegate of `token_id`, for its owner `caller`,
    /// and returns the approval id issued: the next one, above every one
    /// issued before and so above every one that a delegate of the token
    /// holds.
    pub fn nft_approve(
        &mut self,
        caller: &String,
        token_id: u64,
        account_id: String,
        _msg: Option<String>,
    ) -> (out: Result<u64, RegistryError>)
        requires
            old(self)@.next_approval_id < u64::MAX,
        ensures
            match out {
                Ok(k) => {
                    &&& old(self)@.owner_denial(caller@, token_id) is None
                    &&& k == old(self)@.next_approval_id
                    &&& old(self)@.tokens[token_id].approvals_below(k)
                    &&& final(self)@ == old(self)@.approved(token_id, account_id@)
                },
                Err(e) => {
                    &&& old(self)@.owner_denial(caller@, token_id) == Some(e)
                    &&& final(self)@ == old(self)@
                },
            },
    {
        match self.owner_check(caller, token_id) {
            Err(e) => {
                return Err(e);
            },
            Ok(_) => {},
        }
        proof {
            use_type_invariant(&*self);
        }
        let k: u64 = self.next_approval_id;
        let mut token = self.take(token_id);
        token.grant(account_id, k);
        proof {
            use_type_invariant(&*self);
        }
        self.next_approval_id = k + 1;
        self.restore(token_id, token);
        assert(self@.tokens =~= old(self)@.approved(token_id, account_id@).tokens);
        Ok(k)
    }

    /// Takes the approval of `account_id` on `token_id` back, for its owner
    /// `caller`. Refused where `account_id` holds none.
    pub fn nft_revoke(&mut self, caller: &String, token_id: u64, account_id: &String) -> (out:
        Result<(), RegistryError>)
        ensures
            match out {
                Ok(_) => {
                    &&& old(self)@.revoke_denial(caller@, token_id, account_id@) is None
                    &&& final(self)@ == old(self)@.revoked(token_id, account_id@)
                },
                Err(e) => {
                    &&& old(self)@.revoke_denial(caller@, token_id, account_id@) == Some(e)
                    &&& final(self)@ == old(self)@
                },
            },
    {
        match self.owner_check(caller, token_id) {
            Err(e) => {
                return Err(e);
            },
            Ok(_) => {},
        }
        let mut token = self.take(token_id);
        let held = token.revoke(account_id);
        self.restore(token_id, token);
        if held {
            assert(self@.tokens =~= old(self)@.revoked(token_id, account_id@).tokens);
            Ok(())
        } else {
            proof {
                let t = old(self)@.tokens[token_id];
                assert(t.approvals.remove(account_id@) =~= t.approvals);
                assert(self@.tokens =~= old(self)@.tokens);
            }
            Err(RegistryError::NotApproved)
        }
    }

    /// Takes every approval on `token_id` back, for its owner `caller`.
    pub fn nft_revoke_all(&mut self, caller: &String, token_id: u64) -> (out: Result<
        (),
        RegistryError,
    >)
        ensures
            match out {
                Ok(_) => {
                    &&& old(self)@.owner_denial(caller@, token_id) is None
                    &&& final(self)@ == old(self)@.revoked_all(token_id)
                },
                Err(e) => {
                    &&& old(self)@.owner_denial(caller@, token_id) == Some(e)
                    &&& final(self)@ == old(self)@
                },
            },
    {
        match self.owner_check(caller, token_id) {
            Err(e) => {
                return Err(e);
            },
            Ok(_) => {},
        }
        let mut token = self.take(token_id);
        token.revoke_all();
        self.restore(token_id, token);
        assert(self@.tokens =~= old(self)@.revoked_all(token_id).tokens);
        Ok(())
    }

    /// Opens a transfer that the receiver is asked about: the token goes to
    /// `receiver_id` now, as in `nft_transfer`, and what is returned is to
    /// be told to the receiver, with `caller` as the sender. Its answer is
    /// then given to `resolve_transfer` together with the previous owner,
    /// which lets the transfer stand or undoes it.
    pub fn nft_transfer_call(
        &mut self,
        caller: &String,
        attached_deposit: u128,
        receiver_id: String,
        token_id: u64,
        approval_id: Option<u64>,
        memo: Option<String>,
        msg: String,
    ) -> (out: Result<ReceiverCall, RegistryError>)
        ensures
            match out {
                Ok(c) => {
                    &&& old(self)@.transfer_denial(caller@, attached_deposit, token_id, approval_id)
                        is None
                    &&& final(self)@ == old(self)@.transferred(token_id, receiver_id@)
                    &&& c.sender_id@ == caller@
                    &&& c.previous_owner_id@ == old(self)@.tokens[token_id].owner
                    &&& c.receiver_id@ == receiver_id@
                    &&& c.token_id == token_id
                    &&& c.msg == msg
                    &&& c.memo == memo
                },
                Err(e) => {
                    &&& old(self)@.transfer_denial(caller@, attached_deposit, token_id, approval_id)
                        == Some(e)
                    &&& final(self)@ == old(self)@
                },
            },
    {
        let receiver = receiver_id.clone();
        match self.transfer_checked(caller, attached_deposit, receiver_id, token_id, approval_id) {
            Err(e) => Err(e),
            Ok(previous_owner_id) => Ok(
                ReceiverCall {
                    sender_id: caller.clone(),
                    previous_owner_id,
                    receiver_id: receiver,
                    token_id,
                    msg,
                    memo,
                },
            ),
        }
    }

    /// Settles a transfer that `nft_transfer_call` opened, once the
    /// receiver's answer is known. Only the registry itself may do so:
    /// `caller` must be `registry_id`, its own account. An accepted transfer
    /// stands; on any other outcome the token goes back to `sender_id`,
    /// without delegates. Returns whether the transfer is in effect.
    /// `_receiver_id` names the pending transfer with the other two and
    /// decides nothing.
    pub fn resolve_transfer(
        &mut self,
        caller: &String,
        registry_id: &String,
        sender_id: String,
        _receiver_id: &String,
        token_id: u64,
        outcome: HookOutcome,
    ) -> (out: Result<bool, RegistryError>)
        ensures
            match out {
                Ok(stands) => {
                    &&& old(self)@.resolve_denial(caller@, registry_id@, token_id) is None
                    &&& stands == transfer_stands(outcome)
                    &&& final(self)@ == old(self)@.resolved(sender_id@, token_id, outcome)
                },
                Err(e) => {
                    &&& old(self)@.resolve_denial(caller@, registry_id@, token_id) == Some(e)
                    &&& final(self)@ == old(self)@
                },
            },
    {
        if !caller.eq(registry_id) {
            return Err(RegistryError::NotOwner);
        }
        if !self.nfts.contains_key(&token_id) {
            return Err(RegistryError::NotFound);
        }
        match outcome {
            HookOutcome::Accepted => Ok(true),
            _ => {
                let mut token = self.take(token_id);
                let _ = token.hand_over(sender_id);
                self.restore(token_id, token);
                assert(self@.tokens =~= old(self)@.resolved(sender_id@, token_id, outcome).tokens);
                Ok(false)
            },
        }
    }
}

} // verus!
