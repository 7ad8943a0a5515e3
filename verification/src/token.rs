//! A token and what describes it.

use vstd::prelude::*;
use crate::approvals::Approvals;
use crate::error::RegistryError;
use crate::model::{MetadataView, TokenView};

verus! {

/// What describes a token. It is set at creation and never changes.
#[derive(Debug, PartialEq, Eq)]
pub struct Metadata {
    pub title: String,
    pub description: String,
    /// Where the media lies.
    pub media: String,
}

impl Metadata {
    /// The three texts.
    pub open spec fn view(&self) -> MetadataView {
        MetadataView {
            title: self.title@,
            description: self.description@,
            media: self.media@,
        }
    }
}

impl Clone for Metadata {
    fn clone(&self) -> (out: Self)
        ensures
            out@ == self@,
    {
        Metadata {
            title: self.title.clone(),
            description: self.description.clone(),
            media: self.media.clone(),
        }
    }
}

/// A token: one owner, its metadata, and the delegates that may transfer
/// it in the owner's place.
pub struct NFT {
    owner_id: String,
    metadata: Metadata,
    approved_account_ids: Approvals,
}

impl NFT {
    /// The token as owner, metadata and approvals.
    pub closed spec fn view(&self) -> TokenView {
        TokenView {
            owner: self.owner_id@,
            metadata: self.metadata@,
            approvals: self.approved_account_ids@,
        }
    }

    /// A token of `owner_id` without delegates.
    pub fn new(owner_id: String, metadata: Metadata) -> (out: Self)
        ensures
            out@ == TokenView::fresh(owner_id@, metadata@),
    {
        NFT { owner_id, metadata, approved_account_ids: Approvals::new() }
    }

    /// The owner.
    pub fn owner_id(&self) -> (out: &String)
        ensures
            out@ == self@.owner,
    {
        &self.owner_id
    }

    /// The metadata.
    pub fn metadata(&self) -> (out: &Metadata)
        ensures
            out@ == self@.metadata,
    {
        &self.metadata
    }

    /// The approval id that `account` holds on this token, if any.
    pub fn approval_id(&self, account: &String) -> (out: Option<u64>)
        ensures
            out == (if self@.approvals.contains_key(account@) {
                Some(self@.approvals[account@])
            } else {
                None
            }),
    {
        self.approved_account_ids.get(account)
    }

    /// Every delegate with the approval id it holds, each once.
    pub fn delegates(&self) -> (out: Vec<(String, u64)>)
        ensures
            forall|i: int|
                0 <= i < out@.len() ==> self@.approvals.contains_key(#[trigger] out@[i].0@)
                    && self@.approvals[out@[i].0@] == out@[i].1,
            forall|a: Seq<char>|
                self@.approvals.contains_key(a) ==> exists|i: int|
                    0 <= i < out@.len() && #[trigger] out@[i].0@ == a,
            forall|i: int, j: int| 0 <= i < j < out@.len() ==> out@[i].0@ != out@[j].0@,
    {
        self.approved_account_ids.delegates()
    }

    /// Whether every approval id that a delegate holds lies below `bound`.
    pub fn approvals_below(&self, bound: u64) -> (out: bool)
        ensures
            out == self@.approvals_below(bound),
    {
        self.approved_account_ids.all_below(bound)
    }

    /// Whether the token has a delegate.
    pub fn has_approvals(&self) -> (out: bool)
        ensures
            out == (self@.approvals != Map::<Seq<char>, u64>::empty()),
    {
        !self.approved_account_ids.is_empty()
    }

    /// Decides whether `caller` may transfer this token, claiming
    /// `approval_id` if it gives one.
    pub fn authorize(&self, caller: &String, approval_id: Option<u64>) -> (out: Result<
        (),
        RegistryError,
    >)
        ensures
            match out {
                Ok(_) => self@.transfer_denial(caller@, approval_id) is None,
                Err(e) => self@.transfer_denial(caller@, approval_id) == Some(e),
            },
    {
        if self.owner_id.eq(caller) {
            return Ok(());
        }
        match self.approved_account_ids.get(caller) {
            None => Err(RegistryError::NotOwner),
            Some(held) => match approval_id {
                Some(claimed) => if claimed != held {
                    Err(RegistryError::NotApproved)
                } else {
                    Ok(())
                },
                None => Ok(()),
            },
        }
    }

    /// Gives the token to `owner_id` and drops every delegate. Returns the
    /// owner it had.
    pub fn hand_over(&mut self, owner_id: String) -> (out: String)
        ensures
            final(self)@ == old(self)@.handed_to(owner_id@),
            out@ == old(self)@.owner,
    {
        let mut previous = owner_id;
        std::mem::swap(&mut previous, &mut self.owner_id);
        self.approved_account_ids.clear();
        previous
    }

    /// Makes `account` a delegate that holds `approval_id`.
    pub fn grant(&mut self, account: String, approval_id: u64)
        ensures
            final(self)@ == old(self)@.with_approval(account@, approval_id),
    {
        self.approved_account_ids.insert(account, approval_id);
    }

    /// Takes the approval of `account` back. Returns whether it held one.
    pub fn revoke(&mut self, account: &String) -> (out: bool)
        ensures
            final(self)@ == old(self)@.without_approval(account@),
            out == old(self)@.approvals.contains_key(account@),
    {
        self.approved_account_ids.remove(account).is_some()
    }

    /// Takes every approval back.
    pub fn revoke_all(&mut self)
        ensures
            final(self)@ == old(self)@.without_approvals(),
    {
        self.approved_account_ids.clear();
    }
}

/// What a reader is told of a token: its id, its owner and its metadata.
#[derive(Debug, PartialEq, Eq)]
pub struct JsonToken {
    pub token_id: u64,
    pub owner_id: String,
    pub metadata: Metadata,
}

} // verus!
