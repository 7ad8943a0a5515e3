//! The mathematical model of the registry: what a token and the registry
//! are, and what each operation makes of them.

use vstd::prelude::*;
use crate::error::RegistryError;

verus! {

/// What describes a token: three texts.
pub struct MetadataView {
    pub title: Seq<char>,
    pub description: Seq<char>,
    pub media: Seq<char>,
}

/// A token: its owner, its metadata, and the approval id of each delegate.
pub struct TokenView {
    pub owner: Seq<char>,
    pub metadata: MetadataView,
    pub approvals: Map<Seq<char>, u64>,
}

/// The registry: the tokens by id, the id that the next token gets, and the
/// approval id that the next approval gets.
pub struct RegistryView {
    pub tokens: Map<u64, TokenView>,
    pub next_id: u64,
    pub next_approval_id: u64,
}

/// What the receiving party made of a transfer it was told of.
#[derive(Clone, Copy, Debug, PartialEq, Eq, Structural)]
pub enum HookOutcome {
    /// It answered that it takes the token.
    Accepted,
    /// It answered that it does not.
    Rejected,
    /// It gave no answer that can be read: the call failed or timed out.
    Failed,
}

impl HookOutcome {
    /// The outcome that an answer stands for: `None` is the call that
    /// failed, timed out, or answered what cannot be read.
    pub open spec fn of(answer: Option<bool>) -> HookOutcome {
        match answer {
            Some(true) => HookOutcome::Accepted,
            Some(false) => HookOutcome::Rejected,
            None => HookOutcome::Failed,
        }
    }

    /// The outcome that `answer` stands for.
    pub fn from_answer(answer: Option<bool>) -> (out: HookOutcome)
        ensures
            out == HookOutcome::of(answer),
            transfer_stands(out) <==> answer == Some(true),
    {
        match answer {
            Some(true) => HookOutcome::Accepted,
            Some(false) => HookOutcome::Rejected,
            None => HookOutcome::Failed,
        }
    }
}

/// Whether a state-changing call carries exactly the one unit it must.
pub open spec fn attachment_ok(attached_deposit: u128) -> bool {
    attached_deposit == 1
}

/// Every approval id in `approvals` lies below `bound`.
pub open spec fn ids_below(approvals: Map<Seq<char>, u64>, bound: u64) -> bool {
    forall|a: Seq<char>| #[trigger] approvals.contains_key(a) ==> approvals[a] < bound
}

/// Whether a transfer that was settled with `outcome` is in effect.
pub open spec fn transfer_stands(outcome: HookOutcome) -> bool {
    outcome == HookOutcome::Accepted
}

/// A call on the registry, with all that decides it. `Transfer` stands for
/// the immediate transfer and for the opening of one that awaits an answer:
/// the two change the registry alike.
pub enum Operation {
    Create { caller: Seq<char>, attached_deposit: u128, metadata: MetadataView },
    Transfer {
        caller: Seq<char>,
        attached_deposit: u128,
        receiver: Seq<char>,
        token_id: u64,
        approval_id: Option<u64>,
    },
    Approve { caller: Seq<char>, token_id: u64, account: Seq<char> },
    Revoke { caller: Seq<char>, token_id: u64, account: Seq<char> },
    RevokeAll { caller: Seq<char>, token_id: u64 },
    Resolve {
        caller: Seq<char>,
        registry_id: Seq<char>,
        sender: Seq<char>,
        token_id: u64,
        outcome: HookOutcome,
    },
}

impl TokenView {
    /// A token as it is right after its creation.
    pub open spec fn fresh(owner: Seq<char>, metadata: MetadataView) -> TokenView {
        TokenView { owner, metadata, approvals: Map::empty() }
    }

    /// Why `caller` may not transfer this token, or `None` where it may:
    /// the owner always may; a delegate may unless it claims an approval id
    /// other than the one it holds.
    pub open spec fn transfer_denial(self, caller: Seq<char>, approval_id: Option<u64>) -> Option<
        RegistryError,
    > {
        if caller == self.owner {
            None
        } else if !self.approvals.contains_key(caller) {
            Some(RegistryError::NotOwner)
        } else if approval_id is Some && approval_id->0 != self.approvals[caller] {
            Some(RegistryError::NotApproved)
        } else {
            None
        }
    }

    /// Every approval id that a delegate holds lies below `bound`.
    pub open spec fn approvals_below(self, bound: u64) -> bool {
        ids_below(self.approvals, bound)
    }

    /// The token in the hands of `owner`: a change of owner leaves no
    /// delegate.
    pub open spec fn handed_to(self, owner: Seq<char>) -> TokenView {
        TokenView { owner, approvals: Map::empty(), ..self }
    }

    /// The token with `account` as a delegate that holds `approval_id`.
    pub open spec fn with_approval(self, account: Seq<char>, approval_id: u64) -> TokenView {
        TokenView { approvals: self.approvals.insert(account, approval_id), ..self }
    }

    /// The token without the delegate `account`.
    pub open spec fn without_approval(self, account: Seq<char>) -> TokenView {
        TokenView { approvals: self.approvals.remove(account), ..self }
    }

    /// The token without any delegate.
    pub open spec fn without_approvals(self) -> TokenView {
        TokenView { approvals: Map::empty(), ..self }
    }
}

impl RegistryView {
    /// The registry before anything was created.
    pub open spec fn initial() -> RegistryView {
        RegistryView { tokens: Map::empty(), next_id: 0, next_approval_id: 0 }
    }

    /// Every id in use was issued: it lies below the next one.
    pub open spec fn ids_issued(self) -> bool {
        forall|id: u64| #[trigger] self.tokens.contains_key(id) ==> id < self.next_id
    }

    /// Every id that was issued is in use: no token is ever taken away.
    pub open spec fn ids_in_use(self) -> bool {
        forall|id: u64| id < self.next_id ==> #[trigger] self.tokens.contains_key(id)
    }

    /// Every approval id that a delegate holds was issued: it lies below
    /// the next one.
    pub open spec fn approvals_issued(self) -> bool {
        forall|id: u64| #[trigger]
            self.tokens.contains_key(id) ==> self.tokens[id].approvals_below(self.next_approval_id)
    }

    /// The ids in use are those below the next one, and the approval ids
    /// held lie below the next approval id.
    pub open spec fn well_formed(self) -> bool {
        self.ids_issued() && self.ids_in_use() && self.approvals_issued()
    }

    /// The registry with the token at `id` replaced by `token`.
    pub open spec fn with_token(self, id: u64, token: TokenView) -> RegistryView {
        RegistryView { tokens: self.tokens.insert(id, token), ..self }
    }

    /// Why the store cannot take a new token, or `None` where it can.
    pub open spec fn store_denial(self) -> Option<RegistryError> {
        if self.tokens.contains_key(self.next_id) {
            Some(RegistryError::AlreadyExists)
        } else {
            None
        }
    }

    /// Why a call that creates a token is refused, or `None` where it is not.
    pub open spec fn create_denial(self, attached_deposit: u128) -> Option<RegistryError> {
        if !attachment_ok(attached_deposit) {
            Some(RegistryError::InsufficientAttachment)
        } else {
            self.store_denial()
        }
    }

    /// The registry after a new token of `owner` took the next id.
    pub open spec fn created(self, owner: Seq<char>, metadata: MetadataView) -> RegistryView
        recommends
            self.next_id < u64::MAX,
    {
        RegistryView {
            tokens: self.tokens.insert(self.next_id, TokenView::fresh(owner, metadata)),
            next_id: (self.next_id + 1) as u64,
            ..self
        }
    }

    /// Why a transfer that `caller` asks for is refused, or `None` where it
    /// is not.
    pub open spec fn transfer_denial(
        self,
        caller: Seq<char>,
        attached_deposit: u128,
        token_id: u64,
        approval_id: Option<u64>,
    ) -> Option<RegistryError> {
        if !attachment_ok(attached_deposit) {
            Some(RegistryError::InsufficientAttachment)
        } else if !self.tokens.contains_key(token_id) {
            Some(RegistryError::NotFound)
        } else {
            self.tokens[token_id].transfer_denial(caller, approval_id)
        }
    }

    /// The registry after the token `token_id` went to `receiver`.
    pub open spec fn transferred(self, token_id: u64, receiver: Seq<char>) -> RegistryView {
        self.with_token(token_id, self.tokens[token_id].handed_to(receiver))
    }

    /// Why `caller` may not act as the owner of `token_id`, or `None` where
    /// it may.
    pub open spec fn owner_denial(self, caller: Seq<char>, token_id: u64) -> Option<
        RegistryError,
    > {
        if !self.tokens.contains_key(token_id) {
            Some(RegistryError::NotFound)
        } else if caller != self.tokens[token_id].owner {
            Some(RegistryError::NotOwner)
        } else {
            None
        }
    }

    /// The registry after `account` became a delegate of `token_id`, with
    /// the next approval id.
    pub open spec fn approved(self, token_id: u64, account: Seq<char>) -> RegistryView
        recommends
            self.next_approval_id < u64::MAX,
    {
        RegistryView {
            tokens: self.tokens.insert(
                token_id,
                self.tokens[token_id].with_approval(account, self.next_approval_id),
            ),
            next_approval_id: (self.next_approval_id + 1) as u64,
            ..self
        }
    }

    /// Why `caller` may not take the approval of `account` back, or `None`
    /// where it may.
    pub open spec fn revoke_denial(self, caller: Seq<char>, token_id: u64, account: Seq<char>)
        -> Option<RegistryError> {
        if self.owner_denial(caller, token_id) is Some {
            self.owner_denial(caller, token_id)
        } else if !self.tokens[token_id].approvals.contains_key(account) {
            Some(RegistryError::NotApproved)
        } else {
            None
        }
    }

    /// The registry after `account` stopped being a delegate of `token_id`.
    pub open spec fn revoked(self, token_id: u64, account: Seq<char>) -> RegistryView {
        self.with_token(token_id, self.tokens[token_id].without_approval(account))
    }

    /// The registry after `token_id` lost all its delegates.
    pub open spec fn revoked_all(self, token_id: u64) -> RegistryView {
        self.with_token(token_id, self.tokens[token_id].without_approvals())
    }

    /// Why a pending transfer of `token_id` cannot be settled by `caller`,
    /// or `None` where it can: only the registry itself, whose account is
    /// `registry_id`, may settle.
    pub open spec fn resolve_denial(self, caller: Seq<char>, registry_id: Seq<char>, token_id: u64)
        -> Option<RegistryError> {
        if caller != registry_id {
            Some(RegistryError::NotOwner)
        } else if !self.tokens.contains_key(token_id) {
            Some(RegistryError::NotFound)
        } else {
            None
        }
    }

    /// The registry after a pending transfer of `token_id` away from
    /// `sender` was settled: an accepted one stands, any other is undone.
    pub open spec fn resolved(self, sender: Seq<char>, token_id: u64, outcome: HookOutcome)
        -> RegistryView {
        if outcome == HookOutcome::Accepted {
            self
        } else {
            self.with_token(token_id, self.tokens[token_id].handed_to(sender))
        }
    }

    /// Whether the counter that `op` draws from, if any, can still advance.
    pub open spec fn has_room(self, op: Operation) -> bool {
        match op {
            Operation::Create { .. } => self.next_id < u64::MAX,
            Operation::Approve { .. } => self.next_approval_id < u64::MAX,
            _ => true,
        }
    }

    /// Why `op` is refused, or `None` where it is carried out.
    pub open spec fn denial(self, op: Operation) -> Option<RegistryError> {
        match op {
            Operation::Create { attached_deposit, .. } => self.create_denial(attached_deposit),
            Operation::Transfer { caller, attached_deposit, token_id, approval_id, .. } =>
                self.transfer_denial(caller, attached_deposit, token_id, approval_id),
            Operation::Approve { caller, token_id, .. } => self.owner_denial(caller, token_id),
            Operation::Revoke { caller, token_id, account } => self.revoke_denial(
                caller,
                token_id,
                account,
            ),
            Operation::RevokeAll { caller, token_id } => self.owner_denial(caller, token_id),
            Operation::Resolve { caller, registry_id, token_id, .. } => self.resolve_denial(
                caller,
                registry_id,
                token_id,
            ),
        }
    }

    /// The registry after `op`: unchanged where `op` is refused.
    pub open spec fn after(self, op: Operation) -> RegistryView {
        if self.denial(op) is Some {
            self
        } else {
            match op {
                Operation::Create { caller, metadata, .. } => self.created(caller, metadata),
                Operation::Transfer { receiver, token_id, .. } => self.transferred(
                    token_id,
                    receiver,
                ),
                Operation::Approve { token_id, account, .. } => self.approved(token_id, account),
                Operation::Revoke { token_id, account, .. } => self.revoked(token_id, account),
                Operation::RevokeAll { token_id, .. } => self.revoked_all(token_id),
                Operation::Resolve { sender, token_id, outcome, .. } => self.resolved(
                    sender,
                    token_id,
                    outcome,
                ),
            }
        }
    }

    /// The registry after the calls `ops`, in their order.
    pub open spec fn after_all(self, ops: Seq<Operation>) -> RegistryView
        decreases ops.len(),
    {
        if ops.len() == 0 {
            self
        } else {
            self.after_all(ops.drop_last()).after(ops.last())
        }
    }

    /// Whether each of the calls `ops`, made in their order, finds room in
    /// the counter it draws from.
    pub open spec fn admits(self, ops: Seq<Operation>) -> bool
        decreases ops.len(),
    {
        ops.len() == 0 || (self.admits(ops.drop_last()) && self.after_all(
            ops.drop_last(),
        ).has_room(ops.last()))
    }

    /// What a reader is told of `token_id`: its owner and its metadata.
    pub open spec fn report(self, token_id: u64) -> Option<(Seq<char>, MetadataView)> {
        if self.tokens.contains_key(token_id) {
            Some((self.tokens[token_id].owner, self.tokens[token_id].metadata))
        } else {
            None
        }
    }
}

} // verus!
