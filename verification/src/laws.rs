//! What holds of the registry whatever is done with it, proved from the
//! model that the operations are stated in.

use vstd::prelude::*;
use crate::model::{
    attachment_ok, transfer_stands, HookOutcome, MetadataView, Operation, RegistryView, TokenView,
};

verus! {

/// Right after its creation a token is reported with its creator as the
/// owner and with the very metadata it was given, and it has no delegate.
pub proof fn law_created_token_is_reported(
    v: RegistryView,
    caller: Seq<char>,
    attached_deposit: u128,
    metadata: MetadataView,
)
    requires
        v.create_denial(attached_deposit) is None,
    ensures
        v.created(caller, metadata).report(v.next_id) == Some((caller, metadata)),
        v.created(caller, metadata).tokens[v.next_id].approvals == Map::<Seq<char>, u64>::empty(),
{
}

/// No call takes a token away, lowers a counter, leaves an id in use that
/// was not issued or an issued id out of use, or leaves a delegate with an
/// approval id that was not issued; a creation that is carried out raises
/// the counter of ids by one, and no other call moves it.
pub proof fn law_step_keeps_ids(v: RegistryView, op: Operation)
    requires
        v.well_formed(),
        v.has_room(op),
    ensures
        v.after(op).well_formed(),
        v.after(op).next_id >= v.next_id,
        v.after(op).next_approval_id >= v.next_approval_id,
        forall|id: u64| v.tokens.contains_key(id) ==> #[trigger] v.after(op).tokens.contains_key(id),
        v.after(op).next_id == (if op is Create && v.denial(op) is None {
            v.next_id + 1
        } else {
            v.next_id as int
        }),
{
}

/// Before anything was created, no id is in use.
pub proof fn law_initial_is_well_formed()
    ensures
        RegistryView::initial().well_formed(),
        forall|id: u64| RegistryView::initial().report(id) is None,
{
}

/// In a registry where every id in use was issued, the store never
/// refuses a new token, and the id it gives is not in use.
pub proof fn law_create_finds_fresh_id(v: RegistryView)
    requires
        v.well_formed(),
    ensures
        v.store_denial() is None,
        !v.tokens.contains_key(v.next_id),
{
    if v.tokens.contains_key(v.next_id) {
        assert(v.next_id < v.next_id);
    }
}

/// The same over any number of calls: the registry stays one where every
/// id in use was issued, and the counter of ids never falls.
pub proof fn law_ids_never_fall(v: RegistryView, ops: Seq<Operation>)
    requires
        v.well_formed(),
        v.admits(ops),
    ensures
        v.after_all(ops).well_formed(),
        v.after_all(ops).next_id >= v.next_id,
        v.after_all(ops).next_approval_id >= v.next_approval_id,
    decreases ops.len(),
{
    if ops.len() > 0 {
        law_ids_never_fall(v, ops.drop_last());
        law_step_keeps_ids(v.after_all(ops.drop_last()), ops.last());
    }
}

/// From the start on, whatever calls are made, the ids in use are exactly
/// those below the next id: none is skipped and none is given up.
pub proof fn law_ids_in_use_are_those_issued(ops: Seq<Operation>, id: u64)
    requires
        RegistryView::initial().admits(ops),
    ensures
        RegistryView::initial().after_all(ops).tokens.contains_key(id) <==> id
            < RegistryView::initial().after_all(ops).next_id,
{
    law_ids_never_fall(RegistryView::initial(), ops);
}

/// Ids are issued in strictly rising order and none is issued twice: after
/// a creation gave the id `v.next_id`, whatever calls follow, on this id or
/// on others, the id that the next creation gives is a larger one, and that
/// creation is not refused for want of a free id.
pub proof fn law_ids_strictly_increase(
    v: RegistryView,
    caller: Seq<char>,
    attached_deposit: u128,
    metadata: MetadataView,
    between: Seq<Operation>,
)
    requires
        v.well_formed(),
        v.next_id < u64::MAX,
        attachment_ok(attached_deposit),
        v.created(caller, metadata).admits(between),
    ensures
        v.create_denial(attached_deposit) is None,
        v.created(caller, metadata).after_all(between).next_id > v.next_id,
        v.created(caller, metadata).after_all(between).store_denial() is None,
{
    law_create_finds_fresh_id(v);
    let w = v.created(caller, metadata);
    let op = Operation::Create { caller, attached_deposit, metadata };
    law_step_keeps_ids(v, op);
    assert(w == v.after(op));
    law_ids_never_fall(w, between);
    law_create_finds_fresh_id(w.after_all(between));
}

/// The approval id that an approval gives is above every approval id that
/// a delegate of any token holds, the approved token's among them.
pub proof fn law_approval_id_is_fresh(
    v: RegistryView,
    caller: Seq<char>,
    token_id: u64,
    account: Seq<char>,
    other_id: u64,
    delegate: Seq<char>,
)
    requires
        v.well_formed(),
        v.owner_denial(caller, token_id) is None,
        v.tokens.contains_key(other_id),
        v.tokens[other_id].approvals.contains_key(delegate),
    ensures
        v.tokens[other_id].approvals[delegate] < v.next_approval_id,
        v.approved(token_id, account).tokens[token_id].approvals[account] == v.next_approval_id,
{
    assert(v.tokens[other_id].approvals_below(v.next_approval_id));
}

/// A registry in which the ids in use are those below the next one stays
/// so when a token that exists is replaced by one whose approval ids were
/// issued.
pub proof fn law_replacement_keeps_form(v: RegistryView, id: u64, token: TokenView)
    requires
        v.well_formed(),
        v.tokens.contains_key(id),
        token.approvals_below(v.next_approval_id),
    ensures
        v.with_token(id, token).well_formed(),
{
}

/// Approval ids rise strictly: after an approval gave the id
/// `v.next_approval_id`, whatever calls follow, the next approval gives a
/// larger one.
pub proof fn law_approval_ids_strictly_increase(
    v: RegistryView,
    caller: Seq<char>,
    token_id: u64,
    account: Seq<char>,
    between: Seq<Operation>,
)
    requires
        v.well_formed(),
        v.next_approval_id < u64::MAX,
        v.owner_denial(caller, token_id) is None,
        v.approved(token_id, account).admits(between),
    ensures
        v.approved(token_id, account).tokens[token_id].approvals[account] == v.next_approval_id,
        v.approved(token_id, account).after_all(between).next_approval_id > v.next_approval_id,
{
    let op = Operation::Approve { caller, token_id, account };
    law_step_keeps_ids(v, op);
    assert(v.approved(token_id, account) == v.after(op));
    law_ids_never_fall(v.approved(token_id, account), between);
}

/// A transfer of a token that exists, asked for with the one unit
/// attached, is carried out if and only if the caller is the owner, or is a
/// delegate that names no approval id or the one it holds. A transfer that
/// is refused changes nothing.
pub proof fn law_transfer_rule(
    v: RegistryView,
    caller: Seq<char>,
    attached_deposit: u128,
    receiver: Seq<char>,
    token_id: u64,
    approval_id: Option<u64>,
)
    requires
        attachment_ok(attached_deposit),
        v.tokens.contains_key(token_id),
    ensures
        v.transfer_denial(caller, attached_deposit, token_id, approval_id) is None <==> {
            ||| caller == v.tokens[token_id].owner
            ||| (v.tokens[token_id].approvals.contains_key(caller) && (approval_id is None
                || approval_id == Some(v.tokens[token_id].approvals[caller])))
        },
        v.transfer_denial(caller, attached_deposit, token_id, approval_id) is Some ==> v.after(
            Operation::Transfer { caller, attached_deposit, receiver, token_id, approval_id },
        ) == v,
{
}

/// A transfer that is carried out leaves the token with the receiver and
/// without any delegate, and so it stays when the receiver accepts.
pub proof fn law_transfer_clears_approvals(
    v: RegistryView,
    caller: Seq<char>,
    attached_deposit: u128,
    receiver: Seq<char>,
    token_id: u64,
    approval_id: Option<u64>,
)
    requires
        v.transfer_denial(caller, attached_deposit, token_id, approval_id) is None,
    ensures
        v.transferred(token_id, receiver).tokens[token_id].owner == receiver,
        v.transferred(token_id, receiver).tokens[token_id].approvals == Map::<
            Seq<char>,
            u64,
        >::empty(),
        v.transferred(token_id, receiver).resolved(
            v.tokens[token_id].owner,
            token_id,
            HookOutcome::Accepted,
        ) == v.transferred(token_id, receiver),
{
}

/// To take back the approval of an account that holds none is refused,
/// whoever asks, and so changes nothing.
pub proof fn law_revoke_of_stranger_is_refused(
    v: RegistryView,
    caller: Seq<char>,
    token_id: u64,
    account: Seq<char>,
)
    requires
        v.tokens.contains_key(token_id),
        !v.tokens[token_id].approvals.contains_key(account),
    ensures
        v.revoke_denial(caller, token_id, account) is Some,
        v.after(Operation::Revoke { caller, token_id, account }) == v,
{
}

/// To take all approvals back from a token that has none is carried out
/// for its owner and changes nothing.
pub proof fn law_revoke_all_without_delegates(v: RegistryView, caller: Seq<char>, token_id: u64)
    requires
        v.tokens.contains_key(token_id),
        caller == v.tokens[token_id].owner,
        v.tokens[token_id].approvals == Map::<Seq<char>, u64>::empty(),
    ensures
        v.owner_denial(caller, token_id) is None,
        v.revoked_all(token_id) == v,
{
    assert(v.revoked_all(token_id).tokens =~= v.tokens);
}

/// A transfer that awaits the receiver's answer and is then not accepted
/// (rejected, or left without an answer) is undone: the registry may
/// settle it, the token is reported with the owner it had and the metadata
/// it has, it has no delegate, and the transfer is not in effect.
pub proof fn law_rejected_transfer_is_undone(
    v: RegistryView,
    caller: Seq<char>,
    attached_deposit: u128,
    receiver: Seq<char>,
    token_id: u64,
    approval_id: Option<u64>,
    registry_id: Seq<char>,
    outcome: HookOutcome,
)
    requires
        v.transfer_denial(caller, attached_deposit, token_id, approval_id) is None,
        outcome != HookOutcome::Accepted,
    ensures
        v.transferred(token_id, receiver).resolve_denial(registry_id, registry_id, token_id)
            is None,
        !transfer_stands(outcome),
        v.transferred(token_id, receiver).resolved(
            v.tokens[token_id].owner,
            token_id,
            outcome,
        ).report(token_id) == v.report(token_id),
        v.transferred(token_id, receiver).resolved(
            v.tokens[token_id].owner,
            token_id,
            outcome,
        ).tokens[token_id].approvals == Map::<Seq<char>, u64>::empty(),
{
}

/// A transfer that awaits the receiver's answer and is then accepted
/// stands: the token is reported with the receiver as its owner, and the
/// transfer is in effect.
pub proof fn law_accepted_transfer_stands(
    v: RegistryView,
    caller: Seq<char>,
    attached_deposit: u128,
    receiver: Seq<char>,
    token_id: u64,
    approval_id: Option<u64>,
    registry_id: Seq<char>,
)
    requires
        v.transfer_denial(caller, attached_deposit, token_id, approval_id) is None,
    ensures
        v.transferred(token_id, receiver).resolve_denial(registry_id, registry_id, token_id)
            is None,
        transfer_stands(HookOutcome::Accepted),
        v.transferred(token_id, receiver).resolved(
            v.tokens[token_id].owner,
            token_id,
            HookOutcome::Accepted,
        ).report(token_id) == Some((receiver, v.tokens[token_id].metadata)),
{
}

/// Only the registry itself settles a pending transfer: for any other
/// caller the settlement is refused and changes nothing.
pub proof fn law_only_registry_resolves(
    v: RegistryView,
    caller: Seq<char>,
    registry_id: Seq<char>,
    sender: Seq<char>,
    token_id: u64,
    outcome: HookOutcome,
)
    requires
        caller != registry_id,
    ensures
        v.resolve_denial(caller, registry_id, token_id) is Some,
        v.after(Operation::Resolve { caller, registry_id, sender, token_id, outcome }) == v,
{
}

} // verus!
