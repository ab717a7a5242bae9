//! The membership law: however joins and leaves interleave, at any quiescent
//! point the registry holds exactly the sessions in state `Joined`.

use vstd::prelude::*;

verus! {

/// One membership event, with the exact effect `Engine::join` (insert into
/// the registry map) and `Engine::close_session` on a joined session
/// (remove from the registry map) state in their contracts.
pub enum MembershipOp {
    /// A session enters `Joined` and registers itself.
    Join { session_id: u64, identity: Seq<u8> },
    /// A joined session closes and removes its own entry.
    Leave { session_id: u64 },
}

/// The registry map after a sequence of membership events, starting empty.
pub open spec fn registry_after(ops: Seq<MembershipOp>) -> Map<u64, Seq<u8>>
    decreases ops.len(),
{
    if ops.len() == 0 {
        Map::empty()
    } else {
        let m = registry_after(ops.drop_last());
        match ops.last() {
            MembershipOp::Join { session_id, identity } => m.insert(session_id, identity),
            MembershipOp::Leave { session_id } => m.remove(session_id),
        }
    }
}

/// The set of session ids in state `Joined` after the same events: `Join`
/// moves a session into `Joined`, `Leave` moves it out for good.
pub open spec fn joined_after(ops: Seq<MembershipOp>) -> Set<u64>
    decreases ops.len(),
{
    if ops.len() == 0 {
        Set::empty()
    } else {
        let s = joined_after(ops.drop_last());
        match ops.last() {
            MembershipOp::Join { session_id, identity } => s.insert(session_id),
            MembershipOp::Leave { session_id } => s.remove(session_id),
        }
    }
}

/// For every sequence of interleaved join and leave operations, the
/// registry's membership at a quiescent point — the domain of its map —
/// equals exactly the set of sessions then in state `Joined`.
pub proof fn lemma_membership_tracks_joined(ops: Seq<MembershipOp>)
    ensures
        registry_after(ops).dom() =~= joined_after(ops),
    decreases ops.len(),
{
    if ops.len() > 0 {
        lemma_membership_tracks_joined(ops.drop_last());
        match ops.last() {
            MembershipOp::Join { session_id, identity } => {
                assert(registry_after(ops).dom() =~= joined_after(ops));
            },
            MembershipOp::Leave { session_id } => {
                assert(registry_after(ops).dom() =~= joined_after(ops));
            },
        }
    }
}

} // verus!
