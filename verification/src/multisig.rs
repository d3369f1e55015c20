//! The proposal lifecycle: committee initialization, creation, voting,
//! cancellation, expiry, and execution of proposals, with the statistics
//! that track them.
//!
//! Each operation takes the logical clock as a `now` argument. Votes and
//! execution are atomic: a call that reports an error leaves the state
//! unchanged, except that a call finding its proposal past expiry tears the
//! proposal down (counting it as expired) before reporting the expiry.

use vstd::prelude::*;

use crate::access_control::AccessControlModule;
use crate::access_control::spec_validate_assignment;
use crate::access_control::vec_contains;
use crate::errors::AccessControlError;
use crate::types::AccessControlConfig;
use crate::types::DEFAULT_MAX_PENDING_PROPOSALS;
use crate::types::DEFAULT_PROPOSAL_EXPIRY_DURATION;
use crate::types::DEFAULT_TIME_LOCK_DURATION;
use crate::types::MultiSigConfig;
use crate::types::PendingProposal;
use crate::types::ProposalAction;
use crate::types::ProposalStats;
use crate::types::UserRole;
use crate::types::distinct_seq;

verus! {

broadcast use vstd::std_specs::hash::group_hash_axioms;

/// The sequence with every occurrence of `x` dropped, order otherwise kept.
pub open spec fn remove_id(s: Seq<u64>, x: u64) -> Seq<u64>
    decreases s.len(),
{
    if s.len() == 0 {
        Seq::<u64>::empty()
    } else if s.last() == x {
        remove_id(s.drop_last(), x)
    } else {
        remove_id(s.drop_last(), x).push(s.last())
    }
}

/// Dropping an id commutes with extending the sequence at the back.
pub proof fn lemma_remove_id_push(t: Seq<u64>, e: u64, x: u64)
    ensures
        remove_id(t.push(e), x) == (if e == x {
            remove_id(t, x)
        } else {
            remove_id(t, x).push(e)
        }),
{
    assert(t.push(e).drop_last() =~= t);
    assert(t.push(e).last() == e);
}

/// What dropping one id from a duplicate-free sequence does: membership of
/// every other id is kept, distinctness and length behave as expected.
pub proof fn lemma_remove_id(s: Seq<u64>, x: u64)
    ensures
        forall|y: u64| #[trigger] remove_id(s, x).contains(y) <==> (s.contains(y) && y != x),
        distinct_seq(s) ==> distinct_seq(remove_id(s, x)),
        distinct_seq(s) && s.contains(x) ==> remove_id(s, x).len() == s.len() - 1,
        !s.contains(x) ==> remove_id(s, x) == s,
        forall|i: int|
            0 <= i < remove_id(s, x).len() ==> s.contains(#[trigger] remove_id(s, x)[i]),
    decreases s.len(),
{
    if s.len() == 0 {
        assert(remove_id(s, x) =~= s);
        assert forall|y: u64| #[trigger]
            remove_id(s, x).contains(y) <==> (s.contains(y) && y != x) by {
            if remove_id(s, x).contains(y) {
                let k = choose|k: int| 0 <= k < remove_id(s, x).len() && remove_id(s, x)[k] == y;
            }
            if s.contains(y) {
                let k = choose|k: int| 0 <= k < s.len() && s[k] == y;
            }
        }
    } else {
        let t = s.drop_last();
        let e = s.last();
        let f = remove_id(t, x);
        lemma_remove_id(t, x);
        assert(s =~= t.push(e));
        assert forall|y: u64| #[trigger]
            remove_id(s, x).contains(y) <==> (s.contains(y) && y != x) by {
            vstd::seq_lib::lemma_seq_contains_after_push(t, e, y);
            if e != x {
                vstd::seq_lib::lemma_seq_contains_after_push(f, e, y);
            }
        }
        if distinct_seq(s) {
            assert(forall|i: int| 0 <= i < t.len() ==> t[i] == s[i]);
            assert(distinct_seq(t));
            assert forall|i: int, j: int|
                0 <= i < j < remove_id(s, x).len() implies remove_id(s, x)[i] != remove_id(
                s,
                x,
            )[j] by {
                if e != x && j == f.len() {
                    assert(remove_id(s, x)[j] == e);
                    assert(remove_id(s, x)[i] == f[i]);
                    assert(f.contains(f[i]));
                    assert(t.contains(f[i]));
                    let k = choose|k: int| 0 <= k < t.len() && t[k] == f[i];
                    assert(s[k] == f[i] && s[s.len() - 1] == e);
                }
            }
            if s.contains(x) {
                if e == x {
                    assert(!t.contains(x)) by {
                        if t.contains(x) {
                            let k = choose|k: int| 0 <= k < t.len() && t[k] == x;
                            assert(s[k] == x && s[s.len() - 1] == x);
                        }
                    }
                } else {
                    assert(t.contains(x)) by {
                        let k = choose|k: int| 0 <= k < s.len() && s[k] == x;
                        assert(k < t.len() && t[k] == x);
                    }
                }
            }
        }
        if !s.contains(x) {
            assert(!t.contains(x)) by {
                if t.contains(x) {
                    let k = choose|k: int| 0 <= k < t.len() && t[k] == x;
                    assert(s.contains(s[k]));
                }
            }
            assert(e != x) by {
                assert(s.contains(s[s.len() - 1]));
            }
            assert(remove_id(s, x) =~= s);
        }
        assert forall|i: int|
            0 <= i < remove_id(s, x).len() implies s.contains(#[trigger] remove_id(s, x)[i]) by {
            assert(remove_id(s, x).contains(remove_id(s, x)[i]));
        }
    }
}

/// Copies a plain id vector.
pub(crate) fn vec_copy(v: &Vec<u64>) -> (r: Vec<u64>)
    ensures
        r@ == v@,
{
    let mut r: Vec<u64> = Vec::new();
    let mut i: usize = 0;
    while i < v.len()
        invariant
            i <= v@.len(),
            r@ == v@.take(i as int),
        decreases v@.len() - i,
    {
        r.push(v[i]);
        assert(v@.take(i + 1 as int) =~= v@.take(i as int).push(v@[i as int]));
        i = i + 1;
    }
    assert(v@.take(v@.len() as int) =~= v@);
    r
}

/// Builds the vector with every occurrence of `x` dropped.
pub(crate) fn vec_filter_out(v: &Vec<u64>, x: u64) -> (r: Vec<u64>)
    ensures
        r@ == remove_id(v@, x),
{
    let mut r: Vec<u64> = Vec::new();
    let mut i: usize = 0;
    while i < v.len()
        invariant
            i <= v@.len(),
            r@ == remove_id(v@.take(i as int), x),
        decreases v@.len() - i,
    {
        proof {
            assert(v@.take(i + 1 as int) =~= v@.take(i as int).push(v@[i as int]));
            lemma_remove_id_push(v@.take(i as int), v@[i as int], x);
        }
        if v[i] != x {
            r.push(v[i]);
        }
        i = i + 1;
    }
    assert(v@.take(v@.len() as int) =~= v@);
    r
}

/// Quadratic scan for a repeated id.
pub(crate) fn has_duplicate(v: &Vec<u64>) -> (r: bool)
    ensures
        r == !distinct_seq(v@),
{
    let n = v.len();
    let mut i: usize = 0;
    while i < n
        invariant
            i <= n,
            n == v@.len(),
            forall|p: int, q: int| 0 <= p < q < v@.len() && p < i ==> v@[p] != v@[q],
        decreases n - i,
    {
        let mut j: usize = i + 1;
        while j < n
            invariant
                i < j <= n || (i + 1 == j && j > n),
                i < n,
                n == v@.len(),
                forall|q: int| i < q < j ==> v@[i as int] != v@[q],
            decreases n - j,
        {
            if v[i] == v[j] {
                return true;
            }
            j = j + 1;
        }
        i = i + 1;
    }
    false
}

/// Law of vote integrity: in any well-formed state, every proposal's
/// approval and rejection sets are free of duplicates and mutually disjoint,
/// so no account's vote can ever be counted twice or on both sides.
pub proof fn lemma_vote_sets_disjoint(s: AccessControlModule, proposal_id: u64)
    requires
        s.wf(),
        s.proposals@.contains_key(proposal_id),
    ensures
        distinct_seq(s.proposals@[proposal_id].approvals@),
        distinct_seq(s.proposals@[proposal_id].rejections@),
        forall|a: u64|
            s.proposals@[proposal_id].approvals@.contains(a)
                ==> !s.proposals@[proposal_id].rejections@.contains(a),
{
}

/// Whether a cleanup sweep at time `now` tears this id down: it names a
/// live (unexecuted) record whose expiry has passed.
pub open spec fn is_swept(m: Map<u64, PendingProposal>, id: u64, now: u64) -> bool {
    m.contains_key(id) && !m[id].executed && now > m[id].expiry
}

/// The ids that survive a cleanup sweep at time `now`, order kept.
pub open spec fn live_after_cleanup(s: Seq<u64>, m: Map<u64, PendingProposal>, now: u64) -> Seq<
    u64,
>
    decreases s.len(),
{
    if s.len() == 0 {
        Seq::<u64>::empty()
    } else if is_swept(m, s.last(), now) {
        live_after_cleanup(s.drop_last(), m, now)
    } else {
        live_after_cleanup(s.drop_last(), m, now).push(s.last())
    }
}

/// How many of the ids a cleanup sweep at time `now` tears down.
pub open spec fn swept_count(s: Seq<u64>, m: Map<u64, PendingProposal>, now: u64) -> int
    decreases s.len(),
{
    if s.len() == 0 {
        0int
    } else {
        swept_count(s.drop_last(), m, now) + (if is_swept(m, s.last(), now) {
            1int
        } else {
            0int
        })
    }
}

/// The sweep commutes with extending the id sequence at the back.
pub proof fn lemma_cleanup_push(t: Seq<u64>, e: u64, m: Map<u64, PendingProposal>, now: u64)
    ensures
        live_after_cleanup(t.push(e), m, now) == (if is_swept(m, e, now) {
            live_after_cleanup(t, m, now)
        } else {
            live_after_cleanup(t, m, now).push(e)
        }),
        swept_count(t.push(e), m, now) == swept_count(t, m, now) + (if is_swept(m, e, now) {
            1int
        } else {
            0int
        }),
{
    assert(t.push(e).drop_last() =~= t);
    assert(t.push(e).last() == e);
}

/// What a sweep leaves: exactly the unswept ids, duplicate-free when the
/// input was, with the counts adding up.
pub proof fn lemma_cleanup_props(s: Seq<u64>, m: Map<u64, PendingProposal>, now: u64)
    ensures
        forall|y: u64| #[trigger]
            live_after_cleanup(s, m, now).contains(y) <==> (s.contains(y) && !is_swept(m, y, now)),
        distinct_seq(s) ==> distinct_seq(live_after_cleanup(s, m, now)),
        live_after_cleanup(s, m, now).len() + swept_count(s, m, now) == s.len(),
        forall|i: int|
            0 <= i < live_after_cleanup(s, m, now).len() ==> s.contains(
                #[trigger] live_after_cleanup(s, m, now)[i],
            ),
    decreases s.len(),
{
    let l = live_after_cleanup(s, m, now);
    if s.len() == 0 {
        assert forall|y: u64| #[trigger] l.contains(y) <==> (s.contains(y) && !is_swept(m, y, now)) by {
            if l.contains(y) {
                let k = choose|k: int| 0 <= k < l.len() && l[k] == y;
            }
            if s.contains(y) {
                let k = choose|k: int| 0 <= k < s.len() && s[k] == y;
            }
        }
    } else {
        let t = s.drop_last();
        let e = s.last();
        let f = live_after_cleanup(t, m, now);
        lemma_cleanup_props(t, m, now);
        assert(s =~= t.push(e));
        assert forall|y: u64| #[trigger] l.contains(y) <==> (s.contains(y) && !is_swept(m, y, now)) by {
            vstd::seq_lib::lemma_seq_contains_after_push(t, e, y);
            if !is_swept(m, e, now) {
                vstd::seq_lib::lemma_seq_contains_after_push(f, e, y);
            }
        }
        if distinct_seq(s) {
            assert(forall|i: int| 0 <= i < t.len() ==> t[i] == s[i]);
            assert(distinct_seq(t));
            assert forall|i: int, j: int| 0 <= i < j < l.len() implies l[i] != l[j] by {
                if !is_swept(m, e, now) && j == f.len() {
                    assert(l[j] == e);
                    assert(l[i] == f[i]);
                    assert(f.contains(f[i]));
                    assert(t.contains(f[i]));
                    let k = choose|k: int| 0 <= k < t.len() && t[k] == f[i];
                    assert(s[k] == f[i] && s[s.len() - 1] == e);
                }
            }
        }
        assert forall|i: int| 0 <= i < l.len() implies s.contains(#[trigger] l[i]) by {
            assert(l.contains(l[i]));
        }
    }
}

/// How one proposal record may evolve from another: the identity, action,
/// and deadlines are untouched; only the vote sets and the executed flag
/// take the given values.
pub open spec fn record_evolved(
    q: PendingProposal,
    p: PendingProposal,
    approvals: Seq<u64>,
    rejections: Seq<u64>,
    executed: bool,
) -> bool {
    &&& q.id == p.id
    &&& q.proposer == p.proposer
    &&& q.action == p.action
    &&& q.proposal_type == p.proposal_type
    &&& q.approvals@ == approvals
    &&& q.rejections@ == rejections
    &&& q.executed == executed
    &&& q.created_at == p.created_at
    &&& q.expiry == p.expiry
    &&& q.time_lock_until == p.time_lock_until
    &&& q.required_signatures == p.required_signatures
}

/// The record a fresh proposal carries: the proposer has auto-approved, no
/// rejections, deadlines derived from the clock and the committee
/// configuration.
pub open spec fn new_record(
    q: PendingProposal,
    id: u64,
    proposer: u64,
    action: ProposalAction,
    cfg: MultiSigConfig,
    now: u64,
    executed: bool,
) -> bool {
    let ptype = action.spec_classify();
    &&& q.id == id
    &&& q.proposer == proposer
    &&& q.action == action
    &&& q.proposal_type == ptype
    &&& q.approvals@ == seq![proposer]
    &&& q.rejections@ == Seq::<u64>::empty()
    &&& q.executed == executed
    &&& q.created_at == now
    &&& q.expiry == now + cfg.proposal_expiry_duration
    &&& q.time_lock_until == (if ptype.spec_requires_time_lock() {
        Some((now + cfg.time_lock_duration) as u64)
    } else {
        None::<u64>
    })
    &&& q.required_signatures == cfg.spec_required_for(ptype)
}

/// A committee configuration whose member list is the given sequence and
/// whose scalar settings are those of `base`.
pub open spec fn msc_with_admins(
    ms: Option<MultiSigConfig>,
    base: MultiSigConfig,
    admins: Seq<u64>,
) -> bool {
    match ms {
        Some(c) => {
            &&& c.admins@ == admins
            &&& c.required_signatures == base.required_signatures
            &&& c.critical_threshold == base.critical_threshold
            &&& c.emergency_threshold == base.emergency_threshold
            &&& c.time_lock_duration == base.time_lock_duration
            &&& c.max_pending_proposals == base.max_pending_proposals
            &&& c.proposal_expiry_duration == base.proposal_expiry_duration
        },
        None => false,
    }
}

/// The fields that neither proposal bookkeeping nor any proposal action
/// touches.
pub open spec fn rest_unchanged(pre: AccessControlModule, post: AccessControlModule) -> bool {
    &&& post.initialized == pre.initialized
    &&& post.admin == pre.admin
    &&& post.tiers == pre.tiers
    &&& post.required_tier_guest == pre.required_tier_guest
    &&& post.required_tier_member == pre.required_tier_member
    &&& post.required_tier_admin == pre.required_tier_admin
    &&& post.access_attempts == pre.access_attempts
    &&& post.pending_admin_transfer == pre.pending_admin_transfer
}

/// What each action does to the six fields an action can touch (roles,
/// policy config, pause flag, emergency flag, blacklist, committee); the
/// actions that execution refuses map to `false`.
pub open spec fn spec_action_effect(
    pre: AccessControlModule,
    post: AccessControlModule,
    action: ProposalAction,
) -> bool {
    match action {
        ProposalAction::SetRole(user, role) => {
            &&& post.roles@ == pre.roles@.insert(user, role)
            &&& post.config == pre.config
            &&& post.paused == pre.paused
            &&& post.emergency_mode == pre.emergency_mode
            &&& post.blacklist == pre.blacklist
            &&& post.multisig == pre.multisig
        },
        ProposalAction::UpdateConfig(c) => {
            &&& post.roles == pre.roles
            &&& post.config == c
            &&& post.paused == pre.paused
            &&& post.emergency_mode == pre.emergency_mode
            &&& post.blacklist == pre.blacklist
            &&& post.multisig == pre.multisig
        },
        ProposalAction::Pause => {
            &&& post.roles == pre.roles
            &&& post.config == pre.config
            &&& post.paused == true
            &&& post.emergency_mode == pre.emergency_mode
            &&& post.blacklist == pre.blacklist
            &&& post.multisig == pre.multisig
        },
        ProposalAction::Unpause => {
            &&& post.roles == pre.roles
            &&& post.config == pre.config
            &&& post.paused == false
            &&& post.emergency_mode == pre.emergency_mode
            &&& post.blacklist == pre.blacklist
            &&& post.multisig == pre.multisig
        },
        ProposalAction::UpdateMultisigConfig(c) => {
            &&& post.roles == pre.roles
            &&& post.config == pre.config
            &&& post.paused == pre.paused
            &&& post.emergency_mode == pre.emergency_mode
            &&& post.blacklist == pre.blacklist
            &&& msc_with_admins(post.multisig, c, c.admins@)
        },
        ProposalAction::EmergencyPause(_) => {
            &&& post.roles == pre.roles
            &&& post.config == pre.config
            &&& post.paused == true
            &&& post.emergency_mode == true
            &&& post.blacklist == pre.blacklist
            &&& post.multisig == pre.multisig
        },
        ProposalAction::BatchBlacklist(users) => {
            &&& post.roles == pre.roles
            &&& post.config == pre.config
            &&& post.paused == pre.paused
            &&& post.emergency_mode == pre.emergency_mode
            &&& (forall|a: u64|
                #[trigger] post.blacklist@.contains(a) <==> pre.blacklist@.contains(a)
                    || users@.contains(a))
            &&& post.multisig == pre.multisig
        },
        ProposalAction::AddAdmin(a) => {
            &&& post.config == pre.config
            &&& post.paused == pre.paused
            &&& post.emergency_mode == pre.emergency_mode
            &&& post.blacklist == pre.blacklist
            &&& match pre.multisig {
                Some(c) => {
                    &&& msc_with_admins(post.multisig, c, c.admins@.push(a))
                    &&& post.roles@ == pre.roles@.insert(a, UserRole::Admin)
                },
                None => post.multisig == pre.multisig && post.roles == pre.roles,
            }
        },
        ProposalAction::RemoveAdmin(a) => {
            &&& post.config == pre.config
            &&& post.paused == pre.paused
            &&& post.emergency_mode == pre.emergency_mode
            &&& post.blacklist == pre.blacklist
            &&& match pre.multisig {
                Some(c) => {
                    &&& msc_with_admins(post.multisig, c, remove_id(c.admins@, a))
                    &&& post.roles@ == pre.roles@.insert(a, UserRole::Guest)
                },
                None => post.multisig == pre.multisig && post.roles == pre.roles,
            }
        },
        ProposalAction::TransferAdmin(_) => false,
        ProposalAction::ScheduleUpgrade(_, _) => false,
        ProposalAction::EmergencyAdminTransfer(_) => false,
    }
}

impl AccessControlModule {
    /// Whether the action could be applied in this state: the assignment
    /// membership policy for role proposals, validity and duplicate-freedom
    /// for a replacement committee configuration, no duplicate member on
    /// add, no removal that would shrink the committee to or below its
    /// emergency threshold, and a refusal of the action kinds that execution
    /// does not support.
    pub open spec fn spec_action_check(
        self,
        action: ProposalAction,
        membership: Option<i128>,
    ) -> Result<(), AccessControlError> {
        match action {
            ProposalAction::SetRole(_, role) => spec_validate_assignment(
                self.config,
                role,
                membership,
            ),
            ProposalAction::UpdateConfig(_) => Ok(()),
            ProposalAction::Pause => Ok(()),
            ProposalAction::Unpause => Ok(()),
            ProposalAction::UpdateMultisigConfig(c) => if !c.spec_valid() {
                Err(AccessControlError::InvalidMultisigConfig)
            } else if !distinct_seq(c.admins@) {
                Err(AccessControlError::DuplicateAdmin)
            } else {
                Ok(())
            },
            ProposalAction::EmergencyPause(_) => Ok(()),
            ProposalAction::BatchBlacklist(_) => Ok(()),
            ProposalAction::AddAdmin(a) => match self.multisig {
                Some(c) => if c.admins@.contains(a) {
                    Err(AccessControlError::DuplicateAdmin)
                } else {
                    Ok(())
                },
                None => Ok(()),
            },
            ProposalAction::RemoveAdmin(_) => match self.multisig {
                Some(c) => if c.admins@.len() <= c.emergency_threshold + 1 {
                    Err(AccessControlError::CannotRemoveLastAdmin)
                } else {
                    Ok(())
                },
                None => Ok(()),
            },
            ProposalAction::TransferAdmin(_) => Err(AccessControlError::InvalidProposalType),
            ProposalAction::ScheduleUpgrade(_, _) => Err(AccessControlError::InvalidProposalType),
            ProposalAction::EmergencyAdminTransfer(_) => Err(
                AccessControlError::InvalidProposalType,
            ),
        }
    }

    /// A proposal torn down on expiry: its record is dropped, it leaves the
    /// pending index, and it is counted as expired exactly once.
    pub open spec fn spec_expired_teardown(self, post: Self, id: u64) -> bool {
        &&& post.proposals@ == self.proposals@.remove(id)
        &&& post.pending_list@ == remove_id(self.pending_list@, id)
        &&& post.stats == (ProposalStats {
            total_expired: (self.stats.total_expired + 1) as u64,
            pending_count: (self.stats.pending_count - 1) as u32,
            ..self.stats
        })
        &&& post == (AccessControlModule {
            proposals: post.proposals,
            pending_list: post.pending_list,
            stats: post.stats,
            ..self
        })
    }

    /// A proposal torn down by the rejection quorum: its record is dropped,
    /// it leaves the pending index, and it is counted as rejected.
    pub open spec fn spec_rejected_teardown(self, post: Self, id: u64) -> bool {
        &&& post.proposals@ == self.proposals@.remove(id)
        &&& post.pending_list@ == remove_id(self.pending_list@, id)
        &&& post.stats == (ProposalStats {
            total_rejected: (self.stats.total_rejected + 1) as u64,
            pending_count: (self.stats.pending_count - 1) as u32,
            ..self.stats
        })
        &&& post == (AccessControlModule {
            proposals: post.proposals,
            pending_list: post.pending_list,
            stats: post.stats,
            ..self
        })
    }

    /// A proposal withdrawn by its proposer: its record is dropped and it
    /// leaves the pending index, but no terminal counter takes it.
    pub open spec fn spec_cancelled_teardown(self, post: Self, id: u64) -> bool {
        &&& post.proposals@ == self.proposals@.remove(id)
        &&& post.pending_list@ == remove_id(self.pending_list@, id)
        &&& post.stats == (ProposalStats {
            pending_count: (self.stats.pending_count - 1) as u32,
            ..self.stats
        })
        &&& post == (AccessControlModule {
            proposals: post.proposals,
            pending_list: post.pending_list,
            stats: post.stats,
            ..self
        })
    }

    /// A proposal executed: its record stays, marked executed and carrying
    /// the given final vote sets; it leaves the pending index; it is counted
    /// as executed; and its action's effect is applied.
    pub open spec fn spec_execute_commit(
        self,
        post: Self,
        id: u64,
        approvals: Seq<u64>,
        rejections: Seq<u64>,
    ) -> bool {
        let p = self.proposals@[id];
        &&& post.proposals@.contains_key(id)
        &&& record_evolved(post.proposals@[id], p, approvals, rejections, true)
        &&& post.proposals@.remove(id) == self.proposals@.remove(id)
        &&& post.pending_list@ == remove_id(self.pending_list@, id)
        &&& post.stats.total_created == self.stats.total_created
        &&& post.stats.total_executed == self.stats.total_executed + 1
        &&& post.stats.total_rejected == self.stats.total_rejected
        &&& post.stats.total_expired == self.stats.total_expired
        &&& post.stats.pending_count == self.stats.pending_count - 1
        &&& post.proposal_counter == self.proposal_counter
        &&& spec_action_effect(self, post, p.action)
        &&& rest_unchanged(self, post)
    }

    /// A proposal created and immediately executed within the same call (a
    /// non-time-locked action whose threshold its proposer's own approval
    /// already meets).
    pub open spec fn spec_create_executed(
        self,
        post: Self,
        id: u64,
        proposer: u64,
        action: ProposalAction,
        cfg: MultiSigConfig,
        now: u64,
    ) -> bool {
        &&& post.proposals@.contains_key(id)
        &&& new_record(post.proposals@[id], id, proposer, action, cfg, now, true)
        &&& post.proposals@.remove(id) == self.proposals@
        &&& post.pending_list@ == self.pending_list@
        &&& post.stats.total_created == self.stats.total_created + 1
        &&& post.stats.total_executed == self.stats.total_executed + 1
        &&& post.stats.total_rejected == self.stats.total_rejected
        &&& post.stats.total_expired == self.stats.total_expired
        &&& post.stats.pending_count == self.stats.pending_count
        &&& post.proposal_counter == id + 1
        &&& spec_action_effect(self, post, action)
        &&& rest_unchanged(self, post)
    }

    /// One-shot committee initialization: validates the member list and the
    /// standard threshold, derives the critical and emergency thresholds and
    /// the default limits, grants every member the `Admin` role, and starts
    /// the proposal machinery at zero. A second initialization of any kind
    /// fails and changes nothing.
    pub fn initialize_multisig(
        &mut self,
        admins: Vec<u64>,
        required_signatures: u32,
        config: Option<AccessControlConfig>,
    ) -> (r: Result<(), AccessControlError>)
        requires
            old(self).wf(),
            admins@.len() <= u32::MAX,
        ensures
            final(self).wf(),
            old(self).stats_balanced() ==> final(self).stats_balanced(),
            ({
                let s = *old(self);
                let n = admins@.len() as int;
                if s.initialized {
                    r == Err::<(), AccessControlError>(AccessControlError::ConfigurationError)
                        && *final(self) == s
                } else if n == 0 || required_signatures == 0 || required_signatures as int > n {
                    r == Err::<(), AccessControlError>(AccessControlError::InvalidAddress)
                        && *final(self) == s
                } else if !distinct_seq(admins@) {
                    r == Err::<(), AccessControlError>(AccessControlError::DuplicateAdmin)
                        && *final(self) == s
                } else {
                    let crit: u32 = if (required_signatures as int) < n {
                        (required_signatures + 1) as u32
                    } else {
                        n as u32
                    };
                    let emer: u32 = if (crit as int) < n {
                        (crit + 1) as u32
                    } else {
                        n as u32
                    };
                    &&& r == Ok::<(), AccessControlError>(())
                    &&& final(self).multisig == Some(
                        MultiSigConfig {
                            admins: admins,
                            required_signatures,
                            critical_threshold: crit,
                            emergency_threshold: emer,
                            time_lock_duration: DEFAULT_TIME_LOCK_DURATION,
                            max_pending_proposals: DEFAULT_MAX_PENDING_PROPOSALS,
                            proposal_expiry_duration: DEFAULT_PROPOSAL_EXPIRY_DURATION,
                        },
                    )
                    &&& (forall|a: u64|
                        admins@.contains(a) ==> final(self).roles@.contains_key(a)
                            && final(self).roles@[a] == UserRole::Admin)
                    &&& (forall|a: u64|
                        !admins@.contains(a) ==> #[trigger] final(self).roles@.contains_key(a)
                            == s.roles@.contains_key(a) && (s.roles@.contains_key(a)
                            ==> final(self).roles@[a] == s.roles@[a]))
                    &&& final(self).config == (match config {
                        Some(c) => c,
                        None => AccessControlConfig::spec_default(),
                    })
                    &&& *final(self) == (AccessControlModule {
                        initialized: true,
                        paused: false,
                        config: final(self).config,
                        multisig: final(self).multisig,
                        roles: final(self).roles,
                        pending_list: final(self).pending_list,
                        ..s
                    })
                    &&& final(self).pending_list@ == Seq::<u64>::empty()
                }
            }),
    {
        if self.initialized {
            return Err(AccessControlError::ConfigurationError);
        }
        if admins.len() == 0 || required_signatures == 0 || required_signatures as usize
            > admins.len() {
            return Err(AccessControlError::InvalidAddress);
        }
        if has_duplicate(&admins) {
            return Err(AccessControlError::DuplicateAdmin);
        }
        let n: u32 = admins.len() as u32;
        let critical_threshold: u32 = if required_signatures < n {
            required_signatures + 1
        } else {
            n
        };
        let emergency_threshold: u32 = if critical_threshold < n {
            critical_threshold + 1
        } else {
            n
        };

        let ghost pre = *self;
        let mut i: usize = 0;
        while i < admins.len()
            invariant
                i <= admins@.len(),
                forall|a: u64|
                    admins@.take(i as int).contains(a) ==> self.roles@.contains_key(a)
                        && self.roles@[a] == UserRole::Admin,
                forall|a: u64|
                    !admins@.take(i as int).contains(a) ==> #[trigger] self.roles@.contains_key(a)
                        == pre.roles@.contains_key(a) && (pre.roles@.contains_key(a)
                        ==> self.roles@[a] == pre.roles@[a]),
                *self == (AccessControlModule { roles: self.roles, ..pre }),
            decreases admins@.len() - i,
        {
            let ghost m0 = self.roles@;
            self.roles.insert(admins[i], UserRole::Admin);
            proof {
                assert(admins@.take(i + 1 as int) =~= admins@.take(i as int).push(
                    admins@[i as int],
                ));
                assert forall|a: u64| #![all_triggers]
                    admins@.take(i + 1 as int).contains(a) == (admins@.take(i as int).contains(a)
                        || a == admins@[i as int]) by {
                    vstd::seq_lib::lemma_seq_contains_after_push(
                        admins@.take(i as int),
                        admins@[i as int],
                        a,
                    );
                }
                assert forall|a: u64|
                    !admins@.take(i + 1 as int).contains(a) implies #[trigger] self.roles@.contains_key(a)
                        == pre.roles@.contains_key(a) && (pre.roles@.contains_key(a)
                        ==> self.roles@[a] == pre.roles@[a]) by {
                    assert(a != admins@[i as int]);
                    assert(!admins@.take(i as int).contains(a));
                    assert(m0.contains_key(a) == pre.roles@.contains_key(a));
                }
            }
            i = i + 1;
        }
        proof {
            assert(admins@.take(admins@.len() as int) =~= admins@);
        }

        let multisig_config = MultiSigConfig {
            admins,
            required_signatures,
            critical_threshold,
            emergency_threshold,
            time_lock_duration: DEFAULT_TIME_LOCK_DURATION,
            max_pending_proposals: DEFAULT_MAX_PENDING_PROPOSALS,
            proposal_expiry_duration: DEFAULT_PROPOSAL_EXPIRY_DURATION,
        };
        if !multisig_config.validate() {
            return Err(AccessControlError::InvalidMultisigConfig);
        }
        self.multisig = Some(multisig_config);
        self.config = match config {
            Some(c) => c,
            None => AccessControlConfig::default(),
        };
        self.initialized = true;
        self.paused = false;
        self.proposal_counter = 0;
        self.stats = ProposalStats {
            total_created: 0,
            total_executed: 0,
            total_rejected: 0,
            total_expired: 0,
            pending_count: 0,
        };
        self.pending_list = Vec::new();
        Ok(())
    }

    /// Submits an action for committee approval. The proposer auto-approves;
    /// the action's classification selects the threshold and a possible
    /// time-lock, both captured in the record; and a non-time-locked
    /// proposal whose threshold is already met executes within this call.
    /// An execution failure aborts the whole call, leaving no record.
    pub fn create_proposal(
        &mut self,
        proposer: u64,
        action: ProposalAction,
        now: u64,
        membership: Option<i128>,
    ) -> (r: Result<u64, AccessControlError>)
        requires
            old(self).wf(),
            old(self).proposal_counter < u64::MAX,
            (match old(self).multisig {
                Some(c) => now + c.proposal_expiry_duration <= u64::MAX && now
                    + c.time_lock_duration <= u64::MAX,
                None => true,
            }),
        ensures
            final(self).wf(),
            old(self).stats_balanced() ==> final(self).stats_balanced(),
            ({
                let s = *old(self);
                if !s.admin_ok(proposer) {
                    r == Err::<u64, AccessControlError>(AccessControlError::AdminRequired)
                        && *final(self) == s
                } else {
                    match s.multisig {
                        None => r == Err::<u64, AccessControlError>(
                            AccessControlError::MultisigNotEnabled,
                        ) && *final(self) == s,
                        Some(cfg) => {
                            if s.stats.pending_count >= cfg.max_pending_proposals {
                                r == Err::<u64, AccessControlError>(
                                    AccessControlError::MaxProposalsReached,
                                ) && *final(self) == s
                            } else {
                                let id = s.proposal_counter;
                                let ptype = action.spec_classify();
                                if !ptype.spec_requires_time_lock() && cfg.spec_required_for(ptype)
                                    <= 1 {
                                    match s.spec_action_check(action, membership) {
                                        Err(e) => r == Err::<u64, AccessControlError>(e)
                                            && *final(self) == s,
                                        Ok(()) => r == Ok::<u64, AccessControlError>(id)
                                            && s.spec_create_executed(
                                            *final(self),
                                            id,
                                            proposer,
                                            action,
                                            cfg,
                                            now,
                                        ),
                                    }
                                } else {
                                    r == Ok::<u64, AccessControlError>(id)
                                        && s.spec_created_pending(
                                        *final(self),
                                        id,
                                        proposer,
                                        action,
                                        cfg,
                                        now,
                                    )
                                }
                            }
                        },
                    }
                }
            }),
    {
        if let Err(e) = self.require_admin(proposer) {
            return Err(e);
        }
        let proposal_type = action.classify_type();
        let (max_pending, expiry_dur, tl_dur, required_signatures) = match &self.multisig {
            Some(c) => (
                c.max_pending_proposals,
                c.proposal_expiry_duration,
                c.time_lock_duration,
                c.get_required_signatures(&proposal_type),
            ),
            None => {
                return Err(AccessControlError::MultisigNotEnabled);
            },
        };
        if self.stats.pending_count >= max_pending {
            return Err(AccessControlError::MaxProposalsReached);
        }
        let proposal_id = self.proposal_counter;
        let requires_tl = proposal_type.requires_time_lock();
        let time_lock_until: Option<u64> = if requires_tl {
            Some(now + tl_dur)
        } else {
            None
        };
        let expiry = now + expiry_dur;

        proof {
            assert(!old(self).proposals@.contains_key(proposal_id));
            assert(!old(self).pending_list@.contains(proposal_id)) by {
                if old(self).pending_list@.contains(proposal_id) {
                    let k = choose|k: int|
                        0 <= k < old(self).pending_list@.len() && old(self).pending_list@[k]
                            == proposal_id;
                }
            }
            assert(required_signatures >= 1);
        }

        if !requires_tl && required_signatures <= 1 {
            if let Err(e) = self.action_check(&action, membership) {
                return Err(e);
            }
            self.apply_action(&action);
            let mut approvals: Vec<u64> = Vec::new();
            approvals.push(proposer);
            proof {
                assert(approvals@ =~= seq![proposer]);
            }
            let prop = PendingProposal {
                id: proposal_id,
                proposer,
                action,
                proposal_type,
                approvals,
                rejections: Vec::new(),
                executed: true,
                created_at: now,
                expiry,
                time_lock_until,
                required_signatures,
            };
            self.proposals.insert(proposal_id, prop);
            self.proposal_counter = proposal_id + 1;
            self.stats.total_created = self.stats.total_created + 1;
            self.stats.total_executed = self.stats.total_executed + 1;
            proof {
                assert(self.proposals@.remove(proposal_id) =~= old(self).proposals@);
            }
            return Ok(proposal_id);
        }

        let mut approvals: Vec<u64> = Vec::new();
        approvals.push(proposer);
        proof {
            assert(approvals@ =~= seq![proposer]);
        }
        let prop = PendingProposal {
            id: proposal_id,
            proposer,
            action,
            proposal_type,
            approvals,
            rejections: Vec::new(),
            executed: false,
            created_at: now,
            expiry,
            time_lock_until,
            required_signatures,
        };
        self.proposals.insert(proposal_id, prop);
        self.proposal_counter = proposal_id + 1;
        self.pending_list.push(proposal_id);
        self.stats.total_created = self.stats.total_created + 1;
        self.stats.pending_count = self.stats.pending_count + 1;
        proof {
            assert(self.proposals@.remove(proposal_id) =~= old(self).proposals@);
            assert forall|y: u64| #[trigger]
                self.pending_list@.contains(y) == (old(self).pending_list@.contains(y) || y
                    == proposal_id) by {
                vstd::seq_lib::lemma_seq_contains_after_push(
                    old(self).pending_list@,
                    proposal_id,
                    y,
                );
            }
        }
        Ok(proposal_id)
    }

    /// Runs an executable proposal: not yet executed, not expired, past any
    /// time-lock, and with enough approvals. The record is marked executed
    /// before it leaves the pending index, and the action's side effect is
    /// applied atomically: any failure leaves the state untouched, except
    /// that an expired proposal is torn down (counted as expired) before the
    /// expiry is reported.
    pub fn execute_proposal(&mut self, proposal_id: u64, now: u64, membership: Option<i128>) -> (r:
        Result<(), AccessControlError>)
        requires
            old(self).wf(),
        ensures
            final(self).wf(),
            old(self).stats_balanced() ==> final(self).stats_balanced(),
            ({
                let s = *old(self);
                if !s.proposals@.contains_key(proposal_id) {
                    r == Err::<(), AccessControlError>(AccessControlError::ProposalNotFound)
                        && *final(self) == s
                } else {
                    let p = s.proposals@[proposal_id];
                    if p.executed {
                        r == Err::<(), AccessControlError>(
                            AccessControlError::ProposalAlreadyExecuted,
                        ) && *final(self) == s
                    } else if now > p.expiry {
                        r == Err::<(), AccessControlError>(AccessControlError::ProposalExpired)
                            && s.spec_expired_teardown(*final(self), proposal_id)
                    } else if (match p.time_lock_until {
                        Some(t) => now < t,
                        None => false,
                    }) {
                        r == Err::<(), AccessControlError>(AccessControlError::TimeLockActive)
                            && *final(self) == s
                    } else if p.approvals@.len() < p.required_signatures {
                        r == Err::<(), AccessControlError>(
                            AccessControlError::InsufficientApprovals,
                        ) && *final(self) == s
                    } else {
                        match s.spec_action_check(p.action, membership) {
                            Err(e) => r == Err::<(), AccessControlError>(e) && *final(self) == s,
                            Ok(()) => r == Ok::<(), AccessControlError>(())
                                && s.spec_execute_commit(
                                *final(self),
                                proposal_id,
                                p.approvals@,
                                p.rejections@,
                            ),
                        }
                    }
                }
            }),
    {
        let (executed, expiry, time_lock_until, required_signatures, approvals_len) = match self
            .proposals
            .get(&proposal_id) {
            Some(p) => (p.executed, p.expiry, p.time_lock_until, p.required_signatures,
            p.approvals.len()),
            None => {
                return Err(AccessControlError::ProposalNotFound);
            },
        };
        if executed {
            return Err(AccessControlError::ProposalAlreadyExecuted);
        }
        if now > expiry {
            self.expire_entry(proposal_id);
            return Err(AccessControlError::ProposalExpired);
        }
        if let Some(t) = time_lock_until {
            if now < t {
                return Err(AccessControlError::TimeLockActive);
            }
        }
        if approvals_len < required_signatures as usize {
            return Err(AccessControlError::InsufficientApprovals);
        }
        let check = match self.proposals.get(&proposal_id) {
            Some(p) => self.action_check(&p.action, membership),
            None => Err(AccessControlError::ProposalNotFound),
        };
        if let Err(e) = check {
            return Err(e);
        }
        let mut p = match self.proposals.remove(&proposal_id) {
            Some(p) => p,
            None => {
                return Err(AccessControlError::ProposalNotFound);
            },
        };
        self.apply_action(&p.action);
        p.executed = true;
        self.proposals.insert(proposal_id, p);
        let new_list = vec_filter_out(&self.pending_list, proposal_id);
        self.pending_list = new_list;
        proof {
            lemma_remove_id(old(self).pending_list@, proposal_id);
            assert(old(self).pending_list@.contains(proposal_id));
            assert(self.proposals@.remove(proposal_id) =~= old(self).proposals@.remove(
                proposal_id,
            ));
        }
        self.stats.total_executed = self.stats.total_executed + 1;
        self.stats.pending_count = self.stats.pending_count - 1;
        proof {
            self.lemma_commit_wf(*old(self), proposal_id, membership);
        }
        Ok(())
    }

    /// Re-establishes well-formedness after a proposal execution commit.
    proof fn lemma_commit_wf(self, pre: Self, proposal_id: u64, membership: Option<i128>)
        requires
            pre.wf(),
            pre.proposals@.contains_key(proposal_id),
            !pre.proposals@[proposal_id].executed,
            pre.spec_action_check(pre.proposals@[proposal_id].action, membership) is Ok,
            self.proposals@.contains_key(proposal_id),
            record_evolved(
                self.proposals@[proposal_id],
                pre.proposals@[proposal_id],
                self.proposals@[proposal_id].approvals@,
                self.proposals@[proposal_id].rejections@,
                true,
            ),
            self.proposals@[proposal_id].votes_wf(),
            self.proposals@.remove(proposal_id) == pre.proposals@.remove(proposal_id),
            self.pending_list@ == remove_id(pre.pending_list@, proposal_id),
            self.stats.total_created == pre.stats.total_created,
            self.stats.total_executed == pre.stats.total_executed + 1,
            self.stats.total_rejected == pre.stats.total_rejected,
            self.stats.total_expired == pre.stats.total_expired,
            self.stats.pending_count == pre.stats.pending_count - 1,
            self.proposal_counter == pre.proposal_counter,
            self.initialized == pre.initialized,
            spec_action_effect(pre, self, pre.proposals@[proposal_id].action),
        ensures
            self.wf(),
    {
        let act = pre.proposals@[proposal_id].action;
        lemma_remove_id(pre.pending_list@, proposal_id);
        assert(pre.pending_list@.contains(proposal_id));
        assert forall|id2: u64| #[trigger] self.proposals@.contains_key(id2) implies {
            let p = self.proposals@[id2];
            &&& p.id == id2
            &&& id2 < self.proposal_counter
            &&& p.votes_wf()
            &&& (p.executed || self.pending_list@.contains(id2))
        } by {
            if id2 != proposal_id {
                assert(self.proposals@.remove(proposal_id).contains_key(id2));
                assert(pre.proposals@.remove(proposal_id).contains_key(id2));
                assert(pre.proposals@.contains_key(id2));
                assert(self.proposals@.remove(proposal_id)[id2] == self.proposals@[id2]);
                assert(pre.proposals@.remove(proposal_id)[id2] == pre.proposals@[id2]);
                assert(self.proposals@[id2] == pre.proposals@[id2]);
            }
        }
        assert forall|i: int| 0 <= i < self.pending_list@.len() implies {
            let id2 = #[trigger] self.pending_list@[i];
            &&& self.proposals@.contains_key(id2)
            &&& !self.proposals@[id2].executed
        } by {
            let id2 = self.pending_list@[i];
            assert(self.pending_list@.contains(id2));
            assert(pre.pending_list@.contains(id2) && id2 != proposal_id);
            let k = choose|k: int|
                0 <= k < pre.pending_list@.len() && pre.pending_list@[k] == id2;
            assert(pre.proposals@.contains_key(id2) && !pre.proposals@[id2].executed);
            assert(pre.proposals@.remove(proposal_id).contains_key(id2));
            assert(self.proposals@.remove(proposal_id).contains_key(id2));
            assert(self.proposals@.contains_key(id2));
            assert(self.proposals@.remove(proposal_id)[id2] == self.proposals@[id2]);
            assert(pre.proposals@.remove(proposal_id)[id2] == pre.proposals@[id2]);
            assert(self.proposals@[id2] == pre.proposals@[id2]);
        }
        match act {
            ProposalAction::AddAdmin(a) => {
                match pre.multisig {
                    Some(c) => {
                        assert(!c.admins@.contains(a));
                        let na = c.admins@.push(a);
                        assert forall|i: int, j: int| 0 <= i < j < na.len() implies na[i]
                            != na[j] by {
                            if j == na.len() - 1 {
                                assert(c.admins@.contains(c.admins@[i]));
                            }
                        }
                    },
                    None => {},
                }
            },
            ProposalAction::RemoveAdmin(a) => {
                match pre.multisig {
                    Some(c) => {
                        lemma_remove_id(c.admins@, a);
                    },
                    None => {},
                }
            },
            _ => {},
        }
    }

    /// Tears down a proposal found past its expiry: the record is dropped,
    /// the id leaves the pending index, and the expiry is counted once.
    fn expire_entry(&mut self, proposal_id: u64)
        requires
            old(self).wf(),
            old(self).proposals@.contains_key(proposal_id),
            !old(self).proposals@[proposal_id].executed,
        ensures
            final(self).wf(),
            old(self).stats_balanced() ==> final(self).stats_balanced(),
            old(self).spec_expired_teardown(*final(self), proposal_id),
    {
        proof {
            lemma_remove_id(old(self).pending_list@, proposal_id);
            assert(old(self).pending_list@.contains(proposal_id));
        }
        self.proposals.remove(&proposal_id);
        let new_list = vec_filter_out(&self.pending_list, proposal_id);
        self.pending_list = new_list;
        self.stats.total_expired = self.stats.total_expired + 1;
        self.stats.pending_count = self.stats.pending_count - 1;
        proof {
            let pre = *old(self);
            assert forall|id2: u64| #[trigger] self.proposals@.contains_key(id2) implies {
                let p = self.proposals@[id2];
                &&& p.id == id2
                &&& id2 < self.proposal_counter
                &&& p.votes_wf()
                &&& (p.executed || self.pending_list@.contains(id2))
            } by {
                assert(id2 != proposal_id);
                assert(pre.proposals@.contains_key(id2));
                assert(self.proposals@[id2] == pre.proposals@[id2]);
            }
            assert forall|i: int| 0 <= i < self.pending_list@.len() implies {
                let id2 = #[trigger] self.pending_list@[i];
                &&& self.proposals@.contains_key(id2)
                &&& !self.proposals@[id2].executed
            } by {
                let id2 = self.pending_list@[i];
                assert(self.pending_list@.contains(id2));
                assert(pre.pending_list@.contains(id2) && id2 != proposal_id);
                let k = choose|k: int|
                    0 <= k < pre.pending_list@.len() && pre.pending_list@[k] == id2;
            }
        }
    }

    /// Re-establishes well-formedness after one proposal's vote sets were
    /// updated in place.
    proof fn lemma_vote_update_wf(self, pre: Self, proposal_id: u64)
        requires
            pre.wf(),
            pre.proposals@.contains_key(proposal_id),
            !pre.proposals@[proposal_id].executed,
            self.proposals@.contains_key(proposal_id),
            self.proposals@[proposal_id].id == proposal_id,
            self.proposals@[proposal_id].votes_wf(),
            !self.proposals@[proposal_id].executed,
            self.proposals@.remove(proposal_id) == pre.proposals@.remove(proposal_id),
            self.pending_list == pre.pending_list,
            self.stats == pre.stats,
            self.proposal_counter == pre.proposal_counter,
            self.initialized == pre.initialized,
            self.multisig == pre.multisig,
        ensures
            self.wf(),
    {
        assert forall|id2: u64| #[trigger] self.proposals@.contains_key(id2) implies {
            let p = self.proposals@[id2];
            &&& p.id == id2
            &&& id2 < self.proposal_counter
            &&& p.votes_wf()
            &&& (p.executed || self.pending_list@.contains(id2))
        } by {
            if id2 != proposal_id {
                assert(self.proposals@.remove(proposal_id).contains_key(id2));
                assert(pre.proposals@.remove(proposal_id).contains_key(id2));
                assert(pre.proposals@.contains_key(id2));
                assert(self.proposals@.remove(proposal_id)[id2] == self.proposals@[id2]);
                assert(pre.proposals@.remove(proposal_id)[id2] == pre.proposals@[id2]);
                assert(self.proposals@[id2] == pre.proposals@[id2]);
            }
        }
        assert forall|i: int| 0 <= i < self.pending_list@.len() implies {
            let id2 = #[trigger] self.pending_list@[i];
            &&& self.proposals@.contains_key(id2)
            &&& !self.proposals@[id2].executed
        } by {
            let id2 = self.pending_list@[i];
            assert(pre.pending_list@[i] == id2);
            assert(pre.proposals@.contains_key(id2) && !pre.proposals@[id2].executed);
            if id2 != proposal_id {
                assert(pre.proposals@.remove(proposal_id).contains_key(id2));
                assert(self.proposals@.remove(proposal_id).contains_key(id2));
                assert(self.proposals@.contains_key(id2));
                assert(self.proposals@.remove(proposal_id)[id2] == self.proposals@[id2]);
                assert(pre.proposals@.remove(proposal_id)[id2] == pre.proposals@[id2]);
                assert(self.proposals@[id2] == pre.proposals@[id2]);
            }
        }
    }

    /// Re-establishes well-formedness after a proposal was dropped from both
    /// the record map and the pending index, whatever terminal counter (if
    /// any) took it.
    proof fn lemma_teardown_wf(self, pre: Self, proposal_id: u64)
        requires
            pre.wf(),
            pre.proposals@.contains_key(proposal_id),
            !pre.proposals@[proposal_id].executed,
            self.proposals@ == pre.proposals@.remove(proposal_id),
            self.pending_list@ == remove_id(pre.pending_list@, proposal_id),
            self.stats.total_created == pre.stats.total_created,
            self.stats.pending_count == pre.stats.pending_count - 1,
            self.stats.total_executed + self.stats.total_rejected + self.stats.total_expired
                <= pre.stats.total_executed + pre.stats.total_rejected + pre.stats.total_expired
                + 1,
            self.proposal_counter == pre.proposal_counter,
            self.initialized == pre.initialized,
            self.multisig == pre.multisig,
        ensures
            self.wf(),
    {
        lemma_remove_id(pre.pending_list@, proposal_id);
        assert(pre.pending_list@.contains(proposal_id));
        assert forall|id2: u64| #[trigger] self.proposals@.contains_key(id2) implies {
            let p = self.proposals@[id2];
            &&& p.id == id2
            &&& id2 < self.proposal_counter
            &&& p.votes_wf()
            &&& (p.executed || self.pending_list@.contains(id2))
        } by {
            assert(id2 != proposal_id);
            assert(pre.proposals@.contains_key(id2));
            assert(self.proposals@[id2] == pre.proposals@[id2]);
        }
        assert forall|i: int| 0 <= i < self.pending_list@.len() implies {
            let id2 = #[trigger] self.pending_list@[i];
            &&& self.proposals@.contains_key(id2)
            &&& !self.proposals@[id2].executed
        } by {
            let id2 = self.pending_list@[i];
            assert(self.pending_list@.contains(id2));
            assert(pre.pending_list@.contains(id2) && id2 != proposal_id);
            let k = choose|k: int|
                0 <= k < pre.pending_list@.len() && pre.pending_list@[k] == id2;
            assert(pre.proposals@.contains_key(id2) && !pre.proposals@[id2].executed);
        }
    }

    /// Casts an approval. A vote on an expired proposal tears the proposal
    /// down and reports the expiry instead; voting twice, or after
    /// rejecting, fails without effect. When the new approval meets the
    /// threshold and no time-lock is still running, execution happens within
    /// this call; if that execution fails, the whole call (the vote
    /// included) has no effect.
    pub fn approve_proposal(
        &mut self,
        approver: u64,
        proposal_id: u64,
        now: u64,
        membership: Option<i128>,
    ) -> (r: Result<(), AccessControlError>)
        requires
            old(self).wf(),
        ensures
            final(self).wf(),
            old(self).stats_balanced() ==> final(self).stats_balanced(),
            ({
                let s = *old(self);
                if !s.admin_ok(approver) {
                    r == Err::<(), AccessControlError>(AccessControlError::AdminRequired)
                        && *final(self) == s
                } else if !s.proposals@.contains_key(proposal_id) {
                    r == Err::<(), AccessControlError>(AccessControlError::ProposalNotFound)
                        && *final(self) == s
                } else {
                    let p = s.proposals@[proposal_id];
                    if p.executed {
                        r == Err::<(), AccessControlError>(
                            AccessControlError::ProposalAlreadyExecuted,
                        ) && *final(self) == s
                    } else if now > p.expiry {
                        r == Err::<(), AccessControlError>(AccessControlError::ProposalExpired)
                            && s.spec_expired_teardown(*final(self), proposal_id)
                    } else if p.approvals@.contains(approver) {
                        r == Err::<(), AccessControlError>(AccessControlError::AlreadyApproved)
                            && *final(self) == s
                    } else if p.rejections@.contains(approver) {
                        r == Err::<(), AccessControlError>(AccessControlError::AlreadyRejected)
                            && *final(self) == s
                    } else if p.approvals@.len() + 1 >= p.required_signatures && (match p
                        .time_lock_until {
                        Some(t) => now >= t,
                        None => true,
                    }) {
                        match s.spec_action_check(p.action, membership) {
                            Err(e) => r == Err::<(), AccessControlError>(e) && *final(self) == s,
                            Ok(()) => r == Ok::<(), AccessControlError>(())
                                && s.spec_execute_commit(
                                *final(self),
                                proposal_id,
                                p.approvals@.push(approver),
                                p.rejections@,
                            ),
                        }
                    } else {
                        &&& r == Ok::<(), AccessControlError>(())
                        &&& final(self).proposals@.contains_key(proposal_id)
                        &&& record_evolved(
                            final(self).proposals@[proposal_id],
                            p,
                            p.approvals@.push(approver),
                            p.rejections@,
                            false,
                        )
                        &&& final(self).proposals@.remove(proposal_id) == s.proposals@.remove(
                            proposal_id,
                        )
                        &&& *final(self) == (AccessControlModule {
                            proposals: final(self).proposals,
                            ..s
                        })
                    }
                }
            }),
    {
        if let Err(e) = self.require_admin(approver) {
            return Err(e);
        }
        let (executed, expiry, already_approved, already_rejected, approvals_len, req, tl) = match self
            .proposals
            .get(&proposal_id) {
            Some(p) => (p.executed, p.expiry, vec_contains(&p.approvals, approver), vec_contains(
                &p.rejections,
                approver,
            ), p.approvals.len(), p.required_signatures, p.time_lock_until),
            None => {
                return Err(AccessControlError::ProposalNotFound);
            },
        };
        if executed {
            return Err(AccessControlError::ProposalAlreadyExecuted);
        }
        if now > expiry {
            self.expire_entry(proposal_id);
            return Err(AccessControlError::ProposalExpired);
        }
        if already_approved {
            return Err(AccessControlError::AlreadyApproved);
        }
        if already_rejected {
            return Err(AccessControlError::AlreadyRejected);
        }
        proof {
            assert(req >= 1);
        }
        let can_execute = approvals_len >= (req - 1) as usize;
        let time_lock_passed = match tl {
            Some(t) => now >= t,
            None => true,
        };
        if can_execute && time_lock_passed {
            let check = match self.proposals.get(&proposal_id) {
                Some(p) => self.action_check(&p.action, membership),
                None => Err(AccessControlError::ProposalNotFound),
            };
            if let Err(e) = check {
                return Err(e);
            }
            let mut p = match self.proposals.remove(&proposal_id) {
                Some(p) => p,
                None => {
                    return Err(AccessControlError::ProposalNotFound);
                },
            };
            p.approvals.push(approver);
            self.apply_action(&p.action);
            p.executed = true;
            self.proposals.insert(proposal_id, p);
            let new_list = vec_filter_out(&self.pending_list, proposal_id);
            self.pending_list = new_list;
            proof {
                lemma_remove_id(old(self).pending_list@, proposal_id);
                assert(old(self).pending_list@.contains(proposal_id));
                assert(self.proposals@.remove(proposal_id) =~= old(self).proposals@.remove(
                    proposal_id,
                ));
            }
            self.stats.total_executed = self.stats.total_executed + 1;
            self.stats.pending_count = self.stats.pending_count - 1;
            proof {
                self.lemma_commit_wf(*old(self), proposal_id, membership);
            }
            return Ok(());
        }
        let mut p = match self.proposals.remove(&proposal_id) {
            Some(p) => p,
            None => {
                return Err(AccessControlError::ProposalNotFound);
            },
        };
        p.approvals.push(approver);
        self.proposals.insert(proposal_id, p);
        proof {
            assert(self.proposals@.remove(proposal_id) =~= old(self).proposals@.remove(
                proposal_id,
            ));
            let q = self.proposals@[proposal_id];
            let p0 = old(self).proposals@[proposal_id];
            assert(q.approvals@ == p0.approvals@.push(approver));
            assert forall|i: int, j: int| 0 <= i < j < q.approvals@.len() implies q.approvals@[i]
                != q.approvals@[j] by {
                if j == q.approvals@.len() - 1 {
                    assert(p0.approvals@.contains(p0.approvals@[i]));
                }
            }
            assert forall|a: u64| q.approvals@.contains(a) implies !q.rejections@.contains(a) by {
                vstd::seq_lib::lemma_seq_contains_after_push(p0.approvals@, approver, a);
            }
            self.lemma_vote_update_wf(*old(self), proposal_id);
        }
        Ok(())
    }

    /// Casts a rejection. The same guards apply as for approvals; once the
    /// rejection count exceeds `max(1, |admins| / 3)`, the proposal is torn
    /// down, counted as rejected, and the deciding caller is told so.
    pub fn reject_proposal(&mut self, rejecter: u64, proposal_id: u64, now: u64) -> (r: Result<
        (),
        AccessControlError,
    >)
        requires
            old(self).wf(),
        ensures
            final(self).wf(),
            old(self).stats_balanced() ==> final(self).stats_balanced(),
            ({
                let s = *old(self);
                if !s.admin_ok(rejecter) {
                    r == Err::<(), AccessControlError>(AccessControlError::AdminRequired)
                        && *final(self) == s
                } else if !s.proposals@.contains_key(proposal_id) {
                    r == Err::<(), AccessControlError>(AccessControlError::ProposalNotFound)
                        && *final(self) == s
                } else {
                    let p = s.proposals@[proposal_id];
                    if p.executed {
                        r == Err::<(), AccessControlError>(
                            AccessControlError::ProposalAlreadyExecuted,
                        ) && *final(self) == s
                    } else if now > p.expiry {
                        r == Err::<(), AccessControlError>(AccessControlError::ProposalExpired)
                            && s.spec_expired_teardown(*final(self), proposal_id)
                    } else if p.rejections@.contains(rejecter) {
                        r == Err::<(), AccessControlError>(AccessControlError::AlreadyRejected)
                            && *final(self) == s
                    } else if p.approvals@.contains(rejecter) {
                        r == Err::<(), AccessControlError>(AccessControlError::AlreadyApproved)
                            && *final(self) == s
                    } else {
                        match s.multisig {
                            None => r == Err::<(), AccessControlError>(
                                AccessControlError::MultisigNotEnabled,
                            ) && *final(self) == s,
                            Some(cfg) => {
                                let threshold = if cfg.admins@.len() as int / 3 < 1 {
                                    1int
                                } else {
                                    cfg.admins@.len() as int / 3
                                };
                                if p.rejections@.len() + 1 > threshold {
                                    r == Err::<(), AccessControlError>(
                                        AccessControlError::ProposalRejected,
                                    ) && s.spec_rejected_teardown(*final(self), proposal_id)
                                } else {
                                    &&& r == Ok::<(), AccessControlError>(())
                                    &&& final(self).proposals@.contains_key(proposal_id)
                                    &&& record_evolved(
                                        final(self).proposals@[proposal_id],
                                        p,
                                        p.approvals@,
                                        p.rejections@.push(rejecter),
                                        false,
                                    )
                                    &&& final(self).proposals@.remove(proposal_id)
                                        == s.proposals@.remove(proposal_id)
                                    &&& *final(self) == (AccessControlModule {
                                        proposals: final(self).proposals,
                                        ..s
                                    })
                                }
                            },
                        }
                    }
                }
            }),
    {
        if let Err(e) = self.require_admin(rejecter) {
            return Err(e);
        }
        let (executed, expiry, already_approved, already_rejected, rejections_len) = match self
            .proposals
            .get(&proposal_id) {
            Some(p) => (p.executed, p.expiry, vec_contains(&p.approvals, rejecter), vec_contains(
                &p.rejections,
                rejecter,
            ), p.rejections.len()),
            None => {
                return Err(AccessControlError::ProposalNotFound);
            },
        };
        if executed {
            return Err(AccessControlError::ProposalAlreadyExecuted);
        }
        if now > expiry {
            self.expire_entry(proposal_id);
            return Err(AccessControlError::ProposalExpired);
        }
        if already_rejected {
            return Err(AccessControlError::AlreadyRejected);
        }
        if already_approved {
            return Err(AccessControlError::AlreadyApproved);
        }
        let admins_len = match &self.multisig {
            Some(c) => c.admins.len(),
            None => {
                return Err(AccessControlError::MultisigNotEnabled);
            },
        };
        let third = admins_len / 3;
        let rejection_threshold = if third < 1 {
            1
        } else {
            third
        };
        if rejections_len >= rejection_threshold {
            self.proposals.remove(&proposal_id);
            let new_list = vec_filter_out(&self.pending_list, proposal_id);
            self.pending_list = new_list;
            proof {
                lemma_remove_id(old(self).pending_list@, proposal_id);
                assert(old(self).pending_list@.contains(proposal_id));
            }
            self.stats.total_rejected = self.stats.total_rejected + 1;
            self.stats.pending_count = self.stats.pending_count - 1;
            proof {
                self.lemma_teardown_wf(*old(self), proposal_id);
            }
            return Err(AccessControlError::ProposalRejected);
        }
        let mut p = match self.proposals.remove(&proposal_id) {
            Some(p) => p,
            None => {
                return Err(AccessControlError::ProposalNotFound);
            },
        };
        p.rejections.push(rejecter);
        self.proposals.insert(proposal_id, p);
        proof {
            assert(self.proposals@.remove(proposal_id) =~= old(self).proposals@.remove(
                proposal_id,
            ));
            let q = self.proposals@[proposal_id];
            let p0 = old(self).proposals@[proposal_id];
            assert(q.rejections@ == p0.rejections@.push(rejecter));
            assert forall|i: int, j: int| 0 <= i < j < q.rejections@.len() implies q.rejections@[i]
                != q.rejections@[j] by {
                if j == q.rejections@.len() - 1 {
                    assert(p0.rejections@.contains(p0.rejections@[i]));
                }
            }
            assert forall|a: u64| q.approvals@.contains(a) implies !q.rejections@.contains(a) by {
                vstd::seq_lib::lemma_seq_contains_after_push(p0.rejections@, rejecter, a);
            }
            self.lemma_vote_update_wf(*old(self), proposal_id);
        }
        Ok(())
    }

    /// Withdraws a proposal: only its proposer may do so, and only before
    /// execution. The proposal leaves the pending index without being
    /// counted in any terminal counter, so this is the one operation after
    /// which the stats ledger stops balancing.
    pub fn cancel_proposal(&mut self, proposer: u64, proposal_id: u64) -> (r: Result<
        (),
        AccessControlError,
    >)
        requires
            old(self).wf(),
        ensures
            final(self).wf(),
            ({
                let s = *old(self);
                if !s.proposals@.contains_key(proposal_id) {
                    r == Err::<(), AccessControlError>(AccessControlError::ProposalNotFound)
                        && *final(self) == s
                } else {
                    let p = s.proposals@[proposal_id];
                    if p.proposer != proposer {
                        r == Err::<(), AccessControlError>(AccessControlError::Unauthorized)
                            && *final(self) == s
                    } else if p.executed {
                        r == Err::<(), AccessControlError>(
                            AccessControlError::ProposalAlreadyExecuted,
                        ) && *final(self) == s
                    } else {
                        r == Ok::<(), AccessControlError>(()) && s.spec_cancelled_teardown(
                            *final(self),
                            proposal_id,
                        )
                    }
                }
            }),
    {
        let (record_proposer, executed) = match self.proposals.get(&proposal_id) {
            Some(p) => (p.proposer, p.executed),
            None => {
                return Err(AccessControlError::ProposalNotFound);
            },
        };
        if record_proposer != proposer {
            return Err(AccessControlError::Unauthorized);
        }
        if executed {
            return Err(AccessControlError::ProposalAlreadyExecuted);
        }
        self.proposals.remove(&proposal_id);
        let new_list = vec_filter_out(&self.pending_list, proposal_id);
        self.pending_list = new_list;
        proof {
            lemma_remove_id(old(self).pending_list@, proposal_id);
            assert(old(self).pending_list@.contains(proposal_id));
        }
        self.stats.pending_count = self.stats.pending_count - 1;
        proof {
            self.lemma_teardown_wf(*old(self), proposal_id);
        }
        Ok(())
    }

    /// Sweeps the pending index, tearing down every proposal whose expiry
    /// has passed and counting each as expired exactly once. Callable by
    /// anyone; returns how many proposals were cleaned up.
    pub fn cleanup_expired_proposals(&mut self, now: u64) -> (r: Result<u32, AccessControlError>)
        requires
            old(self).wf(),
        ensures
            final(self).wf(),
            old(self).stats_balanced() ==> final(self).stats_balanced(),
            ({
                let s = *old(self);
                let swept = swept_count(s.pending_list@, s.proposals@, now);
                &&& r == Ok::<u32, AccessControlError>(swept as u32)
                &&& final(self).pending_list@ == live_after_cleanup(
                    s.pending_list@,
                    s.proposals@,
                    now,
                )
                &&& (forall|id: u64| #[trigger]
                    final(self).proposals@.contains_key(id) <==> (s.proposals@.contains_key(id)
                        && !(s.pending_list@.contains(id) && is_swept(s.proposals@, id, now))))
                &&& (forall|id: u64| #[trigger]
                    final(self).proposals@.contains_key(id) ==> final(self).proposals@[id]
                        == s.proposals@[id])
                &&& final(self).stats.total_expired == s.stats.total_expired + swept
                &&& final(self).stats.pending_count == s.stats.pending_count - swept
                &&& final(self).stats.total_created == s.stats.total_created
                &&& final(self).stats.total_executed == s.stats.total_executed
                &&& final(self).stats.total_rejected == s.stats.total_rejected
                &&& *final(self) == (AccessControlModule {
                    proposals: final(self).proposals,
                    pending_list: final(self).pending_list,
                    stats: final(self).stats,
                    ..s
                })
            }),
    {
        let ids = vec_copy(&self.pending_list);
        let mut new_list: Vec<u64> = Vec::new();
        let mut cleaned: u32 = 0;
        let mut i: usize = 0;
        while i < ids.len()
            invariant
                old(self).wf(),
                ids@ == old(self).pending_list@,
                i <= ids@.len(),
                new_list@ == live_after_cleanup(ids@.take(i as int), old(self).proposals@, now),
                cleaned as int == swept_count(ids@.take(i as int), old(self).proposals@, now),
                cleaned <= i,
                forall|id: u64| #[trigger]
                    self.proposals@.contains_key(id) <==> (old(self).proposals@.contains_key(id)
                        && !(ids@.take(i as int).contains(id) && is_swept(
                        old(self).proposals@,
                        id,
                        now,
                    ))),
                forall|id: u64| #[trigger]
                    self.proposals@.contains_key(id) ==> self.proposals@[id]
                        == old(self).proposals@[id],
                self.stats.total_expired == old(self).stats.total_expired + cleaned,
                self.stats.pending_count == old(self).stats.pending_count - cleaned,
                self.stats.total_created == old(self).stats.total_created,
                self.stats.total_executed == old(self).stats.total_executed,
                self.stats.total_rejected == old(self).stats.total_rejected,
                self.pending_list == old(self).pending_list,
                *self == (AccessControlModule {
                    proposals: self.proposals,
                    stats: self.stats,
                    ..*old(self)
                }),
            decreases ids@.len() - i,
        {
            let id = ids[i];
            proof {
                assert(ids@.take(i + 1 as int) =~= ids@.take(i as int).push(id));
                lemma_cleanup_push(ids@.take(i as int), id, old(self).proposals@, now);
                assert(!ids@.take(i as int).contains(id)) by {
                    if ids@.take(i as int).contains(id) {
                        let k = choose|k: int|
                            0 <= k < i && ids@.take(i as int)[k] == id;
                        assert(ids@[k] == id && ids@[i as int] == id);
                    }
                }
                assert(old(self).proposals@.contains_key(id) && !old(
                    self,
                ).proposals@[id].executed) by {
                    assert(old(self).pending_list@[i as int] == id);
                }
                assert(self.proposals@.contains_key(id));
            }
            let swept = match self.proposals.get(&id) {
                Some(p) => !p.executed && now > p.expiry,
                None => false,
            };
            proof {
                assert(swept == is_swept(old(self).proposals@, id, now));
                if swept {
                    assert(old(self).stats.total_executed + old(self).stats.total_rejected + old(
                        self,
                    ).stats.total_expired + old(self).stats.pending_count <= old(
                        self,
                    ).stats.total_created);
                }
            }
            if swept {
                self.proposals.remove(&id);
                cleaned = cleaned + 1;
                self.stats.total_expired = self.stats.total_expired + 1;
                self.stats.pending_count = self.stats.pending_count - 1;
            } else {
                new_list.push(id);
            }
            proof {
                assert forall|id2: u64| #[trigger]
                    self.proposals@.contains_key(id2) <==> (old(self).proposals@.contains_key(id2)
                        && !(ids@.take(i + 1 as int).contains(id2) && is_swept(
                        old(self).proposals@,
                        id2,
                        now,
                    ))) by {
                    vstd::seq_lib::lemma_seq_contains_after_push(ids@.take(i as int), id, id2);
                }
            }
            i = i + 1;
        }
        proof {
            assert(ids@.take(ids@.len() as int) =~= ids@);
        }
        self.pending_list = new_list;
        proof {
            let pre = *old(self);
            lemma_cleanup_props(pre.pending_list@, pre.proposals@, now);
            assert forall|id2: u64| #[trigger] self.proposals@.contains_key(id2) implies {
                let p = self.proposals@[id2];
                &&& p.id == id2
                &&& id2 < self.proposal_counter
                &&& p.votes_wf()
                &&& (p.executed || self.pending_list@.contains(id2))
            } by {
                assert(pre.proposals@.contains_key(id2));
                assert(self.proposals@[id2] == pre.proposals@[id2]);
                if !pre.proposals@[id2].executed {
                    assert(pre.pending_list@.contains(id2));
                    assert(!is_swept(pre.proposals@, id2, now));
                    assert(self.pending_list@.contains(id2));
                }
            }
            assert forall|i2: int| 0 <= i2 < self.pending_list@.len() implies {
                let id2 = #[trigger] self.pending_list@[i2];
                &&& self.proposals@.contains_key(id2)
                &&& !self.proposals@[id2].executed
            } by {
                let id2 = self.pending_list@[i2];
                assert(pre.pending_list@.contains(id2));
                assert(self.pending_list@.contains(id2));
                assert(!is_swept(pre.proposals@, id2, now));
                let k = choose|k: int|
                    0 <= k < pre.pending_list@.len() && pre.pending_list@[k] == id2;
                assert(pre.proposals@.contains_key(id2) && !pre.proposals@[id2].executed);
                assert(self.proposals@.contains_key(id2));
            }
            if !pre.initialized {
                assert(pre.pending_list@.len() == 0);
                assert(self.proposals@ =~= Map::<u64, PendingProposal>::empty());
                assert(self.pending_list@ =~= Seq::<u64>::empty());
                assert(self.stats == pre.stats);
            }
        }
        Ok(cleaned)
    }

    /// The full record of a proposal, when one with this id is known.
    pub fn get_proposal(&self, proposal_id: u64) -> (r: Option<&PendingProposal>)
        ensures
            match r {
                Some(p) => self.proposals@.contains_key(proposal_id) && *p
                    == self.proposals@[proposal_id],
                None => !self.proposals@.contains_key(proposal_id),
            },
    {
        self.proposals.get(&proposal_id)
    }

    /// The ids of all live proposals, oldest first.
    pub fn get_pending_proposals(&self) -> (r: Vec<u64>)
        ensures
            r@ == self.pending_list@,
    {
        vec_copy(&self.pending_list)
    }

    /// The running lifecycle counters.
    pub fn get_proposal_stats(&self) -> (r: ProposalStats)
        ensures
            r == self.stats,
    {
        self.stats
    }

    /// The committee member list, empty outside committee mode.
    pub fn get_multisig_admins(&self) -> (r: Vec<u64>)
        ensures
            r@ == (match self.multisig {
                Some(c) => c.admins@,
                None => Seq::<u64>::empty(),
            }),
    {
        match &self.multisig {
            Some(c) => vec_copy(&c.admins),
            None => Vec::new(),
        }
    }

    /// The standard approval threshold, zero outside committee mode.
    pub fn get_multisig_threshold(&self) -> (r: u32)
        ensures
            r == (match self.multisig {
                Some(c) => c.required_signatures,
                None => 0u32,
            }),
    {
        match &self.multisig {
            Some(c) => c.required_signatures,
            None => 0,
        }
    }

    /// Direct replacement of the committee configuration is never allowed:
    /// after the gates pass, the caller is still directed to the proposal
    /// path. The call always fails and changes nothing.
    pub fn update_multisig_config(&mut self, caller: u64, new_config: MultiSigConfig) -> (r: Result<
        (),
        AccessControlError,
    >)
        requires
            old(self).wf(),
        ensures
            final(self).wf(),
            *final(self) == *old(self),
            ({
                let s = *old(self);
                if !s.admin_ok(caller) {
                    r == Err::<(), AccessControlError>(AccessControlError::AdminRequired)
                } else if !s.spec_multisig_enabled() {
                    r == Err::<(), AccessControlError>(AccessControlError::MultisigNotEnabled)
                } else if !new_config.spec_valid() {
                    r == Err::<(), AccessControlError>(AccessControlError::InvalidMultisigConfig)
                } else {
                    r == Err::<(), AccessControlError>(AccessControlError::AdminRequired)
                }
            }),
    {
        if let Err(e) = self.require_admin(caller) {
            return Err(e);
        }
        if !self.multisig.is_some() {
            return Err(AccessControlError::MultisigNotEnabled);
        }
        if !new_config.validate() {
            return Err(AccessControlError::InvalidMultisigConfig);
        }
        Err(AccessControlError::AdminRequired)
    }

    /// The executable form of [`Self::spec_action_check`].
    fn action_check(&self, action: &ProposalAction, membership: Option<i128>) -> (r: Result<
        (),
        AccessControlError,
    >)
        ensures
            r == self.spec_action_check(*action, membership),
    {
        match action {
            ProposalAction::SetRole(_, role) => self.check_assignment(role, membership),
            ProposalAction::UpdateConfig(_) => Ok(()),
            ProposalAction::Pause => Ok(()),
            ProposalAction::Unpause => Ok(()),
            ProposalAction::UpdateMultisigConfig(c) => {
                if !c.validate() {
                    Err(AccessControlError::InvalidMultisigConfig)
                } else if has_duplicate(&c.admins) {
                    Err(AccessControlError::DuplicateAdmin)
                } else {
                    Ok(())
                }
            },
            ProposalAction::EmergencyPause(_) => Ok(()),
            ProposalAction::BatchBlacklist(_) => Ok(()),
            ProposalAction::AddAdmin(a) => match &self.multisig {
                Some(c) => {
                    if vec_contains(&c.admins, *a) {
                        Err(AccessControlError::DuplicateAdmin)
                    } else {
                        Ok(())
                    }
                },
                None => Ok(()),
            },
            ProposalAction::RemoveAdmin(_) => match &self.multisig {
                Some(c) => {
                    if c.admins.len() as u64 <= c.emergency_threshold as u64 + 1 {
                        Err(AccessControlError::CannotRemoveLastAdmin)
                    } else {
                        Ok(())
                    }
                },
                None => Ok(()),
            },
            ProposalAction::TransferAdmin(_) => Err(AccessControlError::InvalidProposalType),
            ProposalAction::ScheduleUpgrade(_, _) => Err(AccessControlError::InvalidProposalType),
            ProposalAction::EmergencyAdminTransfer(_) => Err(
                AccessControlError::InvalidProposalType,
            ),
        }
    }

    /// The assignment-path membership test on a borrowed role.
    fn check_assignment(&self, role: &UserRole, membership: Option<i128>) -> (r: Result<
        (),
        AccessControlError,
    >)
        ensures
            r == spec_validate_assignment(self.config, *role, membership),
    {
        if self.config.require_membership_for_roles
            && matches!(role, UserRole::Member | UserRole::Admin) {
            if self.config.membership_token_contract.is_some() {
                match membership {
                    Some(b) => if b < self.config.min_token_balance {
                        Err(AccessControlError::InsufficientMembership)
                    } else {
                        Ok(())
                    },
                    None => Err(AccessControlError::MembershipTokenCallFailed),
                }
            } else {
                Err(AccessControlError::MembershipTokenNotSet)
            }
        } else {
            Ok(())
        }
    }

    /// Applies a supported action's side effect to the state. Every failure
    /// condition has been checked beforehand, so this always succeeds.
    fn apply_action(&mut self, action: &ProposalAction)
        requires
            !(*action is TransferAdmin),
            !(*action is ScheduleUpgrade),
            !(*action is EmergencyAdminTransfer),
        ensures
            spec_action_effect(*old(self), *final(self), *action),
            final(self).proposals == old(self).proposals,
            final(self).pending_list == old(self).pending_list,
            final(self).stats == old(self).stats,
            final(self).proposal_counter == old(self).proposal_counter,
            rest_unchanged(*old(self), *final(self)),
    {
        match action {
            ProposalAction::SetRole(user, role) => {
                self.roles.insert(*user, *role);
            },
            ProposalAction::UpdateConfig(c) => {
                self.config = *c;
            },
            ProposalAction::Pause => {
                self.paused = true;
            },
            ProposalAction::Unpause => {
                self.paused = false;
            },
            ProposalAction::UpdateMultisigConfig(c) => {
                let new_cfg = MultiSigConfig {
                    admins: vec_copy(&c.admins),
                    required_signatures: c.required_signatures,
                    critical_threshold: c.critical_threshold,
                    emergency_threshold: c.emergency_threshold,
                    time_lock_duration: c.time_lock_duration,
                    max_pending_proposals: c.max_pending_proposals,
                    proposal_expiry_duration: c.proposal_expiry_duration,
                };
                self.multisig = Some(new_cfg);
            },
            ProposalAction::EmergencyPause(_) => {
                self.paused = true;
                self.emergency_mode = true;
            },
            ProposalAction::BatchBlacklist(users) => {
                let ghost pre = *self;
                let mut i: usize = 0;
                while i < users.len()
                    invariant
                        i <= users@.len(),
                        forall|a: u64|
                            #[trigger] self.blacklist@.contains(a) <==> pre.blacklist@.contains(a)
                                || users@.take(i as int).contains(a),
                        *self == (AccessControlModule { blacklist: self.blacklist, ..pre }),
                    decreases users@.len() - i,
                {
                    self.blacklist.insert(users[i]);
                    proof {
                        assert(users@.take(i + 1 as int) =~= users@.take(i as int).push(
                            users@[i as int],
                        ));
                        assert forall|a: u64|
                            #[trigger] self.blacklist@.contains(a) <==> pre.blacklist@.contains(a)
                                || users@.take(i + 1 as int).contains(a) by {
                            vstd::seq_lib::lemma_seq_contains_after_push(
                                users@.take(i as int),
                                users@[i as int],
                                a,
                            );
                        }
                    }
                    i = i + 1;
                }
                proof {
                    assert(users@.take(users@.len() as int) =~= users@);
                }
            },
            ProposalAction::AddAdmin(a) => {
                if self.multisig.is_some() {
                    let new_admin = *a;
                    match &mut self.multisig {
                        Some(cfg) => {
                            cfg.admins.push(new_admin);
                        },
                        None => {},
                    }
                    self.roles.insert(new_admin, UserRole::Admin);
                }
            },
            ProposalAction::RemoveAdmin(a) => {
                if self.multisig.is_some() {
                    let admin_to_remove = *a;
                    let new_admins = match &self.multisig {
                        Some(cfg) => vec_filter_out(&cfg.admins, admin_to_remove),
                        None => Vec::new(),
                    };
                    match &mut self.multisig {
                        Some(cfg) => {
                            cfg.admins = new_admins;
                        },
                        None => {},
                    }
                    self.roles.insert(admin_to_remove, UserRole::Guest);
                }
            },
            ProposalAction::TransferAdmin(_) => {},
            ProposalAction::ScheduleUpgrade(_, _) => {},
            ProposalAction::EmergencyAdminTransfer(_) => {},
        }
    }

    /// A proposal created and left pending.
    pub open spec fn spec_created_pending(
        self,
        post: Self,
        id: u64,
        proposer: u64,
        action: ProposalAction,
        cfg: MultiSigConfig,
        now: u64,
    ) -> bool {
        &&& post.proposals@.contains_key(id)
        &&& new_record(post.proposals@[id], id, proposer, action, cfg, now, false)
        &&& post.proposals@.remove(id) == self.proposals@
        &&& post.pending_list@ == self.pending_list@.push(id)
        &&& post.stats == (ProposalStats {
            total_created: (self.stats.total_created + 1) as u64,
            pending_count: (self.stats.pending_count + 1) as u32,
            ..self.stats
        })
        &&& post.proposal_counter == id + 1
        &&& post == (AccessControlModule {
            proposals: post.proposals,
            pending_list: post.pending_list,
            stats: post.stats,
            proposal_counter: post.proposal_counter,
            ..self
        })
    }
}

} // verus!
