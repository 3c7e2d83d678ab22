//! Access control: the administrator, roles, the admin pool and multi-signature
//! proposals.

use std::collections::HashMap;
use std::collections::HashSet;
use vstd::prelude::*;
use vstd::std_specs::iter::IteratorSpec;
use crate::error::AdminError;
use crate::snapshot::{export_set, import_set, lemma_pairs_to_map_exact, pairs_agree, pairs_cover, pairs_to_map};
use crate::types::{AccountId, CriticalAction, Role};

verus! {

broadcast use vstd::std_specs::hash::group_hash_axioms, vstd::seq_lib::group_seq_properties;

/// Whether `a` occurs in `v`.
pub fn contains_account(v: &Vec<AccountId>, a: AccountId) -> (r: bool)
    ensures
        r == v@.contains(a),
{
    let mut i: usize = 0;
    while i < v.len()
        invariant
            i <= v.len(),
            forall|j: int| 0 <= j < i ==> v@[j] != a,
        decreases v.len() - i,
    {
        if v[i] == a {
            assert(v@[i as int] == a);
            return true;
        }
        i = i + 1;
    }
    false
}

/// A copy of a vector of accounts.
pub fn copy_accounts(v: &Vec<AccountId>) -> (r: Vec<AccountId>)
    ensures
        r@ == v@,
{
    let r = v.clone();
    assert(r@ =~= v@);
    r
}

/// A proposal for a critical action, approved by members of the admin pool.
#[derive(Debug)]
pub struct Proposal {
    pub creator: AccountId,
    /// The type of critical action this proposal addresses.
    pub action_type: CriticalAction,
    /// Description or metadata about the proposal.
    pub description: String,
    pub approvals: Vec<AccountId>,
    pub executed: bool,
}

/// A proposal as plain values.
pub struct ProposalView {
    pub creator: AccountId,
    pub action_type: CriticalAction,
    pub description: Seq<char>,
    pub approvals: Seq<AccountId>,
    pub executed: bool,
}

impl View for Proposal {
    type V = ProposalView;

    open spec fn view(&self) -> ProposalView {
        ProposalView {
            creator: self.creator,
            action_type: self.action_type,
            description: self.description@,
            approvals: self.approvals@,
            executed: self.executed,
        }
    }
}

impl Proposal {
    /// A copy of the proposal.
    pub fn duplicate(&self) -> (r: Proposal)
        ensures
            r@ == self@,
    {
        Proposal {
            creator: self.creator,
            action_type: self.action_type,
            description: self.description.clone(),
            approvals: copy_accounts(&self.approvals),
            executed: self.executed,
        }
    }
}

/// The access-control state as plain values.
pub struct AdminView {
    /// The primary administrator.
    pub admin: Option<AccountId>,
    /// The (role, account) pairs that have been granted.
    pub roles: Set<(Role, AccountId)>,
    /// The admin pool, once configured.
    pub pool: Option<Seq<AccountId>>,
    /// The quorum threshold, once configured.
    pub threshold: Option<u32>,
    /// The critical actions that require multi-signature approval.
    pub multisig_required: Set<CriticalAction>,
    /// The proposals by identifier.
    pub proposals: Map<u64, ProposalView>,
    /// The identifier the next proposal receives.
    pub next_proposal_id: u64,
}

impl AdminView {
    /// The state before anything is configured.
    pub open spec fn initial() -> AdminView {
        AdminView {
            admin: None,
            roles: Set::empty(),
            pool: None,
            threshold: None,
            multisig_required: Set::empty(),
            proposals: Map::empty(),
            next_proposal_id: 0,
        }
    }

    /// An account holds a role when it was granted the role or the Admin role.
    pub open spec fn has_role(self, role: Role, a: AccountId) -> bool {
        self.roles.contains((Role::Admin, a)) || self.roles.contains((role, a))
    }

    /// The configured pool, or the primary administrator alone, or no one.
    pub open spec fn admin_pool(self) -> Seq<AccountId> {
        match self.pool {
            Some(p) => p,
            None => match self.admin {
                Some(a) => seq![a],
                None => Seq::empty(),
            },
        }
    }

    /// The configured threshold, 1 when none is configured.
    pub open spec fn threshold_value(self) -> u32 {
        match self.threshold {
            Some(t) => t,
            None => 1,
        }
    }

    pub open spec fn is_pool_member(self, a: AccountId) -> bool {
        self.admin_pool().contains(a)
    }

    /// A stored proposal is ready when its approvals reach the threshold.
    pub open spec fn proposal_ready(self, id: u64) -> bool {
        self.proposals[id].approvals.len() >= self.threshold_value()
    }

    /// Why the proposal cannot be executed, if it cannot.
    pub open spec fn execution_refusal(self, id: u64) -> Option<AdminError> {
        if !self.proposals.contains_key(id) {
            Some(AdminError::ProposalNotFound)
        } else if self.proposals[id].executed {
            Some(AdminError::AlreadyExecuted)
        } else if !self.proposal_ready(id) {
            Some(AdminError::ThresholdNotMet)
        } else {
            None
        }
    }

    /// The state with the proposal marked executed.
    pub open spec fn with_executed(self, id: u64) -> AdminView {
        AdminView {
            proposals: self.proposals.insert(id, ProposalView { executed: true, ..self.proposals[id] }),
            ..self
        }
    }

    /// The state with `a` as primary administrator, holding the Admin role.
    pub open spec fn with_admin(self, a: AccountId) -> AdminView {
        AdminView { admin: Some(a), roles: self.roles.insert((Role::Admin, a)), ..self }
    }

    /// Why the proposal cannot stand for `action`, if it cannot.
    pub open spec fn validation_refusal(self, action: CriticalAction, id: u64) -> Option<AdminError> {
        if !self.proposals.contains_key(id) {
            Some(AdminError::ProposalNotFound)
        } else if self.proposals[id].executed {
            Some(AdminError::AlreadyExecuted)
        } else if self.proposals[id].action_type != action {
            Some(AdminError::ActionMismatch)
        } else if !self.proposal_ready(id) {
            Some(AdminError::ThresholdNotMet)
        } else {
            None
        }
    }

    /// Why the pool and threshold cannot be configured, if they cannot.
    pub open spec fn pool_refusal(self, pool: Seq<AccountId>, threshold: u32) -> Option<AdminError> {
        if pool.len() == 0 {
            Some(AdminError::EmptyPool)
        } else if threshold == 0 || threshold > pool.len() {
            Some(AdminError::InvalidThreshold)
        } else {
            None
        }
    }

    /// The state with the pool configured: its first member is the primary
    /// administrator and every member holds the Admin role.
    pub open spec fn with_pool(self, pool: Seq<AccountId>, threshold: u32) -> AdminView {
        AdminView {
            admin: Some(pool[0]),
            roles: self.roles.union(pool.to_set().map(|m: AccountId| (Role::Admin, m))),
            pool: Some(pool),
            threshold: Some(threshold),
            ..self
        }
    }

    /// Why `creator` cannot create a proposal, if it cannot.
    pub open spec fn creation_refusal(self, creator: AccountId) -> Option<AdminError> {
        if !self.is_pool_member(creator) {
            Some(AdminError::NotPoolMember)
        } else if self.next_proposal_id == u64::MAX {
            Some(AdminError::CounterOverflow)
        } else {
            None
        }
    }

    /// The state with a new proposal stored under the next identifier.
    pub open spec fn with_new_proposal(
        self,
        creator: AccountId,
        action_type: CriticalAction,
        description: Seq<char>,
    ) -> AdminView {
        AdminView {
            proposals: self.proposals.insert(
                self.next_proposal_id,
                ProposalView {
                    creator,
                    action_type,
                    description,
                    approvals: seq![creator],
                    executed: false,
                },
            ),
            next_proposal_id: (self.next_proposal_id + 1) as u64,
            ..self
        }
    }

    /// The state with the role granted.
    pub open spec fn with_role(self, role: Role, a: AccountId) -> AdminView {
        AdminView { roles: self.roles.insert((role, a)), ..self }
    }

    /// The state with the role revoked.
    pub open spec fn without_role(self, role: Role, a: AccountId) -> AdminView {
        AdminView { roles: self.roles.remove((role, a)), ..self }
    }

    /// Why `admin` cannot approve the proposal, if it cannot.
    pub open spec fn approval_refusal(self, admin: AccountId, id: u64) -> Option<AdminError> {
        if !self.is_pool_member(admin) {
            Some(AdminError::NotPoolMember)
        } else if !self.proposals.contains_key(id) {
            Some(AdminError::ProposalNotFound)
        } else if self.proposals[id].executed {
            Some(AdminError::AlreadyExecuted)
        } else if self.proposals[id].approvals.contains(admin) {
            Some(AdminError::AlreadyApproved)
        } else {
            None
        }
    }

    /// The state with `admin` added to the proposal's approvals.
    pub open spec fn with_approval(self, admin: AccountId, id: u64) -> AdminView {
        AdminView {
            proposals: self.proposals.insert(
                id,
                ProposalView {
                    approvals: self.proposals[id].approvals.push(admin),
                    ..self.proposals[id]
                },
            ),
            ..self
        }
    }

    /// Whether multi-signature approval governs `action`.
    pub open spec fn multisig_governs(self, action: CriticalAction) -> bool {
        self.multisig_required.contains(action) && self.pool is Some
    }
}

/// Stored proposals as pairs of plain values.
pub open spec fn proposal_pairs_view(ps: Seq<(u64, Proposal)>) -> Seq<(u64, ProposalView)> {
    ps.map_values(|e: (u64, Proposal)| (e.0, e.1@))
}

/// The stored proposals, in some order, each identifier once.
fn export_proposals(m: &HashMap<u64, Proposal>) -> (r: Vec<(u64, Proposal)>)
    ensures
        pairs_to_map(proposal_pairs_view(r@)) == m@.map_values(|p: Proposal| p@),
{
    let mut out: Vec<(u64, Proposal)> = Vec::new();
    for (k, p) in it: m.iter()
        invariant
            out@.len() == it.index(),
            forall|i: int|
                0 <= i < it.index() ==> out@[i].0 == *it.seq()[i].0 && out@[i].1@ == (*it.seq()[
                    i
                ].1)@,
    {
        out.push((*k, p.duplicate()));
    }
    proof {
        let mv = m@.map_values(|p: Proposal| p@);
        let qs = proposal_pairs_view(out@);
        let seq = vstd::std_specs::hash::spec_hash_map_iter(m).remaining();
        assert forall|k: u64| #[trigger] mv.contains_key(k) implies exists|i: int|
            0 <= i < qs.len() && qs[i].0 == k by {
            let j = choose|j: int| 0 <= j < seq.len() && seq[j] == (&k, &m@[k]);
            assert(qs[j].0 == k);
        }
        assert forall|i: int| 0 <= i < qs.len() implies mv.contains_key(#[trigger] qs[i].0)
            && mv[qs[i].0] == qs[i].1 by {
            assert(m@.contains_key(*seq[i].0));
        }
        assert(pairs_agree(qs, mv));
        assert(pairs_cover(qs, mv));
        lemma_pairs_to_map_exact(qs, mv);
    }
    out
}

/// A proposal map holding the given pairs, later ones winning.
fn import_proposals(ps: &Vec<(u64, Proposal)>) -> (r: HashMap<u64, Proposal>)
    ensures
        r@.map_values(|p: Proposal| p@) == pairs_to_map(proposal_pairs_view(ps@)),
{
    let mut m: HashMap<u64, Proposal> = HashMap::new();
    let mut i: usize = 0;
    proof {
        assert(m@.map_values(|p: Proposal| p@) =~= Map::empty());
        assert(proposal_pairs_view(ps@.subrange(0, 0)) =~= Seq::empty());
    }
    while i < ps.len()
        invariant
            i <= ps.len(),
            m@.map_values(|p: Proposal| p@) == pairs_to_map(proposal_pairs_view(ps@.subrange(0, i as int))),
        decreases ps.len() - i,
    {
        let k = ps[i].0;
        let p = ps[i].1.duplicate();
        let ghost before = m@.map_values(|p: Proposal| p@);
        let ghost pv = p@;
        m.insert(k, p);
        proof {
            assert(m@.map_values(|p: Proposal| p@) =~= before.insert(k, pv));
            let cur = proposal_pairs_view(ps@.subrange(0, i + 1));
            assert(cur.drop_last() =~= proposal_pairs_view(ps@.subrange(0, i as int)));
            assert(cur.last() == (k, pv));
        }
        i = i + 1;
    }
    proof {
        assert(ps@.subrange(0, ps@.len() as int) =~= ps@);
    }
    m
}

/// The access-control state as plain, storable values.
pub struct AccessSnapshot {
    pub admin: Option<AccountId>,
    /// Accounts granted the Admin role.
    pub admin_holders: Vec<AccountId>,
    /// Accounts granted the Minter role.
    pub minter_holders: Vec<AccountId>,
    pub pool: Option<Vec<AccountId>>,
    pub threshold: Option<u32>,
    /// Codes of the critical actions that require multi-signature approval.
    pub multisig_codes: Vec<u8>,
    pub proposals: Vec<(u64, Proposal)>,
    pub next_proposal_id: u64,
}

impl View for AccessSnapshot {
    type V = AdminView;

    open spec fn view(&self) -> AdminView {
        AdminView {
            admin: self.admin,
            roles: Set::new(
                |p: (Role, AccountId)|
                    match p.0 {
                        Role::Admin => self.admin_holders@.contains(p.1),
                        Role::Minter => self.minter_holders@.contains(p.1),
                    },
            ),
            pool: match self.pool {
                Some(v) => Some(v@),
                None => None,
            },
            threshold: self.threshold,
            multisig_required: Set::new(|a: CriticalAction| self.multisig_codes@.contains(a.spec_code())),
            proposals: pairs_to_map(proposal_pairs_view(self.proposals@)),
            next_proposal_id: self.next_proposal_id,
        }
    }
}

/// The access-control state.
pub struct AdminState {
    admin: Option<AccountId>,
    admin_holders: HashSet<AccountId>,
    minter_holders: HashSet<AccountId>,
    pool: Option<Vec<AccountId>>,
    threshold: Option<u32>,
    multisig: HashSet<u8>,
    proposals: HashMap<u64, Proposal>,
    next_proposal_id: u64,
}

impl View for AdminState {
    type V = AdminView;

    closed spec fn view(&self) -> AdminView {
        AdminView {
            admin: self.admin,
            roles: Set::new(
                |p: (Role, AccountId)|
                    match p.0 {
                        Role::Admin => self.admin_holders@.contains(p.1),
                        Role::Minter => self.minter_holders@.contains(p.1),
                    },
            ),
            pool: match self.pool {
                Some(v) => Some(v@),
                None => None,
            },
            threshold: self.threshold,
            multisig_required: Set::new(|a: CriticalAction| self.multisig@.contains(a.spec_code())),
            proposals: self.proposals@.map_values(|p: Proposal| p@),
            next_proposal_id: self.next_proposal_id,
        }
    }
}

impl AdminState {
    /// An empty access-control state.
    pub fn new() -> (r: AdminState)
        ensures
            r@ == AdminView::initial(),
    {
        let r = AdminState {
            admin: None,
            admin_holders: HashSet::new(),
            minter_holders: HashSet::new(),
            pool: None,
            threshold: None,
            multisig: HashSet::new(),
            proposals: HashMap::new(),
            next_proposal_id: 0,
        };
        assert(r@.roles =~= Set::empty());
        assert(r@.multisig_required =~= Set::empty());
        assert(r@.proposals =~= Map::empty());
        r
    }

    /// Whether an administrator has been set.
    pub fn has_admin(&self) -> (r: bool)
        ensures
            r == self@.admin is Some,
    {
        self.admin.is_some()
    }

    /// The administrator.
    pub fn get_admin(&self) -> (r: Result<AccountId, AdminError>)
        ensures
            r == (match self@.admin {
                Some(a) => Ok(a),
                None => Err(AdminError::AdminNotSet),
            }),
    {
        match self.admin {
            Some(a) => Ok(a),
            None => Err(AdminError::AdminNotSet),
        }
    }

    /// Demands the administrator's authorization: returns the account that must sign.
    pub fn require_admin(&self) -> (r: Result<AccountId, AdminError>)
        ensures
            r == (match self@.admin {
                Some(a) => Ok(a),
                None => Err(AdminError::AdminNotSet),
            }),
    {
        self.get_admin()
    }

    proof fn lemma_roles_insert(old_s: AdminState, new_s: AdminState, role: Role, a: AccountId)
        requires
            new_s.admin == old_s.admin,
            new_s.pool == old_s.pool,
            new_s.threshold == old_s.threshold,
            new_s.multisig == old_s.multisig,
            new_s.proposals == old_s.proposals,
            new_s.next_proposal_id == old_s.next_proposal_id,
            role == Role::Admin ==> new_s.admin_holders@ == old_s.admin_holders@.insert(a)
                && new_s.minter_holders@ == old_s.minter_holders@,
            role == Role::Minter ==> new_s.minter_holders@ == old_s.minter_holders@.insert(a)
                && new_s.admin_holders@ == old_s.admin_holders@,
        ensures
            new_s@ == (AdminView { roles: old_s@.roles.insert((role, a)), ..old_s@ }),
    {
        assert(new_s@.roles =~= old_s@.roles.insert((role, a)));
    }

    proof fn lemma_roles_remove(old_s: AdminState, new_s: AdminState, role: Role, a: AccountId)
        requires
            new_s.admin == old_s.admin,
            new_s.pool == old_s.pool,
            new_s.threshold == old_s.threshold,
            new_s.multisig == old_s.multisig,
            new_s.proposals == old_s.proposals,
            new_s.next_proposal_id == old_s.next_proposal_id,
            role == Role::Admin ==> new_s.admin_holders@ == old_s.admin_holders@.remove(a)
                && new_s.minter_holders@ == old_s.minter_holders@,
            role == Role::Minter ==> new_s.minter_holders@ == old_s.minter_holders@.remove(a)
                && new_s.admin_holders@ == old_s.admin_holders@,
        ensures
            new_s@ == (AdminView { roles: old_s@.roles.remove((role, a)), ..old_s@ }),
    {
        assert(new_s@.roles =~= old_s@.roles.remove((role, a)));
    }

    fn insert_role(&mut self, role: Role, a: AccountId)
        ensures
            final(self)@ == (AdminView { roles: old(self)@.roles.insert((role, a)), ..old(self)@ }),
    {
        let ghost old_s = *self;
        match role {
            Role::Admin => {
                self.admin_holders.insert(a);
            },
            Role::Minter => {
                self.minter_holders.insert(a);
            },
        }
        proof {
            Self::lemma_roles_insert(old_s, *self, role, a);
        }
    }

    /// Makes `admin` the administrator and grants it the Admin role. Granting
    /// demands the authorization of the administrator then in place, which is
    /// `admin` itself: the returned account must sign.
    pub fn set_admin(&mut self, admin: AccountId) -> (signer: AccountId)
        ensures
            signer == admin,
            final(self)@ == old(self)@.with_admin(admin),
    {
        self.admin = Some(admin);
        self.insert_role(Role::Admin, admin);
        admin
    }

    /// Grants a role. Once an administrator is set, the administrator must sign.
    pub fn grant_role(&mut self, role: Role, address: AccountId) -> (signer: Option<AccountId>)
        ensures
            signer == old(self)@.admin,
            final(self)@ == old(self)@.with_role(role, address),
    {
        let signer = self.admin;
        self.insert_role(role, address);
        signer
    }

    /// Revokes a role; the administrator must sign.
    pub fn revoke_role(&mut self, role: Role, address: AccountId) -> (r: Result<AccountId, AdminError>)
        ensures
            match old(self)@.admin {
                Some(a) => r == Ok::<AccountId, AdminError>(a) && final(self)@ == old(self)@.without_role(
                    role,
                    address,
                ),
                None => r == Err::<AccountId, AdminError>(AdminError::AdminNotSet) && final(self)@
                    == old(self)@,
            },
    {
        let signer = self.require_admin()?;
        let ghost old_s = *self;
        match role {
            Role::Admin => {
                self.admin_holders.remove(&address);
            },
            Role::Minter => {
                self.minter_holders.remove(&address);
            },
        }
        proof {
            Self::lemma_roles_remove(old_s, *self, role, address);
        }
        Ok(signer)
    }

    /// Whether the account holds the role, directly or through the Admin role.
    pub fn has_role(&self, role: Role, address: AccountId) -> (r: bool)
        ensures
            r == self@.has_role(role, address),
    {
        let is_admin = self.admin_holders.contains(&address);
        if is_admin {
            return true;
        }
        match role {
            Role::Admin => false,
            Role::Minter => self.minter_holders.contains(&address),
        }
    }

    /// Demands that the account holds the role; the account must then sign.
    pub fn require_role(&self, role: Role, address: AccountId) -> (r: Result<AccountId, AdminError>)
        ensures
            r == (if self@.has_role(role, address) {
                Ok(address)
            } else {
                Err(AdminError::MissingRole)
            }),
    {
        if !self.has_role(role, address) {
            return Err(AdminError::MissingRole);
        }
        Ok(address)
    }

    /// Configures the admin pool and its quorum threshold. Every member receives
    /// the Admin role and the first member becomes the primary administrator.
    /// When an administrator is already set, that administrator must sign.
    pub fn set_admin_pool(&mut self, pool: Vec<AccountId>, threshold: u32) -> (r: Result<
        Option<AccountId>,
        AdminError,
    >)
        ensures
            r == (match old(self)@.pool_refusal(pool@, threshold) {
                Some(e) => Err(e),
                None => Ok(old(self)@.admin),
            }),
            r is Err ==> final(self)@ == old(self)@,
            r is Ok ==> final(self)@ == old(self)@.with_pool(pool@, threshold),
    {
        if pool.len() == 0 {
            return Err(AdminError::EmptyPool);
        }
        if threshold == 0 || threshold as usize > pool.len() {
            return Err(AdminError::InvalidThreshold);
        }
        let signer = self.admin;
        let ghost old_view = self@;
        let ghost old_s = *self;
        let mut i: usize = 0;
        while i < pool.len()
            invariant
                i <= pool.len(),
                self.admin == old_s.admin,
                self.pool == old_s.pool,
                self.threshold == old_s.threshold,
                self.multisig == old_s.multisig,
                self.proposals == old_s.proposals,
                self.next_proposal_id == old_s.next_proposal_id,
                self.minter_holders@ == old_s.minter_holders@,
                self.admin_holders@ == old_s.admin_holders@.union(pool@.subrange(0, i as int).to_set()),
            decreases pool.len() - i,
        {
            let m = pool[i];
            self.admin_holders.insert(m);
            proof {
                assert(pool@.subrange(0, i + 1) == pool@.subrange(0, i as int).push(m));
                assert(pool@.subrange(0, i as int).push(m).to_set() == pool@.subrange(0, i as int).to_set().insert(m)) by {
                    pool@.subrange(0, i as int).lemma_push_to_set_commute(m);
                }
                assert(self.admin_holders@ =~= old_s.admin_holders@.union(pool@.subrange(0, i + 1).to_set()));
            }
            i = i + 1;
        }
        let first = pool[0];
        proof {
            assert(pool@.subrange(0, pool@.len() as int) == pool@);
        }
        self.admin = Some(first);
        self.threshold = Some(threshold);
        self.pool = Some(pool);
        proof {
            let target = old_view.roles.union(self.pool.unwrap()@.to_set().map(|m: AccountId| (Role::Admin, m)));
            assert forall|p: (Role, AccountId)| #[trigger] self@.roles.contains(p) == target.contains(p) by {
                if p.0 == Role::Admin && self.pool.unwrap()@.to_set().contains(p.1) {
                    assert(self.pool.unwrap()@.to_set().map(|m: AccountId| (Role::Admin, m)).contains((Role::Admin, p.1)));
                }
            }
            assert(self@.roles =~= target);
        }
        Ok(signer)
    }

    /// The admin pool: the configured one, else the administrator alone, else empty.
    pub fn get_admin_pool(&self) -> (r: Vec<AccountId>)
        ensures
            r@ == self@.admin_pool(),
    {
        match &self.pool {
            Some(p) => copy_accounts(p),
            None => match self.admin {
                Some(a) => {
                    let mut v = Vec::new();
                    v.push(a);
                    assert(v@ =~= seq![a]);
                    v
                },
                None => {
                    let v = Vec::new();
                    assert(v@ =~= Seq::<AccountId>::empty());
                    v
                },
            },
        }
    }

    /// The quorum threshold, 1 when none is configured.
    pub fn get_threshold(&self) -> (r: u32)
        ensures
            r == self@.threshold_value(),
    {
        match self.threshold {
            Some(t) => t,
            None => 1,
        }
    }

    /// Whether the account belongs to the admin pool.
    pub fn is_pool_member(&self, address: AccountId) -> (r: bool)
        ensures
            r == self@.is_pool_member(address),
    {
        match &self.pool {
            Some(p) => contains_account(p, address),
            None => match self.admin {
                Some(a) => {
                    proof {
                        assert(seq![a][0] == a);
                    }
                    a == address
                },
                None => false,
            },
        }
    }

    /// Sets whether a critical action requires multi-signature approval; the
    /// administrator must sign.
    pub fn set_multi_sig_required(&mut self, action: CriticalAction, required: bool) -> (r: Result<
        AccountId,
        AdminError,
    >)
        ensures
            match old(self)@.admin {
                Some(a) => r == Ok::<AccountId, AdminError>(a) && final(self)@ == (AdminView {
                    multisig_required: if required {
                        old(self)@.multisig_required.insert(action)
                    } else {
                        old(self)@.multisig_required.remove(action)
                    },
                    ..old(self)@
                }),
                None => r == Err::<AccountId, AdminError>(AdminError::AdminNotSet) && final(self)@
                    == old(self)@,
            },
    {
        let signer = self.require_admin()?;
        let ghost old_view = self@;
        let code = action.code();
        if required {
            self.multisig.insert(code);
        } else {
            self.multisig.remove(&code);
        }
        proof {
            let target = if required {
                old_view.multisig_required.insert(action)
            } else {
                old_view.multisig_required.remove(action)
            };
            assert forall|b: CriticalAction| #[trigger] self@.multisig_required.contains(b) == target.contains(b) by {
                CriticalAction::lemma_code_injective(action, b);
            }
            assert(self@.multisig_required =~= target);
        }
        Ok(signer)
    }

    /// Whether the action requires multi-signature approval.
    pub fn is_multi_sig_required(&self, action: CriticalAction) -> (r: bool)
        ensures
            r == self@.multisig_required.contains(action),
    {
        self.multisig.contains(&action.code())
    }

    /// Whether an admin pool has been configured.
    pub fn is_multi_sig_enabled(&self) -> (r: bool)
        ensures
            r == self@.pool is Some,
    {
        self.pool.is_some()
    }

    /// Demands that the account belongs to the admin pool; it must then sign.
    pub fn require_pool_member(&self, member: AccountId) -> (r: Result<AccountId, AdminError>)
        ensures
            r == (if self@.is_pool_member(member) {
                Ok(member)
            } else {
                Err(AdminError::NotPoolMember)
            }),
    {
        if !self.is_pool_member(member) {
            return Err(AdminError::NotPoolMember);
        }
        Ok(member)
    }

    fn store_proposal(&mut self, id: u64, p: Proposal)
        ensures
            final(self)@ == (AdminView { proposals: old(self)@.proposals.insert(id, p@), ..old(self)@ }),
    {
        let ghost old_view = self@;
        let ghost pv = p@;
        self.proposals.insert(id, p);
        proof {
            assert(self@.proposals =~= old_view.proposals.insert(id, pv));
            assert(self@.roles =~= old_view.roles);
            assert(self@.multisig_required =~= old_view.multisig_required);
        }
    }

    /// Creates a proposal for a critical action. The creator must belong to the
    /// admin pool and must sign; its approval is counted at once.
    pub fn create_proposal(
        &mut self,
        creator: AccountId,
        action_type: CriticalAction,
        description: String,
    ) -> (r: Result<u64, AdminError>)
        ensures
            r == (match old(self)@.creation_refusal(creator) {
                Some(e) => Err(e),
                None => Ok(old(self)@.next_proposal_id),
            }),
            r is Err ==> final(self)@ == old(self)@,
            r is Ok ==> final(self)@ == old(self)@.with_new_proposal(creator, action_type, description@),
    {
        if !self.is_pool_member(creator) {
            return Err(AdminError::NotPoolMember);
        }
        let id = self.next_proposal_id;
        if id == u64::MAX {
            return Err(AdminError::CounterOverflow);
        }
        self.next_proposal_id = id + 1;
        let mut approvals = Vec::new();
        approvals.push(creator);
        assert(approvals@ =~= seq![creator]);
        let proposal = Proposal { creator, action_type, description, approvals, executed: false };
        self.store_proposal(id, proposal);
        Ok(id)
    }

    /// Adds the approval of `admin`, who must belong to the admin pool and must
    /// sign, to a pending proposal.
    pub fn approve_proposal(&mut self, admin: AccountId, proposal_id: u64) -> (r: Result<(), AdminError>)
        ensures
            r == (match old(self)@.approval_refusal(admin, proposal_id) {
                Some(e) => Err(e),
                None => Ok(()),
            }),
            r is Err ==> final(self)@ == old(self)@,
            r is Ok ==> final(self)@ == old(self)@.with_approval(admin, proposal_id),
    {
        if !self.is_pool_member(admin) {
            return Err(AdminError::NotPoolMember);
        }
        let mut proposal = match self.proposals.get(&proposal_id) {
            Some(p) => p.duplicate(),
            None => {
                return Err(AdminError::ProposalNotFound);
            },
        };
        if proposal.executed {
            return Err(AdminError::AlreadyExecuted);
        }
        if contains_account(&proposal.approvals, admin) {
            return Err(AdminError::AlreadyApproved);
        }
        proposal.approvals.push(admin);
        self.store_proposal(proposal_id, proposal);
        Ok(())
    }

    /// Whether the proposal has gathered enough approvals.
    pub fn is_proposal_ready(&self, proposal_id: u64) -> (r: Result<bool, AdminError>)
        ensures
            r == (if self@.proposals.contains_key(proposal_id) {
                Ok(self@.proposal_ready(proposal_id))
            } else {
                Err(AdminError::ProposalNotFound)
            }),
    {
        match self.proposals.get(&proposal_id) {
            Some(p) => Ok(p.approvals.len() >= self.get_threshold() as usize),
            None => Err(AdminError::ProposalNotFound),
        }
    }

    /// Marks a ready, unexecuted proposal as executed.
    pub fn mark_executed(&mut self, proposal_id: u64) -> (r: Result<(), AdminError>)
        ensures
            r == (match old(self)@.execution_refusal(proposal_id) {
                Some(e) => Err(e),
                None => Ok(()),
            }),
            r is Err ==> final(self)@ == old(self)@,
            r is Ok ==> final(self)@ == old(self)@.with_executed(proposal_id),
    {
        let mut proposal = match self.proposals.get(&proposal_id) {
            Some(p) => p.duplicate(),
            None => {
                return Err(AdminError::ProposalNotFound);
            },
        };
        if proposal.executed {
            return Err(AdminError::AlreadyExecuted);
        }
        if !(proposal.approvals.len() >= self.get_threshold() as usize) {
            return Err(AdminError::ThresholdNotMet);
        }
        proposal.executed = true;
        self.store_proposal(proposal_id, proposal);
        Ok(())
    }

    /// Executes a ready proposal and returns the action it was made for.
    pub fn execute_proposal(&mut self, proposal_id: u64) -> (r: Result<CriticalAction, AdminError>)
        ensures
            r == (match old(self)@.execution_refusal(proposal_id) {
                Some(e) => Err(e),
                None => Ok(old(self)@.proposals[proposal_id].action_type),
            }),
            r is Err ==> final(self)@ == old(self)@,
            r is Ok ==> final(self)@ == old(self)@.with_executed(proposal_id),
    {
        let action = match self.proposals.get(&proposal_id) {
            Some(p) => p.action_type,
            None => {
                return Err(AdminError::ProposalNotFound);
            },
        };
        self.mark_executed(proposal_id)?;
        Ok(action)
    }

    /// The proposal with the given identifier.
    pub fn get_proposal(&self, proposal_id: u64) -> (r: Result<Proposal, AdminError>)
        ensures
            self@.proposals.contains_key(proposal_id) <==> r is Ok,
            r matches Ok(p) ==> p@ == self@.proposals[proposal_id],
            r matches Err(e) ==> e == AdminError::ProposalNotFound,
    {
        match self.proposals.get(&proposal_id) {
            Some(p) => Ok(p.duplicate()),
            None => Err(AdminError::ProposalNotFound),
        }
    }

    /// Checks that the proposal stands for `action` and can be executed.
    pub fn validate_proposal_for_action(&self, action: CriticalAction, proposal_id: u64) -> (r:
        Result<(), AdminError>)
        ensures
            r == (match self@.validation_refusal(action, proposal_id) {
                Some(e) => Err(e),
                None => Ok(()),
            }),
    {
        let proposal = match self.proposals.get(&proposal_id) {
            Some(p) => p,
            None => {
                return Err(AdminError::ProposalNotFound);
            },
        };
        if proposal.executed {
            return Err(AdminError::AlreadyExecuted);
        }
        if proposal.action_type != action {
            return Err(AdminError::ActionMismatch);
        }
        if !(proposal.approvals.len() >= self.get_threshold() as usize) {
            return Err(AdminError::ThresholdNotMet);
        }
        Ok(())
    }

    /// Demands approval for a critical action: a valid proposal where
    /// multi-signature governs the action, else the administrator's signature.
    pub fn require_multi_sig(&self, action: CriticalAction, proposal_id: u64) -> (r: Result<
        Option<AccountId>,
        AdminError,
    >)
        ensures
            r == (if self@.multisig_governs(action) {
                match self@.validation_refusal(action, proposal_id) {
                    Some(e) => Err(e),
                    None => Ok(None),
                }
            } else {
                match self@.admin {
                    Some(a) => Ok(Some(a)),
                    None => Err(AdminError::AdminNotSet),
                }
            }),
    {
        if self.is_multi_sig_required(action) && self.is_multi_sig_enabled() {
            self.validate_proposal_for_action(action, proposal_id)?;
            Ok(None)
        } else {
            let a = self.require_admin()?;
            Ok(Some(a))
        }
    }

    /// As `require_multi_sig`, and where multi-signature governs, the caller
    /// must belong to the admin pool.
    pub fn require_multi_sig_with_caller(
        &self,
        action: CriticalAction,
        proposal_id: u64,
        caller: AccountId,
    ) -> (r: Result<Option<AccountId>, AdminError>)
        ensures
            r == (if self@.multisig_governs(action) {
                match self@.validation_refusal(action, proposal_id) {
                    Some(e) => Err(e),
                    None => if self@.is_pool_member(caller) {
                        Ok(None)
                    } else {
                        Err(AdminError::NotPoolMember)
                    },
                }
            } else {
                match self@.admin {
                    Some(a) => Ok(Some(a)),
                    None => Err(AdminError::AdminNotSet),
                }
            }),
    {
        if self.is_multi_sig_required(action) && self.is_multi_sig_enabled() {
            self.validate_proposal_for_action(action, proposal_id)?;
            if !self.is_pool_member(caller) {
                return Err(AdminError::NotPoolMember);
            }
            Ok(None)
        } else {
            let a = self.require_admin()?;
            Ok(Some(a))
        }
    }

    /// Writes the administrator entry alone, leaving roles untouched.
    pub fn store_admin(&mut self, admin: AccountId)
        ensures
            final(self)@ == (AdminView { admin: Some(admin), ..old(self)@ }),
    {
        self.admin = Some(admin);
    }

    /// The state as plain, storable values.
    pub fn to_snapshot(&self) -> (r: AccessSnapshot)
        ensures
            r@ == self@,
    {
        let admin_holders = export_set(&self.admin_holders);
        let minter_holders = export_set(&self.minter_holders);
        let multisig_codes = export_set(&self.multisig);
        let pool = match &self.pool {
            Some(p) => Some(copy_accounts(p)),
            None => None,
        };
        let r = AccessSnapshot {
            admin: self.admin,
            admin_holders,
            minter_holders,
            pool,
            threshold: self.threshold,
            multisig_codes,
            proposals: export_proposals(&self.proposals),
            next_proposal_id: self.next_proposal_id,
        };
        proof {
            assert(r@.roles =~= self@.roles);
            assert(r@.multisig_required =~= self@.multisig_required);
        }
        r
    }

    /// The state that a snapshot describes.
    pub fn from_snapshot(snap: &AccessSnapshot) -> (r: AdminState)
        ensures
            r@ == snap@,
    {
        let pool = match &snap.pool {
            Some(p) => Some(copy_accounts(p)),
            None => None,
        };
        let r = AdminState {
            admin: snap.admin,
            admin_holders: import_set(&snap.admin_holders),
            minter_holders: import_set(&snap.minter_holders),
            pool,
            threshold: snap.threshold,
            multisig: import_set(&snap.multisig_codes),
            proposals: import_proposals(&snap.proposals),
            next_proposal_id: snap.next_proposal_id,
        };
        proof {
            assert(r@.roles =~= snap@.roles);
            assert(r@.multisig_required =~= snap@.multisig_required);
        }
        r
    }

    /// The stored proposals are finitely many.
    pub proof fn lemma_view_finite(&self)
        ensures
            self@.proposals.dom().finite(),
    {
        assert(self@.proposals.dom() =~= self.proposals@.dom());
    }
}

} // verus!
