//! What the contract reports to the outside world after an operation.

use vstd::prelude::*;
use crate::types::AccountId;

verus! {

/// An event emitted by a token operation.
#[derive(Debug)]
pub enum Event {
    Initialized { admin: AccountId, decimal: u32, name: String, symbol: String },
    Mint { admin: AccountId, to: AccountId, amount: i128, balance: i128, supply: i128 },
    Paused { admin: AccountId },
    Unpaused { admin: AccountId },
    Clawback { admin: AccountId, from: AccountId, to: AccountId, amount: i128 },
    Locked { user: AccountId, amount: i128, unlock_time: u64 },
    WithdrawLocked { user: AccountId, amount: i128 },
    OwnershipTransferred { old_admin: AccountId, new_admin: AccountId },
    OwnershipProposed { admin: AccountId, new_admin: AccountId },
    OwnershipAccepted { old_admin: AccountId, new_admin: AccountId },
    OwnershipCancelled { admin: AccountId, pending_admin: AccountId },
    Upgrade { admin: AccountId, new_wasm_hash: [u8; 32] },
    UpdateName { admin: AccountId, old_name: String, new_name: String },
    UpdateSymbol { admin: AccountId, old_symbol: String, new_symbol: String },
    Approve { from: AccountId, spender: AccountId, amount: i128 },
    Transfer { from: AccountId, to: AccountId, amount: i128 },
    TransferFrom {
        spender: AccountId,
        from: AccountId,
        to: AccountId,
        amount: i128,
        remaining: i128,
    },
    Burn { from: AccountId, amount: i128, balance: i128, supply: i128 },
    FeeCharged { payer: AccountId, treasury: AccountId, amount: i128 },
}

/// An event as plain values.
pub enum EventView {
    Initialized { admin: AccountId, decimal: u32, name: Seq<char>, symbol: Seq<char> },
    Mint { admin: AccountId, to: AccountId, amount: i128, balance: i128, supply: i128 },
    Paused { admin: AccountId },
    Unpaused { admin: AccountId },
    Clawback { admin: AccountId, from: AccountId, to: AccountId, amount: i128 },
    Locked { user: AccountId, amount: i128, unlock_time: u64 },
    WithdrawLocked { user: AccountId, amount: i128 },
    OwnershipTransferred { old_admin: AccountId, new_admin: AccountId },
    OwnershipProposed { admin: AccountId, new_admin: AccountId },
    OwnershipAccepted { old_admin: AccountId, new_admin: AccountId },
    OwnershipCancelled { admin: AccountId, pending_admin: AccountId },
    Upgrade { admin: AccountId, new_wasm_hash: [u8; 32] },
    UpdateName { admin: AccountId, old_name: Seq<char>, new_name: Seq<char> },
    UpdateSymbol { admin: AccountId, old_symbol: Seq<char>, new_symbol: Seq<char> },
    Approve { from: AccountId, spender: AccountId, amount: i128 },
    Transfer { from: AccountId, to: AccountId, amount: i128 },
    TransferFrom {
        spender: AccountId,
        from: AccountId,
        to: AccountId,
        amount: i128,
        remaining: i128,
    },
    Burn { from: AccountId, amount: i128, balance: i128, supply: i128 },
    FeeCharged { payer: AccountId, treasury: AccountId, amount: i128 },
}

impl View for Event {
    type V = EventView;

    open spec fn view(&self) -> EventView {
        match self {
            Event::Initialized { admin, decimal, name, symbol } => EventView::Initialized {
                admin: *admin,
                decimal: *decimal,
                name: name@,
                symbol: symbol@,
            },
            Event::Mint { admin, to, amount, balance, supply } => EventView::Mint {
                admin: *admin,
                to: *to,
                amount: *amount,
                balance: *balance,
                supply: *supply,
            },
            Event::Paused { admin } => EventView::Paused { admin: *admin },
            Event::Unpaused { admin } => EventView::Unpaused { admin: *admin },
            Event::Clawback { admin, from, to, amount } => EventView::Clawback {
                admin: *admin,
                from: *from,
                to: *to,
                amount: *amount,
            },
            Event::Locked { user, amount, unlock_time } => EventView::Locked {
                user: *user,
                amount: *amount,
                unlock_time: *unlock_time,
            },
            Event::WithdrawLocked { user, amount } => EventView::WithdrawLocked {
                user: *user,
                amount: *amount,
            },
            Event::OwnershipTransferred { old_admin, new_admin } => EventView::OwnershipTransferred {
                old_admin: *old_admin,
                new_admin: *new_admin,
            },
            Event::OwnershipProposed { admin, new_admin } => EventView::OwnershipProposed {
                admin: *admin,
                new_admin: *new_admin,
            },
            Event::OwnershipAccepted { old_admin, new_admin } => EventView::OwnershipAccepted {
                old_admin: *old_admin,
                new_admin: *new_admin,
            },
            Event::OwnershipCancelled { admin, pending_admin } => EventView::OwnershipCancelled {
                admin: *admin,
                pending_admin: *pending_admin,
            },
            Event::Upgrade { admin, new_wasm_hash } => EventView::Upgrade {
                admin: *admin,
                new_wasm_hash: *new_wasm_hash,
            },
            Event::UpdateName { admin, old_name, new_name } => EventView::UpdateName {
                admin: *admin,
                old_name: old_name@,
                new_name: new_name@,
            },
            Event::UpdateSymbol { admin, old_symbol, new_symbol } => EventView::UpdateSymbol {
                admin: *admin,
                old_symbol: old_symbol@,
                new_symbol: new_symbol@,
            },
            Event::Approve { from, spender, amount } => EventView::Approve {
                from: *from,
                spender: *spender,
                amount: *amount,
            },
            Event::Transfer { from, to, amount } => EventView::Transfer {
                from: *from,
                to: *to,
                amount: *amount,
            },
            Event::TransferFrom { spender, from, to, amount, remaining } => EventView::TransferFrom {
                spender: *spender,
                from: *from,
                to: *to,
                amount: *amount,
                remaining: *remaining,
            },
            Event::Burn { from, amount, balance, supply } => EventView::Burn {
                from: *from,
                amount: *amount,
                balance: *balance,
                supply: *supply,
            },
            Event::FeeCharged { payer, treasury, amount } => EventView::FeeCharged {
                payer: *payer,
                treasury: *treasury,
                amount: *amount,
            },
        }
    }
}

/// What a successful operation asks of its environment: the accounts that must
/// authorise it, in the order in which it demands them, and the events it emits.
pub struct Receipt {
    pub signers: Vec<AccountId>,
    pub events: Vec<Event>,
}

/// A receipt as plain values.
pub struct ReceiptView {
    pub signers: Seq<AccountId>,
    pub events: Seq<EventView>,
}

impl View for Receipt {
    type V = ReceiptView;

    open spec fn view(&self) -> ReceiptView {
        ReceiptView { signers: self.signers@, events: self.events@.map_values(|e: Event| e@) }
    }
}

impl ReceiptView {
    pub open spec fn new(signers: Seq<AccountId>, events: Seq<EventView>) -> ReceiptView {
        ReceiptView { signers, events }
    }
}

impl Receipt {
    /// A receipt with the given signers and events.
    pub fn new(signers: Vec<AccountId>, events: Vec<Event>) -> (r: Receipt)
        ensures
            r.signers@ == signers@,
            r.events@ == events@,
    {
        Receipt { signers, events }
    }

    /// A receipt with one signer and one event.
    pub fn signed_event(signer: AccountId, event: Event) -> (r: Receipt)
        ensures
            r@ == ReceiptView::new(seq![signer], seq![event@]),
    {
        let mut signers = Vec::new();
        signers.push(signer);
        let mut events = Vec::new();
        let ghost ev = event@;
        events.push(event);
        let r = Receipt { signers, events };
        assert(r@.signers =~= seq![signer]);
        assert(r@.events =~= seq![ev]);
        r
    }

    /// A receipt with one signer and no event.
    pub fn signed(signer: AccountId) -> (r: Receipt)
        ensures
            r@ == ReceiptView::new(seq![signer], Seq::empty()),
    {
        let mut signers = Vec::new();
        signers.push(signer);
        let events: Vec<Event> = Vec::new();
        let r = Receipt { signers, events };
        assert(r@.signers =~= seq![signer]);
        assert(r@.events =~= Seq::<EventView>::empty());
        r
    }

    /// A receipt with no signer and no event.
    pub fn empty() -> (r: Receipt)
        ensures
            r@ == ReceiptView::new(Seq::empty(), Seq::empty()),
    {
        let signers: Vec<AccountId> = Vec::new();
        let events: Vec<Event> = Vec::new();
        let r = Receipt { signers, events };
        assert(r@.signers =~= Seq::<AccountId>::empty());
        assert(r@.events =~= Seq::<EventView>::empty());
        r
    }

    /// A receipt with one signer and the given events.
    pub fn signers_event_list(signer: AccountId, events: Vec<Event>) -> (r: Receipt)
        ensures
            r@ == ReceiptView::new(seq![signer], events@.map_values(|e: Event| e@)),
    {
        let mut signers = Vec::new();
        signers.push(signer);
        let r = Receipt { signers, events };
        assert(r@.signers =~= seq![signer]);
        r
    }

    /// A receipt with the given signers and no event.
    pub fn signers_only(signers: Vec<AccountId>) -> (r: Receipt)
        ensures
            r@ == ReceiptView::new(signers@, Seq::empty()),
    {
        let events: Vec<Event> = Vec::new();
        let r = Receipt { signers, events };
        assert(r@.events =~= Seq::<EventView>::empty());
        r
    }

    /// A receipt with the given signers and one event.
    pub fn signers_event(signers: Vec<AccountId>, event: Event) -> (r: Receipt)
        ensures
            r@ == ReceiptView::new(signers@, seq![event@]),
    {
        let mut events = Vec::new();
        let ghost ev = event@;
        events.push(event);
        let r = Receipt { signers, events };
        assert(r@.events =~= seq![ev]);
        r
    }

    /// A receipt with no signer and one event.
    pub fn event_only(event: Event) -> (r: Receipt)
        ensures
            r@ == ReceiptView::new(Seq::empty(), seq![event@]),
    {
        let signers: Vec<AccountId> = Vec::new();
        let r = Receipt::signers_event(signers, event);
        assert(r@.signers =~= Seq::<AccountId>::empty());
        r
    }
}

/// The accounts `a` then `b`.
pub fn two_accounts(a: AccountId, b: AccountId) -> (r: Vec<AccountId>)
    ensures
        r@ == seq![a, b],
{
    let mut v = Vec::new();
    v.push(a);
    v.push(b);
    assert(v@ =~= seq![a, b]);
    v
}

/// The account, if any, as a sequence of at most one.
pub fn optional_account(a: Option<AccountId>) -> (r: Vec<AccountId>)
    ensures
        r@ == (match a {
            Some(x) => seq![x],
            None => Seq::<AccountId>::empty(),
        }),
{
    let mut v = Vec::new();
    match a {
        Some(x) => {
            v.push(x);
            assert(v@ =~= seq![x]);
        },
        None => {
            assert(v@ =~= Seq::<AccountId>::empty());
        },
    }
    v
}

} // verus!
