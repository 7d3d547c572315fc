//! The account cache: a single mutually-exclusive slot holding at most one
//! authenticated account, behind a lazily created cell.
//!
//! The host shell serializes access (it keeps the cell behind its lock), so
//! these types are plain values; every operation states exactly how it moves
//! the cache from one state to the next.

use crate::errors::SessionError;
use vstd::prelude::*;
use vstd::pervasive::unreached;

verus! {

/// An authenticated identity handle. The provider's credential material is
/// opaque to this core and stays with the host shell; the logic here reads
/// only the stable user identifier.
#[derive(Debug)]
pub struct Account {
    pub apple_id: String,
}

impl View for Account {
    type V = Seq<char>;

    open spec fn view(&self) -> Seq<char> {
        self.apple_id@
    }
}

impl Account {
    pub fn new(apple_id: String) -> (r: Account)
        ensures
            r@ == apple_id@,
    {
        Account { apple_id }
    }

    /// A second handle to the same account identity.
    pub fn duplicate(&self) -> (r: Account)
        ensures
            r == *self,
    {
        Account { apple_id: self.apple_id.clone() }
    }
}

/// The state of a cache slot: the identifier of the cached account, if any.
pub type CacheState = Option<Seq<char>>;

/// The slot state after `set` stores the account with identifier `id`:
/// whatever was there before is overwritten, never merged.
pub open spec fn state_after_set(state: CacheState, id: Seq<char>) -> CacheState {
    Some(id)
}

/// The slot state after `invalidate`: empty, whatever was there before.
pub open spec fn state_after_invalidate(state: CacheState) -> CacheState {
    None
}

/// Overwrite semantics: storing `first` and then `second` leaves the cache
/// exactly as storing `second` alone would, so only the second account
/// remains retrievable.
pub proof fn lemma_set_overwrites(state: CacheState, first: Seq<char>, second: Seq<char>)
    ensures
        state_after_set(state_after_set(state, first), second) == state_after_set(state, second),
        state_after_set(state_after_set(state, first), second) == Some(second),
{
}

/// Invalidate-then-read: after `invalidate` the slot is empty no matter what
/// it held, so `current` reports `NotLoggedIn` even if it previously
/// succeeded.
pub proof fn lemma_invalidate_then_read(state: CacheState)
    ensures
        state_after_invalidate(state) is None,
{
}

/// The single slot holding at most one authenticated account.
pub struct AccountCache {
    slot: Option<Account>,
}

impl View for AccountCache {
    type V = CacheState;

    closed spec fn view(&self) -> CacheState {
        match self.slot {
            Some(a) => Some(a@),
            None => None,
        }
    }
}

impl AccountCache {
    /// A freshly created slot holds no account.
    pub fn empty() -> (r: AccountCache)
        ensures
            r@ is None,
    {
        AccountCache { slot: None }
    }

    /// A shared handle to the cached account, or `NotLoggedIn` if the slot
    /// is empty.
    pub fn current(&self) -> (r: Result<Account, SessionError>)
        ensures
            match self@ {
                Some(id) => r matches Ok(a) && a@ == id,
                None => r matches Err(e) && e is NotLoggedIn,
            },
    {
        match &self.slot {
            Some(account) => Ok(account.duplicate()),
            None => Err(SessionError::NotLoggedIn),
        }
    }

    /// Replaces the slot's contents with `account`, overwriting any prior
    /// account.
    pub fn set(&mut self, account: Account)
        ensures
            final(self)@ == state_after_set(old(self)@, account@),
    {
        self.slot = Some(account);
    }

    /// Clears the slot; a no-op if it is already empty.
    pub fn invalidate(&mut self)
        ensures
            final(self)@ == state_after_invalidate(old(self)@),
    {
        self.slot = None;
    }

    /// The cached account's identifier, if one is present.
    pub fn logged_in_as(&self) -> (r: Option<String>)
        ensures
            match self@ {
                Some(id) => r matches Some(s) && s@ == id,
                None => r is None,
            },
    {
        match &self.slot {
            Some(account) => Some(account.apple_id.clone()),
            None => None,
        }
    }
}

/// The state of the lazily created cell: `None` until the first access
/// creates the slot, then `Some` of the slot's state forever after.
pub type CellState = Option<CacheState>;

/// The cell state after a get-or-init access: the first access creates an
/// empty slot, every later access reuses the existing one.
pub open spec fn state_after_init(cell: CellState) -> CellState {
    match cell {
        Some(state) => Some(state),
        None => Some(None),
    }
}

/// Idempotent initialization: initializing an already-initialized cell
/// changes nothing, so however many get-or-init accesses race to be first,
/// all of them observe the same single slot and no duplicate slot is ever
/// created.
pub proof fn lemma_get_or_init_idempotent(cell: CellState)
    ensures
        state_after_init(state_after_init(cell)) == state_after_init(cell),
        state_after_init(cell) is Some,
{
}

/// The lazily created holder of the account cache. The slot comes into
/// being on first access and is reused by every later one; readers never
/// observe a partially initialized slot because the cell hands out the slot
/// only once it is fully constructed.
pub struct CacheCell {
    cell: Option<AccountCache>,
}

impl View for CacheCell {
    type V = CellState;

    closed spec fn view(&self) -> CellState {
        match self.cell {
            Some(ref c) => Some(c@),
            None => None,
        }
    }
}

impl CacheCell {
    /// A cell whose slot has not been created yet.
    pub fn new() -> (r: CacheCell)
        ensures
            r@ is None,
    {
        CacheCell { cell: None }
    }

    /// The process-wide slot, created exactly once: the first access
    /// installs an empty slot, all later accesses return the existing one.
    pub fn get_or_init(&mut self) -> (slot: &mut AccountCache)
        ensures
            Some((*slot)@) == state_after_init(old(self)@),
            final(self)@ == Some(final(slot)@),
    {
        if self.cell.is_none() {
            self.cell = Some(AccountCache::empty());
        }
        match &mut self.cell {
            Some(slot) => slot,
            None => unreached(),
        }
    }

    /// A shared handle to the cached account, creating the slot on first
    /// access; `NotLoggedIn` if no account is cached.
    pub fn get_account(&mut self) -> (r: Result<Account, SessionError>)
        ensures
            final(self)@ == state_after_init(old(self)@),
            match state_after_init(old(self)@) {
                Some(Some(id)) => r matches Ok(a) && a@ == id,
                _ => r matches Err(e) && e is NotLoggedIn,
            },
    {
        let slot = self.get_or_init();
        slot.current()
    }

    /// The cached account's identifier, if one is present.
    pub fn logged_in_as(&mut self) -> (r: Option<String>)
        ensures
            final(self)@ == state_after_init(old(self)@),
            match state_after_init(old(self)@) {
                Some(Some(id)) => r matches Some(s) && s@ == id,
                _ => r is None,
            },
    {
        match self.get_account() {
            Ok(account) => Some(account.apple_id),
            Err(_) => None,
        }
    }

    /// Clears the slot if it exists; a no-op on a cell whose slot was never
    /// created, and it does not create one.
    pub fn invalidate_account(&mut self)
        ensures
            final(self)@ == match old(self)@ {
                Some(state) => Some(state_after_invalidate(state)),
                None => None,
            },
    {
        match &mut self.cell {
            Some(slot) => slot.invalidate(),
            None => {},
        }
    }
}

} // verus!
