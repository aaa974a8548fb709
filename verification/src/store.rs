//! The election's persistent state, and every call that reaches the host's
//! key-value store.
//!
//! The store keeps three things, each under a namespace of its own: the
//! election record, the tally table (candidate id to votes) and the voter
//! table (address to "has voted"). The tables are `Keymap`s; the record is a
//! singleton. A handle on a table is made afresh for each call, so nothing is
//! remembered between calls but what the store holds.
//!
//! Verus cannot look into the store. What it holds is named by the spec
//! functions `stored_record`, `stored_tally` and `stored_voters`, and the
//! private functions marked `external_body` below say over those names what
//! the outside crates do. Those contracts are believed, not proved; all else
//! in the crate is proved from them.
//!
//! The outside calls that write or walk return a `Result`. On an intact store
//! (`store_intact`) they return `Ok`: the storage itself reports no error, and
//! what can fail in them is the encoding of an integer, a flag or a text,
//! which has no failing case, and the decoding of bytes that the same calls
//! wrote. The contracts say so, and the handlers owe success on it.

use crate::state::{Candidate, State, StateView};
use crate::table::{distinct_keys, has_key, lookup, upsert};
use secret_cosmwasm_std::{Addr, MemoryStorage, StdError, Storage};
use secret_cosmwasm_storage::{singleton, singleton_read};
use secret_toolkit::storage::Keymap;
use vstd::prelude::*;

verus! {

/// The error type of `secret_cosmwasm_std`. Nothing is known of a value of it.
#[verifier::external_type_specification]
#[verifier::external_body]
pub struct ExStdError(StdError);

/// A handle on the store of one election.
///
/// `host` is the host's storage. It is a trait object, which Verus cannot
/// take, so the whole struct is hidden from it and the spec functions below
/// stand for what it holds. The field is public so that a host adapter can
/// hand its storage in; the contracts of this crate speak of stores that are
/// `wf`, which a store is that was empty once and has been written through
/// this crate only.
#[verifier::external_body]
pub struct ElectionStore<'a> {
    pub host: Box<dyn Storage + 'a>,
}

/// The store holds nothing but what `Keymap::insert` on the two tables and
/// `Singleton::save` on the record have left in a store that was empty once.
/// On such a store the tables' index pages are complete and every entry reads
/// back as it was written.
pub uninterp spec fn store_intact(store: ElectionStore) -> bool;

/// The election record that the store holds: what `ReadonlySingleton::load`
/// returns for it, or `None` where that call fails.
pub uninterp spec fn stored_record(store: ElectionStore) -> Option<StateView>;

/// The entries of the tally table, `(candidate id, votes)`, in the order in
/// which `Keymap::iter` walks them.
pub uninterp spec fn stored_tally(store: ElectionStore) -> Seq<(u16, u16)>;

/// The entries of the voter table, `(address, has voted)`, in the order in
/// which `Keymap::iter_keys` walks them.
pub uninterp spec fn stored_voters(store: ElectionStore) -> Seq<(Seq<char>, bool)>;

/// What a store holds.
#[verifier::ext_equal]
pub struct StoreView {
    pub record: Option<StateView>,
    pub tally: Seq<(u16, u16)>,
    pub voters: Seq<(Seq<char>, bool)>,
}

impl<'a> View for ElectionStore<'a> {
    type V = StoreView;

    open spec fn view(&self) -> StoreView {
        StoreView {
            record: stored_record(*self),
            tally: stored_tally(*self),
            voters: stored_voters(*self),
        }
    }
}

/// A view that a well-formed store can have: no key twice in a table, and no
/// table longer than its 32-bit length counter can say.
pub open spec fn view_wf(view: StoreView) -> bool {
    &&& distinct_keys(view.tally)
    &&& distinct_keys(view.voters)
    &&& view.tally.len() <= u32::MAX
    &&& view.voters.len() <= u32::MAX
}

impl<'a> ElectionStore<'a> {
    /// The store is one that this crate can work on.
    pub open spec fn wf(&self) -> bool {
        store_intact(*self) && view_wf(self@)
    }

    /// A store of its own in memory, with nothing in it.
    pub fn in_memory() -> (store: ElectionStore<'static>)
        ensures
            store.wf(),
            store@.record is None,
            store@.tally == Seq::<(u16, u16)>::empty(),
            store@.voters == Seq::<(Seq<char>, bool)>::empty(),
    {
        new_memory_store()
    }

    /// The votes counted for `id`, or `None` where the tally table has no such
    /// candidate.
    pub fn votes_for(&self, id: u16) -> (votes: Option<u16>)
        requires
            self.wf(),
        ensures
            votes == lookup(self@.tally, id),
    {
        tally_get(self, id)
    }

    /// Whether `addr` has voted, or `None` where the voter table has no such
    /// address.
    pub fn voter_status(&self, addr: &String) -> (voted: Option<bool>)
        requires
            self.wf(),
        ensures
            voted == lookup(self@.voters, addr@),
    {
        voters_get(self, addr)
    }
}

/// `MemoryStorage::new`, boxed as a host storage. The new storage is empty:
/// no record can be loaded from it and both tables have no entry.
#[verifier::external_body]
fn new_memory_store() -> (store: ElectionStore<'static>)
    ensures
        store_intact(store),
        stored_record(store) is None,
        stored_tally(store) == Seq::<(u16, u16)>::empty(),
        stored_voters(store) == Seq::<(Seq<char>, bool)>::empty(),
{
    ElectionStore { host: Box::new(MemoryStorage::new()) }
}

/// `Singleton::save` under the key `config`. The record goes out as the tuple
/// of its fields, candidates as `(id, name)` and addresses as `Addr`. The call
/// returns `Ok`: it encodes texts and integers as JSON, which cannot fail, and
/// the storage takes the bytes without a result. A later load gives the record
/// back, and the tables, which live under other keys, are as before.
#[verifier::external_body]
pub(crate) fn record_save(store: &mut ElectionStore, state: &State) -> (saved: Result<
    (),
    StdError,
>)
    requires
        store_intact(*old(store)),
    ensures
        saved is Ok,
        store_intact(*final(store)),
        stored_record(*final(store)) == Some(state@),
        stored_tally(*final(store)) == stored_tally(*old(store)),
        stored_voters(*final(store)) == stored_voters(*old(store)),
{
    let candidates: Vec<(u16, String)> =
        state.candidates_list.iter().map(|c| (c.id, c.name.clone())).collect();
    let voters: Vec<Addr> = state.voters_addresses.iter().map(Addr::unchecked).collect();
    let record = (state.name.clone(), candidates, voters, state.close_time);
    singleton(store.host.as_mut(), b"config").save(&record)
}

/// `ReadonlySingleton::load` under the key `config`, the tuple it yields
/// turned back into a `State`. `stored_record` is the name of this call's
/// result: the record where the call returns `Ok`, and `None` where it fails.
#[verifier::external_body]
pub(crate) fn record_load(store: &ElectionStore) -> (loaded: Result<State, StdError>)
    requires
        store_intact(*store),
    ensures
        match loaded {
            Ok(state) => stored_record(*store) == Some(state@),
            Err(_) => stored_record(*store) is None,
        },
{
    let (name, candidates, voters, close_time): (String, Vec<(u16, String)>, Vec<Addr>, u64) =
        singleton_read(store.host.as_ref(), b"config").load()?;
    let candidates_list = candidates.into_iter().map(|(id, name)| Candidate { id, name }).collect();
    let voters_addresses = voters.into_iter().map(Addr::into_string).collect();
    Ok(State { name, candidates_list, voters_addresses, close_time })
}

/// `Keymap::get` on the tally table: the votes stored under `id`, `None`
/// where the table has no entry for it.
#[verifier::external_body]
pub(crate) fn tally_get(store: &ElectionStore, id: u16) -> (votes: Option<u16>)
    requires
        store_intact(*store),
    ensures
        votes == lookup(stored_tally(*store), id),
{
    Keymap::<u16, u16>::new(b"candidate_result_state").get(store.host.as_ref(), &id)
}

/// `Keymap::insert` on the tally table. An entry that was there has its value
/// replaced where it stands, a new one stands last, and nothing else in the
/// store has changed. On an intact store the call returns `Ok`: it encodes two
/// integers and reads back what earlier inserts wrote. A new entry raises the
/// table's 32-bit length by one, so the table must have room for it.
#[verifier::external_body]
pub(crate) fn tally_insert(store: &mut ElectionStore, id: u16, votes: u16) -> (written: Result<
    (),
    StdError,
>)
    requires
        store_intact(*old(store)),
        has_key(stored_tally(*old(store)), id) || stored_tally(*old(store)).len() < u32::MAX,
    ensures
        written is Ok,
        store_intact(*final(store)),
        stored_tally(*final(store)) == upsert(stored_tally(*old(store)), id, votes),
        stored_voters(*final(store)) == stored_voters(*old(store)),
        stored_record(*final(store)) == stored_record(*old(store)),
{
    Keymap::<u16, u16>::new(b"candidate_result_state").insert(store.host.as_mut(), &id, &votes)
}

/// `Keymap::iter` on the tally table, collected: the table's entries in their
/// order. On an intact store the walk returns `Ok`, since every index page is
/// there and every entry decodes.
#[verifier::external_body]
pub(crate) fn tally_entries(store: &ElectionStore) -> (entries: Result<Vec<(u16, u16)>, StdError>)
    requires
        store_intact(*store),
    ensures
        entries is Ok,
        entries matches Ok(list) ==> list@ == stored_tally(*store),
{
    Keymap::<u16, u16>::new(b"candidate_result_state").iter(store.host.as_ref())?.collect()
}

/// `Keymap::contains` on the voter table: whether an entry is stored under
/// `addr`.
#[verifier::external_body]
pub(crate) fn voters_contains(store: &ElectionStore, addr: &String) -> (known: bool)
    requires
        store_intact(*store),
    ensures
        known == has_key(stored_voters(*store), addr@),
{
    Keymap::<Addr, bool>::new(b"voters_state").contains(store.host.as_ref(), &Addr::unchecked(addr))
}

/// `Keymap::get` on the voter table: the flag stored under `addr`, `None`
/// where the table has no entry for it.
#[verifier::external_body]
pub(crate) fn voters_get(store: &ElectionStore, addr: &String) -> (voted: Option<bool>)
    requires
        store_intact(*store),
    ensures
        voted == lookup(stored_voters(*store), addr@),
{
    Keymap::<Addr, bool>::new(b"voters_state").get(store.host.as_ref(), &Addr::unchecked(addr))
}

/// `Keymap::insert` on the voter table; as `tally_insert`, for the other
/// table, whose keys are texts and whose values are flags.
#[verifier::external_body]
pub(crate) fn voters_insert(store: &mut ElectionStore, addr: &String, voted: bool) -> (written:
    Result<(), StdError>)
    requires
        store_intact(*old(store)),
        has_key(stored_voters(*old(store)), addr@) || stored_voters(*old(store)).len() < u32::MAX,
    ensures
        written is Ok,
        store_intact(*final(store)),
        stored_voters(*final(store)) == upsert(stored_voters(*old(store)), addr@, voted),
        stored_tally(*final(store)) == stored_tally(*old(store)),
        stored_record(*final(store)) == stored_record(*old(store)),
{
    let key = Addr::unchecked(addr);
    Keymap::<Addr, bool>::new(b"voters_state").insert(store.host.as_mut(), &key, &voted)
}

/// `Keymap::iter_keys` on the voter table, counted: the number of entries. On
/// an intact store the call returns `Ok`, since the stored length decodes.
#[verifier::external_body]
pub(crate) fn voters_count(store: &ElectionStore) -> (count: Result<usize, StdError>)
    requires
        store_intact(*store),
    ensures
        count is Ok,
        count matches Ok(n) ==> n == stored_voters(*store).len(),
{
    Ok(Keymap::<Addr, bool>::new(b"voters_state").iter_keys(store.host.as_ref())?.count())
}

/// `StdError`'s `Display`: the text of a store error. Nothing is claimed of it.
#[verifier::external_body]
pub(crate) fn std_error_text(error: &StdError) -> String {
    error.to_string()
}

} // verus!
