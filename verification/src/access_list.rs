//! Which torrents the tracker serves.

use crate::protocol::InfoHash;
use arc_swap::ArcSwap;
use std::sync::Arc;
use vstd::prelude::*;

verus! {

/// How the access list is used.
#[derive(Clone, Copy, PartialEq, Eq, Structural, Debug)]
pub enum AccessListMode {
    /// Only serve torrents in the list.
    Allow,
    /// Serve all torrents but those in the list.
    Deny,
    /// Serve all torrents.
    Off,
}

impl AccessListMode {
    /// Whether the list is used at all.
    pub fn is_on(&self) -> (on: bool)
        ensures
            on == (*self != AccessListMode::Off),
    {
        match self {
            AccessListMode::Off => false,
            _ => true,
        }
    }
}

/// The torrents listed, each of them once.
#[derive(Clone, Debug)]
pub struct AccessList {
    pub info_hashes: Vec<InfoHash>,
}

impl AccessList {
    /// No torrent is listed twice.
    pub open spec fn wf(self) -> bool {
        self.info_hashes@.no_duplicates()
    }
}

impl Default for AccessList {
    /// The empty list.
    fn default() -> (list: Self)
        ensures
            list.wf(),
            list.info_hashes@ == Seq::<InfoHash>::empty(),
    {
        AccessList { info_hashes: Vec::new() }
    }
}

/// An access list that all workers share and that can be replaced while they do:
/// `arc_swap::ArcSwap` with lists in it.
#[verifier::external_body]
pub struct AccessListArcSwap {
    swap: ArcSwap<AccessList>,
}

/// The list that `swap` was made with.
pub uninterp spec fn initial_list(swap: AccessListArcSwap) -> Seq<InfoHash>;

/// The replacements in the whole life of `swap`: the list that went, and the list that came.
pub uninterp spec fn lists_replaced(swap: AccessListArcSwap) -> Set<(Seq<InfoHash>, Seq<InfoHash>)>;

/// Whether `list` is in `swap` at some time: from the start, or since it came for another.
pub open spec fn is_held(swap: AccessListArcSwap, list: Seq<InfoHash>) -> bool {
    ||| list == initial_list(swap)
    ||| exists|gone: Seq<InfoHash>| #[trigger] lists_replaced(swap).contains((gone, list))
}

/// `arc_swap::ArcSwap::new`: holds the list given from the start.
#[verifier::external_body]
fn new_swap(list: Arc<AccessList>) -> (swap: AccessListArcSwap)
    ensures
        initial_list(swap) == list.info_hashes@,
{
    AccessListArcSwap { swap: ArcSwap::new(list) }
}

/// `arc_swap::ArcSwap::load_full`: the list held now, which is one that was there from the
/// start or came later. Which of them depends on when it is called, and is not claimed.
#[verifier::external_body]
fn load_list(swap: &AccessListArcSwap) -> (list: Arc<AccessList>)
    ensures
        is_held(*swap, list.info_hashes@),
{
    swap.swap.load_full()
}

/// `arc_swap::ArcSwap::swap`: puts `list` in the place of the one held, and gives that one
/// back. Which one that is depends on when it is called, and is not claimed.
#[verifier::external_body]
fn swap_list(swap: &AccessListArcSwap, list: Arc<AccessList>) -> (gone: Arc<AccessList>)
    ensures
        is_held(*swap, gone.info_hashes@),
        lists_replaced(*swap).contains((gone.info_hashes@, list.info_hashes@)),
{
    swap.swap.swap(list)
}

impl AccessListArcSwap {
    /// Holds the list given until another one comes.
    pub fn new(list: Arc<AccessList>) -> (swap: Self)
        ensures
            initial_list(swap) == list.info_hashes@,
    {
        new_swap(list)
    }

    /// A list that is held. Which one depends on the time of the call, and is not stated.
    pub fn load(&self) -> (list: Arc<AccessList>)
        ensures
            is_held(*self, list.info_hashes@),
    {
        load_list(self)
    }

    /// Puts `list` in the place of the list held. Which one that was depends on the time of
    /// the call, and is not stated.
    pub fn store(&self, list: Arc<AccessList>)
        ensures
            exists|gone: Seq<InfoHash>|
                is_held(*self, gone) && #[trigger] lists_replaced(*self).contains(
                    (gone, list.info_hashes@),
                ),
            is_held(*self, list.info_hashes@),
    {
        let ghost new_list = list.info_hashes@;
        let gone = swap_list(self, list);
        assert(lists_replaced(*self).contains((gone.info_hashes@, new_list)));
    }
}

impl Default for AccessListArcSwap {
    /// Holds the empty list from the start.
    fn default() -> (swap: Self)
        ensures
            initial_list(swap) == Seq::<InfoHash>::empty(),
    {
        AccessListArcSwap::new(Arc::new(AccessList::default()))
    }
}

/// A list comes in only by taking the place of another: where none was ever replaced, the one
/// held is the one from the start.
pub proof fn lists_stay_until_replaced(swap: AccessListArcSwap, list: Seq<InfoHash>)
    requires
        is_held(swap, list),
    ensures
        lists_replaced(swap) == Set::<(Seq<InfoHash>, Seq<InfoHash>)>::empty() ==> list
            == initial_list(swap),
        list != initial_list(swap) ==> exists|gone: Seq<InfoHash>| #[trigger]
            lists_replaced(swap).contains((gone, list)),
{
}

/// The list from the start is held, and so is each that takes the place of another.
pub proof fn lists_are_held_once_they_come(
    swap: AccessListArcSwap,
    gone: Seq<InfoHash>,
    list: Seq<InfoHash>,
)
    requires
        list == initial_list(swap) || lists_replaced(swap).contains((gone, list)),
    ensures
        is_held(swap, list),
{
}

} // verus!
