//! Peers of a torrent.

use crate::protocol::{AnnounceEvent, NumberOfBytes};
use vstd::prelude::*;

verus! {

/// What a peer does with a torrent.
#[derive(PartialEq, Eq, Structural, Hash, Clone, Copy, Debug)]
pub enum PeerStatus {
    Seeding,
    Leeching,
    Stopped,
}

impl PeerStatus {
    /// The status that goes with an announce event and a number of bytes left: a peer that
    /// stops is stopped; any other seeds if it has nothing left to download, and leeches if
    /// it has.
    ///
    /// Likely, the last branch will be taken most of the time.
    #[inline]
    pub fn from_event_and_bytes_left(event: AnnounceEvent, bytes_left: NumberOfBytes) -> (status:
        Self)
        ensures
            status == PeerStatus::Stopped <==> event == AnnounceEvent::Stopped,
            status == PeerStatus::Seeding <==> event != AnnounceEvent::Stopped && bytes_left.0 == 0,
            status == PeerStatus::Leeching <==> event != AnnounceEvent::Stopped && bytes_left.0
                != 0,
    {
        if event == AnnounceEvent::Stopped {
            PeerStatus::Stopped
        } else if bytes_left.0 == 0 {
            PeerStatus::Seeding
        } else {
            PeerStatus::Leeching
        }
    }
}

} // verus!
