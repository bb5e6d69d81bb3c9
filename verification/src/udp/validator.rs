//! Connection ids: how the tracker makes them, and how it knows them again.
//!
//! A client that asks for a connection is given an id, and shows it with its later
//! requests. That a request carries a valid id means that its sender got the id at the
//! address that the request comes from. The tracker keeps no list of ids: an id holds the
//! time at which it was made, and a keyed hash of that time and of the address.

use crate::native_bytes::{
    i64_from_ne_bytes, i64_ne_bytes, i64_ne_bytes_round_trip, i64_to_ne_bytes, u32_from_ne_bytes,
    u32_ne_bytes, u32_ne_bytes_round_trip, u32_of_ne_bytes, u32_to_ne_bytes,
};
use crate::net::{CanonicalSocketAddr, IpAddr};
use crate::protocol::ConnectionId;
use crate::udp::clock::{nanos_between, NANOS_PER_SEC};
use crate::udp::config::Config;
use crate::udp::keyed_hash::{
    clone_hasher, finalize_xof, hasher_input, hasher_key, keyed_hash_output, new_keyed, reset,
    update,
};
use crate::udp::random::random_key;
use crate::udp::stopwatch::{in_order, stopwatches_do_not_go_back, Stopwatch};
use std::time::Instant;
use vstd::prelude::*;

verus! {

impl ConnectionId {
    /// The eight bytes of the id in memory: four of time, four of keyed hash.
    pub open spec fn bytes(self) -> Seq<u8> {
        i64_ne_bytes(self.0)
    }

    /// When the id says that it was made: seconds after the start of the tracker.
    pub open spec fn issued_secs(self) -> u32 {
        u32_of_ne_bytes(self.bytes().take(4))
    }
}

/// The bytes of the id that belongs to a time, given by its bytes, and to an address.
pub open spec fn connection_id_bytes(key: Seq<u8>, elapsed_time_bytes: Seq<u8>, ip: IpAddr) -> Seq<
    u8,
> {
    elapsed_time_bytes + keyed_hash_output(key, elapsed_time_bytes + ip.octets(), 4)
}

/// Whether `id` is the one that the holder of `key` gives `ip` at `secs` seconds after the
/// start of the tracker.
pub open spec fn issued_at(key: Seq<u8>, ip: IpAddr, secs: u32, id: ConnectionId) -> bool {
    id.bytes() == connection_id_bytes(key, u32_ne_bytes(secs), ip)
}

/// Whether `id` is one that the holder of `key` gives `ip` at some time: at that which the id
/// names itself.
pub open spec fn authentic(key: Seq<u8>, ip: IpAddr, id: ConnectionId) -> bool {
    issued_at(key, ip, id.issued_secs(), id)
}

/// Why no validator could be made.
#[derive(Debug)]
pub enum NewValidatorError {
    /// There was no randomness to make a key from.
    Random(getrandom::Error),
}

/// Makes connection ids and checks them.
pub struct ConnectionValidator {
    stopwatch: Stopwatch,
    /// In seconds.
    max_connection_age: u64,
    hmac: blake3::Hasher,
}

impl ConnectionValidator {
    /// The key of the hash.
    pub closed spec fn key(self) -> Seq<u8> {
        hasher_key(self.hmac)
    }

    /// For how many seconds an id is accepted.
    pub closed spec fn max_age(self) -> u64 {
        self.max_connection_age
    }

    /// From when on time is counted.
    pub closed spec fn start(self) -> Instant {
        self.stopwatch.start()
    }

    /// All readings of the clock that the validator has taken, that of its start first.
    pub closed spec fn readings(self) -> Seq<Instant> {
        self.stopwatch.readings()
    }

    /// The hasher is between two messages, and its time has not gone back.
    pub closed spec fn wf(self) -> bool {
        &&& self.stopwatch.wf()
        &&& hasher_input(self.hmac) == Seq::<u8>::empty()
        &&& hasher_key(self.hmac).len() == 32
    }

    /// Both make the same ids at the same time, and accept the same ids for as long.
    pub open spec fn same(self, other: Self) -> bool {
        &&& self.key() == other.key()
        &&& self.max_age() == other.max_age()
        &&& self.start() == other.start()
    }

    /// Whether `id` is the one for a time, given by its bytes, and a client at `source_addr`.
    pub open spec fn creates(
        self,
        elapsed_time_bytes: Seq<u8>,
        source_addr: CanonicalSocketAddr,
        id: ConnectionId,
    ) -> bool {
        id.bytes() == connection_id_bytes(self.key(), elapsed_time_bytes, source_addr.get().ip())
    }

    /// Up to when `id` is accepted, if at all: seconds after the start of the tracker.
    pub open spec fn deadline_secs(self, id: ConnectionId) -> nat {
        (id.issued_secs() + self.max_age()) as nat
    }

    /// Whether `id` is accepted from `source_addr` at `now` nanoseconds after the start.
    pub open spec fn accepts(
        self,
        source_addr: CanonicalSocketAddr,
        id: ConnectionId,
        now: nat,
    ) -> bool {
        &&& authentic(self.key(), source_addr.get().ip(), id)
        &&& self.deadline_secs(id) * NANOS_PER_SEC > now
    }

    /// Whether `id` is accepted from `source_addr` when the clock reads `reading`.
    pub open spec fn accepts_at(
        self,
        source_addr: CanonicalSocketAddr,
        id: ConnectionId,
        reading: Instant,
    ) -> bool {
        self.accepts(source_addr, id, nanos_between(self.start(), reading) as nat)
    }

    /// Whether `id` is the one that a client at `source_addr` is given when the clock reads
    /// `reading`.
    pub open spec fn issues_at(
        self,
        source_addr: CanonicalSocketAddr,
        id: ConnectionId,
        reading: Instant,
    ) -> bool {
        issued_at(
            self.key(),
            source_addr.get().ip(),
            ((nanos_between(self.start(), reading) / NANOS_PER_SEC) as u64) as u32,
            id,
        )
    }

    /// Whether the deadline of `id`, where it is asked for, is a time that can be told.
    pub open spec fn deadline_known(
        self,
        source_addr: CanonicalSocketAddr,
        id: ConnectionId,
    ) -> bool {
        authentic(self.key(), source_addr.get().ip(), id) ==> self.deadline_secs(id) <= u64::MAX
    }

    /// A validator with a new random key, whose time starts now. Fails where the operating
    /// system has no randomness to give; which key comes out, and whether one does, is not
    /// stated.
    pub fn new(config: &Config) -> (validator: Result<Self, NewValidatorError>)
        ensures
            validator matches Ok(v) ==> v.wf() && v.max_age()
                == config.cleaning.max_connection_age && v.readings() == seq![v.start()],
    {
        Self::from_random_key(config, random_key())
    }

    /// A validator with the key given, if there is one.
    pub fn from_random_key(config: &Config, key: Result<[u8; 32], getrandom::Error>) -> (validator:
        Result<Self, NewValidatorError>)
        ensures
            match (key, validator) {
                (Ok(k), Ok(v)) => v.wf() && v.key() == k@ && v.max_age()
                    == config.cleaning.max_connection_age && v.readings() == seq![v.start()],
                (Err(e), Err(NewValidatorError::Random(error))) => error == e,
                _ => false,
            },
    {
        match key {
            Ok(key) => Ok(Self::with_key(config, &key)),
            Err(error) => Err(NewValidatorError::Random(error)),
        }
    }

    /// A validator with the key given, whose time starts now.
    pub fn with_key(config: &Config, key: &[u8; 32]) -> (validator: Self)
        ensures
            validator.wf(),
            validator.key() == key@,
            validator.max_age() == config.cleaning.max_connection_age,
            validator.readings() == seq![validator.start()],
    {
        let hmac = new_keyed(key);
        let stopwatch = Stopwatch::started();
        ConnectionValidator {
            stopwatch,
            max_connection_age: config.cleaning.max_connection_age,
            hmac,
        }
    }

    /// The id for a client at `source_addr` at a reading of the clock that the call takes. The
    /// id holds the lower 32 bits of the whole seconds from the start to that reading, which is
    /// no earlier than any reading taken before. How much later it is, is not stated.
    pub fn create_connection_id(&mut self, source_addr: CanonicalSocketAddr) -> (id: ConnectionId)
        requires
            old(self).wf(),
        ensures
            final(self).wf(),
            final(self).same(*old(self)),
            authentic(old(self).key(), source_addr.get().ip(), id),
            exists|reading: Instant| #[trigger] old(self).issues_at(source_addr, id, reading),
            final(self).readings() == old(self).readings().push(final(self).readings().last()),
            old(self).issues_at(source_addr, id, final(self).readings().last()),
            id.issued_secs() == ((nanos_between(
                old(self).start(),
                final(self).readings().last(),
            ) / 1_000_000_000) as u64) as u32,
            forall|known: Instant| #[trigger]
                old(self).readings().contains(known) ==> nanos_between(old(self).start(), known)
                    <= nanos_between(old(self).start(), final(self).readings().last()),
    {
        let (_, nanos) = self.stopwatch.read();
        let ghost reading = self.readings().last();
        let elapsed_secs: u64 = (nanos / NANOS_PER_SEC) as u64;
        let id = self.create_connection_id_at(elapsed_secs, source_addr);
        assert(old(self).issues_at(source_addr, id, reading));
        proof {
            issued_ids_are_authentic(
                old(self).key(),
                source_addr.get().ip(),
                elapsed_secs as u32,
                id,
            );
        }
        id
    }

    /// The id for a client at `source_addr`, `elapsed_secs` seconds after the start. There
    /// is room in an id for the lower 32 bits of the seconds.
    pub fn create_connection_id_at(
        &mut self,
        elapsed_secs: u64,
        source_addr: CanonicalSocketAddr,
    ) -> (id: ConnectionId)
        requires
            old(self).wf(),
        ensures
            final(self).wf(),
            final(self).same(*old(self)),
            final(self).readings() == old(self).readings(),
            issued_at(old(self).key(), source_addr.get().ip(), elapsed_secs as u32, id),
            id.bytes().take(4) == u32_ne_bytes(elapsed_secs as u32),
            id.bytes().skip(4) == keyed_hash_output(
                old(self).key(),
                u32_ne_bytes(elapsed_secs as u32) + source_addr.get().ip().octets(),
                4,
            ),
    {
        let elapsed_time_bytes = u32_to_ne_bytes(elapsed_secs as u32);
        let id = self.create_connection_id_inner(elapsed_time_bytes, source_addr);
        proof {
            issued_ids_hold_time_and_hash(
                old(self).key(),
                source_addr.get().ip(),
                elapsed_secs as u32,
                id,
            );
        }
        id
    }

    /// Whether `connection_id` was made by this validator for a client at `source_addr`,
    /// less than the maximum age before a reading of the clock that the call takes. That
    /// reading is no earlier than any taken before. How much later it is, is not stated.
    pub fn connection_id_valid(
        &mut self,
        source_addr: CanonicalSocketAddr,
        connection_id: ConnectionId,
    ) -> (valid: bool)
        requires
            old(self).wf(),
            old(self).deadline_known(source_addr, connection_id),
        ensures
            final(self).wf(),
            final(self).same(*old(self)),
            !authentic(old(self).key(), source_addr.get().ip(), connection_id) ==> !valid,
            exists|reading: Instant|
                valid == #[trigger] old(self).accepts_at(source_addr, connection_id, reading),
            final(self).readings() == old(self).readings().push(final(self).readings().last()),
            valid == old(self).accepts_at(
                source_addr,
                connection_id,
                final(self).readings().last(),
            ),
            forall|known: Instant| #[trigger]
                old(self).readings().contains(known) ==> nanos_between(old(self).start(), known)
                    <= nanos_between(old(self).start(), final(self).readings().last()),
            forall|known: Instant| #[trigger]
                old(self).readings().contains(known) && nanos_between(old(self).start(), known) >= (
                connection_id.issued_secs() + old(self).max_age()) * 1_000_000_000 ==> !valid,
    {
        let (_, nanos) = self.stopwatch.read();
        let ghost reading = self.readings().last();
        let valid = self.connection_id_valid_at(nanos, source_addr, connection_id);
        assert(valid == old(self).accepts_at(source_addr, connection_id, reading));
        valid
    }

    /// Whether `connection_id` is valid for a client at `source_addr`, `elapsed_nanos`
    /// nanoseconds after the start.
    pub fn connection_id_valid_at(
        &mut self,
        elapsed_nanos: u128,
        source_addr: CanonicalSocketAddr,
        connection_id: ConnectionId,
    ) -> (valid: bool)
        requires
            old(self).wf(),
            old(self).deadline_known(source_addr, connection_id),
        ensures
            final(self).wf(),
            final(self).same(*old(self)),
            final(self).readings() == old(self).readings(),
            valid == old(self).accepts(source_addr, connection_id, elapsed_nanos as nat),
            valid <==> connection_id.bytes().skip(4) == keyed_hash_output(
                old(self).key(),
                connection_id.bytes().take(4) + source_addr.get().ip().octets(),
                4,
            ) && elapsed_nanos < (u32_of_ne_bytes(connection_id.bytes().take(4)) + old(
                self,
            ).max_age()) * 1_000_000_000,
    {
        proof {
            authentic_ids_hold_time_and_hash(
                old(self).key(),
                source_addr.get().ip(),
                connection_id,
            );
        }
        if !self.hash_valid(source_addr, connection_id) {
            return false;
        }
        let issued_secs = Self::issued_secs(connection_id);
        let deadline_secs: u64 = issued_secs as u64 + self.max_connection_age;
        deadline_secs as u128 * NANOS_PER_SEC > elapsed_nanos
    }

    /// As [`Self::connection_id_valid`], for any maximum age: nothing is returned where the
    /// id is the validator's own and its deadline is too late to be told.
    pub fn checked_connection_id_valid(
        &mut self,
        source_addr: CanonicalSocketAddr,
        connection_id: ConnectionId,
    ) -> (valid: Option<bool>)
        requires
            old(self).wf(),
        ensures
            final(self).wf(),
            final(self).same(*old(self)),
            valid is Some <==> old(self).deadline_known(source_addr, connection_id),
            valid is None <==> connection_id.bytes().skip(4) == keyed_hash_output(
                old(self).key(),
                connection_id.bytes().take(4) + source_addr.get().ip().octets(),
                4,
            ) && connection_id.issued_secs() + old(self).max_age() > u64::MAX,
            valid matches Some(v) ==> exists|reading: Instant|
                v == #[trigger] old(self).accepts_at(source_addr, connection_id, reading),
            valid is None ==> final(self).readings() == old(self).readings(),
            valid matches Some(v) ==> {
                &&& final(self).readings() == old(self).readings().push(
                    final(self).readings().last(),
                )
                &&& v == old(self).accepts_at(
                    source_addr,
                    connection_id,
                    final(self).readings().last(),
                )
                &&& forall|known: Instant| #[trigger]
                    old(self).readings().contains(known) ==> nanos_between(
                        old(self).start(),
                        known,
                    ) <= nanos_between(old(self).start(), final(self).readings().last())
            },
    {
        proof {
            authentic_ids_hold_time_and_hash(
                old(self).key(),
                source_addr.get().ip(),
                connection_id,
            );
        }
        let issued_secs = Self::issued_secs(connection_id);
        if issued_secs as u64 > u64::MAX - self.max_connection_age && self.hash_valid(
            source_addr,
            connection_id,
        ) {
            return None;
        }
        let ghost before = *self;
        let valid = self.connection_id_valid(source_addr, connection_id);
        proof {
            let reading = choose|reading: Instant|
                valid == #[trigger] before.accepts_at(source_addr, connection_id, reading);
            assert(valid == old(self).accepts_at(source_addr, connection_id, reading));
        }
        Some(valid)
    }

    /// The seconds that an id holds.
    fn issued_secs(id: ConnectionId) -> (secs: u32)
        ensures
            secs == id.issued_secs(),
    {
        u32_from_ne_bytes(Self::elapsed_time_bytes(id))
    }

    /// The first four bytes of an id.
    fn elapsed_time_bytes(id: ConnectionId) -> (bytes: [u8; 4])
        ensures
            bytes@ == id.bytes().take(4),
    {
        let b = i64_to_ne_bytes(id.0);
        let bytes: [u8; 4] = [b[0], b[1], b[2], b[3]];
        assert(bytes@ =~= id.bytes().take(4));
        bytes
    }

    /// Whether the hash in `id` is that of the time in it and of the address.
    fn hash_valid(&mut self, source_addr: CanonicalSocketAddr, id: ConnectionId) -> (valid: bool)
        requires
            old(self).wf(),
        ensures
            final(self).wf(),
            final(self).same(*old(self)),
            final(self).readings() == old(self).readings(),
            valid == authentic(old(self).key(), source_addr.get().ip(), id),
    {
        let elapsed_time_bytes = Self::elapsed_time_bytes(id);
        let expected = self.create_connection_id_inner(elapsed_time_bytes, source_addr);
        proof {
            i64_ne_bytes_round_trip(id.0, seq![]);
            i64_ne_bytes_round_trip(expected.0, seq![]);
            u32_ne_bytes_round_trip(0, id.bytes().take(4));
        }
        // A comparison of two integers does not tell by its time how far they agree.
        id.0 == expected.0
    }

    /// The id with the time given by its bytes. The first four bytes of an id are the time,
    /// the last four a truncated message authentication code.
    fn create_connection_id_inner(
        &mut self,
        elapsed_time_bytes: [u8; 4],
        source_addr: CanonicalSocketAddr,
    ) -> (id: ConnectionId)
        requires
            old(self).wf(),
        ensures
            final(self).wf(),
            final(self).same(*old(self)),
            final(self).readings() == old(self).readings(),
            old(self).creates(elapsed_time_bytes@, source_addr, id),
    {
        update(&mut self.hmac, &elapsed_time_bytes);
        match source_addr.get().ip() {
            IpAddr::V4(ip) => update(&mut self.hmac, &ip.0),
            IpAddr::V6(ip) => update(&mut self.hmac, &ip.0),
        }
        let t = elapsed_time_bytes;
        let h = finalize_xof(&self.hmac);
        assert(hasher_input(self.hmac) =~= t@ + source_addr.get().ip().octets());
        reset(&mut self.hmac);
        let bytes: [u8; 8] = [t[0], t[1], t[2], t[3], h[0], h[1], h[2], h[3]];
        assert(bytes@ =~= t@ + h@);
        proof {
            i64_ne_bytes_round_trip(0, bytes@);
        }
        ConnectionId(i64_from_ne_bytes(bytes))
    }
}

impl Clone for ConnectionValidator {
    /// A validator that makes and accepts the same ids.
    fn clone(&self) -> (copy: Self)
        ensures
            copy.same(*self),
            copy.wf() == self.wf(),
            copy.readings() == self.readings(),
    {
        ConnectionValidator {
            stopwatch: self.stopwatch.copy(),
            max_connection_age: self.max_connection_age,
            hmac: clone_hasher(&self.hmac),
        }
    }
}

/// The first four bytes of an id are its time, the last four the keyed hash of these and of all
/// bytes of the address.
pub proof fn issued_ids_hold_time_and_hash(key: Seq<u8>, ip: IpAddr, secs: u32, id: ConnectionId)
    ensures
        issued_at(key, ip, secs, id) <==> {
            &&& id.bytes().take(4) == u32_ne_bytes(secs)
            &&& id.bytes().skip(4) == keyed_hash_output(key, u32_ne_bytes(secs) + ip.octets(), 4)
        },
{
    let time = u32_ne_bytes(secs);
    let hash = keyed_hash_output(key, time + ip.octets(), 4);
    u32_ne_bytes_round_trip(secs, seq![]);
    i64_ne_bytes_round_trip(id.0, seq![]);
    assert((time + hash).take(4) =~= time);
    assert((time + hash).skip(4) =~= hash);
    assert(id.bytes() =~= id.bytes().take(4) + id.bytes().skip(4));
}

/// An id is authentic exactly if its last four bytes are the keyed hash of its first four and of
/// all bytes of the address.
pub proof fn authentic_ids_hold_time_and_hash(key: Seq<u8>, ip: IpAddr, id: ConnectionId)
    ensures
        authentic(key, ip, id) <==> id.bytes().skip(4) == keyed_hash_output(
            key,
            id.bytes().take(4) + ip.octets(),
            4,
        ),
{
    i64_ne_bytes_round_trip(id.0, seq![]);
    u32_ne_bytes_round_trip(0, id.bytes().take(4));
    issued_ids_hold_time_and_hash(key, ip, id.issued_secs(), id);
}

/// An id names the time at which it was issued, and is authentic.
pub proof fn issued_ids_are_authentic(key: Seq<u8>, ip: IpAddr, secs: u32, id: ConnectionId)
    requires
        issued_at(key, ip, secs, id),
    ensures
        id.issued_secs() == secs,
        authentic(key, ip, id),
{
    u32_ne_bytes_round_trip(secs, seq![]);
    assert(id.bytes().take(4) =~= u32_ne_bytes(secs));
}

/// There is one id for a time and an address, and ids of different times differ.
pub proof fn issued_ids_are_unique(
    key: Seq<u8>,
    ip: IpAddr,
    secs: u32,
    id: ConnectionId,
    other_ip: IpAddr,
    other_secs: u32,
    other_id: ConnectionId,
)
    requires
        issued_at(key, ip, secs, id),
        issued_at(key, other_ip, other_secs, other_id),
    ensures
        secs == other_secs && ip == other_ip ==> id == other_id,
        secs != other_secs ==> id != other_id,
{
    issued_ids_are_authentic(key, ip, secs, id);
    issued_ids_are_authentic(key, other_ip, other_secs, other_id);
    i64_ne_bytes_round_trip(id.0, seq![]);
    i64_ne_bytes_round_trip(other_id.0, seq![]);
}

/// An id made for an address at `created` nanoseconds after the start is accepted from that
/// address until the maximum age has passed since the whole second in which it was made, and
/// no longer. So it is accepted at every age that is a second or more below the maximum, and
/// at none that has reached it. Holds while the seconds since the start fit in 32 bits.
pub proof fn issued_ids_are_accepted_until_too_old(
    validator: ConnectionValidator,
    source_addr: CanonicalSocketAddr,
    id: ConnectionId,
    created: nat,
    now: nat,
)
    requires
        created / (NANOS_PER_SEC as nat) <= u32::MAX,
        issued_at(
            validator.key(),
            source_addr.get().ip(),
            (created / (NANOS_PER_SEC as nat)) as u32,
            id,
        ),
    ensures
        validator.accepts(source_addr, id, now) <==> now < (created / (NANOS_PER_SEC as nat)
            + validator.max_age()) * NANOS_PER_SEC,
        now + NANOS_PER_SEC <= created + validator.max_age() * NANOS_PER_SEC ==> validator.accepts(
            source_addr,
            id,
            now,
        ),
        now >= created + validator.max_age() * NANOS_PER_SEC ==> !validator.accepts(
            source_addr,
            id,
            now,
        ),
{
    issued_ids_are_authentic(
        validator.key(),
        source_addr.get().ip(),
        (created / (NANOS_PER_SEC as nat)) as u32,
        id,
    );
}

/// An id made at one reading of the clock is accepted at another as long as the maximum age has
/// not passed since the whole second in which it was made, both counted from the start of the
/// validator. Holds while the seconds since the start fit in 32 bits.
pub proof fn ids_made_by_the_clock_are_accepted_until_too_old(
    validator: ConnectionValidator,
    source_addr: CanonicalSocketAddr,
    id: ConnectionId,
    created: Instant,
    reading: Instant,
)
    requires
        nanos_between(validator.start(), created) / NANOS_PER_SEC <= u32::MAX,
        validator.issues_at(source_addr, id, created),
    ensures
        validator.accepts_at(source_addr, id, reading) <==> nanos_between(
            validator.start(),
            reading,
        ) < (nanos_between(validator.start(), created) / NANOS_PER_SEC + validator.max_age())
            * NANOS_PER_SEC,
{
    issued_ids_are_accepted_until_too_old(
        validator,
        source_addr,
        id,
        nanos_between(validator.start(), created) as nat,
        nanos_between(validator.start(), reading) as nat,
    );
}

/// The readings of a validator begin with its start, and none is earlier than one before it.
pub proof fn readings_do_not_go_back(validator: ConnectionValidator)
    requires
        validator.wf(),
    ensures
        validator.readings().len() > 0,
        validator.readings()[0] == validator.start(),
        in_order(validator.start(), validator.readings()),
{
    stopwatches_do_not_go_back(validator.stopwatch);
}

/// Time does not stand still for a check. Let a validator check an id at a reading of the clock,
/// the last that it has taken by then. If at any reading that it took before the maximum age had
/// already passed since the second that the id names, then the id is refused.
pub proof fn ids_past_their_deadline_are_refused(
    before: ConnectionValidator,
    after: ConnectionValidator,
    source_addr: CanonicalSocketAddr,
    id: ConnectionId,
    valid: bool,
    known: Instant,
)
    requires
        after.wf(),
        after.same(before),
        after.readings() == before.readings().push(after.readings().last()),
        valid == before.accepts_at(source_addr, id, after.readings().last()),
        before.readings().contains(known),
        nanos_between(before.start(), known) >= (id.issued_secs() + before.max_age())
            * 1_000_000_000,
    ensures
        !valid,
{
    readings_do_not_go_back(after);
    let i = choose|i: int| 0 <= i < before.readings().len() && before.readings()[i] == known;
    assert(after.readings()[i] == known);
    assert(nanos_between(after.start(), after.readings()[i]) <= nanos_between(
        after.start(),
        after.readings()[after.readings().len() - 1],
    ));
}

/// Time does not stand still for a new id. Let a validator make an id at a reading of the clock,
/// the last that it has taken by then. Then the id names no earlier second than that of any
/// reading that it took before. Holds while the seconds since the start fit in 32 bits.
pub proof fn new_ids_name_no_earlier_second(
    before: ConnectionValidator,
    after: ConnectionValidator,
    source_addr: CanonicalSocketAddr,
    id: ConnectionId,
    known: Instant,
)
    requires
        after.wf(),
        after.same(before),
        after.readings() == before.readings().push(after.readings().last()),
        before.issues_at(source_addr, id, after.readings().last()),
        nanos_between(before.start(), after.readings().last()) / 1_000_000_000 <= u32::MAX,
        before.readings().contains(known),
    ensures
        id.issued_secs() >= nanos_between(before.start(), known) / 1_000_000_000,
        id.issued_secs() == nanos_between(before.start(), after.readings().last()) / 1_000_000_000,
{
    readings_do_not_go_back(after);
    let i = choose|i: int| 0 <= i < before.readings().len() && before.readings()[i] == known;
    assert(after.readings()[i] == known);
    assert(nanos_between(after.start(), after.readings()[i]) <= nanos_between(
        after.start(),
        after.readings()[after.readings().len() - 1],
    ));
    issued_ids_are_authentic(
        before.key(),
        source_addr.get().ip(),
        ((nanos_between(before.start(), after.readings().last()) / NANOS_PER_SEC) as u64) as u32,
        id,
    );
}

/// What one call makes, a later call checks, however long the validator has run. Let a validator
/// make an id at a reading of the clock, and check it from the same IP address at another, which
/// it takes later. Then the later reading is no earlier, the id is accepted if from the one to
/// the other a second less than the maximum age has passed, or still less, and it is refused if
/// the maximum age has passed. Holds while the seconds since the start fit in 32 bits.
pub proof fn new_ids_are_accepted_until_too_old(
    made: ConnectionValidator,
    before_check: ConnectionValidator,
    checked: ConnectionValidator,
    source_addr: CanonicalSocketAddr,
    other_addr: CanonicalSocketAddr,
    id: ConnectionId,
    valid: bool,
)
    requires
        made.wf(),
        checked.wf(),
        before_check.same(made),
        checked.same(before_check),
        before_check.readings().contains(made.readings().last()),
        checked.readings() == before_check.readings().push(checked.readings().last()),
        source_addr.get().ip() == other_addr.get().ip(),
        nanos_between(made.start(), made.readings().last()) / 1_000_000_000 <= u32::MAX,
        made.issues_at(source_addr, id, made.readings().last()),
        valid == before_check.accepts_at(other_addr, id, checked.readings().last()),
    ensures
        ({
            let created = nanos_between(made.start(), made.readings().last());
            let now = nanos_between(made.start(), checked.readings().last());
            let max_age = made.max_age() * 1_000_000_000;
            &&& created <= now
            &&& now - created <= max_age - 1_000_000_000 ==> valid
            &&& now - created >= max_age ==> !valid
        }),
{
    let known = made.readings().last();
    readings_do_not_go_back(checked);
    let i = choose|i: int|
        0 <= i < before_check.readings().len() && before_check.readings()[i] == known;
    assert(checked.readings()[i] == known);
    assert(nanos_between(checked.start(), checked.readings()[i]) <= nanos_between(
        checked.start(),
        checked.readings()[checked.readings().len() - 1],
    ));
    ids_made_by_the_clock_are_accepted_until_too_old(
        made,
        source_addr,
        id,
        known,
        checked.readings().last(),
    );
}

/// What an id is accepted for, in terms of its bytes: the last four are the keyed hash of the
/// first four and of all bytes of the IP address, and the time is before the second that the
/// first four name, put off by the maximum age.
pub proof fn ids_are_accepted_for_their_bytes(
    validator: ConnectionValidator,
    source_addr: CanonicalSocketAddr,
    id: ConnectionId,
    now: nat,
)
    ensures
        validator.accepts(source_addr, id, now) <==> {
            &&& id.bytes().skip(4) == keyed_hash_output(
                validator.key(),
                id.bytes().take(4) + source_addr.get().ip().octets(),
                4,
            )
            &&& now < (u32_of_ne_bytes(id.bytes().take(4)) + validator.max_age()) * 1_000_000_000
        },
{
    authentic_ids_hold_time_and_hash(validator.key(), source_addr.get().ip(), id);
}

/// An id that is not accepted any more is never accepted again.
pub proof fn expired_ids_stay_expired(
    validator: ConnectionValidator,
    source_addr: CanonicalSocketAddr,
    id: ConnectionId,
    earlier: nat,
    later: nat,
)
    requires
        earlier <= later,
        validator.accepts(source_addr, id, later),
    ensures
        validator.accepts(source_addr, id, earlier),
{
}

/// An id belongs to an IP address: from another port of it, it is accepted all the same.
pub proof fn ids_do_not_depend_on_ports(
    validator: ConnectionValidator,
    source_addr: CanonicalSocketAddr,
    other_addr: CanonicalSocketAddr,
    id: ConnectionId,
    now: nat,
)
    requires
        source_addr.get().ip() == other_addr.get().ip(),
    ensures
        validator.accepts(source_addr, id, now) == validator.accepts(other_addr, id, now),
{
}

/// An id that is made belongs to an IP address too: for another port of it, and for the same
/// time, it is the same id.
pub proof fn created_ids_do_not_depend_on_ports(
    validator: ConnectionValidator,
    elapsed_time_bytes: Seq<u8>,
    source_addr: CanonicalSocketAddr,
    id: ConnectionId,
    other_addr: CanonicalSocketAddr,
    other_id: ConnectionId,
)
    requires
        source_addr.get().ip() == other_addr.get().ip(),
        validator.creates(elapsed_time_bytes, source_addr, id),
        validator.creates(elapsed_time_bytes, other_addr, other_id),
    ensures
        id == other_id,
{
    i64_ne_bytes_round_trip(id.0, seq![]);
    i64_ne_bytes_round_trip(other_id.0, seq![]);
}

/// Calls leave nothing behind in a validator. Let `states` be what it is before the first of any
/// number of calls and after each of them, where each call keeps it well-formed and the same, as
/// every method does. Then it is in the end the same as it was, and makes the same id for a
/// time and an address.
pub proof fn calls_leave_nothing_behind(
    states: Seq<ConnectionValidator>,
    elapsed_time_bytes: Seq<u8>,
    source_addr: CanonicalSocketAddr,
    id: ConnectionId,
    later_id: ConnectionId,
)
    requires
        states.len() > 0,
        states[0].wf(),
        forall|i: int|
            0 < i < states.len() ==> (#[trigger] states[i]).wf() && states[i].same(states[i - 1]),
        states[0].creates(elapsed_time_bytes, source_addr, id),
        states.last().creates(elapsed_time_bytes, source_addr, later_id),
    ensures
        states.last().wf(),
        states.last().same(states[0]),
        id == later_id,
{
    same_from_first_to_last(states);
    i64_ne_bytes_round_trip(id.0, seq![]);
    i64_ne_bytes_round_trip(later_id.0, seq![]);
}

proof fn same_from_first_to_last(states: Seq<ConnectionValidator>)
    requires
        states.len() > 0,
        forall|i: int| 0 < i < states.len() ==> (#[trigger] states[i]).same(states[i - 1]),
    ensures
        states.last().same(states[0]),
    decreases states.len(),
{
    if states.len() > 1 {
        let rest = states.drop_last();
        assert forall|i: int| 0 < i < rest.len() implies (#[trigger] rest[i]).same(
            rest[i - 1],
        ) by {
            assert(states[i].same(states[i - 1]));
        }
        same_from_first_to_last(rest);
        assert(states[states.len() - 1].same(states[states.len() - 2]));
    }
}

/// An id that is accepted in two ways, from two addresses or by the holders of two keys, is
/// one for which the two hashes agree. So it is no use elsewhere unless hashes collide.
pub proof fn ids_are_bound_to_key_and_address(
    validator: ConnectionValidator,
    source_addr: CanonicalSocketAddr,
    other: ConnectionValidator,
    other_addr: CanonicalSocketAddr,
    id: ConnectionId,
    now: nat,
)
    requires
        validator.accepts(source_addr, id, now),
        other.accepts(other_addr, id, now),
    ensures
        ({
            let time = u32_ne_bytes(id.issued_secs());
            keyed_hash_output(validator.key(), time + source_addr.get().ip().octets(), 4)
                == keyed_hash_output(other.key(), time + other_addr.get().ip().octets(), 4)
        }),
{
    let time = u32_ne_bytes(id.issued_secs());
    let hash = keyed_hash_output(validator.key(), time + source_addr.get().ip().octets(), 4);
    let other_hash = keyed_hash_output(other.key(), time + other_addr.get().ip().octets(), 4);
    u32_ne_bytes_round_trip(id.issued_secs(), seq![]);
    assert((time + hash).skip(4) =~= hash);
    assert((time + other_hash).skip(4) =~= other_hash);
}

/// Validators that are the same in key, maximum age and start, as a validator and its clone
/// are, accept the same ids at the same time.
pub proof fn same_validators_agree(
    validator: ConnectionValidator,
    other: ConnectionValidator,
    source_addr: CanonicalSocketAddr,
    id: ConnectionId,
    now: nat,
)
    requires
        validator.same(other),
    ensures
        validator.accepts(source_addr, id, now) == other.accepts(source_addr, id, now),
{
}

} // verus!
