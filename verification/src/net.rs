//! Network addresses as plain bytes.

use vstd::prelude::*;

verus! {

/// An IPv4 address, its bytes in network order.
#[derive(Clone, Copy, PartialEq, Eq, Debug)]
pub struct Ipv4Addr(pub [u8; 4]);

/// An IPv6 address, its bytes in network order.
#[derive(Clone, Copy, PartialEq, Eq, Debug)]
pub struct Ipv6Addr(pub [u8; 16]);

/// An address of either version.
#[derive(Clone, Copy, PartialEq, Eq, Debug)]
pub enum IpAddr {
    V4(Ipv4Addr),
    V6(Ipv6Addr),
}

/// An address and a port, with what else goes with an IPv6 address.
#[derive(Clone, Copy, PartialEq, Eq, Debug)]
pub enum SocketAddr {
    V4 { ip: Ipv4Addr, port: u16 },
    V6 { ip: Ipv6Addr, port: u16, flowinfo: u32, scope_id: u32 },
}

/// Whether the sixteen bytes are those of an IPv4-mapped address, `::ffff:a.b.c.d`.
pub open spec fn is_ipv4_mapped(octets: Seq<u8>) -> bool {
    &&& forall|i: int| 0 <= i < 10 ==> octets[i] == 0
    &&& octets[10] == 0xff
    &&& octets[11] == 0xff
}

impl Ipv6Addr {
    /// The IPv4 address that an IPv4-mapped address holds in its last four bytes; nothing
    /// for any other address.
    pub fn to_ipv4_mapped(&self) -> (ip: Option<Ipv4Addr>)
        ensures
            ip is Some <==> is_ipv4_mapped(self.0@),
            ip is Some <==> (forall|i: int| 0 <= i < 10 ==> self.0@[i] == 0) && self.0@[10] == 0xff
                && self.0@[11] == 0xff,
            ip matches Some(v4) ==> v4.0@ == self.0@.subrange(12, 16),
    {
        let o: [u8; 16] = self.0;
        let mut i: usize = 0;
        while i < 10
            invariant
                i <= 10,
                forall|j: int| 0 <= j < i ==> o@[j] == 0,
                o == self.0,
            decreases 10 - i,
        {
            if o[i] != 0 {
                return None;
            }
            i = i + 1;
        }
        if o[10] == 0xff && o[11] == 0xff {
            let v4 = Ipv4Addr([o[12], o[13], o[14], o[15]]);
            assert(v4.0@ =~= self.0@.subrange(12, 16));
            Some(v4)
        } else {
            None
        }
    }
}

impl IpAddr {
    /// The bytes of the address: four or sixteen of them.
    pub open spec fn octets(self) -> Seq<u8> {
        match self {
            IpAddr::V4(ip) => ip.0@,
            IpAddr::V6(ip) => ip.0@,
        }
    }

    /// Whether the address is in its shortest form: not an IPv4 address written as an
    /// IPv6 one.
    pub open spec fn is_canonical(self) -> bool {
        self matches IpAddr::V6(ip) ==> !is_ipv4_mapped(ip.0@)
    }
}

impl SocketAddr {
    /// The address.
    pub open spec fn spec_ip(self) -> IpAddr {
        match self {
            SocketAddr::V4 { ip, .. } => IpAddr::V4(ip),
            SocketAddr::V6 { ip, .. } => IpAddr::V6(ip),
        }
    }

    /// The port.
    pub open spec fn spec_port(self) -> u16 {
        match self {
            SocketAddr::V4 { port, .. } => port,
            SocketAddr::V6 { port, .. } => port,
        }
    }

    /// The address.
    #[verifier::when_used_as_spec(spec_ip)]
    pub fn ip(self) -> (ip: IpAddr)
        ensures
            ip == self.spec_ip(),
            match self {
                SocketAddr::V4 { ip: v4, .. } => ip == IpAddr::V4(v4),
                SocketAddr::V6 { ip: v6, .. } => ip == IpAddr::V6(v6),
            },
    {
        match self {
            SocketAddr::V4 { ip, .. } => IpAddr::V4(ip),
            SocketAddr::V6 { ip, .. } => IpAddr::V6(ip),
        }
    }
}

/// A socket address whose IPv4-mapped IPv6 addresses have been turned into IPv4 ones, so
/// that a peer has one address whichever socket it came in by.
#[derive(Clone, Copy, PartialEq, Eq, Debug)]
pub struct CanonicalSocketAddr {
    addr: SocketAddr,
}

impl CanonicalSocketAddr {
    /// The address held.
    pub closed spec fn spec_get(self) -> SocketAddr {
        self.addr
    }

    /// Whether this is the canonical form of `addr`.
    pub open spec fn is_form_of(self, addr: SocketAddr) -> bool {
        if addr.ip().is_canonical() {
            self.spec_get() == addr
        } else {
            &&& self.spec_get() is V4
            &&& self.spec_get().ip().octets() == addr.ip().octets().subrange(12, 16)
            &&& self.spec_get().spec_port() == addr.spec_port()
        }
    }

    /// The canonical form of `addr`: an IPv4-mapped address gives way to the IPv4 address in
    /// it, any other socket address is kept whole.
    pub fn new(addr: SocketAddr) -> (canonical: Self)
        ensures
            canonical.spec_get().ip().is_canonical(),
            addr.ip().is_canonical() ==> canonical.spec_get() == addr,
            !addr.ip().is_canonical() ==> {
                &&& canonical.spec_get() is V4
                &&& canonical.spec_get().ip().octets() == addr.ip().octets().subrange(12, 16)
                &&& canonical.spec_get().spec_port() == addr.spec_port()
            },
            canonical.is_form_of(addr),
            match addr {
                SocketAddr::V4 { .. } => canonical.spec_get() == addr,
                SocketAddr::V6 { ip, port, .. } => if (forall|i: int| 0 <= i < 10 ==> ip.0@[i] == 0)
                    && ip.0@[10] == 0xff && ip.0@[11] == 0xff {
                    canonical.spec_get() matches SocketAddr::V4 { ip: v4, port: p } && p == port
                        && v4.0@ == ip.0@.subrange(12, 16)
                } else {
                    canonical.spec_get() == addr
                },
            },
    {
        match addr {
            SocketAddr::V4 { .. } => CanonicalSocketAddr { addr },
            SocketAddr::V6 { ip, port, .. } => match ip.to_ipv4_mapped() {
                Some(v4) => CanonicalSocketAddr { addr: SocketAddr::V4 { ip: v4, port } },
                None => CanonicalSocketAddr { addr },
            },
        }
    }

    /// The address held.
    #[verifier::when_used_as_spec(spec_get)]
    pub fn get(self) -> (addr: SocketAddr)
        ensures
            addr == self.spec_get(),
    {
        self.addr
    }
}

/// The bytes of an address are all that it is made of: four for IPv4, sixteen for IPv6.
pub proof fn octets_are_the_whole_address(v4: Ipv4Addr, v6: Ipv6Addr)
    ensures
        IpAddr::V4(v4).octets() == v4.0@,
        IpAddr::V4(v4).octets().len() == 4,
        IpAddr::V6(v6).octets() == v6.0@,
        IpAddr::V6(v6).octets().len() == 16,
{
}

/// A canonical form is its own canonical form.
pub proof fn canonical_forms_are_final(
    addr: SocketAddr,
    canonical: CanonicalSocketAddr,
    again: CanonicalSocketAddr,
)
    requires
        canonical.is_form_of(addr),
        again.is_form_of(canonical.spec_get()),
    ensures
        again.spec_get() == canonical.spec_get(),
{
}

/// A client has one address whichever socket it comes in by: an IPv4 address and the IPv6
/// address that is ten bytes of zero, two of 0xff, and that IPv4 address, whatever it is, have
/// the same canonical form.
pub proof fn mapped_addresses_take_their_ipv4_form(
    v4: Ipv4Addr,
    v6: Ipv6Addr,
    port: u16,
    flowinfo: u32,
    scope_id: u32,
    canonical: CanonicalSocketAddr,
    other: CanonicalSocketAddr,
)
    requires
        v6.0@ == seq![0u8, 0u8, 0u8, 0u8, 0u8, 0u8, 0u8, 0u8, 0u8, 0u8, 0xffu8, 0xffu8] + v4.0@,
        canonical.is_form_of(SocketAddr::V6 { ip: v6, port, flowinfo, scope_id }),
        other.is_form_of(SocketAddr::V4 { ip: v4, port }),
    ensures
        canonical.spec_get() == (SocketAddr::V4 { ip: v4, port }),
        other.spec_get() == canonical.spec_get(),
{
    assert(v6.0@.subrange(12, 16) =~= v4.0@);
    assert(canonical.spec_get()->V4_ip.0 =~= v4.0);
}

/// An IPv6 address that does not begin with ten bytes of zero and two of 0xff is kept whole, with
/// all that goes with it.
pub proof fn other_addresses_are_kept_whole(
    v6: Ipv6Addr,
    port: u16,
    flowinfo: u32,
    scope_id: u32,
    canonical: CanonicalSocketAddr,
    i: int,
)
    requires
        0 <= i < 12,
        v6.0@[i] != (if i < 10 { 0u8 } else { 0xffu8 }),
        canonical.is_form_of(SocketAddr::V6 { ip: v6, port, flowinfo, scope_id }),
    ensures
        canonical.spec_get() == (SocketAddr::V6 { ip: v6, port, flowinfo, scope_id }),
{
}

} // verus!
