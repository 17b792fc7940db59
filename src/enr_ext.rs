use vstd::prelude::*;
use crate::addresses::{
    collect_dial_addrs, dial_addr_texts, dial_addrs, dial_text, enode_id, enode_text, is_dial_text,
    multiaddr,
    multiaddr_quic, multiaddr_tcp, multiaddr_udp, DialAddr,
};
use crate::error::EnrError;
use crate::fork_id::{decode_fork_id, EnrForkId};
use crate::identity::{is_identity_multihash, node_id_of, peer_id, peer_id_of, PeerId};
use crate::keys::PublicKey;
use crate::record::{opt_bytes, Endpoints, Record};

verus! {

/// The address and identity views of a record.
pub trait EnrExt {
    /// The record's addresses and ports.
    spec fn ext_endpoints(&self) -> Endpoints;

    /// The record's public key.
    spec fn ext_public_key(&self) -> PublicKey;

    /// The libp2p peer identifier of the record's key.
    fn peer_id(&self) -> (r: PeerId)
        ensures
            r.bytes@ == peer_id_of(self.ext_public_key()),
    ;

    /// Every dial address (UDP, TCP, QUIC; IPv4 before IPv6).
    fn multiaddr(&self) -> (r: Vec<DialAddr>)
        ensures
            r@ == dial_addrs(self.ext_endpoints(), true, true, true),
    ;

    /// The multiaddress texts with the peer identifier appended.
    fn multiaddr_p2p(&self) -> (r: Vec<String>)
        ensures
            p2p_texts_ok(self.ext_endpoints(), self.ext_public_key(), true, true, true, r@),
    ;

    /// The TCP multiaddress texts with the peer identifier appended.
    fn multiaddr_p2p_tcp(&self) -> (r: Vec<String>)
        ensures
            p2p_texts_ok(self.ext_endpoints(), self.ext_public_key(), true, false, false, r@),
    ;

    /// The UDP multiaddress texts with the peer identifier appended.
    fn multiaddr_p2p_udp(&self) -> (r: Vec<String>)
        ensures
            p2p_texts_ok(self.ext_endpoints(), self.ext_public_key(), false, true, false, r@),
    ;

    /// The TCP dial addresses.
    fn multiaddr_tcp(&self) -> (r: Vec<DialAddr>)
        ensures
            r@ == dial_addrs(self.ext_endpoints(), true, false, false),
    ;

    /// The legacy `enode://` address.
    fn enode_id(&self) -> (r: String)
        ensures
            r@ == enode_text(node_id_of(self.ext_public_key()), self.ext_endpoints()),
    ;
}

/// The eth2 fields of a record.
pub trait Eth2Enr {
    /// The eth2 value the record carries.
    spec fn ext_eth2(&self) -> Option<Seq<u8>>;

    /// The attestation subnet bitfield the record carries.
    spec fn ext_attnets(&self) -> Option<Seq<u8>>;

    /// The attestation subnet bitfield.
    fn bitfield(&self) -> (r: Option<Vec<u8>>)
        ensures
            opt_bytes(r) == self.ext_attnets(),
    ;

    /// The fork identifier.
    fn eth2(&self) -> (r: Result<EnrForkId, EnrError>)
        ensures
            self.ext_eth2() is None ==> r == Err::<EnrForkId, EnrError>(EnrError::MissingField),
            self.ext_eth2() is Some ==> r == decode_fork_id(self.ext_eth2()->0),
    ;
}

/// The multiaddress texts of the selected dial addresses, each with `/p2p/`
/// and the peer identifier of `pk`.
pub open spec fn p2p_texts_ok(
    e: Endpoints,
    pk: PublicKey,
    tcp: bool,
    udp: bool,
    quic: bool,
    r: Seq<String>,
) -> bool {
    let addrs = dial_addrs(e, tcp, udp, quic);
    &&& r.len() == addrs.len()
    &&& forall|i: int|
        0 <= i < addrs.len() ==> #[trigger] r[i]@ == dial_text(addrs[i], Some(peer_id_of(pk)))
}

impl Record {
    /// The libp2p peer identifier of the record's key.
    pub fn libp2p_peer_id(&self) -> (r: PeerId)
        ensures
            r.bytes@ == peer_id_of(self.spec_public_key()),
            is_identity_multihash(r.bytes@) && r.bytes@.len() <= 39,
    {
        peer_id(self.public_key())
    }

    /// The selected multiaddress texts, each with the record's peer identifier.
    pub fn p2p_texts(&self, tcp: bool, udp: bool, quic: bool) -> (r: Vec<String>)
        ensures
            p2p_texts_ok(self.spec_endpoints(), self.spec_public_key(), tcp, udp, quic, r@),
    {
        let e = self.endpoints();
        let addrs = collect_dial_addrs(&e, tcp, udp, quic);
        let p = self.libp2p_peer_id();
        let r = dial_addr_texts(&addrs, Some(&p));
        assert forall|i: int| 0 <= i < addrs@.len() implies #[trigger] r@[i]@ == dial_text(
            addrs@[i],
            Some(peer_id_of(self.spec_public_key())),
        ) by {
            assert(is_dial_text(addrs@[i], Some(p.bytes@), r@[i]@));
        }
        r
    }

    /// The legacy `enode://` address of the record.
    pub fn enode(&self) -> (r: String)
        ensures
            r@ == enode_text(node_id_of(self.spec_public_key()), self.spec_endpoints()),
    {
        let n = self.node_id();
        let e = self.endpoints();
        enode_id(&n, &e)
    }

    /// Every dial address of the record.
    pub fn dial_addrs(&self) -> (r: Vec<DialAddr>)
        ensures
            r@ == dial_addrs(self.spec_endpoints(), true, true, true),
    {
        multiaddr(&self.endpoints())
    }

    /// The QUIC dial addresses of the record.
    pub fn multiaddr_quic(&self) -> (r: Vec<DialAddr>)
        ensures
            r@ == dial_addrs(self.spec_endpoints(), false, false, true),
    {
        multiaddr_quic(&self.endpoints())
    }

    /// The UDP dial addresses of the record.
    pub fn multiaddr_udp(&self) -> (r: Vec<DialAddr>)
        ensures
            r@ == dial_addrs(self.spec_endpoints(), false, true, false),
    {
        multiaddr_udp(&self.endpoints())
    }
}

impl EnrExt for Record {
    open spec fn ext_endpoints(&self) -> Endpoints {
        self.spec_endpoints()
    }

    open spec fn ext_public_key(&self) -> PublicKey {
        self.spec_public_key()
    }

    fn peer_id(&self) -> (r: PeerId) {
        self.libp2p_peer_id()
    }

    fn multiaddr(&self) -> (r: Vec<DialAddr>) {
        self.dial_addrs()
    }

    fn multiaddr_p2p(&self) -> (r: Vec<String>) {
        self.p2p_texts(true, true, true)
    }

    fn multiaddr_p2p_tcp(&self) -> (r: Vec<String>) {
        self.p2p_texts(true, false, false)
    }

    fn multiaddr_p2p_udp(&self) -> (r: Vec<String>) {
        self.p2p_texts(false, true, false)
    }

    fn multiaddr_tcp(&self) -> (r: Vec<DialAddr>) {
        multiaddr_tcp(&self.endpoints())
    }

    fn enode_id(&self) -> (r: String) {
        self.enode()
    }
}

impl Eth2Enr for Record {
    open spec fn ext_eth2(&self) -> Option<Seq<u8>> {
        self.spec_eth2()
    }

    open spec fn ext_attnets(&self) -> Option<Seq<u8>> {
        self.spec_attnets()
    }

    fn bitfield(&self) -> (r: Option<Vec<u8>>) {
        Record::bitfield(self)
    }

    fn eth2(&self) -> (r: Result<EnrForkId, EnrError>) {
        Record::eth2(self)
    }
}

} // verus!
