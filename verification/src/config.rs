//! The mapping table and the parsed configuration.
//!
//! The client exposes one local TCP port per mapping and forwards every
//! connection accepted there to the mapping's outer destination; the
//! server listens on a single port. Loading and parsing configuration
//! files is the surrounding application's concern: it hands these types
//! the already parsed, typed values. Mappings are immutable for the
//! process lifetime.

use vstd::prelude::*;

use crate::header::{encode_header, spec_decode, spec_encode, Target};

verus! {

/// One inner-to-outer mapping: connections accepted on the local TCP
/// port `inner` are forwarded to the destination `outer`.
#[derive(Clone, Copy, Debug, PartialEq, Eq, Structural)]
pub struct Iomap {
    pub inner: u16,
    pub outer: Target,
}

/// The client's configuration: the server to tunnel through, the trust
/// anchor to verify it with, and the ordered mapping table.
#[derive(Clone, Debug)]
pub struct Client {
    pub server: Target,
    pub public_key_file: String,
    pub map: Vec<Iomap>,
}

/// The server's configuration: the port to accept transport sessions on
/// and the certificate material presented to clients.
#[derive(Clone, Debug)]
pub struct Server {
    pub port: u16,
    pub private_key_file: String,
    pub public_key_file: String,
}

/// A parsed configuration file: a process may run a server, a client,
/// or both.
#[derive(Clone, Debug)]
pub struct Config {
    pub server: Option<Server>,
    pub client: Option<Client>,
}

/// The six-byte header a mapping's listener precomputes once and writes
/// at the head of every multiplexed stream it opens: it always names
/// this mapping's own outer destination.
pub fn header_for_mapping(m: &Iomap) -> (r: Vec<u8>)
    ensures
        r@ == spec_encode(m.outer),
        spec_decode(r@) == m.outer,
{
    proof {
        crate::header::lemma_header_round_trip(m.outer);
    }
    encode_header(&m.outer)
}

/// Mapping isolation: the header carried by a connection accepted on one
/// mapping decodes to that mapping's own destination; when two mappings
/// forward to distinct destinations, neither header can ever be read as
/// the other's, so traffic on one inner port is never routed to the
/// other mapping's destination, under any interleaving.
pub proof fn lemma_mapping_isolation(m1: Iomap, m2: Iomap)
    requires
        m1.outer != m2.outer,
    ensures
        spec_decode(spec_encode(m1.outer)) == m1.outer,
        spec_decode(spec_encode(m2.outer)) == m2.outer,
        spec_decode(spec_encode(m1.outer)) != m2.outer,
        spec_encode(m1.outer) != spec_encode(m2.outer),
{
    crate::header::lemma_header_round_trip(m1.outer);
    crate::header::lemma_header_round_trip(m2.outer);
    crate::header::lemma_header_injective(m1.outer, m2.outer);
}

} // verus!
