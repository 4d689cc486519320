//! The per-peer state machine of the ring.
//!
//! A [`Node`] is the authoritative local state of one peer: its own
//! identifier and addresses, its predecessor / successor / second
//! successor pointers, its store, and the crash-simulation flag.  Every
//! ring decision — ownership, routing, join, leave, stabilization,
//! successor-failure recovery and the message handlers — is a function
//! on this state.  Transports are driven from outside: a decision that
//! needs the network returns whom to contact, and the answer is handed
//! back to the next decision function.

use vstd::prelude::*;

use crate::network::{is_request, Message, MessageError};
use crate::routing::id::{between, id_of_bytes, HashIdentifier, Identifier};
use crate::store::Store;

verus! {

/// A transport address, as plain values: whether it is IPv6, the IP
/// octets packed big-endian into integers (`ip_hi` the first eight
/// octets of a v6 address, zero for v4; `ip_lo` the remaining eight,
/// or the four v4 octets), and the port.
#[derive(Clone, Copy, PartialEq, Eq, Structural, Debug, Hash)]
pub struct Addr {
    pub v6: bool,
    pub ip_hi: u64,
    pub ip_lo: u64,
    pub port: u16,
}

/// The eight bytes of a 64-bit value, most significant first.
pub open spec fn u64_be_bytes(x: u64) -> Seq<u8> {
    seq![
        ((x / 0x100000000000000) % 256) as u8,
        ((x / 0x1000000000000) % 256) as u8,
        ((x / 0x10000000000) % 256) as u8,
        ((x / 0x100000000) % 256) as u8,
        ((x / 0x1000000) % 256) as u8,
        ((x / 0x10000) % 256) as u8,
        ((x / 0x100) % 256) as u8,
        (x % 256) as u8,
    ]
}

/// The four bytes of a 32-bit value, most significant first.
pub open spec fn u32_be_bytes(x: u64) -> Seq<u8> {
    seq![
        ((x / 0x1000000) % 256) as u8,
        ((x / 0x10000) % 256) as u8,
        ((x / 0x100) % 256) as u8,
        (x % 256) as u8,
    ]
}

/// The canonical bytes an address hashes over: the IP octets in network
/// order, then the port in little-endian order.
pub open spec fn addr_canonical_bytes(a: Addr) -> Seq<u8> {
    (if a.v6 {
        u64_be_bytes(a.ip_hi) + u64_be_bytes(a.ip_lo)
    } else {
        u32_be_bytes(a.ip_lo)
    }) + seq![(a.port % 256) as u8, (a.port / 256) as u8]
}

impl Addr {
    /// Append the big-endian bytes of the low 32 bits of `x` to `out`.
    fn push_u32_be(out: &mut Vec<u8>, x: u64)
        ensures
            final(out)@ == old(out)@ + u32_be_bytes(x),
    {
        out.push(((x / 0x1000000) % 256) as u8);
        out.push(((x / 0x10000) % 256) as u8);
        out.push(((x / 0x100) % 256) as u8);
        out.push((x % 256) as u8);
        proof {
            assert(out@ =~= old(out)@ + u32_be_bytes(x));
        }
    }

    /// Append the big-endian bytes of `x` to `out`.
    fn push_u64_be(out: &mut Vec<u8>, x: u64)
        ensures
            final(out)@ == old(out)@ + u64_be_bytes(x),
    {
        out.push(((x / 0x100000000000000) % 256) as u8);
        out.push(((x / 0x1000000000000) % 256) as u8);
        out.push(((x / 0x10000000000) % 256) as u8);
        out.push(((x / 0x100000000) % 256) as u8);
        out.push(((x / 0x1000000) % 256) as u8);
        out.push(((x / 0x10000) % 256) as u8);
        out.push(((x / 0x100) % 256) as u8);
        out.push((x % 256) as u8);
        proof {
            assert(out@ =~= old(out)@ + u64_be_bytes(x));
        }
    }

    /// The canonical bytes this address hashes over.
    pub fn canonical_bytes(&self) -> (r: Vec<u8>)
        ensures
            r@ == addr_canonical_bytes(*self),
    {
        let mut out: Vec<u8> = Vec::new();
        if self.v6 {
            Self::push_u64_be(&mut out, self.ip_hi);
            Self::push_u64_be(&mut out, self.ip_lo);
        } else {
            Self::push_u32_be(&mut out, self.ip_lo);
        }
        out.push((self.port % 256) as u8);
        out.push((self.port / 256) as u8);
        proof {
            assert(out@ =~= addr_canonical_bytes(*self));
        }
        out
    }
}

/// The identifier a transport address hashes to.
pub open spec fn addr_id(a: Addr) -> Identifier {
    id_of_bytes(addr_canonical_bytes(a))
}

impl HashIdentifier<Identifier> for Addr {
    open spec fn spec_hash_id(&self) -> Identifier {
        addr_id(*self)
    }

    fn hash_id(&self) -> (r: Identifier) {
        let bytes = self.canonical_bytes();
        Identifier::from_bytes(bytes.as_slice())
    }
}

/// A string key hashes over its raw bytes.
impl HashIdentifier<Identifier> for Vec<u8> {
    open spec fn spec_hash_id(&self) -> Identifier {
        id_of_bytes(self@)
    }

    fn hash_id(&self) -> (r: Identifier) {
        Identifier::from_bytes(self.as_slice())
    }
}

/// Another peer of the ring: its identifier (derived from its RPC
/// address) and its two addresses.
#[derive(Clone, Copy, PartialEq, Eq, Structural, Debug)]
pub struct Neighbor {
    pub id: Identifier,
    pub addr: Addr,
    pub web_addr: Addr,
}

impl Neighbor {
    /// A neighbor handle for the peer at `addr`, identified by the hash
    /// of that address.
    pub fn new(addr: Addr, web_addr: Addr) -> (n: Neighbor)
        ensures
            n == (Neighbor { id: addr_id(addr), addr, web_addr }),
    {
        Neighbor { id: addr.hash_id(), addr, web_addr }
    }
}

/// The authoritative state of one peer.
pub struct Node {
    /// The identifier of this peer: the hash of its RPC address.
    pub id: Identifier,
    /// Where other peers reach this peer over RPC.
    pub address: Addr,
    /// Where clients (and forwarded data-plane requests) reach this peer.
    pub web_address: Addr,
    /// The peer immediately counter-clockwise of this one, if known.
    pub predecessor: Option<Neighbor>,
    /// The peer immediately clockwise of this one; itself in a singleton ring.
    pub successor: Neighbor,
    /// The successor's successor, cached for failover.
    pub second_successor: Option<Neighbor>,
    /// Whether the peer pretends to have crashed.
    pub sim_crash_state: bool,
    /// The values this peer currently owns.
    pub store: Store,
}

/// The identity fields, crash flag and store of a peer are untouched.
pub open spec fn same_identity(pre: Node, post: Node) -> bool {
    &&& post.id == pre.id
    &&& post.address == pre.address
    &&& post.web_address == pre.web_address
    &&& post.sim_crash_state == pre.sim_crash_state
    &&& post.store == pre.store
}

/// What a routing step decided.
#[derive(Clone, Copy, PartialEq, Eq, Structural, Debug)]
pub enum FindStep {
    /// This neighbor owns the identifier.
    Found(Neighbor),
    /// Ask this peer (the successor) to continue the walk.
    Forward(Neighbor),
}

/// What a local lookup decided.
#[derive(PartialEq, Debug)]
pub enum LookupStep {
    /// This peer owns the key; the local result is final.
    Local(Option<Vec<u8>>),
    /// Ask this peer (the successor) for the owner of this identifier,
    /// then fetch the key from the owner over the data plane.
    Remote(Neighbor, Identifier),
}

/// What a local put decided.
#[derive(Clone, Copy, PartialEq, Eq, Structural, Debug)]
pub enum PutStep {
    /// This peer owns the key; the value is stored.
    Stored,
    /// Ask this peer (the successor) for the owner of this identifier,
    /// then hand the value to the owner over the data plane.
    Remote(Neighbor, Identifier),
}

/// What handling an incoming message decided.
#[derive(Clone, Copy, PartialEq, Debug)]
pub enum HandleOutcome {
    /// Answer with this message.
    Reply(Message),
    /// The message needs no answer.
    NoReply,
    /// A lookup that must be forwarded: ask this peer (the successor)
    /// for the owner of this identifier and reply `LookupResult` with it.
    Forward(Neighbor, Identifier),
}

/// What a join decided.
#[derive(Clone, Copy, PartialEq, Eq, Structural, Debug)]
pub enum JoinStep {
    /// Joining through oneself: nothing to do.
    NoOp,
    /// Ask this bootstrap peer for the successor of this peer's identifier.
    Contact(Neighbor),
}

/// Whom stabilization must ask for a predecessor candidate.
#[derive(Clone, Copy, PartialEq, Debug)]
pub enum StabilizeQuery {
    /// The peer is crashed: skip the round.
    Skip,
    /// Singleton ring: the local predecessor is the candidate.
    Local(Option<Neighbor>),
    /// Ask this peer (the successor) for its predecessor.
    Remote(Neighbor),
}

/// The outbound work a stabilization round still owes.
#[derive(Clone, Copy, PartialEq, Debug)]
pub struct StabilizeFollowUp {
    /// Ask this newly adopted successor for its successor, to refresh
    /// the second-successor cache.
    pub refresh: Option<Neighbor>,
    /// Send `Notify` of this peer to this (possibly updated) successor.
    pub notify: Option<Neighbor>,
}

/// The predecessor after a `Notify(other)` hint: accepted if none was
/// known, or if `other` lies strictly between the current predecessor
/// and the peer.
pub open spec fn notified_predecessor(pre: Node, other: Neighbor) -> Option<Neighbor> {
    match pre.predecessor {
        None => Some(other),
        Some(p) => if between(other.id, p.id, pre.id) && p.id != other.id {
            Some(other)
        } else {
            Some(p)
        },
    }
}

/// The successor after a stabilization round that obtained the
/// predecessor candidate `x` from the current successor: adopted when
/// it lies strictly between the peer and its successor.
pub open spec fn stabilized_successor(pre: Node, x: Option<Neighbor>) -> Neighbor {
    match x {
        Some(xn) => if between(xn.id, pre.id, pre.successor.id) && xn.id != pre.successor.id {
            xn
        } else {
            pre.successor
        },
        None => pre.successor,
    }
}

/// The `/node-info` discovery record of a peer.
#[derive(PartialEq, Debug)]
pub struct NodeInfo {
    /// The peer's identifier.
    pub node_hash: Identifier,
    /// The peer's RPC address.
    pub chord_address: Addr,
    /// The HTTP address of the peer's successor.
    pub successor: Addr,
    /// The HTTP addresses of the predecessor and the second successor,
    /// as far as they are known.
    pub others: Vec<Addr>,
}

impl Node {
    /// This peer as a neighbor handle.
    pub open spec fn spec_self_neighbor(self) -> Neighbor {
        Neighbor { id: self.id, addr: self.address, web_addr: self.web_address }
    }

    /// Whether this peer owns `id`: the exact ownership predicate.  A
    /// peer without a predecessor claims the full ring.
    pub open spec fn spec_contains_id(self, id: Identifier) -> bool {
        match self.predecessor {
            Some(p) => between(id, p.id, self.id),
            None => true,
        }
    }

    /// Where the owner of `id` is found from this peer: itself if it
    /// owns `id` or is a singleton ring, its successor otherwise.
    pub open spec fn spec_find_successor(self, id: Identifier) -> FindStep {
        if self.spec_contains_id(id) {
            FindStep::Found(self.spec_self_neighbor())
        } else if self.successor.id == self.id {
            FindStep::Found(self.successor)
        } else {
            FindStep::Forward(self.successor)
        }
    }

    /// A fresh peer: a singleton ring that is its own successor, with
    /// no predecessor, an empty store, and the identifier its RPC
    /// address hashes to.
    pub fn new(addr: Addr, web_addr: Addr) -> (n: Node)
        ensures
            n.id == addr_id(addr),
            n.address == addr,
            n.web_address == web_addr,
            n.predecessor is None,
            n.successor == (Neighbor { id: addr_id(addr), addr, web_addr }),
            n.second_successor is None,
            !n.sim_crash_state,
            n.store@ == Map::<Seq<u8>, Seq<u8>>::empty(),
    {
        Node {
            id: addr.hash_id(),
            address: addr,
            web_address: web_addr,
            predecessor: None,
            successor: Neighbor::new(addr, web_addr),
            second_successor: None,
            sim_crash_state: false,
            store: Store::new(),
        }
    }

    /// This peer as a neighbor handle.
    pub fn self_neighbor(&self) -> (n: Neighbor)
        ensures
            n == self.spec_self_neighbor(),
    {
        Neighbor { id: self.id, addr: self.address, web_addr: self.web_address }
    }

    /// Whether this peer owns `id`.
    pub fn contains_id(&self, id: Identifier) -> (r: bool)
        ensures
            r == self.spec_contains_id(id),
    {
        match &self.predecessor {
            Some(p) => id.is_between(p.id, self.id),
            None => true,
        }
    }

    /// One step of the routing walk for `id`.
    pub fn find_successor(&self, id: Identifier) -> (r: FindStep)
        ensures
            r == self.spec_find_successor(id),
    {
        if self.contains_id(id) {
            FindStep::Found(self.self_neighbor())
        } else if self.successor.id == self.id {
            FindStep::Found(self.successor)
        } else {
            FindStep::Forward(self.successor)
        }
    }

    /// Find the value for `key`: answered from the local store when this
    /// peer owns the key, otherwise the owner must be found through the
    /// successor and asked over the data plane.
    pub fn lookup(&self, key: &Vec<u8>) -> (r: LookupStep)
        ensures
            ({
                let kid = id_of_bytes(key@);
                if self.spec_contains_id(kid) {
                    match r {
                        LookupStep::Local(v) => match v {
                            Some(val) => self.store@.contains_key(key@) && val@
                                == self.store@[key@],
                            None => !self.store@.contains_key(key@),
                        },
                        LookupStep::Remote(_, _) => false,
                    }
                } else {
                    r == LookupStep::Remote(self.successor, kid)
                }
            }),
    {
        let kid = key.hash_id();
        if self.contains_id(kid) {
            LookupStep::Local(self.store.get(key))
        } else {
            LookupStep::Remote(self.successor, kid)
        }
    }

    /// Place `value` under `key`: stored locally when this peer owns the
    /// key — a peer never stores a key it does not own — otherwise the
    /// owner must be found through the successor and handed the value
    /// over the data plane.
    pub fn put(&mut self, key: Vec<u8>, value: Vec<u8>) -> (r: PutStep)
        ensures
            ({
                let kid = id_of_bytes(key@);
                if old(self).spec_contains_id(kid) {
                    &&& r == PutStep::Stored
                    &&& final(self).id == old(self).id
                    &&& final(self).address == old(self).address
                    &&& final(self).web_address == old(self).web_address
                    &&& final(self).predecessor == old(self).predecessor
                    &&& final(self).successor == old(self).successor
                    &&& final(self).second_successor == old(self).second_successor
                    &&& final(self).sim_crash_state == old(self).sim_crash_state
                    &&& final(self).store@ == old(self).store@.insert(key@, value@)
                } else {
                    &&& r == PutStep::Remote(old(self).successor, kid)
                    &&& *final(self) == *old(self)
                }
            }),
    {
        let kid = key.hash_id();
        if self.contains_id(kid) {
            self.store.insert(key, value);
            PutStep::Stored
        } else {
            PutStep::Remote(self.successor, kid)
        }
    }

    /// Take a `Notify(other)` hint.
    pub fn notify(&mut self, other: Neighbor)
        ensures
            same_identity(*old(self), *final(self)),
            final(self).successor == old(self).successor,
            final(self).second_successor == old(self).second_successor,
            final(self).predecessor == notified_predecessor(*old(self), other),
    {
        match &self.predecessor {
            Some(p) => {
                if other.id.is_between(p.id, self.id) && p.id != other.id {
                    self.predecessor = Some(other);
                }
            }
            None => {
                self.predecessor = Some(other);
            }
        }
    }

    /// Handle one incoming control-plane message.  A crashed peer
    /// refuses every message as a transport failure, so callers see a
    /// dead peer rather than an application error.
    pub fn handle_message(&mut self, msg: Message) -> (r: Result<HandleOutcome, MessageError>)
        requires
            is_request(msg),
        ensures
            old(self).sim_crash_state ==> r == Err::<HandleOutcome, MessageError>(
                MessageError::IOError,
            ) && *final(self) == *old(self),
            !old(self).sim_crash_state ==> match msg {
                Message::Lookup(id) => *final(self) == *old(self) && r == Ok::<
                    HandleOutcome,
                    MessageError,
                >(
                    match old(self).spec_find_successor(id) {
                        FindStep::Found(n) => HandleOutcome::Reply(Message::LookupResult(n)),
                        FindStep::Forward(s) => HandleOutcome::Forward(s, id),
                    },
                ),
                Message::Notify(n) => {
                    &&& r == Ok::<HandleOutcome, MessageError>(HandleOutcome::NoReply)
                    &&& same_identity(*old(self), *final(self))
                    &&& final(self).successor == old(self).successor
                    &&& final(self).second_successor == old(self).second_successor
                    &&& final(self).predecessor == notified_predecessor(*old(self), n)
                },
                Message::GetPredecessor => *final(self) == *old(self) && r == Ok::<
                    HandleOutcome,
                    MessageError,
                >(HandleOutcome::Reply(Message::PredecessorResponse(old(self).predecessor))),
                Message::GetSuccessor => *final(self) == *old(self) && r == Ok::<
                    HandleOutcome,
                    MessageError,
                >(HandleOutcome::Reply(Message::SuccessorResponse(old(self).successor))),
                Message::LeaveSuccessor(n) => {
                    &&& r == Ok::<HandleOutcome, MessageError>(HandleOutcome::NoReply)
                    &&& same_identity(*old(self), *final(self))
                    &&& final(self).predecessor == old(self).predecessor
                    &&& final(self).second_successor == old(self).second_successor
                    &&& final(self).successor == (if old(self).successor.id == n.id {
                        old(self).spec_self_neighbor()
                    } else {
                        n
                    })
                },
                Message::LeavePredecessor(m) => {
                    &&& r == Ok::<HandleOutcome, MessageError>(HandleOutcome::NoReply)
                    &&& same_identity(*old(self), *final(self))
                    &&& final(self).successor == old(self).successor
                    &&& final(self).second_successor == old(self).second_successor
                    &&& final(self).predecessor == (if m is Some && m == old(self).predecessor {
                        Some(old(self).spec_self_neighbor())
                    } else {
                        m
                    })
                },
                Message::Ping => *final(self) == *old(self) && r == Ok::<
                    HandleOutcome,
                    MessageError,
                >(HandleOutcome::Reply(Message::Pong)),
                _ => false,
            },
    {
        if self.sim_crash_state {
            return Err(MessageError::IOError);
        }
        match msg {
            Message::Lookup(id) => {
                match self.find_successor(id) {
                    FindStep::Found(n) => Ok(HandleOutcome::Reply(Message::LookupResult(n))),
                    FindStep::Forward(s) => Ok(HandleOutcome::Forward(s, id)),
                }
            }
            Message::Notify(n) => {
                self.notify(n);
                Ok(HandleOutcome::NoReply)
            }
            Message::GetPredecessor => {
                Ok(HandleOutcome::Reply(Message::PredecessorResponse(self.predecessor)))
            }
            Message::GetSuccessor => {
                Ok(HandleOutcome::Reply(Message::SuccessorResponse(self.successor)))
            }
            Message::LeaveSuccessor(n) => {
                if self.successor.id == n.id {
                    self.successor = self.self_neighbor();
                } else {
                    self.successor = n;
                }
                Ok(HandleOutcome::NoReply)
            }
            Message::LeavePredecessor(m) => {
                let replace_with_self = match (&m, &self.predecessor) {
                    (Some(n), Some(p)) => *n == *p,
                    _ => false,
                };
                if replace_with_self {
                    self.predecessor = Some(self.self_neighbor());
                } else {
                    self.predecessor = m;
                }
                Ok(HandleOutcome::NoReply)
            }
            Message::Ping => Ok(HandleOutcome::Reply(Message::Pong)),
            _ => Err(MessageError::IOError),
        }
    }

    /// Join the ring that the peer at `entry_node` belongs to.  Joining
    /// through one's own address is a no-op; otherwise the predecessor
    /// is forgotten and the bootstrap peer must be asked for the
    /// successor of this peer's identifier, which [`Self::finish_join`]
    /// then installs.
    pub fn join(&mut self, entry_node: Addr) -> (r: JoinStep)
        ensures
            entry_node == old(self).address ==> r == JoinStep::NoOp && *final(self) == *old(self),
            entry_node != old(self).address ==> {
                &&& r == JoinStep::Contact(
                    Neighbor { id: addr_id(entry_node), addr: entry_node, web_addr: entry_node },
                )
                &&& same_identity(*old(self), *final(self))
                &&& final(self).predecessor is None
                &&& final(self).successor == old(self).successor
                &&& final(self).second_successor == old(self).second_successor
            },
    {
        if entry_node == self.address {
            return JoinStep::NoOp;
        }
        self.predecessor = None;
        JoinStep::Contact(Neighbor::new(entry_node, entry_node))
    }

    /// Install the successor that a join walk found.
    pub fn finish_join(&mut self, new_successor: Neighbor)
        ensures
            same_identity(*old(self), *final(self)),
            final(self).predecessor == old(self).predecessor,
            final(self).second_successor == old(self).second_successor,
            final(self).successor == new_successor,
    {
        self.successor = new_successor;
    }

    /// Leave the ring: revert to a singleton and hand back the old
    /// predecessor and successor, so that the caller can tell the
    /// predecessor its new successor and the successor its new
    /// predecessor (best effort, without awaiting either).
    pub fn leave(&mut self) -> (r: (Option<Neighbor>, Neighbor))
        ensures
            r == (old(self).predecessor, old(self).successor),
            same_identity(*old(self), *final(self)),
            final(self).predecessor is None,
            final(self).successor == old(self).spec_self_neighbor(),
            final(self).second_successor is None,
    {
        let p = self.predecessor;
        let s = self.successor;
        self.predecessor = None;
        self.successor = self.self_neighbor();
        self.second_successor = None;
        (p, s)
    }

    /// Whom a stabilization round must ask for the predecessor
    /// candidate: nobody when crashed, the local predecessor in a
    /// singleton ring, the successor otherwise.
    pub fn stabilize_query(&self) -> (r: StabilizeQuery)
        ensures
            r == (if self.sim_crash_state {
                StabilizeQuery::Skip
            } else if self.id == self.successor.id {
                StabilizeQuery::Local(self.predecessor)
            } else {
                StabilizeQuery::Remote(self.successor)
            }),
    {
        if self.sim_crash_state {
            StabilizeQuery::Skip
        } else if self.id == self.successor.id {
            StabilizeQuery::Local(self.predecessor)
        } else {
            StabilizeQuery::Remote(self.successor)
        }
    }

    /// Apply the predecessor candidate `x` that a stabilization round
    /// obtained: adopt it as successor when it lies strictly between
    /// this peer and the current successor, and say what is still owed —
    /// refreshing the second-successor cache after an adoption, and
    /// notifying the (possibly updated) successor unless it is this peer.
    pub fn stabilize_update(&mut self, x: Option<Neighbor>) -> (r: StabilizeFollowUp)
        ensures
            ({
                let adopt = match x {
                    Some(xn) => between(xn.id, old(self).id, old(self).successor.id) && xn.id
                        != old(self).successor.id,
                    None => false,
                };
                let new_succ = stabilized_successor(*old(self), x);
                &&& same_identity(*old(self), *final(self))
                &&& final(self).predecessor == old(self).predecessor
                &&& final(self).second_successor == old(self).second_successor
                &&& final(self).successor == new_succ
                &&& r.refresh == (if adopt {
                    Some(new_succ)
                } else {
                    None::<Neighbor>
                })
                &&& r.notify == (if new_succ.id != old(self).id {
                    Some(new_succ)
                } else {
                    None::<Neighbor>
                })
            }),
    {
        let mut adopted = false;
        match x {
            Some(xn) => {
                if xn.id.is_between(self.id, self.successor.id) && self.successor.id != xn.id {
                    self.successor = xn;
                    adopted = true;
                }
            }
            None => {}
        }
        let refresh: Option<Neighbor> = if adopted {
            Some(self.successor)
        } else {
            None
        };
        let notify: Option<Neighbor> = if self.successor.id != self.id {
            Some(self.successor)
        } else {
            None
        };
        StabilizeFollowUp { refresh, notify }
    }

    /// Install a freshly learnt second successor (or forget it).
    pub fn set_second_successor(&mut self, s: Option<Neighbor>)
        ensures
            same_identity(*old(self), *final(self)),
            final(self).predecessor == old(self).predecessor,
            final(self).successor == old(self).successor,
            final(self).second_successor == s,
    {
        self.second_successor = s;
    }

    /// Take the successor's successor `s` that a health check obtained:
    /// cache it as second successor when it is neither this peer nor the
    /// successor itself and differs from what is cached.
    pub fn check_successors_ok(&mut self, s: Neighbor)
        ensures
            ({
                let update = s.id != old(self).id && s.id != old(self).successor.id && (match old(
                    self,
                ).second_successor {
                    Some(t) => t.id != s.id,
                    None => true,
                });
                &&& same_identity(*old(self), *final(self))
                &&& final(self).predecessor == old(self).predecessor
                &&& final(self).successor == old(self).successor
                &&& final(self).second_successor == (if update {
                    Some(s)
                } else {
                    old(self).second_successor
                })
            }),
    {
        if s.id != self.id && s.id != self.successor.id {
            let update = match &self.second_successor {
                Some(t) => t.id != s.id,
                None => true,
            };
            if update {
                self.second_successor = Some(s);
            }
        }
    }

    /// The successor did not answer a health check: treat it as dead and
    /// promote the second successor if one is cached; an isolated peer
    /// stays as it is.
    pub fn check_successors_failed(&mut self)
        ensures
            match old(self).second_successor {
                Some(s) => {
                    &&& same_identity(*old(self), *final(self))
                    &&& final(self).predecessor == old(self).predecessor
                    &&& final(self).successor == s
                    &&& final(self).second_successor is None
                },
                None => *final(self) == *old(self),
            },
    {
        match self.second_successor {
            Some(s) => {
                self.successor = s;
                self.second_successor = None;
            }
            None => {}
        }
    }

    /// An RPC to the successor failed mid-routing: promote the second
    /// successor and hand it back for a retry, or report that both
    /// successors are dead.
    pub fn successor_failover(&mut self) -> (r: Result<Neighbor, MessageError>)
        ensures
            match old(self).second_successor {
                Some(s) => {
                    &&& r == Ok::<Neighbor, MessageError>(s)
                    &&& same_identity(*old(self), *final(self))
                    &&& final(self).predecessor == old(self).predecessor
                    &&& final(self).successor == s
                    &&& final(self).second_successor is None
                },
                None => r == Err::<Neighbor, MessageError>(
                    MessageError::AllSuccessorsDead(old(self).address),
                ) && *final(self) == *old(self),
            },
    {
        match self.second_successor {
            Some(s) => {
                self.successor = s;
                self.second_successor = None;
                Ok(s)
            }
            None => Err(MessageError::AllSuccessorsDead(self.address)),
        }
    }

    /// Start refusing all traffic, pretending a crash.
    pub fn sim_crash(&mut self) -> (r: Result<(), MessageError>)
        ensures
            r == Ok::<(), MessageError>(()),
            same_identity_but_crash(*old(self), *final(self)),
            final(self).sim_crash_state,
    {
        self.sim_crash_state = true;
        Ok(())
    }

    /// Stop pretending a crash.
    pub fn sim_recover(&mut self) -> (r: Result<(), MessageError>)
        ensures
            r == Ok::<(), MessageError>(()),
            same_identity_but_crash(*old(self), *final(self)),
            !final(self).sim_crash_state,
    {
        self.sim_crash_state = false;
        Ok(())
    }

    /// Whether the peer pretends to have crashed.
    pub fn is_crashed(&self) -> (r: bool)
        ensures
            r == self.sim_crash_state,
    {
        self.sim_crash_state
    }

    /// The discovery record served under `/node-info`.  A crashed peer
    /// serves an error instead, so the record is owed only when live.
    pub fn node_info(&self) -> (r: NodeInfo)
        requires
            !self.sim_crash_state,
        ensures
            r.node_hash == self.id,
            r.chord_address == self.address,
            r.successor == self.successor.web_addr,
            r.others@ == (match self.predecessor {
                Some(p) => seq![p.web_addr],
                None => Seq::<Addr>::empty(),
            }) + (match self.second_successor {
                Some(s) => seq![s.web_addr],
                None => Seq::<Addr>::empty(),
            }),
    {
        let mut others: Vec<Addr> = Vec::new();
        match &self.predecessor {
            Some(p) => others.push(p.web_addr),
            None => {}
        }
        match &self.second_successor {
            Some(s) => others.push(s.web_addr),
            None => {}
        }
        proof {
            assert(others@ =~= (match self.predecessor {
                Some(p) => seq![p.web_addr],
                None => Seq::<Addr>::empty(),
            }) + (match self.second_successor {
                Some(s) => seq![s.web_addr],
                None => Seq::<Addr>::empty(),
            }));
        }
        NodeInfo {
            node_hash: self.id,
            chord_address: self.address,
            successor: self.successor.web_addr,
            others,
        }
    }
}

/// What a forwarded data-plane GET answered: `200` carries the value,
/// `404` means the owner holds nothing under the key, anything else is
/// an error.
pub fn interpret_storage_get(status: u16, body: Vec<u8>) -> (r: Result<
    Option<Vec<u8>>,
    MessageError,
>)
    ensures
        status == 200 ==> r == Ok::<Option<Vec<u8>>, MessageError>(Some(body)),
        status == 404 ==> r == Ok::<Option<Vec<u8>>, MessageError>(None),
        status != 200 && status != 404 ==> r == Err::<Option<Vec<u8>>, MessageError>(
            MessageError::HTTPStatusError(status),
        ),
{
    if status == 200 {
        Ok(Some(body))
    } else if status == 404 {
        Ok(None)
    } else {
        Err(MessageError::HTTPStatusError(status))
    }
}

/// What a forwarded data-plane PUT answered: `200` means stored,
/// anything else is an error.
pub fn interpret_storage_put(status: u16) -> (r: Result<(), MessageError>)
    ensures
        status == 200 ==> r == Ok::<(), MessageError>(()),
        status != 200 ==> r == Err::<(), MessageError>(MessageError::HTTPStatusError(status)),
{
    if status == 200 {
        Ok(())
    } else {
        Err(MessageError::HTTPStatusError(status))
    }
}

/// Everything but the crash flag of a peer is untouched.
pub open spec fn same_identity_but_crash(pre: Node, post: Node) -> bool {
    &&& post.id == pre.id
    &&& post.address == pre.address
    &&& post.web_address == pre.web_address
    &&& post.predecessor == pre.predecessor
    &&& post.successor == pre.successor
    &&& post.second_successor == pre.second_successor
    &&& post.store == pre.store
}

} // verus!
