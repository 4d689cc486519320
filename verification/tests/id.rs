use accord::node::Addr;
use accord::routing::id::{HashIdentifier, Identifier};

fn v4(a: u8, b: u8, c: u8, d: u8, port: u16) -> Addr {
    let ip_lo = ((a as u64) << 24) | ((b as u64) << 16) | ((c as u64) << 8) | (d as u64);
    Addr { v6: false, ip_hi: 0, ip_lo, port }
}

#[test]
fn between_full_ring_when_bounds_equal() {
    assert!(Identifier(7).is_between(Identifier(3), Identifier(3)));
    assert!(Identifier(3).is_between(Identifier(3), Identifier(3)));
    assert!(Identifier(0).is_between(Identifier(u64::MAX), Identifier(u64::MAX)));
}

#[test]
fn between_simple_arc() {
    // (10, 20]: the start is excluded, the end included
    assert!(!Identifier(10).is_between(Identifier(10), Identifier(20)));
    assert!(Identifier(11).is_between(Identifier(10), Identifier(20)));
    assert!(Identifier(20).is_between(Identifier(10), Identifier(20)));
    assert!(!Identifier(21).is_between(Identifier(10), Identifier(20)));
    assert!(!Identifier(5).is_between(Identifier(10), Identifier(20)));
}

#[test]
fn between_wrap_around() {
    // the arc (0xF000, 0x1000] wraps through zero
    assert!(Identifier(0x0001).is_between(Identifier(0xF000), Identifier(0x1000)));
    assert!(Identifier(0xF001).is_between(Identifier(0xF000), Identifier(0x1000)));
    assert!(Identifier(0x1000).is_between(Identifier(0xF000), Identifier(0x1000)));
    assert!(!Identifier(0x5000).is_between(Identifier(0xF000), Identifier(0x1000)));
    assert!(!Identifier(0xF000).is_between(Identifier(0xF000), Identifier(0x1000)));
}

#[test]
fn wrapping_arithmetic() {
    assert_eq!(Identifier(3).wrapping_add(Identifier(4)), Identifier(7));
    assert_eq!(Identifier(u64::MAX).wrapping_add(Identifier(1)), Identifier(0));
    assert_eq!(Identifier(u64::MAX).wrapping_add(Identifier(5)), Identifier(4));
    assert_eq!(Identifier(7).wrapping_sub(Identifier(3)), Identifier(4));
    assert_eq!(Identifier(0).wrapping_sub(Identifier(1)), Identifier(u64::MAX));
}

#[test]
fn conversions_round_trip() {
    let id = Identifier::from(42u64);
    assert_eq!(id, Identifier(42));
    assert_eq!(u64::from(id), 42u64);
}

#[test]
fn hash_is_deterministic() {
    let a = Identifier::from_bytes(b"alpha");
    let b = Identifier::from_bytes(b"alpha");
    assert_eq!(a, b);
    let c = Identifier::from_bytes(b"beta");
    assert_ne!(a, c);
}

#[test]
fn hash_known_answers() {
    // SHA-256 digests, read little-endian, reduced modulo u64::MAX
    assert_eq!(Identifier::from_bytes(b"abc"), Identifier(0x5780c876a2b6ce61));
    assert_eq!(Identifier::from_bytes(b""), Identifier(0xdb225a0f0b94f048));
    assert_eq!(Identifier::from_bytes(b"foo"), Identifier(0x13af194ca0858f33));
}

#[test]
fn hash_never_reaches_max() {
    // reduction modulo u64::MAX leaves u64::MAX itself unreachable
    for key in [&b"foo"[..], b"bar", b"", b"some longer key material"] {
        assert!(Identifier::from_bytes(key).0 < u64::MAX);
    }
}

#[test]
fn canonical_bytes_v4_exact() {
    // 127.0.0.1:9001 -> four octets, then the port little-endian
    let a = v4(127, 0, 0, 1, 9001);
    assert_eq!(a.canonical_bytes(), vec![127, 0, 0, 1, 0x29, 0x23]);
}

#[test]
fn canonical_bytes_v6_exact() {
    // ::1 port 1: sixteen octets, then the port little-endian
    let a = Addr { v6: true, ip_hi: 0, ip_lo: 1, port: 1 };
    let mut want = vec![0u8; 16];
    want[15] = 1;
    want.push(1);
    want.push(0);
    assert_eq!(a.canonical_bytes(), want);
}

#[test]
fn addr_hash_follows_canonical_bytes() {
    let a = v4(10, 0, 0, 7, 4242);
    let via_bytes = Identifier::from_bytes(&a.canonical_bytes());
    assert_eq!(a.hash_id(), via_bytes);
}

#[test]
fn key_hash_uses_raw_bytes() {
    let key: Vec<u8> = b"alpha".to_vec();
    assert_eq!(key.hash_id(), Identifier::from_bytes(b"alpha"));
}

#[test]
fn different_ports_hash_differently() {
    let a = v4(127, 0, 0, 1, 9001);
    let b = v4(127, 0, 0, 1, 9002);
    assert_ne!(a.hash_id(), b.hash_id());
}
