use enr_cli::addresses::{dial_addr_text, DialAddr, IpAddress, Transport};
use enr_cli::enr_ext::{EnrExt, Eth2Enr};
use enr_cli::error::{EnrError, Field};
use enr_cli::fork_id::EnrForkId;
use enr_cli::identity::{node_id, peer_id, peer_id_to_node_id, PeerId};
use enr_cli::keys::{generate, generate_key, KeyMaterial, KeyScheme};
use enr_cli::record::{build, parse, Endpoints, Record, RecordFields};
use enr_cli::report::report_lines;
use enr_cli::services::build_command::{run as run_build, Build};
use enr_cli::services::read_command::{run as run_read, Read};

const EIP778_KEY: &str = "b71c71a67e1177ad4e901695e1b4b9ee17ae16c6668d313eac2f96dbcda3f291";
const EIP778_NODE_ID: &str = "a448f24c6d18e575453db13171562b71999873db5b286df957af199ec94617f7";
const EIP778_RECORD: &str = "enr:-IS4QHCYrYZbAKWCBRlAy5zzaDZXJBGkcnh4MHcBFZntXNFrdvJjX04jRzjzCBOonrkTfj499SZuOh8R33Ls8RRcy5wBgmlkgnY0gmlwhH8AAAGJc2VjcDI1NmsxoQPKY0yuDUmstAHYpMa2_oxVtw0RW_QAdpzBQA8yWM0xOIN1ZHCCdl8";

fn hex_of(b: &[u8]) -> String {
    b.iter().map(|x| format!("{:02x}", x)).collect()
}

fn bytes_of_hex(s: &str) -> Vec<u8> {
    (0..s.len() / 2).map(|i| u8::from_str_radix(&s[2 * i..2 * i + 2], 16).unwrap()).collect()
}

fn fields(endpoints: Endpoints) -> RecordFields {
    RecordFields { seq: None, endpoints, eth2: None }
}

fn random_key() -> KeyMaterial {
    generate(None).unwrap()
}

fn built(endpoints: Endpoints) -> Record {
    build(&fields(endpoints), &random_key()).unwrap()
}

fn texts(addrs: &[DialAddr]) -> Vec<String> {
    addrs.iter().map(|a| dial_addr_text(a, None)).collect()
}

#[test]
fn test_enr_with_quic_ports() {
    let key = random_key();
    let quic4_port: u16 = 9000;
    let quic6_port: u16 = 9001;
    let endpoints = Endpoints {
        ip4: Some([127, 0, 0, 1]),
        ip6: Some([0, 0, 0, 0, 0, 0, 0, 0, 0, 0, 0, 0, 0, 0, 0, 1]),
        quic4: Some(quic4_port),
        quic6: Some(quic6_port),
        ..Endpoints::empty()
    };
    let enr = build(&fields(endpoints), &key).expect("Should build ENR successfully");
    let parsed = parse(&enr.to_text()).expect("Should parse the built ENR");
    assert_eq!(parsed.endpoints().quic4, Some(quic4_port), "QUIC4 port should be correctly stored and retrieved");
    assert_eq!(parsed.endpoints().quic6, Some(quic6_port), "QUIC6 port should be correctly stored and retrieved");
    let quic_multiaddrs = texts(&parsed.multiaddr_quic());
    assert_eq!(quic_multiaddrs.len(), 2, "ENR should have both IPv4 and IPv6 QUIC multiaddrs");
    let expected_quic4_multiaddr = format!("/ip4/127.0.0.1/udp/{}/quic-v1", quic4_port);
    let expected_quic6_multiaddr = format!("/ip6/::1/udp/{}/quic-v1", quic6_port);
    assert!(quic_multiaddrs.iter().any(|a| *a == expected_quic4_multiaddr), "ENR should have correct IPv4 QUIC multiaddr");
    assert!(quic_multiaddrs.iter().any(|a| *a == expected_quic6_multiaddr), "ENR should have correct IPv6 QUIC multiaddr");
}

#[test]
fn eip778_example_record_builds_with_its_content() {
    let key = generate(Some(&bytes_of_hex(EIP778_KEY))).unwrap();
    assert_eq!(key.scheme(), KeyScheme::Secp256k1);
    let endpoints = Endpoints { ip4: Some([127, 0, 0, 1]), udp4: Some(30303), ..Endpoints::empty() };
    let rec = build(&RecordFields { seq: Some(1), endpoints, eth2: None }, &key).unwrap();
    assert_same_record_content(&rec.to_text());
    assert_eq!(hex_of(&rec.node_id().raw), EIP778_NODE_ID);
    assert_eq!(parse(&rec.to_text()).unwrap().to_text(), rec.to_text());
}

/// The signature is randomized; everything around it is fixed.
fn assert_same_record_content(text: &str) {
    let got = b64_decode(&text[4..]);
    let want = b64_decode(&EIP778_RECORD[4..]);
    assert_eq!(got.len(), want.len());
    assert_eq!(got[..4], want[..4]);
    assert_eq!(got[4 + 64..], want[4 + 64..]);
}

#[test]
fn eip778_example_record_parses() {
    let rec = parse(EIP778_RECORD).unwrap();
    assert_eq!(rec.seq(), 1);
    assert_eq!(rec.endpoints().ip4, Some([127, 0, 0, 1]));
    assert_eq!(rec.endpoints().udp4, Some(30303));
    assert_eq!(rec.endpoints().tcp4, None);
    assert_eq!(hex_of(&rec.node_id().raw), EIP778_NODE_ID);
    assert_eq!(rec.public_key().scheme, KeyScheme::Secp256k1);
    assert_eq!(rec.public_key().bytes.len(), 33);
    let without_prefix = parse(&EIP778_RECORD[4..]).unwrap();
    assert_eq!(without_prefix.to_text(), EIP778_RECORD);
}

#[test]
fn node_id_is_deterministic_and_32_bytes_for_both_schemes() {
    let secp = random_key();
    let again = generate(Some(secp.secret())).unwrap();
    assert_eq!(again.scheme(), KeyScheme::Secp256k1);
    let a = node_id(&secp.public_key());
    let b = node_id(&again.public_key());
    assert_eq!(a.raw.len(), 32);
    assert_eq!(a, b);

    // 32 bytes above the secp256k1 order can only be an Ed25519 seed.
    let seed = [0xffu8; 32];
    let ed = generate(Some(&seed)).unwrap();
    assert_eq!(ed.scheme(), KeyScheme::Ed25519);
    assert_eq!(ed.public_key().bytes.len(), 32);
    let c = node_id(&ed.public_key());
    let d = node_id(&generate(Some(ed.secret())).unwrap().public_key());
    assert_eq!(c.raw.len(), 32);
    assert_eq!(c, d);
    assert_ne!(a, c);
}

#[test]
fn peer_id_differs_from_node_id_for_both_schemes() {
    for key in [random_key(), generate(Some(&[0xffu8; 32])).unwrap()] {
        let pk = key.public_key();
        let p = peer_id(&pk);
        let n = node_id(&pk);
        assert_ne!(p.bytes, n.raw);
        assert_eq!(p.bytes.len(), pk.bytes.len() + 6);
        assert_eq!(p.bytes[0], 0);
        assert_eq!(peer_id_to_node_id(&p), Ok(n));
    }
}

#[test]
fn peer_id_of_a_hash_is_not_convertible() {
    let mut hashed = vec![0x12u8, 0x20];
    hashed.extend_from_slice(&[7u8; 32]);
    assert_eq!(peer_id_to_node_id(&PeerId { bytes: hashed }), Err(EnrError::UnsupportedPeerIdEncoding));
    assert_eq!(peer_id_to_node_id(&PeerId { bytes: vec![0] }), Err(EnrError::UnsupportedPeerIdEncoding));
    let garbage = vec![0u8, 3, 1, 2, 3];
    assert_eq!(peer_id_to_node_id(&PeerId { bytes: garbage }), Err(EnrError::UnsupportedPeerIdEncoding));
}

#[test]
fn text_round_trips_through_parse() {
    let endpoints = Endpoints { ip4: Some([10, 0, 0, 2]), tcp4: Some(30303), udp4: Some(30304), ..Endpoints::empty() };
    let key = random_key();
    let rec = build(&RecordFields { seq: Some(7), endpoints, eth2: None }, &key).unwrap();
    let text = rec.to_text();
    let back = parse(&text).unwrap();
    assert_eq!(back.to_text(), text);
    assert_eq!(back.seq(), 7);
    assert_eq!(back.endpoints(), endpoints);
    assert_eq!(back.public_key().bytes, key.public_key().bytes);
    let ed = generate(Some(&[0xffu8; 32])).unwrap();
    let rec = build(&RecordFields { seq: None, endpoints, eth2: None }, &ed).unwrap();
    assert_eq!(rec.seq(), 1);
    let back = parse(&rec.to_text()).unwrap();
    assert_eq!(back.to_text(), rec.to_text());
    assert_eq!(back.public_key().scheme, KeyScheme::Ed25519);
}

#[test]
fn equal_ports_collapse_in_the_legacy_address() {
    let endpoints = Endpoints { ip4: Some([127, 0, 0, 1]), tcp4: Some(9000), udp4: Some(9000), ..Endpoints::empty() };
    let rec = built(endpoints);
    let node = hex_of(&rec.node_id().raw);
    assert_eq!(rec.enode_id(), format!("enode://{}@127.0.0.1:9000", node));
    let all = texts(&rec.multiaddr());
    assert_eq!(all, vec!["/ip4/127.0.0.1/udp/9000".to_string(), "/ip4/127.0.0.1/tcp/9000".to_string()]);
    assert!(all.iter().all(|a| !a.starts_with("/ip6")));
}

#[test]
fn quic_only_record_has_two_quic_multiaddrs() {
    let endpoints = Endpoints {
        ip4: Some([127, 0, 0, 1]),
        ip6: Some([0, 0, 0, 0, 0, 0, 0, 0, 0, 0, 0, 0, 0, 0, 0, 1]),
        quic4: Some(9001),
        quic6: Some(9002),
        ..Endpoints::empty()
    };
    let rec = built(endpoints);
    let all = texts(&rec.multiaddr());
    assert_eq!(all, vec!["/ip4/127.0.0.1/udp/9001/quic-v1".to_string(), "/ip6/::1/udp/9002/quic-v1".to_string()]);
}

#[test]
fn legacy_address_forms() {
    let key = random_key();
    let node = hex_of(&node_id(&key.public_key()).raw);
    let text = |e: Endpoints| build(&fields(e), &key).unwrap().enode_id();
    let ip = Some([192, 168, 1, 20]);
    assert_eq!(text(Endpoints::empty()), format!("enode://{}", node));
    assert_eq!(text(Endpoints { ip4: ip, ..Endpoints::empty() }), format!("enode://{}@192.168.1.20", node));
    assert_eq!(text(Endpoints { ip4: ip, tcp4: Some(1), udp4: Some(2), ..Endpoints::empty() }), format!("enode://{}@192.168.1.20:1?discport=2", node));
    assert_eq!(text(Endpoints { ip4: ip, udp4: Some(65535), ..Endpoints::empty() }), format!("enode://{}@192.168.1.20?discport=65535", node));
    let v6 = Some([0x20, 0x01, 0x0d, 0xb8, 0, 0, 0, 0, 0, 0, 0, 0, 0, 0, 0, 0x01]);
    assert_eq!(text(Endpoints { ip6: v6, tcp4: Some(30303), ..Endpoints::empty() }), format!("enode://{}@2001:db8::1:30303", node));
    assert_eq!(text(Endpoints { ip4: ip, ip6: v6, tcp6: Some(5), ..Endpoints::empty() }), format!("enode://{}@192.168.1.20", node));
}

#[test]
fn gating_needs_both_address_and_port() {
    let rec = built(Endpoints { tcp4: Some(1), udp6: Some(2), ip6: Some([0; 16]), ..Endpoints::empty() });
    assert_eq!(texts(&rec.multiaddr()), vec!["/ip6/::/udp/2".to_string()]);
    assert!(rec.multiaddr_tcp().is_empty());
    assert_eq!(rec.multiaddr_udp(), vec![DialAddr { ip: IpAddress::V6([0; 16]), transport: Transport::Udp, port: 2 }]);
}

#[test]
fn p2p_multiaddrs_carry_the_peer_id() {
    let rec = built(Endpoints { ip4: Some([1, 2, 3, 4]), tcp4: Some(10), udp4: Some(11), ..Endpoints::empty() });
    let p2p = rec.multiaddr_p2p();
    assert_eq!(p2p.len(), 2);
    assert!(p2p[0].starts_with("/ip4/1.2.3.4/udp/11/p2p/16Uiu2"));
    assert!(p2p[1].starts_with("/ip4/1.2.3.4/tcp/10/p2p/16Uiu2"));
    assert_eq!(rec.multiaddr_p2p_tcp(), vec![p2p[1].clone()]);
    assert_eq!(rec.multiaddr_p2p_udp(), vec![p2p[0].clone()]);
}

const B64: &[u8] = b"ABCDEFGHIJKLMNOPQRSTUVWXYZabcdefghijklmnopqrstuvwxyz0123456789-_";

fn b64_decode(s: &str) -> Vec<u8> {
    let mut bits: u32 = 0;
    let mut n = 0;
    let mut out = Vec::new();
    for c in s.bytes() {
        bits = (bits << 6) | B64.iter().position(|x| *x == c).unwrap() as u32;
        n += 6;
        if n >= 8 {
            n -= 8;
            out.push((bits >> n) as u8);
            bits &= (1 << n) - 1;
        }
    }
    out
}

fn b64_encode(b: &[u8]) -> String {
    let mut out = String::new();
    for chunk in b.chunks(3) {
        let mut v: u32 = 0;
        for (i, x) in chunk.iter().enumerate() {
            v |= (*x as u32) << (16 - 8 * i);
        }
        for i in 0..chunk.len() + 1 {
            out.push(B64[((v >> (18 - 6 * i)) & 63) as usize] as char);
        }
    }
    out
}

#[test]
fn corrupted_trailing_bytes_fail_the_signature() {
    let rec = built(Endpoints { ip4: Some([127, 0, 0, 1]), tcp4: Some(9000), udp4: Some(9000), ..Endpoints::empty() });
    let text = rec.to_text();
    let mut bytes = b64_decode(&text[4..]);
    assert_eq!(b64_encode(&bytes), text[4..]);
    // the record ends with the udp port 9000 (0x23 0x28); 0x29 is still a port
    let last = bytes.len() - 1;
    assert_eq!(bytes[last], 0x28);
    bytes[last] = 0x29;
    let corrupted = format!("enr:{}", b64_encode(&bytes));
    assert_eq!(parse(&corrupted).err(), Some(EnrError::SignatureInvalid));
}

#[test]
fn malformed_transport_strings() {
    assert_eq!(parse("enr:*not base64*").err(), Some(EnrError::MalformedEncoding));
    assert_eq!(parse("ab").err(), Some(EnrError::MalformedEncoding));
    assert_eq!(parse("enr:AAAA").err(), Some(EnrError::MalformedRecord));
    let oversized = format!("enr:{}", "A".repeat(404));
    assert_eq!(parse(&oversized).err(), Some(EnrError::RecordTooLarge));
}

#[test]
fn fork_id_of_fifteen_bytes_is_truncated() {
    assert_eq!(EnrForkId::decode(&[0u8; 15]), Err(EnrError::TruncatedExtension));
    assert_eq!(EnrForkId::decode(&[]), Err(EnrError::TruncatedExtension));
    assert_eq!(EnrForkId::decode(&[0u8; 17]), Err(EnrError::MalformedExtension));
}

#[test]
fn fork_id_layout_is_big_endian() {
    let bytes: Vec<u8> = (1u8..=16).collect();
    let f = EnrForkId::decode(&bytes).unwrap();
    assert_eq!(f.fork_digest, [1, 2, 3, 4]);
    assert_eq!(f.next_fork_version, [5, 6, 7, 8]);
    assert_eq!(f.next_fork_epoch, 0x090a0b0c0d0e0f10);
    assert_eq!(f.encode(), bytes);
    let far = EnrForkId { fork_digest: [0xaa; 4], next_fork_version: [0; 4], next_fork_epoch: u64::MAX };
    assert_eq!(EnrForkId::decode(&far.encode()), Ok(far));
}

#[test]
fn build_rejects_an_undecodable_eth2_value() {
    let f = RecordFields { seq: None, endpoints: Endpoints::empty(), eth2: Some(vec![1, 2, 3]) };
    assert_eq!(build(&f, &random_key()).err(), Some(EnrError::FieldValidationError(Field::Eth2)));
    let good: Vec<u8> = (0u8..16).collect();
    let f = RecordFields { seq: None, endpoints: Endpoints::empty(), eth2: Some(good.clone()) };
    let rec = build(&f, &random_key()).unwrap();
    let back = parse(&rec.to_text()).unwrap();
    assert_eq!(back.eth2(), EnrForkId::decode(&good));
    assert_eq!(Eth2Enr::eth2(&back).unwrap().next_fork_epoch, 0x08090a0b0c0d0e0f);
    assert_eq!(Eth2Enr::bitfield(&back), None);
    let none = built(Endpoints::empty());
    assert_eq!(none.eth2(), Err(EnrError::MissingField));
}

#[test]
fn key_material_selection() {
    assert_eq!(generate(Some(&[1u8; 10])).err(), Some(EnrError::InvalidKeyMaterial));
    assert_eq!(generate(Some(&[0u8; 33])).err(), Some(EnrError::InvalidKeyMaterial));
    // zero is no secp256k1 scalar, but any 32 bytes are an Ed25519 seed
    let zero = generate(Some(&[0u8; 32])).unwrap();
    assert_eq!(zero.scheme(), KeyScheme::Ed25519);
    assert_eq!(zero.secret(), &vec![0u8; 32]);
    // 24 bytes are a secp256k1 scalar, padded on the left
    let short = generate(Some(&[1u8; 24])).unwrap();
    assert_eq!(short.scheme(), KeyScheme::Secp256k1);
    let mut padded = vec![0u8; 8];
    padded.extend_from_slice(&[1u8; 24]);
    assert_eq!(short.secret(), &padded);
    let fresh = random_key();
    assert_eq!(fresh.scheme(), KeyScheme::Secp256k1);
    assert_eq!(fresh.secret().len(), 32);
}

fn build_args() -> Build {
    Build {
        private_key: None,
        key_file: None,
        ip: None,
        seq: None,
        tcp_port: None,
        udp_port: None,
        tcp6_port: None,
        udp6_port: None,
        quic_port: None,
        quic6_port: None,
        eth2: None,
    }
}

#[test]
fn build_command_uses_hex_key_and_decimal_seq() {
    let b = Build { private_key: Some(EIP778_KEY.to_uppercase()), seq: Some("+1".into()), udp_port: Some(30303), ..build_args() };
    let out = run_build(&b, Some(vec![9u8; 32]), Some(IpAddress::V4([127, 0, 0, 1]))).unwrap();
    assert_same_record_content(&out.record.to_text());
    assert_eq!(hex_of(out.key.secret()), EIP778_KEY);
}

#[test]
fn build_command_errors() {
    let bad_key = Build { private_key: Some("zz".into()), ..build_args() };
    assert_eq!(run_build(&bad_key, None, None).err(), Some(EnrError::FieldValidationError(Field::PrivateKey)));
    let odd = Build { private_key: Some("abc".into()), ..build_args() };
    assert_eq!(run_build(&odd, None, None).err(), Some(EnrError::FieldValidationError(Field::PrivateKey)));
    assert_eq!(run_build(&build_args(), Some(vec![1, 2, 3]), None).err(), Some(EnrError::InvalidKeyMaterial));
    let bad_seq = Build { seq: Some("12a".into()), ..build_args() };
    assert_eq!(run_build(&bad_seq, None, None).err(), Some(EnrError::FieldValidationError(Field::SeqNumber)));
    let big_seq = Build { seq: Some("18446744073709551616".into()), ..build_args() };
    assert_eq!(run_build(&big_seq, None, None).err(), Some(EnrError::FieldValidationError(Field::SeqNumber)));
    let max_seq = Build { seq: Some("18446744073709551615".into()), ..build_args() };
    assert_eq!(run_build(&max_seq, None, None).unwrap().record.seq(), u64::MAX);
    let bad_hex = Build { eth2: Some("0g".into()), ..build_args() };
    assert_eq!(run_build(&bad_hex, None, None).err(), Some(EnrError::FieldValidationError(Field::Eth2)));
    let short = Build { eth2: Some("00".repeat(15)), ..build_args() };
    assert_eq!(run_build(&short, None, None).err(), Some(EnrError::FieldValidationError(Field::Eth2)));
}

#[test]
fn build_command_key_file_and_ports() {
    let seed = vec![0xffu8; 32];
    let b = Build { tcp_port: Some(1), udp_port: Some(2), tcp6_port: Some(3), udp6_port: Some(4), quic_port: Some(5), quic6_port: Some(6), ..build_args() };
    let out = run_build(&b, Some(seed.clone()), Some(IpAddress::V6([0; 16]))).unwrap();
    assert_eq!(out.key.scheme(), KeyScheme::Ed25519);
    assert_eq!(out.key.secret(), &seed);
    let e = out.record.endpoints();
    assert_eq!((e.ip4, e.ip6), (None, Some([0; 16])));
    assert_eq!((e.tcp4, e.udp4, e.tcp6, e.udp6, e.quic4, e.quic6), (Some(1), Some(2), Some(3), Some(4), Some(5), Some(6)));
    assert_eq!(out.record.seq(), 1);
}

#[test]
fn read_command_reports_the_record() {
    let lines = run_read(&Read { enr: EIP778_RECORD.into() }).unwrap();
    assert_eq!(lines[0], "ENR Read:");
    assert_eq!(lines[1], "Sequence No:1");
    assert_eq!(lines[2], format!("NodeId: {}", EIP778_NODE_ID));
    assert_eq!(lines[3], format!("EnodeId: enode://{}@127.0.0.1?discport=30303", EIP778_NODE_ID));
    assert!(lines[4].starts_with("Libp2p PeerId: 16Uiu2"));
    assert_eq!(lines[5], "IP:127.0.0.1");
    assert_eq!(lines[6], "UDP Port:30303");
    assert_eq!(lines[7], "Known multiaddrs:");
    assert_eq!(lines[8], "/ip4/127.0.0.1/udp/30303");
    assert_eq!(lines.len(), 9);
    assert_eq!(run_read(&Read { enr: "enr:@@@@".into() }).err(), Some(EnrError::MalformedEncoding));
}

#[test]
fn report_shows_the_fork_id() {
    let bytes: Vec<u8> = vec![0xb5, 0x30, 0x3f, 0x2a, 1, 0, 0, 0, 0, 0, 0, 0, 0, 0, 0, 0x2a];
    let f = RecordFields { seq: Some(3), endpoints: Endpoints::empty(), eth2: Some(bytes) };
    let rec = build(&f, &random_key()).unwrap();
    let lines = report_lines(&rec);
    assert!(lines.contains(&"Eth2 Field:".to_string()));
    assert!(lines.contains(&"\tFork digest: b5303f2a".to_string()));
    assert!(lines.contains(&"\tNext fork version: 01000000".to_string()));
    assert!(lines.contains(&"\tNext fork epoch: 42".to_string()));
    assert!(lines.contains(&"\tEncoded bytes: b5303f2a01000000000000000000002a".to_string()));
    assert!(!lines.contains(&"Known multiaddrs:".to_string()));
}

#[test]
fn key_material_from_libp2p_keypairs() {
    let mut secp = vec![0x08u8, 0x02, 0x12, 0x20];
    secp.extend_from_slice(&bytes_of_hex(EIP778_KEY));
    let k = KeyMaterial::from_libp2p(&secp).unwrap();
    assert_eq!(k.scheme(), KeyScheme::Secp256k1);
    assert_eq!(hex_of(k.secret()), EIP778_KEY);

    let seed = [0xffu8; 32];
    let public = generate(Some(&seed)).unwrap().public_key().bytes;
    let mut ed = vec![0x08u8, 0x01, 0x12, 0x40];
    ed.extend_from_slice(&seed);
    ed.extend_from_slice(&public);
    let k = KeyMaterial::from_libp2p(&ed).unwrap();
    assert_eq!(k.scheme(), KeyScheme::Ed25519);
    assert_eq!(k.secret(), &seed.to_vec());

    assert_eq!(KeyMaterial::from_libp2p(&[0x08, 0x00, 0x12, 0x01, 0x00]).err(), Some(EnrError::UnsupportedKeyScheme));
    assert_eq!(KeyMaterial::from_libp2p(&[0xff, 0xff]).err(), Some(EnrError::UnsupportedKeyScheme));
    assert_eq!(KeyMaterial::from_scheme_secret(KeyScheme::Secp256k1, &[0u8; 32]).err(), Some(EnrError::InvalidKeyMaterial));
    assert_eq!(KeyMaterial::from_scheme_secret(KeyScheme::Ed25519, &[0u8; 31]).err(), Some(EnrError::InvalidKeyMaterial));
}

#[test]
fn fresh_keys_of_both_schemes() {
    let ed = generate_key(KeyScheme::Ed25519);
    assert_eq!(ed.scheme(), KeyScheme::Ed25519);
    assert_eq!(ed.secret().len(), 32);
    assert_eq!(ed.public_key().bytes.len(), 32);
    let rec = build(&fields(Endpoints::empty()), &ed).unwrap();
    let back = parse(&rec.to_text()).unwrap();
    assert_eq!(back.public_key().scheme, KeyScheme::Ed25519);
    assert_eq!(back.node_id(), node_id(&ed.public_key()));
    let secp = generate_key(KeyScheme::Secp256k1);
    assert_eq!(secp.scheme(), KeyScheme::Secp256k1);
    assert_eq!(secp.public_key().bytes.len(), 33);
}
