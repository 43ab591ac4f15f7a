use socks_lib::address::decode_address;
use socks_lib::address::decode_domain;
use socks_lib::address::encode_address;
use socks_lib::address::read_port;
use socks_lib::address::take_field;
use socks_lib::address::write_port;
use socks_lib::address::Address;
use socks_lib::address::Host;
use socks_lib::error::SocksError;

fn encoded(address: &Address) -> Vec<u8> {
    let mut out = Vec::new();
    encode_address(address, &mut out).unwrap();
    out
}

#[test]
fn decodes_an_ipv4_address() {
    let buf = [1u8, 127, 0, 0, 1, 0, 80];
    let (address, used) = decode_address(&buf).unwrap();
    assert_eq!(address, Address { host: Host::V4([127, 0, 0, 1]), port: 80 });
    assert_eq!(used, 7);
}

#[test]
fn decodes_an_ipv4_address_and_leaves_the_rest() {
    let buf = [1u8, 10, 20, 30, 40, 0x1f, 0x90, 0xde, 0xad, 0xbe, 0xef];
    let (address, used) = decode_address(&buf).unwrap();
    assert_eq!(address, Address { host: Host::V4([10, 20, 30, 40]), port: 8080 });
    assert_eq!(used, 7);
}

#[test]
fn decodes_a_domain_name() {
    let mut buf = vec![3u8, 11];
    buf.extend_from_slice(b"example.com");
    buf.extend_from_slice(&[0x01, 0xbb]);
    let (address, used) = decode_address(&buf).unwrap();
    assert_eq!(address, Address { host: Host::Domain(b"example.com".to_vec()), port: 443 });
    assert_eq!(used, 15);
}

#[test]
fn decodes_an_empty_domain_name() {
    let buf = [3u8, 0, 0, 80];
    let (address, used) = decode_address(&buf).unwrap();
    assert_eq!(address, Address { host: Host::Domain(Vec::new()), port: 80 });
    assert_eq!(used, 4);
}

#[test]
fn decodes_the_longest_domain_name() {
    let name = vec![b'a'; 255];
    let mut buf = vec![3u8, 255];
    buf.extend_from_slice(&name);
    buf.extend_from_slice(&[0xff, 0xff, 9, 9, 9]);
    let (address, used) = decode_address(&buf).unwrap();
    assert_eq!(address, Address { host: Host::Domain(name), port: 65535 });
    assert_eq!(used, 259);
}

#[test]
fn decodes_an_ipv6_address() {
    let octets: [u8; 16] = [0x20, 0x01, 0x0d, 0xb8, 0, 0, 0, 0, 0, 0, 0, 0, 0, 0, 0, 1];
    let mut buf = vec![4u8];
    buf.extend_from_slice(&octets);
    buf.extend_from_slice(&[0, 53]);
    let (address, used) = decode_address(&buf).unwrap();
    assert_eq!(address, Address { host: Host::V6(octets), port: 53 });
    assert_eq!(used, 19);
}

#[test]
fn refuses_an_unknown_address_type() {
    assert_eq!(decode_address(&[0u8, 1, 2, 3]), Err(SocksError::UnsupportedAddressType));
    assert_eq!(decode_address(&[2u8, 1, 2, 3, 4, 5, 6]), Err(SocksError::UnsupportedAddressType));
    assert_eq!(decode_address(&[5u8]), Err(SocksError::UnsupportedAddressType));
    assert_eq!(decode_address(&[255u8; 32]), Err(SocksError::UnsupportedAddressType));
}

#[test]
fn refuses_a_truncated_address() {
    assert_eq!(decode_address(&[]), Err(SocksError::FramingError));
    assert_eq!(decode_address(&[1u8]), Err(SocksError::FramingError));
    assert_eq!(decode_address(&[1u8, 127, 0, 0, 1, 0]), Err(SocksError::FramingError));
    assert_eq!(decode_address(&[3u8]), Err(SocksError::FramingError));
    assert_eq!(decode_address(&[3u8, 4, b'h', b'o', b's']), Err(SocksError::FramingError));
    assert_eq!(decode_address(&[3u8, 4, b'h', b'o', b's', b't']), Err(SocksError::FramingError));
    assert_eq!(decode_address(&[3u8, 4, b'h', b'o', b's', b't', 0]), Err(SocksError::FramingError));
    assert_eq!(decode_address(&[4u8; 18]), Err(SocksError::FramingError));
}

#[test]
fn domain_decoder_consumes_length_plus_one() {
    for length in 0..=255usize {
        let mut buf = vec![length as u8];
        for i in 0..length {
            buf.push((i % 251) as u8);
        }
        let expected: Vec<u8> = buf[1..].to_vec();
        let exact = decode_domain(&buf).unwrap();
        assert_eq!(exact, (expected.clone(), length + 1));
        buf.extend_from_slice(&[0xaa; 300]);
        let padded = decode_domain(&buf).unwrap();
        assert_eq!(padded, (expected, length + 1));
    }
}

#[test]
fn domain_decoder_refuses_a_short_buffer() {
    assert_eq!(decode_domain(&[]), Err(SocksError::FramingError));
    assert_eq!(decode_domain(&[1u8]), Err(SocksError::FramingError));
    assert_eq!(decode_domain(&[3u8, b'a', b'b']), Err(SocksError::FramingError));
    assert_eq!(decode_domain(&[0u8]), Ok((Vec::new(), 1)));
}

#[test]
fn field_reader_refuses_counts_above_255() {
    let buf = vec![7u8; 70000];
    assert_eq!(take_field(&buf, 0, 256), Err(SocksError::FramingError));
    assert_eq!(take_field(&buf, 0, 1000), Err(SocksError::FramingError));
    assert_eq!(take_field(&buf, 0, 65535), Err(SocksError::FramingError));
    assert_eq!(take_field(&buf, 1, usize::MAX), Err(SocksError::FramingError));
    assert_eq!(take_field(&buf, 0, 255), Ok(vec![7u8; 255]));
}

#[test]
fn field_reader_stays_inside_the_buffer() {
    let buf = [1u8, 2, 3, 4, 5];
    assert_eq!(take_field(&buf, 1, 3), Ok(vec![2u8, 3, 4]));
    assert_eq!(take_field(&buf, 0, 5), Ok(vec![1u8, 2, 3, 4, 5]));
    assert_eq!(take_field(&buf, 5, 0), Ok(Vec::new()));
    assert_eq!(take_field(&buf, 3, 3), Err(SocksError::FramingError));
    assert_eq!(take_field(&buf, 6, 0), Err(SocksError::FramingError));
    assert_eq!(take_field(&buf, usize::MAX, 2), Err(SocksError::FramingError));
}

#[test]
fn encodes_each_family() {
    assert_eq!(
        encoded(&Address { host: Host::V4([127, 0, 0, 1]), port: 80 }),
        vec![1u8, 127, 0, 0, 1, 0, 80]
    );
    assert_eq!(
        encoded(&Address { host: Host::Domain(b"ab".to_vec()), port: 0x1234 }),
        vec![3u8, 2, b'a', b'b', 0x12, 0x34]
    );
    let mut expected = vec![4u8];
    expected.extend_from_slice(&[0xfe; 16]);
    expected.extend_from_slice(&[0xff, 0xfe]);
    assert_eq!(encoded(&Address { host: Host::V6([0xfe; 16]), port: 0xfffe }), expected);
}

#[test]
fn encoder_appends_to_what_is_there() {
    let mut out = vec![9u8, 8];
    encode_address(&Address { host: Host::V4([1, 2, 3, 4]), port: 5 }, &mut out).unwrap();
    assert_eq!(out, vec![9u8, 8, 1, 1, 2, 3, 4, 0, 5]);
}

#[test]
fn encoder_refuses_an_overlong_name() {
    let mut out = vec![1u8, 2, 3];
    let address = Address { host: Host::Domain(vec![b'x'; 256]), port: 80 };
    assert_eq!(encode_address(&address, &mut out), Err(SocksError::FramingError));
    assert_eq!(out, vec![1u8, 2, 3]);
    let longest = Address { host: Host::Domain(vec![b'x'; 255]), port: 80 };
    assert_eq!(encode_address(&longest, &mut out), Ok(()));
    assert_eq!(out.len(), 3 + 2 + 255 + 2);
}

#[test]
fn address_survives_encode_then_decode() {
    let samples = vec![
        Address { host: Host::V4([0, 0, 0, 0]), port: 0 },
        Address { host: Host::V4([255, 255, 255, 255]), port: 65535 },
        Address { host: Host::Domain(Vec::new()), port: 1 },
        Address { host: Host::Domain(vec![0xff, 0x00, 0x80]), port: 256 },
        Address { host: Host::Domain(vec![b'z'; 255]), port: 255 },
        Address { host: Host::V6([0; 16]), port: 443 },
        Address { host: Host::V6([1, 2, 3, 4, 5, 6, 7, 8, 9, 10, 11, 12, 13, 14, 15, 16]), port: 8 },
    ];
    for address in samples {
        let mut wire = encoded(&address);
        let length = wire.len();
        assert_eq!(decode_address(&wire), Ok((address.clone(), length)));
        wire.extend_from_slice(&[1, 2, 3]);
        assert_eq!(decode_address(&wire), Ok((address, length)));
    }
}

#[test]
fn bytes_survive_decode_then_encode() {
    let mut domain = vec![3u8, 5];
    domain.extend_from_slice(b"hello");
    domain.extend_from_slice(&[0, 21, 0xee, 0xee]);
    let samples: Vec<Vec<u8>> = vec![
        vec![1u8, 8, 8, 4, 4, 0, 53, 1, 2, 3],
        domain,
        vec![4u8, 0, 0, 0, 0, 0, 0, 0, 0, 0, 0, 0, 0, 0, 0, 0, 1, 0x20, 0x00],
    ];
    for wire in samples {
        let (address, used) = decode_address(&wire).unwrap();
        assert_eq!(encoded(&address), wire[..used].to_vec());
    }
}

#[test]
fn ports_are_big_endian() {
    assert_eq!(read_port(0, 80), 80);
    assert_eq!(read_port(1, 0), 256);
    assert_eq!(read_port(0x1f, 0x90), 8080);
    assert_eq!(read_port(255, 255), 65535);
    let mut out = vec![7u8];
    write_port(&mut out, 8080);
    write_port(&mut out, 1);
    assert_eq!(out, vec![7u8, 0x1f, 0x90, 0, 1]);
}

#[test]
fn every_port_survives_its_bytes() {
    for port in 0..=65535u16 {
        let mut out = Vec::new();
        write_port(&mut out, port);
        assert_eq!(out.len(), 2);
        assert_eq!(read_port(out[0], out[1]), port);
    }
}

#[test]
fn cloned_address_is_equal() {
    let address = Address { host: Host::Domain(b"host".to_vec()), port: 9 };
    assert_eq!(address.clone(), address);
    let host = Host::V6([3; 16]);
    assert_eq!(host.clone(), host);
}
