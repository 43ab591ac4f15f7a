use socks_lib::address::Address;
use socks_lib::address::Host;
use socks_lib::associate::all_zero;
use socks_lib::associate::has_port;
use socks_lib::associate::is_wildcard_host;
use socks_lib::associate::relay_endpoint;
use socks_lib::associate::same_address;
use socks_lib::associate::same_bytes;
use socks_lib::associate::same_host;
use socks_lib::associate::Association;
use socks_lib::associate::Delivery;
use socks_lib::associate::IDLE_LIMIT_SECS;
use socks_lib::datagram::decode_datagram;
use socks_lib::datagram::Datagram;
use socks_lib::resolver::Target;

fn client_host() -> Host {
    Host::V4([192, 0, 2, 10])
}

fn client_at(port: u16) -> Address {
    Address { host: client_host(), port }
}

fn remote() -> Address {
    Address { host: Host::V4([198, 51, 100, 7]), port: 53 }
}

#[test]
fn new_association_knows_no_client_address() {
    let association = Association::new(client_host());
    assert_eq!(association.client(), None);
    assert!(association.is_open());
}

#[test]
fn client_datagram_goes_to_its_destination() {
    let mut association = Association::new(client_host());
    let wire = [0u8, 0, 0, 1, 198, 51, 100, 7, 0, 53, b'a', b's', b'k'];
    assert_eq!(
        association.on_datagram(client_at(40000), &wire),
        Delivery::Forward {
            target: Target { host: String::from("198.51.100.7"), port: 53 },
            payload: b"ask".to_vec(),
        }
    );
    assert_eq!(association.client(), Some(&client_at(40000)));
}

#[test]
fn client_datagram_to_a_name_keeps_the_name() {
    let mut association = Association::new(client_host());
    let mut wire = vec![0u8, 0, 0, 3, 11];
    wire.extend_from_slice(b"example.com");
    wire.extend_from_slice(&[0x01, 0xbb, 9]);
    assert_eq!(
        association.on_datagram(client_at(1), &wire),
        Delivery::Forward {
            target: Target { host: String::from("example.com"), port: 443 },
            payload: vec![9],
        }
    );
}

#[test]
fn answer_comes_back_naming_its_sender() {
    let mut association = Association::new(client_host());
    let wire = [0u8, 0, 0, 1, 198, 51, 100, 7, 0, 53, b'a', b's', b'k'];
    association.on_datagram(client_at(40000), &wire);
    let delivery = association.on_datagram(remote(), b"answer");
    match delivery {
        Delivery::Return { client, packet } => {
            assert_eq!(client, client_at(40000));
            assert_eq!(
                packet,
                vec![0u8, 0, 0, 1, 198, 51, 100, 7, 0, 53, b'a', b'n', b's', b'w', b'e', b'r']
            );
            assert_eq!(
                decode_datagram(&packet),
                Ok(Datagram { address: remote(), payload: b"answer".to_vec() })
            );
        },
        other => panic!("unexpected delivery {:?}", other),
    }
    assert_eq!(association.client(), Some(&client_at(40000)));
}

#[test]
fn answer_from_ipv6_names_its_sender() {
    let mut association = Association::new(client_host());
    association.on_datagram(client_at(5), &[0u8, 0, 0, 1, 1, 1, 1, 1, 0, 1]);
    let sender = Address { host: Host::V6([0xfe; 16]), port: 99 };
    match association.on_datagram(sender.clone(), &[1, 2]) {
        Delivery::Return { client, packet } => {
            assert_eq!(client, client_at(5));
            assert_eq!(
                decode_datagram(&packet),
                Ok(Datagram { address: sender, payload: vec![1, 2] })
            );
        },
        other => panic!("unexpected delivery {:?}", other),
    }
}

#[test]
fn answer_follows_the_client_to_its_latest_port() {
    let mut association = Association::new(client_host());
    let wire = [0u8, 0, 0, 1, 198, 51, 100, 7, 0, 53, 1];
    association.on_datagram(client_at(40000), &wire);
    association.on_datagram(client_at(40001), &wire);
    match association.on_datagram(remote(), b"x") {
        Delivery::Return { client, .. } => assert_eq!(client, client_at(40001)),
        other => panic!("unexpected delivery {:?}", other),
    }
}

#[test]
fn answer_before_any_client_datagram_is_dropped() {
    let mut association = Association::new(client_host());
    assert_eq!(association.on_datagram(remote(), b"unasked"), Delivery::Drop);
    assert_eq!(association.client(), None);
}

#[test]
fn fragment_is_dropped_and_the_relay_goes_on() {
    let mut association = Association::new(client_host());
    let good = [0u8, 0, 0, 1, 198, 51, 100, 7, 0, 53, b'1'];
    let fragment = [0u8, 0, 1, 1, 198, 51, 100, 7, 0, 53, b'2'];
    association.on_datagram(client_at(7000), &good);
    assert_eq!(association.on_datagram(client_at(7001), &fragment), Delivery::Drop);
    assert_eq!(association.client(), Some(&client_at(7000)));
    assert_eq!(
        association.on_datagram(client_at(7002), &good),
        Delivery::Forward {
            target: Target { host: String::from("198.51.100.7"), port: 53 },
            payload: vec![b'1'],
        }
    );
    assert_eq!(association.client(), Some(&client_at(7002)));
    assert!(matches!(association.on_datagram(remote(), b"r"), Delivery::Return { .. }));
}

#[test]
fn malformed_client_datagram_is_dropped() {
    let mut association = Association::new(client_host());
    assert_eq!(association.on_datagram(client_at(1), &[]), Delivery::Drop);
    assert_eq!(association.on_datagram(client_at(1), &[0, 0, 0, 9, 1, 2]), Delivery::Drop);
    assert_eq!(association.on_datagram(client_at(1), &[0, 1, 0, 1, 1, 2, 3, 4, 0, 5]), Delivery::Drop);
    assert_eq!(association.on_datagram(client_at(1), &[0, 0, 0, 1, 1, 2, 3]), Delivery::Drop);
    assert_eq!(association.client(), None);
}

#[test]
fn answer_from_an_unframable_sender_is_dropped() {
    let mut association = Association::new(client_host());
    association.on_datagram(client_at(1), &[0, 0, 0, 1, 1, 2, 3, 4, 0, 5]);
    let sender = Address { host: Host::Domain(vec![b'a'; 256]), port: 1 };
    assert_eq!(association.on_datagram(sender, b"x"), Delivery::Drop);
}

#[test]
fn closed_association_relays_nothing() {
    let mut association = Association::new(client_host());
    let good = [0u8, 0, 0, 1, 198, 51, 100, 7, 0, 53, b'1'];
    association.on_datagram(client_at(7000), &good);
    association.close();
    assert!(!association.is_open());
    assert_eq!(association.on_datagram(client_at(7000), &good), Delivery::Drop);
    assert_eq!(association.on_datagram(remote(), b"late"), Delivery::Drop);
    assert_eq!(association.client(), Some(&client_at(7000)));
}

#[test]
fn hosts_are_compared_by_family_and_bytes() {
    assert!(same_host(&Host::V4([1, 2, 3, 4]), &Host::V4([1, 2, 3, 4])));
    assert!(!same_host(&Host::V4([1, 2, 3, 4]), &Host::V4([1, 2, 3, 5])));
    assert!(!same_host(&Host::V4([1, 2, 3, 4]), &Host::Domain(vec![1, 2, 3, 4])));
    assert!(same_host(&Host::Domain(b"a".to_vec()), &Host::Domain(b"a".to_vec())));
    assert!(!same_host(&Host::Domain(b"a".to_vec()), &Host::Domain(b"ab".to_vec())));
    assert!(same_host(&Host::V6([9; 16]), &Host::V6([9; 16])));
    assert!(!same_host(&Host::V6([9; 16]), &Host::V6([8; 16])));
}

#[test]
fn byte_strings_are_compared_in_full() {
    assert!(same_bytes(&[], &[]));
    assert!(same_bytes(&[1, 2, 3], &[1, 2, 3]));
    assert!(!same_bytes(&[1, 2, 3], &[1, 2]));
    assert!(!same_bytes(&[1, 2, 3], &[1, 2, 4]));
    assert!(!same_bytes(&[0, 2, 3], &[1, 2, 3]));
}

#[test]
fn idle_association_closes_at_the_limit() {
    assert_eq!(IDLE_LIMIT_SECS, 120);
    let mut association = Association::new(client_host());
    assert!(association.on_idle(0));
    assert!(association.on_idle(119));
    assert!(association.is_open());
    assert!(!association.on_idle(120));
    assert!(!association.is_open());
    assert!(!association.on_idle(0));
    assert!(!association.is_open());
    let mut other = Association::new(client_host());
    assert!(!other.on_idle(u64::MAX));
    let good = [0u8, 0, 0, 1, 198, 51, 100, 7, 0, 53, b'1'];
    assert_eq!(other.on_datagram(client_at(1), &good), Delivery::Drop);
}

#[test]
fn wildcard_is_all_zeros() {
    assert!(all_zero(&[]));
    assert!(all_zero(&[0, 0, 0]));
    assert!(!all_zero(&[0, 0, 1]));
    assert!(!all_zero(&[1, 0, 0]));
    assert!(is_wildcard_host(&Host::V4([0, 0, 0, 0])));
    assert!(is_wildcard_host(&Host::V6([0; 16])));
    assert!(!is_wildcard_host(&Host::V4([0, 0, 0, 1])));
    assert!(!is_wildcard_host(&Host::V4([127, 0, 0, 0])));
    let mut loopback = [0u8; 16];
    loopback[15] = 1;
    assert!(!is_wildcard_host(&Host::V6(loopback)));
    assert!(!is_wildcard_host(&Host::Domain(Vec::new())));
    assert!(!is_wildcard_host(&Host::Domain(vec![0, 0, 0, 0])));
}

#[test]
fn wildcard_socket_is_advertised_at_the_servers_host() {
    let bound = Address { host: Host::V4([0, 0, 0, 0]), port: 5000 };
    let reached = Address { host: Host::V4([203, 0, 113, 1]), port: 1080 };
    assert_eq!(
        relay_endpoint(bound.clone(), Some(reached.clone())),
        Address { host: Host::V4([203, 0, 113, 1]), port: 5000 }
    );
    assert_eq!(relay_endpoint(bound.clone(), None), bound);
    let own = Address { host: Host::V4([10, 0, 0, 1]), port: 5001 };
    assert_eq!(relay_endpoint(own.clone(), Some(reached.clone())), own);
    let six = Address { host: Host::V6([0; 16]), port: 5002 };
    assert_eq!(
        relay_endpoint(six, Some(reached)),
        Address { host: Host::V4([203, 0, 113, 1]), port: 5002 }
    );
}

#[test]
fn answer_from_the_clients_own_host_comes_back() {
    let loopback = Host::V4([127, 0, 0, 1]);
    let client = Address { host: loopback.clone(), port: 40000 };
    let remote = Address { host: loopback.clone(), port: 5353 };
    let mut association = Association::new(loopback);
    let sent = [0u8, 0, 0, 1, 127, 0, 0, 1, 0x14, 0xe9, b'a', b's', b'k'];
    assert_eq!(
        association.on_datagram(client.clone(), &sent),
        Delivery::Forward {
            target: Target { host: String::from("127.0.0.1"), port: 5353 },
            payload: b"ask".to_vec(),
        }
    );
    assert!(association.takes_for_answer(&remote));
    assert!(!association.takes_for_answer(&client));
    match association.on_datagram(remote.clone(), b"answer") {
        Delivery::Return { client: to, packet } => {
            assert_eq!(to, client);
            assert_eq!(
                packet,
                vec![0u8, 0, 0, 1, 127, 0, 0, 1, 0x14, 0xe9, b'a', b'n', b's', b'w', b'e', b'r']
            );
            assert_eq!(
                decode_datagram(&packet),
                Ok(Datagram { address: remote.clone(), payload: b"answer".to_vec() })
            );
        },
        other => panic!("unexpected delivery {:?}", other),
    }
    assert_eq!(association.client(), Some(&client));
}

#[test]
fn answer_that_looks_like_a_header_is_still_an_answer() {
    let loopback = Host::V4([127, 0, 0, 1]);
    let client = Address { host: loopback.clone(), port: 40000 };
    let remote = Address { host: loopback.clone(), port: 7 };
    let mut association = Association::new(loopback);
    association.on_datagram(client.clone(), &[0u8, 0, 0, 1, 127, 0, 0, 1, 0, 7, 1]);
    let answer = [0u8, 0, 0, 1, 10, 9, 8, 7, 0, 9, 0xaa];
    match association.on_datagram(remote.clone(), &answer) {
        Delivery::Return { client: to, packet } => {
            assert_eq!(to, client);
            assert_eq!(
                decode_datagram(&packet),
                Ok(Datagram { address: remote, payload: answer.to_vec() })
            );
        },
        other => panic!("unexpected delivery {:?}", other),
    }
    assert_eq!(association.client(), Some(&client));
}

#[test]
fn client_goes_on_sending_after_an_answer_from_its_host() {
    let loopback = Host::V4([127, 0, 0, 1]);
    let client = Address { host: loopback.clone(), port: 40000 };
    let remote = Address { host: loopback.clone(), port: 7 };
    let mut association = Association::new(loopback);
    let sent = [0u8, 0, 0, 1, 127, 0, 0, 1, 0, 7, 1];
    association.on_datagram(client.clone(), &sent);
    assert!(matches!(association.on_datagram(remote.clone(), b"one"), Delivery::Return { .. }));
    assert_eq!(
        association.on_datagram(client.clone(), &sent),
        Delivery::Forward {
            target: Target { host: String::from("127.0.0.1"), port: 7 },
            payload: vec![1],
        }
    );
    assert!(matches!(association.on_datagram(remote, b"two"), Delivery::Return { .. }));
    assert_eq!(association.client(), Some(&client));
}

#[test]
fn unaddressed_port_on_the_clients_host_is_the_client() {
    let mut association = Association::new(client_host());
    let good = [0u8, 0, 0, 1, 198, 51, 100, 7, 0, 53, b'1'];
    association.on_datagram(client_at(7000), &good);
    assert!(!association.takes_for_answer(&client_at(7001)));
    assert_eq!(association.on_datagram(client_at(7001), b"no header"), Delivery::Drop);
    assert_eq!(association.client(), Some(&client_at(7000)));
    assert!(association.takes_for_answer(&remote()));
}

#[test]
fn client_that_addresses_itself_stays_the_client() {
    let mut association = Association::new(client_host());
    let to_itself = [0u8, 0, 0, 1, 192, 0, 2, 10, 0x1b, 0x58, b'x'];
    assert_eq!(
        association.on_datagram(client_at(7000), &to_itself),
        Delivery::Forward {
            target: Target { host: String::from("192.0.2.10"), port: 7000 },
            payload: vec![b'x'],
        }
    );
    assert!(!association.takes_for_answer(&client_at(7000)));
    assert_eq!(association.on_datagram(client_at(7000), b"raw"), Delivery::Drop);
}

#[test]
fn resolved_name_on_the_clients_host_is_noted() {
    let loopback = Host::V4([127, 0, 0, 1]);
    let client = Address { host: loopback.clone(), port: 40000 };
    let remote = Address { host: loopback.clone(), port: 8053 };
    let mut association = Association::new(loopback);
    let mut sent = vec![0u8, 0, 0, 3, 9];
    sent.extend_from_slice(b"localhost");
    sent.extend_from_slice(&[0x1f, 0x75, b'q']);
    assert_eq!(
        association.on_datagram(client.clone(), &sent),
        Delivery::Forward {
            target: Target { host: String::from("localhost"), port: 8053 },
            payload: vec![b'q'],
        }
    );
    assert!(!association.takes_for_answer(&remote));
    association.note_destination(&remote);
    association.note_destination(&remote);
    association.note_destination(&Address { host: Host::V4([10, 0, 0, 1]), port: 9 });
    assert!(association.takes_for_answer(&remote));
    match association.on_datagram(remote.clone(), b"a") {
        Delivery::Return { client: to, packet } => {
            assert_eq!(to, client);
            assert_eq!(decode_datagram(&packet), Ok(Datagram { address: remote, payload: vec![b'a'] }));
        },
        other => panic!("unexpected delivery {:?}", other),
    }
}

#[test]
fn ports_are_looked_up_in_full() {
    assert!(!has_port(&[], 1));
    assert!(has_port(&[1, 2, 3], 1));
    assert!(has_port(&[1, 2, 3], 3));
    assert!(!has_port(&[1, 2, 3], 4));
    assert!(!has_port(&[1, 2, 3], 0));
}

#[test]
fn addresses_are_compared_by_host_and_port() {
    assert!(same_address(&client_at(1), &client_at(1)));
    assert!(!same_address(&client_at(1), &client_at(2)));
    assert!(!same_address(&client_at(53), &remote()));
    assert!(same_address(&remote(), &remote()));
}
