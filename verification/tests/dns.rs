use ddns_updater::dns::{
    replace_addrs_message, replace_addrs_message_with_id, soa_query, DnsClass, Edns, MessageType,
    OpCode, Query, Record, RecordType, UpdateTransaction, EDNS_VERSION, MAX_PAYLOAD_LEN,
};
use ddns_updater::ip::{IpAddr, Ipv4Addr, Ipv6Addr};
use std::collections::BTreeSet;

fn ten() -> IpAddr {
    IpAddr::V4(Ipv4Addr::new(10, 0, 0, 5))
}

fn doc6() -> IpAddr {
    IpAddr::V6(Ipv6Addr::new([0x2001, 0xdb8, 0, 0, 0, 0, 0, 1]))
}

fn delete(name: &str, rr_type: RecordType) -> Record {
    Record { name: name.to_string(), rr_type, dns_class: DnsClass::ANY, ttl: 0, rdata: None }
}

fn add(name: &str, rr_type: RecordType, ttl: u32, ip: IpAddr) -> Record {
    Record { name: name.to_string(), rr_type, dns_class: DnsClass::IN, ttl, rdata: Some(ip) }
}

/// What a server that holds `store` holds after `tx`.
fn apply(tx: &UpdateTransaction, store: &[(String, RecordType, u32, IpAddr)]) -> BTreeSet<String> {
    let mut held: Vec<(String, RecordType, u32, IpAddr)> = store.to_vec();
    for entry in tx.deletions.iter().chain(tx.additions.iter()) {
        if entry.dns_class == DnsClass::ANY {
            held.retain(|r| !(r.0 == entry.name && r.1 == entry.rr_type));
        } else {
            let record = (entry.name.clone(), entry.rr_type, entry.ttl, entry.rdata.unwrap());
            if !held.contains(&record) {
                held.push(record);
            }
        }
    }
    held.iter().map(|r| format!("{:?}", r)).collect()
}

fn held(tx: &UpdateTransaction, store: &[(String, RecordType, u32, IpAddr)]) -> Vec<(String, RecordType, u32, IpAddr)> {
    let mut out: Vec<(String, RecordType, u32, IpAddr)> = store.to_vec();
    for entry in tx.deletions.iter().chain(tx.additions.iter()) {
        if entry.dns_class == DnsClass::ANY {
            out.retain(|r| !(r.0 == entry.name && r.1 == entry.rr_type));
        } else {
            let record = (entry.name.clone(), entry.rr_type, entry.ttl, entry.rdata.unwrap());
            if !out.contains(&record) {
                out.push(record);
            }
        }
    }
    out
}

#[test]
fn build_with_one_ipv4_address() {
    let tx = replace_addrs_message("example.com", "host.example.com", 300, &[ten()]);
    assert_eq!(
        tx.zone,
        Query {
            name: "example.com".to_string(),
            query_class: DnsClass::IN,
            query_type: RecordType::SOA
        }
    );
    assert_eq!(
        tx.deletions,
        vec![
            delete("host.example.com", RecordType::A),
            delete("host.example.com", RecordType::AAAA)
        ]
    );
    assert_eq!(tx.additions, vec![add("host.example.com", RecordType::A, 300, ten())]);
}

#[test]
fn build_without_addresses_only_clears() {
    let tx = replace_addrs_message("example.com", "host.example.com", 300, &[]);
    assert_eq!(
        tx.deletions,
        vec![
            delete("host.example.com", RecordType::A),
            delete("host.example.com", RecordType::AAAA)
        ]
    );
    assert_eq!(tx.additions, Vec::new());
    assert_eq!(tx.zone.name, "example.com");
}

#[test]
fn deletions_are_rrset_deletions() {
    let tx = replace_addrs_message("example.com", "host.example.com", 300, &[ten(), doc6()]);
    assert_eq!(tx.deletions.len(), 2);
    for d in &tx.deletions {
        assert_eq!(d.dns_class, DnsClass::ANY);
        assert_eq!(d.ttl, 0);
        assert_eq!(d.rdata, None);
        assert_eq!(d.name, "host.example.com");
    }
    assert_eq!(tx.deletions[0].rr_type, RecordType::A);
    assert_eq!(tx.deletions[1].rr_type, RecordType::AAAA);
}

#[test]
fn additions_are_typed_by_family_and_keep_order() {
    let other = IpAddr::V4(Ipv4Addr::new(192, 168, 1, 9));
    let tx = replace_addrs_message("example.com", "host.example.com", 60, &[doc6(), ten(), other]);
    assert_eq!(
        tx.additions,
        vec![
            add("host.example.com", RecordType::AAAA, 60, doc6()),
            add("host.example.com", RecordType::A, 60, ten()),
            add("host.example.com", RecordType::A, 60, other),
        ]
    );
}

#[test]
fn additions_carry_the_configured_ttl() {
    let tx = replace_addrs_message("example.com", "host.example.com", 0, &[ten()]);
    assert_eq!(tx.additions[0].ttl, 0);
    let tx = replace_addrs_message("example.com", "host.example.com", u32::MAX, &[ten()]);
    assert_eq!(tx.additions[0].ttl, u32::MAX);
}

#[test]
fn transaction_announces_payload_size_and_version() {
    let tx = replace_addrs_message("example.com", "host.example.com", 300, &[ten()]);
    assert_eq!(tx.edns, Edns { max_payload: 1232, version: 0 });
    assert_eq!(MAX_PAYLOAD_LEN, 1232);
    assert_eq!(EDNS_VERSION, 0);
}

#[test]
fn build_with_id_is_exact() {
    let tx = replace_addrs_message_with_id("example.com", "host.example.com", 300, &[ten()], 4711);
    assert_eq!(
        tx,
        UpdateTransaction {
            id: 4711,
            message_type: MessageType::Query,
            op_code: OpCode::Update,
            recursion_desired: false,
            zone: Query {
                name: "example.com".to_string(),
                query_class: DnsClass::IN,
                query_type: RecordType::SOA
            },
            deletions: vec![
                delete("host.example.com", RecordType::A),
                delete("host.example.com", RecordType::AAAA)
            ],
            additions: vec![add("host.example.com", RecordType::A, 300, ten())],
            edns: Edns { max_payload: 1232, version: 0 },
        }
    );
}

#[test]
fn identifiers_are_drawn_per_message() {
    let mut seen: BTreeSet<u16> = BTreeSet::new();
    for _ in 0..64 {
        seen.insert(replace_addrs_message("example.com", "host.example.com", 300, &[]).id);
    }
    assert!(seen.len() > 1);
}

#[test]
fn random_and_given_id_build_the_same_message() {
    let addrs = [ten(), doc6()];
    let drawn = replace_addrs_message("example.com", "host.example.com", 300, &addrs);
    let given =
        replace_addrs_message_with_id("example.com", "host.example.com", 300, &addrs, drawn.id);
    assert_eq!(drawn, given);
}

#[test]
fn applying_twice_is_applying_once() {
    let tx = replace_addrs_message("example.com", "host.example.com", 300, &[ten(), doc6()]);
    let old4 = IpAddr::V4(Ipv4Addr::new(10, 0, 0, 4));
    let starts: Vec<Vec<(String, RecordType, u32, IpAddr)>> = vec![
        Vec::new(),
        vec![("host.example.com".to_string(), RecordType::A, 300, old4)],
        vec![("host.example.com".to_string(), RecordType::A, 300, ten())],
        vec![
            ("host.example.com".to_string(), RecordType::A, 60, old4),
            ("host.example.com".to_string(), RecordType::AAAA, 60, doc6()),
            ("other.example.com".to_string(), RecordType::A, 60, old4),
        ],
    ];
    for start in starts {
        let once = held(&tx, &start);
        let twice = held(&tx, &once);
        assert_eq!(apply(&tx, &start), apply(&tx, &once));
        assert_eq!(once.len(), twice.len());
    }
}

#[test]
fn applying_replaces_the_addresses_and_nothing_else() {
    let tx = replace_addrs_message("example.com", "host.example.com", 300, &[ten()]);
    let old4 = IpAddr::V4(Ipv4Addr::new(10, 0, 0, 4));
    let start = vec![
        ("host.example.com".to_string(), RecordType::A, 60, old4),
        ("host.example.com".to_string(), RecordType::AAAA, 60, doc6()),
        ("other.example.com".to_string(), RecordType::A, 60, old4),
    ];
    assert_eq!(
        held(&tx, &start),
        vec![
            ("other.example.com".to_string(), RecordType::A, 60, old4),
            ("host.example.com".to_string(), RecordType::A, 300, ten()),
        ]
    );
}

#[test]
fn applying_an_empty_update_clears_the_addresses() {
    let tx = replace_addrs_message("example.com", "host.example.com", 300, &[]);
    let start = vec![
        ("host.example.com".to_string(), RecordType::A, 60, ten()),
        ("host.example.com".to_string(), RecordType::AAAA, 60, doc6()),
    ];
    assert_eq!(held(&tx, &start), Vec::new());
}

#[test]
fn transaction_is_an_update_request_without_recursion() {
    for addrs in [vec![], vec![ten()], vec![ten(), doc6()]] {
        let tx = replace_addrs_message("example.com", "host.example.com", 300, &addrs);
        assert_eq!(tx.op_code, OpCode::Update);
        assert_eq!(tx.message_type, MessageType::Query);
        assert!(!tx.recursion_desired);
    }
}

#[test]
fn payload_size_is_that_of_the_dns_library() {
    assert_eq!(MAX_PAYLOAD_LEN, hickory_client::proto::op::update_message::MAX_PAYLOAD_LEN);
}

#[test]
fn soa_query_asks_for_the_start_of_authority() {
    assert_eq!(
        soa_query("host.example.com"),
        Query {
            name: "host.example.com".to_string(),
            query_class: DnsClass::IN,
            query_type: RecordType::SOA
        }
    );
}
