//! The update transaction: one message that clears the address records of a name and
//! puts the current addresses in their place.

use crate::ip::IpAddr;
use vstd::prelude::*;

verus! {

/// Largest message that the sender is ready to receive, as the transaction announces it.
pub const MAX_PAYLOAD_LEN: u16 = 1232;

/// Version of the extension mechanism that carries the payload size.
pub const EDNS_VERSION: u8 = 0;

/// The record types that a transaction speaks of.
#[derive(Clone, Copy, Debug, PartialEq, Eq, Structural, Hash)]
pub enum RecordType {
    A,
    AAAA,
    SOA,
}

/// The record classes that a transaction speaks of.
#[derive(Clone, Copy, Debug, PartialEq, Eq, Structural, Hash)]
pub enum DnsClass {
    IN,
    ANY,
}

/// What a message asks the server to do.
#[derive(Clone, Copy, Debug, PartialEq, Eq, Structural, Hash)]
pub enum OpCode {
    Query,
    Status,
    Notify,
    Update,
}

/// Whether a message asks or answers.
#[derive(Clone, Copy, Debug, PartialEq, Eq, Structural, Hash)]
pub enum MessageType {
    Query,
    Response,
}

/// A question, and the zone section of an update: which zone the transaction changes.
#[derive(Debug, PartialEq, Eq)]
pub struct Query {
    pub name: String,
    pub query_class: DnsClass,
    pub query_type: RecordType,
}

/// One entry of the update section. In class `ANY`, without data, it deletes every
/// record of its type at its name; in class `IN` it adds the address it holds.
#[derive(Debug, PartialEq, Eq)]
pub struct Record {
    pub name: String,
    pub rr_type: RecordType,
    pub dns_class: DnsClass,
    pub ttl: u32,
    pub rdata: Option<IpAddr>,
}

/// What the sender announces about message sizes.
#[derive(Clone, Copy, Debug, PartialEq, Eq, Structural)]
pub struct Edns {
    pub max_payload: u16,
    pub version: u8,
}

/// One atomic replacement of the address records of a name.
#[derive(Debug, PartialEq, Eq)]
pub struct UpdateTransaction {
    /// Identifier of the message; drawn anew for every transaction.
    pub id: u16,
    /// A transaction is sent as a request.
    pub message_type: MessageType,
    /// A transaction asks for an update.
    pub op_code: OpCode,
    /// Whether the server is asked to look further on the sender's behalf: it is not.
    pub recursion_desired: bool,
    pub zone: Query,
    /// Applied first, in order.
    pub deletions: Vec<Record>,
    /// Applied after the deletions, in order.
    pub additions: Vec<Record>,
    pub edns: Edns,
}

/// A zone section as a value.
pub struct QueryView {
    pub name: Seq<char>,
    pub query_class: DnsClass,
    pub query_type: RecordType,
}

/// An update entry as a value.
pub struct RecordView {
    pub name: Seq<char>,
    pub rr_type: RecordType,
    pub dns_class: DnsClass,
    pub ttl: u32,
    pub rdata: Option<IpAddr>,
}

/// A transaction as a value.
pub struct TransactionView {
    pub id: u16,
    pub message_type: MessageType,
    pub op_code: OpCode,
    pub recursion_desired: bool,
    pub zone: QueryView,
    pub deletions: Seq<RecordView>,
    pub additions: Seq<RecordView>,
    pub edns: Edns,
}

impl View for Query {
    type V = QueryView;

    open spec fn view(&self) -> QueryView {
        QueryView { name: self.name@, query_class: self.query_class, query_type: self.query_type }
    }
}

impl View for Record {
    type V = RecordView;

    open spec fn view(&self) -> RecordView {
        RecordView {
            name: self.name@,
            rr_type: self.rr_type,
            dns_class: self.dns_class,
            ttl: self.ttl,
            rdata: self.rdata,
        }
    }
}

/// The entries of a list as values.
pub open spec fn records_view(records: Seq<Record>) -> Seq<RecordView> {
    records.map_values(|r: Record| r@)
}

impl View for UpdateTransaction {
    type V = TransactionView;

    open spec fn view(&self) -> TransactionView {
        TransactionView {
            id: self.id,
            message_type: self.message_type,
            op_code: self.op_code,
            recursion_desired: self.recursion_desired,
            zone: self.zone@,
            deletions: records_view(self.deletions@),
            additions: records_view(self.additions@),
            edns: self.edns,
        }
    }
}

/// The record type that holds an address of this family.
pub open spec fn address_type(ip: IpAddr) -> RecordType {
    match ip {
        IpAddr::V4(_) => RecordType::A,
        IpAddr::V6(_) => RecordType::AAAA,
    }
}

/// The entry that deletes every record of type `rr_type` at `name`.
pub open spec fn deletion(name: Seq<char>, rr_type: RecordType) -> RecordView {
    RecordView { name, rr_type, dns_class: DnsClass::ANY, ttl: 0, rdata: None }
}

/// The entry that adds the address `ip` at `name`.
pub open spec fn addition(name: Seq<char>, ttl: u32, ip: IpAddr) -> RecordView {
    RecordView { name, rr_type: address_type(ip), dns_class: DnsClass::IN, ttl, rdata: Some(ip) }
}

/// The entries that add `addrs` at `name`, one for each, in their order.
pub open spec fn additions_for(name: Seq<char>, ttl: u32, addrs: Seq<IpAddr>) -> Seq<RecordView> {
    addrs.map_values(|ip: IpAddr| addition(name, ttl, ip))
}

/// The question for the start of authority of `name`: the zone section of an update of
/// the zone `name`, and what is asked to learn which zone holds `name`.
pub open spec fn soa_question(name: Seq<char>) -> QueryView {
    QueryView { name, query_class: DnsClass::IN, query_type: RecordType::SOA }
}

/// The transaction that replaces the address records of `name` in `zone` by `addrs`:
/// an update request without recursion, in which both address types are deleted
/// whatever `addrs` holds, then each address is added.
pub open spec fn replace_addrs(
    zone: Seq<char>,
    name: Seq<char>,
    ttl: u32,
    addrs: Seq<IpAddr>,
    id: u16,
) -> TransactionView {
    TransactionView {
        id,
        message_type: MessageType::Query,
        op_code: OpCode::Update,
        recursion_desired: false,
        zone: soa_question(zone),
        deletions: seq![deletion(name, RecordType::A), deletion(name, RecordType::AAAA)],
        additions: additions_for(name, ttl, addrs),
        edns: Edns { max_payload: MAX_PAYLOAD_LEN, version: EDNS_VERSION },
    }
}

/// `rand::random`, at `u16`: a number drawn at random. Nothing is known of it.
#[verifier::external_body]
fn random_id() -> u16 {
    rand::random()
}

/// The question for the start of authority of `name`.
pub fn soa_query(name: &str) -> (r: Query)
    ensures
        r@ == soa_question(name@),
{
    Query { name: name.to_owned(), query_class: DnsClass::IN, query_type: RecordType::SOA }
}

/// The entry that deletes every record of type `rr_type` at `name`.
fn delete_rrset(name: &str, rr_type: RecordType) -> (r: Record)
    ensures
        r@ == deletion(name@, rr_type),
{
    Record { name: name.to_owned(), rr_type, dns_class: DnsClass::ANY, ttl: 0, rdata: None }
}

/// The entry that adds the address `ip` at `name`.
fn add_address(name: &str, ttl: u32, ip: IpAddr) -> (r: Record)
    ensures
        r@ == addition(name@, ttl, ip),
{
    let rr_type = match ip {
        IpAddr::V4(_) => RecordType::A,
        IpAddr::V6(_) => RecordType::AAAA,
    };
    Record { name: name.to_owned(), rr_type, dns_class: DnsClass::IN, ttl, rdata: Some(ip) }
}

/// Builds the transaction with the identifier `id`.
pub fn replace_addrs_message_with_id(
    zone_origin: &str,
    name: &str,
    ttl: u32,
    addrs: &[IpAddr],
    id: u16,
) -> (r: UpdateTransaction)
    ensures
        r@ == replace_addrs(zone_origin@, name@, ttl, addrs@, id),
{
    let zone = soa_query(zone_origin);
    let mut deletions: Vec<Record> = Vec::new();
    deletions.push(delete_rrset(name, RecordType::A));
    deletions.push(delete_rrset(name, RecordType::AAAA));
    assert(records_view(deletions@) =~= seq![
        deletion(name@, RecordType::A),
        deletion(name@, RecordType::AAAA),
    ]);
    let mut additions: Vec<Record> = Vec::new();
    let mut i: usize = 0;
    while i < addrs.len()
        invariant
            i <= addrs.len(),
            records_view(additions@) =~= additions_for(name@, ttl, addrs@.take(i as int)),
        decreases addrs.len() - i,
    {
        let ghost before = additions@;
        additions.push(add_address(name, ttl, addrs[i]));
        proof {
            assert(addrs@.take(i as int + 1) =~= addrs@.take(i as int).push(addrs@[i as int]));
            assert(records_view(additions@) =~= records_view(before).push(
                addition(name@, ttl, addrs@[i as int]),
            ));
        }
        i += 1;
    }
    assert(addrs@.take(addrs.len() as int) =~= addrs@);
    UpdateTransaction {
        id,
        message_type: MessageType::Query,
        op_code: OpCode::Update,
        recursion_desired: false,
        zone,
        deletions,
        additions,
        edns: Edns { max_payload: MAX_PAYLOAD_LEN, version: EDNS_VERSION },
    }
}

/// Builds one transaction that removes the A and AAAA records of `name` and puts
/// `addrs` in their place, under an identifier drawn at random for this message.
pub fn replace_addrs_message(zone_origin: &str, name: &str, ttl: u32, addrs: &[IpAddr]) -> (r:
    UpdateTransaction)
    ensures
        r@ == replace_addrs(zone_origin@, name@, ttl, addrs@, r.id),
{
    let id = random_id();
    replace_addrs_message_with_id(zone_origin, name, ttl, addrs, id)
}

/// What one update entry does to the records that a server holds: a deletion removes
/// every record of its type at its name, an addition puts its record among them.
pub open spec fn apply_entry(store: Set<RecordView>, entry: RecordView) -> Set<RecordView> {
    if entry.dns_class == DnsClass::ANY {
        store.filter(|r: RecordView| !(r.name == entry.name && r.rr_type == entry.rr_type))
    } else {
        store.insert(entry)
    }
}

/// What a list of update entries does, applied in order.
pub open spec fn apply_entries(store: Set<RecordView>, entries: Seq<RecordView>) -> Set<
    RecordView,
>
    decreases entries.len(),
{
    if entries.len() == 0 {
        store
    } else {
        apply_entry(apply_entries(store, entries.drop_last()), entries.last())
    }
}

/// What a transaction does to the records that a server holds: the deletions, then
/// the additions.
pub open spec fn apply(tx: TransactionView, store: Set<RecordView>) -> Set<RecordView> {
    apply_entries(apply_entries(store, tx.deletions), tx.additions)
}

/// The records of `store` that are no address record of `name`.
pub open spec fn without_addresses(store: Set<RecordView>, name: Seq<char>) -> Set<RecordView> {
    store.filter(
        |r: RecordView|
            !(r.name == name && (r.rr_type == RecordType::A || r.rr_type == RecordType::AAAA)),
    )
}

/// Additions accumulate: applying them leaves the store with exactly those records more.
proof fn lemma_additions_applied(
    store: Set<RecordView>,
    name: Seq<char>,
    ttl: u32,
    addrs: Seq<IpAddr>,
)
    ensures
        apply_entries(store, additions_for(name, ttl, addrs)) =~= store.union(
            additions_for(name, ttl, addrs).to_set(),
        ),
    decreases addrs.len(),
{
    let entries = additions_for(name, ttl, addrs);
    if addrs.len() > 0 {
        let shorter = additions_for(name, ttl, addrs.drop_last());
        assert(entries.drop_last() =~= shorter);
        lemma_additions_applied(store, name, ttl, addrs.drop_last());
        assert forall|r: RecordView| entries.contains(r) <==> (shorter.contains(r) || r
            == entries.last()) by {
            if entries.contains(r) {
                let k = choose|k: int| 0 <= k < entries.len() && entries[k] == r;
                if k < shorter.len() {
                    assert(shorter[k] == r);
                }
            }
            if shorter.contains(r) {
                let k = choose|k: int| 0 <= k < shorter.len() && shorter[k] == r;
                assert(entries[k] == r);
            }
            assert(entries[entries.len() - 1] == entries.last());
        }
    }
}

/// A transaction is a full replacement: whatever the server held, it then holds the
/// records it had that are no address record of the name, and the additions. Nothing
/// of the old addresses is left, and nothing else is touched.
pub proof fn lemma_full_replacement(
    zone: Seq<char>,
    name: Seq<char>,
    ttl: u32,
    addrs: Seq<IpAddr>,
    id: u16,
    store: Set<RecordView>,
)
    ensures
        apply(replace_addrs(zone, name, ttl, addrs, id), store) == without_addresses(
            store,
            name,
        ).union(additions_for(name, ttl, addrs).to_set()),
{
    let tx = replace_addrs(zone, name, ttl, addrs, id);
    reveal_with_fuel(apply_entries, 3);
    assert(tx.deletions.drop_last() =~= seq![deletion(name, RecordType::A)]);
    assert(tx.deletions.drop_last().drop_last() =~= Seq::<RecordView>::empty());
    assert(apply_entries(store, tx.deletions) =~= without_addresses(store, name));
    lemma_additions_applied(without_addresses(store, name), name, ttl, addrs);
    assert(apply(tx, store) =~= without_addresses(store, name).union(
        additions_for(name, ttl, addrs).to_set(),
    ));
}

/// Applying a transaction a second time changes nothing.
pub proof fn lemma_apply_idempotent(
    zone: Seq<char>,
    name: Seq<char>,
    ttl: u32,
    addrs: Seq<IpAddr>,
    id: u16,
    store: Set<RecordView>,
)
    ensures
        apply(
            replace_addrs(zone, name, ttl, addrs, id),
            apply(replace_addrs(zone, name, ttl, addrs, id), store),
        ) == apply(replace_addrs(zone, name, ttl, addrs, id), store),
{
    let tx = replace_addrs(zone, name, ttl, addrs, id);
    let added = additions_for(name, ttl, addrs).to_set();
    let once = apply(tx, store);
    lemma_full_replacement(zone, name, ttl, addrs, id, store);
    lemma_full_replacement(zone, name, ttl, addrs, id, once);
    assert forall|r: RecordView| added.contains(r) implies r.name == name && (r.rr_type
        == RecordType::A || r.rr_type == RecordType::AAAA) by {
        let k = choose|k: int|
            0 <= k < additions_for(name, ttl, addrs).len() && additions_for(name, ttl, addrs)[k]
                == r;
        assert(r == addition(name, ttl, addrs[k]));
    }
    assert(without_addresses(once, name) =~= without_addresses(store, name));
    assert(apply(tx, once) =~= once);
}

} // verus!
