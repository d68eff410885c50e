//! The host's network interfaces, as one snapshot: which addresses an interface
//! has, and which interface an address belongs to.

use crate::ip::IpAddr;
use crate::server::Endpoint;
use vstd::prelude::*;

verus! {

/// What can go wrong between the interfaces and the program.
#[derive(Debug, PartialEq, Eq)]
pub enum Error {
    /// No connection to the server could be made to learn the local address; the
    /// text is the system's reason.
    Connection(Endpoint, String),
    /// The system would not list its interfaces; the text is its reason.
    QueryInterface(String),
    /// No interface has the address that the system routes from.
    InterfaceNotFound(IpAddr),
}

/// One entry of the snapshot: an interface and one address bound to it. An interface
/// with several addresses has several entries; one without any has a single entry
/// that holds no address.
#[derive(Debug, PartialEq, Eq)]
pub struct Interface {
    pub name: String,
    pub address: Option<IpAddr>,
}

/// The snapshot: the entries in the system's order.
#[derive(Debug, PartialEq, Eq)]
pub struct Interfaces {
    pub ifaces: Vec<Interface>,
}

/// Whether an interface called `name` has an entry among `ifaces`.
pub open spec fn has_entry(ifaces: Seq<Interface>, name: Seq<char>) -> bool {
    exists|i: int| 0 <= i < ifaces.len() && (#[trigger] ifaces[i]).name@ == name
}

/// The addresses bound to the interface called `name`, in the snapshot's order.
pub open spec fn addrs_named(ifaces: Seq<Interface>, name: Seq<char>) -> Seq<IpAddr> {
    ifaces.filter(|e: Interface| e.name@ == name && e.address is Some).map_values(
        |e: Interface| e.address->Some_0,
    )
}

/// Whether entry `i` is the first of `ifaces` that holds the address `ip`.
pub open spec fn first_with_address(ifaces: Seq<Interface>, ip: IpAddr, i: int) -> bool {
    &&& 0 <= i < ifaces.len()
    &&& ifaces[i].address == Some(ip)
    &&& forall|j: int| 0 <= j < i ==> (#[trigger] ifaces[j]).address != Some(ip)
}

/// Whether some entry of `ifaces` holds the address `ip`.
pub open spec fn has_address(ifaces: Seq<Interface>, ip: IpAddr) -> bool {
    exists|i: int| 0 <= i < ifaces.len() && (#[trigger] ifaces[i]).address == Some(ip)
}

impl Interfaces {
    /// Whether the snapshot knows an interface called `name`, with or without addresses.
    pub open spec fn knows(self, name: Seq<char>) -> bool {
        has_entry(self.ifaces@, name)
    }

    /// Takes the snapshot from what the system answered: its list of entries, or the
    /// reason why it gave none.
    pub fn new(queried: Result<Vec<Interface>, String>) -> (r: Result<Self, Error>)
        ensures
            match queried {
                Ok(list) => r matches Ok(s) && s.ifaces == list,
                Err(cause) => r matches Err(Error::QueryInterface(c)) && c == cause,
            },
    {
        match queried {
            Ok(ifaces) => Ok(Interfaces { ifaces }),
            Err(cause) => Err(Error::QueryInterface(cause)),
        }
    }

    /// The addresses of the interface called `name`: `None` when the snapshot knows
    /// no such interface, the empty list when it is there without an address.
    pub fn get_addrs_by_name(&self, name: &str) -> (r: Option<Vec<IpAddr>>)
        ensures
            r is Some <==> self.knows(name@),
            r matches Some(addrs) ==> addrs@ == addrs_named(self.ifaces@, name@),
    {
        let wanted = name.to_owned();
        let mut found = false;
        let mut addrs: Vec<IpAddr> = Vec::new();
        let mut i: usize = 0;
        proof {
            assert(self.ifaces@.take(0) =~= Seq::<Interface>::empty());
        }
        while i < self.ifaces.len()
            invariant
                i <= self.ifaces.len(),
                wanted@ == name@,
                found == has_entry(self.ifaces@.take(i as int), name@),
                addrs@ == addrs_named(self.ifaces@.take(i as int), name@),
            decreases self.ifaces.len() - i,
        {
            let entry = &self.ifaces[i];
            proof {
                let keep = |e: Interface| e.name@ == name@ && e.address is Some;
                let addr = |e: Interface| e.address->Some_0;
                let before = self.ifaces@.take(i as int);
                let after = self.ifaces@.take(i as int + 1);
                assert(after =~= before.push(*entry));
                assert(after.drop_last() =~= before);
                reveal(Seq::filter);
                assert(after.filter(keep) == if keep(*entry) {
                    before.filter(keep).push(*entry)
                } else {
                    before.filter(keep)
                });
                assert(before.filter(keep).push(*entry).map_values(addr) =~= before.filter(
                    keep,
                ).map_values(addr).push(addr(*entry)));
                if has_entry(before, name@) {
                    let k = choose|k: int| 0 <= k < before.len() && (#[trigger] before[k]).name@
                        == name@;
                    assert(after[k].name@ == name@);
                }
                if entry.name@ == name@ {
                    assert(after[i as int].name@ == name@);
                }
                if has_entry(after, name@) && entry.name@ != name@ {
                    let k = choose|k: int| 0 <= k < after.len() && (#[trigger] after[k]).name@
                        == name@;
                    assert(before[k].name@ == name@);
                }
            }
            if entry.name == wanted {
                found = true;
                match entry.address {
                    Some(ip) => addrs.push(ip),
                    None => {},
                }
            }
            i += 1;
        }
        proof {
            assert(self.ifaces@.take(self.ifaces.len() as int) =~= self.ifaces@);
        }
        if found {
            Some(addrs)
        } else {
            None
        }
    }

    /// The interface that the system routes from when it talks to `server`: the first
    /// entry whose address is the local address of a connection to it. `probed` is that
    /// local address, or the reason why no connection was made.
    pub fn get_iface_by_tcp_source_ip<'a>(
        &'a self,
        server: Endpoint,
        probed: Result<IpAddr, String>,
    ) -> (r: Result<&'a str, Error>)
        ensures
            match probed {
                Err(cause) => r matches Err(Error::Connection(s, c)) && s == server && c == cause,
                Ok(ip) => if has_address(self.ifaces@, ip) {
                    r matches Ok(name) && exists|i: int|
                        first_with_address(self.ifaces@, ip, i) && name@ == self.ifaces@[i].name@
                } else {
                    r matches Err(Error::InterfaceNotFound(a)) && a == ip
                },
            },
    {
        let source_ip = match probed {
            Ok(ip) => ip,
            Err(cause) => {
                return Err(Error::Connection(server, cause));
            },
        };
        let mut i: usize = 0;
        while i < self.ifaces.len()
            invariant
                i <= self.ifaces.len(),
                probed == Ok::<IpAddr, String>(source_ip),
                forall|j: int|
                    0 <= j < i ==> (#[trigger] self.ifaces@[j]).address != Some(source_ip),
            decreases self.ifaces.len() - i,
        {
            let here = match self.ifaces[i].address {
                Some(ip) => ip == source_ip,
                None => false,
            };
            if here {
                assert(first_with_address(self.ifaces@, source_ip, i as int));
                return Ok(self.ifaces[i].name.as_str());
            }
            i += 1;
        }
        Err(Error::InterfaceNotFound(source_ip))
    }
}

} // verus!
