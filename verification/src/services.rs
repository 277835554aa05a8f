//! Decisions of the sled-local service manager: which requested services
//! must be instantiated, which are already running, and when a request
//! conflicts with what this sled already runs.  Reading and writing the
//! service configuration file, and booting zones, are I/O done around
//! these decisions.

use vstd::prelude::*;

use crate::net::SocketAddrV6;
use vstd::string::StringExecFns;

verus! {

/// A request that one service run on this sled, listening on one address.
#[derive(Debug)]
pub struct ServiceRequest {
    pub name: String,
    pub address: SocketAddrV6,
}

impl Clone for ServiceRequest {
    fn clone(&self) -> (r: Self)
        ensures
            r == *self,
    {
        ServiceRequest { name: self.name.clone(), address: self.address }
    }
}

/// A zone already running on this sled, by service name and address.
#[derive(Debug)]
pub struct ZoneInfo {
    pub name: String,
    pub address: SocketAddrV6,
}

/// Why the service manager refuses a request.
#[derive(Debug)]
pub enum Error {
    TomlSerialize { message: String },
    TomlDeserialize { message: String },
    Io { message: String },
    ServicesAlreadyConfigured,
}

/// Where the sled keeps its service configuration.
pub fn services_config_path() -> (r: String)
    ensures
        r@ == "/var/oxide/services.toml"@,
{
    let r = String::from_str("/var/oxide").concat("/services.toml");
    proof {
        reveal_strlit("/var/oxide");
        reveal_strlit("/services.toml");
        reveal_strlit("/var/oxide/services.toml");
        assert(r@ =~= "/var/oxide/services.toml"@);
    }
    r
}

/// Whether a running zone collides with a request on either coordinate.
pub open spec fn zone_conflicts(z: ZoneInfo, r: ServiceRequest) -> bool {
    z.name@ == r.name@ || z.address == r.address
}

/// Whether a running zone is exactly the requested service.
pub open spec fn zone_satisfies(z: ZoneInfo, r: ServiceRequest) -> bool {
    z.name@ == r.name@ && z.address == r.address
}

/// Whether the first running zone that touches the request's name or
/// address is exactly the requested service — then the request is already
/// satisfied.
pub open spec fn request_running(existing: Seq<ZoneInfo>, r: ServiceRequest) -> bool {
    exists|i: int|
        0 <= i < existing.len() && #[trigger] zone_conflicts(existing[i], r) && (forall|j: int|
            0 <= j < i ==> !zone_conflicts(existing[j], r)) && zone_satisfies(existing[i], r)
}

/// Whether the first running zone that touches the request's name or
/// address differs from it — then the request collides with this sled's
/// configuration.
pub open spec fn request_collides(existing: Seq<ZoneInfo>, r: ServiceRequest) -> bool {
    exists|i: int|
        0 <= i < existing.len() && #[trigger] zone_conflicts(existing[i], r) && (forall|j: int|
            0 <= j < i ==> !zone_conflicts(existing[j], r)) && !zone_satisfies(existing[i], r)
}

/// Finds the first running zone touching the request's name or address and
/// reports whether it satisfies the request exactly (already running) or
/// differs from it (a collision); neither holds when no zone touches it.
fn classify_request(existing: &Vec<ZoneInfo>, service: &ServiceRequest) -> (r: (bool, bool))
    ensures
        r.0 == request_running(existing@, *service),
        r.1 == request_collides(existing@, *service),
{
    let zn = existing.len();
    let mut z: usize = 0;
    while z < zn
        invariant
            zn == existing@.len(),
            z <= zn,
            forall|j: int| 0 <= j < z ==> !zone_conflicts(existing@[j], *service),
        decreases zn - z,
    {
        let zone = &existing[z];
        if zone.name.eq(&service.name) || zone.address == service.address {
            proof {
                assert(zone_conflicts(existing@[z as int], *service));
            }
            if zone.name.eq(&service.name) && zone.address == service.address {
                proof {
                    assert(zone_satisfies(existing@[z as int], *service));
                    assert(request_running(existing@, *service));
                    if request_collides(existing@, *service) {
                        let i = choose|i: int|
                            0 <= i < existing@.len() && #[trigger] zone_conflicts(
                                existing@[i],
                                *service,
                            ) && (forall|j: int|
                                0 <= j < i ==> !zone_conflicts(existing@[j], *service))
                                && !zone_satisfies(existing@[i], *service);
                        assert(i == z as int);
                    }
                }
                return (true, false);
            } else {
                proof {
                    assert(!zone_satisfies(existing@[z as int], *service));
                    assert(request_collides(existing@, *service));
                    if request_running(existing@, *service) {
                        let i = choose|i: int|
                            0 <= i < existing@.len() && #[trigger] zone_conflicts(
                                existing@[i],
                                *service,
                            ) && (forall|j: int|
                                0 <= j < i ==> !zone_conflicts(existing@[j], *service))
                                && zone_satisfies(existing@[i], *service);
                        assert(i == z as int);
                    }
                }
                return (false, true);
            }
        }
        z = z + 1;
    }
    (false, false)
}

/// Decides what service initialization must do: refuses the whole request
/// list if any request collides with a running zone, and otherwise returns
/// the requests that are not already running, in order — exactly those the
/// caller must instantiate.
pub fn plan_service_initialization(existing: &Vec<ZoneInfo>, services: &Vec<ServiceRequest>) -> (r:
    Result<Vec<ServiceRequest>, Error>)
    ensures
        (r is Err <==> exists|ri: int|
            0 <= ri < services@.len() && request_collides(existing@, #[trigger] services@[ri])),
        (r matches Err(e) ==> e is ServicesAlreadyConfigured),
        (r matches Ok(v) ==> v@ == services@.filter(
            |q: ServiceRequest| !request_running(existing@, q),
        )),
{
    let n = services.len();
    let mut out: Vec<ServiceRequest> = Vec::new();
    let mut i: usize = 0;
    proof {
        assert(services@.subrange(0, 0).filter(
            |q: ServiceRequest| !request_running(existing@, q),
        ) =~= Seq::<ServiceRequest>::empty());
    }
    while i < n
        invariant
            n == services@.len(),
            i <= n,
            out@ == services@.subrange(0, i as int).filter(
                |q: ServiceRequest| !request_running(existing@, q),
            ),
            forall|ri: int| 0 <= ri < i ==> !request_collides(existing@, #[trigger] services@[ri]),
        decreases n - i,
    {
        let ghost pre = services@.subrange(0, i as int);
        let ghost post = services@.subrange(0, i + 1);
        let service = &services[i];
        let (satisfied, collided) = classify_request(existing, service);
        if collided {
            return Err(Error::ServicesAlreadyConfigured);
        }
        if !satisfied {
            out.push(service.clone());
        }
        proof {
            reveal_with_fuel(Seq::<ServiceRequest>::filter, 2);
            assert(post.drop_last() =~= pre);
            assert(post.last() == services@[i as int]);
        }
        i = i + 1;
    }
    proof {
        assert(services@.subrange(0, n as int) =~= services@);
    }
    Ok(out)
}

/// Whether some request in the list names this (name, address) pair.
pub open spec fn has_request(s: Seq<ServiceRequest>, name: Seq<char>, addr: SocketAddrV6) -> bool {
    exists|i: int| 0 <= i < s.len() && (#[trigger] s[i]).name@ == name && s[i].address == addr
}

/// Whether two request lists describe the same set of services, ignoring
/// order and multiplicity.
pub open spec fn service_sets_equal(a: Seq<ServiceRequest>, b: Seq<ServiceRequest>) -> bool {
    (forall|i: int| 0 <= i < a.len() ==> has_request(b, (#[trigger] a[i]).name@, a[i].address))
        && (forall|i: int|
        0 <= i < b.len() ==> has_request(a, (#[trigger] b[i]).name@, b[i].address))
}

/// Executable search for one (name, address) pair in a request list.
fn find_request(s: &Vec<ServiceRequest>, name: &String, addr: SocketAddrV6) -> (r: bool)
    ensures
        r == has_request(s@, name@, addr),
{
    let n = s.len();
    let mut i: usize = 0;
    while i < n
        invariant
            n == s@.len(),
            i <= n,
            forall|k: int|
                0 <= k < i ==> !((#[trigger] s@[k]).name@ == name@ && s@[k].address == addr),
        decreases n - i,
    {
        let q = &s[i];
        if q.name.eq(name) && q.address == addr {
            return true;
        }
        i = i + 1;
    }
    false
}

/// Decides whether the services already configured on this sled are the
/// same set the caller is requesting; when they are not, the caller must
/// refuse rather than silently reshape the sled.
pub fn same_service_config(known: &Vec<ServiceRequest>, requested: &Vec<ServiceRequest>) -> (r:
    bool)
    ensures
        r == service_sets_equal(known@, requested@),
{
    let kn = known.len();
    let mut i: usize = 0;
    while i < kn
        invariant
            kn == known@.len(),
            i <= kn,
            forall|k: int|
                0 <= k < i ==> has_request(requested@, (#[trigger] known@[k]).name@,
                    known@[k].address,
                ),
        decreases kn - i,
    {
        let q = &known[i];
        if !find_request(requested, &q.name, q.address) {
            return false;
        }
        i = i + 1;
    }
    let rn = requested.len();
    let mut j: usize = 0;
    while j < rn
        invariant
            rn == requested@.len(),
            j <= rn,
            forall|k: int|
                0 <= k < known@.len() ==> has_request(
                    requested@,
                    (#[trigger] known@[k]).name@,
                    known@[k].address,
                ),
            forall|k: int|
                0 <= k < j ==> has_request(known@, (#[trigger] requested@[k]).name@,
                    requested@[k].address,
                ),
        decreases rn - j,
    {
        let q = &requested[j];
        if !find_request(known, &q.name, q.address) {
            return false;
        }
        j = j + 1;
    }
    true
}

/// How a simulated sled agent advances its simulated resources.
#[derive(Clone, Copy, Debug, PartialEq, Eq, Structural)]
pub enum SimMode {
    /// Simulated transitions happen automatically.
    Auto,
    /// Simulated transitions happen on explicit request.
    Explicit,
}

/// Parses a simulation mode from its command-line spelling.
pub fn parse_sim_mode(src: &str) -> (r: Result<SimMode, String>)
    ensures
        src@ == "auto"@ ==> r == Result::<SimMode, String>::Ok(SimMode::Auto),
        src@ == "explicit"@ ==> r == Result::<SimMode, String>::Ok(SimMode::Explicit),
        (src@ != "auto"@ && src@ != "explicit"@ ==> (r matches Err(m) && m@ == "Invalid sim mode: "@
            + src@)),
{
    proof {
        reveal_strlit("auto");
        reveal_strlit("explicit");
        assert("auto"@.len() == 4);
        assert("explicit"@.len() == 8);
        assert("auto"@ != "explicit"@);
    }
    let s = String::from_str(src);
    if s.eq(&String::from_str("auto")) {
        Ok(SimMode::Auto)
    } else if s.eq(&String::from_str("explicit")) {
        Ok(SimMode::Explicit)
    } else {
        Err(String::from_str("Invalid sim mode: ").concat(src))
    }
}

} // verus!
