use vstd::prelude::*;

verus! {

/// Credential window, in milliseconds, used when a network sets none.
pub const CREDENTIAL_WINDOW_SIZE_DEFAULT: i64 = 3_600_000;

/// MTU of a virtual network that sets none.
pub const DEFAULT_MTU: u16 = 2800;

/// Multicast recipient limit of a virtual network that sets none.
pub const DEFAULT_MULTICAST_LIMIT: u32 = 32;

/// Identifier of a virtual network; never zero.
#[derive(Clone, Copy, Debug, PartialEq, Eq, Structural)]
pub struct NetworkId {
    pub id: u64,
}

impl NetworkId {
    /// A network id from its numeric form; zero is not a valid id.
    pub fn from_u64(v: u64) -> (r: Option<NetworkId>)
        ensures
            r.is_some() <==> v != 0,
            r.is_some() ==> r.unwrap().id == v,
    {
        if v == 0 {
            None
        } else {
            Some(NetworkId { id: v })
        }
    }

    pub fn to_u64(&self) -> (r: u64)
        ensures
            r == self.id,
    {
        self.id
    }
}

/// An IP address with a port, or with the number of network bits for an
/// assigned address. IPv4 addresses sit in the low 32 bits of `ip`.
#[derive(Clone, Copy, Debug, PartialEq, Eq, Structural)]
pub struct InetAddress {
    pub ip: u128,
    pub v6: bool,
    pub port: u16,
}

/// A managed route pushed to members.
#[derive(Clone, Copy, Debug, PartialEq, Eq, Structural)]
pub struct Route {
    pub target: InetAddress,
    pub via: Option<InetAddress>,
    pub flags: u16,
    pub metric: u16,
}

/// One entry of a network's rule program.
#[derive(Clone, Copy, Debug, PartialEq, Eq, Structural)]
pub struct Rule {
    pub kind: u8,
    pub value: u64,
}

/// DNS settings pushed to members.
#[derive(Clone, Debug)]
pub struct Dns {
    pub domain: String,
    pub servers: Vec<InetAddress>,
}

/// A node's address and key material; the controller's own identity also
/// carries its secret.
#[derive(Clone, Debug)]
pub struct Identity {
    pub address: u64,
    pub x25519: Vec<u8>,
    pub p384: Option<Vec<u8>>,
    pub fingerprint: Vec<u8>,
    pub secret: Option<Vec<u8>>,
}

/// The mathematical value of an identity: every field, key material included.
pub struct IdentityView {
    pub address: u64,
    pub x25519: Seq<u8>,
    pub p384: Option<Seq<u8>>,
    pub fingerprint: Seq<u8>,
    pub secret: Option<Seq<u8>>,
}

pub open spec fn opt_bytes_view(o: Option<Vec<u8>>) -> Option<Seq<u8>> {
    match o {
        Some(v) => Some(v@),
        None => None,
    }
}

impl View for Identity {
    type V = IdentityView;

    open spec fn view(&self) -> IdentityView {
        IdentityView {
            address: self.address,
            x25519: self.x25519@,
            p384: opt_bytes_view(self.p384),
            fingerprint: self.fingerprint@,
            secret: opt_bytes_view(self.secret),
        }
    }
}

pub fn bytes_equal(a: &Vec<u8>, b: &Vec<u8>) -> (r: bool)
    ensures
        r == (a@ == b@),
{
    if a.len() != b.len() {
        return false;
    }
    let mut i: usize = 0;
    while i < a.len()
        invariant
            a.len() == b.len(),
            i <= a.len(),
            forall|j: int| 0 <= j < i ==> a@[j] == b@[j],
        decreases a.len() - i,
    {
        if a[i] != b[i] {
            return false;
        }
        i += 1;
    }
    assert(a@ =~= b@);
    true
}

fn opt_bytes_equal(a: &Option<Vec<u8>>, b: &Option<Vec<u8>>) -> (r: bool)
    ensures
        r == (opt_bytes_view(*a) == opt_bytes_view(*b)),
{
    match (a, b) {
        (Some(x), Some(y)) => bytes_equal(x, y),
        (None, None) => true,
        _ => false,
    }
}

pub fn copy_bytes(a: &Vec<u8>) -> (r: Vec<u8>)
    ensures
        r@ == a@,
{
    let r = a.clone();
    assert(r@ =~= a@);
    r
}

fn copy_opt_bytes(a: &Option<Vec<u8>>) -> (r: Option<Vec<u8>>)
    ensures
        opt_bytes_view(r) == opt_bytes_view(*a),
{
    match a {
        Some(x) => Some(copy_bytes(x)),
        None => None,
    }
}

impl Identity {
    /// Exact equality: address and every piece of key material.
    pub fn same_as(&self, other: &Identity) -> (r: bool)
        ensures
            r == (self@ == other@),
    {
        self.address == other.address && bytes_equal(&self.x25519, &other.x25519)
            && opt_bytes_equal(&self.p384, &other.p384) && bytes_equal(
            &self.fingerprint,
            &other.fingerprint,
        ) && opt_bytes_equal(&self.secret, &other.secret)
    }

    /// A copy with the same value.
    pub fn duplicate(&self) -> (r: Identity)
        ensures
            r@ == self@,
    {
        Identity {
            address: self.address,
            x25519: copy_bytes(&self.x25519),
            p384: copy_opt_bytes(&self.p384),
            fingerprint: copy_bytes(&self.fingerprint),
            secret: copy_opt_bytes(&self.secret),
        }
    }

    /// An identity that carries only first-generation key material.
    pub fn is_legacy(&self) -> (r: bool)
        ensures
            r == self.p384.is_none(),
    {
        self.p384.is_none()
    }
}

/// A virtual network as its administrator configured it.
#[derive(Clone, Debug)]
pub struct Network {
    pub id: NetworkId,
    pub name: String,
    pub private: bool,
    pub learn_members: Option<bool>,
    pub credential_ttl: Option<i64>,
    pub mtu: Option<u16>,
    pub multicast_limit: Option<u32>,
    pub ip_routes: Vec<Route>,
    pub rules: Vec<Rule>,
    pub dns: Option<Dns>,
}

/// Whether unknown nodes get a member record (true unless the network says no).
pub open spec fn learns_members(n: Network) -> bool {
    match n.learn_members {
        Some(b) => b,
        None => true,
    }
}

/// The credential window of a network: its own setting, else the default.
pub open spec fn ttl_of(n: Network) -> i64 {
    match n.credential_ttl {
        Some(t) => t,
        None => CREDENTIAL_WINDOW_SIZE_DEFAULT,
    }
}

impl Network {
    pub fn learns_members(&self) -> (r: bool)
        ensures
            r == learns_members(*self),
    {
        match self.learn_members {
            Some(b) => b,
            None => true,
        }
    }

    pub fn credential_ttl(&self) -> (r: i64)
        ensures
            r == ttl_of(*self),
    {
        match self.credential_ttl {
            Some(t) => t,
            None => CREDENTIAL_WINDOW_SIZE_DEFAULT,
        }
    }
}

/// The state of one node in one network.
#[derive(Clone, Debug)]
pub struct Member {
    pub network_id: NetworkId,
    pub address: u64,
    pub identity: Option<Identity>,
    pub authorized: bool,
    pub last_authorized_time: Option<i64>,
    pub last_deauthorized_time: Option<i64>,
    pub ip_assignments: Vec<InetAddress>,
    pub name: String,
    pub tags: Vec<(u32, u32)>,
}

/// No two (id, value) pairs share an id: the tags are a map from id to value.
pub open spec fn unique_tag_ids(t: Seq<(u32, u32)>) -> bool {
    forall|i: int, j: int| 0 <= i < j < t.len() ==> t[i].0 != t[j].0
}

impl Member {
    /// Whether no two of the member's tags share an id.
    pub fn has_unique_tag_ids(&self) -> (r: bool)
        ensures
            r == unique_tag_ids(self.tags@),
    {
        let n = self.tags.len();
        let mut i: usize = 0;
        while i < n
            invariant
                n == self.tags@.len(),
                i <= n,
                forall|a: int, b: int| 0 <= a < i && a < b < n ==> self.tags@[a].0 != self.tags@[b].0,
            decreases n - i,
        {
            let mut j: usize = i + 1;
            while j < n
                invariant
                    n == self.tags@.len(),
                    i < n,
                    i + 1 <= j <= n,
                    forall|a: int, b: int| 0 <= a < i && a < b < n ==> self.tags@[a].0 != self.tags@[b].0,
                    forall|b: int| i < b < j ==> self.tags@[i as int].0 != self.tags@[b].0,
                decreases n - j,
            {
                if self.tags[i].0 == self.tags[j].0 {
                    return false;
                }
                j += 1;
            }
            i += 1;
        }
        true
    }

    /// A new, unauthorized member pinned to the given identity.
    pub fn new_with_identity(identity: Identity, network_id: NetworkId) -> (r: Member)
        ensures
            r.network_id == network_id,
            r.address == identity.address,
            r.identity == Some(identity),
            !r.authorized,
            r.last_authorized_time.is_none(),
            r.last_deauthorized_time.is_none(),
            r.ip_assignments@.len() == 0,
            r.name@.len() == 0,
            r.tags@.len() == 0,
    {
        let address = identity.address;
        Member {
            network_id,
            address,
            identity: Some(identity),
            authorized: false,
            last_authorized_time: None,
            last_deauthorized_time: None,
            ip_assignments: Vec::new(),
            name: String::new(),
            tags: Vec::new(),
        }
    }

    pub fn authorized(&self) -> (r: bool)
        ensures
            r == self.authorized,
    {
        self.authorized
    }
}

/// Outcome of the authorization of one request.
#[derive(Clone, Copy, Debug, PartialEq, Eq, Structural)]
pub enum AuthorizationResult {
    Rejected,
    RejectedViaSso,
    RejectedViaToken,
    RejectedTooManyMembers,
    RejectedIdentityMismatch,
    RejectedDueToError,
    ApprovedIsAuthorized,
    ApprovedViaSso,
    ApprovedViaToken,
    ApprovedOnPublicNetwork,
}

impl AuthorizationResult {
    pub open spec fn approved(self) -> bool {
        match self {
            AuthorizationResult::ApprovedIsAuthorized
            | AuthorizationResult::ApprovedViaSso
            | AuthorizationResult::ApprovedViaToken
            | AuthorizationResult::ApprovedOnPublicNetwork => true,
            _ => false,
        }
    }

    pub fn is_approved(&self) -> (r: bool)
        ensures
            r == self.approved(),
    {
        match self {
            AuthorizationResult::ApprovedIsAuthorized
            | AuthorizationResult::ApprovedViaSso
            | AuthorizationResult::ApprovedViaToken
            | AuthorizationResult::ApprovedOnPublicNetwork => true,
            _ => false,
        }
    }
}

/// Certifies that `issued_to` was a member at `timestamp`, valid for
/// `max_delta` milliseconds.
#[derive(Clone, Debug)]
pub struct CertificateOfMembership {
    pub network_id: NetworkId,
    pub issued_to: Identity,
    pub timestamp: i64,
    pub max_delta: i64,
    pub legacy_v1: bool,
    pub signature: Vec<u8>,
}

/// Certifies that `issued_to` owns the listed addresses.
#[derive(Clone, Debug)]
pub struct CertificateOfOwnership {
    pub network_id: NetworkId,
    pub timestamp: i64,
    pub issued_to: u64,
    pub ips: Vec<InetAddress>,
    pub legacy_v1: bool,
    pub signature: Vec<u8>,
}

/// A signed (id, value) pair for rule evaluation on peers.
#[derive(Clone, Debug)]
pub struct Tag {
    pub id: u32,
    pub value: u32,
    pub network_id: NetworkId,
    pub issued_to: u64,
    pub timestamp: i64,
    pub legacy_v1: bool,
    pub signature: Vec<u8>,
}

/// The configuration bundle issued to an authorized member.
#[derive(Clone, Debug)]
pub struct NetworkConfig {
    pub network_id: NetworkId,
    pub issued_to: u64,
    pub name: String,
    pub private: bool,
    pub timestamp: i64,
    pub credential_ttl: i64,
    pub revision: u64,
    pub mtu: u16,
    pub multicast_limit: u32,
    pub routes: Vec<Route>,
    pub static_ips: Vec<InetAddress>,
    pub rules: Vec<Rule>,
    pub dns: Option<Dns>,
    pub certificate_of_membership: CertificateOfMembership,
    pub certificates_of_ownership: Vec<CertificateOfOwnership>,
    pub tags: Vec<Tag>,
}

/// Audit record of one request.
#[derive(Clone, Debug)]
pub struct RequestLogItem {
    pub network_id: NetworkId,
    pub node_id: u64,
    pub node_fingerprint: Vec<u8>,
    pub controller_node_id: u64,
    pub metadata: Vec<u8>,
    pub timestamp: i64,
    pub source_remote_endpoint: Option<InetAddress>,
    pub source_hops: u8,
    pub result: AuthorizationResult,
}

} // verus!
