//! The authorization decision for one configuration request, as a state
//! machine. The caller performs each action (a database call, the IP
//! assignment policy, signing, persisting) and hands the outcome back to the
//! method named for it; the request never waits on anything itself.
use vstd::prelude::*;

use crate::wire::{framed, SendError, MAX_CONFIG_BYTES};

use crate::model::{
    copy_bytes,
    learns_members, ttl_of, unique_tag_ids, AuthorizationResult, CertificateOfMembership, CertificateOfOwnership,
    IdentityView, Identity, InetAddress, Member, Network, NetworkConfig, NetworkId, Tag,
    DEFAULT_MTU, DEFAULT_MULTICAST_LIMIT,
};

verus! {

/// Where a request stands: the outcome it waits for next.
#[derive(Clone, Copy, Debug, PartialEq, Eq, Structural)]
pub enum Stage {
    AwaitNetwork,
    AwaitMember,
    AwaitDeauthorized,
    AwaitIpAssignment,
    AwaitSignatures,
    AwaitSave,
    Done,
}

/// The outside work a request asks for next.
#[derive(Clone, Copy, Debug, PartialEq, Eq, Structural)]
pub enum Action {
    /// Load the member record of `address` in `network_id`, then call `on_member`.
    LoadMember { network_id: NetworkId, address: u64 },
    /// List the members deauthorized after `after`, then call `on_deauthorized_listed`.
    ListDeauthorizedAfter { network_id: NetworkId, after: i64 },
    /// Run the network's IP assignment policy on the member, then call `on_ips_assigned`.
    AssignIps,
    /// Sign the credentials of the configuration, then call `on_signed`.
    Sign,
    /// Persist the member, then call `on_saved`.
    SaveMember,
    /// Nothing is left to do: `outcome` holds the result.
    Finish,
}

/// Signatures over the credentials of a configuration, `None` where signing failed.
pub struct Signatures {
    pub membership: Option<Vec<u8>>,
    pub ownership: Option<Vec<u8>>,
    pub tags: Vec<Option<Vec<u8>>>,
}

/// One configuration request in flight.
///
/// Two requests for the same member that run at once each read, change and
/// write the record with no guard between them: the later write wins. The
/// database is the only owner of member state and no locking is added here.
pub struct ConfigRequest {
    pub identity: Identity,
    pub network_id: NetworkId,
    /// The one timestamp of the request, taken when it came in.
    pub now: i64,
    pub stage: Stage,
    pub network: Option<Network>,
    /// The member record as the database gave it.
    pub loaded_member: Ghost<Option<Member>>,
    pub member: Option<Member>,
    pub member_changed: bool,
    pub result: AuthorizationResult,
    pub credential_ttl: i64,
    pub config: Option<NetworkConfig>,
}

/// A pinned identity that is not exactly the one presented.
pub open spec fn pinned_mismatch(m: Option<Member>, id: IdentityView) -> bool {
    match m {
        Some(m) => match m.identity {
            Some(p) => p@ != id,
            None => false,
        },
        None => false,
    }
}

/// Start of the window of recent deauthorizations: `now - ttl`, which is
/// exact wherever it fits in an `i64` and is otherwise held at the nearest bound.
pub open spec fn window_start(now: i64, ttl: i64) -> i64 {
    if now - ttl < i64::MIN {
        i64::MIN
    } else if now - ttl > i64::MAX {
        i64::MAX
    } else {
        (now - ttl) as i64
    }
}

/// `m` is the record made for a node seen for the first time.
pub open spec fn created_for(m: Member, id: IdentityView, nid: NetworkId) -> bool {
    &&& m.network_id == nid
    &&& m.address == id.address
    &&& m.identity.is_some() && m.identity.unwrap()@ == id
    &&& m.last_deauthorized_time.is_none()
    &&& m.ip_assignments@.len() == 0
    &&& m.name@.len() == 0
    &&& m.tags@.len() == 0
}

/// The member record after admission: the loaded one, or a new one, and on a
/// public network authorized at `now`.
pub open spec fn admitted(
    loaded: Option<Member>,
    m: Member,
    id: IdentityView,
    nid: NetworkId,
    now: i64,
    public: bool,
) -> bool {
    match loaded {
        Some(l) => if public {
            m == (Member { authorized: true, last_authorized_time: Some(now), ..l })
        } else {
            m == l
        },
        None => {
            &&& created_for(m, id, nid)
            &&& m.authorized == public
            &&& m.last_authorized_time == (if public { Some(now) } else { None::<i64> })
        },
    }
}

/// A field that the request may change differs between the two records.
pub open spec fn differs(loaded: Option<Member>, m: Member) -> bool {
    match loaded {
        None => true,
        Some(l) => l.authorized != m.authorized || l.ip_assignments@ != m.ip_assignments@,
    }
}

/// The configuration for member `m` of `net`, with every field and credential
/// in place and no signature yet.
pub open spec fn unsigned_config(
    c: NetworkConfig,
    net: Network,
    m: Member,
    id: IdentityView,
    nid: NetworkId,
    now: i64,
    ttl: i64,
) -> bool {
    &&& c.network_id == nid
    &&& c.issued_to == id.address
    &&& c.name@ == m.name@
    &&& c.private == net.private
    &&& c.timestamp == now
    &&& c.credential_ttl == ttl
    &&& c.revision == now as u64
    &&& c.mtu == (match net.mtu {
        Some(v) => v,
        None => DEFAULT_MTU,
    })
    &&& c.multicast_limit == (match net.multicast_limit {
        Some(v) => v,
        None => DEFAULT_MULTICAST_LIMIT,
    })
    &&& c.routes == net.ip_routes
    &&& c.rules == net.rules
    &&& c.dns == net.dns
    &&& c.static_ips@ == m.ip_assignments@
    &&& c.certificate_of_membership.network_id == nid
    &&& c.certificate_of_membership.issued_to@ == id
    &&& c.certificate_of_membership.timestamp == now
    &&& c.certificate_of_membership.max_delta == ttl
    &&& c.certificate_of_membership.legacy_v1 == id.p384.is_none()
    &&& c.certificate_of_membership.signature@.len() == 0
    &&& c.certificates_of_ownership@.len() == 1
    &&& c.certificates_of_ownership@[0].network_id == nid
    &&& c.certificates_of_ownership@[0].timestamp == now
    &&& c.certificates_of_ownership@[0].issued_to == id.address
    &&& c.certificates_of_ownership@[0].ips@ == m.ip_assignments@
    &&& c.certificates_of_ownership@[0].legacy_v1 == id.p384.is_none()
    &&& c.certificates_of_ownership@[0].signature@.len() == 0
    &&& c.tags@.len() == m.tags@.len()
    &&& forall|i: int|
        0 <= i < c.tags@.len() ==> {
            let t = #[trigger] c.tags@[i];
            &&& t.id == m.tags@[i].0
            &&& t.value == m.tags@[i].1
            &&& t.network_id == nid
            &&& t.issued_to == id.address
            &&& t.timestamp == now
            &&& t.legacy_v1 == id.p384.is_none()
            &&& t.signature@.len() == 0
        }
}

/// Every credential of `c` got its signature.
pub open spec fn all_signed(s: Signatures, c: NetworkConfig) -> bool {
    &&& s.membership.is_some()
    &&& s.ownership.is_some()
    &&& c.certificates_of_ownership@.len() == 1
    &&& s.tags@.len() == c.tags@.len()
    &&& forall|i: int| 0 <= i < s.tags@.len() ==> (#[trigger] s.tags@[i]).is_some()
}

/// `n` is `c` with the signatures of `s` in place.
pub open spec fn signed_with(n: NetworkConfig, c: NetworkConfig, s: Signatures) -> bool {
    &&& n == (NetworkConfig {
        certificate_of_membership: n.certificate_of_membership,
        certificates_of_ownership: n.certificates_of_ownership,
        tags: n.tags,
        ..c
    })
    &&& n.certificate_of_membership == (CertificateOfMembership {
        signature: n.certificate_of_membership.signature,
        ..c.certificate_of_membership
    })
    &&& n.certificate_of_membership.signature@ == s.membership.unwrap()@
    &&& n.certificates_of_ownership@.len() == 1
    &&& n.certificates_of_ownership@[0] == (CertificateOfOwnership {
        signature: n.certificates_of_ownership@[0].signature,
        ..c.certificates_of_ownership@[0]
    })
    &&& n.certificates_of_ownership@[0].signature@ == s.ownership.unwrap()@
    &&& n.tags@.len() == c.tags@.len()
    &&& forall|i: int|
        0 <= i < n.tags@.len() ==> {
            &&& #[trigger] n.tags@[i] == (Tag { signature: n.tags@[i].signature, ..c.tags@[i] })
            &&& n.tags@[i].signature@ == s.tags@[i].unwrap()@
        }
}

fn copy_addresses(a: &Vec<InetAddress>) -> (r: Vec<InetAddress>)
    ensures
        r@ == a@,
{
    let mut r: Vec<InetAddress> = Vec::new();
    let mut i: usize = 0;
    while i < a.len()
        invariant
            i <= a.len(),
            r@ == a@.subrange(0, i as int),
        decreases a.len() - i,
    {
        r.push(a[i]);
        i += 1;
        assert(r@ =~= a@.subrange(0, i as int));
    }
    assert(a@.subrange(0, a@.len() as int) =~= a@);
    r
}

fn addresses_equal(a: &Vec<InetAddress>, b: &Vec<InetAddress>) -> (r: bool)
    ensures
        r == (a@ == b@),
{
    if a.len() != b.len() {
        return false;
    }
    let mut i: usize = 0;
    while i < a.len()
        invariant
            a.len() == b.len(),
            i <= a.len(),
            forall|j: int| 0 <= j < i ==> a@[j] == b@[j],
        decreases a.len() - i,
    {
        if a[i] != b[i] {
            return false;
        }
        i += 1;
    }
    assert(a@ =~= b@);
    true
}

fn deauthorization_window_start(now: i64, ttl: i64) -> (r: i64)
    ensures
        r == window_start(now, ttl),
{
    let d: i128 = now as i128 - ttl as i128;
    if d < i64::MIN as i128 {
        i64::MIN
    } else if d > i64::MAX as i128 {
        i64::MAX
    } else {
        d as i64
    }
}

/// Whether every signature is there.
fn all_present(sigs: &Vec<Option<Vec<u8>>>) -> (r: bool)
    ensures
        r == forall|k: int| 0 <= k < sigs@.len() ==> (#[trigger] sigs@[k]).is_some(),
{
    let mut j: usize = 0;
    while j < sigs.len()
        invariant
            j <= sigs@.len(),
            forall|k: int| 0 <= k < j ==> (#[trigger] sigs@[k]).is_some(),
        decreases sigs@.len() - j,
    {
        if sigs[j].is_none() {
            return false;
        }
        j += 1;
    }
    true
}

/// The tags with their signatures in place, one for one.
fn sign_tags(tags: &Vec<Tag>, sigs: &Vec<Option<Vec<u8>>>) -> (r: Vec<Tag>)
    requires
        sigs@.len() == tags@.len(),
        forall|k: int| 0 <= k < sigs@.len() ==> (#[trigger] sigs@[k]).is_some(),
    ensures
        r@.len() == tags@.len(),
        forall|k: int|
            0 <= k < r@.len() ==> {
                &&& #[trigger] r@[k] == (Tag { signature: r@[k].signature, ..tags@[k] })
                &&& r@[k].signature@ == sigs@[k].unwrap()@
            },
{
    let mut r: Vec<Tag> = Vec::new();
    let mut i: usize = 0;
    while i < tags.len()
        invariant
            sigs@.len() == tags@.len(),
            forall|k: int| 0 <= k < sigs@.len() ==> (#[trigger] sigs@[k]).is_some(),
            i <= tags@.len(),
            r@.len() == i,
            forall|k: int|
                0 <= k < i ==> {
                    &&& #[trigger] r@[k] == (Tag { signature: r@[k].signature, ..tags@[k] })
                    &&& r@[k].signature@ == sigs@[k].unwrap()@
                },
        decreases tags@.len() - i,
    {
        let t = &tags[i];
        let sig = match &sigs[i] {
            Some(v) => copy_bytes(v),
            None => Vec::new(),
        };
        r.push(
            Tag {
                id: t.id,
                value: t.value,
                network_id: t.network_id,
                issued_to: t.issued_to,
                timestamp: t.timestamp,
                legacy_v1: t.legacy_v1,
                signature: sig,
            },
        );
        i += 1;
    }
    r
}

impl ConfigRequest {
    /// What holds between steps: the change flag tells exactly whether the
    /// member record differs from the loaded one, and a configuration only
    /// stands beside an approval.
    pub open spec fn wf(&self) -> bool {
        &&& self.member_changed ==> self.member.is_some() && differs(
            self.loaded_member@,
            self.member.unwrap(),
        )
        &&& !self.member_changed ==> self.member == self.loaded_member@
        &&& self.config.is_some() ==> self.result.approved()
        &&& (self.stage == Stage::AwaitDeauthorized || self.stage == Stage::AwaitIpAssignment)
            && self.member_changed ==> self.loaded_member@.is_none()
            || self.loaded_member@.unwrap().authorized != self.member.unwrap().authorized
        &&& self.stage == Stage::AwaitSave ==> self.member_changed
    }

    /// A request from `identity` for `network_id`, received at `now`. The
    /// first action is always to load the network.
    pub fn new(identity: Identity, network_id: NetworkId, now: i64) -> (r: ConfigRequest)
        ensures
            r.identity == identity,
            r.network_id == network_id,
            r.now == now,
            r.stage == Stage::AwaitNetwork,
            r.network.is_none(),
            r.member.is_none(),
            r.loaded_member@.is_none(),
            !r.member_changed,
            r.result == AuthorizationResult::Rejected,
            r.config.is_none(),
            r.wf(),
    {
        ConfigRequest {
            identity,
            network_id,
            now,
            stage: Stage::AwaitNetwork,
            network: None,
            loaded_member: Ghost(None),
            member: None,
            member_changed: false,
            result: AuthorizationResult::Rejected,
            credential_ttl: 0,
            config: None,
        }
    }

    /// The network as loaded. An unknown network rejects the request with no
    /// member looked up, created or changed.
    pub fn on_network(&mut self, network: Option<Network>) -> (a: Action)
        requires
            old(self).stage == Stage::AwaitNetwork,
            old(self).member.is_none(),
            old(self).loaded_member@.is_none(),
            !old(self).member_changed,
            old(self).config.is_none(),
        ensures
            final(self).identity == old(self).identity,
            final(self).network_id == old(self).network_id,
            final(self).now == old(self).now,
            final(self).network == network,
            final(self).member.is_none(),
            final(self).loaded_member@.is_none(),
            !final(self).member_changed,
            final(self).config.is_none(),
            final(self).result == AuthorizationResult::Rejected,
            final(self).wf(),
            network.is_none() ==> a == Action::Finish && final(self).stage == Stage::Done,
            network.is_some() ==> a == (Action::LoadMember {
                network_id: old(self).network_id,
                address: old(self).identity.address,
            }) && final(self).stage == Stage::AwaitMember,
    {
        let found = network.is_some();
        self.network = network;
        self.result = AuthorizationResult::Rejected;
        if found {
            self.stage = Stage::AwaitMember;
            Action::LoadMember { network_id: self.network_id, address: self.identity.address }
        } else {
            self.stage = Stage::Done;
            Action::Finish
        }
    }
    /// The member record as loaded. A pinned identity that differs from the
    /// presented one rejects the request before anything else, and changes
    /// nothing. An unknown node gets a record where the network learns
    /// members, else the request is rejected with none made. A member not yet
    /// authorized is approved on a public network and stays unauthorized on a
    /// private one.
    pub fn on_member(&mut self, member: Option<Member>) -> (a: Action)
        requires
            old(self).stage == Stage::AwaitMember,
            old(self).network.is_some(),
            old(self).member.is_none(),
            old(self).loaded_member@.is_none(),
            !old(self).member_changed,
            old(self).config.is_none(),
        ensures
            final(self).identity == old(self).identity,
            final(self).network_id == old(self).network_id,
            final(self).now == old(self).now,
            final(self).network == old(self).network,
            final(self).loaded_member@ == member,
            final(self).config.is_none(),
            final(self).wf(),
            ({
                let net = old(self).network.unwrap();
                let id = old(self).identity@;
                let nid = old(self).network_id;
                let now = old(self).now;
                if pinned_mismatch(member, id) {
                    &&& final(self).result == AuthorizationResult::RejectedIdentityMismatch
                    &&& !final(self).member_changed
                    &&& a == Action::Finish
                    &&& final(self).stage == Stage::Done
                } else if member.is_none() && !learns_members(net) {
                    &&& final(self).result == AuthorizationResult::Rejected
                    &&& !final(self).member_changed
                    &&& final(self).member.is_none()
                    &&& a == Action::Finish
                    &&& final(self).stage == Stage::Done
                } else if member.is_some() && member.unwrap().authorized {
                    &&& final(self).result == AuthorizationResult::ApprovedIsAuthorized
                    &&& !final(self).member_changed
                    &&& final(self).member == member
                    &&& final(self).credential_ttl == ttl_of(net)
                    &&& a == (Action::ListDeauthorizedAfter {
                        network_id: net.id,
                        after: window_start(now, ttl_of(net)),
                    })
                    &&& final(self).stage == Stage::AwaitDeauthorized
                } else if !net.private {
                    &&& final(self).result == AuthorizationResult::ApprovedOnPublicNetwork
                    &&& final(self).member_changed
                    &&& final(self).member.is_some()
                    &&& admitted(member, final(self).member.unwrap(), id, nid, now, true)
                    &&& final(self).credential_ttl == ttl_of(net)
                    &&& a == (Action::ListDeauthorizedAfter {
                        network_id: net.id,
                        after: window_start(now, ttl_of(net)),
                    })
                    &&& final(self).stage == Stage::AwaitDeauthorized
                } else {
                    &&& final(self).result == AuthorizationResult::Rejected
                    &&& final(self).member_changed == member.is_none()
                    &&& final(self).member.is_some()
                    &&& admitted(member, final(self).member.unwrap(), id, nid, now, false)
                    &&& a == (if member.is_none() {
                        Action::SaveMember
                    } else {
                        Action::Finish
                    })
                    &&& final(self).stage == (if member.is_none() {
                        Stage::AwaitSave
                    } else {
                        Stage::Done
                    })
                }
            }),
    {
        self.loaded_member = Ghost(member);
        let mismatch = match &member {
            Some(m) => match &m.identity {
                Some(p) => !p.same_as(&self.identity),
                None => false,
            },
            None => false,
        };
        if mismatch {
            self.member = member;
            self.result = AuthorizationResult::RejectedIdentityMismatch;
            self.stage = Stage::Done;
            return Action::Finish;
        }
        let (private, learns, ttl, net_id) = match &self.network {
            Some(n) => (n.private, n.learns_members(), n.credential_ttl(), n.id),
            None => (true, false, 0, self.network_id),
        };
        let already = match &member {
            Some(m) => m.authorized(),
            None => false,
        };
        if already {
            self.member = member;
            self.result = AuthorizationResult::ApprovedIsAuthorized;
            self.credential_ttl = ttl;
            self.stage = Stage::AwaitDeauthorized;
            return Action::ListDeauthorizedAfter {
                network_id: net_id,
                after: deauthorization_window_start(self.now, ttl),
            };
        }
        let created = member.is_none();
        let mut m = match member {
            Some(m) => m,
            None => {
                if !learns {
                    self.result = AuthorizationResult::Rejected;
                    self.stage = Stage::Done;
                    return Action::Finish;
                }
                Member::new_with_identity(self.identity.duplicate(), self.network_id)
            },
        };
        if !private {
            m.authorized = true;
            m.last_authorized_time = Some(self.now);
            self.member = Some(m);
            self.member_changed = true;
            self.result = AuthorizationResult::ApprovedOnPublicNetwork;
            self.credential_ttl = ttl;
            self.stage = Stage::AwaitDeauthorized;
            Action::ListDeauthorizedAfter {
                network_id: net_id,
                after: deauthorization_window_start(self.now, ttl),
            }
        } else {
            self.member = Some(m);
            self.member_changed = created;
            self.result = AuthorizationResult::Rejected;
            if created {
                self.stage = Stage::AwaitSave;
                Action::SaveMember
            } else {
                self.stage = Stage::Done;
                Action::Finish
            }
        }
    }
    /// The list of recently deauthorized members was fetched. It takes no part
    /// in the configuration yet; the request goes on to IP assignment.
    pub fn on_deauthorized_listed(&mut self) -> (a: Action)
        requires
            old(self).stage == Stage::AwaitDeauthorized,
            old(self).wf(),
        ensures
            *final(self) == (ConfigRequest { stage: Stage::AwaitIpAssignment, ..*old(self) }),
            final(self).wf(),
            a == Action::AssignIps,
    {
        self.stage = Stage::AwaitIpAssignment;
        Action::AssignIps
    }

    /// The IP assignment policy ran: `assigned` holds the member's addresses
    /// where it gave new ones. The configuration is then assembled, with its
    /// credentials unsigned.
    pub fn on_ips_assigned(&mut self, assigned: Option<Vec<InetAddress>>) -> (a: Action)
        requires
            old(self).stage == Stage::AwaitIpAssignment,
            old(self).network.is_some(),
            old(self).member.is_some(),
            unique_tag_ids(old(self).member.unwrap().tags@),
            old(self).result.approved(),
            old(self).config.is_none(),
            old(self).wf(),
        ensures
            final(self).identity == old(self).identity,
            final(self).network_id == old(self).network_id,
            final(self).now == old(self).now,
            final(self).result == old(self).result,
            final(self).credential_ttl == old(self).credential_ttl,
            final(self).loaded_member == old(self).loaded_member,
            final(self).network.is_none(),
            final(self).member.is_some(),
            ({
                let m0 = old(self).member.unwrap();
                let m = final(self).member.unwrap();
                let changes = assigned.is_some() && assigned.unwrap()@ != m0.ip_assignments@;
                &&& m == (if changes {
                    Member { ip_assignments: assigned.unwrap(), ..m0 }
                } else {
                    m0
                })
                &&& final(self).member_changed == (old(self).member_changed || changes)
            }),
            final(self).config.is_some(),
            unsigned_config(
                final(self).config.unwrap(),
                old(self).network.unwrap(),
                final(self).member.unwrap(),
                old(self).identity@,
                old(self).network_id,
                old(self).now,
                old(self).credential_ttl,
            ),
            forall|i: int, j: int|
                0 <= i < j < final(self).config.unwrap().tags@.len()
                    ==> final(self).config.unwrap().tags@[i].id
                    != final(self).config.unwrap().tags@[j].id,
            final(self).wf(),
            final(self).stage == Stage::AwaitSignatures,
            a == Action::Sign,
    {
        let mut m = self.member.take().unwrap();
        let net = self.network.take().unwrap();
        if let Some(ips) = assigned {
            if !addresses_equal(&ips, &m.ip_assignments) {
                m.ip_assignments = ips;
                self.member_changed = true;
            }
        }
        let nid = self.network_id;
        let now = self.now;
        let ttl = self.credential_ttl;
        let address = self.identity.address;
        let legacy = self.identity.is_legacy();
        let static_ips = copy_addresses(&m.ip_assignments);
        let coo = CertificateOfOwnership {
            network_id: nid,
            timestamp: now,
            issued_to: address,
            ips: copy_addresses(&m.ip_assignments),
            legacy_v1: legacy,
            signature: Vec::new(),
        };
        let mut coos: Vec<CertificateOfOwnership> = Vec::new();
        coos.push(coo);
        let mut tags: Vec<Tag> = Vec::new();
        let mut i: usize = 0;
        while i < m.tags.len()
            invariant
                i <= m.tags@.len(),
                tags@.len() == i,
                forall|j: int|
                    0 <= j < i ==> {
                        let t = #[trigger] tags@[j];
                        &&& t.id == m.tags@[j].0
                        &&& t.value == m.tags@[j].1
                        &&& t.network_id == nid
                        &&& t.issued_to == address
                        &&& t.timestamp == now
                        &&& t.legacy_v1 == legacy
                        &&& t.signature@.len() == 0
                    },
            decreases m.tags@.len() - i,
        {
            let (id, value) = m.tags[i];
            tags.push(
                Tag {
                    id,
                    value,
                    network_id: nid,
                    issued_to: address,
                    timestamp: now,
                    legacy_v1: legacy,
                    signature: Vec::new(),
                },
            );
            i += 1;
        }
        let com = CertificateOfMembership {
            network_id: nid,
            issued_to: self.identity.duplicate(),
            timestamp: now,
            max_delta: ttl,
            legacy_v1: legacy,
            signature: Vec::new(),
        };
        let config = NetworkConfig {
            network_id: nid,
            issued_to: address,
            name: m.name.clone(),
            private: net.private,
            timestamp: now,
            credential_ttl: ttl,
            revision: #[verifier::truncate] (now as u64),
            mtu: match net.mtu {
                Some(v) => v,
                None => DEFAULT_MTU,
            },
            multicast_limit: match net.multicast_limit {
                Some(v) => v,
                None => DEFAULT_MULTICAST_LIMIT,
            },
            routes: net.ip_routes,
            static_ips,
            rules: net.rules,
            dns: net.dns,
            certificate_of_membership: com,
            certificates_of_ownership: coos,
            tags,
        };
        self.member = Some(m);
        self.config = Some(config);
        self.stage = Stage::AwaitSignatures;
        Action::Sign
    }
    /// The signatures over the configuration's credentials. Where any one of
    /// them is missing the request fails as a whole: no configuration, nothing
    /// persisted. Otherwise the member is persisted only where it changed.
    pub fn on_signed(&mut self, signatures: Signatures) -> (a: Action)
        requires
            old(self).stage == Stage::AwaitSignatures,
            old(self).config.is_some(),
            old(self).wf(),
        ensures
            final(self).identity == old(self).identity,
            final(self).network_id == old(self).network_id,
            final(self).now == old(self).now,
            final(self).network == old(self).network,
            final(self).loaded_member == old(self).loaded_member,
            final(self).member == old(self).member,
            final(self).member_changed == old(self).member_changed,
            final(self).credential_ttl == old(self).credential_ttl,
            final(self).wf(),
            all_signed(signatures, old(self).config.unwrap()) ==> {
                &&& final(self).config.is_some()
                &&& signed_with(
                    final(self).config.unwrap(),
                    old(self).config.unwrap(),
                    signatures,
                )
                &&& final(self).result == old(self).result
                &&& a == (if old(self).member_changed {
                    Action::SaveMember
                } else {
                    Action::Finish
                })
                &&& final(self).stage == (if old(self).member_changed {
                    Stage::AwaitSave
                } else {
                    Stage::Done
                })
            },
            !all_signed(signatures, old(self).config.unwrap()) ==> {
                &&& final(self).config.is_none()
                &&& final(self).result == AuthorizationResult::RejectedDueToError
                &&& a == Action::Finish
                &&& final(self).stage == Stage::Done
            },
    {
        let mut c = self.config.take().unwrap();
        let ghost c0 = c;
        let Signatures { membership, ownership, tags: tag_sigs } = signatures;
        let ok = membership.is_some() && ownership.is_some()
            && c.certificates_of_ownership.len() == 1 && tag_sigs.len() == c.tags.len();
        if !ok {
            self.result = AuthorizationResult::RejectedDueToError;
            self.stage = Stage::Done;
            return Action::Finish;
        }
        if !all_present(&tag_sigs) {
            self.result = AuthorizationResult::RejectedDueToError;
            self.stage = Stage::Done;
            return Action::Finish;
        }
        let mut com = c.certificate_of_membership;
        com.signature = membership.unwrap();
        let mut coos: Vec<CertificateOfOwnership> = Vec::new();
        std::mem::swap(&mut coos, &mut c.certificates_of_ownership);
        let mut coo = coos.pop().unwrap();
        coo.signature = ownership.unwrap();
        coos.push(coo);
        proof {
            assert(coos@ =~= seq![coo]);
        }
        let new_tags = sign_tags(&c.tags, &tag_sigs);
        c.tags = new_tags;
        c.certificate_of_membership = com;
        c.certificates_of_ownership = coos;
        self.config = Some(c);
        if self.member_changed {
            self.stage = Stage::AwaitSave;
            Action::SaveMember
        } else {
            self.stage = Stage::Done;
            Action::Finish
        }
    }

    /// The member was persisted.
    pub fn on_saved(&mut self) -> (a: Action)
        requires
            old(self).stage == Stage::AwaitSave,
            old(self).wf(),
        ensures
            *final(self) == (ConfigRequest { stage: Stage::Done, ..*old(self) }),
            final(self).wf(),
            a == Action::Finish,
    {
        self.stage = Stage::Done;
        Action::Finish
    }

    /// The result of a finished request, and the configuration to send where
    /// one was issued.
    pub fn outcome(self) -> (r: (AuthorizationResult, Option<NetworkConfig>))
        requires
            self.stage == Stage::Done,
            self.wf(),
        ensures
            r == (self.result, self.config),
            r.1.is_some() ==> r.0.approved(),
    {
        (self.result, self.config)
    }
}

/// The certificate of ownership of an issued configuration lists exactly its
/// static IPs, whatever their order.
pub proof fn lemma_ownership_lists_static_ips(
    n: NetworkConfig,
    c: NetworkConfig,
    s: Signatures,
    net: Network,
    m: Member,
    id: IdentityView,
    nid: NetworkId,
    now: i64,
    ttl: i64,
)
    requires
        unsigned_config(c, net, m, id, nid, now, ttl),
        signed_with(n, c, s),
    ensures
        n.certificates_of_ownership@.len() == 1,
        n.certificates_of_ownership@[0].ips@.to_set() == n.static_ips@.to_set(),
{
}

/// The credential window of an issued configuration is the network's own
/// setting, else the default, and its certificate of membership is valid
/// from `now` for exactly that long. The query for recent deauthorizations
/// (see `on_member`) starts at `now` less that same window.
pub proof fn lemma_membership_window(
    n: NetworkConfig,
    c: NetworkConfig,
    s: Signatures,
    net: Network,
    m: Member,
    id: IdentityView,
    nid: NetworkId,
    now: i64,
)
    requires
        unsigned_config(c, net, m, id, nid, now, ttl_of(net)),
        signed_with(n, c, s),
    ensures
        n.credential_ttl == ttl_of(net),
        net.credential_ttl.is_some() ==> n.credential_ttl == net.credential_ttl.unwrap(),
        net.credential_ttl.is_none() ==> n.credential_ttl == crate::model::CREDENTIAL_WINDOW_SIZE_DEFAULT,
        n.certificate_of_membership.timestamp == now,
        n.certificate_of_membership.max_delta == n.credential_ttl,
        n.certificate_of_membership.issued_to@ == id,
        i64::MIN <= now - n.credential_ttl <= i64::MAX ==> window_start(now, ttl_of(net)) == now
            - n.credential_ttl,
{
}

/// A request that left the member record as it was loaded has nothing to
/// persist.
pub proof fn lemma_unchanged_member_not_saved(r: ConfigRequest)
    requires
        r.wf(),
        r.member == r.loaded_member@,
    ensures
        !r.member_changed,
        r.stage != Stage::AwaitSave,
{
}

/// Persisting and sending are independent: where a request has a member
/// change to persist, a configuration too large to send is refused by the
/// framing, and the change is still to be persisted.
pub proof fn lemma_oversized_config_still_saved(
    r: ConfigRequest,
    in_re_message_id: Option<u64>,
    data: Seq<u8>,
)
    requires
        r.wf(),
        r.stage == Stage::AwaitSave,
        data.len() > MAX_CONFIG_BYTES,
    ensures
        framed(r.network_id.id, in_re_message_id, Some(data)) == Err::<Seq<u8>, SendError>(
            SendError::TooLarge,
        ),
        r.member_changed,
{
}

} // verus!
