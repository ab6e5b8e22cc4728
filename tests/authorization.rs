use controller::authorize::{Action, ConfigRequest, Signatures, Stage};
use controller::model::{
    AuthorizationResult, Identity, InetAddress, Member, Network, NetworkId, Route, Rule,
    CREDENTIAL_WINDOW_SIZE_DEFAULT, DEFAULT_MTU, DEFAULT_MULTICAST_LIMIT,
};

const NOW: i64 = 1_700_000_000_000;

fn nid() -> NetworkId {
    NetworkId::from_u64(0x8056c2e21c000001).unwrap()
}

fn identity(address: u64, with_p384: bool) -> Identity {
    Identity {
        address,
        x25519: vec![1, 2, 3, 4],
        p384: if with_p384 { Some(vec![9, 9, 9]) } else { None },
        fingerprint: vec![7; 48],
        secret: None,
    }
}

fn network(private: bool, learn_members: Option<bool>, ttl: Option<i64>) -> Network {
    Network {
        id: nid(),
        name: String::from("lab"),
        private,
        learn_members,
        credential_ttl: ttl,
        mtu: None,
        multicast_limit: Some(64),
        ip_routes: vec![Route {
            target: InetAddress { ip: 0x0a000000, v6: false, port: 8 },
            via: None,
            flags: 0,
            metric: 0,
        }],
        rules: vec![Rule { kind: 6, value: 0 }],
        dns: None,
    }
}

fn authorized_member(id: &Identity, ips: Vec<InetAddress>) -> Member {
    let mut m = Member::new_with_identity(id.clone(), nid());
    m.authorized = true;
    m.last_authorized_time = Some(NOW - 1000);
    m.ip_assignments = ips;
    m.name = String::from("box");
    m.tags = vec![(1, 10), (2, 20)];
    m
}

fn ip(last: u128) -> InetAddress {
    InetAddress { ip: 0x0a000000 + last, v6: false, port: 8 }
}

fn signatures(tags: usize) -> Signatures {
    Signatures {
        membership: Some(vec![0xaa; 4]),
        ownership: Some(vec![0xbb; 4]),
        tags: (0..tags).map(|i| Some(vec![i as u8; 2])).collect(),
    }
}

/// Drives a request through to its end, recording whether the member was saved.
fn run(
    id: &Identity,
    net: Option<Network>,
    member: Option<Member>,
    assigned: Option<Vec<InetAddress>>,
    sigs: impl Fn(usize) -> Signatures,
) -> (AuthorizationResult, Option<controller::model::NetworkConfig>, Vec<Member>, Option<i64>) {
    let mut r = ConfigRequest::new(id.clone(), nid(), NOW);
    let mut saved = Vec::new();
    let mut window = None;
    let mut a = r.on_network(net);
    if let Action::LoadMember { network_id, address } = a {
        assert_eq!(network_id, nid());
        assert_eq!(address, id.address);
        a = r.on_member(member.clone());
    }
    loop {
        a = match a {
            Action::ListDeauthorizedAfter { after, .. } => {
                window = Some(after);
                r.on_deauthorized_listed()
            }
            Action::AssignIps => r.on_ips_assigned(assigned.clone()),
            Action::Sign => {
                let n = r.config.as_ref().unwrap().tags.len();
                r.on_signed(sigs(n))
            }
            Action::SaveMember => {
                saved.push(r.member.clone().unwrap());
                r.on_saved()
            }
            Action::Finish => break,
            Action::LoadMember { .. } => panic!("member loaded twice"),
        };
    }
    assert_eq!(r.stage, Stage::Done);
    let (result, config) = r.outcome();
    (result, config, saved, window)
}

#[test]
fn unknown_network_is_rejected() {
    let id = identity(0x1122334455, true);
    let mut r = ConfigRequest::new(id, nid(), NOW);
    assert_eq!(r.on_network(None), Action::Finish);
    assert!(r.member.is_none());
    assert!(!r.member_changed);
    let (result, config) = r.outcome();
    assert_eq!(result, AuthorizationResult::Rejected);
    assert!(config.is_none());
}

#[test]
fn pinned_identity_mismatch_is_rejected() {
    let id = identity(0x1122334455, true);
    let mut other = id.clone();
    other.p384 = Some(vec![9, 9, 8]);
    let m = authorized_member(&other, vec![ip(5)]);
    let (result, config, saved, _) =
        run(&id, Some(network(false, None, None)), Some(m), None, signatures);
    assert_eq!(result, AuthorizationResult::RejectedIdentityMismatch);
    assert!(config.is_none());
    assert!(saved.is_empty());
}

#[test]
fn public_network_admits_new_member() {
    let id = identity(0x1122334455, false);
    let (result, config, saved, window) =
        run(&id, Some(network(false, None, None)), None, Some(vec![ip(7)]), signatures);
    assert_eq!(result, AuthorizationResult::ApprovedOnPublicNetwork);
    assert_eq!(saved.len(), 1);
    assert!(saved[0].authorized);
    assert_eq!(saved[0].last_authorized_time, Some(NOW));
    assert_eq!(saved[0].ip_assignments, vec![ip(7)]);
    assert_eq!(saved[0].identity.as_ref().unwrap().address, id.address);
    assert_eq!(window, Some(NOW - CREDENTIAL_WINDOW_SIZE_DEFAULT));
    let c = config.unwrap();
    assert_eq!(c.certificate_of_membership.timestamp, NOW);
    assert_eq!(c.certificate_of_membership.max_delta, CREDENTIAL_WINDOW_SIZE_DEFAULT);
    assert_eq!(c.credential_ttl, CREDENTIAL_WINDOW_SIZE_DEFAULT);
    assert!(c.certificate_of_membership.legacy_v1);
    assert_eq!(c.certificate_of_membership.signature, vec![0xaa; 4]);
    assert_eq!(c.revision, NOW as u64);
    assert_eq!(c.mtu, DEFAULT_MTU);
    assert_eq!(c.multicast_limit, 64);
    assert_eq!(c.routes.len(), 1);
    assert_eq!(c.issued_to, id.address);
}

#[test]
fn private_network_learns_but_does_not_authorize() {
    let id = identity(0x1122334455, true);
    let (result, config, saved, _) =
        run(&id, Some(network(true, None, None)), None, None, signatures);
    assert_eq!(result, AuthorizationResult::Rejected);
    assert!(config.is_none());
    assert_eq!(saved.len(), 1);
    assert!(!saved[0].authorized);
    assert!(saved[0].last_authorized_time.is_none());
}

#[test]
fn private_network_without_learning_creates_nothing() {
    let id = identity(0x1122334455, true);
    let (result, config, saved, _) =
        run(&id, Some(network(true, Some(false), None)), None, None, signatures);
    assert_eq!(result, AuthorizationResult::Rejected);
    assert!(config.is_none());
    assert!(saved.is_empty());
}

#[test]
fn public_network_without_learning_rejects_unknown_node() {
    let id = identity(0x1122334455, true);
    let (result, config, saved, _) =
        run(&id, Some(network(false, Some(false), None)), None, None, signatures);
    assert_eq!(result, AuthorizationResult::Rejected);
    assert!(config.is_none());
    assert!(saved.is_empty());
}

#[test]
fn private_network_known_unauthorized_member_stays_rejected() {
    let id = identity(0x1122334455, true);
    let mut m = authorized_member(&id, vec![]);
    m.authorized = false;
    let (result, config, saved, _) =
        run(&id, Some(network(true, None, None)), Some(m), None, signatures);
    assert_eq!(result, AuthorizationResult::Rejected);
    assert!(config.is_none());
    assert!(saved.is_empty());
}

#[test]
fn ownership_certificate_lists_static_ips() {
    let id = identity(0x1122334455, true);
    let m = authorized_member(&id, vec![ip(3), ip(1), ip(2)]);
    let (result, config, _, _) =
        run(&id, Some(network(true, None, None)), Some(m), None, signatures);
    assert_eq!(result, AuthorizationResult::ApprovedIsAuthorized);
    let c = config.unwrap();
    assert_eq!(c.certificates_of_ownership.len(), 1);
    let mut a = c.static_ips.clone();
    let mut b = c.certificates_of_ownership[0].ips.clone();
    a.sort_by_key(|x| x.ip);
    b.sort_by_key(|x| x.ip);
    assert_eq!(a, b);
    assert_eq!(a.len(), 3);
    assert_eq!(c.certificates_of_ownership[0].signature, vec![0xbb; 4]);
    assert!(!c.certificates_of_ownership[0].legacy_v1);
    assert_eq!(c.tags.len(), 2);
    assert_eq!((c.tags[1].id, c.tags[1].value), (2, 20));
    assert_eq!(c.tags[1].signature, vec![1u8; 2]);
    assert_eq!(c.name, "box");
}

#[test]
fn credential_ttl_override_sets_window() {
    let id = identity(0x1122334455, true);
    let m = authorized_member(&id, vec![ip(1)]);
    let (_, config, _, window) =
        run(&id, Some(network(true, None, Some(60_000))), Some(m), None, signatures);
    let c = config.unwrap();
    assert_eq!(c.credential_ttl, 60_000);
    assert_eq!(c.certificate_of_membership.max_delta, 60_000);
    assert_eq!(window, Some(NOW - 60_000));
}

#[test]
fn window_start_is_clamped() {
    let id = identity(0x1122334455, true);
    let m = authorized_member(&id, vec![]);
    let mut r = ConfigRequest::new(id, nid(), i64::MIN + 5);
    r.on_network(Some(network(true, None, Some(100))));
    let a = r.on_member(Some(m));
    assert_eq!(a, Action::ListDeauthorizedAfter { network_id: nid(), after: i64::MIN });
}

#[test]
fn unchanged_member_is_not_saved() {
    let id = identity(0x1122334455, true);
    let m = authorized_member(&id, vec![ip(1)]);
    let (result, config, saved, _) =
        run(&id, Some(network(true, None, None)), Some(m), Some(vec![ip(1)]), signatures);
    assert_eq!(result, AuthorizationResult::ApprovedIsAuthorized);
    assert!(config.is_some());
    assert!(saved.is_empty());
}

#[test]
fn new_ip_assignment_is_saved() {
    let id = identity(0x1122334455, true);
    let m = authorized_member(&id, vec![ip(1)]);
    let (_, config, saved, _) =
        run(&id, Some(network(true, None, None)), Some(m), Some(vec![ip(9)]), signatures);
    assert_eq!(saved.len(), 1);
    assert_eq!(saved[0].ip_assignments, vec![ip(9)]);
    assert_eq!(config.unwrap().static_ips, vec![ip(9)]);
}

#[test]
fn failed_tag_signature_rejects_whole_request() {
    let id = identity(0x1122334455, true);
    let (result, config, saved, _) = run(&id, Some(network(false, None, None)), None, None, |n| {
        let mut s = signatures(n);
        s.tags = vec![Some(vec![1]); n];
        s.tags.push(None);
        s
    });
    assert_eq!(result, AuthorizationResult::RejectedDueToError);
    assert!(config.is_none());
    assert!(saved.is_empty());
}

#[test]
fn failed_membership_signature_rejects() {
    let id = identity(0x1122334455, true);
    let m = authorized_member(&id, vec![ip(1)]);
    let (result, config, _, _) =
        run(&id, Some(network(true, None, None)), Some(m), None, |n| {
            let mut s = signatures(n);
            s.membership = None;
            s
        });
    assert_eq!(result, AuthorizationResult::RejectedDueToError);
    assert!(config.is_none());
}

#[test]
fn identity_equality_is_exact() {
    let a = identity(5, true);
    let mut b = a.duplicate();
    assert!(a.same_as(&b));
    b.fingerprint[0] = 0;
    assert!(!a.same_as(&b));
    assert!(identity(5, false).is_legacy());
    assert!(!a.is_legacy());
}

#[test]
fn network_defaults() {
    let n = network(false, None, None);
    assert!(n.learns_members());
    assert_eq!(n.credential_ttl(), CREDENTIAL_WINDOW_SIZE_DEFAULT);
    assert_eq!(DEFAULT_MULTICAST_LIMIT, 32);
    assert!(NetworkId::from_u64(0).is_none());
    assert_eq!(NetworkId::from_u64(7).unwrap().to_u64(), 7);
    assert!(AuthorizationResult::ApprovedOnPublicNetwork.is_approved());
    assert!(!AuthorizationResult::RejectedDueToError.is_approved());
}

#[test]
fn tag_id_uniqueness() {
    let id = identity(0x1122334455, true);
    let mut m = authorized_member(&id, vec![]);
    assert!(m.has_unique_tag_ids());
    m.tags.push((1, 99));
    assert!(!m.has_unique_tag_ids());
}

#[test]
fn deauthorization_query_uses_loaded_network() {
    let id = identity(0x1122334455, true);
    let m = authorized_member(&id, vec![]);
    let mut net = network(true, None, Some(500));
    net.id = NetworkId::from_u64(77).unwrap();
    let mut r = ConfigRequest::new(id, nid(), NOW);
    r.on_network(Some(net));
    let a = r.on_member(Some(m));
    assert_eq!(
        a,
        Action::ListDeauthorizedAfter { network_id: NetworkId::from_u64(77).unwrap(), after: NOW - 500 }
    );
}
