use quark::models::server::{Role, Server};
use quark::permissions::{
    compose, difference, holds, intersection, union, OverrideField, Permission, ALL_PERMISSIONS,
    MANAGE_CHANNEL, MANAGE_SERVER,
};
use quark::resolver::{gather_roles, order_by_precedence, precedes_exec, resolve, RankedOverride};

fn role(name: &str, rank: i64, allow: u64, deny: u64) -> Role {
    Role {
        name: name.to_string(),
        permissions: OverrideField { allow, deny },
        colour: None,
        hoist: false,
        rank,
    }
}

fn server_with_roles(default_permissions: u64, roles: Vec<(&str, Role)>) -> Server {
    Server {
        id: "s1".to_string(),
        owner: "owner".to_string(),
        name: "Server".to_string(),
        channels: vec!["c1".to_string()],
        roles: roles.into_iter().map(|(k, r)| (k.to_string(), r)).collect(),
        default_permissions,
        ..Default::default()
    }
}

fn ids(v: &[&str]) -> Vec<String> {
    v.iter().map(|s| s.to_string()).collect()
}

#[test]
fn compose_applies_deny_then_allow() {
    let o = OverrideField { allow: 0b0001, deny: 0b0010 };
    assert_eq!(compose(0b1010, o), 0b1001);
    let o2 = OverrideField { allow: 0b0100, deny: 0b0100 };
    assert_eq!(compose(0, o2), 0b0100);
}

#[test]
fn mask_operations() {
    assert!(holds(0b0110, 0b0010));
    assert!(!holds(0b0110, 0b0011));
    assert_eq!(union(0b0101, 0b0011), 0b0111);
    assert_eq!(intersection(0b0101, 0b0011), 0b0001);
    assert_eq!(difference(0b0101, 0b0011), 0b0100);
    assert_eq!(Permission::ManageChannel.bit(), MANAGE_CHANNEL);
    assert_eq!(Permission::ManageServer.bit(), MANAGE_SERVER);
    assert_ne!(MANAGE_CHANNEL, MANAGE_SERVER);
}

#[test]
fn owner_resolves_to_every_permission() {
    let s = server_with_roles(0, vec![("r1", role("Muted", 5, 0, ALL_PERMISSIONS))]);
    let member = ids(&["r1"]);
    let deny_all = Some(OverrideField { allow: 0, deny: ALL_PERMISSIONS });
    assert_eq!(resolve(&"owner".to_string(), &s, &member, deny_all), ALL_PERMISSIONS);
    assert_eq!(resolve(&"owner".to_string(), &s, &vec![], None), ALL_PERMISSIONS);
}

#[test]
fn higher_rank_is_applied_last() {
    let s = server_with_roles(
        0,
        vec![
            ("grant", role("Admin", 0, MANAGE_SERVER, 0)),
            ("revoke", role("Limited", 1, 0, MANAGE_SERVER)),
        ],
    );
    let r = resolve(&"u".to_string(), &s, &ids(&["revoke", "grant"]), None);
    assert_eq!(r, 0);

    let s2 = server_with_roles(
        0,
        vec![
            ("grant", role("Admin", 2, MANAGE_SERVER, 0)),
            ("revoke", role("Limited", 1, 0, MANAGE_SERVER)),
        ],
    );
    let r2 = resolve(&"u".to_string(), &s2, &ids(&["grant", "revoke"]), None);
    assert_eq!(r2, MANAGE_SERVER);
}

#[test]
fn equal_rank_is_ordered_by_identifier() {
    let s = server_with_roles(
        0,
        vec![
            ("b", role("Deny", 3, 0, MANAGE_CHANNEL)),
            ("a", role("Allow", 3, MANAGE_CHANNEL, 0)),
        ],
    );
    assert_eq!(resolve(&"u".to_string(), &s, &ids(&["a", "b"]), None), 0);
    assert_eq!(resolve(&"u".to_string(), &s, &ids(&["b", "a"]), None), 0);
}

#[test]
fn channel_override_comes_after_roles() {
    let s = server_with_roles(MANAGE_CHANNEL, vec![("r", role("Mod", 0, MANAGE_SERVER, 0))]);
    let ch = Some(OverrideField { allow: 0, deny: MANAGE_SERVER | MANAGE_CHANNEL });
    assert_eq!(resolve(&"u".to_string(), &s, &ids(&["r"]), None), MANAGE_CHANNEL | MANAGE_SERVER);
    assert_eq!(resolve(&"u".to_string(), &s, &ids(&["r"]), ch), 0);
}

#[test]
fn unknown_role_identifiers_are_passed_over() {
    let s = server_with_roles(MANAGE_CHANNEL, vec![("r", role("Mod", 0, MANAGE_SERVER, 0))]);
    let g = gather_roles(&s.roles, &ids(&["missing", "r"]));
    assert_eq!(g.len(), 1);
    assert_eq!(g[0].id, "r");
    assert_eq!(resolve(&"u".to_string(), &s, &ids(&["missing"]), None), MANAGE_CHANNEL);
}

#[test]
fn ordering_sorts_by_rank_then_identifier() {
    let mk = |id: &str, rank: i64| RankedOverride {
        id: id.to_string(),
        rank,
        permissions: OverrideField { allow: 0, deny: 0 },
    };
    assert!(precedes_exec(&mk("z", 1), &mk("a", 2)));
    assert!(precedes_exec(&mk("a", 2), &mk("b", 2)));
    assert!(!precedes_exec(&mk("b", 2), &mk("a", 2)));
    assert!(!precedes_exec(&mk("a", 2), &mk("a", 2)));
    let out = order_by_precedence(vec![mk("c", 5), mk("b", 1), mk("a", 5), mk("d", -3)]);
    let got: Vec<(String, i64)> = out.into_iter().map(|r| (r.id, r.rank)).collect();
    assert_eq!(
        got,
        vec![
            ("d".to_string(), -3),
            ("b".to_string(), 1),
            ("a".to_string(), 5),
            ("c".to_string(), 5)
        ]
    );
}
