use vstd::prelude::*;
use vstd::string::*;
use vstd::utf8::encode_utf8;

use crate::models::server::{Role, Server};
use crate::permissions::{compose, compose_spec, OverrideField, ALL_PERMISSIONS};

verus! {

broadcast use vstd::seq_lib::group_to_multiset_ensures;

/// A role as it takes part in resolution: its identifier, rank and override.
#[derive(Debug, Clone)]
pub struct RankedOverride {
    pub id: String,
    pub rank: i64,
    pub permissions: OverrideField,
}

/// Lexicographic order of byte strings, comparing from position `i` on.
pub open spec fn bytes_lt_from(a: Seq<u8>, b: Seq<u8>, i: int) -> bool
    decreases a.len() - i,
{
    if i >= a.len() {
        i < b.len()
    } else if i >= b.len() {
        false
    } else if a[i] != b[i] {
        a[i] < b[i]
    } else {
        bytes_lt_from(a, b, i + 1)
    }
}

pub open spec fn bytes_lt(a: Seq<u8>, b: Seq<u8>) -> bool {
    bytes_lt_from(a, b, 0)
}

proof fn lemma_bytes_lt_from_asymmetric(a: Seq<u8>, b: Seq<u8>, i: int)
    requires
        0 <= i,
        bytes_lt_from(a, b, i),
    ensures
        !bytes_lt_from(b, a, i),
    decreases a.len() - i,
{
    if i < a.len() && i < b.len() && a[i] == b[i] {
        lemma_bytes_lt_from_asymmetric(a, b, i + 1);
    }
}

/// Whether role `x` is applied strictly before role `y`: lower rank first, ties
/// broken by the identifier's bytes.
pub open spec fn precedes(x: RankedOverride, y: RankedOverride) -> bool {
    x.rank < y.rank || (x.rank == y.rank && bytes_lt(encode_utf8(x.id@), encode_utf8(y.id@)))
}

pub proof fn lemma_precedes_asymmetric(x: RankedOverride, y: RankedOverride)
    requires
        precedes(x, y),
    ensures
        !precedes(y, x),
{
    if x.rank == y.rank {
        lemma_bytes_lt_from_asymmetric(encode_utf8(x.id@), encode_utf8(y.id@), 0);
    }
}

/// No role of the sequence comes strictly before the role ahead of it.
pub open spec fn in_precedence_order(s: Seq<RankedOverride>) -> bool {
    forall|i: int| 0 <= i < s.len() - 1 ==> !precedes(#[trigger] s[i + 1], s[i])
}

/// The overrides of `s` applied to `base` from first to last.
pub open spec fn compose_all(base: u64, s: Seq<RankedOverride>) -> u64
    decreases s.len(),
{
    if s.len() == 0 {
        base
    } else {
        compose_spec(compose_all(base, s.drop_last()), s.last().permissions)
    }
}

pub open spec fn with_channel(mask: u64, channel: Option<OverrideField>) -> u64 {
    match channel {
        Some(o) => compose_spec(mask, o),
        None => mask,
    }
}

/// Role identifiers of the registry are distinct.
pub open spec fn roles_unique(roles: Seq<(String, Role)>) -> bool {
    forall|i: int, j: int|
        0 <= i < roles.len() && 0 <= j < roles.len() && #[trigger] roles[i].0@ == #[trigger] roles[j].0@
            ==> i == j
}

pub open spec fn ranked_at(roles: Seq<(String, Role)>, k: int) -> RankedOverride {
    RankedOverride { id: roles[k].0, rank: roles[k].1.rank, permissions: roles[k].1.permissions }
}

/// The registry's role under identifier `id`, if there is one.
pub open spec fn ranked_of(roles: Seq<(String, Role)>, id: Seq<char>) -> Option<RankedOverride> {
    if exists|k: int| 0 <= k < roles.len() && roles[k].0@ == id {
        let k = choose|k: int| 0 <= k < roles.len() && roles[k].0@ == id;
        Some(ranked_at(roles, k))
    } else {
        None
    }
}

/// The registry's roles for the assigned identifiers, in assignment order; identifiers
/// that the registry lacks are passed over.
pub open spec fn assigned_overrides(roles: Seq<(String, Role)>, ids: Seq<String>) -> Seq<
    RankedOverride,
>
    decreases ids.len(),
{
    if ids.len() == 0 {
        Seq::empty()
    } else {
        let prev = assigned_overrides(roles, ids.drop_last());
        match ranked_of(roles, ids.last()@) {
            Some(r) => prev.push(r),
            None => prev,
        }
    }
}

/// Whether `x` is applied strictly before `y`.
pub fn precedes_exec(x: &RankedOverride, y: &RankedOverride) -> (r: bool)
    ensures
        r == precedes(*x, *y),
{
    if x.rank != y.rank {
        x.rank < y.rank
    } else {
        let a = x.id.as_str().as_bytes();
        let b = y.id.as_str().as_bytes();
        let mut i: usize = 0;
        while i < a.len() && i < b.len()
            invariant
                i <= a@.len(),
                i <= b@.len(),
                x.rank == y.rank,
                a@ == encode_utf8(x.id@),
                b@ == encode_utf8(y.id@),
                bytes_lt(a@, b@) == bytes_lt_from(a@, b@, i as int),
            decreases a.len() - i,
        {
            if a[i] != b[i] {
                assert(bytes_lt_from(a@, b@, i as int) == (a@[i as int] < b@[i as int]));
                return a[i] < b[i];
            }
            i = i + 1;
        }
        i == a.len() && i < b.len()
    }
}

proof fn lemma_insert_multiset(s: Seq<RankedOverride>, p: int, x: RankedOverride)
    requires
        0 <= p <= s.len(),
    ensures
        s.insert(p, x).to_multiset() =~= s.to_multiset().insert(x),
{
    let a = s.take(p);
    let b = s.skip(p);
    assert(s =~= a + b);
    assert(s.insert(p, x) =~= a.push(x) + b);
    vstd::seq_lib::lemma_multiset_commutative(a.push(x), b);
    vstd::seq_lib::lemma_multiset_commutative(a, b);
}

/// Inserts `x` into a sequence kept in precedence order, after every role it does
/// not come before.
fn insert_by_precedence(v: &mut Vec<RankedOverride>, x: RankedOverride)
    requires
        in_precedence_order(old(v)@),
    ensures
        in_precedence_order(final(v)@),
        final(v)@.to_multiset() =~= old(v)@.to_multiset().insert(x),
{
    let mut p: usize = 0;
    while p < v.len()
        invariant
            p <= v@.len(),
            p > 0 ==> !precedes(x, v@[p - 1]),
        ensures
            p <= v@.len(),
            p > 0 ==> !precedes(x, v@[p - 1]),
            p < v@.len() ==> precedes(x, v@[p as int]),
        decreases v.len() - p,
    {
        if precedes_exec(&x, &v[p]) {
            break;
        }
        p = p + 1;
    }
    proof {
        if p < v@.len() {
            lemma_precedes_asymmetric(x, v@[p as int]);
        }
        lemma_insert_multiset(v@, p as int, x);
    }
    let ghost s = v@;
    v.insert(p, x);
    assert(v@ =~= s.insert(p as int, x));
    assert forall|i: int| 0 <= i < v@.len() - 1 implies !precedes(#[trigger] v@[i + 1], v@[i]) by {
        if i + 1 < p {
            assert(v@[i] == s[i] && v@[i + 1] == s[i + 1]);
            assert(!precedes(s[i + 1], s[i]));
        } else if i + 1 == p {
            assert(v@[i] == s[i] && v@[i + 1] == x);
        } else if i == p {
            assert(v@[i] == x && v@[i + 1] == s[i]);
        } else {
            assert(v@[i] == s[i - 1] && v@[i + 1] == s[i]);
            assert(!precedes(s[(i - 1) + 1], s[i - 1]));
        }
    }
}

/// The roles in the order in which they are applied: a permutation of `roles`
/// in precedence order.
pub fn order_by_precedence(roles: Vec<RankedOverride>) -> (r: Vec<RankedOverride>)
    ensures
        in_precedence_order(r@),
        r@.to_multiset() =~= roles@.to_multiset(),
{
    let ghost orig = roles@;
    let mut rest = roles;
    let mut out: Vec<RankedOverride> = Vec::new();
    while rest.len() > 0
        invariant
            in_precedence_order(out@),
            out@.to_multiset().add(rest@.to_multiset()) =~= orig.to_multiset(),
        decreases rest.len(),
    {
        let ghost before = rest@;
        let x = rest.pop().unwrap();
        proof {
            assert(before =~= rest@.push(x));
        }
        insert_by_precedence(&mut out, x);
    }
    out
}

/// Applies the overrides of `ordered` to `base` from first to last.
pub fn compose_in_order(base: u64, ordered: &Vec<RankedOverride>) -> (r: u64)
    ensures
        r == compose_all(base, ordered@),
{
    let mut acc = base;
    let mut i: usize = 0;
    while i < ordered.len()
        invariant
            i <= ordered@.len(),
            acc == compose_all(base, ordered@.take(i as int)),
        decreases ordered.len() - i,
    {
        assert(ordered@.take(i + 1).drop_last() =~= ordered@.take(i as int));
        acc = compose(acc, ordered[i].permissions);
        i = i + 1;
    }
    assert(ordered@.take(i as int) =~= ordered@);
    acc
}

/// The position of the role with identifier `id` in the registry.
pub fn find_role(roles: &Vec<(String, Role)>, id: &String) -> (r: Option<usize>)
    ensures
        r matches Some(k) ==> k < roles@.len() && roles@[k as int].0@ == id@,
        r is None ==> forall|k: int| 0 <= k < roles@.len() ==> roles@[k].0@ != id@,
{
    let mut k: usize = 0;
    while k < roles.len()
        invariant
            k <= roles@.len(),
            forall|j: int| 0 <= j < k ==> roles@[j].0@ != id@,
        decreases roles.len() - k,
    {
        if roles[k].0 == *id {
            return Some(k);
        }
        k = k + 1;
    }
    None
}

/// The registry's roles for the identifiers that a member holds, in the member's order.
pub fn gather_roles(roles: &Vec<(String, Role)>, member_roles: &Vec<String>) -> (r: Vec<
    RankedOverride,
>)
    requires
        roles_unique(roles@),
    ensures
        r@ == assigned_overrides(roles@, member_roles@),
{
    let mut out: Vec<RankedOverride> = Vec::new();
    let mut i: usize = 0;
    while i < member_roles.len()
        invariant
            i <= member_roles@.len(),
            roles_unique(roles@),
            out@ == assigned_overrides(roles@, member_roles@.take(i as int)),
        decreases member_roles.len() - i,
    {
        let ghost pre = member_roles@.take(i + 1);
        assert(pre.drop_last() =~= member_roles@.take(i as int));
        match find_role(roles, &member_roles[i]) {
            Some(k) => {
                let ghost id = member_roles@[i as int]@;
                proof {
                    let c = choose|c: int| 0 <= c < roles@.len() && roles@[c].0@ == id;
                    assert(roles@[c].0@ == roles@[k as int].0@);
                }
                out.push(
                    RankedOverride {
                        id: roles[k].0.clone(),
                        rank: roles[k].1.rank,
                        permissions: roles[k].1.permissions,
                    },
                );
            },
            None => {},
        }
        i = i + 1;
    }
    assert(member_roles@.take(i as int) =~= member_roles@);
    out
}

/// Whether the role identifiers of the registry are distinct, as resolution needs.
pub fn roles_are_unique(roles: &Vec<(String, Role)>) -> (r: bool)
    ensures
        r == roles_unique(roles@),
{
    let mut j: usize = 0;
    while j < roles.len()
        invariant
            j <= roles@.len(),
            forall|a: int, b: int|
                0 <= a < j && 0 <= b < j && #[trigger] roles@[a].0@ == #[trigger] roles@[b].0@
                    ==> a == b,
        decreases roles.len() - j,
    {
        let mut i: usize = 0;
        while i < j
            invariant
                i <= j < roles@.len(),
                forall|a: int| 0 <= a < i ==> #[trigger] roles@[a].0@ != roles@[j as int].0@,
            decreases j - i,
        {
            if roles[i].0 == roles[j].0 {
                assert(roles@[i as int].0@ == roles@[j as int].0@);
                return false;
            }
            i = i + 1;
        }
        j = j + 1;
    }
    true
}

/// The permissions that `actor` holds in `server`, given the role identifiers the
/// member holds and, when a channel is in view, that channel's override.
///
/// The server's default mask has the member's roles applied in precedence order,
/// then the channel override. The owner holds every permission.
pub fn resolve(
    actor: &String,
    server: &Server,
    member_roles: &Vec<String>,
    channel: Option<OverrideField>,
) -> (r: u64)
    requires
        roles_unique(server.roles@),
    ensures
        actor@ == server.owner@ ==> r == ALL_PERMISSIONS,
        actor@ != server.owner@ ==> exists|o: Seq<RankedOverride>|
            in_precedence_order(o) && o.to_multiset() == assigned_overrides(
                server.roles@,
                member_roles@,
            ).to_multiset() && r == with_channel(compose_all(server.default_permissions, o), channel),
{
    if *actor == server.owner {
        return ALL_PERMISSIONS;
    }
    let gathered = gather_roles(&server.roles, member_roles);
    let ordered = order_by_precedence(gathered);
    let mask = compose_in_order(server.default_permissions, &ordered);
    let r = match channel {
        Some(o) => compose(mask, o),
        None => mask,
    };
    assert(in_precedence_order(ordered@) && ordered@.to_multiset() == assigned_overrides(
        server.roles@,
        member_roles@,
    ).to_multiset() && r == with_channel(compose_all(server.default_permissions, ordered@), channel));
    r
}

} // verus!
