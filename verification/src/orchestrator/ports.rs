//! Ports for new servers.

use crate::numbers::decimal;
use crate::numbers::law_decimal_parses_back;
use crate::numbers::parse_u16;
use crate::numbers::parsed;
use crate::numbers::to_decimal;
use crate::text::join2;
use crate::text::join3;
use std::collections::HashSet;
use vstd::prelude::*;

verus! {

broadcast use vstd::std_specs::hash::group_hash_axioms;

/// Whether one of the port fields of the server entries spells `port`. An entry may have
/// none, or one that spells no port.
pub open spec fn is_used(port_fields: Seq<Option<Seq<char>>>, port: u16) -> bool {
    exists|i: int|
        0 <= i < port_fields.len() && (#[trigger] port_fields[i]) is Some && parsed(
            port_fields[i]->0,
            u16::MAX as nat,
        ) == Some(port as nat)
}

/// Whether every port from `from` up to but without `to` is used.
pub open spec fn all_used(port_fields: Seq<Option<Seq<char>>>, from: int, to: int) -> bool {
    forall|port: u16| from <= port < to ==> #[trigger] is_used(port_fields, port)
}

/// The ports that the port fields of the server entries spell.
pub fn used_ports(port_fields: &Vec<Option<String>>) -> (used: HashSet<u16>)
    ensures
        forall|port: u16| #[trigger] used@.contains(port) <==> is_used(
            port_fields.deep_view(),
            port,
        ),
{
    let mut used: HashSet<u16> = HashSet::new();
    let ghost all = port_fields.deep_view();
    let mut i: usize = 0;
    while i < port_fields.len()
        invariant
            i <= port_fields.len(),
            all == port_fields.deep_view(),
            forall|port: u16| #[trigger] used@.contains(port) <==> is_used(all.take(i as int), port),
        decreases port_fields.len() - i,
    {
        let ghost before = all.take(i as int);
        let ghost after = all.take(i as int + 1);
        let ghost seen = used@;
        assert(after == before.push(all[i as int]));
        assert(all[i as int] == port_fields[i as int].deep_view());
        let mut found: Option<u16> = None;
        if let Some(text) = &port_fields[i] {
            found = parse_u16(text.as_str());
        }
        if let Some(port) = found {
            used.insert(port);
        }
        assert forall|port: u16| #[trigger] used@.contains(port) <==> is_used(after, port) by {
            if seen.contains(port) {
                let j = choose|j: int|
                    0 <= j < before.len() && (#[trigger] before[j]) is Some && parsed(
                        before[j]->0,
                        u16::MAX as nat,
                    ) == Some(port as nat);
                assert(after[j] == before[j]);
            }
            if is_used(after, port) {
                let j = choose|j: int|
                    0 <= j < after.len() && (#[trigger] after[j]) is Some && parsed(
                        after[j]->0,
                        u16::MAX as nat,
                    ) == Some(port as nat);
                if j < i {
                    assert(before[j] == after[j]);
                    assert(is_used(before, port));
                }
            }
            if found == Some(port) {
                assert(after[i as int] == all[i as int]);
            }
        }
        i = i + 1;
    }
    assert(all.take(all.len() as int) == all);
    used
}

/// A port that an entry holds in decimal digits is used, so that it is not picked again.
pub proof fn law_registered_port_is_used(port_fields: Seq<Option<Seq<char>>>, i: int, port: u16)
    requires
        0 <= i < port_fields.len(),
        port_fields[i] == Some(decimal(port as nat)),
    ensures
        is_used(port_fields, port),
{
    law_decimal_parses_back(port as nat, u16::MAX as nat);
}

/// No port of a range is free.
#[derive(Debug, Clone, Copy)]
pub struct NoFreePort {
    pub min: u16,
    pub max: u16,
}

impl NoFreePort {
    /// What went wrong, in words.
    pub fn message(&self) -> (text: String)
        ensures
            text@ == "no free port in range "@ + decimal(self.min as nat) + ".."@ + decimal(
                self.max as nat,
            ),
    {
        let front = join2("no free port in range ", to_decimal(self.min as u64).as_str());
        join3(front.as_str(), "..", to_decimal(self.max as u64).as_str())
    }
}

/// The lowest port from `min` up to and with `max` that no server entry uses.
pub fn pick_free_port(min: u16, max: u16, port_fields: &Vec<Option<String>>) -> (picked: Result<
    u16,
    NoFreePort,
>)
    ensures
        match picked {
            Ok(port) => {
                &&& min <= port <= max
                &&& !is_used(port_fields.deep_view(), port)
                &&& all_used(port_fields.deep_view(), min as int, port as int)
            },
            Err(e) => {
                &&& e.min == min
                &&& e.max == max
                &&& all_used(port_fields.deep_view(), min as int, max + 1)
            },
        },
{
    let used = used_ports(port_fields);
    let mut port: u32 = min as u32;
    while port <= max as u32
        invariant
            min <= port,
            port <= max as u32 + 1 || port == min,
            forall|p: u16| #[trigger] used@.contains(p) <==> is_used(port_fields.deep_view(), p),
            forall|lower: u16|
                min <= lower < port ==> #[trigger] is_used(port_fields.deep_view(), lower),
        decreases max as u32 + 1 - port,
    {
        let p: u16 = port as u16;
        if !used.contains(&p) {
            return Ok(p);
        }
        assert(is_used(port_fields.deep_view(), p));
        port = port + 1;
    }
    Err(NoFreePort { min, max })
}

/// A port is used exactly if the field of some entry spells it: every field counts on its own.
pub proof fn law_fields_count_one_by_one(
    a: Seq<Option<Seq<char>>>,
    one: Option<Seq<char>>,
    b: Seq<Option<Seq<char>>>,
    port: u16,
)
    ensures
        is_used(a.push(one) + b, port) <==> is_used(a, port) || is_used(b, port) || (one
            matches Some(text) && parsed(text, 65535) == Some(port as nat)),
        !is_used(Seq::empty(), port),
{
    let all = a.push(one) + b;
    if is_used(a, port) {
        let i = choose|i: int|
            0 <= i < a.len() && (#[trigger] a[i]) is Some && parsed(a[i]->0, u16::MAX as nat)
                == Some(port as nat);
        assert(all[i] == a[i]);
    }
    if is_used(b, port) {
        let i = choose|i: int|
            0 <= i < b.len() && (#[trigger] b[i]) is Some && parsed(b[i]->0, u16::MAX as nat)
                == Some(port as nat);
        assert(all[a.len() + 1 + i] == b[i]);
    }
    if one is Some && parsed(one->0, 65535) == Some(port as nat) {
        assert(all[a.len() as int] == one);
    }
    if is_used(all, port) {
        let i = choose|i: int|
            0 <= i < all.len() && (#[trigger] all[i]) is Some && parsed(all[i]->0, u16::MAX as nat)
                == Some(port as nat);
        if i < a.len() {
            assert(a[i] == all[i]);
        } else if i > a.len() {
            assert(b[i - a.len() - 1] == all[i]);
        }
    }
}

/// The port that is picked is in the range, no entry holds it, and every lower port of the
/// range is held by one. None is picked exactly if every port of the range is held.
pub proof fn law_lowest_free_port_is_picked(
    min: u16,
    max: u16,
    fields: Vec<Option<String>>,
    picked: Result<u16, NoFreePort>,
    port: u16,
)
    requires
        call_ensures(pick_free_port, (min, max, &fields), picked),
    ensures
        picked matches Ok(p) ==> min <= p <= max && !is_used(fields.deep_view(), p),
        picked matches Ok(p) && min <= port < p ==> is_used(fields.deep_view(), port),
        picked is Err && min <= port <= max ==> is_used(fields.deep_view(), port),
        picked matches Err(e) ==> e.min == min && e.max == max,
        min <= port <= max && !is_used(fields.deep_view(), port) ==> (picked matches Ok(p) && p
            <= port),
{
}

/// Where no port is free, the range is named.
pub proof fn law_range_is_named(none: NoFreePort, text: String)
    requires
        call_ensures(NoFreePort::message, (&none,), text),
    ensures
        text@ == "no free port in range "@ + decimal(none.min as nat) + ".."@ + decimal(
            none.max as nat,
        ),
{
}

} // verus!
