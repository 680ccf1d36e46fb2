//! Properties that hold across the library's functions.
use vstd::prelude::*;
use crate::fields::text_field;
use crate::image::DockerImage;
use crate::ordering::{best, is_launch_order, launches_before, priority_of, well_formed};
use crate::reactor::services_of;
use crate::variables::{var_ref_name, Variables};
use crate::yaml::YamlValue;

verus! {

/// A manifest string is either left as it is, replaced by the value of the
/// variable it refers to, or, when that variable is unknown, refused: no
/// reference survives substitution.
pub proof fn substitution_is_total(v: YamlValue, key: Seq<char>, vars: Variables)
    requires
        v.field(key) matches Some(YamlValue::Str(_)),
    ensures
        ({
            let s = v.field(key)->0->Str_0@;
            &&& text_field(v, key, vars) is Some <==> (var_ref_name(s) is None || vars.lookup(
                var_ref_name(s)->0,
            ) is Some)
            &&& var_ref_name(s) is None ==> text_field(v, key, vars) == Some(Some(s))
            &&& var_ref_name(s) matches Some(name) ==> (vars.lookup(name) matches Some(value)
                ==> text_field(v, key, vars) == Some(Some(value)))
        }),
{
}

/// With an empty variables file no variable is defined, whatever the
/// environment, and every reference is refused.
pub proof fn empty_store_defines_nothing(vars: Variables, key: Seq<char>, s: Seq<char>)
    requires
        vars.values.dev@.len() == 0,
        vars.values.staging@.len() == 0,
        vars.values.prod@.len() == 0,
    ensures
        vars.lookup(key) is None,
        var_ref_name(s) is Some ==> vars.substituted(s) is None,
{
    assert(vars.active().len() == 0);
    if var_ref_name(s) is Some {
        assert(vars.lookup(var_ref_name(s)->0) is None);
    }
}

/// An image is in the service table exactly when it has both a port and a
/// target port: each such image has an entry under its component's name with
/// its ports, and each entry comes from such an image.
pub proof fn service_table_membership(images: Seq<DockerImage>)
    ensures
        forall|i: int|
            0 <= i < images.len() && (#[trigger] images[i]).port is Some
                && images[i].target_port is Some ==> exists|k: int|
                0 <= k < services_of(images).len() && services_of(images)[k].name
                    == images[i].spec.component_name && services_of(images)[k].port
                    == images[i].port->0 && services_of(images)[k].target_port
                    == images[i].target_port->0,
        forall|k: int|
            0 <= k < services_of(images).len() ==> exists|i: int|
                0 <= i < images.len() && images[i].port is Some && images[i].target_port is Some
                    && (#[trigger] services_of(images)[k]).name == images[i].spec.component_name,
    decreases images.len(),
{
    if images.len() > 0 {
        let rest = images.drop_last();
        service_table_membership(rest);
        let last = images.last();
        assert forall|i: int|
            0 <= i < images.len() && (#[trigger] images[i]).port is Some
                && images[i].target_port is Some implies exists|k: int|
            0 <= k < services_of(images).len() && services_of(images)[k].name
                == images[i].spec.component_name && services_of(images)[k].port
                == images[i].port->0 && services_of(images)[k].target_port
                == images[i].target_port->0 by {
            if i < images.len() - 1 {
                assert(images[i] == rest[i]);
                let k = choose|k: int|
                    0 <= k < services_of(rest).len() && services_of(rest)[k].name
                        == rest[i].spec.component_name && services_of(rest)[k].port
                        == rest[i].port->0 && services_of(rest)[k].target_port
                        == rest[i].target_port->0;
                assert(services_of(images)[k] == services_of(rest)[k]);
            } else {
                let k = services_of(rest).len() as int;
                assert(services_of(images)[k].name == last.spec.component_name);
            }
        }
        assert forall|k: int| 0 <= k < services_of(images).len() implies exists|i: int|
            0 <= i < images.len() && images[i].port is Some && images[i].target_port is Some
                && (#[trigger] services_of(images)[k]).name == images[i].spec.component_name by {
            if k < services_of(rest).len() {
                assert(services_of(images)[k] == services_of(rest)[k]);
                let i = choose|i: int|
                    0 <= i < rest.len() && rest[i].port is Some && rest[i].target_port is Some
                        && services_of(rest)[k].name == rest[i].spec.component_name;
                assert(images[i] == rest[i]);
            } else {
                assert(images[images.len() - 1] == last);
            }
        }
    }
}

proof fn lemma_best_zero(adj: Seq<Seq<bool>>, x: int, path: Seq<int>, fuel: nat, from: int)
    requires
        well_formed(adj),
        0 <= x < adj.len(),
        0 <= from,
        forall|y: int| 0 <= y < adj.len() && y != x ==> !adj[x][y],
        path.contains(x),
    ensures
        best(adj, x, path, fuel, from) == 0,
    decreases adj.len() - from,
{
    if from < adj.len() {
        lemma_best_zero(adj, x, path, fuel, from + 1);
    }
}

/// An image whose only dependent is itself has priority 1: the search does
/// not revisit an image on its path, so the self-loop ends it.
pub proof fn self_loop_priority_is_one(adj: Seq<Seq<bool>>, x: int)
    requires
        well_formed(adj),
        0 <= x < adj.len(),
        forall|y: int| 0 <= y < adj.len() && y != x ==> !adj[x][y],
    ensures
        priority_of(adj, x) == 1,
{
    let path = Seq::<int>::empty().push(x);
    assert(path[0] == x);
    lemma_best_zero(adj, x, path, (adj.len() - 1) as nat, 0);
}

proof fn lemma_order_covers(prio: Seq<u64>, o: Seq<usize>, x: int)
    requires
        is_launch_order(prio, o),
        0 <= x < prio.len(),
    ensures
        exists|k: int| 0 <= k < o.len() && o[k] as int == x,
{
    let oi = o.map_values(|v: usize| v as int);
    assert forall|a: int, b: int| 0 <= a < oi.len() && 0 <= b < oi.len() && a != b implies oi[a]
        != oi[b] by {
        if a < b {
            assert(launches_before(prio, o[a] as int, o[b] as int));
        } else {
            assert(launches_before(prio, o[b] as int, o[a] as int));
        }
    }
    assert(oi.no_duplicates());
    oi.unique_seq_to_set();
    let range = vstd::set_lib::set_int_range(0, prio.len() as int);
    vstd::set_lib::lemma_int_range(0, prio.len() as int);
    assert forall|v: int| oi.to_set().contains(v) implies range.contains(v) by {
        let k = choose|k: int| 0 <= k < oi.len() && oi[k] == v;
        assert(o[k] < prio.len());
    }
    vstd::seq_lib::seq_to_set_is_finite(oi);
    vstd::set_lib::lemma_subset_equality(oi.to_set(), range);
    assert(range.contains(x));
    assert(oi.to_set().contains(x));
    let k = choose|k: int| 0 <= k < oi.len() && oi[k] == x;
    assert(o[k] as int == x);
}

/// The launch order is a function of the priorities alone: two orders that
/// both launch by ascending priority, ties in manifest order, are the same,
/// so repeated runs launch the images in the same order.
pub proof fn launch_order_is_unique(prio: Seq<u64>, a: Seq<usize>, b: Seq<usize>)
    requires
        is_launch_order(prio, a),
        is_launch_order(prio, b),
    ensures
        a == b,
{
    assert forall|k: int| 0 <= k < a.len() implies a[k] == b[k] by {
        lemma_same_at(prio, a, b, k);
    }
    assert(a =~= b);
}

proof fn lemma_same_at(prio: Seq<u64>, a: Seq<usize>, b: Seq<usize>, k: int)
    requires
        is_launch_order(prio, a),
        is_launch_order(prio, b),
        0 <= k < a.len(),
    ensures
        a[k] == b[k],
    decreases k,
{
    if k > 0 {
        lemma_same_at(prio, a, b, k - 1);
    }
    assert forall|j: int| 0 <= j < k implies a[j] == b[j] by {
        lemma_same_at(prio, a, b, j);
    }
    let x = a[k] as int;
    let y = b[k] as int;
    if x != y {
        lemma_order_covers(prio, b, x);
        lemma_order_covers(prio, a, y);
        let j = choose|j: int| 0 <= j < b.len() && b[j] as int == x;
        let i = choose|i: int| 0 <= i < a.len() && a[i] as int == y;
        if j < k {
            assert(a[j] == b[j]);
            assert(launches_before(prio, a[j] as int, a[k] as int));
        }
        if i < k {
            assert(a[i] == b[i]);
            assert(launches_before(prio, b[i] as int, b[k] as int));
        }
        assert(launches_before(prio, b[k] as int, b[j] as int));
        assert(launches_before(prio, a[k] as int, a[i] as int));
    }
}

} // verus!
