//! Launch ordering: each image's priority is the number of images on the
//! longest chain of dependents that starts at it, found by a depth-first
//! search that never revisits an image on the current path.
use vstd::prelude::*;
use crate::fields::strings_view;

verus! {

/// `adj[x][y]`: image `y` depends on image `x`.
pub open spec fn well_formed(adj: Seq<Seq<bool>>) -> bool {
    forall|x: int| 0 <= x < adj.len() ==> (#[trigger] adj[x]).len() == adj.len()
}

/// The number of images on the longest path from `x` that visits no image
/// of `path` and no image twice, with at most `fuel` more steps.
pub open spec fn longest(adj: Seq<Seq<bool>>, x: int, path: Seq<int>, fuel: nat) -> nat
    decreases fuel, 0int,
{
    if fuel == 0 {
        1
    } else {
        1 + best(adj, x, path.push(x), (fuel - 1) as nat, 0)
    }
}

/// The longest continuation from `x` through any dependent `y >= from`.
pub open spec fn best(adj: Seq<Seq<bool>>, x: int, path: Seq<int>, fuel: nat, from: int) -> nat
    decreases fuel, adj.len() + 1 - from,
{
    if from < 0 || from >= adj.len() {
        0
    } else {
        let here = if adj[x][from] && !path.contains(from) {
            longest(adj, from, path, fuel)
        } else {
            0
        };
        let rest = best(adj, x, path, fuel, from + 1);
        if here > rest {
            here
        } else {
            rest
        }
    }
}

/// The priority of image `x`: its longest chain of dependents, in images.
pub open spec fn priority_of(adj: Seq<Seq<bool>>, x: int) -> nat {
    longest(adj, x, Seq::empty(), adj.len())
}

pub open spec fn adj_view(adj: Seq<Vec<bool>>) -> Seq<Seq<bool>> {
    Seq::new(adj.len(), |i: int| adj[i]@)
}

/// The dependency matrix: `y` depends on `x` when `x`'s name is among `y`'s
/// dependencies.
pub open spec fn depends_matrix(names: Seq<Seq<char>>, deps: Seq<Seq<Seq<char>>>) -> Seq<
    Seq<bool>,
> {
    Seq::new(names.len(), |x: int| Seq::new(names.len(), |y: int| deps[y].contains(names[x])))
}

fn contains_name(list: &Vec<String>, name: &str) -> (r: bool)
    ensures
        r == strings_view(list@).contains(name@),
{
    crate::context::contains_string(list, name)
}

/// Builds the dependency matrix of images given by name and dependencies.
pub fn dependency_matrix(names: &Vec<String>, deps: &Vec<Vec<String>>) -> (r: Vec<Vec<bool>>)
    requires
        deps@.len() == names@.len(),
    ensures
        adj_view(r@) == depends_matrix(
            strings_view(names@),
            Seq::new(deps@.len(), |i: int| strings_view(deps@[i]@)),
        ),
        r@.len() == names@.len(),
{
    let ghost dv = Seq::new(deps@.len(), |i: int| strings_view(deps@[i]@));
    let ghost m = depends_matrix(strings_view(names@), dv);
    let mut r: Vec<Vec<bool>> = Vec::new();
    let mut x: usize = 0;
    while x < names.len()
        invariant
            x <= names.len(),
            deps@.len() == names@.len(),
            dv == Seq::new(deps@.len(), |i: int| strings_view(deps@[i]@)),
            m == depends_matrix(strings_view(names@), dv),
            r@.len() == x,
            forall|k: int| 0 <= k < x ==> (#[trigger] r@[k])@ == m[k],
        decreases names.len() - x,
    {
        let mut row: Vec<bool> = Vec::new();
        let mut y: usize = 0;
        while y < names.len()
            invariant
                y <= names.len(),
                x < names.len(),
                deps@.len() == names@.len(),
                dv == Seq::new(deps@.len(), |i: int| strings_view(deps@[i]@)),
                m == depends_matrix(strings_view(names@), dv),
                row@.len() == y,
                forall|k: int| 0 <= k < y ==> row@[k] == m[x as int][k],
            decreases names.len() - y,
        {
            let b = contains_name(&deps[y], names[x].as_str());
            assert(strings_view(names@)[x as int] == names@[x as int]@);
            row.push(b);
            y = y + 1;
        }
        assert(row@ =~= m[x as int]);
        r.push(row);
        x = x + 1;
    }
    assert(adj_view(r@) =~= m);
    r
}

fn path_contains(path: &Vec<usize>, y: usize) -> (r: bool)
    ensures
        r == path@.map_values(|p: usize| p as int).contains(y as int),
{
    let ghost pv = path@.map_values(|p: usize| p as int);
    let mut i: usize = 0;
    while i < path.len()
        invariant
            i <= path.len(),
            pv == path@.map_values(|p: usize| p as int),
            forall|j: int| 0 <= j < i ==> pv[j] != y as int,
        decreases path.len() - i,
    {
        if path[i] == y {
            assert(pv[i as int] == y as int);
            return true;
        }
        i = i + 1;
    }
    false
}

pub open spec fn path_view(path: Seq<usize>) -> Seq<int> {
    path.map_values(|p: usize| p as int)
}

/// `longest`, computed by the search it describes.
pub fn longest_exec(adj: &Vec<Vec<bool>>, x: usize, path: &mut Vec<usize>, fuel: usize) -> (r: u64)
    requires
        well_formed(adj_view(adj@)),
        x < adj@.len(),
        old(path)@.len() + fuel <= adj@.len(),
        adj@.len() < 0x8000_0000_0000_0000,
    ensures
        r == longest(adj_view(adj@), x as int, path_view(old(path)@), fuel as nat),
        final(path)@ == old(path)@,
        r <= fuel + 1,
    decreases fuel, 0int,
{
    if fuel == 0 {
        return 1;
    }
    let ghost pv = path_view(path@);
    path.push(x);
    assert(path_view(path@) =~= pv.push(x as int));
    let b = best_exec(adj, x, path, fuel - 1, 0);
    let _ = path.pop();
    assert(path@ =~= old(path)@);
    1 + b
}

/// `best`, computed by trying each dependent in turn.
pub fn best_exec(adj: &Vec<Vec<bool>>, x: usize, path: &mut Vec<usize>, fuel: usize, from: usize) -> (r: u64)
    requires
        well_formed(adj_view(adj@)),
        x < adj@.len(),
        old(path)@.len() + fuel <= adj@.len(),
        adj@.len() < 0x8000_0000_0000_0000,
        from <= adj@.len(),
    ensures
        r == best(adj_view(adj@), x as int, path_view(old(path)@), fuel as nat, from as int),
        final(path)@ == old(path)@,
        r <= fuel + 1,
    decreases fuel, adj@.len() + 1 - from,
{
    if from >= adj.len() {
        return 0;
    }
    assert(adj_view(adj@)[x as int] == adj@[x as int]@);
    let here = if adj[x][from] && !path_contains(path, from) {
        longest_exec(adj, from, path, fuel)
    } else {
        0
    };
    let rest = best_exec(adj, x, path, fuel, from + 1);
    if here > rest {
        here
    } else {
        rest
    }
}

/// The priority of every image.
pub fn priorities(adj: &Vec<Vec<bool>>) -> (r: Vec<u64>)
    requires
        well_formed(adj_view(adj@)),
        adj@.len() < 0x8000_0000_0000_0000,
    ensures
        r@.len() == adj@.len(),
        forall|i: int| 0 <= i < r@.len() ==> r@[i] == priority_of(adj_view(adj@), i),
{
    let mut r: Vec<u64> = Vec::new();
    let mut i: usize = 0;
    while i < adj.len()
        invariant
            i <= adj.len(),
            well_formed(adj_view(adj@)),
            adj@.len() < 0x8000_0000_0000_0000,
            r@.len() == i,
            forall|k: int| 0 <= k < i ==> r@[k] == priority_of(adj_view(adj@), k),
        decreases adj.len() - i,
    {
        let mut path: Vec<usize> = Vec::new();
        assert(path_view(path@) =~= Seq::<int>::empty());
        let p = longest_exec(adj, i, &mut path, adj.len());
        r.push(p);
        i = i + 1;
    }
    r
}

/// Launch position `a` comes before `b`: lower priority first, and among
/// equal priorities the image that comes first in the manifest.
pub open spec fn launches_before(prio: Seq<u64>, a: int, b: int) -> bool {
    prio[a] < prio[b] || (prio[a] == prio[b] && a < b)
}

/// `order` holds each image once, sorted by `launches_before`.
pub open spec fn is_launch_order(prio: Seq<u64>, order: Seq<usize>) -> bool {
    &&& order.len() == prio.len()
    &&& forall|k: int| 0 <= k < order.len() ==> (#[trigger] order[k]) < prio.len()
    &&& forall|a: int, b: int|
        0 <= a < b < order.len() ==> launches_before(
            prio,
            #[trigger] order[a] as int,
            #[trigger] order[b] as int,
        )
}

/// The images in launch order: by ascending priority, ties in manifest order.
pub fn launch_order(prio: &Vec<u64>) -> (r: Vec<usize>)
    ensures
        is_launch_order(prio@, r@),
{
    let mut order: Vec<usize> = Vec::new();
    let mut i: usize = 0;
    while i < prio.len()
        invariant
            i <= prio.len(),
            order@.len() == i,
            forall|k: int| 0 <= k < order@.len() ==> (#[trigger] order@[k]) < i,
            forall|a: int, b: int|
                0 <= a < b < order@.len() ==> launches_before(
                    prio@,
                    #[trigger] order@[a] as int,
                    #[trigger] order@[b] as int,
                ),
        decreases prio.len() - i,
    {
        let mut pos: usize = 0;
        while pos < order.len() && prio[order[pos]] <= prio[i]
            invariant
                pos <= order@.len(),
                i < prio.len(),
                forall|k: int| 0 <= k < order@.len() ==> (#[trigger] order@[k]) < i,
                forall|k: int| 0 <= k < pos ==> prio@[#[trigger] order@[k] as int] <= prio@[i as int],
            decreases order@.len() - pos,
        {
            pos = pos + 1;
        }
        let ghost before = order@;
        proof {
            assert forall|k: int| pos <= k < before.len() implies prio@[i as int] < prio@[
                #[trigger] before[k] as int] by {
                if k > pos {
                    assert(launches_before(prio@, before[pos as int] as int, before[k] as int));
                }
            }
        }
        order.insert(pos, i);
        assert forall|a: int, b: int|
            0 <= a < b < order@.len() implies launches_before(
                prio@,
                #[trigger] order@[a] as int,
                #[trigger] order@[b] as int,
            ) by {
            if b < pos {
                assert(order@[a] == before[a] && order@[b] == before[b]);
            } else if b == pos {
                assert(order@[a] == before[a]);
            } else if a == pos {
                assert(order@[b] == before[b - 1]);
            } else if a < pos {
                assert(order@[a] == before[a] && order@[b] == before[b - 1]);
            } else {
                assert(order@[a] == before[a - 1] && order@[b] == before[b - 1]);
            }
        }
        i = i + 1;
    }
    order
}

} // verus!
