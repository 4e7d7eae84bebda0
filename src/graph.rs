use vstd::prelude::*;
use crate::repository::{CommitGraphNode, CommitInfo};

verus! {

/// Whether some branch named `name` has its tip at commit `id`.
pub open spec fn points_at(refs: Seq<(String, String)>, id: Seq<char>, name: Seq<char>) -> bool {
    exists|i: int| 0 <= i < refs.len() && refs[i].0@ == id && refs[i].1@ == name
}

/// `names` lists, once each, exactly the branches whose tip is `id`.
pub open spec fn annotates(names: Seq<String>, refs: Seq<(String, String)>, id: Seq<char>) -> bool {
    &&& forall|i: int, j: int| 0 <= i < j < names.len() ==> names[i]@ != names[j]@
    &&& forall|i: int| 0 <= i < names.len() ==> points_at(refs, id, #[trigger] names[i]@)
    &&& forall|n: Seq<char>| points_at(refs, id, n) ==> exists|i: int| 0 <= i < names.len() && names[i]@ == n
}

/// The record at `k` is the first one in `walked` with its id.
pub open spec fn first_of_id(walked: Seq<CommitInfo>, k: int) -> bool {
    &&& 0 <= k < walked.len()
    &&& forall|j: int| 0 <= j < k ==> walked[j].id@ != walked[k].id@
}

/// `node` carries the data of `rec` and the branches whose tip is that commit.
pub open spec fn node_of(node: CommitGraphNode, rec: CommitInfo, refs: Seq<(String, String)>) -> bool {
    &&& node.id@ == rec.id@
    &&& node.message@ == rec.message@
    &&& node.author@ == rec.author@
    &&& node.time == rec.time
    &&& node.parents@ == rec.parents@
    &&& annotates(node.branches@, refs, rec.id@)
}

/// `node` is built from the first record of its commit in `walked`.
pub open spec fn from_walk(node: CommitGraphNode, refs: Seq<(String, String)>, walked: Seq<CommitInfo>) -> bool {
    exists|k: int| first_of_id(walked, k) && node_of(node, walked[k], refs)
}

pub open spec fn has_id(nodes: Seq<CommitGraphNode>, id: Seq<char>) -> bool {
    exists|i: int| 0 <= i < nodes.len() && nodes[i].id@ == id
}

pub open spec fn ids_distinct(nodes: Seq<CommitGraphNode>) -> bool {
    forall|i: int, j: int| 0 <= i < j < nodes.len() ==> nodes[i].id@ != nodes[j].id@
}

/// Most recent first.
pub open spec fn newest_first(nodes: Seq<CommitGraphNode>) -> bool {
    forall|i: int, j: int| 0 <= i < j < nodes.len() ==> nodes[i].time >= nodes[j].time
}

/// `nodes` is the graph of the commits `walked` under the branch tips `refs`: one node per
/// distinct commit id of `walked`, built from its first record and annotated with the branches
/// whose tip it is, most recent first.
pub open spec fn is_graph_of(
    nodes: Seq<CommitGraphNode>,
    refs: Seq<(String, String)>,
    walked: Seq<CommitInfo>,
) -> bool {
    &&& ids_distinct(nodes)
    &&& newest_first(nodes)
    &&& forall|k: int| 0 <= k < walked.len() ==> has_id(nodes, #[trigger] walked[k].id@)
    &&& forall|i: int| 0 <= i < nodes.len() ==> from_walk(#[trigger] nodes[i], refs, walked)
}

/// A copy of a list of strings.
pub fn copy_strings(v: &Vec<String>) -> (r: Vec<String>)
    ensures
        r@ == v@,
{
    let mut r: Vec<String> = Vec::new();
    let mut i: usize = 0;
    while i < v.len()
        invariant
            i <= v.len(),
            r@ == v@.subrange(0, i as int),
        decreases v.len() - i,
    {
        r.push(v[i].clone());
        i += 1;
        assert(r@ =~= v@.subrange(0, i as int));
    }
    assert(r@ =~= v@);
    r
}

/// The names of the branches whose tip is `id`, each once, in the order of `refs`.
pub fn branch_names_at(refs: &Vec<(String, String)>, id: &String) -> (r: Vec<String>)
    ensures
        annotates(r@, refs@, id@),
{
    let mut r: Vec<String> = Vec::new();
    let mut i: usize = 0;
    while i < refs.len()
        invariant
            i <= refs.len(),
            forall|a: int, b: int| 0 <= a < b < r@.len() ==> r@[a]@ != r@[b]@,
            forall|a: int| 0 <= a < r@.len() ==> points_at(refs@, id@, #[trigger] r@[a]@),
            forall|j: int| 0 <= j < i && refs@[j].0@ == id@ ==> exists|a: int|
                0 <= a < r@.len() && r@[a]@ == (#[trigger] refs@[j]).1@,
        decreases refs.len() - i,
    {
        if refs[i].0 == *id {
            let mut present = false;
            let mut a: usize = 0;
            while a < r.len()
                invariant
                    a <= r.len(),
                    i < refs.len(),
                    present == exists|b: int| 0 <= b < a && r@[b]@ == refs@[i as int].1@,
                decreases r.len() - a,
            {
                if r[a] == refs[i].1 {
                    present = true;
                }
                a += 1;
            }
            if !present {
                assert(points_at(refs@, id@, refs@[i as int].1@));
                let ghost before = r@;
                r.push(refs[i].1.clone());
                proof {
                    assert forall|j: int| 0 <= j < i + 1 && refs@[j].0@ == id@ implies exists|a: int|
                        0 <= a < r@.len() && r@[a]@ == (#[trigger] refs@[j]).1@ by {
                        if j == i {
                            assert(r@[before.len() as int]@ == refs@[j].1@);
                        } else {
                            let a = choose|a: int| 0 <= a < before.len() && before[a]@ == refs@[j].1@;
                            assert(r@[a] == before[a]);
                        }
                    }
                }
            } else {
                proof {
                    let b = choose|b: int| 0 <= b < r@.len() && r@[b]@ == refs@[i as int].1@;
                    assert(r@[b]@ == refs@[i as int].1@);
                }
            }
        }
        i += 1;
    }
    assert forall|n: Seq<char>| points_at(refs@, id@, n) implies exists|a: int|
        0 <= a < r@.len() && r@[a]@ == n by {
        let j = choose|j: int| 0 <= j < refs@.len() && refs@[j].0@ == id@ && refs@[j].1@ == n;
        assert(refs@[j].0@ == id@);
    }
    r
}

/// Whether some node of `nodes` has the id `id`.
pub fn contains_id(nodes: &Vec<CommitGraphNode>, id: &String) -> (r: bool)
    ensures
        r == has_id(nodes@, id@),
{
    let mut i: usize = 0;
    while i < nodes.len()
        invariant
            i <= nodes.len(),
            forall|j: int| 0 <= j < i ==> nodes@[j].id@ != id@,
        decreases nodes.len() - i,
    {
        if nodes[i].id == *id {
            return true;
        }
        i += 1;
    }
    false
}

/// Merges the commits that a walk over all branch tips produced into the commit graph:
/// each commit once, with the names of the branches whose tip it is, most recent first.
pub fn assemble_graph(refs: &Vec<(String, String)>, walked: &Vec<CommitInfo>) -> (r: Vec<CommitGraphNode>)
    ensures
        is_graph_of(r@, refs@, walked@),
{
    let mut r: Vec<CommitGraphNode> = Vec::new();
    let mut k: usize = 0;
    while k < walked.len()
        invariant
            k <= walked.len(),
            ids_distinct(r@),
            newest_first(r@),
            forall|j: int| 0 <= j < k ==> has_id(r@, #[trigger] walked@[j].id@),
            forall|i: int| 0 <= i < r@.len() ==> exists|j: int|
                0 <= j < k && first_of_id(walked@, j) && node_of(#[trigger] r@[i], walked@[j], refs@),
        decreases walked.len() - k,
    {
        let rec = &walked[k];
        if !contains_id(&r, &rec.id) {
            proof {
                assert forall|j: int| 0 <= j < k implies walked@[j].id@ != walked@[k as int].id@ by {
                    assert(has_id(r@, walked@[j].id@));
                }
                assert(first_of_id(walked@, k as int));
            }
            let node = CommitGraphNode {
                id: rec.id.clone(),
                message: rec.message.clone(),
                author: rec.author.clone(),
                time: rec.time,
                parents: copy_strings(&rec.parents),
                branches: branch_names_at(refs, &rec.id),
            };
            let mut p: usize = 0;
            while p < r.len() && r[p].time >= node.time
                invariant
                    p <= r@.len(),
                    forall|q: int| 0 <= q < p ==> r@[q].time >= node.time,
                decreases r.len() - p,
            {
                p += 1;
            }
            let ghost before = r@;
            r.insert(p, node);
            proof {
                assert(r@ == before.insert(p as int, node));
                assert forall|a: int, b: int| 0 <= a < b < r@.len() implies r@[a].time >= r@[b].time by {
                    if b < p {
                    } else if b == p {
                        assert(r@[a] == before[a]);
                    } else if a < p {
                        assert(r@[b] == before[b - 1]);
                        assert(r@[a] == before[a]);
                    } else if a == p {
                        assert(r@[b] == before[b - 1]);
                        if p < before.len() {
                            assert(before[p as int].time < node.time);
                            assert(before[p as int].time >= before[b - 1].time);
                        }
                    } else {
                        assert(r@[b] == before[b - 1]);
                        assert(r@[a] == before[a - 1]);
                    }
                }
                assert forall|a: int, b: int| 0 <= a < b < r@.len() implies r@[a].id@ != r@[b].id@ by {
                    if a == p {
                        assert(r@[b] == before[b - 1]);
                    } else if b == p {
                        assert(r@[a] == before[a]);
                    } else {
                        let a0 = if a < p { a } else { a - 1 };
                        let b0 = if b < p { b } else { b - 1 };
                        assert(r@[a] == before[a0]);
                        assert(r@[b] == before[b0]);
                    }
                }
                assert forall|j: int| 0 <= j < k + 1 implies has_id(r@, #[trigger] walked@[j].id@) by {
                    if j == k {
                        assert(r@[p as int].id@ == walked@[j].id@);
                    } else {
                        assert(has_id(before, walked@[j].id@));
                        let a = choose|a: int| 0 <= a < before.len() && before[a].id@ == walked@[j].id@;
                        if a < p {
                            assert(r@[a] == before[a]);
                        } else {
                            assert(r@[a + 1] == before[a]);
                        }
                    }
                }
                assert forall|i: int| 0 <= i < r@.len() implies exists|j: int|
                    0 <= j < k + 1 && first_of_id(walked@, j) && node_of(#[trigger] r@[i], walked@[j], refs@) by {
                    if i == p {
                        assert(node_of(r@[i], walked@[k as int], refs@));
                    } else {
                        let i0 = if i < p { i } else { i - 1 };
                        assert(r@[i] == before[i0]);
                        let j = choose|j: int| 0 <= j < k && first_of_id(walked@, j) && node_of(before[i0], walked@[j], refs@);
                    }
                }
            }
        }
        k += 1;
    }
    assert forall|i: int| 0 <= i < r@.len() implies from_walk(#[trigger] r@[i], refs@, walked@) by {
        let node = r@[i];
        let j = choose|j: int| 0 <= j < k && first_of_id(walked@, j) && node_of(node, walked@[j], refs@);
        assert(first_of_id(walked@, j) && node_of(node, walked@[j], refs@));
    }
    r
}

/// Two nodes for one commit agree on its data and on the set of branch names.
pub open spec fn same_commit(a: CommitGraphNode, b: CommitGraphNode) -> bool {
    &&& a.id@ == b.id@
    &&& a.message@ == b.message@
    &&& a.author@ == b.author@
    &&& a.time == b.time
    &&& a.parents@ == b.parents@
    &&& forall|n: Seq<char>| #[trigger] lists_name(a.branches@, n) <==> lists_name(b.branches@, n)
}

pub open spec fn lists_name(names: Seq<String>, n: Seq<char>) -> bool {
    exists|x: int| 0 <= x < names.len() && names[x]@ == n
}

/// Building the graph twice from the same branch tips and the same walk gives the same nodes:
/// as many of them, the same commit ids, and for each id the same data and the same set of
/// branch names.
pub proof fn lemma_graph_determined(
    refs: Seq<(String, String)>,
    walked: Seq<CommitInfo>,
    a: Seq<CommitGraphNode>,
    b: Seq<CommitGraphNode>,
)
    requires
        is_graph_of(a, refs, walked),
        is_graph_of(b, refs, walked),
    ensures
        a.len() == b.len(),
        forall|id: Seq<char>| has_id(a, id) <==> has_id(b, id),
        forall|i: int, j: int| 0 <= i < a.len() && 0 <= j < b.len() && a[i].id@ == b[j].id@
            ==> same_commit(#[trigger] a[i], #[trigger] b[j]),
{
    assert forall|id: Seq<char>| has_id(a, id) implies has_id(b, id) by {
        let i = choose|i: int| 0 <= i < a.len() && a[i].id@ == id;
        assert(from_walk(a[i], refs, walked));
    }
    assert forall|id: Seq<char>| has_id(b, id) implies has_id(a, id) by {
        let i = choose|i: int| 0 <= i < b.len() && b[i].id@ == id;
        assert(from_walk(b[i], refs, walked));
    }
    let ia = a.map_values(|n: CommitGraphNode| n.id@);
    let ib = b.map_values(|n: CommitGraphNode| n.id@);
    assert(ia.no_duplicates()) by {
        assert forall|i: int, j: int| 0 <= i < ia.len() && 0 <= j < ia.len() && i != j implies ia[i] != ia[j] by {
            if i < j { assert(a[i].id@ != a[j].id@); } else { assert(a[j].id@ != a[i].id@); }
        }
    }
    assert(ib.no_duplicates()) by {
        assert forall|i: int, j: int| 0 <= i < ib.len() && 0 <= j < ib.len() && i != j implies ib[i] != ib[j] by {
            if i < j { assert(b[i].id@ != b[j].id@); } else { assert(b[j].id@ != b[i].id@); }
        }
    }
    ia.unique_seq_to_set();
    ib.unique_seq_to_set();
    assert forall|x: Seq<char>| ia.to_set().contains(x) <==> ib.to_set().contains(x) by {
        if ia.contains(x) {
            let i = choose|i: int| 0 <= i < ia.len() && ia[i] == x;
            assert(has_id(a, x));
            assert(has_id(b, x));
            let j = choose|j: int| 0 <= j < b.len() && b[j].id@ == x;
            assert(ib[j] == x);
        }
        if ib.contains(x) {
            let j = choose|j: int| 0 <= j < ib.len() && ib[j] == x;
            assert(has_id(b, x));
            assert(has_id(a, x));
            let i = choose|i: int| 0 <= i < a.len() && a[i].id@ == x;
            assert(ia[i] == x);
        }
    }
    assert(ia.to_set() =~= ib.to_set());
    assert forall|i: int, j: int| 0 <= i < a.len() && 0 <= j < b.len() && a[i].id@ == b[j].id@
        implies same_commit(#[trigger] a[i], #[trigger] b[j]) by {
        assert(from_walk(a[i], refs, walked));
        assert(from_walk(b[j], refs, walked));
        let ka = choose|k: int| first_of_id(walked, k) && node_of(a[i], walked[k], refs);
        let kb = choose|k: int| first_of_id(walked, k) && node_of(b[j], walked[k], refs);
        if ka < kb {
            assert(walked[ka].id@ != walked[kb].id@);
        } else if kb < ka {
            assert(walked[kb].id@ != walked[ka].id@);
        }
        assert(ka == kb);
        let id = walked[ka].id@;
        assert forall|n: Seq<char>| lists_name(a[i].branches@, n) implies lists_name(b[j].branches@, n) by {
            let x = choose|x: int| 0 <= x < a[i].branches@.len() && a[i].branches@[x]@ == n;
            assert(points_at(refs, id, a[i].branches@[x]@));
        }
        assert forall|n: Seq<char>| lists_name(b[j].branches@, n) implies lists_name(a[i].branches@, n) by {
            let y = choose|y: int| 0 <= y < b[j].branches@.len() && b[j].branches@[y]@ == n;
            assert(points_at(refs, id, b[j].branches@[y]@));
        }
    }
}

/// No node of one graph of an input can come later in time than the node at the same place of
/// another graph of that input.
proof fn lemma_not_later_at(
    refs: Seq<(String, String)>,
    walked: Seq<CommitInfo>,
    a: Seq<CommitGraphNode>,
    b: Seq<CommitGraphNode>,
    k: int,
)
    requires
        is_graph_of(a, refs, walked),
        is_graph_of(b, refs, walked),
        0 <= k < a.len(),
        k < b.len(),
    ensures
        a[k].time <= b[k].time,
{
    broadcast use vstd::seq_lib::seq_to_set_is_finite;
    if a[k].time > b[k].time {
        lemma_graph_determined(refs, walked, a, b);
        let sa = a.subrange(0, k + 1).map_values(|n: CommitGraphNode| n.id@);
        let sb = b.subrange(0, k).map_values(|n: CommitGraphNode| n.id@);
        assert(sa.no_duplicates()) by {
            assert forall|i: int, j: int| 0 <= i < sa.len() && 0 <= j < sa.len() && i != j implies sa[i] != sa[j] by {
                if i < j { assert(a[i].id@ != a[j].id@); } else { assert(a[j].id@ != a[i].id@); }
            }
        }
        sa.unique_seq_to_set();
        sb.lemma_cardinality_of_set();
        assert forall|x: Seq<char>| sa.to_set().contains(x) implies sb.to_set().contains(x) by {
            let m = choose|m: int| 0 <= m < sa.len() && sa[m] == x;
            assert(a[m].id@ == x);
            assert(has_id(a, x));
            assert(has_id(b, x));
            let p = choose|p: int| 0 <= p < b.len() && b[p].id@ == x;
            assert(same_commit(a[m], b[p]));
            if m < k {
                assert(a[m].time >= a[k].time);
            }
            if p > k {
                assert(b[k].time >= b[p].time);
            }
            assert(p < k);
            assert(sb[p] == x);
        }
        vstd::set_lib::lemma_len_subset(sa.to_set(), sb.to_set());
        assert(sa.len() == k + 1 && sb.len() == k);
    }
}

/// Two graphs of the same branch tips and the same walk list their commits with the same times
/// in the same places: they differ in order only among commits of equal time.
pub proof fn lemma_graph_times_determined(
    refs: Seq<(String, String)>,
    walked: Seq<CommitInfo>,
    a: Seq<CommitGraphNode>,
    b: Seq<CommitGraphNode>,
)
    requires
        is_graph_of(a, refs, walked),
        is_graph_of(b, refs, walked),
    ensures
        a.len() == b.len(),
        forall|i: int| 0 <= i < a.len() ==> (#[trigger] a[i]).time == b[i].time,
{
    lemma_graph_determined(refs, walked, a, b);
    assert forall|i: int| 0 <= i < a.len() implies (#[trigger] a[i]).time == b[i].time by {
        lemma_not_later_at(refs, walked, a, b, i);
        lemma_not_later_at(refs, walked, b, a, i);
    }
}

} // verus!
