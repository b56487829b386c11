//! The alliance commands' verified cores: the invitation decision, the
//! name rule, and the planning of the alliance graph that the visualiser
//! renders. Only the final dot rendering calls out to petgraph; writing
//! the image is the host program's business.

use vstd::prelude::*;
use vstd::string::StringSliceAdditionalSpecFns;

verus! {

/// What the invite command decides before any message is sent.
#[derive(Clone, Copy, PartialEq, Eq, Structural, Debug)]
pub enum InviteDecision {
    /// The invited user has no account.
    MemberHasNoAccount,
    /// The invited user already belongs to an alliance.
    MemberAlreadyInAlliance,
    /// The inviter does not own the alliance.
    NotTheOwner,
    /// Everything checks out: put the confirmation prompt to the invitee.
    AskConfirmation,
}

/// The verified core of the invite command, in the order the checks are
/// made: account first, then membership, then ownership.
pub fn invite_decision(
    member_has_account: bool,
    member_in_alliance: bool,
    alliance_owner: i64,
    author: i64,
) -> (r: InviteDecision)
    ensures
        r == (if !member_has_account {
            InviteDecision::MemberHasNoAccount
        } else if member_in_alliance {
            InviteDecision::MemberAlreadyInAlliance
        } else if alliance_owner != author {
            InviteDecision::NotTheOwner
        } else {
            InviteDecision::AskConfirmation
        }),
{
    if !member_has_account {
        InviteDecision::MemberHasNoAccount
    } else if member_in_alliance {
        InviteDecision::MemberAlreadyInAlliance
    } else if alliance_owner != author {
        InviteDecision::NotTheOwner
    } else {
        InviteDecision::AskConfirmation
    }
}

/// An alliance name is accepted when it is at most 15 bytes long.
pub fn alliance_name_acceptable(name: &str) -> (r: bool)
    ensures
        r == (name.spec_bytes().len() <= 15),
{
    let bytes = name.as_bytes();
    bytes.len() <= 15
}

/// The number of graph nodes the first `i` member groups contribute: one
/// node per member plus one per character shown under that member.
pub open spec fn spec_offset(sizes: Seq<int>, i: int) -> int
    decreases i,
{
    if i <= 0 {
        0
    } else {
        spec_offset(sizes, i - 1) + 1 + sizes[i - 1]
    }
}

/// The edges member group `i` contributes: one from the member to each of
/// its characters, then, from the second member on, one chain edge from
/// the previous member.
pub open spec fn spec_group_edges(sizes: Seq<int>, i: int) -> Seq<(int, int)> {
    let m = spec_offset(sizes, i);
    Seq::new(sizes[i] as nat, |j: int| (m, m + j + 1)) + (if i > 0 {
        seq![(spec_offset(sizes, i - 1), m)]
    } else {
        Seq::<(int, int)>::empty()
    })
}

/// The edges of the first `i` member groups, in construction order.
pub open spec fn spec_edges_upto(sizes: Seq<int>, i: int) -> Seq<(int, int)>
    decreases i,
{
    if i <= 0 {
        Seq::empty()
    } else {
        spec_edges_upto(sizes, i - 1) + spec_group_edges(sizes, i - 1)
    }
}

/// The group sizes of the member groups: how many characters each shows.
pub open spec fn sizes_of(groups: Seq<(String, Vec<String>)>) -> Seq<int> {
    Seq::new(groups.len(), |i: int| groups[i].1@.len() as int)
}

/// Edge pairs widened to the integers, for stating contracts.
pub open spec fn edge_views(edges: Seq<(usize, usize)>) -> Seq<(int, int)> {
    Seq::new(edges.len(), |k: int| (edges[k].0 as int, edges[k].1 as int))
}

/// Offsets grow with the group index.
pub proof fn lemma_offset_monotone(sizes: Seq<int>, i: int, n: int)
    requires
        0 <= i <= n,
        forall|k: int| 0 <= k < sizes.len() ==> #[trigger] sizes[k] >= 0,
        n <= sizes.len(),
    ensures
        spec_offset(sizes, i) <= spec_offset(sizes, n),
    decreases n - i,
{
    if i < n {
        lemma_offset_monotone(sizes, i + 1, n);
    }
}

/// Offsets are never negative.
pub proof fn lemma_offset_nonneg(sizes: Seq<int>, i: int)
    requires
        forall|k: int| 0 <= k < sizes.len() ==> #[trigger] sizes[k] >= 0,
        i <= sizes.len(),
    ensures
        spec_offset(sizes, i) >= 0,
    decreases i,
{
    if i > 0 {
        lemma_offset_nonneg(sizes, i - 1);
    }
}

/// The planned graph: anonymised node labels and directed edges by node
/// index, exactly as the dot renderer will see them.
pub struct GraphPlan {
    pub nodes: Vec<String>,
    pub edges: Vec<(usize, usize)>,
}

/// Plans the alliance graph from the member groups (each member's label
/// and the names of its characters): nodes are laid out group by group,
/// member first, and the edges link each member to its characters and to
/// the previous member.
pub fn plan_alliance_graph(groups: &Vec<(String, Vec<String>)>) -> (r: GraphPlan)
    requires
        spec_offset(sizes_of(groups@), groups@.len() as int) <= usize::MAX,
    ensures
        r.nodes@.len() == spec_offset(sizes_of(groups@), groups@.len() as int),
        forall|i: int|
            0 <= i < groups@.len() ==> r.nodes@[spec_offset(sizes_of(groups@), i)]@ == (
            #[trigger] groups@[i]).0@,
        forall|i: int, j: int|
            0 <= i < groups@.len() && 0 <= j < groups@[i].1@.len()
                ==> r.nodes@[spec_offset(sizes_of(groups@), i) + j + 1]@ == (#[trigger] groups@[i].1@[j])@,
        edge_views(r.edges@) =~= spec_edges_upto(sizes_of(groups@), groups@.len() as int),
        forall|k: int|
            0 <= k < r.edges@.len() ==> (#[trigger] r.edges@[k]).0 < r.nodes@.len()
                && r.edges@[k].1 < r.nodes@.len(),
{
    let ghost szs = sizes_of(groups@);
    proof {
        assert(forall|k: int| 0 <= k < szs.len() ==> #[trigger] szs[k] >= 0);
    }
    let n = groups.len();
    let mut nodes: Vec<String> = Vec::new();
    let mut edges: Vec<(usize, usize)> = Vec::new();
    let mut prev_off: usize = 0;
    let mut off: usize = 0;
    let mut i: usize = 0;
    while i < n
        invariant
            n == groups@.len(),
            i <= n,
            szs == sizes_of(groups@),
            forall|k: int| 0 <= k < szs.len() ==> #[trigger] szs[k] >= 0,
            spec_offset(szs, n as int) <= usize::MAX,
            off == spec_offset(szs, i as int),
            i > 0 ==> prev_off == spec_offset(szs, i as int - 1),
            nodes@.len() == off,
            forall|k: int|
                0 <= k < i ==> nodes@[spec_offset(szs, k)]@ == (#[trigger] groups@[k]).0@,
            forall|k: int, j: int|
                0 <= k < i && 0 <= j < groups@[k].1@.len() ==> nodes@[spec_offset(
                    szs,
                    k,
                ) + j + 1]@ == (#[trigger] groups@[k].1@[j])@,
            edge_views(edges@) =~= spec_edges_upto(szs, i as int),
            forall|k: int|
                0 <= k < edges@.len() ==> (#[trigger] edges@[k]).0 < nodes@.len()
                    && edges@[k].1 < nodes@.len(),
        decreases n - i,
    {
        proof {
            lemma_offset_monotone(szs, i as int + 1, n as int);
            assert(spec_offset(szs, i as int + 1) == off + 1 + szs[i as int]);
            assert forall|k: int| 0 <= k < i implies spec_offset(szs, k) + 1 + szs[k]
                <= off by {
                assert(spec_offset(szs, k + 1) == spec_offset(szs, k) + 1 + szs[k]);
                lemma_offset_monotone(szs, k + 1, i as int);
            };
            assert forall|k: int| 0 <= k <= i implies spec_offset(szs, k) >= 0 by {
                lemma_offset_nonneg(szs, k);
            };
        }
        let (label, names) = &groups[i];
        nodes.push(label.clone());
        let m = names.len();
        let mut j: usize = 0;
        while j < m
            invariant
                n == groups@.len(),
                i < n,
                m == groups@[i as int].1@.len(),
                j <= m,
                szs == sizes_of(groups@),
                forall|k: int| 0 <= k < szs.len() ==> #[trigger] szs[k] >= 0,
                spec_offset(szs, n as int) <= usize::MAX,
                off == spec_offset(szs, i as int),
                off + 1 + m <= spec_offset(szs, n as int),
                forall|k: int| 0 <= k < i ==> (#[trigger] spec_offset(szs, k)) + 1 + szs[k] <= off,
                forall|k: int| 0 <= k <= i ==> (#[trigger] spec_offset(szs, k)) >= 0,
                names == &groups@[i as int].1,
                nodes@.len() == off + 1 + j,
                forall|k: int|
                    0 <= k < i ==> nodes@[spec_offset(szs, k)]@ == (#[trigger] groups@[k]).0@,
                forall|k: int, jj: int|
                    0 <= k < i && 0 <= jj < groups@[k].1@.len() ==> nodes@[spec_offset(
                        szs,
                        k,
                    ) + jj + 1]@ == (#[trigger] groups@[k].1@[jj])@,
                nodes@[off as int]@ == groups@[i as int].0@,
                forall|jj: int|
                    0 <= jj < j ==> nodes@[off + jj + 1]@ == groups@[i as int].1@[jj]@,
                edge_views(edges@) =~= spec_edges_upto(szs, i as int) + Seq::new(
                    j as nat,
                    |jj: int| (off as int, off + jj + 1),
                ),
                forall|k: int|
                    0 <= k < edges@.len() ==> (#[trigger] edges@[k]).0 < nodes@.len()
                        && edges@[k].1 < nodes@.len(),
            decreases m - j,
        {
            nodes.push(names[j].clone());
            let ghost e0 = edges@;
            edges.push((off, off + j + 1));
            proof {
                assert(edge_views(edges@) =~= edge_views(e0).push(
                    (off as int, off + j + 1),
                ));
                assert(Seq::new((j + 1) as nat, |jj: int| (off as int, off + jj + 1)) =~= Seq::new(
                    j as nat,
                    |jj: int| (off as int, off + jj + 1),
                ).push((off as int, off + j + 1)));
                assert(edge_views(edges@) =~= spec_edges_upto(szs, i as int) + Seq::new(
                    (j + 1) as nat,
                    |jj: int| (off as int, off + jj + 1),
                ));
            }
            j = j + 1;
        }
        let ghost e1 = edges@;
        if i > 0 {
            edges.push((prev_off, off));
            proof {
                assert(edge_views(edges@) =~= edge_views(e1).push((prev_off as int, off as int)));
            }
        }
        proof {
            assert(Seq::new(m as nat, |jj: int| (off as int, off + jj + 1)) =~= Seq::new(
                szs[i as int] as nat,
                |jj: int| (spec_offset(szs, i as int), spec_offset(szs, i as int) + jj + 1),
            ));
            assert(edge_views(edges@) =~= spec_edges_upto(szs, i as int) + spec_group_edges(
                szs,
                i as int,
            ));
            assert(spec_edges_upto(szs, i as int + 1) == spec_edges_upto(szs, i as int)
                + spec_group_edges(szs, i as int));
        }
        prev_off = off;
        off = off + 1 + m;
        i = i + 1;
    }
    GraphPlan { nodes, edges }
}

/// What petgraph's dot renderer prints for a given node and edge list: a
/// function of the two alone.
pub uninterp spec fn dot_notation(nodes: Seq<Seq<char>>, edges: Seq<(usize, usize)>) -> Seq<char>;

/// Relies on petgraph's Graph::add_node, Graph::add_edge and Dot with the
/// edges unlabelled: nodes and edges are emitted in insertion order, so
/// the notation depends on the node labels and edge list alone. add_node
/// and add_edge panic when their counts reach the index limit, hence the
/// two bounds.
#[verifier::external_body]
pub fn render_dot(nodes: &Vec<String>, edges: &Vec<(usize, usize)>) -> (r: String)
    requires
        nodes@.len() < 0xFFFF_FFFF,
        edges@.len() < 0xFFFF_FFFF,
        forall|k: int|
            0 <= k < edges@.len() ==> (#[trigger] edges@[k]).0 < nodes@.len() && edges@[k].1
                < nodes@.len(),
    ensures
        r@ == dot_notation(nodes@.map(|_i: int, s: String| s@), edges@),
{
    let mut graph = petgraph::Graph::<&str, &str>::new();
    let mut indices = Vec::new();
    for label in nodes.iter() {
        indices.push(graph.add_node(label.as_str()));
    }
    for (a, b) in edges.iter() {
        graph.add_edge(indices[*a], indices[*b], "");
    }
    let dot_config = [petgraph::dot::Config::EdgeNoLabel];
    petgraph::dot::Dot::with_config(&graph, &dot_config).to_string()
}

} // verus!
