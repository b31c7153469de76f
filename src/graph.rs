//! The graph's topology: nodes with their channel configurations, and the
//! connections between them, which `connect` checks before it adds them.
use vstd::prelude::*;
use crate::node::ChannelConfig;

verus! {

/// A node of the graph, by its index; identifiers are never reused.
#[derive(Clone, Copy, PartialEq, Eq, Structural, Debug)]
pub struct NodeID {
    pub idx: usize,
}

/// A connection from an output channel of one node to an input channel of
/// another.
#[derive(Clone, Copy, PartialEq, Eq, Structural, Debug)]
pub struct Edge {
    pub src: usize,
    pub src_channel: u32,
    pub dst: usize,
    pub dst_channel: u32,
}

/// Why a connection was refused.
#[derive(Clone, Copy, PartialEq, Eq, Structural, Debug)]
pub enum ConnectError {
    NodeNotFound(NodeID),
    OutChannelOutOfRange { node: NodeID, channel: u32 },
    InChannelOutOfRange { node: NodeID, channel: u32 },
    CycleDetected,
}

/// The nodes of a graph and the connections between them.
pub struct AudioGraph {
    nodes: Vec<ChannelConfig>,
    edges: Vec<Edge>,
}

/// The nodes in `s`, and the targets of those among the first `j` edges whose
/// source is in `s`.
pub open spec fn step(edges: Seq<Edge>, s: Set<int>, j: int) -> Set<int>
    decreases j,
{
    if j <= 0 {
        s
    } else {
        let t = step(edges, s, j - 1);
        if s.contains(edges[j - 1].src as int) {
            t.insert(edges[j - 1].dst as int)
        } else {
            t
        }
    }
}

/// The nodes reachable from `start` along at most `k` edges.
pub open spec fn reach(edges: Seq<Edge>, start: int, k: nat) -> Set<int>
    decreases k,
{
    if k == 0 {
        set![start]
    } else {
        step(edges, reach(edges, start, (k - 1) as nat), edges.len() as int)
    }
}

/// Whether an edge from `src` to `dst` closes a cycle in a graph of `n`
/// nodes: `src` is `dst`, or a path leads from `dst` back to `src` (a path
/// without repeats has fewer than `n` edges).
pub open spec fn closes_cycle(edges: Seq<Edge>, n: nat, src: int, dst: int) -> bool {
    src == dst || reach(edges, dst, n).contains(src)
}

/// Whether the channel pair `p` is out of range for the given source and
/// target configurations.
pub open spec fn port_bad(s: ChannelConfig, d: ChannelConfig, p: (u32, u32)) -> bool {
    p.0 >= s.num_outputs || p.1 >= d.num_inputs
}

/// The error for a channel pair that is out of range: the source's channel is
/// checked first.
pub open spec fn port_error(src: NodeID, s: ChannelConfig, dst: NodeID, p: (u32, u32)) -> ConnectError {
    if p.0 >= s.num_outputs {
        ConnectError::OutChannelOutOfRange { node: src, channel: p.0 }
    } else {
        ConnectError::InChannelOutOfRange { node: dst, channel: p.1 }
    }
}

/// The edges that connecting `src` to `dst` over the channel pairs `ports`
/// adds, in the order of the pairs.
pub open spec fn new_edges(src: NodeID, dst: NodeID, ports: Seq<(u32, u32)>) -> Seq<Edge> {
    ports.map_values(
        |p: (u32, u32)| Edge { src: src.idx, src_channel: p.0, dst: dst.idx, dst_channel: p.1 },
    )
}

impl AudioGraph {
    pub closed spec fn spec_nodes(&self) -> Seq<ChannelConfig> {
        self.nodes@
    }

    pub closed spec fn spec_edges(&self) -> Seq<Edge> {
        self.edges@
    }

    /// Every connection joins two nodes of the graph.
    pub open spec fn wf(&self) -> bool {
        forall|k: int|
            0 <= k < self.spec_edges().len() ==> (#[trigger] self.spec_edges()[k]).src
                < self.spec_nodes().len() && self.spec_edges()[k].dst < self.spec_nodes().len()
    }

    /// A graph that holds only its output node, with `num_outputs` input
    /// channels and no output channels.
    pub fn new(num_outputs: u32) -> (r: AudioGraph)
        ensures
            r.wf(),
            r.spec_nodes() == seq![ChannelConfig { num_inputs: num_outputs, num_outputs: 0 }],
            r.spec_edges().len() == 0,
    {
        let mut nodes: Vec<ChannelConfig> = Vec::new();
        nodes.push(ChannelConfig { num_inputs: num_outputs, num_outputs: 0 });
        AudioGraph { nodes, edges: Vec::new() }
    }

    /// The graph's output node.
    pub fn graph_out_node_id(&self) -> (r: NodeID)
        ensures
            r.idx == 0,
    {
        NodeID { idx: 0 }
    }

    pub fn num_nodes(&self) -> (r: usize)
        ensures
            r == self.spec_nodes().len(),
    {
        self.nodes.len()
    }

    pub fn num_edges(&self) -> (r: usize)
        ensures
            r == self.spec_edges().len(),
    {
        self.edges.len()
    }

    /// The connection at position `k`, in the order they were made.
    pub fn edge(&self, k: usize) -> (r: Edge)
        requires
            k < self.spec_edges().len(),
        ensures
            r == self.spec_edges()[k as int],
    {
        self.edges[k]
    }

    /// The channel configuration of `id`, if the graph has that node.
    pub fn node_config(&self, id: NodeID) -> (r: Option<ChannelConfig>)
        ensures
            id.idx < self.spec_nodes().len() ==> r == Some(self.spec_nodes()[id.idx as int]),
            id.idx >= self.spec_nodes().len() ==> r is None,
    {
        if id.idx < self.nodes.len() {
            Some(self.nodes[id.idx])
        } else {
            None
        }
    }

    /// Adds a node with the channel configuration `config`; its identifier is
    /// the next unused one.
    pub fn add_node(&mut self, config: ChannelConfig) -> (r: NodeID)
        requires
            old(self).wf(),
            old(self).spec_nodes().len() < usize::MAX,
        ensures
            final(self).wf(),
            r.idx == old(self).spec_nodes().len(),
            final(self).spec_nodes() == old(self).spec_nodes().push(config),
            final(self).spec_edges() == old(self).spec_edges(),
    {
        let id = NodeID { idx: self.nodes.len() };
        self.nodes.push(config);
        assert(forall|k: int|
            0 <= k < self.spec_edges().len() ==> #[trigger] self.spec_edges()[k] == old(
                self,
            ).spec_edges()[k]);
        id
    }

    /// Whether `to` can be reached from `from` along at most as many edges as
    /// the graph has nodes.
    fn reaches(&self, from: usize, to: usize) -> (r: bool)
        requires
            self.wf(),
            from < self.spec_nodes().len(),
            to < self.spec_nodes().len(),
        ensures
            r == reach(self.spec_edges(), from as int, self.spec_nodes().len()).contains(
                to as int,
            ),
    {
        let n = self.nodes.len();
        let ghost edges = self.edges@;
        let mut marks: Vec<bool> = Vec::new();
        let mut i: usize = 0;
        while i < n
            invariant
                i <= n,
                marks@.len() == i,
                forall|x: int| 0 <= x < i ==> marks@[x] == (x == from as int),
            decreases n - i,
        {
            marks.push(i == from);
            i = i + 1;
        }
        assert(forall|x: int| 0 <= x < n ==> marks@[x] == reach(edges, from as int, 0).contains(x));
        let mut round: usize = 0;
        while round < n
            invariant
                n == self.spec_nodes().len(),
                edges == self.spec_edges(),
                self.wf(),
                from < n,
                round <= n,
                marks@.len() == n,
                forall|x: int|
                    0 <= x < n ==> marks@[x] == reach(edges, from as int, round as nat).contains(x),
                forall|x: int| reach(edges, from as int, round as nat).contains(x) ==> 0 <= x < n,
            decreases n - round,
        {
            let ghost s = reach(edges, from as int, round as nat);
            let mut next: Vec<bool> = Vec::new();
            let mut c: usize = 0;
            while c < n
                invariant
                    c <= n,
                    marks@.len() == n,
                    next@.len() == c,
                    forall|x: int| 0 <= x < c ==> next@[x] == marks@[x],
                decreases n - c,
            {
                next.push(marks[c]);
                c = c + 1;
            }
            let mut j: usize = 0;
            while j < self.edges.len()
                invariant
                    n == self.spec_nodes().len(),
                    edges == self.spec_edges(),
                    self.wf(),
                    j <= edges.len(),
                    marks@.len() == n,
                    next@.len() == n,
                    forall|x: int| 0 <= x < n ==> marks@[x] == s.contains(x),
                    forall|x: int| s.contains(x) ==> 0 <= x < n,
                    forall|x: int| 0 <= x < n ==> next@[x] == step(edges, s, j as int).contains(x),
                    forall|x: int| step(edges, s, j as int).contains(x) ==> 0 <= x < n,
                decreases edges.len() - j,
            {
                let e = self.edges[j];
                assert(e == edges[j as int]);
                assert(e.src < n && e.dst < n);
                assert(step(edges, s, j + 1) == if s.contains(e.src as int) {
                    step(edges, s, j as int).insert(e.dst as int)
                } else {
                    step(edges, s, j as int)
                });
                if marks[e.src] {
                    next.set(e.dst, true);
                }
                j = j + 1;
            }
            marks = next;
            round = round + 1;
        }
        marks[to]
    }

    /// Connects output channel `p.0` of `src` to input channel `p.1` of `dst`
    /// for each pair `p` of `ports`. It fails, changing nothing, when a node
    /// is unknown (`src` checked first), when a channel lies outside its
    /// node's configuration (the first such pair, source channel first), or,
    /// unless `allow_feedback`, when the connection would close a cycle.
    pub fn connect(&mut self, src: NodeID, dst: NodeID, ports: &Vec<(u32, u32)>, allow_feedback: bool) -> (r: Result<(), ConnectError>)
        requires
            old(self).wf(),
            old(self).spec_edges().len() + ports@.len() <= usize::MAX,
        ensures
            final(self).wf(),
            final(self).spec_nodes() == old(self).spec_nodes(),
            ({
                let nodes = old(self).spec_nodes();
                let n = nodes.len();
                &&& src.idx >= n ==> r == Err::<(), ConnectError>(ConnectError::NodeNotFound(src))
                &&& src.idx < n && dst.idx >= n ==> r == Err::<(), ConnectError>(
                    ConnectError::NodeNotFound(dst),
                )
                &&& src.idx < n && dst.idx < n ==> {
                    let s = nodes[src.idx as int];
                    let d = nodes[dst.idx as int];
                    &&& forall|k: int|
                        0 <= k < ports@.len() && port_bad(s, d, ports@[k]) && (forall|l: int|
                            0 <= l < k ==> !port_bad(s, d, #[trigger] ports@[l])) ==> r == Err::<
                            (),
                            ConnectError,
                        >(port_error(src, s, dst, #[trigger] ports@[k]))
                    &&& (forall|k: int| 0 <= k < ports@.len() ==> !port_bad(s, d, #[trigger] ports@[k]))
                        ==> {
                        &&& !allow_feedback && closes_cycle(
                            old(self).spec_edges(),
                            n,
                            src.idx as int,
                            dst.idx as int,
                        ) ==> r == Err::<(), ConnectError>(ConnectError::CycleDetected)
                        &&& (allow_feedback || !closes_cycle(
                            old(self).spec_edges(),
                            n,
                            src.idx as int,
                            dst.idx as int,
                        )) ==> r is Ok
                    }
                }
            }),
            r is Ok ==> final(self).spec_edges() == old(self).spec_edges() + new_edges(src, dst, ports@),
            r is Err ==> final(self).spec_edges() == old(self).spec_edges(),
    {
        let n = self.nodes.len();
        if src.idx >= n {
            return Err(ConnectError::NodeNotFound(src));
        }
        if dst.idx >= n {
            return Err(ConnectError::NodeNotFound(dst));
        }
        let s = self.nodes[src.idx];
        let d = self.nodes[dst.idx];
        let mut k: usize = 0;
        while k < ports.len()
            invariant
                k <= ports@.len(),
                old(self).wf(),
                self.spec_nodes() == old(self).spec_nodes(),
                self.spec_edges() == old(self).spec_edges(),
                n == self.spec_nodes().len(),
                src.idx < n,
                dst.idx < n,
                s == self.spec_nodes()[src.idx as int],
                d == self.spec_nodes()[dst.idx as int],
                forall|l: int| 0 <= l < k ==> !port_bad(s, d, #[trigger] ports@[l]),
            decreases ports@.len() - k,
        {
            let p = ports[k];
            if p.0 >= s.num_outputs {
                return Err(ConnectError::OutChannelOutOfRange { node: src, channel: p.0 });
            }
            if p.1 >= d.num_inputs {
                return Err(ConnectError::InChannelOutOfRange { node: dst, channel: p.1 });
            }
            k = k + 1;
        }
        if !allow_feedback {
            if src.idx == dst.idx || self.reaches(dst.idx, src.idx) {
                return Err(ConnectError::CycleDetected);
            }
        }
        let ghost old_edges = self.edges@;
        let mut k: usize = 0;
        while k < ports.len()
            invariant
                k <= ports@.len(),
                n == self.spec_nodes().len(),
                src.idx < n,
                dst.idx < n,
                self.spec_nodes() == old(self).spec_nodes(),
                old_edges.len() + ports@.len() <= usize::MAX,
                self.spec_edges() == old_edges + new_edges(src, dst, ports@.subrange(0, k as int)),
                forall|x: int| 0 <= x < old_edges.len() ==> #[trigger] old_edges[x].src < n && old_edges[x].dst < n,
            decreases ports@.len() - k,
        {
            let p = ports[k];
            self.edges.push(Edge { src: src.idx, src_channel: p.0, dst: dst.idx, dst_channel: p.1 });
            proof {
                assert(new_edges(src, dst, ports@.subrange(0, k + 1)) =~= new_edges(
                    src,
                    dst,
                    ports@.subrange(0, k as int),
                ).push(Edge { src: src.idx, src_channel: p.0, dst: dst.idx, dst_channel: p.1 }));
            }
            k = k + 1;
        }
        assert(ports@.subrange(0, ports@.len() as int) =~= ports@);
        Ok(())
    }
}

} // verus!
