//! The derivation graph: nodes, and the single-use edges between them.
//!
//! For `n` factors the graph has `5 + 3n` nodes and `7 + 4n` edges. Edges
//! are numbered; a node names the edges it reads and writes. The nodes
//! stand in an order in which every edge is written before it is read.

use vstd::prelude::*;
use crate::factor::{kinds_of, Factor};

verus! {

/// Edge from the first nonce to its copier.
pub const PRE_NONCE: usize = 0;

/// Edge from the second nonce to its copier.
pub const POST_NONCE: usize = 1;

/// Edge that feeds the first nonce into the main chain.
pub const PRE_INPUT: usize = 2;

/// Edge that feeds the second nonce into the seed of the fold chain.
pub const POST_INPUT: usize = 3;

/// Edge on which the first commitment leaves the graph.
pub const PRE: usize = 4;

/// Edge on which the second commitment leaves the graph.
pub const POST: usize = 5;

/// One node of the graph, with the edges it reads and writes.
#[derive(Clone, Copy, Debug, PartialEq, Eq)]
pub enum Task {
    /// Emits the commitment nonce number `seed` (0 or 1).
    Nonce { seed: usize, nonce: usize },
    /// Hands its input on twice.
    Copier { input: usize, output1: usize, output2: usize },
    /// Hashes `pwd` under `salt`.
    Hasher { pwd: usize, salt: usize, res: usize },
    /// Hashes the password of factor `pwd` under the chain block `prev`.
    PasswordFactor { pwd: usize, prev: usize, res: usize },
    /// Lets the authenticator of factor `dev` answer to the chain block
    /// `prev`, and hashes the answer.
    FidoFactor { dev: usize, prev: usize, res: usize },
}

impl Task {
    /// Whether this node reads edge `e`.
    pub open spec fn reads(self, e: int) -> bool {
        match self {
            Task::Nonce { .. } => false,
            Task::Copier { input, .. } => e == input,
            Task::Hasher { pwd, salt, .. } => e == pwd || e == salt,
            Task::PasswordFactor { prev, .. } => e == prev,
            Task::FidoFactor { prev, .. } => e == prev,
        }
    }

    /// Whether this node writes edge `e`.
    pub open spec fn writes(self, e: int) -> bool {
        match self {
            Task::Nonce { nonce, .. } => e == nonce,
            Task::Copier { output1, output2, .. } => e == output1 || e == output2,
            Task::Hasher { res, .. } => e == res,
            Task::PasswordFactor { res, .. } => e == res,
            Task::FidoFactor { res, .. } => e == res,
        }
    }

    /// Whether the factor that this node names, if it names one, exists and
    /// is of the node's kind.
    pub open spec fn fits(self, kinds: Seq<bool>) -> bool {
        match self {
            Task::Nonce { seed, .. } => seed < 2,
            Task::PasswordFactor { pwd, .. } => pwd < kinds.len() && !kinds[pwd as int],
            Task::FidoFactor { dev, .. } => dev < kinds.len() && kinds[dev as int],
            _ => true,
        }
    }
}

/// Number of nodes for `n` factors.
pub open spec fn plan_len(n: int) -> int {
    5 + 3 * n
}

/// Number of edges for `n` factors.
pub open spec fn plan_edges(n: int) -> int {
    7 + 4 * n
}

/// Edge that carries the running block before factor `i`; for `i == n`, the
/// block after the last factor.
pub open spec fn running_edge(i: int) -> int {
    if i == 0 {
        PRE_INPUT as int
    } else {
        5 + 3 * i
    }
}

/// Edge from the copier before factor `i` to the factor.
pub open spec fn factor_edge(i: int) -> int {
    6 + 3 * i
}

/// Edge from the copier before factor `i` to the fold chain.
pub open spec fn tap_edge(i: int) -> int {
    7 + 3 * i
}

/// Edge that carries the fold chain's accumulator after `j` steps.
pub open spec fn accumulator_edge(n: int, j: int) -> int {
    6 + 3 * n + j
}

/// The node at place `k` of the order, for factors of the given kinds.
pub open spec fn planned_task(kinds: Seq<bool>, k: int) -> Task {
    let n = kinds.len() as int;
    if k == 0 {
        Task::Nonce { seed: 0, nonce: PRE_NONCE }
    } else if k == 1 {
        Task::Nonce { seed: 1, nonce: POST_NONCE }
    } else if k == 2 {
        Task::Copier { input: PRE_NONCE, output1: PRE_INPUT, output2: PRE }
    } else if k == 3 {
        Task::Copier { input: POST_NONCE, output1: POST_INPUT, output2: POST }
    } else if k < 4 + 2 * n {
        let i = (k - 4) / 2;
        if (k - 4) % 2 == 0 {
            Task::Copier {
                input: running_edge(i) as usize,
                output1: factor_edge(i) as usize,
                output2: tap_edge(i) as usize,
            }
        } else if kinds[i] {
            Task::FidoFactor {
                dev: i as usize,
                prev: factor_edge(i) as usize,
                res: running_edge(i + 1) as usize,
            }
        } else {
            Task::PasswordFactor {
                pwd: i as usize,
                prev: factor_edge(i) as usize,
                res: running_edge(i + 1) as usize,
            }
        }
    } else if k == 4 + 2 * n {
        Task::Hasher {
            pwd: POST_INPUT,
            salt: running_edge(n) as usize,
            res: accumulator_edge(n, 0) as usize,
        }
    } else {
        let j = k - 5 - 2 * n;
        Task::Hasher {
            pwd: tap_edge(n - 1 - j) as usize,
            salt: accumulator_edge(n, j) as usize,
            res: accumulator_edge(n, j + 1) as usize,
        }
    }
}

/// The place of the node that writes edge `e`.
pub open spec fn planned_producer(n: int, e: int) -> int {
    if e == PRE_NONCE {
        0
    } else if e == POST_NONCE {
        1
    } else if e == PRE_INPUT || e == PRE {
        2
    } else if e == POST_INPUT || e == POST {
        3
    } else if e < 6 + 3 * n {
        let i = (e - 6) / 3;
        if (e - 6) % 3 == 2 {
            5 + 2 * i
        } else {
            4 + 2 * i
        }
    } else {
        4 + 2 * n + (e - 6 - 3 * n)
    }
}

/// The place of the node that reads edge `e`; the number of nodes for an
/// edge that leaves the graph.
pub open spec fn planned_consumer(n: int, e: int) -> int {
    if e == PRE_NONCE {
        2
    } else if e == POST_NONCE {
        3
    } else if e == PRE_INPUT {
        4
    } else if e == POST_INPUT {
        4 + 2 * n
    } else if e == PRE || e == POST {
        plan_len(n)
    } else if e < 6 + 3 * n {
        let i = (e - 6) / 3;
        let r = (e - 6) % 3;
        if r == 0 {
            5 + 2 * i
        } else if r == 1 {
            4 + 3 * n - i
        } else {
            6 + 2 * i
        }
    } else {
        5 + 2 * n + (e - 6 - 3 * n)
    }
}

/// The nodes of a derivation in running order, and for each edge the node
/// that writes it and the node that reads it.
pub struct Graph {
    /// The nodes, in an order in which each can run after those before it.
    pub tasks: Vec<Task>,
    /// For each edge, the place of the node that writes it.
    pub producer: Vec<usize>,
    /// For each edge, the place of the node that reads it; the number of
    /// nodes for the three edges that leave the graph.
    pub consumer: Vec<usize>,
    /// Edge of the first commitment.
    pub pre: usize,
    /// Edge of the second commitment.
    pub post: usize,
    /// Edge of the derived hash.
    pub result: usize,
}

impl Graph {
    /// Number of edges.
    pub open spec fn edges(self) -> int {
        self.producer@.len() as int
    }

    /// Every edge is written by exactly one node and read by exactly one
    /// later node, but for the three that leave the graph, which nothing in
    /// it reads.
    pub open spec fn wf(self) -> bool {
        let t = self.tasks@;
        &&& self.consumer@.len() == self.edges()
        &&& self.pre < self.edges() && self.post < self.edges() && self.result < self.edges()
        &&& forall|e: int|
            0 <= e < self.edges() ==> self.producer@[e] < t.len() && (#[trigger] t[self.producer@[e] as int]).writes(e)
        &&& forall|k: int, e: int|
            0 <= k < t.len() && #[trigger] t[k].writes(e) ==> 0 <= e < self.edges()
                && self.producer@[e] == k
        &&& forall|k: int, e: int|
            0 <= k < t.len() && #[trigger] t[k].reads(e) ==> 0 <= e < self.edges()
                && self.producer@[e] < k && self.consumer@[e] == k
        &&& forall|e: int|
            0 <= e < self.edges() && #[trigger] self.consumer@[e] < t.len() ==> t[self.consumer@[e] as int].reads(e)
        &&& forall|e: int|
            0 <= e < self.edges() ==> (#[trigger] self.consumer@[e] >= t.len() <==> e == self.pre || e
                == self.post || e == self.result)
    }

    /// Every node that names a factor names one of its own kind.
    pub open spec fn fits(self, kinds: Seq<bool>) -> bool {
        forall|k: int| 0 <= k < self.tasks@.len() ==> (#[trigger] self.tasks@[k]).fits(kinds)
    }

    /// The graph is the one that the plan gives for factors of these kinds.
    pub open spec fn follows_plan(self, kinds: Seq<bool>) -> bool {
        let n = kinds.len() as int;
        &&& self.tasks@ =~= Seq::new(plan_len(n) as nat, |k: int| planned_task(kinds, k))
        &&& self.producer@.len() == plan_edges(n)
        &&& self.consumer@.len() == plan_edges(n)
        &&& forall|e: int|
            0 <= e < plan_edges(n) ==> #[trigger] self.producer@[e] == planned_producer(n, e)
        &&& forall|e: int|
            0 <= e < plan_edges(n) ==> #[trigger] self.consumer@[e] == planned_consumer(n, e)
        &&& self.pre == PRE
        &&& self.post == POST
        &&& self.result == accumulator_edge(n, n)
    }
}

/// Whether the edges of a graph of `n` factors can be numbered on this
/// machine.
pub fn plan_edges_fit(n: usize) -> (fit: bool)
    ensures
        fit == (plan_edges(n as int) <= usize::MAX),
{
    n <= (usize::MAX - 7) / 4
}

/// The place of the node that writes edge `e` in the graph of `n` factors.
pub fn producer_of(n: usize, e: usize) -> (k: usize)
    requires
        plan_edges(n as int) <= usize::MAX,
        e < plan_edges(n as int),
    ensures
        k == planned_producer(n as int, e as int),
        k < plan_len(n as int),
{
    if e == PRE_NONCE {
        0
    } else if e == POST_NONCE {
        1
    } else if e == PRE_INPUT || e == PRE {
        2
    } else if e == POST_INPUT || e == POST {
        3
    } else if e < 6 + 3 * n {
        let i: usize = (e - 6) / 3;
        if (e - 6) % 3 == 2 {
            5 + 2 * i
        } else {
            4 + 2 * i
        }
    } else {
        4 + 2 * n + (e - 6 - 3 * n)
    }
}

/// The place of the node that reads edge `e` in the graph of `n` factors;
/// the number of nodes for an edge that leaves the graph.
pub fn consumer_of(n: usize, e: usize) -> (k: usize)
    requires
        plan_edges(n as int) <= usize::MAX,
        e < plan_edges(n as int),
    ensures
        k == planned_consumer(n as int, e as int),
        k <= plan_len(n as int),
{
    if e == PRE_NONCE {
        2
    } else if e == POST_NONCE {
        3
    } else if e == PRE_INPUT {
        4
    } else if e == POST_INPUT {
        4 + 2 * n
    } else if e == PRE || e == POST {
        5 + 3 * n
    } else if e < 6 + 3 * n {
        let i: usize = (e - 6) / 3;
        let r: usize = (e - 6) % 3;
        if r == 0 {
            5 + 2 * i
        } else if r == 1 {
            4 + 3 * n - i
        } else {
            6 + 2 * i
        }
    } else {
        5 + 2 * n + (e - 6 - 3 * n)
    }
}

impl Graph {
    /// Lays out the graph for a list of factors: two nonces and their
    /// copiers, a copier and a factor node for each factor in order, the
    /// hasher that seeds the fold chain, and one hasher for each tap, last
    /// tap first.
    pub fn build(factors: &Vec<Factor>) -> (g: Graph)
        requires
            plan_edges(factors@.len() as int) <= usize::MAX,
        ensures
            g.follows_plan(kinds_of(factors@)),
            g.wf(),
            g.fits(kinds_of(factors@)),
    {
        let n: usize = factors.len();
        let ghost kinds = kinds_of(factors@);
        let mut tasks: Vec<Task> = Vec::new();
        tasks.push(Task::Nonce { seed: 0, nonce: PRE_NONCE });
        tasks.push(Task::Nonce { seed: 1, nonce: POST_NONCE });
        tasks.push(Task::Copier { input: PRE_NONCE, output1: PRE_INPUT, output2: PRE });
        tasks.push(Task::Copier { input: POST_NONCE, output1: POST_INPUT, output2: POST });
        let mut last: usize = PRE_INPUT;
        let mut i: usize = 0;
        while i < n
            invariant
                n == factors@.len(),
                kinds == kinds_of(factors@),
                plan_edges(n as int) <= usize::MAX,
                i <= n,
                tasks@.len() == 4 + 2 * i,
                last == running_edge(i as int),
                forall|k: int| 0 <= k < tasks@.len() ==> tasks@[k] == planned_task(kinds, k),
            decreases n - i,
        {
            let to_factor: usize = 6 + 3 * i;
            let tap: usize = 7 + 3 * i;
            let res: usize = 8 + 3 * i;
            tasks.push(Task::Copier { input: last, output1: to_factor, output2: tap });
            if factors[i].is_fido() {
                tasks.push(Task::FidoFactor { dev: i, prev: to_factor, res });
            } else {
                tasks.push(Task::PasswordFactor { pwd: i, prev: to_factor, res });
            }
            last = res;
            i += 1;
        }
        let seed: usize = 6 + 3 * n;
        tasks.push(Task::Hasher { pwd: POST_INPUT, salt: last, res: seed });
        let mut acc: usize = seed;
        let mut j: usize = 0;
        while j < n
            invariant
                n == factors@.len(),
                kinds == kinds_of(factors@),
                plan_edges(n as int) <= usize::MAX,
                j <= n,
                tasks@.len() == 5 + 2 * n + j,
                acc == accumulator_edge(n as int, j as int),
                forall|k: int| 0 <= k < tasks@.len() ==> tasks@[k] == planned_task(kinds, k),
            decreases n - j,
        {
            let tap: usize = 7 + 3 * (n - 1 - j);
            tasks.push(Task::Hasher { pwd: tap, salt: acc, res: acc + 1 });
            acc += 1;
            j += 1;
        }
        let edges: usize = 7 + 4 * n;
        let mut producer: Vec<usize> = Vec::new();
        let mut consumer: Vec<usize> = Vec::new();
        let mut e: usize = 0;
        while e < edges
            invariant
                plan_edges(n as int) <= usize::MAX,
                edges == plan_edges(n as int),
                e <= edges,
                producer@.len() == e,
                consumer@.len() == e,
                forall|d: int| 0 <= d < e ==> producer@[d] == planned_producer(n as int, d),
                forall|d: int| 0 <= d < e ==> consumer@[d] == planned_consumer(n as int, d),
            decreases edges - e,
        {
            producer.push(producer_of(n, e));
            consumer.push(consumer_of(n, e));
            e += 1;
        }
        let g = Graph { tasks, producer, consumer, pre: PRE, post: POST, result: acc };
        proof {
            lemma_plan_is_sound(g, kinds);
        }
        g
    }
}

/// A graph that follows the plan is well formed, and its nodes fit the
/// factors.
pub proof fn lemma_plan_is_sound(g: Graph, kinds: Seq<bool>)
    requires
        g.follows_plan(kinds),
    ensures
        g.wf(),
        g.fits(kinds),
{
    let n = kinds.len() as int;
    let t = g.tasks@;
    assert forall|k: int| 0 <= k < t.len() implies (#[trigger] t[k]).fits(kinds) by {
        assert(t[k] == planned_task(kinds, k));
    }
    assert forall|e: int| 0 <= e < g.edges() implies g.producer@[e] < t.len() && (#[trigger] t[g.producer@[e] as int]).writes(e) by {
        let p = planned_producer(n, e);
        assert(g.producer@[e] == p);
        assert(0 <= p < plan_len(n));
        assert(t[p] == planned_task(kinds, p));
    }
    assert forall|k: int, e: int| 0 <= k < t.len() && #[trigger] t[k].writes(e) implies 0 <= e
        < g.edges() && g.producer@[e] == k by {
        assert(t[k] == planned_task(kinds, k));
        assert(0 <= e < plan_edges(n));
        assert(g.producer@[e] == planned_producer(n, e));
    }
    assert forall|k: int, e: int| 0 <= k < t.len() && #[trigger] t[k].reads(e) implies 0 <= e
        < g.edges() && g.producer@[e] < k && g.consumer@[e] == k by {
        assert(t[k] == planned_task(kinds, k));
        assert(0 <= e < plan_edges(n));
        assert(g.producer@[e] == planned_producer(n, e));
        assert(g.consumer@[e] == planned_consumer(n, e));
    }
    assert forall|e: int| 0 <= e < g.edges() && #[trigger] g.consumer@[e] < t.len() implies t[g.consumer@[e] as int].reads(e) by {
        let c = planned_consumer(n, e);
        assert(g.consumer@[e] == c);
        assert(t[c] == planned_task(kinds, c));
    }
    assert forall|e: int| 0 <= e < g.edges() implies (#[trigger] g.consumer@[e] >= t.len() <==> e
        == g.pre || e == g.post || e == g.result) by {
        assert(g.consumer@[e] == planned_consumer(n, e));
    }
}

} // verus!
