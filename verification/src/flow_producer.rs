//! Producer of job flows (parent/child job trees).
use vstd::prelude::*;
use crate::connection::RedisConnection;
use crate::error::BullmqError;
use crate::text::{concat2, concat3};
use crate::types::JobOptions;

verus! {

/// Producer of job flows.
#[derive(Debug)]
pub struct FlowProducer {
    connection: RedisConnection,
    prefix: String,
}

/// Builder of a `FlowProducer`.
#[derive(Debug)]
pub struct FlowProducerBuilder {
    connection: Option<RedisConnection>,
    prefix: String,
}

/// A flow job: a job with the jobs it depends on.
#[derive(Debug)]
pub struct FlowJob<T> {
    pub name: String,
    pub queue_name: String,
    pub data: T,
    pub prefix: Option<String>,
    pub opts: Option<JobOptions>,
    pub children: Vec<FlowJob<T>>,
}

/// The plain content of one job of a flow, as the flow's pre-order lists
/// it: `parent` is the position of its parent in that order.
pub struct FlowNodeView {
    pub name: Seq<char>,
    pub queue_name: Seq<char>,
    pub prefix: Option<Seq<char>>,
    pub job_id: Option<Seq<char>>,
    pub has_children: bool,
    pub parent: Option<int>,
}

/// The custom id of a flow job, if its options set one.
pub open spec fn custom_id(opts: Option<JobOptions>) -> Option<Seq<char>> {
    match opts {
        Some(o) => match o.job_id {
            Some(id) => Some(id@),
            None => None,
        },
        None => None,
    }
}

/// The jobs of the flow `j` in pre-order (a parent before its children,
/// children in their order), `j` at position `base` with parent `parent`.
pub open spec fn flow_nodes<T>(j: FlowJob<T>, parent: Option<int>, base: int) -> Seq<FlowNodeView>
    decreases j, 1int,
{
    seq![FlowNodeView {
        name: j.name@,
        queue_name: j.queue_name@,
        prefix: match j.prefix {
            Some(p) => Some(p@),
            None => None,
        },
        job_id: custom_id(j.opts),
        has_children: j.children@.len() > 0,
        parent,
    }] + forest_nodes(j.children@, Some(base), base + 1)
}

/// The jobs of the flows `js` in pre-order, one after the other, starting
/// at position `base`, each with parent `parent`.
pub open spec fn forest_nodes<T>(js: Seq<FlowJob<T>>, parent: Option<int>, base: int) -> Seq<FlowNodeView>
    decreases js, 0int,
{
    if js.len() == 0 {
        Seq::empty()
    } else {
        let before = forest_nodes(js.drop_last(), parent, base);
        before + flow_nodes(js.last(), parent, base + before.len())
    }
}

/// One job of a planned flow: its id and name, its queue's key
/// (`<prefix>:<queue>`), and the keys that tie it to its parent and to its
/// children.
#[derive(Debug)]
pub struct FlowStep {
    /// The job's id: its custom id, or the id handed out for it.
    pub job_id: String,
    /// The job's name.
    pub name: String,
    /// The key of the job's queue, `<prefix>:<queue>`.
    pub queue_key: String,
    /// The key of the parent job, `<parent queue key>:<parent id>`.
    pub parent_key: Option<String>,
    /// The parent's set of pending children, `<parent key>:dependencies`.
    pub parent_dependencies_key: Option<String>,
    /// For a job with children: its queue's `waiting-children` set, where
    /// it waits until its children complete.
    pub wait_children_key: Option<String>,
}

/// The key of the queue of a flow job: its own prefix, or the producer's.
pub open spec fn node_queue_key(n: FlowNodeView, prefix: Seq<char>) -> Seq<char> {
    let p = match n.prefix {
        Some(p) => p,
        None => prefix,
    };
    p + ":"@ + n.queue_name
}

/// The id of a flow job: its custom id, or `given`.
pub open spec fn node_id(n: FlowNodeView, given: Seq<char>) -> Seq<char> {
    match n.job_id {
        Some(id) => id,
        None => given,
    }
}

/// The key of the job of step `i`.
pub open spec fn step_key(steps: Seq<FlowStep>, i: int) -> Seq<char> {
    steps[i].queue_key@ + ":"@ + steps[i].job_id@
}

/// An optional string by its view.
pub open spec fn opt_str(o: Option<String>) -> Option<Seq<char>> {
    match o {
        Some(s) => Some(s@),
        None => None,
    }
}

/// Whether step `i` of `steps` plans the flow job `n` with id `id`: its
/// parent is an earlier step, whose key it points to.
pub open spec fn is_step(steps: Seq<FlowStep>, i: int, n: FlowNodeView, id: Seq<char>, prefix: Seq<char>) -> bool {
    &&& steps[i].job_id@ == id
    &&& steps[i].name@ == n.name
    &&& steps[i].queue_key@ == node_queue_key(n, prefix)
    &&& match n.parent {
        Some(p) => {
            &&& 0 <= p < i
            &&& opt_str(steps[i].parent_key) == Some(step_key(steps, p))
            &&& opt_str(steps[i].parent_dependencies_key) == Some(step_key(steps, p) + ":dependencies"@)
        },
        None => steps[i].parent_key is None && steps[i].parent_dependencies_key is None,
    }
    &&& opt_str(steps[i].wait_children_key) == if n.has_children {
        Some(node_queue_key(n, prefix) + ":waiting-children"@)
    } else {
        None
    }
}

/// Whether steps `base..` of `steps` plan the jobs `nodes`, the ids of jobs
/// without a custom id taken from `ids` at the same positions.
pub open spec fn steps_plan(steps: Seq<FlowStep>, base: int, nodes: Seq<FlowNodeView>, ids: Seq<String>, prefix: Seq<char>) -> bool {
    forall|m: int| 0 <= m < nodes.len() ==> #[trigger] is_step(steps, base + m, nodes[m], node_id(nodes[m], ids[base + m]@), prefix)
}

proof fn lemma_is_step_kept(s: Seq<FlowStep>, s2: Seq<FlowStep>, i: int, n: FlowNodeView, id: Seq<char>, prefix: Seq<char>)
    requires
        0 <= i < s.len() <= s2.len(),
        s2.take(s.len() as int) == s,
        is_step(s, i, n, id, prefix),
    ensures
        is_step(s2, i, n, id, prefix),
{
    assert(s2[i] == s.take(s.len() as int)[i]);
    if let Some(p) = n.parent {
        assert(s2[p] == s2.take(s.len() as int)[p]);
    }
}

proof fn lemma_steps_plan_kept(s: Seq<FlowStep>, s2: Seq<FlowStep>, base: int, nodes: Seq<FlowNodeView>, ids: Seq<String>, prefix: Seq<char>)
    requires
        0 <= base,
        base + nodes.len() <= s.len() <= s2.len(),
        s2.take(s.len() as int) == s,
        steps_plan(s, base, nodes, ids, prefix),
    ensures
        steps_plan(s2, base, nodes, ids, prefix),
{
    assert forall|m: int| 0 <= m < nodes.len() implies #[trigger] is_step(s2, base + m, nodes[m], node_id(nodes[m], ids[base + m]@), prefix) by {
        lemma_is_step_kept(s, s2, base + m, nodes[m], node_id(nodes[m], ids[base + m]@), prefix);
    }
}

/// Plans the flow `j` after the steps in `out`, with parent step `parent`.
/// Returns `false` when `ids` runs out.
fn plan_node<T>(j: &FlowJob<T>, prefix: &str, ids: &Vec<String>, parent: Option<usize>, out: &mut Vec<FlowStep>) -> (ok: bool)
    requires
        parent matches Some(p) ==> p < old(out)@.len(),
    ensures
        ({
            let base = old(out)@.len() as int;
            let nodes = flow_nodes(*j, match parent {
                Some(p) => Some(p as int),
                None => None,
            }, base);
            &&& ok <==> base + nodes.len() <= ids@.len()
            &&& ok ==> final(out)@.len() == base + nodes.len()
            &&& ok ==> final(out)@.take(base) == old(out)@
            &&& ok ==> steps_plan(final(out)@, base, nodes, ids@, prefix@)
        }),
    decreases j,
{
    let ghost parent_int: Option<int> = match parent {
        Some(p) => Some(p as int),
        None => None,
    };
    let ghost start = out@;
    let base = out.len();
    let ghost nodes = flow_nodes(*j, parent_int, base as int);
    let ghost kids = forest_nodes(j.children@, Some(base as int), base + 1);
    assert(nodes =~= seq![nodes[0]] + kids);
    if base >= ids.len() {
        return false;
    }
    let id = match &j.opts {
        Some(o) => match &o.job_id {
            Some(x) => x.clone(),
            None => ids[base].clone(),
        },
        None => ids[base].clone(),
    };
    let qprefix = match &j.prefix {
        Some(p) => p.as_str(),
        None => prefix,
    };
    let queue_key = concat3(qprefix, ":", j.queue_name.as_str());
    let (parent_key, parent_dependencies_key) = match parent {
        Some(p) => {
            let k = concat3(out[p].queue_key.as_str(), ":", out[p].job_id.as_str());
            let d = concat2(k.as_str(), ":dependencies");
            (Some(k), Some(d))
        },
        None => (None, None),
    };
    let wait_children_key = if j.children.len() > 0 {
        Some(concat2(queue_key.as_str(), ":waiting-children"))
    } else {
        None
    };
    out.push(FlowStep { job_id: id, name: j.name.clone(), queue_key, parent_key, parent_dependencies_key, wait_children_key });
    assert(out@.take(base as int) =~= start);
    assert(is_step(out@, base as int, nodes[0], node_id(nodes[0], ids@[base as int]@), prefix@));
    let mut i: usize = 0;
    while i < j.children.len()
        invariant
            i <= j.children@.len(),
            base < out@.len(),
            base < ids@.len(),
            out@.take(base as int) == start,
            start.len() == base,
            start == old(out)@,
            parent_int == match parent {
                Some(p) => Some(p as int),
                None => None::<int>,
            },
            nodes == flow_nodes(*j, parent_int, base as int),
            kids == forest_nodes(j.children@, Some(base as int), base + 1),
            nodes == seq![nodes[0]] + kids,
            out@.len() == base + 1 + forest_nodes(j.children@.take(i as int), Some(base as int), base + 1).len(),
            base + 1 + forest_nodes(j.children@.take(i as int), Some(base as int), base + 1).len() <= ids@.len(),
            is_step(out@, base as int, nodes[0], node_id(nodes[0], ids@[base as int]@), prefix@),
            steps_plan(out@, base + 1, forest_nodes(j.children@.take(i as int), Some(base as int), base + 1), ids@, prefix@),
        decreases j.children@.len() - i,
    {
        let ghost before = out@;
        let ghost done = forest_nodes(j.children@.take(i as int), Some(base as int), base + 1);
        let ghost next_nodes = flow_nodes(j.children@[i as int], Some(base as int), base + 1 + done.len());
        assert(j.children@.take(i + 1).drop_last() =~= j.children@.take(i as int));
        assert(j.children@.take(i + 1).last() == j.children@[i as int]);
        assert(forest_nodes(j.children@.take(i + 1), Some(base as int), base + 1) == done + next_nodes);
        let ok = plan_node(&j.children[i], prefix, ids, Some(base), out);
        if !ok {
            // The ids run out inside this child, hence inside the whole flow.
            assert(forest_nodes(j.children@.take(i + 1), Some(base as int), base + 1).len() <= kids.len()) by {
                lemma_forest_prefix_len(j.children@, i + 1, Some(base as int), base + 1);
            }
            assert(before.len() == base + 1 + done.len());
            assert(before.len() + next_nodes.len() > ids@.len());
            assert(nodes.len() == 1 + kids.len());
            assert(base + nodes.len() > ids@.len());
            return false;
        }
        proof {
            lemma_is_step_kept(before, out@, base as int, nodes[0], node_id(nodes[0], ids@[base as int]@), prefix@);
            lemma_steps_plan_kept(before, out@, base + 1, done, ids@, prefix@);
            assert(out@.take(base as int) =~= before.take(base as int));
            let all = done + next_nodes;
            assert forall|m: int| 0 <= m < all.len() implies #[trigger] is_step(out@, base + 1 + m, all[m], node_id(all[m], ids@[base + 1 + m]@), prefix@) by {
                if m < done.len() {
                    assert(all[m] == done[m]);
                } else {
                    let q = m - done.len();
                    assert(all[m] == next_nodes[q]);
                    assert(base + 1 + done.len() + q == base + 1 + m);
                }
            }
        }
        i = i + 1;
    }
    proof {
        assert(j.children@.take(i as int) =~= j.children@);
        assert forall|m: int| 0 <= m < nodes.len() implies #[trigger] is_step(out@, base + m, nodes[m], node_id(nodes[m], ids@[base + m]@), prefix@) by {
            if m > 0 {
                assert(nodes[m] == kids[m - 1]);
                assert(base + 1 + (m - 1) == base + m);
            }
        }
    }
    true
}

proof fn lemma_forest_prefix_len<T>(js: Seq<FlowJob<T>>, k: int, parent: Option<int>, base: int)
    requires
        0 <= k <= js.len(),
    ensures
        forest_nodes(js.take(k), parent, base).len() <= forest_nodes(js, parent, base).len(),
    decreases js.len() - k,
{
    if k < js.len() {
        lemma_forest_prefix_len(js, k + 1, parent, base);
        assert(js.take(k + 1).drop_last() =~= js.take(k));
    } else {
        assert(js.take(k) =~= js);
    }
}

impl FlowProducerBuilder {
    /// The connection settings, if set.
    pub closed spec fn spec_connection(self) -> Option<RedisConnection> {
        self.connection
    }

    /// The key prefix.
    pub closed spec fn spec_prefix(self) -> Seq<char> {
        self.prefix@
    }

    /// A builder without connection and with prefix `bull`.
    pub fn new() -> (r: Self)
        ensures
            r.spec_connection() is None,
            r.spec_prefix() == "bull"@,
    {
        FlowProducerBuilder { connection: None, prefix: "bull".to_owned() }
    }

    /// Sets the connection settings.
    pub fn connection(self, conn: RedisConnection) -> (r: Self)
        ensures
            r.spec_connection() == Some(conn),
            r.spec_prefix() == self.spec_prefix(),
    {
        FlowProducerBuilder { connection: Some(conn), ..self }
    }

    /// Sets the key prefix.
    pub fn prefix(self, prefix: &str) -> (r: Self)
        ensures
            r.spec_prefix() == prefix@,
            r.spec_connection() == self.spec_connection(),
    {
        FlowProducerBuilder { prefix: prefix.to_owned(), ..self }
    }

    /// Builds the producer; a connection is required.
    pub fn build(self) -> (r: Result<FlowProducer, BullmqError>)
        ensures
            match self.spec_connection() {
                Some(c) => r matches Ok(p) && p.spec_connection() == c && p.spec_prefix()
                    == self.spec_prefix(),
                None => r matches Err(BullmqError::Other(m)) && m@
                    == "FlowProducerBuilder requires a Redis connection"@,
            },
    {
        match self.connection {
            Some(connection) => Ok(FlowProducer { connection, prefix: self.prefix }),
            None => Err(BullmqError::Other("FlowProducerBuilder requires a Redis connection".to_owned())),
        }
    }
}

impl FlowProducer {
    /// The connection settings.
    pub closed spec fn spec_connection(self) -> RedisConnection {
        self.connection
    }

    /// The key prefix.
    pub closed spec fn spec_prefix(self) -> Seq<char> {
        self.prefix@
    }

    /// Plans the flow `job`: one step per job, in pre-order (a parent
    /// before its children, children in their order). Each step names its
    /// job's queue, points to its parent's key and the parent's set of
    /// pending children, and a job with children waits in its queue's
    /// `waiting-children` set. `ids` holds an id for every job in that
    /// order; a job with a custom id keeps it. Fails when `ids` is shorter
    /// than the flow.
    pub fn plan<T>(&self, job: &FlowJob<T>, ids: &Vec<String>) -> (r: Result<Vec<FlowStep>, BullmqError>)
        ensures
            ({
                let nodes = flow_nodes(*job, None, 0);
                &&& r is Ok <==> nodes.len() <= ids@.len()
                &&& r matches Ok(steps) ==> steps@.len() == nodes.len() && steps_plan(steps@, 0, nodes, ids@, self.spec_prefix())
                &&& r matches Err(e) ==> e matches BullmqError::Other(m) && m@ == "A flow needs an id for each of its jobs"@
            }),
    {
        let mut out: Vec<FlowStep> = Vec::new();
        if plan_node(job, self.prefix.as_str(), ids, None, &mut out) {
            Ok(out)
        } else {
            Err(BullmqError::Other("A flow needs an id for each of its jobs".to_owned()))
        }
    }
}

} // verus!
