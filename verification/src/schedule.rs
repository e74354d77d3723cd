//! Construction and ordering of the per-tick task set.
//!
//! Every tick issues one task per (endpoint, payload) pair. A naive
//! endpoint-major order would let the concurrency gate admit several
//! consecutive tasks against the same endpoint; the interleaved order
//! instead cycles through the endpoints, payload by payload, so admission
//! pressure is spread evenly across targets.

use vstd::prelude::*;
use crate::config::RpcServiceConfig;
use vstd::arithmetic::div_mod::lemma_fundamental_div_mod;
use vstd::arithmetic::div_mod::lemma_fundamental_div_mod_converse;

verus! {

/// One unit of work in a tick: probe `endpoints[endpoint_index]` with
/// `payloads[payload_index]`.
#[derive(Debug, Clone, Copy, PartialEq, Eq, Structural)]
pub struct Task {
    pub endpoint_index: usize,
    pub payload_index: usize,
}

/// Builds the tick's task list in interleaved round-robin order: for each
/// payload in configured order, one task per endpoint in configured order.
/// The task at position `k` therefore targets endpoint `k % E` with payload
/// `k / E`, and the list holds exactly `E * P` tasks.
pub fn interleaved_tasks(config: &RpcServiceConfig) -> (r: Vec<Task>)
    ensures
        r@.len() == config.spec_task_count(),
        forall|k: int| 0 <= k < r@.len() ==> {
            &&& (#[trigger] r@[k]).endpoint_index == k % config.endpoints@.len() as int
            &&& r@[k].payload_index == k / config.endpoints@.len() as int
        },
{
    let e = config.endpoints.len();
    let p = config.payloads.len();
    let mut r: Vec<Task> = Vec::new();
    let mut i: usize = 0;
    while i < p
        invariant
            i <= p,
            r@.len() == i as int * e as int,
            forall|k: int| 0 <= k < r@.len() ==> {
                &&& (#[trigger] r@[k]).endpoint_index == k % e as int
                &&& r@[k].payload_index == k / e as int
            },
        decreases p - i,
    {
        let mut j: usize = 0;
        while j < e
            invariant
                j <= e,
                i < p,
                r@.len() == i as int * e as int + j as int,
                forall|k: int| 0 <= k < r@.len() ==> {
                    &&& (#[trigger] r@[k]).endpoint_index == k % e as int
                    &&& r@[k].payload_index == k / e as int
                },
            decreases e - j,
        {
            r.push(Task { endpoint_index: j, payload_index: i });
            proof {
                let k = r@.len() - 1;
                lemma_fundamental_div_mod_converse(k, e as int, i as int, j as int);
            }
            j = j + 1;
        }
        proof {
            assert(i as int * e as int + e as int == (i as int + 1) * e as int)
                by (nonlinear_arith);
        }
        i = i + 1;
    }
    proof {
        assert(p as int * e as int == e as int * p as int) by (nonlinear_arith);
    }
    r
}

/// Whether some task of `tasks` targets endpoint `j` with payload `i`.
pub open spec fn pair_covered(tasks: Seq<Task>, j: int, i: int) -> bool {
    exists|k: int|
        {
            &&& 0 <= k < tasks.len()
            &&& (#[trigger] tasks[k]).endpoint_index == j
            &&& tasks[k].payload_index == i
        }
}

/// Completeness law: a task order of length `e * p` in which position `k`
/// targets endpoint `k % e` with payload `k / e` holds every
/// (endpoint, payload) pair exactly once — no pair is skipped and no pair
/// is probed twice in one tick.
pub proof fn lemma_one_task_per_pair(tasks: Seq<Task>, e: int, p: int)
    requires
        e >= 0,
        p >= 0,
        tasks.len() == e * p,
        forall|k: int| 0 <= k < tasks.len() ==> (#[trigger] tasks[k]).endpoint_index == k % e
            && tasks[k].payload_index == k / e,
    ensures
        forall|i: int, j: int| 0 <= j < e && 0 <= i < p ==> #[trigger] pair_covered(tasks, j, i),
        forall|k1: int, k2: int| 0 <= k1 < k2 < tasks.len() ==> tasks[k1] != tasks[k2],
{
    assert forall|i: int, j: int| 0 <= j < e && 0 <= i < p implies #[trigger] pair_covered(
        tasks,
        j,
        i,
    ) by {
        let k = i * e + j;
        assert(0 <= k < e * p) by (nonlinear_arith)
            requires
                0 <= j < e,
                0 <= i < p,
                k == i * e + j,
        ;
        lemma_fundamental_div_mod_converse(k, e, i, j);
        assert(tasks[k].endpoint_index == j && tasks[k].payload_index == i);
    }
    assert forall|k1: int, k2: int| 0 <= k1 < k2 < tasks.len() implies tasks[k1] != tasks[k2] by {
        lemma_fundamental_div_mod(k1, e);
        lemma_fundamental_div_mod(k2, e);
        if tasks[k1] == tasks[k2] {
            assert(k1 % e == k2 % e && k1 / e == k2 / e);
            assert(k1 == e * (k1 / e) + k1 % e);
            assert(k2 == e * (k2 / e) + k2 % e);
            assert(false);
        }
    }
}

/// Round-robin law: in a task order in which position `k` targets endpoint
/// `k % e`, any two distinct positions of one window of `e` consecutive
/// tasks target distinct endpoints — so each endpoint appears at most once
/// per window.
pub proof fn lemma_round_robin(tasks: Seq<Task>, e: int, a: int, b: int)
    requires
        e >= 1,
        forall|k: int| 0 <= k < tasks.len() ==> (#[trigger] tasks[k]).endpoint_index == k % e,
        0 <= a < tasks.len(),
        0 <= b < tasks.len(),
        a != b,
        -e < a - b < e,
    ensures
        tasks[a].endpoint_index != tasks[b].endpoint_index,
{
    lemma_fundamental_div_mod(a, e);
    lemma_fundamental_div_mod(b, e);
    if tasks[a].endpoint_index == tasks[b].endpoint_index {
        let qa = a / e;
        let qb = b / e;
        assert(a - b == e * qa - e * qb);
        assert(e * qa - e * qb == e * (qa - qb)) by (nonlinear_arith);
        assert(qa != qb) by {
            if qa == qb {
                assert(e * (qa - qb) == 0) by (nonlinear_arith)
                    requires qa == qb;
            }
        }
        assert(-e < e * (qa - qb) < e);
        assert(false) by (nonlinear_arith)
            requires
                e >= 1,
                qa != qb,
                -e < e * (qa - qb) < e,
        ;
    }
}

} // verus!
