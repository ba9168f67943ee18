//! Ranking of the process table by CPU usage.
use vstd::prelude::*;
use vstd::seq_lib::group_to_multiset_ensures;

verus! {

/// Most processes that a snapshot lists.
pub const MAX_LISTED_PROCESSES: usize = 10;

#[derive(Clone, Copy, Debug, PartialEq, Eq, Structural)]
pub enum ProcessStatus {
    Running,
    Sleeping,
    Stopped,
    Zombie,
    Dead,
    Idle,
    Unknown,
}

#[derive(Clone, Debug)]
pub struct ProcessInfo {
    pub pid: u32,
    pub name: String,
    /// CPU usage in hundredths of a percent.
    pub cpu_usage: u32,
    /// Resident memory in bytes.
    pub memory_bytes: u64,
    pub status: ProcessStatus,
}

/// First index at or after `j` whose process uses less CPU than `key`.
pub open spec fn first_below(s: Seq<ProcessInfo>, key: u32, j: int) -> int
    decreases s.len() - j,
{
    if 0 <= j < s.len() && s[j].cpu_usage >= key {
        first_below(s, key, j + 1)
    } else {
        j
    }
}

/// `s` with `p` placed after every process that uses at least as much CPU.
pub open spec fn insert_ranked(s: Seq<ProcessInfo>, p: ProcessInfo) -> Seq<ProcessInfo> {
    s.insert(first_below(s, p.cpu_usage, 0), p)
}

/// `s` ordered by CPU usage, highest first; processes with equal usage
/// keep their order in `s`.
pub open spec fn ranked(s: Seq<ProcessInfo>) -> Seq<ProcessInfo>
    decreases s.len(),
{
    if s.len() == 0 {
        Seq::empty()
    } else {
        insert_ranked(ranked(s.drop_last()), s.last())
    }
}

/// The listed processes: the first ten of the ranking.
pub open spec fn top_processes(s: Seq<ProcessInfo>) -> Seq<ProcessInfo> {
    if s.len() <= 10 {
        ranked(s)
    } else {
        ranked(s).take(10)
    }
}

/// CPU usage never increases along `s`.
pub open spec fn sorted_by_usage(s: Seq<ProcessInfo>) -> bool {
    forall|i: int, j: int| 0 <= i < j < s.len() ==> s[i].cpu_usage >= s[j].cpu_usage
}

proof fn lemma_first_below(s: Seq<ProcessInfo>, key: u32, j: int)
    requires
        0 <= j <= s.len(),
    ensures
        j <= first_below(s, key, j) <= s.len(),
        forall|k: int| j <= k < first_below(s, key, j) ==> s[k].cpu_usage >= key,
        first_below(s, key, j) < s.len() ==> s[first_below(s, key, j)].cpu_usage < key,
    decreases s.len() - j,
{
    if j < s.len() && s[j].cpu_usage >= key {
        lemma_first_below(s, key, j + 1);
    }
}

/// Ranking keeps the number of processes and orders them by CPU usage,
/// highest first.
pub proof fn lemma_ranked_sorted(s: Seq<ProcessInfo>)
    ensures
        ranked(s).len() == s.len(),
        sorted_by_usage(ranked(s)),
    decreases s.len(),
{
    if s.len() > 0 {
        let r = ranked(s.drop_last());
        let p = s.last();
        lemma_ranked_sorted(s.drop_last());
        lemma_first_below(r, p.cpu_usage, 0);
        let pos = first_below(r, p.cpu_usage, 0);
        let t = r.insert(pos, p);
        assert forall|i: int, j: int| 0 <= i < j < t.len() implies t[i].cpu_usage
            >= t[j].cpu_usage by {
            if j < pos {
            } else if j == pos {
            } else if i < pos {
                assert(r[i].cpu_usage >= p.cpu_usage);
                assert(t[j] == r[j - 1]);
            } else if i == pos {
                assert(t[j] == r[j - 1]);
                assert(r[pos].cpu_usage < p.cpu_usage);
                assert(r[pos].cpu_usage >= r[j - 1].cpu_usage || pos == j - 1);
            } else {
                assert(t[i] == r[i - 1]);
                assert(t[j] == r[j - 1]);
            }
        }
    }
}

/// Ranking lists every process of the table once: it only reorders.
pub proof fn lemma_ranked_permutation(s: Seq<ProcessInfo>)
    ensures
        ranked(s).to_multiset() =~= s.to_multiset(),
    decreases s.len(),
{
    broadcast use group_to_multiset_ensures;

    if s.len() > 0 {
        let r = ranked(s.drop_last());
        let p = s.last();
        lemma_ranked_permutation(s.drop_last());
        lemma_first_below(r, p.cpu_usage, 0);
        let pos = first_below(r, p.cpu_usage, 0);
        let t = r.insert(pos, p);
        assert(t.remove(pos) =~= r);
        assert(t[pos] == p);
        assert(t.contains(p));
        assert(t.to_multiset() =~= r.to_multiset().insert(p));
        assert(s =~= s.drop_last().push(p));
    }
}

/// The ten processes using the most CPU, highest first; processes with
/// equal usage keep their order in the table. Fewer when the table is
/// smaller.
pub fn collect_process_info(table: Vec<ProcessInfo>) -> (r: Vec<ProcessInfo>)
    ensures
        r@ == top_processes(table@),
        r@.len() <= 10,
        sorted_by_usage(r@),
{
    let ghost orig = table@;
    let n = table.len();
    let mut rest = table;
    let mut out: Vec<ProcessInfo> = Vec::new();
    let mut i: usize = 0;
    while rest.len() > 0
        invariant
            i + rest@.len() == orig.len(),
            orig.len() == n,
            rest@ == orig.subrange(i as int, orig.len() as int),
            out@ == ranked(orig.take(i as int)),
        decreases rest@.len(),
    {
        let p = rest.remove(0);
        let key = p.cpu_usage;
        let mut j: usize = 0;
        while j < out.len() && out[j].cpu_usage >= key
            invariant
                j <= out@.len(),
                first_below(out@, key, j as int) == first_below(out@, key, 0),
            decreases out@.len() - j,
        {
            j = j + 1;
        }
        proof {
            assert(orig.take(i + 1).drop_last() =~= orig.take(i as int));
            assert(orig.take(i + 1).last() == p);
        }
        out.insert(j, p);
        i = i + 1;
        assert(rest@ =~= orig.subrange(i as int, orig.len() as int));
    }
    assert(orig.take(i as int) =~= orig);
    proof {
        lemma_ranked_sorted(orig);
    }
    out.truncate(MAX_LISTED_PROCESSES);
    out
}

} // verus!
