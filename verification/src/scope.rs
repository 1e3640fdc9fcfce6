//! Dependency tracking for one run of the supervised computation.
//!
//! A `ReactiveScope` is entered around every individual poll step of the
//! running computation, not only around its construction, so the recorded
//! dependencies always cover what the computation actually read. The scope
//! keeps two sets of reactive-cell identities: the reads of the most recent
//! entry, and the union of the reads of every entry since the current run
//! began. A mutation of any cell read during the current run raises the
//! scope's wake flag; mutations arriving before the wake is consumed are
//! coalesced into that single flag, so a consumer is promised at least one
//! wake per batch of mutations, never one wake per mutation.

use vstd::prelude::*;

verus! {

/// The mathematical model of a [`ReactiveScope`].
#[verifier::ext_equal]
pub ghost struct ScopeModel {
    /// The cells read during the most recent entry of the scope.
    pub last_deps: Seq<u64>,
    /// Every cell read during the current run, across all entries.
    pub run_deps: Seq<u64>,
    /// Whether a recorded dependency was mutated and the wake has not been
    /// consumed yet.
    pub pending_wake: bool,
}

impl ScopeModel {
    /// A scope that has tracked nothing and owes no wake.
    pub open spec fn init() -> ScopeModel {
        ScopeModel { last_deps: Seq::empty(), run_deps: Seq::empty(), pending_wake: false }
    }

    /// Whether `cell` was read at some point during the current run.
    pub open spec fn is_dependency(self, cell: u64) -> bool {
        self.run_deps.contains(cell)
    }

    /// Tracking restarts for a new run: the dependency sets are cleared,
    /// while an unconsumed wake stays pending.
    pub open spec fn begin_run(self) -> ScopeModel {
        ScopeModel { last_deps: Seq::empty(), run_deps: Seq::empty(), pending_wake: self.pending_wake }
    }

    /// One entry of the scope: the reads of this entry replace the
    /// last-entry set and join the current run's cumulative set.
    pub open spec fn record_entry(self, reads: Seq<u64>) -> ScopeModel {
        ScopeModel { last_deps: reads, run_deps: self.run_deps + reads, pending_wake: self.pending_wake }
    }

    /// A mutation of `cell`: the wake flag rises exactly when the cell is a
    /// recorded dependency of the current run, and once risen it stays until
    /// consumed (coalescing).
    pub open spec fn notify(self, cell: u64) -> ScopeModel {
        ScopeModel { pending_wake: self.pending_wake || self.is_dependency(cell), ..self }
    }

    /// Consuming the wake: the flag is lowered, tracking is untouched.
    pub open spec fn clear_wake(self) -> ScopeModel {
        ScopeModel { pending_wake: false, ..self }
    }
}

/// A tracking context recording which reactive cells the supervised
/// computation reads, and owing a wake after any of them is mutated.
pub struct ReactiveScope {
    /// The cells read during the most recent entry.
    pub last_deps: Vec<u64>,
    /// Every cell read during the current run.
    pub run_deps: Vec<u64>,
    /// Whether a wake is pending.
    pub pending_wake: bool,
}

impl View for ReactiveScope {
    type V = ScopeModel;

    open spec fn view(&self) -> ScopeModel {
        ScopeModel {
            last_deps: self.last_deps@,
            run_deps: self.run_deps@,
            pending_wake: self.pending_wake,
        }
    }
}

/// Whether `x` occurs in `v`.
fn cells_contain(v: &Vec<u64>, x: u64) -> (r: bool)
    ensures
        r == v@.contains(x),
{
    let mut i: usize = 0;
    while i < v.len()
        invariant
            i <= v.len(),
            forall|j: int| 0 <= j < i ==> v@[j] != x,
        decreases v.len() - i,
    {
        if v[i] == x {
            assert(v@.contains(x)) by {
                assert(v@[i as int] == x);
            }
            return true;
        }
        i += 1;
    }
    false
}

/// A copy of `v`, element for element.
fn copy_cells(v: &Vec<u64>) -> (r: Vec<u64>)
    ensures
        r@ == v@,
{
    let mut r: Vec<u64> = Vec::new();
    let mut i: usize = 0;
    while i < v.len()
        invariant
            i <= v.len(),
            r@ == v@.subrange(0, i as int),
        decreases v.len() - i,
    {
        r.push(v[i]);
        assert(r@ =~= v@.subrange(0, (i + 1) as int));
        i += 1;
    }
    assert(r@ =~= v@);
    r
}

impl ReactiveScope {
    /// A fresh scope: nothing tracked, no wake pending.
    pub fn new() -> (s: ReactiveScope)
        ensures
            s@ == ScopeModel::init(),
    {
        ReactiveScope { last_deps: Vec::new(), run_deps: Vec::new(), pending_wake: false }
    }

    /// Restarts tracking for a new run. Dependencies recorded for the
    /// superseded run are dropped; an unconsumed wake stays pending.
    pub fn begin_run(&mut self)
        ensures
            final(self)@ == old(self)@.begin_run(),
    {
        self.last_deps = Vec::new();
        self.run_deps = Vec::new();
    }

    /// Records one entry of the scope: `reads` are the cells the computation
    /// read while the scope was entered around one poll step (or around the
    /// construction of the computation).
    pub fn record_entry(&mut self, reads: &Vec<u64>)
        ensures
            final(self)@ == old(self)@.record_entry(reads@),
    {
        self.last_deps = copy_cells(reads);
        let mut i: usize = 0;
        while i < reads.len()
            invariant
                i <= reads.len(),
                self.run_deps@ == old(self).run_deps@ + reads@.subrange(0, i as int),
                self.last_deps@ == reads@,
                self.pending_wake == old(self).pending_wake,
            decreases reads.len() - i,
        {
            self.run_deps.push(reads[i]);
            assert(self.run_deps@ =~= old(self).run_deps@ + reads@.subrange(0, (i + 1) as int));
            i += 1;
        }
        assert(reads@.subrange(0, reads@.len() as int) =~= reads@);
    }

    /// Whether `cell` was read at some point during the current run.
    pub fn is_dependency(&self, cell: u64) -> (r: bool)
        ensures
            r == self@.is_dependency(cell),
    {
        cells_contain(&self.run_deps, cell)
    }

    /// Delivers a mutation of `cell` to the scope. Returns whether the
    /// mutation hit a recorded dependency of the current run; if it did, the
    /// wake flag is up afterwards.
    pub fn on_mutation(&mut self, cell: u64) -> (hit: bool)
        ensures
            hit == old(self)@.is_dependency(cell),
            final(self)@ == old(self)@.notify(cell),
    {
        let hit = cells_contain(&self.run_deps, cell);
        if hit {
            self.pending_wake = true;
        }
        hit
    }

    /// Consumes the pending wake, if any: returns whether one was pending
    /// and lowers the flag. Any number of dependency mutations since the
    /// last consumption shows up as this one wake.
    pub fn take_wake(&mut self) -> (woke: bool)
        ensures
            woke == old(self)@.pending_wake,
            final(self)@ == old(self)@.clear_wake(),
    {
        let woke = self.pending_wake;
        self.pending_wake = false;
        woke
    }
}

} // verus!
