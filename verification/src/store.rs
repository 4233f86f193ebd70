//! In-memory model of the durable workflow store.
//!
//! Rows are keyed by `(id, created_at)` and are append-only: nothing the
//! core does ever deletes a row.  Every mutation is conditional: it commits
//! only when the stored row still carries the `updated_at` the caller read,
//! so of two writers racing from the same snapshot exactly one commits and
//! the other sees `ConditionalCheckFailed`.  The production adapter realizes
//! the same operations against the remote database; this model is what the
//! contracts and the tests run against.

use crate::workflow::{same_metadata, same_record, Environment, Status, Workflow};
use vstd::pervasive::VecAdditionalExecFns;
use vstd::prelude::*;
use vstd::string::StringExecFns;

verus! {

/// Failures of the durable store.
#[derive(Clone, Copy, Debug, PartialEq, Eq, Structural)]
pub enum DynamodbError {
    /// The requested row does not exist.
    NotFound,
    /// An insert found the primary key already taken.
    AlreadyExists,
    /// A conditional update lost the race with another writer.
    ConditionalCheckFailed,
    /// A retryable transport failure; the tick is simply lost.
    Transient,
    /// Anything else.
    Unexpected,
}

/// `a` and `b` name the same row: same id content and creation instant.
pub open spec fn key_eq(a: Workflow, b: Workflow) -> bool {
    a.id@ == b.id@ && a.created_at == b.created_at
}

/// No two rows share a primary key.
pub open spec fn unique_keys(rows: Seq<Workflow>) -> bool {
    forall|i: int, j: int| 0 <= i < j < rows.len()
        ==> !key_eq(#[trigger] rows[i], #[trigger] rows[j])
}

/// The stored row still carries the snapshot the caller read: same key and
/// same `updated_at`.  This is the predicate every conditional update is
/// guarded by.
pub open spec fn commit_guard(row: Workflow, base: Workflow) -> bool {
    key_eq(row, base) && row.updated_at == base.updated_at
}

/// Some stored row satisfies the commit guard for `base`.
pub open spec fn can_commit(rows: Seq<Workflow>, base: Workflow) -> bool {
    exists|k: int| 0 <= k < rows.len() && commit_guard(#[trigger] rows[k], base)
}

/// Some stored row has `w`'s primary key.
pub open spec fn has_key(rows: Seq<Workflow>, w: Workflow) -> bool {
    exists|k: int| 0 <= k < rows.len() && key_eq(#[trigger] rows[k], w)
}

/// `b` carries, element by element, the same records as `a`.
pub open spec fn records_match(a: Seq<Workflow>, b: Seq<Workflow>) -> bool {
    a.len() == b.len()
        && forall|i: int| 0 <= i < a.len() ==> same_record(#[trigger] a[i], #[trigger] b[i])
}

/// A row the dispatcher must hand to a processor: still running and due.
pub open spec fn is_due(w: Workflow, now: i64) -> bool {
    w.status == Status::Running && w.due_to_run <= now
}

/// The due rows among `rows`, in store order.
pub open spec fn due_rows(rows: Seq<Workflow>, now: i64) -> Seq<Workflow>
    decreases rows.len(),
{
    if rows.len() == 0 {
        Seq::empty()
    } else if is_due(rows.last(), now) {
        due_rows(rows.drop_last(), now).push(rows.last())
    } else {
        due_rows(rows.drop_last(), now)
    }
}

/// The rows of one repository (by id content), in store order.
pub open spec fn repo_rows(rows: Seq<Workflow>, id: Seq<char>) -> Seq<Workflow>
    decreases rows.len(),
{
    if rows.len() == 0 {
        Seq::empty()
    } else if rows.last().id@ == id {
        repo_rows(rows.drop_last(), id).push(rows.last())
    } else {
        repo_rows(rows.drop_last(), id)
    }
}

/// Newest first: creation instants never increase along the sequence.
pub open spec fn sorted_desc(s: Seq<Workflow>) -> bool {
    forall|i: int, j: int| 0 <= i < j < s.len()
        ==> (#[trigger] s[i]).created_at.secs >= (#[trigger] s[j]).created_at.secs
}

/// Insert `w` into a newest-first sequence, behind every row at least as
/// new as `w`.
pub open spec fn insert_desc(s: Seq<Workflow>, w: Workflow) -> Seq<Workflow>
    decreases s.len(),
{
    if s.len() == 0 {
        seq![w]
    } else if s[0].created_at.secs >= w.created_at.secs {
        seq![s[0]] + insert_desc(s.drop_first(), w)
    } else {
        seq![w] + s
    }
}

/// Sort a sequence of rows newest first by insertion.
pub open spec fn sort_desc(s: Seq<Workflow>) -> Seq<Workflow>
    decreases s.len(),
{
    if s.len() == 0 {
        Seq::empty()
    } else {
        insert_desc(sort_desc(s.drop_last()), s.last())
    }
}

pub proof fn lemma_insert_desc_sorted(s: Seq<Workflow>, w: Workflow)
    requires
        sorted_desc(s),
    ensures
        sorted_desc(insert_desc(s, w)),
        insert_desc(s, w).len() == s.len() + 1,
    decreases s.len(),
{
    if s.len() == 0 {
    } else if s[0].created_at.secs >= w.created_at.secs {
        assert(sorted_desc(s.drop_first()));
        lemma_insert_desc_sorted(s.drop_first(), w);
        let r = seq![s[0]] + insert_desc(s.drop_first(), w);
        assert forall|i: int, j: int| 0 <= i < j < r.len()
            implies (#[trigger] r[i]).created_at.secs >= (#[trigger] r[j]).created_at.secs by {
            if i == 0 {
                let inner = insert_desc(s.drop_first(), w);
                lemma_insert_desc_membership(s.drop_first(), w, j - 1);
            }
        }
    }
}

/// Every element of `insert_desc(s, w)` is `w` or an element of `s`.
pub proof fn lemma_insert_desc_membership(s: Seq<Workflow>, w: Workflow, j: int)
    requires
        0 <= j < insert_desc(s, w).len(),
    ensures
        insert_desc(s, w)[j] == w || exists|q: int| 0 <= q < s.len() && insert_desc(s, w)[j] == #[trigger] s[q],
    decreases s.len(),
{
    if s.len() == 0 {
    } else if s[0].created_at.secs >= w.created_at.secs {
        if j == 0 {
            assert(insert_desc(s, w)[0] == s[0]);
        } else {
            lemma_insert_desc_membership(s.drop_first(), w, j - 1);
            if insert_desc(s.drop_first(), w)[j - 1] == w {
            } else {
                let q = choose|q: int| 0 <= q < s.drop_first().len()
                    && insert_desc(s.drop_first(), w)[j - 1] == #[trigger] s.drop_first()[q];
                assert(insert_desc(s, w)[j] == s[q + 1]);
            }
        }
    }
}

pub proof fn lemma_sort_desc_sorted(s: Seq<Workflow>)
    ensures
        sorted_desc(sort_desc(s)),
        sort_desc(s).len() == s.len(),
    decreases s.len(),
{
    if s.len() > 0 {
        lemma_sort_desc_sorted(s.drop_last());
        lemma_insert_desc_sorted(sort_desc(s.drop_last()), s.last());
    }
}

/// Where the insertion lands: splitting a newest-first sequence at the
/// first row older than `w` realizes `insert_desc`.
pub proof fn lemma_insert_desc_position(s: Seq<Workflow>, w: Workflow, p: int)
    requires
        sorted_desc(s),
        0 <= p <= s.len(),
        forall|q: int| 0 <= q < p ==> (#[trigger] s[q]).created_at.secs >= w.created_at.secs,
        p < s.len() ==> s[p].created_at.secs < w.created_at.secs,
    ensures
        insert_desc(s, w) == s.insert(p, w),
    decreases s.len(),
{
    if s.len() == 0 {
        assert(insert_desc(s, w) =~= s.insert(p, w));
    } else if s[0].created_at.secs >= w.created_at.secs {
        assert(p >= 1);
        lemma_insert_desc_position(s.drop_first(), w, p - 1);
        assert(insert_desc(s, w) =~= s.insert(p, w));
    } else {
        assert(p == 0);
        assert(insert_desc(s, w) =~= s.insert(p, w));
    }
}

/// What `advance_environment` commits: the stored row with the new
/// environments and due time, a fresh `updated_at`, and everything else,
/// the status included, untouched.
pub open spec fn advanced_from(
    row: Workflow,
    envs: Seq<Environment>,
    due: i64,
    now: i64,
    out: Workflow,
) -> bool {
    &&& same_metadata(row, out)
    &&& out.environments@ == envs
    &&& out.due_to_run == due
    &&& out.updated_at == Some(now)
    &&& out.status == row.status
}

/// What `fail_environment` commits: as `advanced_from`, but the workflow
/// status becomes `Failure`.
pub open spec fn failed_from(
    row: Workflow,
    envs: Seq<Environment>,
    due: i64,
    now: i64,
    out: Workflow,
) -> bool {
    &&& same_metadata(row, out)
    &&& out.environments@ == envs
    &&& out.due_to_run == due
    &&& out.updated_at == Some(now)
    &&& out.status == Status::Failure
}

/// What `mark_done` commits: only the status and `updated_at` change.
pub open spec fn marked_from(row: Workflow, status: Status, now: i64, out: Workflow) -> bool {
    &&& same_metadata(row, out)
    &&& out.environments@ == row.environments@
    &&& out.due_to_run == row.due_to_run
    &&& out.updated_at == Some(now)
    &&& out.status == status
}

/// The in-memory store: a bag of rows with unique primary keys.
pub struct Store {
    rows: Vec<Workflow>,
}

impl View for Store {
    type V = Seq<Workflow>;

    closed spec fn view(&self) -> Seq<Workflow> {
        self.rows@
    }
}

impl Store {
    /// The store never holds two rows with one primary key.
    pub open spec fn inv(&self) -> bool {
        unique_keys(self@)
    }

    pub fn new() -> (s: Store)
        ensures
            s@ == Seq::<Workflow>::empty(),
            s.inv(),
    {
        Store { rows: Vec::new() }
    }

    /// The index of the row with `base`'s primary key, if any.
    #[verifier::loop_isolation(false)]
    fn find_key(&self, base: &Workflow) -> (r: Option<usize>)
        ensures
            match r {
                Some(k) => k < self@.len() && key_eq(self@[k as int], *base),
                None => !has_key(self@, *base),
            },
    {
        let n = self.rows.len();
        let mut k: usize = 0;
        while k < n
            invariant
                k <= n,
                forall|j: int| 0 <= j < k ==> !key_eq(#[trigger] self@[j], *base),
            decreases n - k,
        {
            if self.rows[k].id == base.id && self.rows[k].created_at.secs == base.created_at.secs
            {
                return Some(k);
            }
            k += 1;
        }
        None
    }

    /// Insert the initial row of a workflow.  Fails, changing nothing, when
    /// the primary key is already taken.
    pub fn put_new(&mut self, w: Workflow) -> (r: Result<(), DynamodbError>)
        requires
            old(self).inv(),
        ensures
            final(self).inv(),
            r is Ok <==> !has_key(old(self)@, w),
            r is Ok ==> final(self)@ == old(self)@.push(w),
            r is Err ==> r == Err::<(), _>(DynamodbError::AlreadyExists)
                && final(self)@ == old(self)@,
    {
        match self.find_key(&w) {
            Some(_) => Err(DynamodbError::AlreadyExists),
            None => {
                self.rows.push(w);
                proof {
                    assert forall|i: int, j: int| 0 <= i < j < self@.len()
                        implies !key_eq(#[trigger] self@[i], #[trigger] self@[j]) by {
                        if j < self@.len() - 1 {
                            assert(!key_eq(old(self)@[i], old(self)@[j]));
                        }
                    }
                }
                Ok(())
            },
        }
    }

    /// The rows a dispatcher tick must process: every row that is still
    /// `Running` and due at `now`, in store order.
    #[verifier::loop_isolation(false)]
    pub fn find_due(&self, now: i64) -> (r: Vec<Workflow>)
        ensures
            records_match(due_rows(self@, now), r@),
    {
        let n = self.rows.len();
        let mut out: Vec<Workflow> = Vec::new();
        let mut k: usize = 0;
        proof {
            assert(self@.take(0) =~= Seq::<Workflow>::empty());
        }
        while k < n
            invariant
                k <= n,
                records_match(due_rows(self@.take(k as int), now), out@),
            decreases n - k,
        {
            proof {
                assert(self@.take(k + 1).drop_last() =~= self@.take(k as int));
                assert(self@.take(k + 1).last() == self@[k as int]);
            }
            if self.rows[k].status == Status::Running && self.rows[k].due_to_run <= now {
                out.push(self.rows[k].clone());
            }
            k += 1;
        }
        proof {
            assert(self@.take(n as int) =~= self@);
        }
        out
    }

    /// All rows of one repository, newest first by creation instant.
    #[verifier::loop_isolation(false)]
    pub fn list_by_repo(&self, owner: &str, repo: &str) -> (r: Vec<Workflow>)
        ensures
            records_match(sort_desc(repo_rows(self@, owner@ + "/"@ + repo@)), r@),
    {
        let mut key = owner.to_owned();
        key.append("/");
        key.append(repo);
        let ghost kid = owner@ + "/"@ + repo@;
        let n = self.rows.len();
        let mut out: Vec<Workflow> = Vec::new();
        let mut k: usize = 0;
        proof {
            assert(self@.take(0) =~= Seq::<Workflow>::empty());
        }
        while k < n
            invariant
                k <= n,
                records_match(sort_desc(repo_rows(self@.take(k as int), kid)), out@),
            decreases n - k,
        {
            proof {
                assert(self@.take(k + 1).drop_last() =~= self@.take(k as int));
                assert(self@.take(k + 1).last() == self@[k as int]);
            }
            if self.rows[k].id == key {
                let ghost row = self@[k as int];
                let ghost rr = repo_rows(self@.take(k as int), kid);
                let ghost srr = sort_desc(rr);
                proof {
                    lemma_sort_desc_sorted(rr);
                }
                let c = self.rows[k].clone();
                let mut p: usize = 0;
                while p < out.len() && out[p].created_at.secs >= c.created_at.secs
                    invariant
                        p <= out.len(),
                        forall|q: int| 0 <= q < p
                            ==> (#[trigger] out@[q]).created_at.secs >= c.created_at.secs,
                    decreases out.len() - p,
                {
                    p += 1;
                }
                proof {
                    assert forall|q: int| 0 <= q < p
                        implies (#[trigger] srr[q]).created_at.secs >= row.created_at.secs by {
                        assert(same_record(srr[q], out@[q]));
                    }
                    if (p as int) < srr.len() {
                        assert(same_record(srr[p as int], out@[p as int]));
                    }
                    lemma_insert_desc_position(srr, row, p as int);
                    srr.insert_ensures(p as int, row);
                }
                let ghost outs = out@;
                out.insert(p, c);
                proof {
                    outs.insert_ensures(p as int, c);
                    let rr2 = repo_rows(self@.take(k + 1), kid);
                    assert(rr2.drop_last() =~= rr);
                    assert(sort_desc(rr2) == srr.insert(p as int, row));
                    assert forall|i: int| 0 <= i < out@.len()
                        implies same_record(#[trigger] sort_desc(rr2)[i], #[trigger] out@[i]) by {
                        if i < p {
                            assert(srr.insert(p as int, row)[i] == srr[i]);
                            assert(outs.insert(p as int, c)[i] == outs[i]);
                        } else if i == p {
                            assert(srr.insert(p as int, row)[i] == row);
                            assert(outs.insert(p as int, c)[i] == c);
                        } else {
                            assert(srr.insert(p as int, row)[(i - 1) + 1] == srr[i - 1]);
                            assert(outs.insert(p as int, c)[(i - 1) + 1] == outs[i - 1]);
                        }
                    }
                }
            }
            k += 1;
        }
        proof {
            assert(self@.take(n as int) =~= self@);
        }
        out
    }

    /// The index of the row `base` may still commit against, if any: same
    /// key and unchanged `updated_at`.
    #[verifier::loop_isolation(false)]
    fn find_commit(&self, base: &Workflow) -> (r: Option<usize>)
        ensures
            match r {
                Some(k) => k < self@.len() && commit_guard(self@[k as int], *base),
                None => !can_commit(self@, *base),
            },
    {
        let n = self.rows.len();
        let mut k: usize = 0;
        while k < n
            invariant
                k <= n,
                forall|j: int| 0 <= j < k ==> !commit_guard(#[trigger] self@[j], *base),
            decreases n - k,
        {
            if self.rows[k].id == base.id && self.rows[k].created_at.secs == base.created_at.secs
                && self.rows[k].updated_at == base.updated_at {
                return Some(k);
            }
            k += 1;
        }
        None
    }

    /// Overwrite the environments and due time of `base`'s row, refresh
    /// `updated_at`, and keep the status.  Commits only when the stored row
    /// still carries `base`'s `updated_at`; a lost race changes nothing and
    /// reports `ConditionalCheckFailed`.  Returns the committed row.
    pub fn advance_environment(
        &mut self,
        base: &Workflow,
        environments: Vec<Environment>,
        due_to_run: i64,
        now: i64,
    ) -> (r: Result<Workflow, DynamodbError>)
        requires
            old(self).inv(),
        ensures
            final(self).inv(),
            r is Ok <==> can_commit(old(self)@, *base),
            r matches Ok(ret) ==> exists|k: int| {
                &&& 0 <= k < old(self)@.len()
                &&& commit_guard(#[trigger] old(self)@[k], *base)
                &&& advanced_from(old(self)@[k], environments@, due_to_run, now, final(self)@[k])
                &&& same_record(final(self)@[k], ret)
                &&& final(self)@ == old(self)@.update(k, final(self)@[k])
            },
            r matches Err(e) ==> e == DynamodbError::ConditionalCheckFailed
                && final(self)@ == old(self)@,
    {
        match self.find_commit(base) {
            None => Err(DynamodbError::ConditionalCheckFailed),
            Some(k) => {
                let mut updated = self.rows[k].clone();
                updated.environments = environments;
                updated.due_to_run = due_to_run;
                updated.updated_at = Some(now);
                let ret = updated.clone();
                let ghost olds = self@;
                self.rows.set(k, updated);
                proof {
                    assert(final(self)@ =~= olds.update(k as int, final(self)@[k as int]));
                    assert forall|i: int, j: int| 0 <= i < j < self@.len()
                        implies !key_eq(#[trigger] self@[i], #[trigger] self@[j]) by {
                        assert(!key_eq(olds[i], olds[j]));
                        assert(key_eq(self@[i], olds[i]) && key_eq(self@[j], olds[j]));
                    }
                }
                Ok(ret)
            },
        }
    }

    /// As `advance_environment`, but the workflow status becomes
    /// `Failure`: the environment that failed halts the rollout.
    pub fn fail_environment(
        &mut self,
        base: &Workflow,
        environments: Vec<Environment>,
        due_to_run: i64,
        now: i64,
    ) -> (r: Result<Workflow, DynamodbError>)
        requires
            old(self).inv(),
        ensures
            final(self).inv(),
            r is Ok <==> can_commit(old(self)@, *base),
            r matches Ok(ret) ==> exists|k: int| {
                &&& 0 <= k < old(self)@.len()
                &&& commit_guard(#[trigger] old(self)@[k], *base)
                &&& failed_from(old(self)@[k], environments@, due_to_run, now, final(self)@[k])
                &&& same_record(final(self)@[k], ret)
                &&& final(self)@ == old(self)@.update(k, final(self)@[k])
            },
            r matches Err(e) ==> e == DynamodbError::ConditionalCheckFailed
                && final(self)@ == old(self)@,
    {
        match self.find_commit(base) {
            None => Err(DynamodbError::ConditionalCheckFailed),
            Some(k) => {
                let mut updated = self.rows[k].clone();
                updated.environments = environments;
                updated.due_to_run = due_to_run;
                updated.updated_at = Some(now);
                updated.status = Status::Failure;
                let ret = updated.clone();
                let ghost olds = self@;
                self.rows.set(k, updated);
                proof {
                    assert(final(self)@ =~= olds.update(k as int, final(self)@[k as int]));
                    assert forall|i: int, j: int| 0 <= i < j < self@.len()
                        implies !key_eq(#[trigger] self@[i], #[trigger] self@[j]) by {
                        assert(!key_eq(olds[i], olds[j]));
                        assert(key_eq(self@[i], olds[i]) && key_eq(self@[j], olds[j]));
                    }
                }
                Ok(ret)
            },
        }
    }

    /// Set the final status of `base`'s row, refreshing `updated_at` and
    /// leaving everything else alone.  Conditional like the other updates.
    pub fn mark_done(&mut self, base: &Workflow, status: Status, now: i64) -> (r: Result<
        (),
        DynamodbError,
    >)
        requires
            old(self).inv(),
        ensures
            final(self).inv(),
            r is Ok <==> can_commit(old(self)@, *base),
            r is Ok ==> exists|k: int| {
                &&& 0 <= k < old(self)@.len()
                &&& commit_guard(#[trigger] old(self)@[k], *base)
                &&& marked_from(old(self)@[k], status, now, final(self)@[k])
                &&& final(self)@ == old(self)@.update(k, final(self)@[k])
            },
            r matches Err(e) ==> e == DynamodbError::ConditionalCheckFailed
                && final(self)@ == old(self)@,
    {
        match self.find_commit(base) {
            None => Err(DynamodbError::ConditionalCheckFailed),
            Some(k) => {
                let mut updated = self.rows[k].clone();
                updated.updated_at = Some(now);
                updated.status = status;
                let ghost olds = self@;
                self.rows.set(k, updated);
                proof {
                    assert(final(self)@ =~= olds.update(k as int, final(self)@[k as int]));
                    assert forall|i: int, j: int| 0 <= i < j < self@.len()
                        implies !key_eq(#[trigger] self@[i], #[trigger] self@[j]) by {
                        assert(!key_eq(olds[i], olds[j]));
                        assert(key_eq(self@[i], olds[i]) && key_eq(self@[j], olds[j]));
                    }
                }
                Ok(())
            },
        }
    }
}

} // verus!
