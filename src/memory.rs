use vstd::prelude::*;

verus! {

/// Size above which a store is cut back.
pub const MAX_STORED: usize = 50;

/// Number of entries a store keeps when it is cut back.
pub const RETAIN: usize = 40;

/// One remembered event. Importance is in thousandths; the timestamp is a
/// monotonic time value chosen by the caller.
#[derive(Debug)]
pub struct Memory {
    pub content: String,
    pub importance: u64,
    pub timestamp: u64,
}

/// Where an entry of importance `k` goes in a list ranked by descending
/// importance: after every leading entry whose importance is at least `k`.
pub open spec fn insert_pos(s: Seq<Memory>, k: u64) -> nat
    decreases s.len(),
{
    if s.len() == 0 {
        0
    } else if s[0].importance < k {
        0
    } else {
        1 + insert_pos(s.drop_first(), k)
    }
}

pub open spec fn insert_ranked(s: Seq<Memory>, m: Memory) -> Seq<Memory> {
    s.insert(insert_pos(s, m.importance) as int, m)
}

/// `s` ordered by descending importance; entries of equal importance keep
/// their order in `s`.
pub open spec fn rank_desc(s: Seq<Memory>) -> Seq<Memory>
    decreases s.len(),
{
    if s.len() == 0 {
        Seq::empty()
    } else {
        insert_ranked(rank_desc(s.drop_last()), s.last())
    }
}

/// The entries after `m` is appended to `s`: once there are more than `cap`,
/// the `retain` most important, ranked by `rank_desc`.
pub open spec fn after_record(s: Seq<Memory>, m: Memory, cap: nat, retain: nat) -> Seq<Memory> {
    let t = s.push(m);
    if t.len() > cap {
        rank_desc(t).take(retain as int)
    } else {
        t
    }
}

proof fn lemma_insert_pos_found(s: Seq<Memory>, k: u64, p: nat)
    requires
        p <= s.len(),
        forall|i: int| 0 <= i < p ==> s[i].importance >= k,
        p == s.len() || s[p as int].importance < k,
    ensures
        insert_pos(s, k) == p,
    decreases p,
{
    if p > 0 {
        let t = s.drop_first();
        assert forall|i: int| 0 <= i < p - 1 implies t[i].importance >= k by {
            assert(t[i] == s[i + 1]);
        }
        if p < s.len() {
            assert(t[p - 1] == s[p as int]);
        }
        lemma_insert_pos_found(t, k, (p - 1) as nat);
    }
}

proof fn lemma_insert_pos_bound(s: Seq<Memory>, k: u64)
    ensures
        insert_pos(s, k) <= s.len(),
    decreases s.len(),
{
    if s.len() > 0 {
        lemma_insert_pos_bound(s.drop_first(), k);
    }
}

proof fn lemma_rank_desc_len(s: Seq<Memory>)
    ensures
        rank_desc(s).len() == s.len(),
    decreases s.len(),
{
    if s.len() > 0 {
        lemma_rank_desc_len(s.drop_last());
        lemma_insert_pos_bound(rank_desc(s.drop_last()), s.last().importance);
    }
}

/// Entries are in descending order of importance.
pub open spec fn ranked(s: Seq<Memory>) -> bool {
    forall|i: int, j: int| 0 <= i < j < s.len() ==> s[i].importance >= s[j].importance
}

/// Holds of the entries of importance `k`.
pub open spec fn of_importance(k: u64) -> spec_fn(Memory) -> bool {
    |m: Memory| m.importance == k
}

proof fn lemma_insert_pos_props(s: Seq<Memory>, k: u64)
    ensures
        insert_pos(s, k) <= s.len(),
        forall|i: int| 0 <= i < insert_pos(s, k) ==> s[i].importance >= k,
        insert_pos(s, k) < s.len() ==> s[insert_pos(s, k) as int].importance < k,
    decreases s.len(),
{
    if s.len() > 0 && s[0].importance >= k {
        let t = s.drop_first();
        lemma_insert_pos_props(t, k);
        assert forall|i: int| 0 <= i < insert_pos(s, k) implies s[i].importance >= k by {
            if i > 0 {
                assert(s[i] == t[i - 1]);
            }
        }
    }
}

proof fn lemma_rank_desc_props(s: Seq<Memory>)
    ensures
        rank_desc(s).len() == s.len(),
        ranked(rank_desc(s)),
        rank_desc(s).to_multiset() == s.to_multiset(),
        forall|k: u64| #[trigger] rank_desc(s).filter(of_importance(k)) == s.filter(of_importance(k)),
    decreases s.len(),
{
    broadcast use vstd::seq_lib::group_seq_properties, vstd::seq_lib::group_to_multiset_ensures;
    if s.len() == 0 {
        assert(s =~= Seq::<Memory>::empty());
    } else {
        let s0 = s.drop_last();
        let x = s.last();
        let q = rank_desc(s0);
        lemma_rank_desc_props(s0);
        lemma_insert_pos_props(q, x.importance);
        let p = insert_pos(q, x.importance) as int;
        let r = q.insert(p, x);
        assert(rank_desc(s) == r);
        assert(s =~= s0.push(x));
        vstd::seq_lib::to_multiset_insert(q, p, x);
        vstd::seq_lib::to_multiset_build(s0, x);
        assert forall|i: int, j: int| 0 <= i < j < r.len() implies r[i].importance
            >= r[j].importance by {
            if j < p {
            } else if j == p {
            } else if i < p {
                assert(q[i].importance >= x.importance);
            } else if i == p {
                assert(q[p].importance < x.importance);
                assert(q[p].importance >= q[j - 1].importance);
            } else {
            }
        }
        assert forall|k: u64| #[trigger] r.filter(of_importance(k)) == s.filter(of_importance(k)) by {
            let f = of_importance(k);
            let a = q.take(p);
            let b = q.skip(p);
            assert(r =~= a + seq![x] + b);
            assert(q =~= a + b);
            Seq::filter_distributes_over_add(a + seq![x], b, f);
            Seq::filter_distributes_over_add(a, seq![x], f);
            Seq::filter_distributes_over_add(a, b, f);
            Seq::<Memory>::empty().lemma_filter_push(x, f);
            assert(Seq::<Memory>::empty().filter(f).len() == 0);
            assert(seq![x] == Seq::<Memory>::empty().push(x));
            s0.lemma_filter_push(x, f);
            if x.importance == k {
                assert forall|i: int| 0 <= i < b.len() implies !f(b[i]) by {
                    assert(b[i] == q[p + i]);
                    if i > 0 {
                        assert(q[p].importance >= q[p + i].importance);
                    }
                }
                b.lemma_all_neg_filter_empty(f);
                assert(b.filter(f) =~= Seq::<Memory>::empty());
                assert(r.filter(f) =~= q.filter(f).push(x));
            } else {
                assert(seq![x].filter(f) =~= Seq::<Memory>::empty());
                assert(r.filter(f) =~= q.filter(f));
            }
        }
    }
}

/// A record adds exactly one entry while the store is under its cap, and
/// never leaves more than `cap` entries.
pub proof fn lemma_record_count(s: Seq<Memory>, m: Memory, cap: nat, retain: nat)
    requires
        retain <= cap,
        s.len() <= cap,
    ensures
        after_record(s, m, cap, retain).len() <= cap,
        s.len() < cap ==> after_record(s, m, cap, retain).len() == s.len() + 1,
        s.len() == cap ==> after_record(s, m, cap, retain).len() == retain,
{
    lemma_rank_desc_props(s.push(m));
}

/// A record that takes the store past its cap leaves exactly `retain`
/// entries: the most important of all entries held plus the new one, in
/// descending order of importance. Every entry kept is at least as important
/// as every entry dropped, nothing is lost or made up in the ranking, and
/// among entries of equal importance the ranking keeps recording order, so
/// the earlier recorded are the ones kept.
pub proof fn lemma_overflow_keeps_most_important(s: Seq<Memory>, m: Memory, cap: nat, retain: nat)
    requires
        retain <= cap,
        s.len() == cap,
    ensures
        after_record(s, m, cap, retain).len() == retain,
        after_record(s, m, cap, retain) == rank_desc(s.push(m)).take(retain as int),
        ranked(after_record(s, m, cap, retain)),
        rank_desc(s.push(m)).to_multiset() == s.push(m).to_multiset(),
        forall|i: int, j: int|
            0 <= i < retain <= j < s.len() + 1 ==> #[trigger] rank_desc(s.push(m))[i].importance
                >= #[trigger] rank_desc(s.push(m))[j].importance,
        forall|k: u64|
            #[trigger] rank_desc(s.push(m)).filter(of_importance(k)) == s.push(m).filter(
                of_importance(k),
            ),
{
    let t = s.push(m);
    lemma_rank_desc_props(t);
    let r = rank_desc(t);
    assert forall|i: int, j: int| 0 <= i < j < retain implies after_record(s, m, cap, retain)[i].importance
        >= after_record(s, m, cap, retain)[j].importance by {
        assert(after_record(s, m, cap, retain)[i] == r[i]);
        assert(after_record(s, m, cap, retain)[j] == r[j]);
    }
}

/// The entries of a store with limits `cap` and `retain` that started empty
/// and recorded `items` in order.
pub open spec fn recorded_all(items: Seq<Memory>, cap: nat, retain: nat) -> Seq<Memory>
    decreases items.len(),
{
    if items.len() == 0 {
        Seq::empty()
    } else {
        after_record(recorded_all(items.drop_last(), cap, retain), items.last(), cap, retain)
    }
}

/// The size of such a store after `k` records: `k` up to the cap; past it,
/// each cut leaves `retain` and the store then grows again up to the cap.
pub open spec fn count_after(k: nat, cap: nat, retain: nat) -> nat {
    if k <= cap {
        k
    } else {
        retain + ((k - cap - 1) as nat) % ((cap + 1 - retain) as nat)
    }
}

/// Over any history of records on a fresh store, the size never exceeds the
/// cap and follows `count_after`: with a cap of 50 and 40 retained, `k`
/// records up to 50 leave `k`, record 51 leaves 40, and every 11th record
/// after that cuts the store back to 40 again.
pub proof fn lemma_history_count(items: Seq<Memory>, cap: nat, retain: nat)
    requires
        retain <= cap,
    ensures
        recorded_all(items, cap, retain).len() == count_after(items.len(), cap, retain),
        recorded_all(items, cap, retain).len() <= cap,
    decreases items.len(),
{
    if items.len() > 0 {
        let prev = items.drop_last();
        lemma_history_count(prev, cap, retain);
        let l = recorded_all(prev, cap, retain).len();
        lemma_record_count(recorded_all(prev, cap, retain), items.last(), cap, retain);
        let k = items.len();
        let d = (cap + 1 - retain) as int;
        if k - 1 > cap {
            let x = k - cap - 2;
            vstd::arithmetic::div_mod::lemma_fundamental_div_mod(x, d);
            let q = x / d;
            let r = x % d;
            if r + 1 < d {
                vstd::arithmetic::div_mod::lemma_fundamental_div_mod_converse(x + 1, d, q, r + 1);
            } else {
                assert(x + 1 == (q + 1) * d + 0) by (nonlinear_arith)
                    requires x == d * q + r, r + 1 == d;
                vstd::arithmetic::div_mod::lemma_fundamental_div_mod_converse(x + 1, d, q + 1, 0);
            }
        } else if k - 1 == cap {
            vstd::arithmetic::div_mod::lemma_fundamental_div_mod_converse(0, d, 0, 0);
        }
    }
}

/// Orders the entries by descending importance; entries of equal importance
/// keep their relative order.
pub fn rank_by_importance(v: &mut Vec<Memory>)
    ensures
        final(v)@ == rank_desc(old(v)@),
{
    let ghost orig = v@;
    let mut out: Vec<Memory> = Vec::new();
    let ghost mut done: nat = 0;
    while v.len() > 0
        invariant
            done + v@.len() == orig.len(),
            v@ == orig.subrange(done as int, orig.len() as int),
            out@ == rank_desc(orig.take(done as int)),
        decreases v@.len(),
    {
        let m = v.remove(0);
        let k = m.importance;
        let mut j: usize = 0;
        while j < out.len() && out[j].importance >= k
            invariant
                j <= out@.len(),
                forall|i: int| 0 <= i < j ==> out@[i].importance >= k,
            decreases out@.len() - j,
        {
            j = j + 1;
        }
        proof {
            lemma_insert_pos_found(out@, k, j as nat);
            let next = orig.take(done + 1 as int);
            assert(next.drop_last() =~= orig.take(done as int));
            assert(next.last() == m);
        }
        out.insert(j, m);
        proof {
            done = done + 1;
            assert(v@ =~= orig.subrange(done as int, orig.len() as int));
        }
    }
    proof {
        assert(orig.take(done as int) =~= orig);
    }
    std::mem::swap(v, &mut out);
}

/// A log of memories that never holds more than its cap: when an insertion
/// goes over it, the store keeps only its most important entries.
#[derive(Debug)]
pub struct MemoryStore {
    entries: Vec<Memory>,
    cap: usize,
    retain: usize,
}

impl View for MemoryStore {
    type V = Seq<Memory>;

    closed spec fn view(&self) -> Seq<Memory> {
        self.entries@
    }
}

impl MemoryStore {
    pub closed spec fn spec_cap(&self) -> nat {
        self.cap as nat
    }

    pub closed spec fn spec_retain(&self) -> nat {
        self.retain as nat
    }

    pub open spec fn wf(&self) -> bool {
        &&& self.spec_retain() <= self.spec_cap()
        &&& self@.len() <= self.spec_cap()
    }

    /// An empty store that is cut back to 40 entries when it passes 50.
    pub fn new() -> (r: MemoryStore)
        ensures
            r.wf(),
            r@ == Seq::<Memory>::empty(),
            r.spec_cap() == MAX_STORED,
            r.spec_retain() == RETAIN,
    {
        MemoryStore { entries: Vec::new(), cap: MAX_STORED, retain: RETAIN }
    }

    /// An empty store with other limits.
    pub fn with_limits(cap: usize, retain: usize) -> (r: MemoryStore)
        requires
            retain <= cap,
        ensures
            r.wf(),
            r@ == Seq::<Memory>::empty(),
            r.spec_cap() == cap,
            r.spec_retain() == retain,
    {
        MemoryStore { entries: Vec::new(), cap, retain }
    }

    /// The size above which the store is cut back.
    pub fn cap(&self) -> (r: usize)
        ensures
            r == self.spec_cap(),
    {
        self.cap
    }

    /// The number of entries kept when the store is cut back.
    pub fn retain(&self) -> (r: usize)
        ensures
            r == self.spec_retain(),
    {
        self.retain
    }

    /// The number of entries held.
    pub fn count(&self) -> (r: usize)
        ensures
            r == self@.len(),
    {
        self.entries.len()
    }

    /// The entries, in the order they are held.
    pub fn entries(&self) -> (r: &Vec<Memory>)
        ensures
            r@ == self@,
    {
        &self.entries
    }

    /// Appends a memory; when that takes the store over its cap, the
    /// entries are ranked by descending importance (stable) and cut to the
    /// retained number.
    pub fn record(&mut self, content: String, importance: u64, timestamp: u64)
        requires
            old(self).wf(),
        ensures
            final(self).wf(),
            final(self).spec_cap() == old(self).spec_cap(),
            final(self).spec_retain() == old(self).spec_retain(),
            final(self)@ == after_record(
                old(self)@,
                Memory { content, importance, timestamp },
                old(self).spec_cap(),
                old(self).spec_retain(),
            ),
    {
        let m = Memory { content, importance, timestamp };
        self.entries.push(m);
        if self.entries.len() > self.cap {
            proof {
                lemma_rank_desc_len(self.entries@);
            }
            rank_by_importance(&mut self.entries);
            self.entries.truncate(self.retain);
        }
    }
}

} // verus!
