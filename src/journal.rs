use vstd::prelude::*;
use crate::error::StoreError;
use crate::records::JournalEntry;
use crate::store::AppData;
use crate::time::{parse_rfc3339, rfc3339_instant, Timestamp};

verus! {

/// The entry at `i` falls on calendar day `day`.
pub open spec fn on_day(s: Seq<JournalEntry>, i: int, day: int) -> bool {
    s[i].date.day_spec() == day
}

/// `i` is the first position of an entry on calendar day `day`.
pub open spec fn first_on_day(s: Seq<JournalEntry>, day: int, i: int) -> bool {
    &&& 0 <= i < s.len()
    &&& on_day(s, i, day)
    &&& forall|j: int| 0 <= j < i ==> !on_day(s, j, day)
}

/// No entry of `s` falls on calendar day `day`.
pub open spec fn no_entry_on_day(s: Seq<JournalEntry>, day: int) -> bool {
    forall|j: int| 0 <= j < s.len() ==> !on_day(s, j, day)
}

/// The first position of an entry on calendar day `day`, or -1.
pub open spec fn day_index(s: Seq<JournalEntry>, day: int) -> int {
    if exists|i: int| first_on_day(s, day, i) {
        choose|i: int| first_on_day(s, day, i)
    } else {
        -1
    }
}

/// The journal after writing `content` for the day of `date`: the first entry
/// of that day takes the content and the date, keeping its id; without one,
/// a new entry is appended whose id is the number of entries before it.
pub open spec fn journal_upsert(s: Seq<JournalEntry>, content: String, date: Timestamp) -> Seq<JournalEntry> {
    let i = day_index(s, date.day_spec());
    if i >= 0 {
        s.update(i, JournalEntry { id: s[i].id, date, content })
    } else {
        s.push(JournalEntry { id: s.len() as usize, date, content })
    }
}

/// The entries of `s` without those whose day an earlier entry already has.
pub open spec fn unique_days(s: Seq<JournalEntry>) -> Seq<JournalEntry>
    decreases s.len(),
{
    if s.len() == 0 {
        s
    } else {
        let prev = unique_days(s.drop_last());
        if exists|k: int| 0 <= k < prev.len() && on_day(prev, k, s.last().date.day_spec()) {
            prev
        } else {
            prev.push(s.last())
        }
    }
}

/// Each entry of `r` is later than the ones after it.
pub open spec fn newest_first(r: Seq<JournalEntry>) -> bool {
    forall|a: int, b: int| 0 <= a < b < r.len() ==> r[a].date.after_spec(r[b].date)
}

/// `r` is the listing of the journal `s`: the entries of `unique_days(s)`,
/// newest first.
pub open spec fn is_listing(s: Seq<JournalEntry>, r: Seq<JournalEntry>) -> bool {
    &&& r.len() == unique_days(s).len()
    &&& forall|x: JournalEntry| r.contains(x) <==> unique_days(s).contains(x)
    &&& newest_first(r)
}

/// No two entries of `u` fall on the same calendar day.
pub open spec fn distinct_days(u: Seq<JournalEntry>) -> bool {
    forall|a: int, b: int| 0 <= a < b < u.len() ==> u[a].date.day_spec() != u[b].date.day_spec()
}

/// Inserting `x` at `p` keeps `out` newest first, where `x` is later than
/// what follows `p`, earlier than what comes before, and on a day of its own.
proof fn lemma_insert_keeps_order(out: Seq<JournalEntry>, x: JournalEntry, p: int)
    requires
        0 <= p <= out.len(),
        newest_first(out),
        forall|q: int| 0 <= q < p ==> !x.date.after_spec(#[trigger] out[q].date),
        forall|q: int| 0 <= q < out.len() ==> out[q].date.day_spec() != x.date.day_spec(),
        p < out.len() ==> x.date.after_spec(out[p].date),
    ensures
        newest_first(out.insert(p, x)),
        out.insert(p, x).len() == out.len() + 1,
        forall|y: JournalEntry| #[trigger] out.insert(p, x).contains(y) <==> (y == x || out.contains(y)),
{
    let n = out.insert(p, x);
    out.insert_ensures(p, x);
    assert forall|q: int| 0 <= q < p implies out[q].date.after_spec(x.date) by {
        assert(out[q].date != x.date);
    }
    assert forall|a: int, b: int| 0 <= a < b < n.len() implies n[a].date.after_spec(n[b].date) by {
        if b < p {
        } else if b == p {
        } else if a < p {
            assert(n[b] == out[b - 1]);
            if p < out.len() {
                assert(out[a].date.after_spec(x.date));
            }
        } else if a == p {
            assert(n[b] == out[b - 1]);
            if b - 1 > p {
                assert(out[p].date.after_spec(out[b - 1].date));
            }
        } else {
            assert(n[a] == out[a - 1]);
            assert(n[b] == out[b - 1]);
        }
    }
    assert forall|y: JournalEntry| n.contains(y) implies (y == x || out.contains(y)) by {
        let i = choose|i: int| 0 <= i < n.len() && n[i] == y;
        if i < p {
            assert(out[i] == y);
        } else if i > p {
            assert(out[i - 1] == y);
        }
    }
    assert forall|y: JournalEntry| (y == x || out.contains(y)) implies n.contains(y) by {
        if y == x {
            assert(n[p] == y);
        } else {
            let i = choose|i: int| 0 <= i < out.len() && out[i] == y;
            if i < p {
                assert(n[i] == y);
            } else {
                assert(n[i + 1] == y);
            }
        }
    }
}

/// The first position of an entry on the day of `date`, if there is one.
fn find_day(v: &Vec<JournalEntry>, date: &Timestamp) -> (r: Option<usize>)
    ensures
        match r {
            Some(i) => first_on_day(v@, date.day_spec(), i as int),
            None => no_entry_on_day(v@, date.day_spec()),
        },
{
    let mut i: usize = 0;
    while i < v.len()
        invariant
            i <= v@.len(),
            forall|j: int| 0 <= j < i ==> !on_day(v@, j, date.day_spec()),
        decreases v@.len() - i,
    {
        if v[i].date.same_day(date) {
            return Some(i);
        }
        i += 1;
    }
    None
}

proof fn lemma_day_index_first(s: Seq<JournalEntry>, day: int, i: int)
    requires
        first_on_day(s, day, i),
    ensures
        day_index(s, day) == i,
{
    let k = day_index(s, day);
    assert(first_on_day(s, day, k));
    if k < i {
        assert(!on_day(s, k, day));
    } else if i < k {
        assert(!on_day(s, i, day));
    }
}

proof fn lemma_day_index_none(s: Seq<JournalEntry>, day: int)
    requires
        no_entry_on_day(s, day),
    ensures
        day_index(s, day) == -1,
{
    if exists|i: int| first_on_day(s, day, i) {
        let i = choose|i: int| first_on_day(s, day, i);
        assert(on_day(s, i, day));
    }
}

/// Where some entry falls on `day`, a first such entry exists.
proof fn lemma_first_exists(s: Seq<JournalEntry>, day: int, j: int)
    requires
        0 <= j < s.len(),
        on_day(s, j, day),
    ensures
        day_index(s, day) >= 0,
        on_day(s, day_index(s, day), day),
    decreases j,
{
    if forall|k: int| 0 <= k < j ==> !on_day(s, k, day) {
        lemma_day_index_first(s, day, j);
    } else {
        let k = choose|k: int| 0 <= k < j && on_day(s, k, day);
        lemma_first_exists(s, day, k);
    }
}

impl AppData {
    /// Writes `content` for the calendar day of `date` (see `journal_upsert`)
    /// and returns the journal.
    pub fn upsert_journal_entry(&mut self, content: String, date: Timestamp) -> (r: Vec<JournalEntry>)
        ensures
            final(self).journal_entries@ == journal_upsert(old(self).journal_entries@, content, date),
            final(self).todos == old(self).todos,
            final(self).notes == old(self).notes,
            final(self).goals == old(self).goals,
            final(self).pomodoro == old(self).pomodoro,
            final(self).pomodoro_sessions == old(self).pomodoro_sessions,
            r@ == final(self).journal_entries@,
    {
        match find_day(&self.journal_entries, &date) {
            Some(i) => {
                proof {
                    lemma_day_index_first(self.journal_entries@, date.day_spec(), i as int);
                }
                let id = self.journal_entries[i].id;
                self.journal_entries.set(i, JournalEntry { id, date, content });
            },
            None => {
                proof {
                    lemma_day_index_none(self.journal_entries@, date.day_spec());
                }
                let id = self.journal_entries.len();
                self.journal_entries.push(JournalEntry { id, date, content });
            },
        }
        self.journal_entries.clone()
    }

    /// Writes `content` for the calendar day of an RFC 3339 date-time text;
    /// fails with `InvalidDate`, changing nothing, where the text is not one.
    pub fn add_journal_entry(&mut self, content: String, date: &str) -> (r: Result<Vec<JournalEntry>, StoreError>)
        ensures
            match rfc3339_instant(date@) {
                None => {
                    &&& r == Err::<Vec<JournalEntry>, StoreError>(StoreError::InvalidDate)
                    &&& final(self).journal_entries == old(self).journal_entries
                },
                Some(p) => {
                    &&& final(self).journal_entries@ == journal_upsert(
                        old(self).journal_entries@,
                        content,
                        Timestamp { secs: p.0, nanos: p.1 },
                    )
                    &&& r matches Ok(v) && v@ == final(self).journal_entries@
                },
            },
            final(self).todos == old(self).todos,
            final(self).notes == old(self).notes,
            final(self).goals == old(self).goals,
            final(self).pomodoro == old(self).pomodoro,
            final(self).pomodoro_sessions == old(self).pomodoro_sessions,
    {
        match parse_rfc3339(date) {
            None => Err(StoreError::InvalidDate),
            Some(t) => Ok(self.upsert_journal_entry(content, t)),
        }
    }

    /// The journal with one entry per calendar day, the first that the journal
    /// holds for it, newest first.
    pub fn get_journal_entries(&self) -> (r: Vec<JournalEntry>)
        ensures
            is_listing(self.journal_entries@, r@),
    {
        let entries = &self.journal_entries;
        let mut unique: Vec<JournalEntry> = Vec::new();
        let mut i: usize = 0;
        while i < entries.len()
            invariant
                i <= entries@.len(),
                unique@ == unique_days(entries@.take(i as int)),
                distinct_days(unique@),
            decreases entries@.len() - i,
        {
            proof {
                assert(entries@.take(i + 1).drop_last() =~= entries@.take(i as int));
                assert(entries@.take(i + 1).last() == entries@[i as int]);
            }
            let found = find_day(&unique, &entries[i].date);
            if found.is_none() {
                let ghost before = unique@;
                unique.push(entries[i].clone());
                proof {
                    assert forall|a: int, b: int| 0 <= a < b < unique@.len() implies unique@[a].date.day_spec()
                        != unique@[b].date.day_spec() by {
                        if b == before.len() {
                            assert(!on_day(before, a, entries@[i as int].date.day_spec()));
                        }
                    }
                }
            }
            i += 1;
        }
        proof {
            assert(entries@.take(i as int) =~= entries@);
        }
        let mut out: Vec<JournalEntry> = Vec::new();
        let mut k: usize = 0;
        while k < unique.len()
            invariant
                k <= unique@.len(),
                unique@ == unique_days(entries@),
                distinct_days(unique@),
                out@.len() == k,
                newest_first(out@),
                forall|y: JournalEntry| out@.contains(y) <==> unique@.take(k as int).contains(y),
            decreases unique@.len() - k,
        {
            let x = unique[k].clone();
            let mut p: usize = 0;
            while p < out.len() && !x.date.is_after(&out[p].date)
                invariant
                    p <= out@.len(),
                    forall|q: int| 0 <= q < p ==> !x.date.after_spec(#[trigger] out@[q].date),
                decreases out@.len() - p,
            {
                p += 1;
            }
            proof {
                assert forall|q: int| 0 <= q < out@.len() implies out@[q].date.day_spec() != x.date.day_spec() by {
                    assert(out@.contains(out@[q]));
                    let m = choose|m: int| 0 <= m < k && unique@.take(k as int)[m] == out@[q];
                    assert(unique@[m] == out@[q]);
                }
                assert forall|y: JournalEntry| unique@.take(k + 1).contains(y) <==> (y == x || unique@.take(k as int).contains(y)) by {
                    let t = unique@.take(k as int);
                    assert(unique@.take(k + 1) =~= t.push(x));
                    if t.push(x).contains(y) {
                        let j = choose|j: int| 0 <= j < t.len() + 1 && t.push(x)[j] == y;
                        if j < t.len() {
                            assert(t[j] == y);
                        }
                    }
                    if y == x {
                        assert(t.push(x)[t.len() as int] == y);
                    } else if t.contains(y) {
                        let j = choose|j: int| 0 <= j < t.len() && t[j] == y;
                        assert(t.push(x)[j] == y);
                    }
                }
            }
            let ghost prior = out@;
            out.insert(p, x);
            proof {
                lemma_insert_keeps_order(prior, x, p as int);
                assert forall|y: JournalEntry| out@.contains(y) <==> unique@.take(k + 1).contains(y) by {
                    assert(out@ == prior.insert(p as int, x));
                    assert(prior.insert(p as int, x).contains(y) <==> (y == x || prior.contains(y)));
                    assert(prior.contains(y) <==> unique@.take(k as int).contains(y));
                    assert(unique@.take(k + 1).contains(y) <==> (y == x || unique@.take(k as int).contains(y)));
                }
            }
            k += 1;
        }
        proof {
            assert(unique@.take(k as int) =~= unique@);
        }
        out
    }

    /// The first entry on the calendar day of `date`, if any.
    pub fn journal_entry_on(&self, date: Timestamp) -> (r: Option<JournalEntry>)
        ensures
            ({
                let i = day_index(self.journal_entries@, date.day_spec());
                if i >= 0 {
                    r == Some(self.journal_entries@[i])
                } else {
                    r.is_none()
                }
            }),
    {
        match find_day(&self.journal_entries, &date) {
            Some(i) => {
                proof {
                    lemma_day_index_first(self.journal_entries@, date.day_spec(), i as int);
                }
                Some(self.journal_entries[i].clone())
            },
            None => {
                proof {
                    lemma_day_index_none(self.journal_entries@, date.day_spec());
                }
                None
            },
        }
    }

    /// The first entry on the calendar day of an RFC 3339 date-time text;
    /// fails with `InvalidDate` where the text is not one.
    pub fn get_journal_entry_for_date(&self, date: &str) -> (r: Result<Option<JournalEntry>, StoreError>)
        ensures
            match rfc3339_instant(date@) {
                None => r == Err::<Option<JournalEntry>, StoreError>(StoreError::InvalidDate),
                Some(p) => {
                    let i = day_index(self.journal_entries@, Timestamp { secs: p.0, nanos: p.1 }.day_spec());
                    if i >= 0 {
                        r == Ok::<Option<JournalEntry>, StoreError>(Some(self.journal_entries@[i]))
                    } else {
                        r == Ok::<Option<JournalEntry>, StoreError>(None)
                    }
                },
            },
    {
        match parse_rfc3339(date) {
            None => Err(StoreError::InvalidDate),
            Some(t) => Ok(self.journal_entry_on(t)),
        }
    }
}

/// Two sequences that are both newest first and hold the same entries are
/// the same sequence.
proof fn lemma_newest_first_unique(a: Seq<JournalEntry>, b: Seq<JournalEntry>)
    requires
        newest_first(a),
        newest_first(b),
        a.len() == b.len(),
        forall|y: JournalEntry| a.contains(y) <==> b.contains(y),
    ensures
        a == b,
    decreases a.len(),
{
    if a.len() == 0 {
        assert(a =~= b);
    } else {
        assert(a.contains(a[0]));
        let j = choose|j: int| 0 <= j < b.len() && b[j] == a[0];
        assert(b.contains(b[0]));
        let i = choose|i: int| 0 <= i < a.len() && a[i] == b[0];
        if j > 0 {
            assert(b[0].date.after_spec(b[j].date));
            if i > 0 {
                assert(a[0].date.after_spec(a[i].date));
            }
        }
        assert(a[0] == b[0]);
        let a1 = a.drop_first();
        let b1 = b.drop_first();
        assert forall|y: JournalEntry| a1.contains(y) implies b1.contains(y) by {
            let k = choose|k: int| 0 <= k < a1.len() && a1[k] == y;
            assert(a.contains(y));
            assert(a[k + 1] == y);
            let m = choose|m: int| 0 <= m < b.len() && b[m] == y;
            assert(a[0].date.after_spec(a[k + 1].date));
            assert(m != 0);
            assert(b1[m - 1] == y);
        }
        assert forall|y: JournalEntry| b1.contains(y) implies a1.contains(y) by {
            let k = choose|k: int| 0 <= k < b1.len() && b1[k] == y;
            assert(b.contains(y));
            assert(b[k + 1] == y);
            let m = choose|m: int| 0 <= m < a.len() && a[m] == y;
            assert(b[0].date.after_spec(b[k + 1].date));
            assert(m != 0);
            assert(a1[m - 1] == y);
        }
        lemma_newest_first_unique(a1, b1);
        assert forall|k: int| 0 <= k < a.len() implies a[k] == b[k] by {
            if k > 0 {
                assert(a[k] == a1[k - 1]);
                assert(b[k] == b1[k - 1]);
            }
        }
        assert(a =~= b);
    }
}

/// Reading the journal is determined by its contents: two listings of the
/// same journal are equal, so reading it twice without a change in between
/// gives the same result.
pub proof fn lemma_listing_determined(s: Seq<JournalEntry>, r1: Seq<JournalEntry>, r2: Seq<JournalEntry>)
    requires
        is_listing(s, r1),
        is_listing(s, r2),
    ensures
        r1 == r2,
{
    lemma_newest_first_unique(r1, r2);
}

/// Writing twice for the same calendar day: the second write leaves the
/// number of entries as the first left it, and the entry of that day holds
/// the second content and date.
pub proof fn lemma_upsert_same_day(
    s: Seq<JournalEntry>,
    first: String,
    first_date: Timestamp,
    second: String,
    second_date: Timestamp,
)
    requires
        first_date.day_spec() == second_date.day_spec(),
    ensures
        ({
            let s1 = journal_upsert(s, first, first_date);
            let s2 = journal_upsert(s1, second, second_date);
            let i = day_index(s2, second_date.day_spec());
            &&& s2.len() == s1.len()
            &&& i == day_index(s1, first_date.day_spec())
            &&& 0 <= i < s2.len()
            &&& s2[i].content == second
            &&& s2[i].date == second_date
        }),
{
    let day = first_date.day_spec();
    let s1 = journal_upsert(s, first, first_date);
    let i0 = day_index(s, day);
    if i0 >= 0 {
        assert(first_on_day(s, day, i0));
        assert(s1 == s.update(i0, JournalEntry { id: s[i0].id, date: first_date, content: first }));
        assert forall|j: int| 0 <= j < i0 implies !on_day(s1, j, day) by {
            assert(s1[j] == s[j]);
            assert(!on_day(s, j, day));
        }
        assert(first_on_day(s1, day, i0));
        lemma_day_index_first(s1, day, i0);
    } else {
        if exists|j: int| 0 <= j < s.len() && on_day(s, j, day) {
            let j = choose|j: int| 0 <= j < s.len() && on_day(s, j, day);
            lemma_first_exists(s, day, j);
        }
        assert(s1 == s.push(JournalEntry { id: s.len() as usize, date: first_date, content: first }));
        assert forall|j: int| 0 <= j < s.len() implies !on_day(s1, j, day) by {
            assert(s1[j] == s[j]);
            if on_day(s, j, day) {
                lemma_first_exists(s, day, j);
            }
        }
        assert(first_on_day(s1, day, s.len() as int));
        lemma_day_index_first(s1, day, s.len() as int);
    }
    let i1 = day_index(s1, day);
    let s2 = journal_upsert(s1, second, second_date);
    assert(s2 == s1.update(i1, JournalEntry { id: s1[i1].id, date: second_date, content: second }));
    assert forall|j: int| 0 <= j < i1 implies !on_day(s2, j, day) by {
        assert(s2[j] == s1[j]);
        assert(!on_day(s1, j, day));
    }
    assert(first_on_day(s2, day, i1));
    lemma_day_index_first(s2, day, i1);
}

} // verus!
