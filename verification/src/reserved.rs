//! The list of user ids that nobody may sign up with.
use vstd::prelude::*;

use crate::search_query::join_seqs;
use crate::text::push_char;
use crate::user::UserId;

verus! {

/// How long a read list of reserved ids is trusted: one day, in milliseconds.
pub const UPDATE_INTERVAL_MS: i64 = 86_400_000;

/// Calls `chrono::Utc::now().timestamp_millis()`: the current time in
/// milliseconds since the Unix epoch. Nothing is claimed of its value.
#[verifier::external_body]
fn now_millis() -> (t: i64) {
    chrono::Utc::now().timestamp_millis()
}

/// The lines of `s`: the pieces between its line breaks (one more piece than
/// there are line breaks; an empty text has one empty line).
pub open spec fn lines_of(s: Seq<char>) -> Seq<Seq<char>>
    decreases s.len(),
{
    if s.len() == 0 {
        seq![Seq::<char>::empty()]
    } else if s.last() == '\n' {
        lines_of(s.drop_last()).push(Seq::<char>::empty())
    } else {
        let l = lines_of(s.drop_last());
        l.update(l.len() - 1, l.last().push(s.last()))
    }
}

/// The lines of `text` (see [`lines_of`]): `text` is them joined by line
/// breaks, and none holds one.
pub fn split_lines(text: &str) -> (r: Vec<String>)
    ensures
        r@.map_values(|s: String| s@) == lines_of(text@),
        r@.len() >= 1,
        join_seqs(r@.map_values(|s: String| s@), seq!['\n']) == text@,
        forall|k: int| 0 <= k < r@.len() ==> !(#[trigger] r@[k])@.contains('\n'),
{
    let n = text.unicode_len();
    let mut pieces: Vec<String> = Vec::new();
    let mut cur = String::new();
    let mut i: usize = 0;
    assert(text@.subrange(0, 0) =~= Seq::<char>::empty());
    assert(pieces@.map_values(|s: String| s@).push(cur@) =~= seq![Seq::<char>::empty()]);
    while i < n
        invariant
            n == text@.len(),
            i <= n,
            join_seqs(pieces@.map_values(|s: String| s@).push(cur@), seq!['\n']) == text@.subrange(0, i as int),
            pieces@.map_values(|s: String| s@).push(cur@) == lines_of(text@.subrange(0, i as int)),
            forall|k: int| 0 <= k < pieces@.len() ==> !(#[trigger] pieces@[k])@.contains('\n'),
            !cur@.contains('\n'),
        decreases n - i,
    {
        let c = text.get_char(i);
        let ghost pv = pieces@.map_values(|s: String| s@);
        if c == '\n' {
            pieces.push(cur);
            cur = String::new();
            proof {
                let pv2 = pieces@.map_values(|s: String| s@);
                assert(pv2 =~= pv.push(pieces@.last()@));
                let all = pv2.push(cur@);
                assert(all.drop_last() =~= pv2);
                assert(cur@ =~= Seq::<char>::empty());
                assert(text@.subrange(0, i + 1) =~= text@.subrange(0, i as int) + seq!['\n']);
                assert(join_seqs(all, seq!['\n']) =~= text@.subrange(0, i + 1));
                let p1 = text@.subrange(0, i + 1);
                assert(p1.drop_last() =~= text@.subrange(0, i as int));
                assert(p1.last() == '\n');
                assert(all =~= lines_of(text@.subrange(0, i as int)).push(Seq::<char>::empty()));
            }
        } else {
            let ghost old_cur = cur@;
            push_char(&mut cur, c);
            proof {
                let all = pv.push(cur@);
                let before = pv.push(old_cur);
                assert(all.drop_last() =~= pv);
                assert(before.drop_last() =~= pv);
                assert(text@.subrange(0, i + 1) =~= text@.subrange(0, i as int).push(c));
                if pv.len() == 0 {
                    assert(join_seqs(all, seq!['\n']) == cur@);
                } else {
                    assert(join_seqs(all, seq!['\n']) == join_seqs(pv, seq!['\n']) + seq!['\n'] + cur@);
                }
                assert(join_seqs(all, seq!['\n']) =~= text@.subrange(0, i + 1));
                let p1 = text@.subrange(0, i + 1);
                assert(p1.drop_last() =~= text@.subrange(0, i as int));
                assert(p1.last() == c);
                let l = lines_of(text@.subrange(0, i as int));
                assert(l == before);
                assert(all =~= l.update(l.len() - 1, l.last().push(c)));
                assert forall|x: char| cur@.contains(x) implies x != '\n' by {
                    let k = choose|k: int| 0 <= k < cur@.len() && cur@[k] == x;
                    if k < old_cur.len() {
                        assert(old_cur[k] == x);
                    }
                }
            }
        }
        i = i + 1;
    }
    let ghost pv = pieces@.map_values(|s: String| s@);
    pieces.push(cur);
    proof {
        assert(pieces@.map_values(|s: String| s@) =~= pv.push(pieces@.last()@));
        assert(text@.subrange(0, n as int) =~= text@);
    }
    pieces
}

/// The reserved user ids, with the time they must be read again.
pub struct ReservedUidsReader {
    pub reserved_ids: Vec<UserId>,
    pub next_update_time: i64,
}

impl ReservedUidsReader {
    /// A reader that has read nothing yet and must read at once.
    pub fn new() -> (r: ReservedUidsReader)
        ensures
            r.reserved_ids@.len() == 0,
            r.next_update_time == i64::MIN,
    {
        ReservedUidsReader { reserved_ids: Vec::new(), next_update_time: i64::MIN }
    }

    /// Whether the list must be read again at time `now`.
    pub fn needs_update(&self, now: i64) -> (b: bool)
        ensures
            b == (self.next_update_time <= now),
    {
        self.next_update_time <= now
    }

    /// Reads the clock and tells whether the list must be read again now;
    /// the time read is handed back beside the answer.
    pub fn due_now(&self) -> (r: (bool, i64))
        ensures
            r.0 == (self.next_update_time <= r.1),
    {
        let now = now_millis();
        (self.needs_update(now), now)
    }

    /// Takes the reserved ids from `text`, one per line, read at time `now`;
    /// they are trusted for [`UPDATE_INTERVAL_MS`].
    pub fn update(&mut self, text: &str, now: i64)
        requires
            now <= i64::MAX - UPDATE_INTERVAL_MS,
        ensures
            final(self).reserved_ids@.map_values(|u: UserId| u@) == lines_of(text@),
            join_seqs(final(self).reserved_ids@.map_values(|u: UserId| u@), seq!['\n']) == text@,
            forall|k: int| 0 <= k < final(self).reserved_ids@.len() ==> !(#[trigger] final(self).reserved_ids@[k])@.contains('\n'),
            final(self).next_update_time == now + UPDATE_INTERVAL_MS,
    {
        let mut lines = split_lines(text);
        let ghost lv = lines@.map_values(|s: String| s@);
        let n = lines.len();
        let mut ids: Vec<UserId> = Vec::new();
        let mut i: usize = 0;
        assert forall|k: int| 0 <= k < n implies !(#[trigger] lv[k]).contains('\n') by {
            assert(lv[k] == lines@[k]@);
        }
        while i < n
            invariant
                n == lv.len(),
                lines@.len() == n - i,
                i <= n,
                forall|k: int| 0 <= k < lines@.len() ==> (#[trigger] lines@[k])@ == lv[i + k],
                ids@.len() == i,
                forall|k: int| 0 <= k < i ==> (#[trigger] ids@[k])@ == lv[k],
                forall|k: int| 0 <= k < n ==> !(#[trigger] lv[k]).contains('\n'),
            decreases n - i,
        {
            let ghost old_lines = lines@;
            let line = lines.remove(0);
            proof {
                assert(line@ == lv[i as int]);
                assert forall|k: int| 0 <= k < lines@.len() implies (#[trigger] lines@[k])@ == lv[i + 1 + k] by {
                    assert(lines@[k] == old_lines[k + 1]);
                }
            }
            ids.push(UserId::from_string(line));
            i = i + 1;
        }
        assert(ids@.map_values(|u: UserId| u@) =~= lv);
        self.reserved_ids = ids;
        self.next_update_time = now + UPDATE_INTERVAL_MS;
    }

    /// Whether `id` is reserved.
    pub fn contains(&self, id: &UserId) -> (b: bool)
        ensures
            b == holds_id(*self, id@),
    {
        let mut i: usize = 0;
        while i < self.reserved_ids.len()
            invariant
                i <= self.reserved_ids@.len(),
                forall|k: int| 0 <= k < i ==> (#[trigger] self.reserved_ids@[k])@ != id@,
            decreases self.reserved_ids@.len() - i,
        {
            if self.reserved_ids[i].same_as(id) {
                return true;
            }
            i = i + 1;
        }
        false
    }
}

/// Whether `id` is among the ids that `r` holds, as [`ReservedUidsReader::contains`] answers.
pub open spec fn holds_id(r: ReservedUidsReader, id: Seq<char>) -> bool {
    exists|k: int| 0 <= k < r.reserved_ids@.len() && (#[trigger] r.reserved_ids@[k])@ == id
}

/// Once the list is read from `text`, an id is reserved exactly when it is
/// one of the lines of `text`.
pub proof fn lemma_reserved_after_update(r: ReservedUidsReader, text: Seq<char>, id: Seq<char>)
    requires
        r.reserved_ids@.map_values(|u: UserId| u@) == lines_of(text),
    ensures
        holds_id(r, id) <==> lines_of(text).contains(id),
{
    let v = r.reserved_ids@.map_values(|u: UserId| u@);
    if holds_id(r, id) {
        let k = choose|k: int| 0 <= k < r.reserved_ids@.len() && (#[trigger] r.reserved_ids@[k])@ == id;
        assert(v[k] == id);
    }
    if lines_of(text).contains(id) {
        let k = choose|k: int| 0 <= k < v.len() && v[k] == id;
        assert(r.reserved_ids@[k]@ == id);
    }
}

} // verus!
