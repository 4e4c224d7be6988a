//! The edit tracker: correlates a triggering message with the bot's
//! response, so that an edit to the trigger can update that response in
//! place instead of sending a new one.
use vstd::prelude::*;

verus! {

/// One correlation: the triggering message and the bot's response to it.
pub struct EditTrackerEntry {
    /// Identifier of the triggering user message.
    pub trigger_id: u64,
    /// Identifier of the bot's response message.
    pub response_id: u64,
}

/// The response recorded for `id` by the entries `s`, scanning front to
/// back.
pub open spec fn spec_lookup(s: Seq<EditTrackerEntry>, id: u64) -> Option<u64>
    decreases s.len(),
{
    if s.len() == 0 {
        None
    } else if s[0].trigger_id == id {
        Some(s[0].response_id)
    } else {
        spec_lookup(s.drop_first(), id)
    }
}

/// No two entries track the same triggering message.
pub open spec fn entries_unique(s: Seq<EditTrackerEntry>) -> bool {
    forall|i: int, j: int|
        0 <= i < j < s.len() ==> (#[trigger] s[i].trigger_id) != (#[trigger] s[j].trigger_id)
}

pub proof fn lemma_lookup_skip(s: Seq<EditTrackerEntry>, k: int, id: u64)
    requires
        0 <= k <= s.len(),
        forall|j: int| 0 <= j < k ==> (#[trigger] s[j].trigger_id) != id,
    ensures
        spec_lookup(s, id) == spec_lookup(s.skip(k), id),
    decreases k,
{
    if k > 0 {
        assert(s[0].trigger_id != id);
        assert(forall|j: int| 0 <= j < k - 1 ==> s.drop_first()[j] == s[j + 1]);
        lemma_lookup_skip(s.drop_first(), k - 1, id);
        assert(s.drop_first().skip(k - 1) =~= s.skip(k));
    } else {
        assert(s.skip(0) =~= s);
    }
}

pub proof fn lemma_lookup_found(s: Seq<EditTrackerEntry>, k: int, id: u64)
    requires
        0 <= k < s.len(),
        forall|j: int| 0 <= j < k ==> (#[trigger] s[j].trigger_id) != id,
        s[k].trigger_id == id,
    ensures
        spec_lookup(s, id) == Some(s[k].response_id),
{
    lemma_lookup_skip(s, k, id);
    assert(s.skip(k)[0] == s[k]);
}

pub proof fn lemma_lookup_push(s: Seq<EditTrackerEntry>, e: EditTrackerEntry, id: u64)
    ensures
        spec_lookup(s.push(e), id) == (match spec_lookup(s, id) {
            Some(r) => Some(r),
            None => if e.trigger_id == id {
                Some(e.response_id)
            } else {
                None
            },
        }),
    decreases s.len(),
{
    assert(s.push(e)[0] == (if s.len() == 0 {
        e
    } else {
        s[0]
    }));
    if s.len() == 0 {
        assert(s.push(e).drop_first() =~= Seq::<EditTrackerEntry>::empty());
        assert(spec_lookup(s.push(e).drop_first(), id) is None);
        assert(spec_lookup(s, id) is None);
    } else {
        assert(s.push(e).drop_first() =~= s.drop_first().push(e));
        lemma_lookup_push(s.drop_first(), e, id);
        if s[0].trigger_id == id {
            assert(spec_lookup(s.push(e), id) == Some(s[0].response_id));
            assert(spec_lookup(s, id) == Some(s[0].response_id));
        } else {
            assert(spec_lookup(s.push(e), id) == spec_lookup(s.drop_first().push(e), id));
            assert(spec_lookup(s, id) == spec_lookup(s.drop_first(), id));
        }
    }
}

pub proof fn lemma_lookup_remove(s: Seq<EditTrackerEntry>, k: int, id: u64)
    requires
        0 <= k < s.len(),
        entries_unique(s),
    ensures
        spec_lookup(s.remove(k), id) == (if s[k].trigger_id == id {
            None::<u64>
        } else {
            spec_lookup(s, id)
        }),
    decreases s.len(),
{
    if k == 0 {
        assert(s.remove(0) =~= s.drop_first());
        if s[0].trigger_id == id {
            lemma_lookup_none_when_absent(s.drop_first(), id);
        }
    } else {
        assert(s.remove(k).drop_first() =~= s.drop_first().remove(k - 1));
        assert(entries_unique(s.drop_first())) by {
            assert(forall|j: int| 0 <= j < s.len() - 1 ==> s.drop_first()[j] == s[j + 1]);
        }
        lemma_lookup_remove(s.drop_first(), k - 1, id);
    }
}

pub proof fn lemma_lookup_none_when_absent(s: Seq<EditTrackerEntry>, id: u64)
    requires
        forall|j: int| 0 <= j < s.len() ==> (#[trigger] s[j].trigger_id) != id,
    ensures
        spec_lookup(s, id) is None,
{
    lemma_lookup_skip(s, s.len() as int, id);
    assert(s.skip(s.len() as int) =~= Seq::<EditTrackerEntry>::empty());
}

/// Maps triggering-message identifiers to the bot's responses. At most one
/// entry per trigger.
pub struct EditTracker {
    entries: Vec<EditTrackerEntry>,
}

impl EditTracker {
    /// The recorded correlations, in insertion order.
    pub closed spec fn view(&self) -> Seq<EditTrackerEntry> {
        self.entries@
    }

    /// Every tracker built and mutated through this interface keeps one
    /// entry per trigger.
    pub closed spec fn wf(&self) -> bool {
        entries_unique(self.entries@)
    }

    /// An empty tracker.
    pub fn new() -> (r: EditTracker)
        ensures
            r.wf(),
            r@.len() == 0,
    {
        EditTracker { entries: Vec::new() }
    }

    /// The response recorded for the given triggering message.
    pub fn lookup(&self, trigger_id: u64) -> (r: Option<u64>)
        ensures
            r == spec_lookup(self@, trigger_id),
    {
        let n = self.entries.len();
        let mut k: usize = 0;
        while k < n
            invariant
                n == self.entries@.len(),
                0 <= k <= n,
                forall|j: int| 0 <= j < k ==> (#[trigger] self.entries@[j].trigger_id) != trigger_id,
            decreases n - k,
        {
            if self.entries[k].trigger_id == trigger_id {
                proof {
                    lemma_lookup_found(self.entries@, k as int, trigger_id);
                }
                return Some(self.entries[k].response_id);
            }
            k = k + 1;
        }
        proof {
            lemma_lookup_none_when_absent(self.entries@, trigger_id);
        }
        None
    }

    /// Record the response to a triggering message, replacing a previous
    /// correlation of the same trigger. Other correlations are untouched.
    pub fn register(&mut self, trigger_id: u64, response_id: u64)
        requires
            old(self).wf(),
        ensures
            final(self).wf(),
            spec_lookup(final(self)@, trigger_id) == Some(response_id),
            forall|other: u64|
                other != trigger_id ==> #[trigger] spec_lookup(final(self)@, other)
                    == spec_lookup(old(self)@, other),
    {
        self.evict(trigger_id);
        let ghost mid = self.entries@;
        self.entries.push(EditTrackerEntry { trigger_id, response_id });
        proof {
            let e = EditTrackerEntry { trigger_id, response_id };
            assert forall|other: u64| other != trigger_id implies #[trigger] spec_lookup(
                self@,
                other,
            ) == spec_lookup(mid, other) by {
                lemma_lookup_push(mid, e, other);
            }
            lemma_lookup_push(mid, e, trigger_id);
            lemma_lookup_none_when_absent_converse(mid, trigger_id);
            assert forall|i: int, j: int|
                0 <= i < j < self.entries@.len() implies (#[trigger] self.entries@[i].trigger_id)
                != (#[trigger] self.entries@[j].trigger_id) by {
                if j == self.entries@.len() - 1 {
                    lemma_lookup_found(mid, i, mid[i].trigger_id);
                }
            }
        }
    }

    /// Forget the correlation of the given triggering message, if any.
    /// Other correlations are untouched.
    pub fn evict(&mut self, trigger_id: u64)
        requires
            old(self).wf(),
        ensures
            final(self).wf(),
            spec_lookup(final(self)@, trigger_id) is None,
            forall|other: u64|
                other != trigger_id ==> #[trigger] spec_lookup(final(self)@, other)
                    == spec_lookup(old(self)@, other),
    {
        let n = self.entries.len();
        let mut k: usize = 0;
        while k < n
            invariant
                n == self.entries@.len(),
                0 <= k <= n,
                self.entries@ == old(self).entries@,
                entries_unique(self.entries@),
                forall|j: int| 0 <= j < k ==> (#[trigger] self.entries@[j].trigger_id) != trigger_id,
            decreases n - k,
        {
            if self.entries[k].trigger_id == trigger_id {
                proof {
                    lemma_lookup_found(self.entries@, k as int, trigger_id);
                }
                let ghost pre = self.entries@;
                self.entries.remove(k);
                proof {
                    assert forall|other: u64| other != trigger_id implies #[trigger] spec_lookup(
                        self@,
                        other,
                    ) == spec_lookup(pre, other) by {
                        lemma_lookup_remove(pre, k as int, other);
                    }
                    lemma_lookup_remove(pre, k as int, trigger_id);
                    assert(entries_unique(self.entries@)) by {
                        assert(forall|j: int|
                            0 <= j < self.entries@.len() ==> self.entries@[j] == (if j < k {
                                pre[j]
                            } else {
                                pre[j + 1]
                            }));
                    }
                }
                return ;
            }
            k = k + 1;
        }
        proof {
            lemma_lookup_none_when_absent(self.entries@, trigger_id);
        }
    }
}

/// An entry that a scan finds is at some position.
pub proof fn lemma_lookup_none_when_absent_converse(s: Seq<EditTrackerEntry>, id: u64)
    requires
        spec_lookup(s, id) is None,
    ensures
        forall|j: int| 0 <= j < s.len() ==> (#[trigger] s[j].trigger_id) != id,
    decreases s.len(),
{
    if s.len() > 0 {
        lemma_lookup_none_when_absent_converse(s.drop_first(), id);
        assert(forall|j: int| 1 <= j < s.len() ==> s[j] == s.drop_first()[j - 1]);
    }
}

} // verus!
