//! The per-credential session table of the HTTP listener: one VSR session per
//! credential key, reused while its credential is live, expired entries swept
//! before a new one is admitted, and a cap on live sessions.

use vstd::prelude::*;

use crate::text::str_equals;

verus! {

/// One session of the table.
#[derive(Debug, PartialEq, Eq)]
pub struct SessionEntry {
    /// The credential key (`jwt:<jti>` or `pat:<hash>`).
    pub key: String,
    /// The VSR client id registered for the session.
    pub client_id: u128,
    /// The credential's expiry, in seconds since the epoch.
    pub expiry: u64,
}

/// The table: its entries, at most one per key, and the most it may hold.
pub struct SessionTable {
    pub entries: Vec<SessionEntry>,
    pub cap: usize,
}

/// An entry is live while its credential has not expired.
pub open spec fn is_live(e: SessionEntry, now: u64) -> bool {
    now < e.expiry
}

/// Index of the first entry keyed `key` at or after `from`; the length when
/// there is none.
pub open spec fn key_index_from(entries: Seq<SessionEntry>, key: Seq<char>, from: int) -> int
    decreases entries.len() - from,
{
    if from < 0 || from >= entries.len() {
        entries.len() as int
    } else if entries[from].key@ == key {
        from
    } else {
        key_index_from(entries, key, from + 1)
    }
}

pub open spec fn key_index(entries: Seq<SessionEntry>, key: Seq<char>) -> int {
    key_index_from(entries, key, 0)
}

/// No key occurs twice.
pub open spec fn keys_unique(entries: Seq<SessionEntry>) -> bool {
    forall|i: int, j: int| 0 <= i < j < entries.len() ==> #[trigger] entries[i].key@ != #[trigger] entries[j].key@
}

/// The live entries, in order.
pub open spec fn live_entries(entries: Seq<SessionEntry>, now: u64) -> Seq<SessionEntry>
    decreases entries.len(),
{
    if entries.len() == 0 {
        seq![]
    } else if is_live(entries.last(), now) {
        live_entries(entries.drop_last(), now).push(entries.last())
    } else {
        live_entries(entries.drop_last(), now)
    }
}

/// The client ids of the expired entries, in order.
pub open spec fn expired_ids(entries: Seq<SessionEntry>, now: u64) -> Seq<u128>
    decreases entries.len(),
{
    if entries.len() == 0 {
        seq![]
    } else if is_live(entries.last(), now) {
        expired_ids(entries.drop_last(), now)
    } else {
        expired_ids(entries.drop_last(), now).push(entries.last().client_id)
    }
}

/// The live session of `key`: its client id, when the entry keyed `key` is
/// live.
pub open spec fn spec_live_session(entries: Seq<SessionEntry>, key: Seq<char>, now: u64) -> Option<u128> {
    let i = key_index(entries, key);
    if i < entries.len() && is_live(entries[i], now) {
        Some(entries[i].client_id)
    } else {
        None
    }
}

/// `entries` with `entry` installed under its key: replacing the entry of
/// that key, or added at the end.
pub open spec fn spec_install(entries: Seq<SessionEntry>, entry: SessionEntry) -> Seq<SessionEntry> {
    let i = key_index(entries, entry.key@);
    if i < entries.len() {
        entries.update(i, entry)
    } else {
        entries.push(entry)
    }
}

proof fn lemma_key_index_from(entries: Seq<SessionEntry>, key: Seq<char>, from: int)
    requires
        0 <= from,
    ensures
        from <= key_index_from(entries, key, from) <= entries.len() || (from > entries.len()
            && key_index_from(entries, key, from) == entries.len()),
        key_index_from(entries, key, from) < entries.len() ==> entries[key_index_from(entries, key, from)].key@
            == key,
        forall|j: int|
            from <= j < key_index_from(entries, key, from) && j < entries.len() ==> #[trigger] entries[j].key@
                != key,
    decreases entries.len() - from,
{
    if from < entries.len() && entries[from].key@ != key {
        lemma_key_index_from(entries, key, from + 1);
    }
}

proof fn lemma_live_entries_keys(entries: Seq<SessionEntry>, now: u64)
    ensures
        live_entries(entries, now).len() <= entries.len(),
        forall|i: int|
            0 <= i < live_entries(entries, now).len() ==> is_live(#[trigger] live_entries(entries, now)[i], now)
                && exists|j: int| 0 <= j < entries.len() && entries[j] == live_entries(entries, now)[i],
        forall|j: int| 0 <= j < entries.len() && is_live(#[trigger] entries[j], now) ==> live_entries(
            entries,
            now,
        ).contains(entries[j]),
    decreases entries.len(),
{
    if entries.len() > 0 {
        let init = entries.drop_last();
        lemma_live_entries_keys(init, now);
        let k = live_entries(init, now);
        assert forall|i: int|
            0 <= i < live_entries(entries, now).len() implies is_live(
            #[trigger] live_entries(entries, now)[i],
            now,
        ) && exists|j: int| 0 <= j < entries.len() && entries[j] == live_entries(entries, now)[i] by {
            if i < k.len() {
                let j = choose|j: int| 0 <= j < init.len() && init[j] == k[i];
                assert(entries[j] == init[j]);
            } else {
                assert(entries[entries.len() - 1] == entries.last());
            }
        }
        assert forall|j: int| 0 <= j < entries.len() && is_live(#[trigger] entries[j], now) implies live_entries(
            entries,
            now,
        ).contains(entries[j]) by {
            if j < init.len() {
                assert(init[j] == entries[j]);
                let m = choose|m: int| 0 <= m < k.len() && k[m] == init[j];
                if is_live(entries.last(), now) {
                    assert(live_entries(entries, now)[m] == k[m]);
                }
            } else {
                let l = live_entries(entries, now);
                assert(l[l.len() - 1] == entries.last());
            }
        }
    }
}

impl SessionTable {
    /// The empty table holding at most `cap` sessions.
    pub fn new(cap: usize) -> (t: Self)
        ensures
            t.entries@.len() == 0,
            t.cap == cap,
    {
        SessionTable { entries: Vec::new(), cap }
    }

    fn find_key(&self, key: &str) -> (i: usize)
        ensures
            i == key_index(self.entries@, key@),
    {
        let mut i: usize = 0;
        while i < self.entries.len()
            invariant
                i <= self.entries@.len(),
                key_index(self.entries@, key@) == key_index_from(self.entries@, key@, i as int),
            decreases self.entries@.len() - i,
        {
            if str_equals(self.entries[i].key.as_str(), key) {
                return i;
            }
            i += 1;
        }
        i
    }

    /// The client id of the live session of `key` at `now` (seconds since
    /// the epoch), if there is one.
    pub fn live_session(&self, key: &str, now: u64) -> (r: Option<u128>)
        ensures
            r == spec_live_session(self.entries@, key@, now),
    {
        let i = self.find_key(key);
        if i < self.entries.len() && now < self.entries[i].expiry {
            Some(self.entries[i].client_id)
        } else {
            None
        }
    }

    /// Drops every expired entry, keeping the live ones in order, and gives
    /// the client ids of those dropped, whose reply targets are then torn
    /// down.
    pub fn sweep_expired(&mut self, now: u64) -> (torn: Vec<u128>)
        ensures
            final(self).entries@ == live_entries(old(self).entries@, now),
            final(self).cap == old(self).cap,
            torn@ == expired_ids(old(self).entries@, now),
    {
        let mut kept: Vec<SessionEntry> = Vec::new();
        let mut torn: Vec<u128> = Vec::new();
        let ghost start = self.entries@;
        let cap = self.cap;
        let mut entries = Vec::new();
        std::mem::swap(&mut entries, &mut self.entries);
        assert(entries@ == start);
        let mut i: usize = 0;
        assert(start.take(0) =~= Seq::<SessionEntry>::empty());
        while i < entries.len()
            invariant
                i <= entries@.len(),
                entries@ == start,
                kept@ == live_entries(start.take(i as int), now),
                torn@ == expired_ids(start.take(i as int), now),
            decreases entries@.len() - i,
        {
            proof {
                assert(start.take(i + 1).drop_last() =~= start.take(i as int));
                assert(start.take(i + 1).last() == start[i as int]);
            }
            let e = &entries[i];
            if now < e.expiry {
                kept.push(SessionEntry { key: e.key.clone(), client_id: e.client_id, expiry: e.expiry });
                proof {
                    assert(kept@.last().key@ == start[i as int].key@);
                    assert(kept@.last() == start[i as int]);
                }
            } else {
                torn.push(e.client_id);
            }
            i += 1;
        }
        assert(start.take(i as int) =~= start);
        self.entries = kept;
        self.cap = cap;
        torn
    }

    /// Installs `entry` under its key, replacing that key's entry if any.
    fn install(&mut self, entry: SessionEntry)
        ensures
            final(self).entries@ == spec_install(old(self).entries@, entry),
            final(self).cap == old(self).cap,
    {
        let i = self.find_key(entry.key.as_str());
        if i < self.entries.len() {
            self.entries.set(i, entry);
        } else {
            self.entries.push(entry);
        }
    }

    /// Installs a freshly registered session at `now`: expired entries are
    /// swept first, then the session is refused when the table still holds
    /// `cap` or more entries (no live session is evicted for it), and
    /// installed under its key otherwise. Gives whether it was admitted and
    /// the client ids of the swept entries.
    pub fn install_registered(&mut self, entry: SessionEntry, now: u64) -> (r: (bool, Vec<u128>))
        ensures
            r.1@ == expired_ids(old(self).entries@, now),
            final(self).cap == old(self).cap,
            r.0 == (live_entries(old(self).entries@, now).len() < old(self).cap),
            r.0 ==> final(self).entries@ == spec_install(live_entries(old(self).entries@, now), entry),
            !r.0 ==> final(self).entries@ == live_entries(old(self).entries@, now),
    {
        let torn = self.sweep_expired(now);
        if self.entries.len() >= self.cap {
            (false, torn)
        } else {
            self.install(entry);
            (true, torn)
        }
    }

    /// Removes the entry of `key` only while it still belongs to the session
    /// `client_id`, so a later registration under the same key is never
    /// purged; gives the client id removed.
    pub fn forget_if_same(&mut self, key: &str, client_id: u128) -> (r: Option<u128>)
        ensures
            final(self).cap == old(self).cap,
            ({
                let i = key_index(old(self).entries@, key@);
                if i < old(self).entries@.len() && old(self).entries@[i].client_id == client_id {
                    r == Some(client_id) && final(self).entries@ == old(self).entries@.remove(i)
                } else {
                    r is None && final(self).entries@ == old(self).entries@
                }
            }),
    {
        let i = self.find_key(key);
        if i < self.entries.len() && self.entries[i].client_id == client_id {
            self.entries.remove(i);
            Some(client_id)
        } else {
            None
        }
    }
}

// ---------------------------------------------------------------------------
// Laws
// ---------------------------------------------------------------------------

/// Sweeping keeps exactly the live entries: every kept entry is live and
/// was in the table, and no live entry is lost.
pub proof fn law_sweep_keeps_exactly_the_live(entries: Seq<SessionEntry>, now: u64)
    ensures
        forall|i: int|
            0 <= i < live_entries(entries, now).len() ==> is_live(#[trigger] live_entries(entries, now)[i], now)
                && entries.contains(live_entries(entries, now)[i]),
        forall|j: int| 0 <= j < entries.len() && is_live(#[trigger] entries[j], now) ==> live_entries(
            entries,
            now,
        ).contains(entries[j]),
{
    lemma_live_entries_keys(entries, now);
    assert forall|i: int| 0 <= i < live_entries(entries, now).len() implies is_live(
        #[trigger] live_entries(entries, now)[i],
        now,
    ) && entries.contains(live_entries(entries, now)[i]) by {
        let j = choose|j: int| 0 <= j < entries.len() && entries[j] == live_entries(entries, now)[i];
    }
}

/// An installed session is the one a later lookup of its key finds while its
/// credential is live, and installing never takes the table beyond its cap.
pub proof fn law_installed_session_is_found(entries: Seq<SessionEntry>, cap: usize, entry: SessionEntry, now: u64, later: u64)
    requires
        live_entries(entries, now).len() < cap,
        later < entry.expiry,
    ensures
        spec_live_session(spec_install(live_entries(entries, now), entry), entry.key@, later) == Some(
            entry.client_id,
        ),
        spec_install(live_entries(entries, now), entry).len() <= cap,
{
    let l = live_entries(entries, now);
    lemma_key_index_from(l, entry.key@, 0);
    let t = spec_install(l, entry);
    let i = key_index(l, entry.key@);
    if i < l.len() {
        lemma_key_index_from(t, entry.key@, 0);
        assert forall|j: int| 0 <= j < i implies #[trigger] t[j].key@ != entry.key@ by {
            assert(t[j] == l[j]);
        }
        assert(t[i].key@ == entry.key@);
        assert(key_index(t, entry.key@) == i) by {
            if key_index(t, entry.key@) > i {
                assert(t[i].key@ != entry.key@);
            }
            if key_index(t, entry.key@) < i {
                assert(t[key_index(t, entry.key@)] == l[key_index(t, entry.key@)]);
            }
        }
    } else {
        lemma_key_index_from(t, entry.key@, 0);
        assert(t[l.len() as int] == entry);
        assert(key_index(t, entry.key@) == l.len()) by {
            if key_index(t, entry.key@) < l.len() {
                assert(t[key_index(t, entry.key@)] == l[key_index(t, entry.key@)]);
            }
        }
    }
}

proof fn lemma_live_entries_unique(entries: Seq<SessionEntry>, now: u64)
    requires
        keys_unique(entries),
    ensures
        keys_unique(live_entries(entries, now)),
    decreases entries.len(),
{
    if entries.len() > 0 {
        let init = entries.drop_last();
        assert forall|i: int, j: int| 0 <= i < j < init.len() implies #[trigger] init[i].key@ != #[trigger] init[j].key@ by {
            assert(init[i] == entries[i] && init[j] == entries[j]);
        }
        lemma_live_entries_unique(init, now);
        lemma_live_entries_keys(init, now);
        let k = live_entries(init, now);
        if is_live(entries.last(), now) {
            let l = k.push(entries.last());
            assert forall|i: int, j: int| 0 <= i < j < l.len() implies #[trigger] l[i].key@ != #[trigger] l[j].key@ by {
                if j == k.len() {
                    let m = choose|m: int| 0 <= m < init.len() && init[m] == k[i];
                    assert(entries[m] == init[m]);
                    assert(entries[entries.len() - 1] == entries.last());
                } else {
                    assert(l[i] == k[i] && l[j] == k[j]);
                }
            }
        }
    }
}

/// The table keeps one entry per key: sweeping, installing a session and
/// forgetting one never make a key occur twice.
pub proof fn law_keys_stay_unique(entries: Seq<SessionEntry>, now: u64, entry: SessionEntry, i: int)
    requires
        keys_unique(entries),
    ensures
        keys_unique(live_entries(entries, now)),
        keys_unique(spec_install(entries, entry)),
        0 <= i < entries.len() ==> keys_unique(entries.remove(i)),
{
    lemma_live_entries_unique(entries, now);
    lemma_key_index_from(entries, entry.key@, 0);
    let t = spec_install(entries, entry);
    let k = key_index(entries, entry.key@);
    assert forall|a: int, b: int| 0 <= a < b < t.len() implies #[trigger] t[a].key@ != #[trigger] t[b].key@ by {
        if k < entries.len() {
            if a == k {
                assert(t[b] == entries[b]);
            } else if b == k {
                assert(t[a] == entries[a]);
            } else {
                assert(t[a] == entries[a] && t[b] == entries[b]);
            }
        } else if b == entries.len() {
            assert(t[a] == entries[a]);
        } else {
            assert(t[a] == entries[a] && t[b] == entries[b]);
        }
    }
    if 0 <= i < entries.len() {
        let r = entries.remove(i);
        assert forall|a: int, b: int| 0 <= a < b < r.len() implies #[trigger] r[a].key@ != #[trigger] r[b].key@ by {
            let a2 = if a < i { a } else { a + 1 };
            let b2 = if b < i { b } else { b + 1 };
            assert(r[a] == entries[a2] && r[b] == entries[b2]);
        }
    }
}

} // verus!
