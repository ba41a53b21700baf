//! Provider health for the session, and the walk down a kind's chain that
//! asks each provider in turn until one holds data.

use vstd::prelude::*;
use crate::chains::{chain_plugins, resolved, Plugin, ProviderChains, ProviderKind};

verus! {

/// Consecutive failures after which a provider sits out the session.
pub const FAILURE_LIMIT: u8 = 3;

/// What one call did to a provider's health.
#[derive(Clone, Copy, Debug, PartialEq, Eq, Structural)]
pub enum PluginHealthChange {
    /// Nothing worth telling.
    Unchanged,
    /// Another failure in a row; the count so far.
    Failure(u8),
    /// This failure disabled the provider for the session; the count.
    Disabled(u8),
    /// A provider that was failing answered successfully again.
    Recovered,
    /// The provider was already disabled.
    AlreadyDisabled,
}

/// One module's failure streak, by its identity: id and digest.
#[derive(Debug)]
struct HealthEntry {
    id: String,
    sha256: String,
    failures: u8,
}

/// Runtime-only provider health: each module identity's streak of
/// consecutive failures. It starts empty when Woofer starts.
#[derive(Debug)]
pub struct PluginHealth {
    entries: Vec<HealthEntry>,
}

/// Whether `e` is the entry of the identity `(id, sha)`.
pub open spec fn is_identity(e_id: Seq<char>, e_sha: Seq<char>, id: Seq<char>, sha: Seq<char>) -> bool {
    e_id == id && e_sha == sha
}

/// Whether the entry `e` belongs to the identity `(id, sha)`.
spec fn entry_is(e: HealthEntry, id: Seq<char>, sha: Seq<char>) -> bool {
    is_identity(e.id@, e.sha256@, id, sha)
}

/// Each identity has at most one entry, and no streak passes the limit.
spec fn entries_ok(es: Seq<HealthEntry>) -> bool {
    &&& forall|i: int, j: int|
        0 <= i < j < es.len() ==> !is_identity(#[trigger] es[i].id@, es[i].sha256@, #[trigger] es[j].id@, es[j].sha256@)
    &&& forall|i: int| 0 <= i < es.len() ==> #[trigger] es[i].failures <= FAILURE_LIMIT
}

/// The streak on record in `es` for `(id, sha)`.
spec fn streak_in(es: Seq<HealthEntry>, id: Seq<char>, sha: Seq<char>) -> nat {
    if exists|i: int| 0 <= i < es.len() && entry_is(es[i], id, sha) {
        let i = choose|i: int| 0 <= i < es.len() && entry_is(es[i], id, sha);
        es[i].failures as nat
    } else {
        0
    }
}

proof fn lemma_streak_at(es: Seq<HealthEntry>, i: int, id: Seq<char>, sha: Seq<char>)
    requires
        entries_ok(es),
        0 <= i < es.len(),
        entry_is(es[i], id, sha),
    ensures
        streak_in(es, id, sha) == es[i].failures,
{
    let j = choose|j: int| 0 <= j < es.len() && entry_is(es[j], id, sha);
    if j < i {
        assert(!is_identity(es[j].id@, es[j].sha256@, es[i].id@, es[i].sha256@));
    } else if j > i {
        assert(!is_identity(es[i].id@, es[i].sha256@, es[j].id@, es[j].sha256@));
    }
}

proof fn lemma_streak_update(es: Seq<HealthEntry>, i: int, e: HealthEntry, id: Seq<char>, sha: Seq<char>)
    requires
        entries_ok(es),
        0 <= i < es.len(),
        e.id@ == es[i].id@,
        e.sha256@ == es[i].sha256@,
        !entry_is(es[i], id, sha),
    ensures
        streak_in(es.update(i, e), id, sha) == streak_in(es, id, sha),
{
    let es2 = es.update(i, e);
    if exists|k: int| 0 <= k < es.len() && entry_is(es[k], id, sha) {
        let k = choose|k: int| 0 <= k < es.len() && entry_is(es[k], id, sha);
        assert(entry_is(es2[k], id, sha));
        lemma_streak_at(es, k, id, sha);
        let j = choose|j: int| 0 <= j < es2.len() && entry_is(es2[j], id, sha);
        if j != k {
            if j < k {
                assert(!is_identity(es[j].id@, es[j].sha256@, es[k].id@, es[k].sha256@));
            } else {
                assert(!is_identity(es[k].id@, es[k].sha256@, es[j].id@, es[j].sha256@));
            }
        }
    } else {
        assert forall|k: int| 0 <= k < es2.len() implies !entry_is(#[trigger] es2[k], id, sha) by {
            if k != i {
                assert(!entry_is(es[k], id, sha));
            }
        }
    }
}

proof fn lemma_streak_push(es: Seq<HealthEntry>, e: HealthEntry, id: Seq<char>, sha: Seq<char>)
    requires
        entries_ok(es),
        !entry_is(e, id, sha),
    ensures
        streak_in(es.push(e), id, sha) == streak_in(es, id, sha),
{
    let es2 = es.push(e);
    if exists|k: int| 0 <= k < es.len() && entry_is(es[k], id, sha) {
        let k = choose|k: int| 0 <= k < es.len() && entry_is(es[k], id, sha);
        assert(entry_is(es2[k], id, sha));
        let j = choose|j: int| 0 <= j < es2.len() && entry_is(es2[j], id, sha);
        if j != k {
            if j < k {
                assert(!is_identity(es[j].id@, es[j].sha256@, es[k].id@, es[k].sha256@));
            } else if j < es.len() {
                assert(!is_identity(es[k].id@, es[k].sha256@, es[j].id@, es[j].sha256@));
            }
        }
    } else {
        assert forall|k: int| 0 <= k < es2.len() implies !entry_is(#[trigger] es2[k], id, sha) by {
            if k < es.len() {
                assert(!entry_is(es[k], id, sha));
            }
        }
    }
}

impl PluginHealth {
    /// Each identity has at most one entry, and no streak passes the limit.
    pub closed spec fn wf(self) -> bool {
        entries_ok(self.entries@)
    }

    /// The consecutive failures of the module `(id, sha)`: none unless it
    /// has failed since its last success.
    pub closed spec fn streak(self, id: Seq<char>, sha: Seq<char>) -> nat {
        streak_in(self.entries@, id, sha)
    }

    /// A session with no failures on record.
    pub fn new() -> (h: PluginHealth)
        ensures
            h.wf(),
            forall|id: Seq<char>, sha: Seq<char>| #[trigger] h.streak(id, sha) == 0,
    {
        PluginHealth { entries: Vec::new() }
    }

    /// Where the entry of `(id, sha)` stands, if there is one.
    fn find(&self, id: &String, sha: &String) -> (r: Option<usize>)
        requires
            self.wf(),
        ensures
            r matches Some(i) ==> i < self.entries@.len() && entry_is(self.entries@[i as int], id@, sha@)
                && self.streak(id@, sha@) == self.entries@[i as int].failures,
            r is None ==> self.streak(id@, sha@) == 0 && forall|i: int| 0 <= i < self.entries@.len() ==> !entry_is(#[trigger] self.entries@[i], id@, sha@),
    {
        let mut i: usize = 0;
        while i < self.entries.len()
            invariant
                self.wf(),
                i <= self.entries@.len(),
                forall|k: int| 0 <= k < i ==> !entry_is(#[trigger] self.entries@[k], id@, sha@),
            decreases self.entries@.len() - i,
        {
            if self.entries[i].id == *id && self.entries[i].sha256 == *sha {
                proof {
                    lemma_streak_at(self.entries@, i as int, id@, sha@);
                }
                return Some(i);
            }
            i = i + 1;
        }
        None
    }

    /// Whether the module `plugin` may be asked this session: fewer than
    /// `FAILURE_LIMIT` failures in a row.
    pub fn enabled(&self, plugin: &Plugin) -> (r: bool)
        requires
            self.wf(),
        ensures
            r == (self.streak(plugin.id@, plugin.sha256@) < FAILURE_LIMIT),
    {
        match self.find(&plugin.id, &plugin.sha256) {
            Some(i) => self.entries[i].failures < FAILURE_LIMIT,
            None => true,
        }
    }

    /// Puts `failures` on record for `(id, sha)`, leaving every other
    /// identity's streak alone.
    fn record(&mut self, id: &String, sha: &String, failures: u8)
        requires
            old(self).wf(),
            failures <= FAILURE_LIMIT,
        ensures
            final(self).wf(),
            final(self).streak(id@, sha@) == failures,
            forall|id2: Seq<char>, sha2: Seq<char>|
                !is_identity(id2, sha2, id@, sha@) ==> #[trigger] final(self).streak(id2, sha2) == old(self).streak(id2, sha2),
    {
        let entry = HealthEntry { id: id.clone(), sha256: sha.clone(), failures };
        match self.find(id, sha) {
            Some(i) => {
                let ghost before = self.entries@;
                self.entries.set(i, entry);
                proof {
                    assert(entries_ok(self.entries@)) by {
                        assert forall|a: int, b: int| 0 <= a < b < self.entries@.len() implies !is_identity(
                            #[trigger] self.entries@[a].id@,
                            self.entries@[a].sha256@,
                            #[trigger] self.entries@[b].id@,
                            self.entries@[b].sha256@,
                        ) by {
                            assert(!is_identity(before[a].id@, before[a].sha256@, before[b].id@, before[b].sha256@));
                        }
                    }
                    lemma_streak_at(self.entries@, i as int, id@, sha@);
                    assert forall|id2: Seq<char>, sha2: Seq<char>|
                        !is_identity(id2, sha2, id@, sha@) implies #[trigger] streak_in(self.entries@, id2, sha2) == streak_in(before, id2, sha2) by {
                        lemma_streak_update(before, i as int, entry, id2, sha2);
                    }
                }
            },
            None => {
                let ghost before = self.entries@;
                self.entries.push(entry);
                proof {
                    assert(entries_ok(self.entries@)) by {
                        assert forall|a: int, b: int| 0 <= a < b < self.entries@.len() implies !is_identity(
                            #[trigger] self.entries@[a].id@,
                            self.entries@[a].sha256@,
                            #[trigger] self.entries@[b].id@,
                            self.entries@[b].sha256@,
                        ) by {
                            if b < before.len() {
                                assert(!is_identity(before[a].id@, before[a].sha256@, before[b].id@, before[b].sha256@));
                            } else {
                                assert(!entry_is(before[a], id@, sha@));
                            }
                        }
                    }
                    lemma_streak_at(self.entries@, before.len() as int, id@, sha@);
                    assert forall|id2: Seq<char>, sha2: Seq<char>|
                        !is_identity(id2, sha2, id@, sha@) implies #[trigger] streak_in(self.entries@, id2, sha2) == streak_in(before, id2, sha2) by {
                        lemma_streak_push(before, entry, id2, sha2);
                    }
                }
            },
        }
    }

    /// A call of `plugin` succeeded (data or an honest miss): its streak
    /// starts over. A provider that had been failing has recovered.
    pub fn success(&mut self, plugin: &Plugin) -> (change: PluginHealthChange)
        requires
            old(self).wf(),
        ensures
            final(self).wf(),
            final(self).streak(plugin.id@, plugin.sha256@) == 0,
            change == success_change(old(self).streak(plugin.id@, plugin.sha256@)),
            forall|id2: Seq<char>, sha2: Seq<char>|
                !is_identity(id2, sha2, plugin.id@, plugin.sha256@) ==> #[trigger] final(self).streak(id2, sha2) == old(self).streak(id2, sha2),
    {
        let before = match self.find(&plugin.id, &plugin.sha256) {
            Some(i) => self.entries[i].failures,
            None => 0,
        };
        self.record(&plugin.id, &plugin.sha256, 0);
        if before > 0 {
            PluginHealthChange::Recovered
        } else {
            PluginHealthChange::Unchanged
        }
    }

    /// A call of `plugin` failed: one more in its streak, and at
    /// `FAILURE_LIMIT` in a row it sits out the rest of the session. A
    /// disabled provider's streak stays where it is.
    pub fn failure(&mut self, plugin: &Plugin) -> (change: PluginHealthChange)
        requires
            old(self).wf(),
        ensures
            final(self).wf(),
            final(self).streak(plugin.id@, plugin.sha256@) == failure_streak(old(self).streak(plugin.id@, plugin.sha256@)),
            change == failure_change(old(self).streak(plugin.id@, plugin.sha256@)),
            forall|id2: Seq<char>, sha2: Seq<char>|
                !is_identity(id2, sha2, plugin.id@, plugin.sha256@) ==> #[trigger] final(self).streak(id2, sha2) == old(self).streak(id2, sha2),
    {
        let before = match self.find(&plugin.id, &plugin.sha256) {
            Some(i) => self.entries[i].failures,
            None => 0,
        };
        if before >= FAILURE_LIMIT {
            return PluginHealthChange::AlreadyDisabled;
        }
        let after = before + 1;
        self.record(&plugin.id, &plugin.sha256, after);
        if after >= FAILURE_LIMIT {
            PluginHealthChange::Disabled(after)
        } else {
            PluginHealthChange::Failure(after)
        }
    }

    /// A fresh install trusts the module `(id, sha256)` again: its streak
    /// starts over.
    pub fn reset_identity(&mut self, id: &String, sha256: &String)
        requires
            old(self).wf(),
        ensures
            final(self).wf(),
            final(self).streak(id@, sha256@) == 0,
            forall|id2: Seq<char>, sha2: Seq<char>|
                !is_identity(id2, sha2, id@, sha256@) ==> #[trigger] final(self).streak(id2, sha2) == old(self).streak(id2, sha2),
    {
        self.record(id, sha256, 0);
    }
}

/// The streak after one more failure on a streak of `s`.
pub open spec fn failure_streak(s: nat) -> nat {
    if s >= FAILURE_LIMIT {
        s
    } else {
        s + 1
    }
}

/// What a failure on a streak of `s` reports.
pub open spec fn failure_change(s: nat) -> PluginHealthChange {
    if s >= FAILURE_LIMIT {
        PluginHealthChange::AlreadyDisabled
    } else if s + 1 >= FAILURE_LIMIT {
        PluginHealthChange::Disabled((s + 1) as u8)
    } else {
        PluginHealthChange::Failure((s + 1) as u8)
    }
}

/// What a success on a streak of `s` reports.
pub open spec fn success_change(s: nat) -> PluginHealthChange {
    if s > 0 {
        PluginHealthChange::Recovered
    } else {
        PluginHealthChange::Unchanged
    }
}


/// Three failures in a row disable a provider for the session: from a
/// clean slate the first two failures are counted, the third disables it,
/// and every failure after that finds it already disabled. A provider
/// with `FAILURE_LIMIT` failures in a row is no longer asked.
pub proof fn lemma_three_failures_disable()
    ensures
        failure_change(0) == PluginHealthChange::Failure(1),
        failure_change(failure_streak(0)) == PluginHealthChange::Failure(2),
        failure_change(failure_streak(failure_streak(0))) == PluginHealthChange::Disabled(3),
        failure_streak(failure_streak(failure_streak(0))) == FAILURE_LIMIT,
        forall|s: nat| s >= FAILURE_LIMIT ==> #[trigger] failure_change(s) == PluginHealthChange::AlreadyDisabled
            && failure_streak(s) == s,
{
}

/// Three failures in a row disable a provider whatever its streak was, so
/// that across walks sharing one health record, a provider that failed
/// its last three runs is not asked again this session.
pub proof fn lemma_three_failures_in_a_row(s: nat)
    ensures
        failure_streak(failure_streak(failure_streak(s))) >= FAILURE_LIMIT,
{
}

/// What one step of the session did to a module's streak: it failed
/// again, or the step left it alone (another module answered, or nobody
/// asked it).
pub open spec fn failed_or_left(before: nat, after: nat) -> bool {
    after == failure_streak(before) || after == before
}

/// Three failures disable a provider for the session, across walks that
/// share one health record: once the module `(id, sha)` failed three times
/// in a row, every later record in which it only failed again or was left
/// alone keeps it disabled. A disabled provider is never asked
/// (`ChainWalk::next_provider`), so no success can come to reset it; only
/// a fresh install (`reset_identity`) does.
pub proof fn lemma_disabled_for_the_session(records: Seq<PluginHealth>, id: Seq<char>, sha: Seq<char>)
    requires
        records.len() >= 4,
        forall|i: int| #![trigger records[i]]
            0 <= i < 3 ==> records[i + 1].streak(id, sha) == failure_streak(records[i].streak(id, sha)),
        forall|i: int| #![trigger records[i]]
            3 <= i < records.len() - 1 ==> failed_or_left(records[i].streak(id, sha), records[i + 1].streak(id, sha)),
    ensures
        forall|k: int| 3 <= k < records.len() ==> #[trigger] records[k].streak(id, sha) >= FAILURE_LIMIT,
{
    let s0 = records[0].streak(id, sha);
    assert(records[1].streak(id, sha) == failure_streak(s0));
    assert(records[2].streak(id, sha) == failure_streak(records[1].streak(id, sha)));
    assert(records[3].streak(id, sha) == failure_streak(records[2].streak(id, sha)));
    lemma_three_failures_in_a_row(s0);
    assert forall|k: int| 3 <= k < records.len() implies #[trigger] records[k].streak(id, sha) >= FAILURE_LIMIT by {
        lemma_streak_stays(records, id, sha, k);
    }
}

proof fn lemma_streak_stays(records: Seq<PluginHealth>, id: Seq<char>, sha: Seq<char>, k: int)
    requires
        3 <= k < records.len(),
        records[3].streak(id, sha) >= FAILURE_LIMIT,
        forall|i: int| #![trigger records[i]]
            3 <= i < records.len() - 1 ==> failed_or_left(records[i].streak(id, sha), records[i + 1].streak(id, sha)),
    ensures
        records[k].streak(id, sha) >= FAILURE_LIMIT,
    decreases k,
{
    if k > 3 {
        lemma_streak_stays(records, id, sha, k - 1);
        assert(failed_or_left(records[k - 1].streak(id, sha), records[k].streak(id, sha)));
    }
}

/// A disabled provider comes back after one success, and says so.
pub proof fn lemma_success_recovers(s: nat)
    requires
        s > 0,
    ensures
        success_change(s) == PluginHealthChange::Recovered,
        success_change(0) == PluginHealthChange::Unchanged,
{
}

/// What a provider answered when the walk asked it.
#[derive(Clone, Copy, Debug, PartialEq, Eq, Structural)]
pub enum Answer {
    /// It held data: the chain stops here.
    Data,
    /// It had nothing for this input: an answer, not a malfunction.
    Miss,
    /// It failed this call: a trap, a timeout, an error.
    Failure,
}

/// The walk down one kind's chain: each provider in the user's order,
/// disabled ones passed over, until one holds data or the chain runs out.
pub struct ChainWalk {
    /// The plugins the chain asks, as positions in the installed list.
    order: Vec<usize>,
    /// The seat of the provider asked next, or being asked.
    next: usize,
    /// A provider held data.
    found: bool,
}

impl ChainWalk {
    /// The positions of the providers the walk asks, in order.
    pub closed spec fn order(self) -> Seq<int> {
        self.order@.map_values(|i: usize| i as int)
    }

    /// The seat the walk has come to.
    pub closed spec fn seat(self) -> int {
        self.next as int
    }

    /// Whether a provider held data.
    pub closed spec fn found(self) -> bool {
        self.found
    }

    /// The walk is within its chain.
    pub closed spec fn wf(self) -> bool {
        self.next <= self.order@.len()
    }

    /// A walk at the front of the chain of `kind`.
    pub fn new(plugins: &Vec<Plugin>, chains: &ProviderChains, kind: ProviderKind) -> (w: ChainWalk)
        ensures
            w.wf(),
            w.order() == resolved(plugins@, chains.chain(kind), kind),
            w.seat() == 0,
            !w.found(),
    {
        ChainWalk { order: chain_plugins(plugins, chains.for_kind(kind), kind), next: 0, found: false }
    }

    /// The provider to ask next, as its position in `plugins`: the first
    /// one from the current seat on that `health` still lets answer. `None`
    /// once a provider held data or the chain has run out.
    pub fn next_provider(&mut self, plugins: &Vec<Plugin>, health: &PluginHealth) -> (r: Option<usize>)
        requires
            old(self).wf(),
            health.wf(),
            forall|j: int| 0 <= j < old(self).order().len() ==> 0 <= #[trigger] old(self).order()[j] < plugins@.len(),
        ensures
            final(self).wf(),
            final(self).order() == old(self).order(),
            final(self).found() == old(self).found(),
            old(self).seat() <= final(self).seat(),
            old(self).found() ==> r is None && final(self).seat() == old(self).seat(),
            !old(self).found() ==> forall|j: int|
                old(self).seat() <= j < final(self).seat() ==> !enabled_in(health, #[trigger] plugins@[old(self).order()[j]]),
            r matches Some(p) ==> {
                &&& final(self).seat() < final(self).order().len()
                &&& p == final(self).order()[final(self).seat()]
                &&& enabled_in(health, plugins@[p as int])
            },
            r is None && !old(self).found() ==> final(self).seat() == final(self).order().len(),
    {
        if self.found {
            return None;
        }
        proof {
            assert forall|j: int| 0 <= j < self.order@.len() implies 0 <= #[trigger] self.order@[j] < plugins@.len() by {
                assert(self.order()[j] == self.order@[j] as int);
            }
        }
        while self.next < self.order.len()
            invariant
                !old(self).found,
                self.next <= self.order@.len(),
                self.order@ == old(self).order@,
                !self.found,
                old(self).next <= self.next,
                health.wf(),
                forall|j: int| 0 <= j < self.order@.len() ==> 0 <= #[trigger] self.order@[j] < plugins@.len(),
                forall|j: int|
                    old(self).next <= j < self.next ==> !enabled_in(health, #[trigger] plugins@[self.order@[j] as int]),
            decreases self.order@.len() - self.next,
        {
            let p = self.order[self.next];
            if health.enabled(&plugins[p]) {
                return Some(p);
            }
            self.next = self.next + 1;
        }
        None
    }

    /// Takes the answer of the provider `next_provider` named, records it in
    /// `health`, and says what that did to its health. Data stops the walk;
    /// a miss or a failure moves it one seat on.
    pub fn answer(&mut self, plugins: &Vec<Plugin>, health: &mut PluginHealth, answer: Answer) -> (change: PluginHealthChange)
        requires
            old(self).wf(),
            old(health).wf(),
            !old(self).found(),
            old(self).seat() < old(self).order().len(),
            0 <= old(self).order()[old(self).seat()] < plugins@.len(),
        ensures
            final(self).wf(),
            final(health).wf(),
            final(self).order() == old(self).order(),
            final(self).found() == (answer == Answer::Data),
            final(self).seat() == if answer == Answer::Data { old(self).seat() } else { old(self).seat() + 1 },
            ({
                let p = plugins@[old(self).order()[old(self).seat()]];
                let s = old(health).streak(p.id@, p.sha256@);
                &&& final(health).streak(p.id@, p.sha256@) == if answer == Answer::Failure {
                    failure_streak(s)
                } else {
                    0
                }
                &&& change == if answer == Answer::Failure {
                    failure_change(s)
                } else {
                    success_change(s)
                }
                &&& forall|id2: Seq<char>, sha2: Seq<char>|
                    !is_identity(id2, sha2, p.id@, p.sha256@) ==> #[trigger] final(health).streak(id2, sha2)
                        == old(health).streak(id2, sha2)
            }),
    {
        assert(self.order().len() == self.order@.len());
        let seats = self.order.len();
        let p = self.order[self.next];
        let change = match answer {
            Answer::Data => health.success(&plugins[p]),
            Answer::Miss => health.success(&plugins[p]),
            Answer::Failure => health.failure(&plugins[p]),
        };
        if answer == Answer::Data {
            self.found = true;
        } else {
            assert(self.next < seats);
            self.next = self.next + 1;
        }
        change
    }
}

/// Whether `health` lets `plugin` answer this session.
pub open spec fn enabled_in(health: &PluginHealth, plugin: Plugin) -> bool {
    health.streak(plugin.id@, plugin.sha256@) < FAILURE_LIMIT
}

} // verus!
