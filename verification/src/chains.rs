//! Provider chains: each kind asks its providers in the user's order, and
//! the order, the seats and the removals are kept here.

use vstd::prelude::*;
use vstd::string::StringExecFns;
use crate::text::{same_text, strip_prefix, views};

verus! {

/// The kinds of provider a plugin may claim.
#[derive(Clone, Copy, Debug, PartialEq, Eq, Structural)]
pub enum ProviderKind {
    Lyrics,
    Translate,
    Romanize,
}

/// The word that names `kind` in settings and in the plugin input.
pub open spec fn kind_name(kind: ProviderKind) -> Seq<char> {
    match kind {
        ProviderKind::Lyrics => seq!['l', 'y', 'r', 'i', 'c', 's'],
        ProviderKind::Translate => seq!['t', 'r', 'a', 'n', 's', 'l', 'a', 't', 'e'],
        ProviderKind::Romanize => seq!['r', 'o', 'm', 'a', 'n', 'i', 'z', 'e'],
    }
}

/// The prefix that marks a provider capability.
pub open spec fn capability_prefix() -> Seq<char> {
    seq!['p', 'r', 'o', 'v', 'i', 'd', 'e', 'r', ':']
}

/// The capability a provider of `kind` claims: `provider:<kind>`.
pub open spec fn capability_of(kind: ProviderKind) -> Seq<char> {
    capability_prefix() + kind_name(kind)
}

impl ProviderKind {
    /// The kind's word: `lyrics`, `translate` or `romanize`.
    pub fn id(self) -> (r: &'static str)
        ensures
            r@ == kind_name(self),
    {
        match self {
            ProviderKind::Lyrics => {
                proof {
                    reveal_strlit("lyrics");
                }
                "lyrics"
            },
            ProviderKind::Translate => {
                proof {
                    reveal_strlit("translate");
                }
                "translate"
            },
            ProviderKind::Romanize => {
                proof {
                    reveal_strlit("romanize");
                }
                "romanize"
            },
        }
    }

    /// The kind a word names, if it names one.
    pub fn from_id(id: &str) -> (r: Option<ProviderKind>)
        ensures
            r matches Some(k) ==> kind_name(k) == id@,
            r is None ==> (forall|k: ProviderKind| kind_name(k) != id@),
    {
        if same_text(id, ProviderKind::Lyrics.id()) {
            Some(ProviderKind::Lyrics)
        } else if same_text(id, ProviderKind::Translate.id()) {
            Some(ProviderKind::Translate)
        } else if same_text(id, ProviderKind::Romanize.id()) {
            Some(ProviderKind::Romanize)
        } else {
            proof {
                assert forall|k: ProviderKind| kind_name(k) != id@ by {
                    match k {
                        ProviderKind::Lyrics => {},
                        ProviderKind::Translate => {},
                        ProviderKind::Romanize => {},
                    }
                }
            }
            None
        }
    }
}

/// The capability a provider of `kind` claims: `provider:<kind>`.
pub fn provider_capability(kind: ProviderKind) -> (r: String)
    ensures
        r@ == capability_of(kind),
{
    proof {
        reveal_strlit("provider:");
    }
    let mut r = String::from_str("provider:");
    r.append(kind.id());
    r
}

/// The copy of a capability chip: the `provider:` prefix means nothing to
/// a reader, so it is stripped; anything else reads as itself.
pub fn capability_label(capability: &str) -> (r: String)
    ensures
        capability_prefix().is_prefix_of(capability@) ==> r@ == capability@.skip(9),
        !capability_prefix().is_prefix_of(capability@) ==> r@ == capability@,
{
    proof {
        reveal_strlit("provider:");
    }
    match strip_prefix(capability, "provider:") {
        Some(rest) => rest,
        None => String::from_str(capability),
    }
}


/// An installed plugin as its manifest describes it.
#[derive(Clone, Debug)]
pub struct Plugin {
    pub id: String,
    pub name: String,
    pub publisher: String,
    pub version: String,
    pub homepage: String,
    pub capabilities: Vec<String>,
    pub domains: Vec<String>,
    pub sha256: String,
}

/// Whether `plugin` claims the provider capability of `kind`.
pub open spec fn claims(plugin: Plugin, kind: ProviderKind) -> bool {
    views(plugin.capabilities@).contains(capability_of(kind))
}

/// Whether `plugin` claims `kind`: its capabilities hold `provider:<kind>`.
pub fn claims_kind(plugin: &Plugin, kind: ProviderKind) -> (r: bool)
    ensures
        r == claims(*plugin, kind),
{
    let wanted = provider_capability(kind);
    let mut i: usize = 0;
    while i < plugin.capabilities.len()
        invariant
            i <= plugin.capabilities@.len(),
            wanted@ == capability_of(kind),
            forall|j: int| 0 <= j < i ==> plugin.capabilities@[j]@ != capability_of(kind),
        decreases plugin.capabilities@.len() - i,
    {
        if plugin.capabilities[i] == wanted {
            assert(views(plugin.capabilities@)[i as int] == capability_of(kind));
            return true;
        }
        i = i + 1;
    }
    assert(!views(plugin.capabilities@).contains(capability_of(kind)));
    false
}

/// Whether `plugin` answers for `id` in the chain of `kind`.
pub open spec fn answers_for(plugin: Plugin, id: Seq<char>, kind: ProviderKind) -> bool {
    plugin.id@ == id && claims(plugin, kind)
}

/// Where the first plugin that answers for `id` in the chain of `kind`
/// stands in `plugins`, or `plugins.len()` when none does.
pub open spec fn provider_position(plugins: Seq<Plugin>, id: Seq<char>, kind: ProviderKind) -> int
    decreases plugins.len(),
{
    if plugins.len() == 0 {
        0
    } else if answers_for(plugins[0], id, kind) {
        0
    } else {
        1 + provider_position(plugins.drop_first(), id, kind)
    }
}

/// The positions in `plugins` of the providers a chain names, in the
/// chain's order. An id that no installed plugin of the kind answers for
/// costs its slot nothing: the walk passes it.
pub open spec fn resolved(plugins: Seq<Plugin>, chain: Seq<Seq<char>>, kind: ProviderKind) -> Seq<int>
    decreases chain.len(),
{
    if chain.len() == 0 {
        seq![]
    } else {
        let rest = resolved(plugins, chain.drop_last(), kind);
        let at = provider_position(plugins, chain.last(), kind);
        if at < plugins.len() {
            rest.push(at)
        } else {
            rest
        }
    }
}

/// `provider_position` is the first plugin that answers for the id.
pub proof fn lemma_provider_position(plugins: Seq<Plugin>, id: Seq<char>, kind: ProviderKind)
    ensures
        0 <= provider_position(plugins, id, kind) <= plugins.len(),
        provider_position(plugins, id, kind) < plugins.len() ==> answers_for(
            plugins[provider_position(plugins, id, kind)],
            id,
            kind,
        ),
        forall|j: int|
            0 <= j < provider_position(plugins, id, kind) ==> !answers_for(#[trigger] plugins[j], id, kind),
    decreases plugins.len(),
{
    if plugins.len() > 0 && !answers_for(plugins[0], id, kind) {
        lemma_provider_position(plugins.drop_first(), id, kind);
        assert forall|j: int| 0 <= j < provider_position(plugins, id, kind) implies !answers_for(
            #[trigger] plugins[j],
            id,
            kind,
        ) by {
            if j > 0 {
                assert(plugins[j] == plugins.drop_first()[j - 1]);
            }
        }
    }
}

/// Where the first plugin that answers for `id` in the chain of `kind`
/// stands, if one does.
fn find_provider(plugins: &Vec<Plugin>, id: &String, kind: ProviderKind) -> (r: usize)
    ensures
        r == provider_position(plugins@, id@, kind),
{
    proof {
        lemma_provider_position(plugins@, id@, kind);
    }
    let mut i: usize = 0;
    while i < plugins.len()
        invariant
            i <= plugins@.len(),
            forall|j: int| 0 <= j < i ==> !answers_for(#[trigger] plugins@[j], id@, kind),
            0 <= provider_position(plugins@, id@, kind) <= plugins@.len(),
            provider_position(plugins@, id@, kind) < plugins@.len() ==> answers_for(
                plugins@[provider_position(plugins@, id@, kind)],
                id@,
                kind,
            ),
            forall|j: int|
                0 <= j < provider_position(plugins@, id@, kind) ==> !answers_for(#[trigger] plugins@[j], id@, kind),
        decreases plugins@.len() - i,
    {
        if plugins[i].id == *id && claims_kind(&plugins[i], kind) {
            return i;
        }
        i = i + 1;
    }
    i
}

/// The plugins a chain asks, in the chain's order, as positions in
/// `plugins`: each id resolves to the first installed plugin of that id that
/// claims the kind, and ids that resolve to none are passed over.
pub fn chain_plugins(plugins: &Vec<Plugin>, chain: &Vec<String>, kind: ProviderKind) -> (r: Vec<usize>)
    ensures
        r@.map_values(|i: usize| i as int) == resolved(plugins@, views(chain@), kind),
{
    let mut r: Vec<usize> = Vec::new();
    let mut k: usize = 0;
    while k < chain.len()
        invariant
            k <= chain@.len(),
            r@.map_values(|i: usize| i as int) == resolved(plugins@, views(chain@).take(k as int), kind),
        decreases chain@.len() - k,
    {
        let at = find_provider(plugins, &chain[k], kind);
        let ghost before = r@;
        proof {
            let c = views(chain@).take(k + 1);
            assert(c.drop_last() == views(chain@).take(k as int));
            assert(c.last() == chain@[k as int]@);
        }
        if at < plugins.len() {
            r.push(at);
            assert(r@.map_values(|i: usize| i as int) == before.map_values(|i: usize| i as int).push(at as int));
        }
        k = k + 1;
    }
    assert(views(chain@).take(chain@.len() as int) == views(chain@));
    r
}


/// Each kind's chain of provider ids, in the order the user set.
#[derive(Clone, Debug)]
pub struct ProviderChains {
    pub lyrics: Vec<String>,
    pub translate: Vec<String>,
    pub romanize: Vec<String>,
}

impl ProviderChains {
    /// The ids in the chain of `kind`, in order.
    pub open spec fn chain(self, kind: ProviderKind) -> Seq<Seq<char>> {
        match kind {
            ProviderKind::Lyrics => views(self.lyrics@),
            ProviderKind::Translate => views(self.translate@),
            ProviderKind::Romanize => views(self.romanize@),
        }
    }

    /// The chain of `kind`, as it is held.
    pub open spec fn chain_of(self, kind: ProviderKind) -> Vec<String> {
        match kind {
            ProviderKind::Lyrics => self.lyrics,
            ProviderKind::Translate => self.translate,
            ProviderKind::Romanize => self.romanize,
        }
    }

    /// The chain of `kind`.
    pub fn for_kind(&self, kind: ProviderKind) -> (r: &Vec<String>)
        ensures
            views(r@) == self.chain(kind),
    {
        match kind {
            ProviderKind::Lyrics => &self.lyrics,
            ProviderKind::Translate => &self.translate,
            ProviderKind::Romanize => &self.romanize,
        }
    }

    /// The chain of `kind`, to be changed.
    fn chain_mut(&mut self, kind: ProviderKind) -> (r: &mut Vec<String>)
        ensures
            *r == match kind {
                ProviderKind::Lyrics => old(self).lyrics,
                ProviderKind::Translate => old(self).translate,
                ProviderKind::Romanize => old(self).romanize,
            },
            *final(self) == match kind {
                ProviderKind::Lyrics => ProviderChains { lyrics: *final(r), ..*old(self) },
                ProviderKind::Translate => ProviderChains { translate: *final(r), ..*old(self) },
                ProviderKind::Romanize => ProviderChains { romanize: *final(r), ..*old(self) },
            },
    {
        match kind {
            ProviderKind::Lyrics => &mut self.lyrics,
            ProviderKind::Translate => &mut self.translate,
            ProviderKind::Romanize => &mut self.romanize,
        }
    }
}

impl Default for ProviderChains {
    /// No plugin is asked: every kind runs on the built-in engines alone.
    fn default() -> (r: Self)
        ensures
            r.lyrics@.len() == 0,
            r.translate@.len() == 0,
            r.romanize@.len() == 0,
    {
        ProviderChains { lyrics: Vec::new(), translate: Vec::new(), romanize: Vec::new() }
    }
}


/// Where `id` first stands in `chain`, or `chain.len()` when it is absent.
pub open spec fn position_of(chain: Seq<Seq<char>>, id: Seq<char>) -> int
    decreases chain.len(),
{
    if chain.len() == 0 {
        0
    } else if chain[0] == id {
        0
    } else {
        1 + position_of(chain.drop_first(), id)
    }
}

/// `position_of` is the first place that holds the id.
pub proof fn lemma_position_of(chain: Seq<Seq<char>>, id: Seq<char>)
    ensures
        0 <= position_of(chain, id) <= chain.len(),
        position_of(chain, id) < chain.len() ==> chain[position_of(chain, id)] == id,
        forall|j: int| 0 <= j < position_of(chain, id) ==> #[trigger] chain[j] != id,
        position_of(chain, id) == chain.len() <==> !chain.contains(id),
    decreases chain.len(),
{
    if chain.len() > 0 && chain[0] != id {
        lemma_position_of(chain.drop_first(), id);
        assert forall|j: int| 0 <= j < position_of(chain, id) implies #[trigger] chain[j] != id by {
            if j > 0 {
                assert(chain[j] == chain.drop_first()[j - 1]);
            }
        }
        if chain.contains(id) {
            let k = choose|k: int| 0 <= k < chain.len() && chain[k] == id;
            assert(chain.drop_first()[k - 1] == id);
        }
    }
}

/// `chain` with the entries at `i` and `j` exchanged.
pub open spec fn swapped(chain: Seq<Seq<char>>, i: int, j: int) -> Seq<Seq<char>> {
    chain.update(i, chain[j]).update(j, chain[i])
}

/// Whether moving `id` one seat earlier (`up`) or later in `chain` has a
/// seat to move to.
pub open spec fn can_move(chain: Seq<Seq<char>>, id: Seq<char>, up: bool) -> bool {
    let i = position_of(chain, id);
    i < chain.len() && if up {
        i > 0
    } else {
        i + 1 < chain.len()
    }
}

/// `chain` after `id` trades seats with its neighbour before it (`up`) or
/// after it; unchanged when there is no such neighbour or no such id.
pub open spec fn moved(chain: Seq<Seq<char>>, id: Seq<char>, up: bool) -> Seq<Seq<char>> {
    let i = position_of(chain, id);
    if !can_move(chain, id, up) {
        chain
    } else if up {
        swapped(chain, i - 1, i)
    } else {
        swapped(chain, i, i + 1)
    }
}

/// `chain` without any seat of `id`, the others in their order.
pub open spec fn without(chain: Seq<Seq<char>>, id: Seq<char>) -> Seq<Seq<char>>
    decreases chain.len(),
{
    if chain.len() == 0 {
        seq![]
    } else if chain.last() == id {
        without(chain.drop_last(), id)
    } else {
        without(chain.drop_last(), id).push(chain.last())
    }
}

/// `chains` with the chain of `kind` replaced by `chain`.
pub open spec fn with_chain(
    chains: ProviderChains,
    kind: ProviderKind,
    chain: Seq<Seq<char>>,
) -> Map<ProviderKind, Seq<Seq<char>>> {
    Map::new(|k: ProviderKind| true, |k: ProviderKind| if k == kind { chain } else { chains.chain(k) })
}

/// The chains of every kind.
pub open spec fn all_chains(chains: ProviderChains) -> Map<ProviderKind, Seq<Seq<char>>> {
    Map::new(|k: ProviderKind| true, |k: ProviderKind| chains.chain(k))
}

/// Where `id` first stands in `chain`, or `chain.len()`.
fn find_seat(chain: &Vec<String>, id: &str) -> (r: usize)
    ensures
        r == position_of(views(chain@), id@),
{
    proof {
        lemma_position_of(views(chain@), id@);
    }
    let mut i: usize = 0;
    while i < chain.len()
        invariant
            i <= chain@.len(),
            forall|j: int| 0 <= j < i ==> views(chain@)[j] != id@,
            0 <= position_of(views(chain@), id@) <= chain@.len(),
            position_of(views(chain@), id@) < chain@.len() ==> views(chain@)[position_of(views(chain@), id@)] == id@,
            forall|j: int| 0 <= j < position_of(views(chain@), id@) ==> #[trigger] views(chain@)[j] != id@,
        decreases chain@.len() - i,
    {
        if same_text(chain[i].as_str(), id) {
            assert(views(chain@)[i as int] == id@);
            return i;
        }
        i = i + 1;
    }
    i
}

/// Exchanges the adjacent entries at `i` and `i + 1`.
fn swap_next(chain: &mut Vec<String>, i: usize)
    requires
        i + 1 < old(chain)@.len(),
    ensures
        views(final(chain)@) == swapped(views(old(chain)@), i as int, i + 1),
{
    let n = chain.len();
    let x = chain.remove(i + 1);
    chain.insert(i, x);
    assert(views(chain@) =~= swapped(views(old(chain)@), i as int, i + 1));
}

/// Swaps a provider with its neighbour in its kind's chain: one seat
/// earlier when `up`, one later otherwise. Answers whether the order
/// changed, so that the caller persists the settings.
pub fn move_in_chain(chains: &mut ProviderChains, kind: ProviderKind, id: &str, up: bool) -> (dirty: bool)
    ensures
        all_chains(*final(chains)) == with_chain(*old(chains), kind, moved(old(chains).chain(kind), id@, up)),
        dirty == can_move(old(chains).chain(kind), id@, up),
{
    let chain = chains.chain_mut(kind);
    let index = find_seat(chain, id);
    proof {
        lemma_position_of(views(chain@), id@);
    }
    if index == chain.len() {
        proof {
            assert(all_chains(*final(chains)) =~= with_chain(*old(chains), kind, moved(old(chains).chain(kind), id@, up)));
        }
        return false;
    }
    if up {
        if index == 0 {
            assert(all_chains(*final(chains)) =~= with_chain(*old(chains), kind, moved(old(chains).chain(kind), id@, up)));
            return false;
        }
        swap_next(chain, index - 1);
    } else {
        if index + 1 >= chain.len() {
            assert(all_chains(*final(chains)) =~= with_chain(*old(chains), kind, moved(old(chains).chain(kind), id@, up)));
            return false;
        }
        swap_next(chain, index);
    }
    assert(all_chains(*final(chains)) =~= with_chain(*old(chains), kind, moved(old(chains).chain(kind), id@, up)));
    true
}


/// Gives a provider the back of its kind's chain, unless it already has a
/// seat there: it answers after everyone the user has already ordered.
/// Answers whether the chain changed, so that the caller persists it.
pub fn add_to_chain(chains: &mut ProviderChains, kind: ProviderKind, id: &str) -> (dirty: bool)
    ensures
        dirty == !old(chains).chain(kind).contains(id@),
        all_chains(*final(chains)) == with_chain(
            *old(chains),
            kind,
            if dirty {
                old(chains).chain(kind).push(id@)
            } else {
                old(chains).chain(kind)
            },
        ),
{
    let chain = chains.chain_mut(kind);
    let index = find_seat(chain, id);
    proof {
        lemma_position_of(views(chain@), id@);
    }
    if index < chain.len() {
        assert(all_chains(*final(chains)) =~= with_chain(*old(chains), kind, old(chains).chain(kind)));
        return false;
    }
    chain.push(String::from_str(id));
    assert(views(chain@) =~= views(old(chains).chain_of(kind)@).push(id@));
    assert(all_chains(*final(chains)) =~= with_chain(*old(chains), kind, old(chains).chain(kind).push(id@)));
    true
}

/// `chain` without any seat of `id`.
fn drop_seats(chain: &Vec<String>, id: &str) -> (r: Vec<String>)
    ensures
        views(r@) == without(views(chain@), id@),
{
    let mut r: Vec<String> = Vec::new();
    let mut k: usize = 0;
    while k < chain.len()
        invariant
            k <= chain@.len(),
            views(r@) == without(views(chain@).take(k as int), id@),
        decreases chain@.len() - k,
    {
        proof {
            let c = views(chain@).take(k + 1);
            assert(c.drop_last() == views(chain@).take(k as int));
            assert(c.last() == chain@[k as int]@);
        }
        if !same_text(chain[k].as_str(), id) {
            let ghost before = r@;
            r.push(chain[k].clone());
            assert(views(r@) == views(before).push(chain@[k as int]@));
        }
        k = k + 1;
    }
    assert(views(chain@).take(chain@.len() as int) == views(chain@));
    r
}

/// Takes `id` out of every chain it sat in, the other providers keeping
/// their order: an uninstall is the file and its seats, and the seats go
/// first.
pub fn uninstall(chains: &mut ProviderChains, id: &str)
    ensures
        forall|k: ProviderKind| #[trigger] final(chains).chain(k) == without(old(chains).chain(k), id@),
{
    let lyrics = drop_seats(&chains.lyrics, id);
    let translate = drop_seats(&chains.translate, id);
    let romanize = drop_seats(&chains.romanize, id);
    chains.lyrics = lyrics;
    chains.translate = translate;
    chains.romanize = romanize;
    assert forall|k: ProviderKind| #[trigger] final(chains).chain(k) == without(old(chains).chain(k), id@) by {
        match k {
            ProviderKind::Lyrics => {},
            ProviderKind::Translate => {},
            ProviderKind::Romanize => {},
        }
    }
}


/// An empty chain is the built-ins' own: it asks no provider at all.
pub proof fn lemma_empty_chain_asks_nobody(plugins: Seq<Plugin>, kind: ProviderKind)
    ensures
        resolved(plugins, seq![], kind).len() == 0,
{
}

/// A stale id costs its slot nothing: an id that no installed plugin of the
/// kind answers for, wherever it sits in a chain, changes nothing about
/// whom the chain asks or in what order.
pub proof fn lemma_stale_id_costs_nothing(
    plugins: Seq<Plugin>,
    before: Seq<Seq<char>>,
    id: Seq<char>,
    after: Seq<Seq<char>>,
    kind: ProviderKind,
)
    requires
        forall|j: int| 0 <= j < plugins.len() ==> !answers_for(#[trigger] plugins[j], id, kind),
    ensures
        resolved(plugins, before + seq![id] + after, kind) == resolved(plugins, before + after, kind),
    decreases after.len(),
{
    let with = before + seq![id] + after;
    let without_id = before + after;
    if after.len() == 0 {
        lemma_provider_position(plugins, id, kind);
        assert(with.drop_last() =~= before);
        assert(without_id =~= before);
    } else {
        lemma_stale_id_costs_nothing(plugins, before, id, after.drop_last(), kind);
        assert(with.drop_last() =~= before + seq![id] + after.drop_last());
        assert(without_id.drop_last() =~= before + after.drop_last());
        assert(with.last() == after.last());
        assert(without_id.last() == after.last());
    }
}

/// Installing appends: adding a provider to a chain keeps every seat the
/// user already ordered where it was, and the provider holds a seat after.
pub proof fn lemma_adding_never_displaces(chain: Seq<Seq<char>>, id: Seq<char>)
    ensures
        ({
            let after = if chain.contains(id) { chain } else { chain.push(id) };
            &&& after.take(chain.len() as int) == chain
            &&& after.contains(id)
            &&& chain.no_duplicates() ==> after.no_duplicates()
        }),
{
    let after = if chain.contains(id) { chain } else { chain.push(id) };
    assert(after.take(chain.len() as int) =~= chain);
    if !chain.contains(id) {
        assert(after[chain.len() as int] == id);
    }
}

/// A move is undone by the opposite move: a provider moved one seat
/// earlier and then one seat later leaves the chain as it was.
pub proof fn lemma_move_up_then_down(chain: Seq<Seq<char>>, id: Seq<char>)
    requires
        can_move(chain, id, true),
    ensures
        can_move(moved(chain, id, true), id, false),
        moved(moved(chain, id, true), id, false) == chain,
{
    lemma_position_of(chain, id);
    let i = position_of(chain, id);
    let up = moved(chain, id, true);
    lemma_position_of(up, id);
    assert(up[i - 1] == id);
    if position_of(up, id) < i - 1 {
        let p = position_of(up, id);
        assert(up[p] == chain[p]);
    }
    assert(position_of(up, id) == i - 1);
    assert(moved(up, id, false) =~= chain);
}

/// A move is undone by the opposite move: a provider moved one seat later
/// and then one seat earlier leaves the chain as it was, when the chain
/// seats it once.
pub proof fn lemma_move_down_then_up(chain: Seq<Seq<char>>, id: Seq<char>)
    requires
        can_move(chain, id, false),
        chain.no_duplicates(),
    ensures
        can_move(moved(chain, id, false), id, true),
        moved(moved(chain, id, false), id, true) == chain,
{
    lemma_position_of(chain, id);
    let i = position_of(chain, id);
    let down = moved(chain, id, false);
    lemma_position_of(down, id);
    assert(down[i + 1] == id);
    if position_of(down, id) < i + 1 {
        let p = position_of(down, id);
        if p == i {
            assert(down[p] == chain[i + 1]);
        } else {
            assert(down[p] == chain[p]);
        }
    }
    assert(position_of(down, id) == i + 1);
    assert(moved(down, id, true) =~= chain);
}

/// Trading two seats keeps every id as often as it was seated.
proof fn lemma_swapped_multiset(chain: Seq<Seq<char>>, a: int, b: int)
    requires
        0 <= a < chain.len(),
        0 <= b < chain.len(),
        a != b,
    ensures
        swapped(chain, a, b).to_multiset() == chain.to_multiset(),
{
    broadcast use {vstd::multiset::group_multiset_axioms, vstd::seq_lib::to_multiset_contains};
    let m = chain.to_multiset();
    let t = chain.update(a, chain[b]);
    vstd::seq_lib::to_multiset_update(chain, a, chain[b]);
    vstd::seq_lib::to_multiset_update(t, b, chain[a]);
    assert(t[b] == chain[b]);
    assert(chain.contains(chain[a]));
    assert(chain.contains(chain[b]));
    let u = m.insert(chain[b]).remove(chain[a]);
    assert forall|x: Seq<char>| #[trigger] swapped(chain, a, b).to_multiset().count(x) == m.count(x) by {
        assert(swapped(chain, a, b).to_multiset() == u.insert(chain[a]).remove(chain[b]));
    }
    assert(swapped(chain, a, b).to_multiset() =~= m);
}

/// Moving changes the order only: the chain keeps its length, its members,
/// and how often each id is seated.
pub proof fn lemma_move_keeps_members(chain: Seq<Seq<char>>, id: Seq<char>, up: bool)
    ensures
        moved(chain, id, up).len() == chain.len(),
        forall|x: Seq<char>| #[trigger] moved(chain, id, up).contains(x) <==> chain.contains(x),
        moved(chain, id, up).to_multiset() == chain.to_multiset(),
{
    lemma_position_of(chain, id);
    let i = position_of(chain, id);
    let m = moved(chain, id, up);
    if can_move(chain, id, up) {
        if up {
            lemma_swapped_multiset(chain, i - 1, i);
        } else {
            lemma_swapped_multiset(chain, i, i + 1);
        }
        let (a, b) = if up { (i - 1, i) } else { (i, i + 1) };
        assert forall|x: Seq<char>| #[trigger] m.contains(x) <==> chain.contains(x) by {
            if m.contains(x) {
                let k = choose|k: int| 0 <= k < m.len() && m[k] == x;
                if k == a {
                    assert(chain[b] == x);
                } else if k == b {
                    assert(chain[a] == x);
                } else {
                    assert(chain[k] == x);
                }
            }
            if chain.contains(x) {
                let k = choose|k: int| 0 <= k < chain.len() && chain[k] == x;
                if k == a {
                    assert(m[b] == x);
                } else if k == b {
                    assert(m[a] == x);
                } else {
                    assert(m[k] == x);
                }
            }
        }
    }
}

/// An uninstall leaves no seat for the provider and every other seat in
/// place.
pub proof fn lemma_without(chain: Seq<Seq<char>>, id: Seq<char>)
    ensures
        !without(chain, id).contains(id),
        forall|x: Seq<char>| x != id ==> (#[trigger] without(chain, id).contains(x) <==> chain.contains(x)),
        without(chain, id).len() <= chain.len(),
    decreases chain.len(),
{
    if chain.len() > 0 {
        let rest = chain.drop_last();
        lemma_without(rest, id);
        let w = without(chain, id);
        assert forall|x: Seq<char>| x != id implies (#[trigger] w.contains(x) <==> chain.contains(x)) by {
            if w.contains(x) {
                let k = choose|k: int| 0 <= k < w.len() && w[k] == x;
                if k < without(rest, id).len() {
                    assert(without(rest, id)[k] == x);
                    assert(without(rest, id).contains(x));
                    assert(rest.contains(x));
                    let j = choose|j: int| 0 <= j < rest.len() && rest[j] == x;
                    assert(chain[j] == x);
                } else {
                    assert(chain[chain.len() - 1] == x);
                }
            }
            if chain.contains(x) {
                let j = choose|j: int| 0 <= j < chain.len() && chain[j] == x;
                if j < rest.len() {
                    assert(rest[j] == x);
                    assert(rest.contains(x));
                    assert(without(rest, id).contains(x));
                    let k = choose|k: int| 0 <= k < without(rest, id).len() && without(rest, id)[k] == x;
                    assert(w[k] == x);
                } else {
                    assert(w[w.len() - 1] == x);
                }
            }
        }
        if w.contains(id) {
            let k = choose|k: int| 0 <= k < w.len() && w[k] == id;
            if k < without(rest, id).len() {
                assert(without(rest, id)[k] == id);
            }
        }
    }
}

/// A chain asks only providers of its kind that it names: every resolved
/// position holds an installed plugin that claims the kind and whose id
/// has a seat in the chain.
pub proof fn lemma_resolved_members(plugins: Seq<Plugin>, chain: Seq<Seq<char>>, kind: ProviderKind)
    ensures
        forall|j: int|
            0 <= j < resolved(plugins, chain, kind).len() ==> {
                let at = #[trigger] resolved(plugins, chain, kind)[j];
                &&& 0 <= at < plugins.len()
                &&& claims(plugins[at], kind)
                &&& chain.contains(plugins[at].id@)
            },
        resolved(plugins, chain, kind).len() <= chain.len(),
    decreases chain.len(),
{
    if chain.len() > 0 {
        lemma_resolved_members(plugins, chain.drop_last(), kind);
        lemma_provider_position(plugins, chain.last(), kind);
        let r = resolved(plugins, chain, kind);
        let rest = resolved(plugins, chain.drop_last(), kind);
        assert forall|j: int| 0 <= j < r.len() implies {
            let at = #[trigger] r[j];
            &&& 0 <= at < plugins.len()
            &&& claims(plugins[at], kind)
            &&& chain.contains(plugins[at].id@)
        } by {
            if j < rest.len() {
                assert(r[j] == rest[j]);
                let k = choose|k: int| 0 <= k < chain.drop_last().len() && chain.drop_last()[k] == plugins[rest[j]].id@;
                assert(chain[k] == plugins[rest[j]].id@);
            } else {
                assert(chain[chain.len() - 1] == plugins[r[j]].id@);
            }
        }
    }
}


/// One provider's row on the Plugins page, in the section of one kind.
#[derive(Clone, Copy, Debug, PartialEq, Eq, Structural)]
pub struct ProviderRow {
    /// The plugin's position in the installed list.
    pub plugin: usize,
    /// Seated in the chain behind someone: it can move one seat earlier.
    pub can_move_up: bool,
    /// Seated in the chain before someone: it can move one seat later.
    pub can_move_down: bool,
    /// Claims the kind without a seat in its chain: only the back seat waits.
    pub outside_chain: bool,
}

/// Whether one of the plugins at `held` shares `id`.
pub open spec fn holds_id(plugins: Seq<Plugin>, held: Seq<int>, id: Seq<char>) -> bool {
    exists|j: int| 0 <= j < held.len() && #[trigger] plugins[held[j]].id@ == id
}

/// The installed plugins among the first `n` that claim `kind` and whose
/// id no seated provider shares, in the installed order.
pub open spec fn unseated(plugins: Seq<Plugin>, held: Seq<int>, kind: ProviderKind, n: int) -> Seq<int>
    decreases n,
{
    if n <= 0 {
        seq![]
    } else {
        let rest = unseated(plugins, held, kind, n - 1);
        let p = plugins[n - 1];
        if claims(p, kind) && !holds_id(plugins, held, p.id@) {
            rest.push(n - 1)
        } else {
            rest
        }
    }
}

/// The rows of one kind's section: its chain, in the order the user set,
/// each movable toward a neighbour it has; then every installed provider
/// of the kind outside the chain, with a seat waiting at the back.
pub open spec fn section_rows(plugins: Seq<Plugin>, chain: Seq<Seq<char>>, kind: ProviderKind) -> Seq<ProviderRow> {
    let held = resolved(plugins, chain, kind);
    let outside = unseated(plugins, held, kind, plugins.len() as int);
    Seq::new(held.len(), |j: int| ProviderRow {
        plugin: held[j] as usize,
        can_move_up: j > 0,
        can_move_down: j + 1 < held.len(),
        outside_chain: false,
    }) + Seq::new(outside.len(), |j: int| ProviderRow {
        plugin: outside[j] as usize,
        can_move_up: false,
        can_move_down: false,
        outside_chain: true,
    })
}

/// Whether a seated provider shares `id`.
fn seated_id(plugins: &Vec<Plugin>, held: &Vec<usize>, id: &String) -> (r: bool)
    requires
        forall|j: int| 0 <= j < held@.len() ==> #[trigger] held@[j] < plugins@.len(),
    ensures
        r == holds_id(plugins@, held@.map_values(|i: usize| i as int), id@),
{
    let ghost h = held@.map_values(|i: usize| i as int);
    let mut j: usize = 0;
    while j < held.len()
        invariant
            j <= held@.len(),
            h == held@.map_values(|i: usize| i as int),
            forall|k: int| 0 <= k < held@.len() ==> #[trigger] held@[k] < plugins@.len(),
            forall|k: int| 0 <= k < j ==> plugins@[h[k]].id@ != id@,
        decreases held@.len() - j,
    {
        if plugins[held[j]].id == *id {
            assert(plugins@[h[j as int]].id@ == id@);
            return true;
        }
        j = j + 1;
    }
    false
}

/// The rows of one kind's section on the Plugins page.
pub fn provider_rows(plugins: &Vec<Plugin>, chains: &ProviderChains, kind: ProviderKind) -> (rows: Vec<ProviderRow>)
    ensures
        rows@ == section_rows(plugins@, chains.chain(kind), kind),
{
    let held = chain_plugins(plugins, chains.for_kind(kind), kind);
    let ghost h = held@.map_values(|i: usize| i as int);
    proof {
        lemma_resolved_members(plugins@, chains.chain(kind), kind);
        assert forall|j: int| 0 <= j < held@.len() implies #[trigger] held@[j] < plugins@.len() by {
            assert(h[j] == held@[j] as int);
        }
    }
    let mut rows: Vec<ProviderRow> = Vec::new();
    let last = if held.len() == 0 { 0 } else { held.len() - 1 };
    let mut j: usize = 0;
    while j < held.len()
        invariant
            j <= held@.len(),
            h == held@.map_values(|i: usize| i as int),
            h == resolved(plugins@, chains.chain(kind), kind),
            last + 1 == held@.len() || (held@.len() == 0 && last == 0),
            rows@ == section_rows(plugins@, chains.chain(kind), kind).take(j as int),
        decreases held@.len() - j,
    {
        rows.push(ProviderRow { plugin: held[j], can_move_up: j > 0, can_move_down: j < last, outside_chain: false });
        assert(rows@ =~= section_rows(plugins@, chains.chain(kind), kind).take(j + 1));
        j = j + 1;
    }
    let ghost seated = rows@;
    let mut p: usize = 0;
    while p < plugins.len()
        invariant
            p <= plugins@.len(),
            h == held@.map_values(|i: usize| i as int),
            h == resolved(plugins@, chains.chain(kind), kind),
            forall|k: int| 0 <= k < held@.len() ==> #[trigger] held@[k] < plugins@.len(),
            seated == section_rows(plugins@, chains.chain(kind), kind).take(h.len() as int),
            rows@ == seated + Seq::new(
                unseated(plugins@, h, kind, p as int).len(),
                |j: int| ProviderRow {
                    plugin: unseated(plugins@, h, kind, p as int)[j] as usize,
                    can_move_up: false,
                    can_move_down: false,
                    outside_chain: true,
                },
            ),
        decreases plugins@.len() - p,
    {
        let ghost before = rows@;
        if claims_kind(&plugins[p], kind) && !seated_id(plugins, &held, &plugins[p].id) {
            rows.push(ProviderRow { plugin: p, can_move_up: false, can_move_down: false, outside_chain: true });
        }
        assert(rows@ =~= seated + Seq::new(
            unseated(plugins@, h, kind, p + 1).len(),
            |j: int| ProviderRow {
                plugin: unseated(plugins@, h, kind, p + 1)[j] as usize,
                can_move_up: false,
                can_move_down: false,
                outside_chain: true,
            },
        ));
        p = p + 1;
    }
    assert(rows@ =~= section_rows(plugins@, chains.chain(kind), kind));
    rows
}

} // verus!
