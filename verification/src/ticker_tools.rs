//! The `map_tickers` tool: every ticker of the portfolio gets a return
//! profile, from a manual override or from the ticker catalogue.

use vstd::prelude::*;

use crate::scenario::{AssetMapping, ProfileData, ReturnProfileData, ReturnsMode};
use crate::state::{sorted_portfolio_tickers, ScenarioState};
use crate::text::{concat3, join, joined, lemma_text_less_irreflexive, same_text, texts};
use crate::tools::{error_reply, text_reply, ToolReply};
use crate::validator::profile_names;

verus! {

/// The catalogue's suggestion of a parametric return profile for a ticker.
#[derive(Clone, Debug)]
pub struct ProfileSuggestion {
    pub ticker: String,
    pub profile_name: String,
    pub profile: ReturnProfileData,
}

/// A historical preset: its display name and description.
#[derive(Clone, Debug)]
pub struct PresetInfo {
    pub name: String,
    pub description: String,
}

/// What the ticker catalogue knows: the historical preset of tickers
/// (ticker → display name), the parametric profile of tickers, and the
/// list of historical presets.
#[derive(Clone, Debug)]
pub struct TickerCatalog {
    pub historical: Vec<AssetMapping>,
    pub parametric: Vec<ProfileSuggestion>,
    pub presets: Vec<PresetInfo>,
}

// ── Ticker → profile lists ────────────────────────────────────────────────

/// The (ticker, profile) pairs of a mapping list.
pub open spec fn pairs_of(v: Seq<AssetMapping>) -> Seq<(Seq<char>, Seq<char>)> {
    v.map_values(|m: AssetMapping| (m.asset@, m.profile@))
}

/// The (ticker, profile name) pairs of the catalogue's suggestions.
pub open spec fn suggestion_pairs(v: Seq<ProfileSuggestion>) -> Seq<(Seq<char>, Seq<char>)> {
    v.map_values(|s: ProfileSuggestion| (s.ticker@, s.profile_name@))
}

/// The position of the first pair for key `k`; the length when none.
pub open spec fn key_index(v: Seq<(Seq<char>, Seq<char>)>, k: Seq<char>) -> nat
    decreases v.len(),
{
    if v.len() == 0 {
        0
    } else if v[0].0 == k {
        0
    } else {
        1 + key_index(v.drop_first(), k)
    }
}

proof fn lemma_key_index_bound(v: Seq<(Seq<char>, Seq<char>)>, k: Seq<char>)
    ensures
        key_index(v, k) <= v.len(),
        key_index(v, k) < v.len() ==> v[key_index(v, k) as int].0 == k,
        forall|j: int| 0 <= j < key_index(v, k) ==> v[j].0 != k,
    decreases v.len(),
{
    if v.len() > 0 && v[0].0 != k {
        lemma_key_index_bound(v.drop_first(), k);
        assert forall|j: int| 0 <= j < key_index(v, k) implies v[j].0 != k by {
            if j > 0 {
                assert(v[j] == v.drop_first()[j - 1]);
            }
        }
    }
}

/// `key_index` depends on the keys alone.
proof fn lemma_key_index_keys(v: Seq<(Seq<char>, Seq<char>)>, w: Seq<(Seq<char>, Seq<char>)>, k: Seq<char>)
    requires
        v.len() == w.len(),
        forall|j: int| 0 <= j < v.len() ==> v[j].0 == w[j].0,
    ensures
        key_index(v, k) == key_index(w, k),
    decreases v.len(),
{
    if v.len() > 0 && v[0].0 != k {
        lemma_key_index_keys(v.drop_first(), w.drop_first(), k);
    }
}

/// Appending a pair for another key leaves the position of a present key.
proof fn lemma_key_index_push(v: Seq<(Seq<char>, Seq<char>)>, x: (Seq<char>, Seq<char>), k: Seq<char>)
    requires
        key_index(v, k) < v.len(),
    ensures
        key_index(v.push(x), k) == key_index(v, k),
    decreases v.len(),
{
    if v[0].0 != k {
        assert(v.push(x).drop_first() =~= v.drop_first().push(x));
        lemma_key_index_push(v.drop_first(), x, k);
    }
}

/// No two pairs share a key.
pub open spec fn keys_distinct(v: Seq<(Seq<char>, Seq<char>)>) -> bool {
    forall|i: int, j: int| 0 <= i < v.len() && 0 <= j < v.len() && i != j ==> v[i].0 != v[j].0
}

/// Setting a key's profile keeps the keys distinct.
proof fn lemma_upsert_keys_distinct(v: Seq<(Seq<char>, Seq<char>)>, k: Seq<char>, p: Seq<char>)
    requires
        keys_distinct(v),
    ensures
        keys_distinct(upsert(v, k, p)),
{
    lemma_key_index_bound(v, k);
    let u = upsert(v, k, p);
    assert forall|i: int, j: int| 0 <= i < u.len() && 0 <= j < u.len() && i != j implies u[i].0 != u[j].0 by {
        if key_index(v, k) < v.len() {
            assert(u[i].0 == v[i].0 && u[j].0 == v[j].0);
        } else if i < v.len() && j < v.len() {
            assert(u[i] == v[i] && u[j] == v[j]);
        } else if i == v.len() {
            assert(u[j] == v[j]);
        } else {
            assert(u[i] == v[i]);
        }
    }
}

/// After setting the profile of `k` to `p`, `k` maps to `p`; the entry of
/// any other key is untouched.
proof fn lemma_upsert_lookup(v: Seq<(Seq<char>, Seq<char>)>, k: Seq<char>, p: Seq<char>, t: Seq<char>)
    ensures
        ({
            let u = upsert(v, k, p);
            &&& t == k ==> key_index(u, t) < u.len() && u[key_index(u, t) as int] == (k, p)
            &&& t != k && key_index(v, t) < v.len() ==> key_index(u, t) == key_index(v, t)
                && u[key_index(u, t) as int] == v[key_index(v, t) as int]
        }),
{
    lemma_key_index_bound(v, k);
    lemma_key_index_bound(v, t);
    let u = upsert(v, k, p);
    let i = key_index(v, k);
    if i < v.len() {
        lemma_key_index_keys(v, u, t);
        if t != k && key_index(v, t) < v.len() {
            assert(key_index(v, t) != i);
        }
    } else {
        if t != k {
            if key_index(v, t) < v.len() {
                lemma_key_index_push(v, (k, p), t);
                assert(u[key_index(v, t) as int] == v[key_index(v, t) as int]);
            }
        } else {
            assert forall|j: int| 0 <= j < v.len() implies u[j].0 != t by {
                assert(u[j] == v[j]);
            }
            lemma_key_index_bound(u, t);
            assert(u[v.len() as int].0 == t);
            assert(key_index(u, t) == v.len());
        }
    }
}

/// The list with the pair for `k` set to `p`: in place when there is one,
/// else appended.
pub open spec fn upsert(v: Seq<(Seq<char>, Seq<char>)>, k: Seq<char>, p: Seq<char>) -> Seq<
    (Seq<char>, Seq<char>),
> {
    let i = key_index(v, k);
    if i < v.len() {
        v.update(i as int, (k, p))
    } else {
        v.push((k, p))
    }
}

fn find_key(v: &Vec<AssetMapping>, k: &str) -> (r: usize)
    ensures
        r == key_index(pairs_of(v@), k@),
{
    let ghost pairs = pairs_of(v@);
    let mut j: usize = 0;
    proof {
        assert(pairs.skip(0) =~= pairs);
    }
    while j < v.len() && !same_text(v[j].asset.as_str(), k)
        invariant
            pairs == pairs_of(v@),
            j <= v@.len(),
            key_index(pairs, k@) == j + key_index(pairs.skip(j as int), k@),
        decreases v@.len() - j,
    {
        proof {
            assert(pairs.skip(j as int).drop_first() =~= pairs.skip(j + 1));
        }
        j = j + 1;
    }
    j
}

fn find_suggestion(v: &Vec<ProfileSuggestion>, k: &str) -> (r: usize)
    ensures
        r == key_index(suggestion_pairs(v@), k@),
{
    let ghost pairs = suggestion_pairs(v@);
    let mut j: usize = 0;
    proof {
        assert(pairs.skip(0) =~= pairs);
    }
    while j < v.len() && !same_text(v[j].ticker.as_str(), k)
        invariant
            pairs == suggestion_pairs(v@),
            j <= v@.len(),
            key_index(pairs, k@) == j + key_index(pairs.skip(j as int), k@),
        decreases v@.len() - j,
    {
        proof {
            assert(pairs.skip(j as int).drop_first() =~= pairs.skip(j + 1));
        }
        j = j + 1;
    }
    j
}

/// Sets the profile of ticker `k` to `p` in a mapping list.
fn upsert_mapping(v: &mut Vec<AssetMapping>, k: &String, p: &String)
    ensures
        pairs_of(final(v)@) == upsert(pairs_of(old(v)@), k@, p@),
{
    let i = find_key(v, k.as_str());
    let ghost before = pairs_of(v@);
    let m = AssetMapping { asset: k.clone(), profile: p.clone() };
    if i < v.len() {
        v.remove(i);
        v.insert(i, m);
        proof {
            assert(pairs_of(v@) =~= before.update(i as int, (k@, p@)));
        }
    } else {
        v.push(m);
        proof {
            assert(pairs_of(v@) =~= before.push((k@, p@)));
        }
    }
}

/// Setting profiles one ticker at a time keeps one entry per ticker.
pub proof fn upserts_keep_keys_distinct(
    v: Seq<(Seq<char>, Seq<char>)>,
    pairs: Seq<(Seq<char>, Seq<char>, Seq<char>)>,
)
    requires
        keys_distinct(v),
    ensures
        keys_distinct(upserts(v, pairs)),
    decreases pairs.len(),
{
    if pairs.len() > 0 {
        upserts_keep_keys_distinct(v, pairs.drop_last());
        lemma_upsert_keys_distinct(upserts(v, pairs.drop_last()), pairs.last().0, pairs.last().1);
    }
}

/// When each ticker is set once, every ticker that was set maps to the
/// profile it was set to.
pub proof fn upserts_map_each_ticker(
    v: Seq<(Seq<char>, Seq<char>)>,
    pairs: Seq<(Seq<char>, Seq<char>, Seq<char>)>,
    i: int,
)
    requires
        0 <= i < pairs.len(),
        forall|j: int| 0 <= j < pairs.len() && j != i ==> pairs[j].0 != pairs[i].0,
    ensures
        ({
            let u = upserts(v, pairs);
            &&& key_index(u, pairs[i].0) < u.len()
            &&& u[key_index(u, pairs[i].0) as int] == (pairs[i].0, pairs[i].1)
        }),
    decreases pairs.len(),
{
    let w = upserts(v, pairs.drop_last());
    let last = pairs.last();
    if i == pairs.len() - 1 {
        lemma_upsert_lookup(w, last.0, last.1, last.0);
    } else {
        upserts_map_each_ticker(v, pairs.drop_last(), i);
        assert(pairs.drop_last()[i] == pairs[i]);
        lemma_upsert_lookup(w, last.0, last.1, pairs[i].0);
    }
}

// ── map_tickers ───────────────────────────────────────────────────────────

/// Tickers are mapped to historical presets, unless the parameters ask
/// for parametric returns.
pub open spec fn maps_historically<R, M, W>(st: ScenarioState<R, M, W>) -> bool {
    match st.parameters {
        Some(p) => p.returns_mode == ReturnsMode::Historical,
        None => true,
    }
}

/// The profile that ticker `t` is mapped to, with the reason: the manual
/// override when there is one, else the catalogue's historical preset or
/// parametric profile, depending on the mode; none when nothing applies.
pub open spec fn target_of(
    t: Seq<char>,
    overrides: Seq<AssetMapping>,
    catalog: TickerCatalog,
    historical: bool,
) -> Option<(Seq<char>, Seq<char>)> {
    let o = pairs_of(overrides);
    let h = pairs_of(catalog.historical@);
    let sp = suggestion_pairs(catalog.parametric@);
    if key_index(o, t) < o.len() {
        Some((o[key_index(o, t) as int].1, "manual override"@))
    } else if historical {
        if key_index(h, t) < h.len() {
            Some((h[key_index(h, t) as int].1, "historical"@))
        } else {
            None
        }
    } else if key_index(sp, t) < sp.len() {
        Some((sp[key_index(sp, t) as int].1, "parametric"@))
    } else {
        None
    }
}

/// The mapped tickers, in order, each with its profile and reason.
pub open spec fn mapped_pairs(
    ts: Seq<Seq<char>>,
    overrides: Seq<AssetMapping>,
    catalog: TickerCatalog,
    historical: bool,
) -> Seq<(Seq<char>, Seq<char>, Seq<char>)>
    decreases ts.len(),
{
    if ts.len() == 0 {
        seq![]
    } else {
        let before = mapped_pairs(ts.drop_last(), overrides, catalog, historical);
        match target_of(ts.last(), overrides, catalog, historical) {
            Some((p, why)) => before.push((ts.last(), p, why)),
            None => before,
        }
    }
}

/// The tickers that nothing maps, in order.
pub open spec fn unmapped_tickers(
    ts: Seq<Seq<char>>,
    overrides: Seq<AssetMapping>,
    catalog: TickerCatalog,
    historical: bool,
) -> Seq<Seq<char>>
    decreases ts.len(),
{
    if ts.len() == 0 {
        seq![]
    } else {
        let before = unmapped_tickers(ts.drop_last(), overrides, catalog, historical);
        if target_of(ts.last(), overrides, catalog, historical) is None {
            before.push(ts.last())
        } else {
            before
        }
    }
}

/// A mapping list after setting each mapped ticker's profile in turn.
pub open spec fn upserts(
    v: Seq<(Seq<char>, Seq<char>)>,
    pairs: Seq<(Seq<char>, Seq<char>, Seq<char>)>,
) -> Seq<(Seq<char>, Seq<char>)>
    decreases pairs.len(),
{
    if pairs.len() == 0 {
        v
    } else {
        upsert(upserts(v, pairs.drop_last()), pairs.last().0, pairs.last().1)
    }
}

/// The profile added for a catalogue suggestion.
pub open spec fn new_profile(s: ProfileSuggestion) -> ProfileData {
    ProfileData { name: s.profile_name, description: None, profile: s.profile }
}

/// The profiles after parametric mapping: each ticker mapped by the
/// catalogue adds its suggested profile, unless a profile of that name is
/// already there.
pub open spec fn profiles_after(
    ps: Seq<ProfileData>,
    ts: Seq<Seq<char>>,
    overrides: Seq<AssetMapping>,
    catalog: TickerCatalog,
) -> Seq<ProfileData>
    decreases ts.len(),
{
    if ts.len() == 0 {
        ps
    } else {
        let before = profiles_after(ps, ts.drop_last(), overrides, catalog);
        let o = pairs_of(overrides);
        let sp = suggestion_pairs(catalog.parametric@);
        let t = ts.last();
        let i = key_index(sp, t);
        if key_index(o, t) >= o.len() && i < sp.len() && !profile_names(before).contains(
            sp[i as int].1,
        ) {
            before.push(new_profile(catalog.parametric@[i as int]))
        } else {
            before
        }
    }
}

proof fn lemma_mapped_from_tickers(
    ts: Seq<Seq<char>>,
    overrides: Seq<AssetMapping>,
    catalog: TickerCatalog,
    historical: bool,
)
    ensures
        forall|j: int| #![trigger mapped_pairs(ts, overrides, catalog, historical)[j]]
            0 <= j < mapped_pairs(ts, overrides, catalog, historical).len() ==> ts.contains(
                mapped_pairs(ts, overrides, catalog, historical)[j].0,
            ),
        mapped_pairs(ts, overrides, catalog, historical).len() <= ts.len(),
    decreases ts.len(),
{
    if ts.len() > 0 {
        let before = ts.drop_last();
        lemma_mapped_from_tickers(before, overrides, catalog, historical);
        let mb = mapped_pairs(before, overrides, catalog, historical);
        let m = mapped_pairs(ts, overrides, catalog, historical);
        assert forall|j: int| 0 <= j < m.len() implies ts.contains(#[trigger] m[j].0) by {
            if j < mb.len() {
                assert(m[j] == mb[j]);
                let k = choose|k: int| 0 <= k < before.len() && before[k] == mb[j].0;
                assert(ts[k] == before[k]);
            } else {
                assert(ts[ts.len() - 1] == ts.last());
            }
        }
    }
}

/// The tickers mapped from a list without repeats are all different.
proof fn lemma_mapped_tickers_distinct(
    ts: Seq<Seq<char>>,
    overrides: Seq<AssetMapping>,
    catalog: TickerCatalog,
    historical: bool,
)
    requires
        ts.no_duplicates(),
    ensures
        ({
            let m = mapped_pairs(ts, overrides, catalog, historical);
            forall|i: int, j: int| 0 <= i < m.len() && 0 <= j < m.len() && i != j ==> m[i].0 != m[j].0
        }),
    decreases ts.len(),
{
    if ts.len() > 0 {
        let before = ts.drop_last();
        assert(before.no_duplicates()) by {
            assert forall|a: int, b: int| 0 <= a < before.len() && 0 <= b < before.len() && a != b implies before[a] != before[b] by {
                assert(before[a] == ts[a] && before[b] == ts[b]);
            }
        }
        lemma_mapped_tickers_distinct(before, overrides, catalog, historical);
        lemma_mapped_from_tickers(before, overrides, catalog, historical);
        let mb = mapped_pairs(before, overrides, catalog, historical);
        let m = mapped_pairs(ts, overrides, catalog, historical);
        assert forall|i: int, j: int| 0 <= i < m.len() && 0 <= j < m.len() && i != j implies m[i].0 != m[j].0 by {
            if i < mb.len() && j < mb.len() {
                assert(m[i] == mb[i] && m[j] == mb[j]);
            } else if i < mb.len() {
                assert(m[i] == mb[i]);
                assert(before.contains(mb[i].0));
                let k = choose|k: int| 0 <= k < before.len() && before[k] == mb[i].0;
                assert(ts[k] == before[k]);
                assert(m[j].0 == ts.last());
            } else if j < mb.len() {
                assert(m[j] == mb[j]);
                assert(before.contains(mb[j].0));
                let k = choose|k: int| 0 <= k < before.len() && before[k] == mb[j].0;
                assert(ts[k] == before[k]);
                assert(m[i].0 == ts.last());
            }
        }
    }
}

/// Mapping a list of tickers without repeats maps each mapped ticker to
/// its profile: the override when there is one, else the catalogue's.
pub proof fn mapping_sets_each_ticker(
    v: Seq<(Seq<char>, Seq<char>)>,
    ts: Seq<Seq<char>>,
    overrides: Seq<AssetMapping>,
    catalog: TickerCatalog,
    historical: bool,
    i: int,
)
    requires
        ts.no_duplicates(),
        0 <= i < mapped_pairs(ts, overrides, catalog, historical).len(),
    ensures
        ({
            let m = mapped_pairs(ts, overrides, catalog, historical);
            let u = upserts(v, m);
            &&& key_index(u, m[i].0) < u.len()
            &&& u[key_index(u, m[i].0) as int] == (m[i].0, m[i].1)
        }),
{
    lemma_mapped_tickers_distinct(ts, overrides, catalog, historical);
    upserts_map_each_ticker(v, mapped_pairs(ts, overrides, catalog, historical), i);
}

/// The reply line of a mapped ticker.
pub open spec fn mapped_line(m: (Seq<char>, Seq<char>, Seq<char>)) -> Seq<char> {
    "  "@ + m.0 + " → "@ + m.1 + " ("@ + m.2 + ")"@
}

/// The reply lines of the mapped tickers.
pub open spec fn mapped_lines(ms: Seq<(Seq<char>, Seq<char>, Seq<char>)>) -> Seq<Seq<char>> {
    ms.map_values(|m: (Seq<char>, Seq<char>, Seq<char>)| mapped_line(m))
}

/// The list of historical presets, one line each.
pub open spec fn presets_text(ps: Seq<PresetInfo>) -> Seq<char>
    decreases ps.len(),
{
    if ps.len() == 0 {
        seq![]
    } else {
        presets_text(ps.drop_last()) + "  \""@ + ps.last().name@ + "\" - "@
            + ps.last().description@ + "\n"@
    }
}

/// The reply of `map_tickers`: the mapped tickers, then the unmapped ones
/// with a hint on overrides and, in historical mode, the presets.
pub open spec fn map_tickers_text(
    ts: Seq<Seq<char>>,
    overrides: Seq<AssetMapping>,
    catalog: TickerCatalog,
    historical: bool,
) -> Seq<char> {
    let ms = mapped_pairs(ts, overrides, catalog, historical);
    let un = unmapped_tickers(ts, overrides, catalog, historical);
    let head = if ms.len() > 0 {
        "Mapped tickers:\n"@ + joined(mapped_lines(ms), "\n"@)
    } else {
        Seq::<char>::empty()
    };
    if un.len() > 0 {
        head + (if ms.len() > 0 {
            "\n\n"@
        } else {
            Seq::<char>::empty()
        }) + "Unmapped tickers (need manual override): "@ + joined(un, ", "@)
            + "\nUse the overrides parameter to map these, e.g.:\n"@
            + "  overrides: {\"TICKER\": \"S&P 500\"}"@ + if historical {
            "\n\nAvailable historical presets:\n"@ + presets_text(catalog.presets@)
        } else {
            Seq::<char>::empty()
        }
    } else {
        head
    }
}

impl<R, M, W> ScenarioState<R, M, W> {
    /// The two states agree on everything but the ticker mappings, the
    /// profiles and the caches.
    pub open spec fn same_except_mappings(&self, other: &Self) -> bool {
        &&& self.portfolio == other.portfolio
        &&& self.parameters == other.parameters
        &&& self.events == other.events
        &&& self.asset_prices == other.asset_prices
        &&& self.asset_tracking_errors == other.asset_tracking_errors
        &&& self.analysis == other.analysis
        &&& self.sweep_parameters == other.sweep_parameters
        &&& self.sweep_mc_iterations == other.sweep_mc_iterations
        &&& self.sweep_default_steps == other.sweep_default_steps
    }
}

fn has_profile_named(profiles: &Vec<ProfileData>, name: &String) -> (b: bool)
    ensures
        b == profile_names(profiles@).contains(name@),
{
    for j in 0..profiles.len()
        invariant
            forall|k: int| 0 <= k < j ==> profile_names(profiles@)[k] != name@,
    {
        if profiles[j].name == *name {
            proof {
                assert(profile_names(profiles@)[j as int] == name@);
            }
            return true;
        }
    }
    false
}

fn mapped_line_text(t: &String, p: &String, why: &str) -> (r: String)
    ensures
        r@ == mapped_line((t@, p@, why@)),
{
    let mut r = concat3("  ", t.as_str(), " → ");
    r.append(p.as_str());
    r.append(" (");
    r.append(why);
    r.append(")");
    r
}

/// Map every ticker of the portfolio (sorted, each once) to a return
/// profile: a manual override first, else, in historical mode, the
/// catalogue's historical preset and, in parametric mode, the catalogue's
/// parametric profile, whose profile is added when no profile of its name
/// exists.  Mapping a ticker sets its entry in the historical or the
/// parametric mapping list.  A portfolio without tickers is an error
/// reply that leaves the state unchanged.
pub fn map_tickers<R, M, W>(
    state: &mut ScenarioState<R, M, W>,
    overrides: &Vec<AssetMapping>,
    catalog: &TickerCatalog,
) -> (r: ToolReply)
    ensures
        ({
            let ts = sorted_portfolio_tickers(old(state).portfolio);
            let h = maps_historically(*old(state));
            let ms = mapped_pairs(ts, overrides@, *catalog, h);
            if ts.len() == 0 {
                r@ == (
                    "No tickers found in portfolio. Add investment accounts with assets first."@,
                    true,
                ) && *final(state) == *old(state)
            } else {
                &&& h ==> {
                    &&& pairs_of(final(state).historical_assets@) == upserts(
                        pairs_of(old(state).historical_assets@),
                        ms,
                    )
                    &&& final(state).assets == old(state).assets
                    &&& final(state).profiles == old(state).profiles
                }
                &&& !h ==> {
                    &&& pairs_of(final(state).assets@) == upserts(pairs_of(old(state).assets@), ms)
                    &&& final(state).historical_assets == old(state).historical_assets
                    &&& final(state).profiles@ == profiles_after(
                        old(state).profiles@,
                        ts,
                        overrides@,
                        *catalog,
                    )
                }
                &&& final(state).same_except_mappings(old(state))
                &&& final(state).caches_clear()
                &&& r@ == (map_tickers_text(ts, overrides@, *catalog, h), false)
            }
        }),
        // Every mapped ticker maps to the profile it was given.
        ({
            let ts = sorted_portfolio_tickers(old(state).portfolio);
            let h = maps_historically(*old(state));
            let ms = mapped_pairs(ts, overrides@, *catalog, h);
            let mapping = if h {
                pairs_of(final(state).historical_assets@)
            } else {
                pairs_of(final(state).assets@)
            };
            forall|i: int|
                #![trigger ms[i]]
                0 <= i < ms.len() ==> key_index(mapping, ms[i].0) < mapping.len() && mapping[key_index(
                    mapping,
                    ms[i].0,
                ) as int] == (ms[i].0, ms[i].1)
        }),
        // Each ticker keeps a single entry in each mapping list.
        keys_distinct(pairs_of(old(state).assets@)) ==> keys_distinct(
            pairs_of(final(state).assets@),
        ),
        keys_distinct(pairs_of(old(state).historical_assets@)) ==> keys_distinct(
            pairs_of(final(state).historical_assets@),
        ),
{
    let tickers = state.portfolio_tickers();
    if tickers.len() == 0 {
        return error_reply(
            String::from_str(
                "No tickers found in portfolio. Add investment accounts with assets first.",
            ),
        );
    }
    let historical = match &state.parameters {
        Some(p) => match p.returns_mode {
            ReturnsMode::Historical => true,
            ReturnsMode::Parametric => false,
        },
        None => true,
    };
    let ghost st0 = *state;
    let ghost ts = texts(tickers@);
    let ghost o = overrides@;
    let ghost cat = *catalog;
    let mut mapped: Vec<String> = Vec::new();
    let mut unmapped: Vec<String> = Vec::new();
    proof {
        assert(ts.take(0) =~= Seq::<Seq<char>>::empty());
        assert(mapped_lines(mapped_pairs(ts.take(0), o, cat, historical)) =~= Seq::<Seq<char>>::empty());
    }
    for i in 0..tickers.len()
        invariant
            ts == texts(tickers@),
            o == overrides@,
            cat == *catalog,
            historical == maps_historically(st0),
            state.same_except_mappings(&st0),
            historical ==> {
                &&& pairs_of(state.historical_assets@) == upserts(
                    pairs_of(st0.historical_assets@),
                    mapped_pairs(ts.take(i as int), o, cat, historical),
                )
                &&& state.assets == st0.assets
                &&& state.profiles == st0.profiles
            },
            !historical ==> {
                &&& pairs_of(state.assets@) == upserts(
                    pairs_of(st0.assets@),
                    mapped_pairs(ts.take(i as int), o, cat, historical),
                )
                &&& state.historical_assets == st0.historical_assets
                &&& state.profiles@ == profiles_after(st0.profiles@, ts.take(i as int), o, cat)
            },
            texts(mapped@) == mapped_lines(mapped_pairs(ts.take(i as int), o, cat, historical)),
            texts(unmapped@) == unmapped_tickers(ts.take(i as int), o, cat, historical),
    {
        let t = &tickers[i];
        let ghost prev = ts.take(i as int);
        proof {
            assert(ts.take(i + 1).drop_last() =~= prev);
            assert(ts.take(i + 1).last() == t@);
            lemma_key_index_bound(pairs_of(o), t@);
            lemma_key_index_bound(pairs_of(cat.historical@), t@);
            lemma_key_index_bound(suggestion_pairs(cat.parametric@), t@);
        }
        let ghost mp = mapped_pairs(prev, o, cat, historical);
        let ghost lines = texts(mapped@);
        let oi = find_key(overrides, t.as_str());
        if oi < overrides.len() {
            let p = overrides[oi].profile.clone();
            if historical {
                upsert_mapping(&mut state.historical_assets, t, &p);
            } else {
                upsert_mapping(&mut state.assets, t, &p);
            }
            mapped.push(mapped_line_text(t, &p, "manual override"));
            proof {
                assert(mapped_pairs(ts.take(i + 1), o, cat, historical) == mp.push((t@, p@, "manual override"@)));
                assert(mp.push((t@, p@, "manual override"@)).drop_last() =~= mp);
                assert(mapped_lines(mp.push((t@, p@, "manual override"@))) =~= lines.push(
                    mapped_line((t@, p@, "manual override"@)),
                ));
                assert(texts(mapped@) =~= lines.push(mapped_line((t@, p@, "manual override"@))));
            }
        } else if historical {
            let hi = find_key(&catalog.historical, t.as_str());
            if hi < catalog.historical.len() {
                let d = catalog.historical[hi].profile.clone();
                upsert_mapping(&mut state.historical_assets, t, &d);
                mapped.push(mapped_line_text(t, &d, "historical"));
                proof {
                    assert(mp.push((t@, d@, "historical"@)).drop_last() =~= mp);
                    assert(mapped_lines(mp.push((t@, d@, "historical"@))) =~= lines.push(
                        mapped_line((t@, d@, "historical"@)),
                    ));
                    assert(texts(mapped@) =~= lines.push(mapped_line((t@, d@, "historical"@))));
                }
            } else {
                let ghost before = texts(unmapped@);
                unmapped.push(t.clone());
                proof {
                    assert(texts(unmapped@) =~= before.push(t@));
                }
            }
        } else {
            let si = find_suggestion(&catalog.parametric, t.as_str());
            if si < catalog.parametric.len() {
                let s = &catalog.parametric[si];
                if !has_profile_named(&state.profiles, &s.profile_name) {
                    state.profiles.push(
                        ProfileData {
                            name: s.profile_name.clone(),
                            description: None,
                            profile: s.profile.clone(),
                        },
                    );
                }
                upsert_mapping(&mut state.assets, t, &s.profile_name);
                mapped.push(mapped_line_text(t, &s.profile_name, "parametric"));
                proof {
                    let n = s.profile_name@;
                    assert(mp.push((t@, n, "parametric"@)).drop_last() =~= mp);
                    assert(mapped_lines(mp.push((t@, n, "parametric"@))) =~= lines.push(
                        mapped_line((t@, n, "parametric"@)),
                    ));
                    assert(texts(mapped@) =~= lines.push(mapped_line((t@, n, "parametric"@))));
                }
            } else {
                let ghost before = texts(unmapped@);
                unmapped.push(t.clone());
                proof {
                    assert(texts(unmapped@) =~= before.push(t@));
                }
            }
        }
    }
    proof {
        assert(ts.take(tickers@.len() as int) =~= ts);
    }
    let mut text = String::new();
    if mapped.len() > 0 {
        text.append("Mapped tickers:\n");
        text.append(join(&mapped, "\n").as_str());
    }
    if unmapped.len() > 0 {
        if mapped.len() > 0 {
            text.append("\n\n");
        }
        text.append("Unmapped tickers (need manual override): ");
        text.append(join(&unmapped, ", ").as_str());
        text.append("\nUse the overrides parameter to map these, e.g.:\n");
        text.append("  overrides: {\"TICKER\": \"S&P 500\"}");
        if historical {
            text.append("\n\nAvailable historical presets:\n");
            let ghost head = text@;
            for k in 0..catalog.presets.len()
                invariant
                    text@ == head + presets_text(catalog.presets@.take(k as int)),
            {
                proof {
                    assert(catalog.presets@.take(k + 1).drop_last() =~= catalog.presets@.take(
                        k as int,
                    ));
                }
                text.append("  \"");
                text.append(catalog.presets[k].name.as_str());
                text.append("\" - ");
                text.append(catalog.presets[k].description.as_str());
                text.append("\n");
            }
            proof {
                assert(catalog.presets@.take(catalog.presets@.len() as int) =~= catalog.presets@);
            }
        }
    }
    state.invalidate_simulation_cache();
    proof {
        assert(text@ =~= map_tickers_text(ts, o, cat, historical));
        assert(ts.no_duplicates()) by {
            assert forall|a: int, b: int| 0 <= a < ts.len() && 0 <= b < ts.len() && a != b implies ts[a] != ts[b] by {
                lemma_text_less_irreflexive(ts[a]);
            }
        }
        let ms = mapped_pairs(ts, o, cat, historical);
        let v0 = if historical {
            pairs_of(st0.historical_assets@)
        } else {
            pairs_of(st0.assets@)
        };
        assert forall|i: int| #![trigger ms[i]] 0 <= i < ms.len() implies ({
            let u = upserts(v0, ms);
            key_index(u, ms[i].0) < u.len() && u[key_index(u, ms[i].0) as int] == (ms[i].0, ms[i].1)
        }) by {
            mapping_sets_each_ticker(v0, ts, o, cat, historical, i);
        }
        if keys_distinct(pairs_of(st0.assets@)) {
            upserts_keep_keys_distinct(pairs_of(st0.assets@), ms);
        }
        if keys_distinct(pairs_of(st0.historical_assets@)) {
            upserts_keep_keys_distinct(pairs_of(st0.historical_assets@), ms);
        }
    }
    text_reply(text)
}

} // verus!
