//! Scenario state accumulated across tool calls.

use vstd::prelude::*;

use crate::text::{
    lemma_sorted_unique, lemma_text_less_total,
    lemma_text_less_transitive, strictly_sorted, text_less, text_lt, texts,
};
use crate::scenario::{
    AccountData, AccountType, AssetValue, AnalysisConfigData, AssetMapping, AssetNumber, EventData, ParametersData,
    PortfolioData, ProfileData, SimulationData, SweepParameterData,
};

verus! {

/// Accumulated scenario state built up across tool calls.
///
/// `R`, `M` and `W` are the types of the cached outputs of the simulation
/// engine: a single run, a Monte Carlo summary and a sweep.  Every change
/// of the scenario clears the caches that depend on it.
#[derive(Clone, Debug)]
pub struct ScenarioState<R, M, W> {
    /// Portfolio section (from set_portfolio)
    pub portfolio: Option<PortfolioData>,
    /// Parameters section (from set_parameters)
    pub parameters: Option<ParametersData>,
    /// Accumulated events (from the add_* tools)
    pub events: Vec<EventData>,
    /// Return profiles (parametric mode)
    pub profiles: Vec<ProfileData>,
    /// Asset-to-profile mappings (parametric)
    pub assets: Vec<AssetMapping>,
    /// Asset-to-historical-preset mappings
    pub historical_assets: Vec<AssetMapping>,
    /// Explicit asset prices
    pub asset_prices: Vec<AssetNumber>,
    /// Tracking errors
    pub asset_tracking_errors: Vec<AssetNumber>,
    /// Analysis config
    pub analysis: AnalysisConfigData,
    /// Last single-run or P50 Monte Carlo result
    pub last_simulation_result: Option<R>,
    /// The scenario that produced `last_simulation_result`
    pub last_sim_data: Option<SimulationData>,
    /// Full Monte Carlo summary
    pub last_mc_summary: Option<M>,
    /// Sweep parameter axes added via add_sweep_parameter
    pub sweep_parameters: Vec<SweepParameterData>,
    /// Monte Carlo iterations per sweep grid point
    pub sweep_mc_iterations: usize,
    /// Default step count for new sweep parameters
    pub sweep_default_steps: usize,
    /// Results of the last sweep
    pub last_sweep_results: Option<W>,
}

/// The analysis configuration of a fresh state.
pub open spec fn is_initial_analysis(a: AnalysisConfigData) -> bool {
    &&& a.mc_iterations == 500
    &&& a.default_steps == 6
    &&& a.sweep_parameters@.len() == 0
}

/// The tickers held by an account: the assets of an investment account,
/// none for other accounts.
pub open spec fn holdings(t: AccountType) -> Seq<Seq<char>> {
    match t {
        AccountType::Brokerage(a) => a.assets@.map_values(|v: AssetValue| v.asset@),
        AccountType::Traditional401k(a) => a.assets@.map_values(|v: AssetValue| v.asset@),
        AccountType::Roth401k(a) => a.assets@.map_values(|v: AssetValue| v.asset@),
        AccountType::TraditionalIRA(a) => a.assets@.map_values(|v: AssetValue| v.asset@),
        AccountType::RothIRA(a) => a.assets@.map_values(|v: AssetValue| v.asset@),
        _ => seq![],
    }
}

/// The tickers held by the first `n` accounts, in order, repeats included.
pub open spec fn tickers_of(accounts: Seq<AccountData>, n: int) -> Seq<Seq<char>>
    decreases n,
{
    if n <= 0 {
        seq![]
    } else {
        tickers_of(accounts, n - 1) + holdings(accounts[n - 1].account_type)
    }
}

/// Every ticker referenced in a portfolio, sorted, each once.
pub open spec fn sorted_portfolio_tickers(portfolio: Option<PortfolioData>) -> Seq<Seq<char>> {
    choose|s: Seq<Seq<char>>|
        strictly_sorted(s) && s.to_set() == portfolio_ticker_list(portfolio).to_set()
}

/// Every ticker referenced in a portfolio.
pub open spec fn portfolio_ticker_list(portfolio: Option<PortfolioData>) -> Seq<Seq<char>> {
    match portfolio {
        Some(p) => tickers_of(p.accounts@, p.accounts@.len() as int),
        None => seq![],
    }
}

fn holdings_of(t: &AccountType) -> (r: Option<&Vec<AssetValue>>)
    ensures
        match r {
            Some(v) => v@.map_values(|a: AssetValue| a.asset@) == holdings(*t),
            None => holdings(*t) == Seq::<Seq<char>>::empty(),
        },
{
    match t {
        AccountType::Brokerage(a) => Some(&a.assets),
        AccountType::Traditional401k(a) => Some(&a.assets),
        AccountType::Roth401k(a) => Some(&a.assets),
        AccountType::TraditionalIRA(a) => Some(&a.assets),
        AccountType::RothIRA(a) => Some(&a.assets),
        _ => None,
    }
}

/// Inserts `x` into a strictly sorted list unless it is already there.
fn insert_sorted_unique(v: &mut Vec<String>, x: String)
    requires
        strictly_sorted(texts(old(v)@)),
    ensures
        strictly_sorted(texts(final(v)@)),
        texts(final(v)@).to_set() == texts(old(v)@).to_set().insert(x@),
{
    let ghost old_texts = texts(v@);
    let mut i: usize = 0;
    while i < v.len() && text_lt(v[i].as_str(), x.as_str())
        invariant
            texts(v@) == old_texts,
            strictly_sorted(old_texts),
            i <= v@.len(),
            forall|j: int| 0 <= j < i ==> text_less(#[trigger] old_texts[j], x@),
        decreases v@.len() - i,
    {
        i = i + 1;
    }
    if i < v.len() && v[i] == x {
        proof {
            assert(old_texts[i as int] == x@);
            assert(texts(v@).to_set() =~= old_texts.to_set().insert(x@));
        }
        return;
    }
    proof {
        if i < v@.len() {
            assert(!text_less(old_texts[i as int], x@));
            lemma_text_less_total(old_texts[i as int], x@);
            assert(text_less(x@, old_texts[i as int]));
            assert forall|k: int| i < k < old_texts.len() implies text_less(x@, #[trigger] old_texts[k]) by {
                lemma_text_less_transitive(x@, old_texts[i as int], old_texts[k]);
            }
        }
    }
    let ghost xv = x@;
    v.insert(i, x);
    proof {
        let w = texts(v@);
        assert(w =~= old_texts.insert(i as int, xv));
        assert forall|a: int, b: int| 0 <= a < b < w.len() implies text_less(w[a], w[b]) by {
            if b < i {
            } else if a < i && b == i {
            } else if a < i && b > i {
                lemma_text_less_transitive(old_texts[a], xv, old_texts[b - 1]);
            } else if a == i {
            } else {
            }
        }
        assert forall|t: Seq<char>| w.to_set().contains(t) <==> old_texts.to_set().insert(xv).contains(t) by {
            if t == xv {
                assert(w[i as int] == t);
            }
            if old_texts.contains(t) {
                let k = choose|k: int| 0 <= k < old_texts.len() && old_texts[k] == t;
                if k < i {
                    assert(w[k] == t);
                } else {
                    assert(w[k + 1] == t);
                }
            }
            if w.contains(t) {
                let k = choose|k: int| 0 <= k < w.len() && w[k] == t;
                if k < i {
                    assert(old_texts[k] == t);
                } else if k > i {
                    assert(old_texts[k - 1] == t);
                }
            }
        }
        assert(w.to_set() =~= old_texts.to_set().insert(xv));
    }
}

proof fn lemma_push_to_set<T>(s: Seq<T>, x: T)
    ensures
        s.push(x).to_set() == s.to_set().insert(x),
{
    assert forall|a: T| s.push(x).to_set().contains(a) <==> s.to_set().insert(x).contains(a) by {
        if s.push(x).contains(a) && a != x {
            let k = choose|k: int| 0 <= k < s.push(x).len() && s.push(x)[k] == a;
            assert(s[k] == a);
        }
        if s.contains(a) {
            let k = choose|k: int| 0 <= k < s.len() && s[k] == a;
            assert(s.push(x)[k] == a);
        }
        if a == x {
            assert(s.push(x)[s.len() as int] == a);
        }
    }
    assert(s.push(x).to_set() =~= s.to_set().insert(x));
}

/// The parameters a scenario takes when none are set.
pub open spec fn default_parameters() -> ParametersData {
    choose|p: ParametersData| p.is_default()
}

/// The complete scenario that the accumulated sections make, once a
/// portfolio is set: the parameters default when they are not set.
pub open spec fn merged_scenario<R, M, W>(st: ScenarioState<R, M, W>) -> SimulationData {
    SimulationData {
        portfolios: st.portfolio->Some_0,
        profiles: st.profiles,
        assets: st.assets,
        historical_assets: st.historical_assets,
        asset_prices: st.asset_prices,
        asset_tracking_errors: st.asset_tracking_errors,
        events: st.events,
        parameters: match st.parameters {
            Some(p) => p,
            None => default_parameters(),
        },
        analysis: st.analysis,
    }
}

impl<R, M, W> ScenarioState<R, M, W> {
    /// No cached simulation output is held.
    pub open spec fn caches_clear(&self) -> bool {
        &&& self.last_simulation_result is None
        &&& self.last_sim_data is None
        &&& self.last_mc_summary is None
        &&& self.last_sweep_results is None
    }

    /// Nothing has been accumulated yet.
    pub open spec fn is_fresh(&self) -> bool {
        &&& self.portfolio is None
        &&& self.parameters is None
        &&& self.events@.len() == 0
        &&& self.profiles@.len() == 0
        &&& self.assets@.len() == 0
        &&& self.historical_assets@.len() == 0
        &&& self.asset_prices@.len() == 0
        &&& self.asset_tracking_errors@.len() == 0
        &&& is_initial_analysis(self.analysis)
        &&& self.caches_clear()
        &&& self.sweep_parameters@.len() == 0
        &&& self.sweep_mc_iterations == 200
        &&& self.sweep_default_steps == 6
    }

    /// The scenario sections of two states are the same.
    pub open spec fn same_scenario(&self, other: &Self) -> bool {
        &&& self.portfolio == other.portfolio
        &&& self.parameters == other.parameters
        &&& self.events == other.events
        &&& self.profiles == other.profiles
        &&& self.assets == other.assets
        &&& self.historical_assets == other.historical_assets
        &&& self.asset_prices == other.asset_prices
        &&& self.asset_tracking_errors == other.asset_tracking_errors
        &&& self.analysis == other.analysis
        &&& self.sweep_parameters == other.sweep_parameters
        &&& self.sweep_mc_iterations == other.sweep_mc_iterations
        &&& self.sweep_default_steps == other.sweep_default_steps
    }

    /// A fresh state: nothing set, 500 Monte Carlo iterations and 6 default
    /// steps in the analysis section, 200 iterations per sweep point and
    /// 6 default sweep steps.
    pub fn new() -> (s: Self)
        ensures
            s.is_fresh(),
    {
        ScenarioState {
            portfolio: None,
            parameters: None,
            events: Vec::new(),
            profiles: Vec::new(),
            assets: Vec::new(),
            historical_assets: Vec::new(),
            asset_prices: Vec::new(),
            asset_tracking_errors: Vec::new(),
            analysis: AnalysisConfigData {
                mc_iterations: 500,
                default_steps: 6,
                sweep_parameters: Vec::new(),
            },
            last_simulation_result: None,
            last_sim_data: None,
            last_mc_summary: None,
            sweep_parameters: Vec::new(),
            sweep_mc_iterations: 200,
            sweep_default_steps: 6,
            last_sweep_results: None,
        }
    }

    /// Clear cached simulation results. Called whenever the scenario changes.
    pub fn invalidate_simulation_cache(&mut self)
        ensures
            final(self).caches_clear(),
            final(self).same_scenario(old(self)),
    {
        self.last_simulation_result = None;
        self.last_sim_data = None;
        self.last_mc_summary = None;
        self.last_sweep_results = None;
    }

    /// Clear only the sweep results cache. Called when the sweep grid changes.
    pub fn invalidate_sweep_cache(&mut self)
        ensures
            final(self).last_sweep_results is None,
            final(self).last_simulation_result == old(self).last_simulation_result,
            final(self).last_sim_data == old(self).last_sim_data,
            final(self).last_mc_summary == old(self).last_mc_summary,
            final(self).same_scenario(old(self)),
    {
        self.last_sweep_results = None;
    }

    /// Collect all tickers referenced in the portfolio, sorted and without
    /// repeats.
    pub fn portfolio_tickers(&self) -> (r: Vec<String>)
        ensures
            strictly_sorted(texts(r@)),
            texts(r@).to_set() == portfolio_ticker_list(self.portfolio).to_set(),
            texts(r@) == sorted_portfolio_tickers(self.portfolio),
    {
        let tickers = self.collect_tickers();
        proof {
            let c = sorted_portfolio_tickers(self.portfolio);
            assert(strictly_sorted(c) && c.to_set() == portfolio_ticker_list(self.portfolio).to_set());
            lemma_sorted_unique(texts(tickers@), c);
        }
        tickers
    }

    fn collect_tickers(&self) -> (r: Vec<String>)
        ensures
            strictly_sorted(texts(r@)),
            texts(r@).to_set() == portfolio_ticker_list(self.portfolio).to_set(),
    {
        let mut tickers: Vec<String> = Vec::new();
        let portfolio = match &self.portfolio {
            Some(p) => p,
            None => {
                proof {
                    assert(texts(tickers@).to_set() =~= Seq::<Seq<char>>::empty().to_set());
                }
                return tickers;
            },
        };
        let ghost accounts = portfolio.accounts@;
        proof {
            assert(texts(tickers@).to_set() =~= tickers_of(accounts, 0).to_set());
        }
        for i in 0..portfolio.accounts.len()
            invariant
                accounts == portfolio.accounts@,
                strictly_sorted(texts(tickers@)),
                texts(tickers@).to_set() == tickers_of(accounts, i as int).to_set(),
        {
            let ghost a = tickers_of(accounts, i as int);
            let ghost h = holdings(accounts[i as int].account_type);
            match holdings_of(&portfolio.accounts[i].account_type) {
                Some(assets) => {
                    proof {
                        assert(a + h.take(0) =~= a);
                    }
                    for k in 0..assets.len()
                        invariant
                            strictly_sorted(texts(tickers@)),
                            h == assets@.map_values(|v: AssetValue| v.asset@),
                            texts(tickers@).to_set() == (a + h.take(k as int)).to_set(),
                    {
                        let ghost xv = assets@[k as int].asset@;
                        insert_sorted_unique(&mut tickers, assets[k].asset.clone());
                        proof {
                            assert(a + h.take(k + 1) =~= (a + h.take(k as int)).push(xv));
                            lemma_push_to_set(a + h.take(k as int), xv);
                        }
                    }
                    proof {
                        assert(h.take(h.len() as int) =~= h);
                    }
                },
                None => {
                    proof {
                        assert(a + h =~= a);
                    }
                },
            }
            proof {
                assert(tickers_of(accounts, i + 1) == a + h);
            }
        }
        tickers
    }

    /// Merge all accumulated sections into a complete scenario.  Fails,
    /// asking for `set_portfolio`, when no portfolio is set; missing
    /// parameters take their defaults.
    pub fn merge(self) -> (r: Result<SimulationData, Vec<String>>)
        ensures
            self.portfolio is None ==> (r matches Err(errs) && errs@.len() == 1
                && errs@[0]@ == "Portfolio not set. Call set_portfolio first."@),
            self.portfolio matches Some(p) ==> (r matches Ok(d) && {
                &&& d.portfolios == p
                &&& d.profiles == self.profiles
                &&& d.assets == self.assets
                &&& d.historical_assets == self.historical_assets
                &&& d.asset_prices == self.asset_prices
                &&& d.asset_tracking_errors == self.asset_tracking_errors
                &&& d.events == self.events
                &&& d.analysis == self.analysis
                &&& match self.parameters {
                    Some(params) => d.parameters == params,
                    None => d.parameters.is_default(),
                }
            }),
    {
        let portfolio = match self.portfolio {
            Some(p) => p,
            None => {
                return Err(vec![String::from_str("Portfolio not set. Call set_portfolio first.")]);
            },
        };
        let parameters = match self.parameters {
            Some(p) => p,
            None => ParametersData::default(),
        };
        Ok(SimulationData {
            portfolios: portfolio,
            profiles: self.profiles,
            assets: self.assets,
            historical_assets: self.historical_assets,
            asset_prices: self.asset_prices,
            asset_tracking_errors: self.asset_tracking_errors,
            events: self.events,
            parameters,
            analysis: self.analysis,
        })
    }
}

} // verus!
