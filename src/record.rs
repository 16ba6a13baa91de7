//! Strategy documents: the steps of a plan and the record that holds them.
use vstd::prelude::*;

verus! {

/// The abstract value of a `StrategyStep`.
pub struct StepView {
    pub action: Seq<char>,
    pub protocol: Seq<char>,
    pub asset: Seq<char>,
    pub expected_apy: Option<u64>,
    pub amount: Option<Seq<char>>,
}

/// The abstract value of a `StrategyData`.
pub struct StrategyView {
    pub id: Seq<char>,
    pub goal: Seq<char>,
    pub chains: Seq<Seq<char>>,
    pub protocols: Seq<Seq<char>>,
    pub steps: Seq<StepView>,
    pub risk_level: Seq<char>,
    pub estimated_apy: Option<u64>,
    pub estimated_tvl: Option<Seq<char>>,
    pub confidence: Option<u64>,
    pub reasoning: Option<Seq<char>>,
    pub warnings: Option<Seq<Seq<char>>>,
    pub creator: Seq<char>,
    pub created_at: u64,
}

/// The characters of an optional string.
pub open spec fn opt_str_view(s: Option<String>) -> Option<Seq<char>> {
    match s {
        Some(t) => Some(t@),
        None => None,
    }
}

/// The characters of each string of a vector, in order.
pub open spec fn strs_view(v: Vec<String>) -> Seq<Seq<char>> {
    v@.map_values(|s: String| s@)
}

/// The characters of each string of an optional vector, in order.
pub open spec fn opt_strs_view(v: Option<Vec<String>>) -> Option<Seq<Seq<char>>> {
    match v {
        Some(w) => Some(strs_view(w)),
        None => None,
    }
}

/// One action of a plan. Floating values are kept as their IEEE-754 bit pattern.
pub struct StrategyStep {
    pub action: String,
    pub protocol: String,
    pub asset: String,
    pub expected_apy: Option<u64>,
    pub amount: Option<String>,
}

impl View for StrategyStep {
    type V = StepView;

    open spec fn view(&self) -> StepView {
        StepView {
            action: self.action@,
            protocol: self.protocol@,
            asset: self.asset@,
            expected_apy: self.expected_apy,
            amount: opt_str_view(self.amount),
        }
    }
}

/// The abstract values of a sequence of steps, in order.
pub open spec fn steps_view(v: Vec<StrategyStep>) -> Seq<StepView> {
    v@.map_values(|s: StrategyStep| s@)
}

/// A stored strategy document. Floating values are kept as their IEEE-754 bit
/// pattern; `creator` is the identity of the account that stored it.
pub struct StrategyData {
    pub id: String,
    pub goal: String,
    pub chains: Vec<String>,
    pub protocols: Vec<String>,
    pub steps: Vec<StrategyStep>,
    pub risk_level: String,
    pub estimated_apy: Option<u64>,
    pub estimated_tvl: Option<String>,
    pub confidence: Option<u64>,
    pub reasoning: Option<String>,
    pub warnings: Option<Vec<String>>,
    pub creator: String,
    pub created_at: u64,
}

impl View for StrategyData {
    type V = StrategyView;

    open spec fn view(&self) -> StrategyView {
        StrategyView {
            id: self.id@,
            goal: self.goal@,
            chains: strs_view(self.chains),
            protocols: strs_view(self.protocols),
            steps: steps_view(self.steps),
            risk_level: self.risk_level@,
            estimated_apy: self.estimated_apy,
            estimated_tvl: opt_str_view(self.estimated_tvl),
            confidence: self.confidence,
            reasoning: opt_str_view(self.reasoning),
            warnings: opt_strs_view(self.warnings),
            creator: self.creator@,
            created_at: self.created_at,
        }
    }
}

/// The abstract values of a sequence of records, in order.
pub open spec fn records_view(v: Vec<StrategyData>) -> Seq<StrategyView> {
    v@.map_values(|d: StrategyData| d@)
}

/// The abstract value of an optional record.
pub open spec fn opt_record_view(r: Option<StrategyData>) -> Option<StrategyView> {
    match r {
        Some(d) => Some(d@),
        None => None,
    }
}

/// The record that a bare store builds: empty sequences, the default risk
/// level, no optional field set.
pub open spec fn minimal_record(
    id: Seq<char>,
    goal: Seq<char>,
    creator: Seq<char>,
    created_at: u64,
) -> StrategyView {
    StrategyView {
        id,
        goal,
        chains: Seq::empty(),
        protocols: Seq::empty(),
        steps: Seq::empty(),
        risk_level: "medium"@,
        estimated_apy: None,
        estimated_tvl: None,
        confidence: None,
        reasoning: None,
        warnings: None,
        creator,
        created_at,
    }
}

/// `rec` with its owner and creation time replaced.
pub open spec fn stamped(rec: StrategyView, creator: Seq<char>, created_at: u64) -> StrategyView {
    StrategyView { creator, created_at, ..rec }
}

/// Whether `caller` owns `existing`: only the creator may change or remove a record.
pub fn authorize(existing: &StrategyData, caller: &String) -> (r: bool)
    ensures
        r == (existing.creator@ == caller@),
{
    existing.creator == *caller
}

fn clone_strings(v: &Vec<String>) -> (r: Vec<String>)
    ensures
        strs_view(*v) == strs_view(r),
{
    let r = v.clone();
    assert(strs_view(*v) =~= strs_view(r));
    r
}

impl Clone for StrategyStep {
    fn clone(&self) -> (r: Self)
        ensures
            r@ == self@,
    {
        StrategyStep {
            action: self.action.clone(),
            protocol: self.protocol.clone(),
            asset: self.asset.clone(),
            expected_apy: self.expected_apy,
            amount: self.amount.clone(),
        }
    }
}

impl Clone for StrategyData {
    fn clone(&self) -> (r: Self)
        ensures
            r@ == self@,
    {
        let steps = self.steps.clone();
        assert(steps_view(self.steps) =~= steps_view(steps));
        let warnings = match &self.warnings {
            Some(w) => Some(clone_strings(w)),
            None => None,
        };
        StrategyData {
            id: self.id.clone(),
            goal: self.goal.clone(),
            chains: clone_strings(&self.chains),
            protocols: clone_strings(&self.protocols),
            steps,
            risk_level: self.risk_level.clone(),
            estimated_apy: self.estimated_apy,
            estimated_tvl: self.estimated_tvl.clone(),
            confidence: self.confidence,
            reasoning: self.reasoning.clone(),
            warnings,
            creator: self.creator.clone(),
            created_at: self.created_at,
        }
    }
}

impl StrategyData {
    /// A record with the given id, goal, creator and creation time: no chains,
    /// protocols or steps, risk level "medium", no optional field set.
    pub fn minimal(id: String, goal: String, creator: String, created_at: u64) -> (r: Self)
        ensures
            r@ == minimal_record(id@, goal@, creator@, created_at),
    {
        let r = StrategyData {
            id,
            goal,
            chains: Vec::new(),
            protocols: Vec::new(),
            steps: Vec::new(),
            risk_level: String::from_str("medium"),
            estimated_apy: None,
            estimated_tvl: None,
            confidence: None,
            reasoning: None,
            warnings: None,
            creator,
            created_at,
        };
        assert(strs_view(r.chains) =~= Seq::empty());
        assert(strs_view(r.protocols) =~= Seq::empty());
        assert(steps_view(r.steps) =~= Seq::empty());
        r
    }
}

impl Default for StrategyData {
    fn default() -> (r: Self)
        ensures
            r@ == minimal_record(Seq::empty(), Seq::empty(), "default.testnet"@, 0),
    {
        StrategyData::minimal(String::new(), String::new(), String::from_str("default.testnet"), 0)
    }
}

} // verus!
