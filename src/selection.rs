use vstd::prelude::*;

verus! {

/// The most outputs that one selection may spend.
pub const MAX_OUTPUTS: usize = 500;

/// The number of change outputs that a sending slate gets.
pub const CHANGE_OUTPUTS: usize = 1;

/// What a successful coin selection reports: the value of the chosen outputs
/// and the fee of the transaction that spends them.
#[derive(Clone, Copy, Debug, PartialEq, Eq, Structural)]
pub struct Selected {
    pub total: u64,
    pub fee: u64,
}

/// A selection strategy offered to the user, with what it would spend.
#[derive(Clone, Copy, Debug, PartialEq, Eq, Structural)]
pub struct Strategy {
    pub selection_strategy_is_use_all: bool,
    pub total: u64,
    pub fee: u64,
}

/// The strategy entry for a selection made with the given policy.
pub open spec fn strategy_of(use_all: bool, s: Selected) -> Strategy {
    Strategy { selection_strategy_is_use_all: use_all, total: s.total, fee: s.fee }
}

/// The strategies offered after trying "use all" and "smallest set": one entry
/// for each policy whose selection succeeded, "use all" first; a policy that
/// failed is left out.
pub open spec fn strategies_spec(use_all: Option<Selected>, smallest: Option<Selected>) -> Seq<
    Strategy,
> {
    let first = match use_all {
        Some(s) => seq![strategy_of(true, s)],
        None => Seq::empty(),
    };
    let second = match smallest {
        Some(s) => seq![strategy_of(false, s)],
        None => Seq::empty(),
    };
    first + second
}

/// The selection policies, in the order in which they are tried.
pub fn strategy_policies() -> (r: Vec<bool>)
    ensures
        r@ == seq![true, false],
{
    vec![true, false]
}

/// Builds the list of strategies from the outcome of each policy.
pub fn tx_strategies(use_all: Option<Selected>, smallest: Option<Selected>) -> (r: Vec<Strategy>)
    ensures
        r@ == strategies_spec(use_all, smallest),
{
    let mut r: Vec<Strategy> = Vec::new();
    if let Some(s) = use_all {
        r.push(Strategy { selection_strategy_is_use_all: true, total: s.total, fee: s.fee });
    }
    if let Some(s) = smallest {
        r.push(Strategy { selection_strategy_is_use_all: false, total: s.total, fee: s.fee });
    }
    assert(r@ =~= strategies_spec(use_all, smallest));
    r
}

/// A policy appears among the strategies exactly when its selection
/// succeeded, with the total and fee that it reported; the list is empty
/// exactly when both selections failed.
pub proof fn lemma_strategies_present(use_all: Option<Selected>, smallest: Option<Selected>)
    ensures
        (exists|i: int|
            0 <= i < strategies_spec(use_all, smallest).len() && #[trigger] strategies_spec(
                use_all,
                smallest,
            )[i].selection_strategy_is_use_all) <==> use_all.is_some(),
        (exists|i: int|
            0 <= i < strategies_spec(use_all, smallest).len() && !#[trigger] strategies_spec(
                use_all,
                smallest,
            )[i].selection_strategy_is_use_all) <==> smallest.is_some(),
        forall|i: int|
            0 <= i < strategies_spec(use_all, smallest).len() ==> {
                let st = #[trigger] strategies_spec(use_all, smallest)[i];
                if st.selection_strategy_is_use_all {
                    use_all == Some(Selected { total: st.total, fee: st.fee })
                } else {
                    smallest == Some(Selected { total: st.total, fee: st.fee })
                }
            },
        strategies_spec(use_all, smallest).len() == 0 <==> (use_all.is_none()
            && smallest.is_none()),
{
    let r = strategies_spec(use_all, smallest);
    if let Some(s) = use_all {
        assert(r[0].selection_strategy_is_use_all);
    }
    if let Some(s) = smallest {
        assert(!r[r.len() - 1].selection_strategy_is_use_all);
    }
}

} // verus!
