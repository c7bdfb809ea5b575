//! Elections on Kusama.

use crate::miner_config;
use crate::miner_config::{
    BalancingIterations, DynamicSolver, ElectionResult, ElectionState, SolverError,
};
use crate::multi_block_state_client;
use crate::multi_block_state_client::VoterData;
use crate::primitives::AccountId;
use crate::scale;
use vstd::prelude::*;

verus! {

/// The settings of an election on Kusama.
#[derive(Debug, Clone)]
pub struct MinerConfig;

impl MinerConfig {
    /// Solves an election by the algorithm that is selected.
    pub fn solve(
        state: &ElectionState,
        to_elect: usize,
        targets: Vec<AccountId>,
        voters: Vec<VoterData>,
    ) -> (r: Result<ElectionResult, SolverError>)
        ensures
            miner_config::reports(
                r,
                miner_config::outcome_of(
                    state.spec_current().algorithm,
                    to_elect,
                    scale::accounts(targets@),
                    multi_block_state_client::voters(voters@),
                    BalancingIterations::spec_get(state.spec_current()),
                ),
            ),
    {
        DynamicSolver::solve(state, to_elect, targets, voters)
    }
}

} // verus!
