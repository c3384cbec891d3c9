//! The transaction lifecycle state machine.
//!
//! A [`TxLifecycle`] drives one operation through its stages: resolve
//! the signer's account, dry-run to measure gas, then broadcast and
//! confirm.  The caller performs each network round trip and feeds the
//! response back; every decision in between is verified here.  A
//! lifecycle is single-use, so a new operation always re-resolves the
//! account sequence.

use vstd::prelude::*;

verus! {

use crate::config::ChainConfig;
use crate::error::ClientError;
use crate::fee::{scale_ceil, scale_up, lemma_scale_ceil_is_ceiling};
use crate::tx::{commit_ok, phase_ok, Account, CommitResult, TxMsg};
use crate::wire::{
    account_envelope_of, account_query_wire, base_account_of, decode_account_envelope,
    decode_base_account, decode_simulated_gas, encode_account_query, encode_simulate_request,
    simulate_wire, simulated_gas_of,
};

/// Where a transaction stands in its lifecycle.
#[derive(Debug)]
pub enum LifecycleStage {
    /// The signer's account must be resolved, fresh, never cached.
    NeedAccount,
    /// A dry run must measure gas for the resolved account.
    NeedGas { account: Account },
    /// The signed transaction must be broadcast with the computed fee.
    NeedCommit { account: Account, gas_limit: u64, fee_amount: u64 },
    /// Both phases reported an OK code.
    Confirmed { commit: CommitResult },
    /// A stage failed; the failure is terminal.
    Failed { error: ClientError },
}

/// What account resolution does to the lifecycle: a resolved account
/// moves it to the dry-run stage; a missing record is terminal.
pub open spec fn resolve_step(sender: String, found: Option<Account>) -> LifecycleStage {
    match found {
        Some(a) => LifecycleStage::NeedGas { account: a },
        None => LifecycleStage::Failed {
            error: ClientError::AccountNotFound { address: sender },
        },
    }
}

/// What the dry run does to the lifecycle: gas metadata is scaled by
/// the adjustment to the gas limit and by the price to the fee amount,
/// each rounded up; missing metadata, or values that do not fit in 64
/// bits, fail the simulation.
pub open spec fn simulate_step(account: Account, cfg: ChainConfig, gas_used: Option<u64>) -> LifecycleStage {
    match gas_used {
        None => LifecycleStage::Failed { error: ClientError::SimulationFailed },
        Some(g) => {
            let gl = scale_ceil(g as int, cfg.gas_adjustment);
            if gl <= u64::MAX {
                let fa = scale_ceil(gl, cfg.gas_price);
                if fa <= u64::MAX {
                    LifecycleStage::NeedCommit {
                        account,
                        gas_limit: gl as u64,
                        fee_amount: fa as u64,
                    }
                } else {
                    LifecycleStage::Failed { error: ClientError::SimulationFailed }
                }
            } else {
                LifecycleStage::Failed { error: ClientError::SimulationFailed }
            }
        },
    }
}

/// What the commit outcome does to the lifecycle.  The two failure
/// points are checked in order: a mempool rejection is surfaced with
/// the raw check payload and the block-inclusion phase is never
/// consulted; an on-chain execution failure is surfaced with the raw
/// deliver payload; only two OK codes confirm.
pub open spec fn commit_step(commit: CommitResult) -> LifecycleStage {
    if !phase_ok(commit.check) {
        LifecycleStage::Failed {
            error: ClientError::BroadcastRejected { check: commit.check },
        }
    } else if !phase_ok(commit.deliver) {
        LifecycleStage::Failed {
            error: ClientError::ExecutionFailed { deliver: commit.deliver },
        }
    } else {
        LifecycleStage::Confirmed { commit }
    }
}

/// What decoding an account response means for the lifecycle: `None`
/// when the response or the embedded record is undecodable,
/// `Some(None)` when the chain has no record, `Some(Some(a))` when the
/// account resolved.
pub open spec fn decoded_account(bytes: Seq<u8>) -> Option<Option<Account>> {
    match account_envelope_of(bytes) {
        None => None,
        Some(inner) => match inner {
            None => Some(None),
            Some(b) => match base_account_of(b) {
                None => None,
                Some(p) => Some(Some(Account { account_number: p.0, sequence: p.1 })),
            },
        },
    }
}

/// One operation's drive through the pipeline.
pub struct TxLifecycle {
    /// The signer's chain address.
    pub sender: String,
    /// The one message this transaction carries.
    pub msg: TxMsg,
    /// The current stage.
    pub stage: LifecycleStage,
}

impl TxLifecycle {
    /// A fresh lifecycle: nothing is known yet, so the first action is
    /// always account resolution.
    pub fn new(sender: String, msg: TxMsg) -> (res: TxLifecycle)
        ensures
            res.sender == sender,
            res.msg == msg,
            res.stage is NeedAccount,
    {
        TxLifecycle { sender, msg, stage: LifecycleStage::NeedAccount }
    }

    /// The wire request that resolves the signer's account.
    pub fn account_request(&self) -> (res: Vec<u8>)
        requires
            self.stage is NeedAccount,
        ensures
            res@ == account_query_wire(self.sender@),
    {
        encode_account_query(&self.sender)
    }

    /// Feeds the account-query response back into the lifecycle.
    pub fn account_response(&mut self, bytes: &Vec<u8>)
        requires
            old(self).stage is NeedAccount,
        ensures
            final(self).sender == old(self).sender,
            final(self).msg == old(self).msg,
            match decoded_account(bytes@) {
                Some(found) => final(self).stage == resolve_step(old(self).sender, found),
                None => final(self).stage matches LifecycleStage::Failed { error }
                    && error matches ClientError::TransportError { .. },
            },
    {
        match decode_account_envelope(bytes) {
            None => {
                self.stage = LifecycleStage::Failed {
                    error: ClientError::TransportError {
                        detail: "account response was undecodable".to_owned(),
                    },
                };
            },
            Some(None) => {
                self.stage = LifecycleStage::Failed {
                    error: ClientError::AccountNotFound { address: self.sender.clone() },
                };
            },
            Some(Some(record)) => {
                match decode_base_account(&record) {
                    None => {
                        self.stage = LifecycleStage::Failed {
                            error: ClientError::TransportError {
                                detail: "account record was undecodable".to_owned(),
                            },
                        };
                    },
                    Some((account_number, sequence)) => {
                        self.stage = LifecycleStage::NeedGas {
                            account: Account { account_number, sequence },
                        };
                    },
                }
            },
        }
    }

    /// The resolved account whose number and sequence the caller must
    /// sign with, for the probe as well as for the final transaction.
    pub fn resolved_account(&self) -> (res: Account)
        requires
            self.stage is NeedGas || self.stage is NeedCommit,
        ensures
            self.stage matches LifecycleStage::NeedGas { account } ==> res == account,
            self.stage matches LifecycleStage::NeedCommit { account, .. } ==> res == account,
    {
        match &self.stage {
            LifecycleStage::NeedGas { account } => *account,
            LifecycleStage::NeedCommit { account, .. } => *account,
            _ => unreached(),
        }
    }

    /// The gas limit and fee amount the final transaction must carry.
    pub fn fee_params(&self) -> (res: (u64, u64))
        requires
            self.stage is NeedCommit,
        ensures
            self.stage matches LifecycleStage::NeedCommit { gas_limit, fee_amount, .. }
                ==> res == (gas_limit, fee_amount),
    {
        match &self.stage {
            LifecycleStage::NeedCommit { gas_limit, fee_amount, .. } => (*gas_limit, *fee_amount),
            _ => unreached(),
        }
    }

    /// The wire request that dry-runs the signed probe transaction.
    pub fn simulate_request(&self, probe_tx: &Vec<u8>) -> (res: Vec<u8>)
        requires
            self.stage is NeedGas,
        ensures
            res@ == simulate_wire(probe_tx@),
    {
        encode_simulate_request(probe_tx)
    }

    /// Feeds the dry-run response back into the lifecycle and computes
    /// the fee.
    pub fn simulation_response(&mut self, cfg: &ChainConfig, bytes: &Vec<u8>)
        requires
            old(self).stage is NeedGas,
            cfg.well_formed(),
        ensures
            final(self).sender == old(self).sender,
            final(self).msg == old(self).msg,
            final(self).stage == simulate_step(
                old(self).stage->NeedGas_account,
                *cfg,
                simulated_gas_of(bytes@),
            ),
    {
        let account = self.resolved_account();
        match decode_simulated_gas(bytes) {
            None => {
                self.stage = LifecycleStage::Failed { error: ClientError::SimulationFailed };
            },
            Some(gas_used) => {
                match scale_up(gas_used, cfg.gas_adjustment) {
                    None => {
                        self.stage = LifecycleStage::Failed {
                            error: ClientError::SimulationFailed,
                        };
                    },
                    Some(gas_limit) => {
                        match scale_up(gas_limit, cfg.gas_price) {
                            None => {
                                self.stage = LifecycleStage::Failed {
                                    error: ClientError::SimulationFailed,
                                };
                            },
                            Some(fee_amount) => {
                                self.stage = LifecycleStage::NeedCommit {
                                    account,
                                    gas_limit,
                                    fee_amount,
                                };
                            },
                        }
                    },
                }
            },
        }
    }

    /// Feeds the broadcast-and-wait outcome back into the lifecycle.
    pub fn commit_received(&mut self, commit: CommitResult)
        requires
            old(self).stage is NeedCommit,
        ensures
            final(self).sender == old(self).sender,
            final(self).msg == old(self).msg,
            final(self).stage == commit_step(commit),
    {
        if commit.check.code != 0 {
            self.stage = LifecycleStage::Failed {
                error: ClientError::BroadcastRejected { check: commit.check },
            };
        } else if commit.deliver.code != 0 {
            self.stage = LifecycleStage::Failed {
                error: ClientError::ExecutionFailed { deliver: commit.deliver },
            };
        } else {
            self.stage = LifecycleStage::Confirmed { commit };
        }
    }

    /// An outside failure (transport, signing, configuration) aborts
    /// the lifecycle before completion.
    pub fn abort(&mut self, error: ClientError)
        requires
            !(old(self).stage is Confirmed),
            !(old(self).stage is Failed),
        ensures
            final(self).sender == old(self).sender,
            final(self).msg == old(self).msg,
            final(self).stage == (LifecycleStage::Failed { error }),
    {
        self.stage = LifecycleStage::Failed { error };
    }

    /// Tears a finished lifecycle down to the caller's result.
    pub fn into_commit(self) -> (res: Result<CommitResult, ClientError>)
        requires
            self.stage is Confirmed || self.stage is Failed,
        ensures
            self.stage matches LifecycleStage::Confirmed { commit } ==> res
                == Ok::<CommitResult, ClientError>(commit),
            self.stage matches LifecycleStage::Failed { error } ==> res == Err::<
                CommitResult,
                ClientError,
            >(error),
    {
        match self.stage {
            LifecycleStage::Confirmed { commit } => Ok(commit),
            LifecycleStage::Failed { error } => Err(error),
            _ => unreached(),
        }
    }
}

/// A lifecycle confirms exactly when both phases of the commit report
/// an OK code, and then surfaces that commit unchanged; any other
/// combination is a terminal failure, never surfaced as success.
pub proof fn lemma_confirmed_iff_both_ok(commit: CommitResult)
    ensures
        commit_step(commit) is Confirmed <==> commit_ok(commit),
        commit_step(commit) matches LifecycleStage::Confirmed { commit: c } ==> c == commit,
{
}

/// A mempool rejection is decided by the check phase alone: two
/// outcomes with the same rejected check phase fail identically, with
/// the raw check payload, whatever their block-inclusion phases hold.
pub proof fn lemma_mempool_rejection_ignores_deliver(c1: CommitResult, c2: CommitResult)
    requires
        c1.check == c2.check,
        !phase_ok(c1.check),
    ensures
        commit_step(c1) == commit_step(c2),
        commit_step(c1) matches LifecycleStage::Failed { error } && error
            matches ClientError::BroadcastRejected { check } && check == c1.check,
{
}

/// The account carried into the broadcast stage is exactly the account
/// resolved at the start of this lifecycle, and a missing record or a
/// failed dry run never reaches that stage.
pub proof fn lemma_sequence_flows_from_resolution(
    sender: String,
    cfg: ChainConfig,
    a: Account,
    gas_used: u64,
)
    ensures
        resolve_step(sender, Some(a)) == (LifecycleStage::NeedGas { account: a }),
        resolve_step(sender, None) == (LifecycleStage::Failed {
            error: ClientError::AccountNotFound { address: sender },
        }),
        simulate_step(a, cfg, Some(gas_used)) matches LifecycleStage::NeedCommit {
            account,
            ..
        } ==> account == a,
        simulate_step(a, cfg, None) == (LifecycleStage::Failed {
            error: ClientError::SimulationFailed,
        }),
{
}

/// The broadcast stage's gas limit is the exact ceiling of the
/// simulated gas times the configured adjustment, and its fee amount
/// the exact ceiling of that gas limit times the configured price.
pub proof fn lemma_fee_is_ceiling(a: Account, cfg: ChainConfig, gas_used: u64)
    requires
        cfg.well_formed(),
    ensures
        simulate_step(a, cfg, Some(gas_used)) matches LifecycleStage::NeedCommit {
            gas_limit,
            fee_amount,
            ..
        } ==> {
            &&& gas_limit == scale_ceil(gas_used as int, cfg.gas_adjustment)
            &&& fee_amount == scale_ceil(gas_limit as int, cfg.gas_price)
            &&& gas_limit * cfg.gas_adjustment.den >= gas_used * cfg.gas_adjustment.num
            &&& (gas_limit - 1) * cfg.gas_adjustment.den < gas_used * cfg.gas_adjustment.num
            &&& fee_amount * cfg.gas_price.den >= gas_limit * cfg.gas_price.num
            &&& (fee_amount - 1) * cfg.gas_price.den < gas_limit * cfg.gas_price.num
        },
{
    if simulate_step(a, cfg, Some(gas_used)) is NeedCommit {
        lemma_scale_ceil_is_ceiling(gas_used as int, cfg.gas_adjustment);
        lemma_scale_ceil_is_ceiling(
            scale_ceil(gas_used as int, cfg.gas_adjustment),
            cfg.gas_price,
        );
    }
}

} // verus!
