//! Verified core of the grant stream contracts: the state, decisions and
//! arithmetic of each contract, over plain values.
pub mod audit;
pub mod types;
pub mod grant_stream;
pub mod arith;
pub mod matching;
pub mod staking;
pub mod dead_mans_switch;
pub mod compliance;
pub mod conditional_funding;
pub mod emergency_stop;
pub mod flash_loan_defense;
pub mod grant_appeals;
pub mod clawback_resilient;
pub mod interest_redirection;
pub mod host;
pub mod commit_reveal;
pub mod text;
pub mod liquidity;
pub mod recursive_funding;
pub mod cross_chain;
pub mod oracle;
pub mod streaming_yield;
pub mod protocol_succession;
pub mod temporal_guard;
pub mod quadratic_voting;
pub mod stream_nft;
pub mod sub_dao;
pub mod awards;
pub mod streaming_fee;
pub mod dispute_resolution;
pub mod multi_asset_pool;
pub mod batch_purge;
pub mod governance;
