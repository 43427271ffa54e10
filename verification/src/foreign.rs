//! Declarations of the types of cmakefmt and dprint-core that this crate's
//! signatures carry. Verus sees none of their contents.
use vstd::prelude::*;

verus! {

#[verifier::external_type_specification]
#[verifier::external_body]
pub struct ExCmakefmtConfig(cmakefmt::Config);

#[verifier::external_type_specification]
#[verifier::external_body]
pub struct ExCmakefmtCaseStyle(cmakefmt::CaseStyle);

#[verifier::external_type_specification]
#[verifier::external_body]
pub struct ExCmakefmtContinuationAlign(cmakefmt::ContinuationAlign);

#[verifier::external_type_specification]
#[verifier::external_body]
pub struct ExCmakefmtDangleAlign(cmakefmt::DangleAlign);

#[verifier::external_type_specification]
#[verifier::external_body]
pub struct ExCmakefmtLineEnding(cmakefmt::LineEnding);

#[verifier::external_type_specification]
#[verifier::external_body]
#[verifier::reject_recursive_types(K)]
#[verifier::reject_recursive_types(V)]
#[verifier::reject_recursive_types(S)]
pub struct ExIndexMap<K, V, S>(indexmap::IndexMap<K, V, S>);

#[verifier::external_type_specification]
#[verifier::external_body]
pub struct ExConfigKeyValue(dprint_core::configuration::ConfigKeyValue);

#[verifier::external_type_specification]
#[verifier::external_body]
pub struct ExConfigChange(dprint_core::plugins::ConfigChange);

#[verifier::external_type_specification]
#[verifier::external_body]
pub struct ExCheckConfigUpdatesMessage(dprint_core::plugins::CheckConfigUpdatesMessage);

} // verus!
