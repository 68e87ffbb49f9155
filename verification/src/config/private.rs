//! Saluki-native supplemental configuration.

use vstd::prelude::*;

use crate::config::authority::RuntimeConfigLanguage;

verus! {

/// Saluki-native configuration that supplements the selected primary config language: the
/// settings that language cannot express.
#[derive(Debug)]
pub struct SalukiPrivateConfiguration {
    /// The primary configuration language this supplements.
    pub primary_language: RuntimeConfigLanguage,
    /// The supplemental keys.
    pub supplemental_keys: Vec<String>,
}

} // verus!
