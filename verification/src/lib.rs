//! Woofer's verified core: the plugin ABI glue, the provider chains and
//! their health, the offline and lyrics.ovh providers, and the decisions the
//! backend takes around them.

pub mod abi;
pub mod chains;
pub mod text;
pub mod health;
pub mod json;
pub mod romanize_offline;
pub mod lyrics_ovh;
pub mod backend;
pub mod resample;
pub mod art;
pub mod calls;
pub mod session;
pub mod lookup;
pub mod plugins_page;
