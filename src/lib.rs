pub mod bootstrap;
pub mod derive;
pub mod error;
pub mod escrow;
pub mod key;
pub mod ledger;
pub mod params;
pub mod pda;
pub mod registry;
pub mod seed;
pub mod table;
