//! The transit routing engine of Oridion: pods carry value from planet to planet,
//! through star hops and scatters, to a destination, and no step loses or makes
//! value. Every operation either takes full effect or leaves everything as it was.

pub mod account_land;
pub mod account_planet;
pub mod account_pod;
pub mod account_star;
pub mod account_treasury;
pub mod account_universe;
pub mod address;
pub mod admin;
pub mod all_accounts;
pub mod encoding;
pub mod errors;
pub mod hashing;
pub mod keys;
pub mod laws;
pub mod launch;
pub mod ledger;
pub mod route;
pub mod scatter;
pub mod settle;
pub mod shared;
pub mod split;
pub mod star;
pub mod text;
pub mod variables;
