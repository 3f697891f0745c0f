//! Photo-manager core: path rules for local and Steam folders, settings storage rules,
//! sync bookkeeping and message building, VRChat and VRCX record handling.

pub mod cloud;
pub mod db;
pub mod paths;
pub mod photos;
pub mod status;
pub mod sync;
pub mod text;
pub mod vrchat;
pub mod vrcx;
