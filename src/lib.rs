//! A terminal browser for the volumes of a storage inventory service: the
//! selection model, tab navigation, input dispatch and the client settings.

pub mod client;
pub mod commands;
pub mod icon;
pub mod input;
pub mod tab;
pub mod table;
pub mod volume;
