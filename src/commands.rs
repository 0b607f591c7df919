use vstd::prelude::*;

verus! {

/// The volume subcommands.
#[derive(Debug, PartialEq, Eq)]
pub enum VolumeCommands {
    /// List all volumes, by name or as the full response.
    List { json: bool },
    /// Show one volume, in summary or as the full record.
    Show { name: String, json: bool },
}

/// The scan subcommands.
#[derive(Debug, PartialEq, Eq)]
pub enum ScanCommands {
    /// List all scans, by id or as the full response.
    List { json: bool },
    /// Show one scan, in summary or as the full record.
    Show { id: String, json: bool },
}

/// The top-level subcommands.
#[derive(Debug, PartialEq, Eq)]
pub enum Commands {
    Volume { command: VolumeCommands },
    Scan { command: ScanCommands },
    /// The interactive browser.
    Ui,
}

} // verus!
