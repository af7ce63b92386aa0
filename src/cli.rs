//! The commands of the collection manager, as plain values. Reading them
//! from the command line is left to the program around the library.

use crate::records::Format;
use vstd::prelude::*;

verus! {

/// A parsed command line.
#[derive(Debug)]
pub struct Args {
    pub command: Command,
}

/// The top-level commands.
#[derive(Debug)]
pub enum Command {
    /// Add albums by their lookup-service identifiers, all in one format.
    Add { album_ids: Vec<String>, format: Format },
    /// Delete the album with this identity.
    Delete { id: i64 },
    /// List albums, with at most one filter, in the given order.
    Show {
        year: Option<i32>,
        artist: Option<String>,
        genre: Option<String>,
        format: Option<Format>,
        country: Option<String>,
        order_by: Option<String>,
    },
    /// Summarize the collection by one field.
    Report { year: bool, artist: bool, genre: bool, format: bool, country: bool },
    /// Synchronize with the remote copy.
    Sync { command: SyncCommand },
}

/// The synchronization commands.
#[derive(Debug)]
pub enum SyncCommand {
    Check { verbose: bool },
    Pull,
    Push,
    Config { command: SyncConfigCommand },
}

/// The commands on the synchronization settings.
#[derive(Debug)]
pub enum SyncConfigCommand {
    Show,
    SetValue { key: String, value: String },
    Reset,
}

/// The field a report groups the albums by.
#[derive(Debug, Clone, Copy, PartialEq, Eq, Structural)]
pub enum ReportKind {
    Artist,
    Genre,
    Format,
    Country,
    Year,
}

/// The grouping a report uses: the first flag set among artist, genre,
/// format and country, and the release year when none is.
pub fn report_kind(artist: bool, genre: bool, format: bool, country: bool) -> (r: ReportKind)
    ensures
        artist ==> r == ReportKind::Artist,
        !artist && genre ==> r == ReportKind::Genre,
        !artist && !genre && format ==> r == ReportKind::Format,
        !artist && !genre && !format && country ==> r == ReportKind::Country,
        !artist && !genre && !format && !country ==> r == ReportKind::Year,
{
    if artist {
        ReportKind::Artist
    } else if genre {
        ReportKind::Genre
    } else if format {
        ReportKind::Format
    } else if country {
        ReportKind::Country
    } else {
        ReportKind::Year
    }
}

/// The widest bar of a report chart, in characters.
pub const MAX_BAR_LENGTH: u64 = 50;

/// The length of the chart bar of a group of `count` albums when the largest
/// group has `max` albums: `count / max` of the widest bar, rounded to the
/// nearest character, halves up.
pub fn bar_length(count: u64, max: u64) -> (r: u64)
    requires
        0 < max,
        count <= max,
    ensures
        r == (2 * MAX_BAR_LENGTH * count + max) / (2 * max),
        r <= MAX_BAR_LENGTH,
{
    assert(2 * MAX_BAR_LENGTH * count + max <= 2 * MAX_BAR_LENGTH * max + max) by (nonlinear_arith)
        requires
            count <= max,
    ;
    assert(2 * (MAX_BAR_LENGTH as u128) * (count as u128) + max as u128 <= 101 * (u64::MAX as u128)) by (nonlinear_arith)
        requires
            count <= max,
            max <= u64::MAX,
    ;
    let num: u128 = 2 * (MAX_BAR_LENGTH as u128) * (count as u128) + max as u128;
    let den: u128 = 2 * (max as u128);
    let q = num / den;
    assert(q <= MAX_BAR_LENGTH) by (nonlinear_arith)
        requires
            num <= 2 * MAX_BAR_LENGTH * max + max,
            den == 2 * max,
            max > 0,
            q == num / den,
    ;
    q as u64
}

} // verus!
