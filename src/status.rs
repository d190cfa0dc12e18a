//! The status text shown on the splash view while the backend starts.
use vstd::prelude::*;
use vstd::string::StringExecFns;
use crate::config::StatusBands;

verus! {

/// One of the three bands of progress feedback.
#[derive(Clone, Copy, Debug, PartialEq, Eq, Structural)]
pub enum StatusBand {
    Starting,
    Migrating,
    AlmostReady,
}

/// The band an attempt number falls in: the first band whose bound lies
/// above the attempt.
pub open spec fn band_of(bands: StatusBands, attempt: u32) -> StatusBand {
    if attempt < bands.starting_below {
        StatusBand::Starting
    } else if attempt < bands.migrating_below {
        StatusBand::Migrating
    } else {
        StatusBand::AlmostReady
    }
}

/// The text shown for each band.
pub open spec fn band_text(band: StatusBand) -> Seq<char> {
    match band {
        StatusBand::Starting => "Starting server..."@,
        StatusBand::Migrating => "Running database migrations..."@,
        StatusBand::AlmostReady => "Almost ready..."@,
    }
}

/// The status text of an attempt number.
pub open spec fn status_text_of(bands: StatusBands, attempt: u32) -> Seq<char> {
    band_text(band_of(bands, attempt))
}

/// Computes the band of an attempt number.
pub fn band_for_attempt(bands: &StatusBands, attempt: u32) -> (r: StatusBand)
    ensures
        r == band_of(*bands, attempt),
{
    if attempt < bands.starting_below {
        StatusBand::Starting
    } else if attempt < bands.migrating_below {
        StatusBand::Migrating
    } else {
        StatusBand::AlmostReady
    }
}

impl StatusBand {
    /// The text of this band.
    pub fn text(&self) -> (r: &'static str)
        ensures
            r@ == band_text(*self),
    {
        match self {
            StatusBand::Starting => "Starting server...",
            StatusBand::Migrating => "Running database migrations...",
            StatusBand::AlmostReady => "Almost ready...",
        }
    }
}

/// The status text of an attempt number.
pub fn status_message(bands: &StatusBands, attempt: u32) -> (r: &'static str)
    ensures
        r@ == status_text_of(*bands, attempt),
{
    band_for_attempt(bands, attempt).text()
}

/// The script that puts a text into the splash view's status element.
pub open spec fn status_script_spec(text: Seq<char>) -> Seq<char> {
    "document.getElementById('status').textContent = '"@ + text + "'"@
}

/// Builds the script that shows `text` as the splash view's status.
pub fn status_script(text: &str) -> (r: String)
    ensures
        r@ == status_script_spec(text@),
{
    let mut script = String::from_str("document.getElementById('status').textContent = '");
    script.append(text);
    script.append("'");
    script
}

/// The script that turns the splash view's status into the final error.
pub open spec fn failure_script_spec() -> Seq<char> {
    "document.getElementById('status').textContent = 'Failed to start. Please restart the app.';document.getElementById('status').style.color = '#ef4444';"@
}

/// Builds the script that shows the final error on the splash view.
pub fn failure_script() -> (r: String)
    ensures
        r@ == failure_script_spec(),
{
    String::from_str("document.getElementById('status').textContent = 'Failed to start. Please restart the app.';document.getElementById('status').style.color = '#ef4444';")
}

/// Every attempt number is shown as one of exactly three fixed texts, chosen
/// by the band bounds, and the text depends on the attempt number alone.
pub proof fn lemma_status_text_is_one_of_three(bands: StatusBands, attempt: u32)
    ensures
        attempt < bands.starting_below ==> status_text_of(bands, attempt) == "Starting server..."@,
        bands.starting_below <= attempt < bands.migrating_below ==> status_text_of(bands, attempt)
            == "Running database migrations..."@,
        bands.starting_below <= attempt && bands.migrating_below <= attempt ==> status_text_of(
            bands,
            attempt,
        ) == "Almost ready..."@,
        status_text_of(bands, attempt) == "Starting server..."@
            || status_text_of(bands, attempt) == "Running database migrations..."@
            || status_text_of(bands, attempt) == "Almost ready..."@,
        forall|other: u32|
            other == attempt ==> #[trigger] status_text_of(bands, other) == status_text_of(bands, attempt),
{
}

} // verus!
