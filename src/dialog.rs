//! The kind of a message dialog, from the name its caller gives.
use vstd::prelude::*;

verus! {

/// The kinds of message dialog.
#[derive(Clone, Copy, Debug, PartialEq, Eq, Structural)]
pub enum DialogKind {
    Info,
    Warning,
    Error,
}

/// What `str::to_lowercase` returns for a text.
pub uninterp spec fn lowercase_of(s: Seq<char>) -> Seq<char>;

/// Relies on `str::to_lowercase`: the Unicode lower case of a text, which
/// depends on the text alone.
#[verifier::external_body]
fn to_lowercase(s: &str) -> (r: String)
    ensures
        r@ == lowercase_of(s@),
{
    s.to_lowercase()
}

/// The kind named by a lower-case name: `warn` and `error` name their kinds,
/// and every other name (`info` among them) gives an information dialog.
pub open spec fn kind_of(lower: Seq<char>) -> DialogKind {
    if lower == "warn"@ {
        DialogKind::Warning
    } else if lower == "error"@ {
        DialogKind::Error
    } else {
        DialogKind::Info
    }
}

/// The kind named by a name that is already in lower case.
pub fn kind_from_lowercase(lower: &str) -> (r: DialogKind)
    ensures
        r == kind_of(lower@),
{
    let name = lower.to_owned();
    if name == "warn".to_owned() {
        DialogKind::Warning
    } else if name == "error".to_owned() {
        DialogKind::Error
    } else {
        DialogKind::Info
    }
}

/// The kind named by `kind`, whatever its case.
pub fn dialog_kind(kind: &str) -> (r: DialogKind)
    ensures
        r == kind_of(lowercase_of(kind@)),
{
    let lower = to_lowercase(kind);
    kind_from_lowercase(lower.as_str())
}

} // verus!
