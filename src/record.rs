//! The stored pairing record and what the shell is shown of it.

use vstd::prelude::*;

verus! {

/// The text of an optional string, or nothing where it is absent.
pub open spec fn opt_view(o: Option<String>) -> Option<Seq<char>> {
    match o {
        Some(s) => Some(s@),
        None => None,
    }
}

/// The text of an optional string, the empty text where it is absent.
pub open spec fn text_or_empty(o: Option<Seq<char>>) -> Seq<char> {
    match o {
        Some(s) => s,
        None => Seq::empty(),
    }
}

/// What a `PairingRecord` holds, as mathematical text.
pub ghost struct RecordView {
    pub site: Option<Seq<char>>,
    pub device_id: Option<Seq<char>>,
    pub device_token: Option<Seq<char>>,
    pub paired: bool,
}

/// The record of a machine that was never paired.
pub open spec fn unpaired_view() -> RecordView {
    RecordView { site: None, device_id: None, device_token: None, paired: false }
}

/// A present, non-empty text.
pub open spec fn present(o: Option<Seq<char>>) -> bool {
    o is Some && o->Some_0.len() > 0
}

/// A paired record names its site, its identifier and its token.
pub open spec fn well_formed(r: RecordView) -> bool {
    r.paired ==> present(r.site) && present(r.device_id) && present(r.device_token)
}

/// The record that a successful pairing with `site` stores.
pub open spec fn record_after_claim(
    site: Seq<char>,
    device_id: Seq<char>,
    device_token: Seq<char>,
) -> RecordView {
    RecordView {
        site: Some(site),
        device_id: Some(device_id),
        device_token: Some(device_token),
        paired: true,
    }
}

/// The persisted state: which site this machine is paired with, under which
/// identifier and token.
#[derive(Clone, Debug, PartialEq, Eq)]
pub struct PairingRecord {
    pub site: Option<String>,
    pub device_id: Option<String>,
    pub device_token: Option<String>,
    pub paired: bool,
}

impl View for PairingRecord {
    type V = RecordView;

    open spec fn view(&self) -> RecordView {
        RecordView {
            site: opt_view(self.site),
            device_id: opt_view(self.device_id),
            device_token: opt_view(self.device_token),
            paired: self.paired,
        }
    }
}

impl Default for PairingRecord {
    /// The unpaired record: what a missing or unreadable file stands for.
    fn default() -> (r: PairingRecord)
        ensures
            r@ == unpaired_view(),
    {
        PairingRecord { site: None, device_id: None, device_token: None, paired: false }
    }
}

/// What the shell displays: the site and whether the machine is paired.
#[derive(Clone, Debug, PartialEq, Eq)]
pub struct PairingStatus {
    pub site: Option<String>,
    pub paired: bool,
}

/// A copy of an optional string.
fn copy_text(o: &Option<String>) -> (r: Option<String>)
    ensures
        opt_view(r) == opt_view(*o),
{
    match o {
        Some(s) => Some(s.clone()),
        None => None,
    }
}

/// The status that the shell is shown for `record`; it never fails.
pub fn get_status(record: &PairingRecord) -> (r: PairingStatus)
    ensures
        opt_view(r.site) == record@.site,
        r.paired == record@.paired,
{
    PairingStatus { site: copy_text(&record.site), paired: record.paired }
}

} // verus!
