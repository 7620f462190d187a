//! The snapshot record describing one managed box.

use vstd::prelude::*;

verus! {

/// Mathematical view of a [`BoxRecord`]: the three fields as character
/// sequences.
pub struct BoxRecordView {
    pub name: Seq<char>,
    pub distro_id: Seq<char>,
    pub status: Seq<char>,
}

/// One managed box, as reported by one line of the external tool's list
/// output.
///
/// Records are immutable snapshots: the registry is re-read in full on each
/// refresh, never patched. The name is the key every later action uses; the
/// parser only produces records whose name is non-empty (see
/// [`BoxRecord::wf`]). Uniqueness of names within a snapshot is a promise of
/// the external tool, not something a parser of its output can enforce.
#[derive(Debug, Clone, PartialEq, Eq)]
pub struct BoxRecord {
    /// Human-assigned identifier, the key for all subsequent actions.
    pub name: String,
    /// Identifier of the base OS image; used only to pick a display icon,
    /// and not guaranteed unique.
    pub distro_id: String,
    /// Free-text status string, displayed verbatim.
    pub status: String,
}

impl View for BoxRecord {
    type V = BoxRecordView;

    open spec fn view(&self) -> BoxRecordView {
        BoxRecordView { name: self.name@, distro_id: self.distro_id@, status: self.status@ }
    }
}

impl DeepView for BoxRecord {
    type V = BoxRecordView;

    open spec fn deep_view(&self) -> BoxRecordView {
        self.view()
    }
}

impl BoxRecordView {
    /// A record is well formed when its name is non-empty.
    pub open spec fn wf(self) -> bool {
        self.name.len() > 0
    }
}

impl BoxRecord {
    /// A record is well formed when its name is non-empty.
    pub open spec fn wf(self) -> bool {
        self@.wf()
    }
}

} // verus!
