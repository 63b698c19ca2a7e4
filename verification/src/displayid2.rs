//! Decoder for VESA DisplayID version 2 sections carried as EDID
//! extension blocks.

use vstd::prelude::*;

verus! {

/// Product primary use case identifier, defined in table 2-3.
#[derive(Debug, Clone, Copy, PartialEq, Eq)]
pub enum PrimaryUseCase {
    Extension,
    Test,
    Generic,
    TV,
    DesktopProductivity,
    DesktopGaming,
    Presentation,
    HMDVR,
    HMDAR,
}

/// Ghost model of a decoded DisplayID version 2 section.
pub struct DisplayId2Model {
    pub revision: i32,
    pub primary_use_case: PrimaryUseCase,
}

/// A decoded DisplayID version 2 section.
#[derive(Debug, Clone, Copy, PartialEq, Eq)]
pub struct DisplayId2 {
    pub(crate) revision: i32,
    pub(crate) primary_use_case: PrimaryUseCase,
}

impl DisplayId2 {
    pub closed spec fn model(&self) -> DisplayId2Model {
        DisplayId2Model { revision: self.revision, primary_use_case: self.primary_use_case }
    }

    /// Get a DisplayID version 2 extension block.
    ///
    /// Returns `None` if the extension block tag is not
    /// [`DisplayId`](crate::edid::ExtensionTag::DisplayId) or the block
    /// does not hold a version 2 DisplayID section.
    pub fn from_extension(ext: &crate::edid::ExtensionRef) -> (r: Option<&DisplayId2>)
        ensures
            r is Some <==> ext.model().displayid2 is Some,
            r is Some ==> r->0.model() == ext.model().displayid2->0,
    {
        ext.displayid2_contents()
    }

    /// The DisplayID version 2 revision.
    pub fn revision(&self) -> (r: i32)
        ensures
            r == self.model().revision,
    {
        self.revision
    }

    /// The product primary use case.
    pub fn product_primary_use_case(&self) -> (r: PrimaryUseCase)
        ensures
            r == self.model().primary_use_case,
    {
        self.primary_use_case
    }
}

pub open spec fn spec_primary_use_case(v: u8) -> Option<PrimaryUseCase> {
    if v == 0 {
        Some(PrimaryUseCase::Extension)
    } else if v == 1 {
        Some(PrimaryUseCase::Test)
    } else if v == 2 {
        Some(PrimaryUseCase::Generic)
    } else if v == 3 {
        Some(PrimaryUseCase::TV)
    } else if v == 4 {
        Some(PrimaryUseCase::DesktopProductivity)
    } else if v == 5 {
        Some(PrimaryUseCase::DesktopGaming)
    } else if v == 6 {
        Some(PrimaryUseCase::Presentation)
    } else if v == 7 {
        Some(PrimaryUseCase::HMDVR)
    } else if v == 8 {
        Some(PrimaryUseCase::HMDAR)
    } else {
        None
    }
}

/// The decoded model of the DisplayID version 2 section in the extension
/// block at `off`, or `None` when the section is not version 2 or carries
/// an unknown primary use case.
pub open spec fn spec_displayid2(d: Seq<u8>, off: int) -> Option<DisplayId2Model>
    recommends
        0 <= off,
        off + 128 <= d.len(),
{
    let ver = d[off + 1];
    if ver / 16 != 2 {
        None
    } else {
        match spec_primary_use_case(d[off + 3]) {
            None => None,
            Some(uc) => Some(
                DisplayId2Model { revision: (ver % 16) as i32, primary_use_case: uc },
            ),
        }
    }
}

pub(crate) fn decode_displayid2(d: &[u8], off: usize) -> (r: Option<DisplayId2>)
    requires
        off + 128 <= d@.len(),
    ensures
        r is Some <==> spec_displayid2(d@, off as int) is Some,
        r is Some ==> r->0.model() == spec_displayid2(d@, off as int)->0,
{
    let _n: usize = d.len();
    let ver = d[off + 1];
    if ver / 16 != 2 {
        None
    } else {
        let v = d[off + 3];
        let uc: Option<PrimaryUseCase> = if v == 0 {
            Some(PrimaryUseCase::Extension)
        } else if v == 1 {
            Some(PrimaryUseCase::Test)
        } else if v == 2 {
            Some(PrimaryUseCase::Generic)
        } else if v == 3 {
            Some(PrimaryUseCase::TV)
        } else if v == 4 {
            Some(PrimaryUseCase::DesktopProductivity)
        } else if v == 5 {
            Some(PrimaryUseCase::DesktopGaming)
        } else if v == 6 {
            Some(PrimaryUseCase::Presentation)
        } else if v == 7 {
            Some(PrimaryUseCase::HMDVR)
        } else if v == 8 {
            Some(PrimaryUseCase::HMDAR)
        } else {
            None
        };
        match uc {
            None => None,
            Some(uc) => Some(DisplayId2 { revision: (ver % 16) as i32, primary_use_case: uc }),
        }
    }
}

} // verus!
