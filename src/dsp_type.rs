use vstd::prelude::*;

verus! {

/// Background work that the host runs on request.
pub enum Tasks {
    ReloadDsp,
}

/// How a DSP program is loaded: as detected from its own metadata, as a
/// monophonic effect, or as a polyphonic instrument.
#[derive(Debug, PartialEq, Eq, Clone, Copy, Structural)]
pub enum DspType {
    AutoDetect,
    Effect,
    Instrument,
}

impl DspType {
    /// The type that a voice count selects: `-1` detects, `0` is an effect,
    /// any positive count an instrument.
    pub fn from_nvoices(nvoices: i32) -> (r: DspType)
        requires
            nvoices >= -1,
        ensures
            nvoices == -1 ==> r == DspType::AutoDetect,
            nvoices == 0 ==> r == DspType::Effect,
            nvoices > 0 ==> r == DspType::Instrument,
    {
        if nvoices == -1 {
            DspType::AutoDetect
        } else if nvoices == 0 {
            DspType::Effect
        } else {
            DspType::Instrument
        }
    }

    /// The voice count after the user selects `self`, where `last` was the
    /// type selected before and `nvoices` the count so far: detection and
    /// effects have fixed counts; switching to an instrument starts it with
    /// one voice, and an instrument already selected keeps its count.
    pub fn selected_nvoices(self, last: DspType, nvoices: i32) -> (r: i32)
        ensures
            self == DspType::AutoDetect ==> r == -1,
            self == DspType::Effect ==> r == 0,
            self == DspType::Instrument && last != DspType::Instrument ==> r == 1,
            self == DspType::Instrument && last == DspType::Instrument ==> r == nvoices,
    {
        match self {
            DspType::AutoDetect => -1,
            DspType::Effect => 0,
            DspType::Instrument => {
                if last != DspType::Instrument {
                    1
                } else {
                    nvoices
                }
            },
        }
    }
}

} // verus!
