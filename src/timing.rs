use vstd::prelude::*;

verus! {

/// Inclusive ranges of the classical bit-timing parameters the hardware accepts.
pub struct TimingBoundaries {
    pub prescaler_min: u16,
    pub prescaler_max: u16,
    pub sjw_min: u8,
    pub sjw_max: u8,
    pub tseg1_min: u8,
    pub tseg1_max: u8,
    pub tseg2_min: u8,
    pub tseg2_max: u8,
}

/// Inclusive ranges of the CAN-FD bit-timing parameters, for the nominal
/// (arbitration) phase and the data phase.
pub struct FdTimingBoundaries {
    pub nom_prescaler_min: u16,
    pub nom_prescaler_max: u16,
    pub nom_sjw_min: u8,
    pub nom_sjw_max: u8,
    pub nom_tseg1_min: u16,
    pub nom_tseg1_max: u16,
    pub nom_tseg2_min: u8,
    pub nom_tseg2_max: u8,
    pub data_prescaler_min: u16,
    pub data_prescaler_max: u16,
    pub data_sjw_min: u8,
    pub data_sjw_max: u8,
    pub data_tseg1_min: u8,
    pub data_tseg1_max: u8,
    pub data_tseg2_min: u8,
    pub data_tseg2_max: u8,
}

/// Classical bit timing: prescaler 1-64, SJW 1-4, TSEG1 1-16, TSEG2 1-8.
pub open spec fn spec_can_timing_boundaries() -> TimingBoundaries {
    TimingBoundaries {
    prescaler_min: 1,
    prescaler_max: 64,
    sjw_min: 1,
    sjw_max: 4,
    tseg1_min: 1,
    tseg1_max: 16,
    tseg2_min: 1,
    tseg2_max: 8,
}
}

/// CAN-FD bit timing. Nominal phase: prescaler 1-1024, SJW 1-128, TSEG1 1-256,
/// TSEG2 1-128. Data phase: prescaler 1-1024, SJW 1-16, TSEG1 1-32, TSEG2 1-16.
pub open spec fn spec_canfd_timing_boundaries() -> FdTimingBoundaries {
    FdTimingBoundaries {
    nom_prescaler_min: 1,
    nom_prescaler_max: 1024,
    nom_sjw_min: 1,
    nom_sjw_max: 128,
    nom_tseg1_min: 1,
    nom_tseg1_max: 256,
    nom_tseg2_min: 1,
    nom_tseg2_max: 128,
    data_prescaler_min: 1,
    data_prescaler_max: 1024,
    data_sjw_min: 1,
    data_sjw_max: 16,
    data_tseg1_min: 1,
    data_tseg1_max: 32,
    data_tseg2_min: 1,
    data_tseg2_max: 16,
}
}

/// The hardware's ranges for classical bit timing.
pub fn can_timing_boundaries() -> (r: TimingBoundaries)
    ensures
        r == spec_can_timing_boundaries(),
{
    TimingBoundaries {
    prescaler_min: 1,
    prescaler_max: 64,
    sjw_min: 1,
    sjw_max: 4,
    tseg1_min: 1,
    tseg1_max: 16,
    tseg2_min: 1,
    tseg2_max: 8,
}
}

/// The hardware's ranges for CAN-FD bit timing.
pub fn canfd_timing_boundaries() -> (r: FdTimingBoundaries)
    ensures
        r == spec_canfd_timing_boundaries(),
{
    FdTimingBoundaries {
    nom_prescaler_min: 1,
    nom_prescaler_max: 1024,
    nom_sjw_min: 1,
    nom_sjw_max: 128,
    nom_tseg1_min: 1,
    nom_tseg1_max: 256,
    nom_tseg2_min: 1,
    nom_tseg2_max: 128,
    data_prescaler_min: 1,
    data_prescaler_max: 1024,
    data_sjw_min: 1,
    data_sjw_max: 16,
    data_tseg1_min: 1,
    data_tseg1_max: 32,
    data_tseg2_min: 1,
    data_tseg2_max: 16,
}
}

/// The one failure of timing validation: some parameter lies outside its range.
#[derive(Debug, PartialEq, Eq, Structural, Clone, Copy)]
pub enum TimingError {
    OutOfBounds,
}

impl TimingError {
    /// A description of the error for people.
    pub fn message(&self) -> (r: &'static str)
        ensures
            r@ == "Timing parameters are out of bounds"@,
    {
        "Timing parameters are out of bounds"
    }
}

pub struct CanBitTiming {
    pub prescaler: u16,
    pub sjw: u8,
    pub tseg1: u8,
    pub tseg2: u8,
}

impl CanBitTiming {
    /// Every parameter lies in its range of `can_timing_boundaries`.
    pub open spec fn in_bounds(prescaler: u16, sjw: u8, tseg1: u8, tseg2: u8) -> bool {
        let b = spec_can_timing_boundaries();
        &&& b.prescaler_min <= prescaler <= b.prescaler_max
        &&& b.sjw_min <= sjw <= b.sjw_max
        &&& b.tseg1_min <= tseg1 <= b.tseg1_max
        &&& b.tseg2_min <= tseg2 <= b.tseg2_max
    }

    pub open spec fn wf(&self) -> bool {
        Self::in_bounds(self.prescaler, self.sjw, self.tseg1, self.tseg2)
    }

    pub fn new(prescaler: u16, sjw: u8, tseg1: u8, tseg2: u8) -> (r: Result<Self, TimingError>)
        ensures
            match r {
                Ok(t) => {
                    &&& Self::in_bounds(prescaler, sjw, tseg1, tseg2)
                    &&& t.prescaler == prescaler
                    &&& t.sjw == sjw
                    &&& t.tseg1 == tseg1
                    &&& t.tseg2 == tseg2
                },
                Err(e) => !Self::in_bounds(prescaler, sjw, tseg1, tseg2) && e
                    == TimingError::OutOfBounds,
            },
    {
        let timing = CanBitTiming { prescaler, sjw, tseg1, tseg2 };
        if Self::validate(&timing) {
            Ok(timing)
        } else {
            Err(TimingError::OutOfBounds)
        }
    }

    /// Checks prescaler, SJW, TSEG1 and TSEG2 in that order.
    fn validate(timing: &CanBitTiming) -> (r: bool)
        ensures
            r == timing.wf(),
    {
        let b = can_timing_boundaries();
        if timing.prescaler < b.prescaler_min || timing.prescaler
            > b.prescaler_max {
            return false;
        }
        if timing.sjw < b.sjw_min || timing.sjw
            > b.sjw_max {
            return false;
        }
        if timing.tseg1 < b.tseg1_min || timing.tseg1
            > b.tseg1_max {
            return false;
        }
        if timing.tseg2 < b.tseg2_min || timing.tseg2
            > b.tseg2_max {
            return false;
        }
        true
    }
}

pub struct CanFdBitTiming {
    pub nom_prescaler: u16,
    pub nom_sjw: u8,
    pub nom_tseg1: u16,
    pub nom_tseg2: u8,
    pub data_prescaler: u16,
    pub data_sjw: u8,
    pub data_tseg1: u8,
    pub data_tseg2: u8,
}

impl CanFdBitTiming {
    /// Every nominal-phase parameter lies in its range of `canfd_timing_boundaries`.
    pub open spec fn nominal_in_bounds(
        nom_prescaler: u16,
        nom_sjw: u8,
        nom_tseg1: u16,
        nom_tseg2: u8,
    ) -> bool {
        let b = spec_canfd_timing_boundaries();
        &&& b.nom_prescaler_min <= nom_prescaler <= b.nom_prescaler_max
        &&& b.nom_sjw_min <= nom_sjw <= b.nom_sjw_max
        &&& b.nom_tseg1_min <= nom_tseg1 <= b.nom_tseg1_max
        &&& b.nom_tseg2_min <= nom_tseg2 <= b.nom_tseg2_max
    }

    /// Every data-phase parameter lies in its range of `canfd_timing_boundaries`.
    pub open spec fn data_in_bounds(
        data_prescaler: u16,
        data_sjw: u8,
        data_tseg1: u8,
        data_tseg2: u8,
    ) -> bool {
        let b = spec_canfd_timing_boundaries();
        &&& b.data_prescaler_min <= data_prescaler <= b.data_prescaler_max
        &&& b.data_sjw_min <= data_sjw <= b.data_sjw_max
        &&& b.data_tseg1_min <= data_tseg1 <= b.data_tseg1_max
        &&& b.data_tseg2_min <= data_tseg2 <= b.data_tseg2_max
    }

    pub open spec fn wf(&self) -> bool {
        &&& Self::nominal_in_bounds(self.nom_prescaler, self.nom_sjw, self.nom_tseg1, self.nom_tseg2)
        &&& Self::data_in_bounds(
            self.data_prescaler,
            self.data_sjw,
            self.data_tseg1,
            self.data_tseg2,
        )
    }

    pub fn new(
        nom_prescaler: u16,
        nom_sjw: u8,
        nom_tseg1: u16,
        nom_tseg2: u8,
        data_prescaler: u16,
        data_sjw: u8,
        data_tseg1: u8,
        data_tseg2: u8,
    ) -> (r: Result<Self, TimingError>)
        ensures
            match r {
                Ok(t) => {
                    &&& Self::nominal_in_bounds(nom_prescaler, nom_sjw, nom_tseg1, nom_tseg2)
                    &&& Self::data_in_bounds(data_prescaler, data_sjw, data_tseg1, data_tseg2)
                    &&& t == (CanFdBitTiming {
                        nom_prescaler,
                        nom_sjw,
                        nom_tseg1,
                        nom_tseg2,
                        data_prescaler,
                        data_sjw,
                        data_tseg1,
                        data_tseg2,
                    })
                },
                Err(e) => {
                    &&& !(Self::nominal_in_bounds(nom_prescaler, nom_sjw, nom_tseg1, nom_tseg2)
                        && Self::data_in_bounds(data_prescaler, data_sjw, data_tseg1, data_tseg2))
                    &&& e == TimingError::OutOfBounds
                },
            },
    {
        let timing = CanFdBitTiming {
            nom_prescaler,
            nom_sjw,
            nom_tseg1,
            nom_tseg2,
            data_prescaler,
            data_sjw,
            data_tseg1,
            data_tseg2,
        };
        if Self::validate(&timing) {
            Ok(timing)
        } else {
            Err(TimingError::OutOfBounds)
        }
    }

    /// Checks the nominal phase, then the data phase, each in the order
    /// prescaler, SJW, TSEG1, TSEG2.
    fn validate(timing: &CanFdBitTiming) -> (r: bool)
        ensures
            r == timing.wf(),
    {
        let b = canfd_timing_boundaries();
        if timing.nom_prescaler < b.nom_prescaler_min || timing.nom_prescaler
            > b.nom_prescaler_max {
            return false;
        }
        if timing.nom_sjw < b.nom_sjw_min || timing.nom_sjw
            > b.nom_sjw_max {
            return false;
        }
        if timing.nom_tseg1 < b.nom_tseg1_min || timing.nom_tseg1
            > b.nom_tseg1_max {
            return false;
        }
        if timing.nom_tseg2 < b.nom_tseg2_min || timing.nom_tseg2
            > b.nom_tseg2_max {
            return false;
        }
        if timing.data_prescaler < b.data_prescaler_min
            || timing.data_prescaler > b.data_prescaler_max {
            return false;
        }
        if timing.data_sjw < b.data_sjw_min || timing.data_sjw
            > b.data_sjw_max {
            return false;
        }
        if timing.data_tseg1 < b.data_tseg1_min || timing.data_tseg1
            > b.data_tseg1_max {
            return false;
        }
        if timing.data_tseg2 < b.data_tseg2_min || timing.data_tseg2
            > b.data_tseg2_max {
            return false;
        }
        true
    }
}

} // verus!
