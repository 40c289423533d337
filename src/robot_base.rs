//! The hardware handle: its construction, and the typed telemetry readings
//! that a live handle makes available.
use vstd::prelude::*;
use crate::guard::InitGuard;
use crate::hal::{check_flag, check_status, status_result, HalError, HalResult};
use crate::time::{nanos_of_micros, secs_of_micros, FpgaDuration};

verus! {

/// Timeout handed to the HAL's initialisation entry point; it bounds the
/// worst-case driver bring-up.
pub const HAL_INIT_TIMEOUT: i32 = 500;

/// Mode flag handed to the HAL's initialisation entry point (reserved).
pub const HAL_INIT_MODE: i32 = 0;

/// Why a hardware handle could not be constructed.
#[derive(Clone, Copy, Debug, PartialEq, Eq, Hash, Structural)]
pub enum RobotBaseInitError {
    /// The HAL's initialisation entry point reported failure.
    HalInitFailed,
    /// Hardware initialisation was already claimed in this process.
    AlreadyInit,
}

/// The capability that hardware is initialised and usable.
///
/// It cannot be copied or cloned, and only `RobotBase::new` makes one.
#[derive(Debug)]
pub struct RobotBase {
    live: (),
}

/// What one construction attempt returns, given whether the guard was
/// already claimed and the status the HAL's initialisation would report.
pub open spec fn init_outcome(claimed: bool, hal_status: i32) -> Result<(), RobotBaseInitError> {
    if claimed {
        Err(RobotBaseInitError::AlreadyInit)
    } else if hal_status == 0 {
        Err(RobotBaseInitError::HalInitFailed)
    } else {
        Ok(())
    }
}

/// A construction result with the handle itself left out.
pub open spec fn outcome_of(r: Result<RobotBase, RobotBaseInitError>) -> Result<(), RobotBaseInitError> {
    match r {
        Ok(_) => Ok(()),
        Err(e) => Err(e),
    }
}

impl RobotBase {
    /// Constructs the hardware handle.
    ///
    /// Claims `guard` first; if it was already claimed, fails with
    /// `AlreadyInit` without calling `hal_initialize`. Otherwise calls
    /// `hal_initialize` once (it runs the HAL's initialisation with
    /// `HAL_INIT_TIMEOUT` and `HAL_INIT_MODE`); a zero status fails with
    /// `HalInitFailed`. The claim is kept either way: there is no retry
    /// within one process.
    pub fn new<F: FnOnce() -> i32>(guard: &mut InitGuard, hal_initialize: F) -> (r: Result<
        RobotBase,
        RobotBaseInitError,
    >)
        requires
            hal_initialize.requires(()),
        ensures
            final(guard).is_claimed(),
            old(guard).is_claimed() ==> r == Err::<RobotBase, RobotBaseInitError>(
                RobotBaseInitError::AlreadyInit,
            ),
            !old(guard).is_claimed() ==> exists|status: i32|
                #![trigger hal_initialize.ensures((), status)]
                hal_initialize.ensures((), status) && outcome_of(r) == init_outcome(false, status),
    {
        if !guard.try_claim() {
            return Err(RobotBaseInitError::AlreadyInit);
        }
        let status = hal_initialize();
        if status == 0 {
            return Err(RobotBaseInitError::HalInitFailed);
        }
        Ok(RobotBase { live: () })
    }

    /// The FPGA version number (for now, the competition year).
    pub fn fpga_version(reading: i32, status: i32) -> (r: HalResult<i32>)
        ensures
            r == status_result(reading, status),
    {
        check_status(reading, status)
    }

    /// The FPGA revision: the 12 most significant bits are the major
    /// revision, the next 8 the minor revision, the 12 least significant
    /// the build number.
    pub fn fpga_revision(reading: i64, status: i32) -> (r: HalResult<i64>)
        ensures
            r == status_result(reading, status),
    {
        check_status(reading, status)
    }

    /// The FPGA's microsecond timer, counted since FPGA reset.
    pub fn fpga_time(reading: u64, status: i32) -> (r: HalResult<u64>)
        ensures
            r == status_result(reading, status),
    {
        check_status(reading, status)
    }

    /// The FPGA's microsecond timer as whole seconds and the nanoseconds
    /// beyond them.
    pub fn fpga_time_duration(reading: u64, status: i32) -> (r: HalResult<FpgaDuration>)
        ensures
            status != 0 ==> r == Err::<FpgaDuration, HalError>(HalError(status)),
            status == 0 ==> (r matches Ok(d) && d.wf() && d.secs_spec() == secs_of_micros(reading)
                && d.nanos_spec() == nanos_of_micros(reading)),
    {
        match Self::fpga_time(reading, status) {
            Ok(usec) => Ok(FpgaDuration::from_micros(usec)),
            Err(e) => Err(e),
        }
    }

    /// Whether the "USER" button on the controller is pressed.
    pub fn user_button(reading: i32, status: i32) -> (r: HalResult<bool>)
        ensures
            r == status_result(reading != 0, status),
    {
        check_flag(reading, status)
    }

    /// Whether the robot is browned out.
    pub fn is_browned_out(reading: i32, status: i32) -> (r: HalResult<bool>)
        ensures
            r == status_result(reading != 0, status),
    {
        check_flag(reading, status)
    }

    /// Whether outputs are enabled; `false` may come from a disabled robot
    /// or a brownout.
    pub fn is_system_active(reading: i32, status: i32) -> (r: HalResult<bool>)
        ensures
            r == status_result(reading != 0, status),
    {
        check_flag(reading, status)
    }
}

} // verus!
