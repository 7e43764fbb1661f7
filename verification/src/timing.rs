//! The main loop's scheduling descriptor and its raw host encoding.
//!
//! The host scheduler stores the descriptor as two machine integers,
//! `(mode, value)`; only a small fixed set of modes is modeled. Decoding a
//! pair whose mode lies outside that set yields [`MainLoopInvalidTiming`],
//! which carries the raw pair unchanged.

use vstd::prelude::*;

use crate::decimal::{dec_str, render_i32};

verus! {

/// Raw mode integer for `setTimeout`-driven scheduling.
pub const TIMING_MODE_SETTIMEOUT: i32 = 0;

/// Raw mode integer for `requestAnimationFrame`-driven scheduling.
pub const TIMING_MODE_RAF: i32 = 1;

/// Raw mode integer for `setImmediate`-driven scheduling.
pub const TIMING_MODE_SETIMMEDIATE: i32 = 2;

/// Parameters of the main loop's scheduling mode.
///
/// The host implements this with two `int` variables, `mode` and `value`;
/// only the valid modes appear here.
#[derive(Debug, Clone, PartialEq, Eq, Structural)]
pub enum MainLoopTiming {
    /// The main loop function gets called periodically via `setTimeout`,
    /// with the payload being the interval between calls in milliseconds.
    SetTimeout(i32),
    /// The main loop function gets called via `requestAnimationFrame`,
    /// with the payload being the swap interval: a payload of `1` runs the
    /// loop at every vsync, `2` at every second vsync, and in general at
    /// the display frequency divided by the payload.
    RequestAnimationFrame(i32),
    /// The main loop function gets called via `setImmediate`, a scheduling
    /// mode the host supports but discourages.
    SetImmediate,
}

/// The raw timing parameters found on the host when they do not match any
/// modeled scheduling mode.
#[derive(Debug, Clone, PartialEq, Eq, Structural)]
pub struct MainLoopInvalidTiming {
    /// The unrecognized raw mode integer.
    pub mode: i32,
    /// The raw value integer that accompanied it.
    pub value: i32,
}

/// The raw `(mode, value)` pair the host stores for a descriptor.
pub open spec fn timing_to_raw(t: MainLoopTiming) -> (i32, i32) {
    match t {
        MainLoopTiming::SetTimeout(ms) => (TIMING_MODE_SETTIMEOUT, ms),
        MainLoopTiming::RequestAnimationFrame(n) => (TIMING_MODE_RAF, n),
        MainLoopTiming::SetImmediate => (TIMING_MODE_SETIMMEDIATE, 0),
    }
}

/// The descriptor a raw `(mode, value)` pair denotes, or the raw pair
/// itself when the mode is not modeled.
pub open spec fn timing_of_raw(mode: i32, value: i32) -> Result<
    MainLoopTiming,
    MainLoopInvalidTiming,
> {
    if mode == TIMING_MODE_SETTIMEOUT {
        Ok(MainLoopTiming::SetTimeout(value))
    } else if mode == TIMING_MODE_RAF {
        Ok(MainLoopTiming::RequestAnimationFrame(value))
    } else if mode == TIMING_MODE_SETIMMEDIATE {
        Ok(MainLoopTiming::SetImmediate)
    } else {
        Err(MainLoopInvalidTiming { mode, value })
    }
}

impl MainLoopTiming {
    /// Encodes the descriptor into the raw pair the host stores.
    pub fn to_raw(&self) -> (r: (i32, i32))
        ensures
            r == timing_to_raw(*self),
    {
        match self {
            MainLoopTiming::SetTimeout(ms) => (TIMING_MODE_SETTIMEOUT, *ms),
            MainLoopTiming::RequestAnimationFrame(n) => (TIMING_MODE_RAF, *n),
            MainLoopTiming::SetImmediate => (TIMING_MODE_SETIMMEDIATE, 0),
        }
    }

    /// Decodes the raw pair read back from the host.
    pub fn from_raw(mode: i32, value: i32) -> (r: Result<MainLoopTiming, MainLoopInvalidTiming>)
        ensures
            r == timing_of_raw(mode, value),
    {
        if mode == TIMING_MODE_SETTIMEOUT {
            Ok(MainLoopTiming::SetTimeout(value))
        } else if mode == TIMING_MODE_RAF {
            Ok(MainLoopTiming::RequestAnimationFrame(value))
        } else if mode == TIMING_MODE_SETIMMEDIATE {
            Ok(MainLoopTiming::SetImmediate)
        } else {
            Err(MainLoopInvalidTiming { mode, value })
        }
    }
}

impl MainLoopInvalidTiming {
    /// The diagnostic text naming the raw pair, for callers that report
    /// the unrecognized descriptor.
    pub fn message(&self) -> (r: String)
        ensures
            r@ == "Invalid main loop timing parameters: mode = "@ + dec_str(self.mode as int)
                + ", value = "@ + dec_str(self.value as int),
    {
        let mut out = String::from_str("Invalid main loop timing parameters: mode = ");
        let mode_text = render_i32(self.mode);
        out.append(mode_text.as_str());
        out.append(", value = ");
        let value_text = render_i32(self.value);
        out.append(value_text.as_str());
        out
    }
}

/// Law: decoding the raw pair a descriptor encodes to yields the
/// descriptor back, for every modeled descriptor.
pub proof fn lemma_timing_round_trip(t: MainLoopTiming)
    ensures
        timing_of_raw(timing_to_raw(t).0, timing_to_raw(t).1) == Ok::<
            MainLoopTiming,
            MainLoopInvalidTiming,
        >(t),
{
}

/// Law: a raw pair whose mode lies outside the modeled set decodes to the
/// error carrying exactly that pair.
pub proof fn lemma_unmodeled_mode_round_trip(mode: i32, value: i32)
    requires
        mode != TIMING_MODE_SETTIMEOUT,
        mode != TIMING_MODE_RAF,
        mode != TIMING_MODE_SETIMMEDIATE,
    ensures
        timing_of_raw(mode, value) == Err::<MainLoopTiming, MainLoopInvalidTiming>(
            MainLoopInvalidTiming { mode, value },
        ),
{
}

} // verus!
