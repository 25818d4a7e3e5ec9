//! The supervisor binary interface (SBI): which firmware call to make, and
//! with which register values.
//!
//! A call is issued with a single `ecall`. Its three arguments go in `a0`,
//! `a1` and `a2`. A standard call puts the function id in `a6` and the
//! extension id in `a7` and gets back the error in `a0` and the value in `a1`.
//! A legacy call puts its function number in `a7` and gets back one word in
//! `a0`.
use vstd::prelude::*;

verus! {

pub const EXTENSION_BASE: usize = 0x10;
pub const EXTENSION_TIMER: usize = 0x54494D45;
pub const EXTENSION_IPI: usize = 0x735049;
pub const EXTENSION_RFENCE: usize = 0x52464E43;
pub const EXTENSION_HSM: usize = 0x48534D;
pub const EXTENSION_SRST: usize = 0x53525354;

pub const FUNCTION_BASE_GET_SPEC_VERSION: usize = 0x0;
pub const FUNCTION_BASE_GET_SBI_IMPL_ID: usize = 0x1;
pub const FUNCTION_BASE_GET_SBI_IMPL_VERSION: usize = 0x2;
pub const FUNCTION_BASE_PROBE_EXTENSION: usize = 0x3;
pub const FUNCTION_BASE_GET_MVENDORID: usize = 0x4;
pub const FUNCTION_BASE_GET_MARCHID: usize = 0x5;
pub const FUNCTION_BASE_GET_MIMPID: usize = 0x6;

pub const SBI_SET_TIMER: usize = 0;
pub const SBI_CONSOLE_PUTCHAR: usize = 1;
pub const SBI_CONSOLE_GETCHAR: usize = 2;
pub const SBI_CLEAR_IPI: usize = 3;
pub const SBI_SEND_IPI: usize = 4;
pub const SBI_REMOTE_FENCE_I: usize = 5;
pub const SBI_REMOTE_SFENCE_VMA: usize = 6;
pub const SBI_REMOTE_SFENCE_VMA_ASID: usize = 7;
pub const SBI_SHUTDOWN: usize = 8;

/// What a standard call hands back: `a0` and `a1` after the `ecall`.
#[derive(Clone, Copy, Debug, PartialEq, Eq, Structural)]
pub struct SbiRet {
    /// Error number; zero means success.
    pub error: usize,
    /// Result value, whose meaning depends on the call.
    pub value: usize,
}

/// One firmware call, as the values it loads into registers before `ecall`.
#[derive(Clone, Copy, Debug, PartialEq, Eq, Structural)]
pub enum SbiCall {
    /// Extension-based call: `a7 = extension`, `a6 = function`.
    Standard { extension: usize, function: usize, arg0: usize, arg1: usize, arg2: usize },
    /// Legacy call: `a7 = which`.
    Legacy { which: usize, arg0: usize, arg1: usize, arg2: usize },
}

pub open spec fn standard(extension: usize, function: usize, arg0: usize) -> SbiCall {
    SbiCall::Standard { extension, function, arg0, arg1: 0, arg2: 0 }
}

pub open spec fn legacy(which: usize, arg0: usize) -> SbiCall {
    SbiCall::Legacy { which, arg0, arg1: 0, arg2: 0 }
}

/// The legacy call that hands byte `b` to the console.
pub open spec fn putchar_call(b: u8) -> SbiCall {
    legacy(SBI_CONSOLE_PUTCHAR, b as usize)
}

/// The call that powers the machine off.
pub open spec fn shutdown_call() -> SbiCall {
    legacy(SBI_SHUTDOWN, 0)
}

impl SbiCall {
    /// Whether the firmware answers this call with an error and a value
    /// (`a0`, `a1`) rather than with a single word in `a0`.
    pub fn returns_pair(&self) -> (r: bool)
        ensures
            r == (self is Standard),
    {
        match self {
            SbiCall::Standard { .. } => true,
            SbiCall::Legacy { .. } => false,
        }
    }
}

/// A call of the extension-based ABI.
pub fn sbi_call(extension: usize, function: usize, arg0: usize, arg1: usize, arg2: usize) -> (r:
    SbiCall)
    ensures
        r == (SbiCall::Standard { extension, function, arg0, arg1, arg2 }),
{
    SbiCall::Standard { extension, function, arg0, arg1, arg2 }
}

/// A call of the legacy ABI.
pub fn sbi_call_legacy(which: usize, arg0: usize, arg1: usize, arg2: usize) -> (r: SbiCall)
    ensures
        r == (SbiCall::Legacy { which, arg0, arg1, arg2 }),
{
    SbiCall::Legacy { which, arg0, arg1, arg2 }
}

/// Asks for the SBI specification version; the answer is in `value`.
pub fn get_spec_version() -> (r: SbiCall)
    ensures
        r == standard(EXTENSION_BASE, FUNCTION_BASE_GET_SPEC_VERSION, 0),
{
    sbi_call(EXTENSION_BASE, FUNCTION_BASE_GET_SPEC_VERSION, 0, 0, 0)
}

/// Asks for the firmware implementation id.
pub fn get_sbi_impl_id() -> (r: SbiCall)
    ensures
        r == standard(EXTENSION_BASE, FUNCTION_BASE_GET_SBI_IMPL_ID, 0),
{
    sbi_call(EXTENSION_BASE, FUNCTION_BASE_GET_SBI_IMPL_ID, 0, 0, 0)
}

/// Asks for the firmware implementation version.
pub fn get_sbi_impl_version() -> (r: SbiCall)
    ensures
        r == standard(EXTENSION_BASE, FUNCTION_BASE_GET_SBI_IMPL_VERSION, 0),
{
    sbi_call(EXTENSION_BASE, FUNCTION_BASE_GET_SBI_IMPL_VERSION, 0, 0, 0)
}

/// Asks whether extension `extension_id` is there: `value` is zero when it is
/// absent, and otherwise an extension-specific non-zero number.
pub fn probe_extension(extension_id: usize) -> (r: SbiCall)
    ensures
        r == standard(EXTENSION_BASE, FUNCTION_BASE_PROBE_EXTENSION, extension_id),
{
    sbi_call(EXTENSION_BASE, FUNCTION_BASE_PROBE_EXTENSION, extension_id, 0, 0)
}

/// Asks for the machine vendor id.
pub fn get_mvendorid() -> (r: SbiCall)
    ensures
        r == standard(EXTENSION_BASE, FUNCTION_BASE_GET_MVENDORID, 0),
{
    sbi_call(EXTENSION_BASE, FUNCTION_BASE_GET_MVENDORID, 0, 0, 0)
}

/// Asks for the machine architecture id.
pub fn get_marchid() -> (r: SbiCall)
    ensures
        r == standard(EXTENSION_BASE, FUNCTION_BASE_GET_MARCHID, 0),
{
    sbi_call(EXTENSION_BASE, FUNCTION_BASE_GET_MARCHID, 0, 0, 0)
}

/// Asks for the machine implementation id.
pub fn get_mimpid() -> (r: SbiCall)
    ensures
        r == standard(EXTENSION_BASE, FUNCTION_BASE_GET_MIMPID, 0),
{
    sbi_call(EXTENSION_BASE, FUNCTION_BASE_GET_MIMPID, 0, 0, 0)
}

/// Hands one byte (in the low bits of `c`) to the firmware console.
pub fn console_putchar(c: usize) -> (r: SbiCall)
    ensures
        r == legacy(SBI_CONSOLE_PUTCHAR, c),
{
    sbi_call_legacy(SBI_CONSOLE_PUTCHAR, c, 0, 0)
}

/// Reads one character from the firmware console.
pub fn console_getchar() -> (r: SbiCall)
    ensures
        r == legacy(SBI_CONSOLE_GETCHAR, 0),
{
    sbi_call_legacy(SBI_CONSOLE_GETCHAR, 0, 0, 0)
}

/// Powers the machine off; the firmware does not return from this call.
pub fn shutdown() -> (r: SbiCall)
    ensures
        r == shutdown_call(),
{
    sbi_call_legacy(SBI_SHUTDOWN, 0, 0, 0)
}

/// Arms the timer to fire at absolute time `time`.
pub fn set_timer(time: usize) -> (r: SbiCall)
    ensures
        r == legacy(SBI_SET_TIMER, time),
{
    sbi_call_legacy(SBI_SET_TIMER, time, 0, 0)
}

/// Whether a probe answer says that the extension is present.
pub fn extension_present(probe: SbiRet) -> (r: bool)
    ensures
        r == (probe.value != 0),
{
    probe.value != 0
}

} // verus!
