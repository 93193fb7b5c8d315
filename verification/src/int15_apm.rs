//! INT 15h AH=53h APM BIOS 1.2 subset: installation check and the
//! real-mode connect / disconnect state; protected-mode connects are
//! refused.
use vstd::prelude::*;

verus! {

/// INT 15h vector.
pub const INT15_VECTOR: u8 = 0x15;

/// AH=53h: APM BIOS functions.
pub const INT15_AH_APM: u8 = 0x53;

/// AL=00h: installation check.
pub const APM_AL_INSTALLATION_CHECK: u8 = 0x00;

/// AL=01h: connect the real-mode interface.
pub const APM_AL_CONNECT_REAL: u8 = 0x01;

/// AL=02h: connect the 16-bit protected-mode interface (refused).
pub const APM_AL_CONNECT_16: u8 = 0x02;

/// AL=03h: connect the 32-bit protected-mode interface (refused).
pub const APM_AL_CONNECT_32: u8 = 0x03;

/// AL=04h: disconnect the interface.
pub const APM_AL_DISCONNECT: u8 = 0x04;

/// APM major version reported (1.x).
pub const APM_VERSION_MAJOR: u8 = 1;

/// APM minor version reported (x.2).
pub const APM_VERSION_MINOR: u8 = 2;

/// Error: interface already connected.
pub const APM_ERR_INTERFACE_CONNECTED: u8 = 0x02;

/// Error: interface not connected.
pub const APM_ERR_INTERFACE_NOT_CONNECTED: u8 = 0x03;

/// Error: unsupported function or interface.
pub const APM_ERR_UNSUPPORTED: u8 = 0x86;

/// The registers of the APM calls.
#[derive(Clone, Copy, Debug, PartialEq, Eq, Structural)]
pub struct ApmRegs {
    pub ah: u8,
    pub al: u8,
    pub bh: u8,
    pub bl: u8,
    pub cx: u16,
    pub cf: bool,
}

/// An error reply: `AH` = code, CF set.
pub open spec fn apm_fail_regs(r: ApmRegs, code: u8) -> ApmRegs {
    ApmRegs { ah: code, cf: true, ..r }
}

/// A success reply: `AH` = 0, CF clear.
pub open spec fn apm_ok_regs(r: ApmRegs) -> ApmRegs {
    ApmRegs { ah: 0, cf: false, ..r }
}

/// What an APM call does to the registers and the real-mode connection:
/// - not AH=53h: CF set, nothing else;
/// - AL=00h with BX=0: version 1.2 in BH/BL, CX = 0 (no protected-mode
///   interface), success; with BX != 0: error 86h;
/// - AL=01h with BX=0: connects, or error 02h when connected; BX != 0:
///   error 86h;
/// - AL=04h: disconnects, or error 03h when not connected;
/// - AL=02h, 03h or anything else: error 86h.
pub open spec fn apm_spec(r: ApmRegs, connected: bool) -> (ApmRegs, bool) {
    let bx_zero = r.bh == 0 && r.bl == 0;
    if r.ah != INT15_AH_APM {
        (ApmRegs { cf: true, ..r }, connected)
    } else if r.al == APM_AL_INSTALLATION_CHECK {
        if !bx_zero {
            (apm_fail_regs(r, APM_ERR_UNSUPPORTED), connected)
        } else {
            (
                ApmRegs { ah: 0, bh: APM_VERSION_MAJOR, bl: APM_VERSION_MINOR, cx: 0, cf: false, ..r },
                connected,
            )
        }
    } else if r.al == APM_AL_CONNECT_REAL {
        if !bx_zero {
            (apm_fail_regs(r, APM_ERR_UNSUPPORTED), connected)
        } else if connected {
            (apm_fail_regs(r, APM_ERR_INTERFACE_CONNECTED), connected)
        } else {
            (apm_ok_regs(r), true)
        }
    } else if r.al == APM_AL_DISCONNECT {
        if !connected {
            (apm_fail_regs(r, APM_ERR_INTERFACE_NOT_CONNECTED), connected)
        } else {
            (apm_ok_regs(r), false)
        }
    } else {
        (apm_fail_regs(r, APM_ERR_UNSUPPORTED), connected)
    }
}

fn apm_fail(regs: &mut ApmRegs, code: u8)
    ensures
        *final(regs) == apm_fail_regs(*old(regs), code),
{
    regs.ah = code;
    regs.cf = true;
}

/// Host INT 15h AH=53h dispatch; `connected` is the real-mode connection.
pub fn service_int15_apm(regs: &mut ApmRegs, connected: &mut bool)
    ensures
        (*final(regs), *final(connected)) == apm_spec(*old(regs), *old(connected)),
{
    if regs.ah != INT15_AH_APM {
        regs.cf = true;
        return;
    }
    let bx_zero = regs.bh == 0 && regs.bl == 0;
    let al = regs.al;
    if al == APM_AL_INSTALLATION_CHECK {
        if !bx_zero {
            apm_fail(regs, APM_ERR_UNSUPPORTED);
            return;
        }
        regs.ah = 0;
        regs.bh = APM_VERSION_MAJOR;
        regs.bl = APM_VERSION_MINOR;
        regs.cx = 0;
        regs.cf = false;
    } else if al == APM_AL_CONNECT_REAL {
        if !bx_zero {
            apm_fail(regs, APM_ERR_UNSUPPORTED);
            return;
        }
        if *connected {
            apm_fail(regs, APM_ERR_INTERFACE_CONNECTED);
            return;
        }
        *connected = true;
        regs.ah = 0;
        regs.cf = false;
    } else if al == APM_AL_DISCONNECT {
        if !*connected {
            apm_fail(regs, APM_ERR_INTERFACE_NOT_CONNECTED);
            return;
        }
        *connected = false;
        regs.ah = 0;
        regs.cf = false;
    } else {
        apm_fail(regs, APM_ERR_UNSUPPORTED);
    }
}

/// The real-mode interface connects once: a connect from the disconnected
/// state succeeds, a second connect is refused with 02h and keeps the
/// connection, and a disconnect then returns to the disconnected state.
pub proof fn law_apm_connect_once(r: ApmRegs)
    requires
        r.ah == INT15_AH_APM,
        r.bh == 0 && r.bl == 0,
    ensures
        apm_spec(ApmRegs { al: APM_AL_CONNECT_REAL, ..r }, false).1,
        !apm_spec(ApmRegs { al: APM_AL_CONNECT_REAL, ..r }, false).0.cf,
        apm_spec(ApmRegs { al: APM_AL_CONNECT_REAL, ..r }, true) == (
            apm_fail_regs(ApmRegs { al: APM_AL_CONNECT_REAL, ..r }, APM_ERR_INTERFACE_CONNECTED),
            true,
        ),
        apm_spec(ApmRegs { al: APM_AL_DISCONNECT, ..r }, true).1 == false,
        !apm_spec(ApmRegs { al: APM_AL_DISCONNECT, ..r }, true).0.cf,
{
}

/// Only connect and disconnect change the connection, and only when they
/// succeed.
pub proof fn law_apm_connection_changes_only_on_success(r: ApmRegs, connected: bool)
    ensures
        apm_spec(r, connected).1 != connected ==> !apm_spec(r, connected).0.cf && r.ah == INT15_AH_APM && (
        r.al == APM_AL_CONNECT_REAL || r.al == APM_AL_DISCONNECT),
{
}


/// The APM subset over every register file and connection state: any call
/// but AH=53h only sets CF; the installation check (AL=00h, BX=0) reports
/// version 1.2 in BH/BL with CX=0 and success; a real-mode connect (AL=01h,
/// BX=0) succeeds exactly when not yet connected and then connects; a
/// disconnect (AL=04h) succeeds exactly when connected and then
/// disconnects; a failure sets CF with the error in AH and changes nothing
/// else; and only a successful connect or disconnect changes the connection.
pub proof fn law_apm_registers(r: ApmRegs, connected: bool)
    ensures
        ({
            let (o, c) = apm_spec(r, connected);
            &&& r.ah != 0x53 ==> o == (ApmRegs { cf: true, ..r }) && c == connected
            &&& (r.ah == 0x53 && r.al == 0x00 && r.bh == 0 && r.bl == 0) ==> o.ah == 0 && o.bh == 1
                && o.bl == 2 && o.cx == 0 && !o.cf && c == connected
            &&& (r.ah == 0x53 && r.al == 0x01 && r.bh == 0 && r.bl == 0) ==> (!o.cf <==> !connected)
                && c == true
            &&& (r.ah == 0x53 && r.al == 0x04) ==> (!o.cf <==> connected) && c == false
            &&& (r.ah == 0x53 && (r.al == 0x02 || r.al == 0x03 || r.al > 0x04)) ==> o.cf && o.ah
                == 0x86 && c == connected
            &&& o.cf && r.ah == 0x53 ==> o == (ApmRegs { ah: o.ah, cf: true, ..r }) && c == connected
            &&& (r.ah == 0x53 && r.al == 0x01 && r.bh == 0 && r.bl == 0 && connected) ==> o.ah == 0x02
            &&& (r.ah == 0x53 && r.al == 0x04 && !connected) ==> o.ah == 0x03
        }),
{
}

} // verus!
