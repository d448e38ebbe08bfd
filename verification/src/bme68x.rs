//! Result mapping for the ambient sensor: the native driver reports signed
//! status codes, which callers turn into typed errors here.

use vstd::prelude::*;

verus! {

/// Errors the ambient sensor interface can report.
#[derive(Clone, Copy, Debug, PartialEq, Eq, Structural)]
pub enum Bme68xInterfaceError {
    NullPointer,
    CommunicationFailure,
    I2CFailure(u8),
    IncorrectLengthParameter,
    DeviceNotFound,
    SelfTestError,
    NoNewDataFound,
    UnstableHeater,
    Unknown,
}

/// The typed outcome a native status code stands for: zero is success, each
/// known code has its error, and anything else is unknown.
pub open spec fn rslt_of(rslt: i8) -> Result<(), Bme68xInterfaceError> {
    if rslt == 0 {
        Ok(())
    } else if rslt == -1 {
        Err(Bme68xInterfaceError::NullPointer)
    } else if rslt == -2 {
        Err(Bme68xInterfaceError::CommunicationFailure)
    } else if rslt == -3 {
        Err(Bme68xInterfaceError::DeviceNotFound)
    } else if rslt == -4 {
        Err(Bme68xInterfaceError::IncorrectLengthParameter)
    } else if rslt == -5 {
        Err(Bme68xInterfaceError::SelfTestError)
    } else if rslt == 2 {
        Err(Bme68xInterfaceError::NoNewDataFound)
    } else {
        Err(Bme68xInterfaceError::Unknown)
    }
}

/// The byte frame of one register write on the sensor bus: the register
/// address followed by the payload.
pub fn register_write_frame(reg_addr: u8, reg_data: &Vec<u8>) -> (r: Vec<u8>)
    ensures
        r@ == seq![reg_addr] + reg_data@,
{
    let mut buff: Vec<u8> = Vec::new();
    buff.push(reg_addr);
    let mut i: usize = 0;
    let n = reg_data.len();
    while i < n
        invariant
            i <= n,
            n == reg_data@.len(),
            buff@.len() == 1 + i,
            buff@[0] == reg_addr,
            forall|j: int| 0 <= j < i ==> buff@[1 + j] == reg_data@[j],
        decreases n - i,
    {
        buff.push(reg_data[i]);
        i = i + 1;
    }
    proof {
        assert(buff@ =~= seq![reg_addr] + reg_data@);
    }
    buff
}

/// Turns a native sensor status code into a typed result.
pub fn check_rslt(rslt: i8) -> (r: Result<(), Bme68xInterfaceError>)
    ensures
        r == rslt_of(rslt),
{
    match rslt {
        0 => Ok(()),
        -1 => Err(Bme68xInterfaceError::NullPointer),
        -2 => Err(Bme68xInterfaceError::CommunicationFailure),
        -3 => Err(Bme68xInterfaceError::DeviceNotFound),
        -4 => Err(Bme68xInterfaceError::IncorrectLengthParameter),
        -5 => Err(Bme68xInterfaceError::SelfTestError),
        2 => Err(Bme68xInterfaceError::NoNewDataFound),
        _ => Err(Bme68xInterfaceError::Unknown),
    }
}

} // verus!
