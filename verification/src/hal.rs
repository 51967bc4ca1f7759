//! The errors of an EVE interface over an SPI bus with a separate chip
//! select pin, such as one built on the `embedded-hal` traits.

use vstd::prelude::*;

verus! {

/// The error of an SPI interface: from a write on the bus, from a transfer
/// on the bus, or from driving the chip select pin.
#[derive(Debug)]
pub enum EVEHALSPIError<SPIWriteError, SPITransferError, CSError> {
    SPIWrite(SPIWriteError),
    SPITransfer(SPITransferError),
    CS(CSError),
}

impl<SPIWriteError, SPITransferError, CSError> EVEHALSPIError<SPIWriteError, SPITransferError, CSError> {
    /// Passes a value through and wraps an error of an SPI write.
    pub fn spi_write_result<T>(r: Result<T, SPIWriteError>) -> (res: Result<T, Self>)
        ensures
            match r {
                Ok(v) => res == Ok::<T, Self>(v),
                Err(e) => res == Err::<T, Self>(EVEHALSPIError::SPIWrite(e)),
            },
    {
        match r {
            Ok(v) => Ok(v),
            Err(e) => Err(EVEHALSPIError::SPIWrite(e)),
        }
    }

    /// Passes a value through and wraps an error of an SPI transfer.
    pub fn spi_transfer_result<T>(r: Result<T, SPITransferError>) -> (res: Result<T, Self>)
        ensures
            match r {
                Ok(v) => res == Ok::<T, Self>(v),
                Err(e) => res == Err::<T, Self>(EVEHALSPIError::SPITransfer(e)),
            },
    {
        match r {
            Ok(v) => Ok(v),
            Err(e) => Err(EVEHALSPIError::SPITransfer(e)),
        }
    }

    /// Passes a value through and wraps an error of the chip select pin.
    pub fn cs_result<T>(r: Result<T, CSError>) -> (res: Result<T, Self>)
        ensures
            match r {
                Ok(v) => res == Ok::<T, Self>(v),
                Err(e) => res == Err::<T, Self>(EVEHALSPIError::CS(e)),
            },
    {
        match r {
            Ok(v) => Ok(v),
            Err(e) => Err(EVEHALSPIError::CS(e)),
        }
    }
}

} // verus!
