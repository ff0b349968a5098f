use vstd::prelude::*;
use crate::constants::{ENDPOINT_ADDRESS, ENDPOINT_ADDRESS_GET, FRAME_LENGTH, SEND_TIMEOUT};
use crate::error::PatliteError;
use crate::frame::Data;

verus! {

/// One interrupt transfer from host to device.
#[derive(Clone, Copy, Debug)]
pub struct OutTransfer {
    pub endpoint: u8,
    pub payload: [u8; 8],
    pub timeout_ms: u64,
}

/// One interrupt transfer from device to host.
#[derive(Clone, Copy, Debug, PartialEq, Eq, Structural)]
pub struct InTransfer {
    pub endpoint: u8,
    pub length: usize,
    pub timeout_ms: u64,
}

/// The transfer that sends a frame: its eight bytes, to the endpoint that
/// leads to the device, within three seconds.
pub fn send_command(data: Data) -> (transfer: OutTransfer)
    ensures
        transfer.endpoint == 0x01,
        transfer.payload@ == data@,
        transfer.timeout_ms == 3000,
{
    OutTransfer { endpoint: ENDPOINT_ADDRESS, payload: data.to_array(), timeout_ms: SEND_TIMEOUT }
}

/// Judges a finished send. `written` is the number of bytes that the host
/// reports as moved, and nothing where it reports an error or a timeout. Only
/// a whole frame counts: a shorter or longer count is a failure.
pub fn sent(written: Option<usize>) -> (count: Result<usize, PatliteError>)
    ensures
        written == Some(8usize) ==> count == Ok::<usize, PatliteError>(8usize),
        written != Some(8usize) ==> count == Err::<usize, PatliteError>(
            PatliteError::TransferFailed,
        ),
{
    match written {
        Some(n) => {
            if n == FRAME_LENGTH {
                Ok(n)
            } else {
                Err(PatliteError::TransferFailed)
            }
        },
        None => Err(PatliteError::TransferFailed),
    }
}

/// The transfer that reads the device's state: eight bytes, from the endpoint
/// that leads to the host, within three seconds.
pub fn read_interrupt() -> (transfer: InTransfer)
    ensures
        transfer == (InTransfer { endpoint: 0x81, length: 8, timeout_ms: 3000 }),
{
    InTransfer { endpoint: ENDPOINT_ADDRESS_GET, length: FRAME_LENGTH, timeout_ms: SEND_TIMEOUT }
}

/// Judges a finished read. `read` is the number of bytes that the host
/// reports as moved into `buffer`, and nothing where it reports an error or a
/// timeout. Only a whole frame counts, and it is handed on byte for byte.
pub fn received(read: Option<usize>, buffer: [u8; 8]) -> (state: Result<Data, PatliteError>)
    ensures
        read == Some(8usize) ==> state == Ok::<Data, PatliteError>(Data::from_seq(buffer@)),
        read != Some(8usize) ==> state == Err::<Data, PatliteError>(PatliteError::TransferFailed),
{
    match read {
        Some(n) => {
            if n == FRAME_LENGTH {
                Ok(Data::from_array(buffer))
            } else {
                Err(PatliteError::TransferFailed)
            }
        },
        None => Err(PatliteError::TransferFailed),
    }
}

} // verus!
