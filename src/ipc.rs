//! The messages exchanged between the client and the daemon, and the framing
//! rule for a request.
use vstd::prelude::*;

verus! {

/// A request of the client: read or change the brightness of one display, or
/// of all of them where no display is named.
#[derive(Clone, Debug)]
pub enum IpcRequest {
    Get { display: Option<String> },
    SetBrightness { display: Option<String>, brightness: String },
}

/// The reading of one display.
#[derive(Clone, Debug)]
pub struct DisplayBrightness {
    pub name: String,
    pub brightness: u8,
    pub max_brightness: u8,
}

/// A successful answer.
#[derive(Clone, Debug)]
pub enum IpcResponse {
    DisplayBrightness(Vec<DisplayBrightness>),
    /// The change was carried out.
    Done,
}

/// A failed answer.
#[derive(Clone, Debug)]
pub enum IpcError {
    DisplayNotFound { display: String },
    GetBrightnessError { error: String },
    SetBrightnessError { error: String },
}

/// The largest number of bytes a request may take is one less than this.
pub const MESSAGE_LIMIT: usize = 4096;

/// What a read of `n` bytes from a connection holds.
#[derive(Clone, Copy, Debug, PartialEq, Eq, Structural)]
pub enum Frame {
    /// The client sent nothing: there is nothing to answer.
    Empty,
    /// A request of `n` bytes.
    Request(usize),
}

/// Why a request is refused before it is decoded.
#[derive(Clone, Copy, Debug, PartialEq, Eq, Structural)]
pub enum ProtocolError {
    /// The request filled the whole buffer of `MESSAGE_LIMIT` bytes.
    TooLarge,
}

/// Classifies a read of `n` bytes into a buffer of `MESSAGE_LIMIT` bytes.
pub fn frame_message(n: usize) -> (r: Result<Frame, ProtocolError>)
    ensures
        n == 0 ==> r == Ok::<Frame, ProtocolError>(Frame::Empty),
        0 < n < MESSAGE_LIMIT ==> r == Ok::<Frame, ProtocolError>(Frame::Request(n)),
        n >= MESSAGE_LIMIT ==> r == Err::<Frame, ProtocolError>(ProtocolError::TooLarge),
{
    if n == 0 {
        Ok(Frame::Empty)
    } else if n >= MESSAGE_LIMIT {
        Err(ProtocolError::TooLarge)
    } else {
        Ok(Frame::Request(n))
    }
}

impl IpcError {
    /// The same error, field for field.
    pub fn duplicate(&self) -> (r: IpcError)
        ensures
            r == *self,
    {
        match self {
            IpcError::DisplayNotFound { display } => IpcError::DisplayNotFound {
                display: display.clone(),
            },
            IpcError::GetBrightnessError { error } => IpcError::GetBrightnessError {
                error: error.clone(),
            },
            IpcError::SetBrightnessError { error } => IpcError::SetBrightnessError {
                error: error.clone(),
            },
        }
    }
}

} // verus!
