//! The errors of the client.

use vstd::prelude::*;
use crate::text::text_view;

verus! {

/// What can go wrong when talking to Syncthing.
///
/// An error names what went wrong. Where something outside caused it, the
/// cause stays with whoever talked to the outside.
#[derive(Clone, Copy, Debug, PartialEq, Eq, Structural)]
pub enum Error {
    /// The API key cannot be sent as the value of a header.
    InvalidHeaderError,
    /// The request failed, or the server answered with an error status.
    NetworkError,
    /// An event could not be handed on: nobody receives events any more.
    SendEventError,
    /// The response does not name the device in its header.
    HeaderDeviceIDError,
    /// The header that names the device is not text.
    HeaderParseError,
    /// The folder is in the configuration already.
    DuplicateFolderError,
    /// The device is in the configuration already.
    DuplicateDeviceError,
    /// There is no such folder.
    UnknownFolderError,
    /// There is no such device.
    UnknownDeviceError,
}

impl Error {
    /// The message of the error, where the error has one of its own. The
    /// two errors that pass on what went wrong elsewhere have none: their
    /// message is that of the cause.
    pub open spec fn message_text(self) -> Option<Seq<char>> {
        match self {
            Error::InvalidHeaderError => None,
            Error::NetworkError => None,
            Error::SendEventError => Some("failed to send event (no receivers)"@),
            Error::HeaderDeviceIDError => Some("device ID was not set in response header"@),
            Error::HeaderParseError => Some("could not convert header to string"@),
            Error::DuplicateFolderError => Some("folder already in the configuration"@),
            Error::DuplicateDeviceError => Some("device already in the configuration"@),
            Error::UnknownFolderError => Some("folder does not exist"@),
            Error::UnknownDeviceError => Some("device does not exist"@),
        }
    }

    /// The message of the error, where the error has one of its own.
    pub fn message(&self) -> (text: Option<String>)
        ensures
            text_view(text) == self.message_text(),
    {
        match self {
            Error::InvalidHeaderError => None,
            Error::NetworkError => None,
            Error::SendEventError => Some("failed to send event (no receivers)".to_owned()),
            Error::HeaderDeviceIDError => Some(
                "device ID was not set in response header".to_owned(),
            ),
            Error::HeaderParseError => Some("could not convert header to string".to_owned()),
            Error::DuplicateFolderError => Some("folder already in the configuration".to_owned()),
            Error::DuplicateDeviceError => Some("device already in the configuration".to_owned()),
            Error::UnknownFolderError => Some("folder does not exist".to_owned()),
            Error::UnknownDeviceError => Some("device does not exist".to_owned()),
        }
    }
}

} // verus!
