//! The payloads of events, as Syncthing's event interface reports them.

use vstd::prelude::*;

verus! {

/// How a connection to a device was made.
#[derive(Clone, Copy, Debug, PartialEq, Eq)]
pub enum ConnectionType {
    TCPClient,
    TCPServer,
    RelayClient,
    RelayServer,
    QuicServer,
}

/// One error of a folder, with the path it concerns.
#[derive(Clone, Debug, PartialEq, Eq)]
pub struct FolderError {
    pub error: String,
    pub path: String,
}

/// An address that the device listens on, as the parts of a URL.
#[derive(Clone, Debug, PartialEq, Eq)]
pub struct ListenAddressChanged {
    pub fragment: String,
    pub raw_query: String,
    pub scheme: String,
    pub path: String,
    pub user: Option<String>,
    pub force_query: bool,
    pub host: String,
    pub opaque: String,
}

/// How far the download of one file has come, in blocks and bytes.
#[derive(Clone, Copy, Debug, PartialEq, Eq)]
pub struct FileDownloadProgress {
    pub total: u64,
    pub pulling: u64,
    pub copied_from_original: u64,
    pub reused: u64,
    pub copied_from_elsewhere: u64,
    pub pulled: u64,
    pub bytes_total: u64,
    pub bytes_done: u64,
}

/// A device that is no longer pending.
#[derive(Clone, Debug, PartialEq, Eq)]
pub struct RemovedPendingDeviceChanged {
    pub device_id: String,
}

/// A folder that a device has newly offered.
#[derive(Clone, Debug, Default, PartialEq, Eq)]
pub struct AddedPendingFolderChanged {
    pub device_id: String,
    pub folder_id: String,
    pub folder_label: String,
    pub receive_encrypted: bool,
    pub remote_encrypted: bool,
}

/// A folder that is no longer pending: on one device, or, without a device,
/// on any.
#[derive(Clone, Debug, Default, PartialEq, Eq)]
pub struct RemovedPendingFolderChanged {
    pub device_id: Option<String>,
    pub folder_id: String,
}

} // verus!
