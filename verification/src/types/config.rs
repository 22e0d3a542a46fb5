//! Configuration values, as Syncthing's configuration interface reports them.

use std::collections::HashMap;
use vstd::prelude::*;

verus! {

/// The kind of filesystem behind a folder.
#[derive(Clone, Copy, Debug, PartialEq, Eq)]
pub enum FilesystemType {
    Basic,
    Fake,
}

/// How a folder takes part in synchronisation.
#[derive(Clone, Copy, Debug, PartialEq, Eq)]
pub enum FolderType {
    SendReceive,
    SendOnly,
    ReceiveOnly,
    ReceiveEncrypted,
}

/// A device that a folder is shared with.
#[derive(Clone, Debug, PartialEq, Eq)]
pub struct FolderDeviceConfiguration {
    pub device_id: String,
    pub introduced_by: String,
    pub encryption_password: String,
}

/// How old versions of a folder's files are kept.
#[derive(Clone, Debug, PartialEq, Eq)]
pub struct VersioningConfiguration {
    pub config_type: String,
    pub params: HashMap<String, String>,
    pub cleanup_interval_s: i64,
    pub fs_path: String,
    pub fs_type: FilesystemType,
}

/// The order in which needed files are pulled.
#[derive(Clone, Copy, Debug, PartialEq, Eq)]
pub enum PullOrder {
    Random,
    Alphabetic,
    SmallestFirst,
    LargestFirst,
    OldestFirst,
    NewestFirst,
}

/// The order in which the blocks of a file are pulled.
#[derive(Clone, Copy, Debug, PartialEq, Eq)]
pub enum BlockPullOrder {
    Standard,
    Random,
    InOrder,
}

/// How data is copied between files.
#[derive(Clone, Copy, Debug, PartialEq, Eq)]
pub enum CopyRangeMethod {
    Standard,
    CopyFileRange,
    Ioctl,
    SendFile,
    DuplicateExtents,
    All,
}

/// Which extended attributes are synchronised.
#[derive(Clone, Debug, PartialEq, Eq)]
pub struct XattrFilter {
    pub entries: Vec<String>,
    pub max_single_entry_size: u64,
    pub max_total_size: u64,
}

/// When traffic to a device is compressed.
#[derive(Clone, Copy, Debug, PartialEq, Eq)]
pub enum Compression {
    Metadata,
    Always,
    Never,
}

/// The settings of the graphical interface and of the REST interface.
#[derive(Clone, Debug, PartialEq, Eq)]
pub struct GuiConfiguration {
    pub enabled: bool,
    pub address: String,
    pub unix_socket_permissions: String,
    pub user: String,
    pub password: String,
    pub auth_mode: AuthMode,
    pub use_tls: bool,
    pub api_key: String,
    pub insecure_admin_access: bool,
    pub theme: String,
    pub debugging: bool,
    pub insecure_skip_hostcheck: bool,
    pub insecure_allow_frame_loading: bool,
    pub send_basic_auth_prompt: bool,
}

/// How users of the graphical interface are authenticated.
#[derive(Clone, Copy, Debug, PartialEq, Eq)]
pub enum AuthMode {
    StaticAuth,
    LDAP,
}

/// The directory server that authenticates users.
#[derive(Clone, Debug, PartialEq, Eq)]
pub struct LDAPConfiguration {
    pub address: String,
    pub bind_dn: String,
    pub transport: LDAPTransport,
    pub insecure_skip_verify: bool,
    pub search_base_dn: String,
    pub search_filter: String,
}

/// How the connection to the directory server is secured.
#[derive(Clone, Copy, Debug, PartialEq, Eq)]
pub enum LDAPTransport {
    Plain,
    NonTLS,
    TLS,
    StartTLS,
}

/// How the database is tuned.
#[derive(Clone, Copy, Debug, PartialEq, Eq)]
pub enum Tuning {
    Small,
    Large,
    Auto,
}

/// The ignore patterns that new folders start with.
#[derive(Clone, Debug, PartialEq, Eq)]
pub struct Ignores {
    pub lines: Vec<String>,
}

} // verus!
