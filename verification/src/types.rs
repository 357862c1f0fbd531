//! The data model of the registry: file records, configuration, errors and
//! events.

use vstd::prelude::*;

verus! {

/// An account identifier, as handed out by the external authentication
/// collaborator.
pub type AccountId = u64;

/// A file identifier, derived from the record's content (see `hashing`).
pub type FileId = u64;

/// The pricing class of a file.
#[derive(Clone, Copy, PartialEq, Eq, Debug)]
pub enum FileType {
    Normal,
    Privileged,
}

/// One registered file: a fixed-size opaque link plus size and pricing
/// metadata. No file bytes are stored, only this record.
#[derive(Clone, Copy, PartialEq, Eq, Debug)]
pub struct File {
    pub file_link: [u8; 20],
    pub allow_download: bool,
    pub file_type: FileType,
    pub cost: u64,
    pub file_size: u64,
    pub owner: AccountId,
}

/// The configured limits of a registry instance.
#[derive(Clone, Copy, PartialEq, Eq, Debug)]
pub struct Config {
    /// Capacity bound of each per-account ownership list, reused as the bound
    /// of each per-file download-access list.
    pub max_files_uploaded: u32,
    /// Price per byte above the size limit for `Normal` files.
    pub cost_per_byte: u64,
    /// Size threshold above which a `Normal` file is charged per byte.
    pub file_size_limit: u64,
}

/// An error reported by the external balance-transfer collaborator. The code
/// is chosen by the ledger implementation and passed through unchanged.
#[derive(Clone, Copy, PartialEq, Eq, Debug)]
pub struct LedgerError {
    pub code: u64,
}

/// Every failure a registry operation can report. Each operation's contract
/// states exactly on which inputs each variant is returned.
#[derive(Clone, Copy, PartialEq, Eq, Debug)]
pub enum Error {
    ExceedMaxFileUploaded,
    FileNotAllowedToDownload,
    FileNotFound,
    AlreadyDownloaded,
    ExceedMaxFileDownload,
    InvalidOperation,
    FileCountOverflow,
    FileDownloadCountOverflow,
    InvalidSigner,
    NotEnoughBalance,
    AccountantNotSet,
    FileDoesntExist,
    /// A failure of the external transfer, propagated unchanged.
    LedgerFailure(LedgerError),
}

/// The notification a successful operation returns to its caller.
#[derive(Clone, Copy, PartialEq, Eq, Debug)]
pub enum Event {
    Uploaded(AccountId, FileId),
    Downloaded(AccountId, FileId, u64),
    Transfered(AccountId, AccountId, FileId),
}

} // verus!
