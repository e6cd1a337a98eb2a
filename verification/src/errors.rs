//! The error kinds that a resolution can surface.

use vstd::prelude::*;

verus! {

/// Why a resolution failed.  Configuration and flag errors abort the whole
/// resolution; none are recovered locally.
#[derive(Debug)]
pub enum Error {
    /// The raw settings value is present but not an object.
    InvalidSettingsShape,
    /// A settings field has the wrong JSON type; `path` is the dotted field
    /// path, `expected` names the type that was wanted there.
    InvalidFieldType { path: String, expected: String },
    /// A flag override has an empty name or an empty value.
    InvalidOverride,
    /// The remote flag snapshot is missing, not an object, or holds a
    /// non-string value.
    MalformedRemoteFlags,
    /// No release asset matches the current platform; carries the asset
    /// name that was looked for.
    NoMatchingAsset { asset_name: String },
    /// A download failed; carries the URL and the reported cause.
    DownloadFailed { url: String, cause: String },
    /// A directory could not be created, listed or removed.
    FilesystemError { detail: String },
}

/// The mathematical model of an [`Error`]: the same shape over character
/// sequences.
pub enum ErrV {
    InvalidSettingsShape,
    InvalidFieldType { path: Seq<char>, expected: Seq<char> },
    InvalidOverride,
    MalformedRemoteFlags,
    NoMatchingAsset { asset_name: Seq<char> },
    DownloadFailed { url: Seq<char>, cause: Seq<char> },
    FilesystemError { detail: Seq<char> },
}

impl View for Error {
    type V = ErrV;

    open spec fn view(&self) -> ErrV {
        match self {
            Error::InvalidSettingsShape => ErrV::InvalidSettingsShape,
            Error::InvalidFieldType { path, expected } => (ErrV::InvalidFieldType {
                path: path@,
                expected: expected@,
            }),
            Error::InvalidOverride => ErrV::InvalidOverride,
            Error::MalformedRemoteFlags => ErrV::MalformedRemoteFlags,
            Error::NoMatchingAsset { asset_name } => (ErrV::NoMatchingAsset {
                asset_name: asset_name@,
            }),
            Error::DownloadFailed { url, cause } => (ErrV::DownloadFailed {
                url: url@,
                cause: cause@,
            }),
            Error::FilesystemError { detail } => (ErrV::FilesystemError { detail: detail@ }),
        }
    }
}

/// The wording of each error, carrying the offending field path where one
/// applies.
pub open spec fn spec_message(e: ErrV) -> Seq<char> {
    match e {
        ErrV::InvalidSettingsShape => "invalid settings: the settings value must be an object, but isn't"@,
        ErrV::InvalidFieldType { path, expected } => "invalid settings: field `"@ + path
            + "` must be "@ + expected,
        ErrV::InvalidOverride => "failed to apply fflag overrides: all overrides must have a non-empty name and value"@,
        ErrV::MalformedRemoteFlags => "failed to sync fflags: the fetched flag document has the wrong shape"@,
        ErrV::NoMatchingAsset { asset_name } => "no asset found matching "@ + asset_name,
        ErrV::DownloadFailed { url, cause } => "failed to download "@ + url + ": "@ + cause,
        ErrV::FilesystemError { detail } => "filesystem error: "@ + detail,
    }
}

impl Error {
    /// A human-readable description, naming the offending field path where
    /// one applies.
    pub fn message(&self) -> (r: String)
        ensures
            r@ == spec_message(self@),
            r@.len() > 0,
    {
        match self {
            Error::InvalidSettingsShape => {
                proof {
                    reveal_strlit("invalid settings: the settings value must be an object, but isn't");
                }
                String::from_str("invalid settings: the settings value must be an object, but isn't")
            },
            Error::InvalidFieldType { path, expected } => {
                proof {
                    reveal_strlit("invalid settings: field `");
                }
                let mut s = String::from_str("invalid settings: field `");
                s.append(path.as_str());
                s.append("` must be ");
                s.append(expected.as_str());
                s
            },
            Error::InvalidOverride => {
                proof {
                    reveal_strlit(
                        "failed to apply fflag overrides: all overrides must have a non-empty name and value",
                    );
                }
                String::from_str(
                    "failed to apply fflag overrides: all overrides must have a non-empty name and value",
                )
            },
            Error::MalformedRemoteFlags => {
                proof {
                    reveal_strlit("failed to sync fflags: the fetched flag document has the wrong shape");
                }
                String::from_str("failed to sync fflags: the fetched flag document has the wrong shape")
            },
            Error::NoMatchingAsset { asset_name } => {
                proof {
                    reveal_strlit("no asset found matching ");
                }
                let mut s = String::from_str("no asset found matching ");
                s.append(asset_name.as_str());
                s
            },
            Error::DownloadFailed { url, cause } => {
                proof {
                    reveal_strlit("failed to download ");
                }
                let mut s = String::from_str("failed to download ");
                s.append(url.as_str());
                s.append(": ");
                s.append(cause.as_str());
                s
            },
            Error::FilesystemError { detail } => {
                proof {
                    reveal_strlit("filesystem error: ");
                }
                let mut s = String::from_str("filesystem error: ");
                s.append(detail.as_str());
                s
            },
        }
    }
}

} // verus!
