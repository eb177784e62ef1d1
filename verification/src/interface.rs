//! Location descriptors: the values that identify where a file is fetched
//! from. The retry engine treats them as opaque and forwards them unchanged
//! into its terminal error.

use vstd::prelude::*;

verus! {

/// FileUri represents a file URI used to identify the file's location.
#[derive(Debug, PartialEq, Eq, PartialOrd, Ord, Clone)]
pub struct FileUri(pub String);

impl View for FileUri {
    type V = Seq<char>;

    open spec fn view(&self) -> Seq<char> {
        self.0@
    }
}

impl From<FileUri> for String {
    fn from(file_uri: FileUri) -> (r: Self) {
        file_uri.0
    }
}

impl vstd::std_specs::convert::FromSpecImpl<FileUri> for String {
    open spec fn obeys_from_spec() -> bool {
        true
    }

    open spec fn from_spec(file_uri: FileUri) -> Self {
        file_uri.0
    }
}

/// A file downloader URI.
#[derive(Debug, PartialEq, Eq, Clone)]
pub enum FileDownloaderUri {
    /// A single file URI
    FileUri(FileUri),
}

impl View for FileDownloaderUri {
    type V = Seq<char>;

    open spec fn view(&self) -> Seq<char> {
        match self {
            FileDownloaderUri::FileUri(file_uri) => file_uri@,
        }
    }
}

impl FileDownloaderUri {
    /// The wrapped URI text.
    pub fn as_str(&self) -> (r: &str)
        ensures
            r@ == self@,
    {
        match self {
            FileDownloaderUri::FileUri(file_uri) => file_uri.0.as_str(),
        }
    }

    /// An owned value equal to this one.
    pub fn duplicate(&self) -> (r: Self)
        ensures
            r == *self,
    {
        match self {
            FileDownloaderUri::FileUri(file_uri) => {
                FileDownloaderUri::FileUri(FileUri(file_uri.0.clone()))
            },
        }
    }
}

impl From<String> for FileDownloaderUri {
    fn from(location: String) -> (r: Self) {
        Self::FileUri(FileUri(location))
    }
}

impl vstd::std_specs::convert::FromSpecImpl<String> for FileDownloaderUri {
    open spec fn obeys_from_spec() -> bool {
        true
    }

    open spec fn from_spec(location: String) -> Self {
        Self::FileUri(FileUri(location))
    }
}

impl From<FileUri> for FileDownloaderUri {
    fn from(file_uri: FileUri) -> (r: Self) {
        Self::FileUri(file_uri)
    }
}

impl vstd::std_specs::convert::FromSpecImpl<FileUri> for FileDownloaderUri {
    open spec fn obeys_from_spec() -> bool {
        true
    }

    open spec fn from_spec(file_uri: FileUri) -> Self {
        Self::FileUri(file_uri)
    }
}

} // verus!
