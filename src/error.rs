use vstd::prelude::*;

verus! {

/// An error that carries only a message.
#[derive(Debug)]
pub struct StringError {
    msg: String,
}

impl View for StringError {
    type V = Seq<char>;

    closed spec fn view(&self) -> Seq<char> {
        self.msg@
    }
}

impl StringError {
    /// Makes an error with the message `msg`.
    pub fn new(msg: &str) -> (r: StringError)
        ensures
            r@ == msg@,
    {
        StringError { msg: String::from_str(msg) }
    }

    /// Returns the message of the error.
    pub fn message(&self) -> (r: String)
        ensures
            r@ == self@,
    {
        self.msg.clone()
    }
}

/// An error that can occur while retrieving font data.
///
/// The messages of the outside failures (transport, decoding, file system)
/// are kept as text.
#[derive(Debug)]
pub enum FontError {
    /// A transport or HTTP failure while fetching the manifest or the file.
    Network(String),
    /// The manifest body did not decode as a file list.
    Deserialize(String),
    /// The platform supplies no cache directory.
    CacheDir(StringError),
    /// A file-system failure on the cache directory or the cache file.
    CacheFile(String),
    /// The manifest lists fewer files than the font's position in its family
    /// requires: the catalog and the remote data disagree.
    Index { position: usize, available: usize },
}

/// The mathematical value of a [`FontError`].
pub enum ErrorView {
    Network(Seq<char>),
    Deserialize(Seq<char>),
    CacheDir(Seq<char>),
    CacheFile(Seq<char>),
    Index(int, int),
}

impl View for FontError {
    type V = ErrorView;

    open spec fn view(&self) -> ErrorView {
        match self {
            FontError::Network(m) => ErrorView::Network(m@),
            FontError::Deserialize(m) => ErrorView::Deserialize(m@),
            FontError::CacheDir(e) => ErrorView::CacheDir(e@),
            FontError::CacheFile(m) => ErrorView::CacheFile(m@),
            FontError::Index { position, available } => ErrorView::Index(
                *position as int,
                *available as int,
            ),
        }
    }
}

} // verus!
