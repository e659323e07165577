//! The ways in which embedding a resource can fail.
use vstd::prelude::*;

verus! {

/// A target description that no supported platform answers to.
#[derive(Clone, Copy, Debug, PartialEq, Eq, Structural)]
pub enum ConfigurationError {
    /// The operating system is not one of the supported ones.
    UnsupportedOs,
    /// The architecture is not one of the supported ones.
    UnsupportedArchitecture,
    /// The endianness is neither `little` nor `big`.
    UnsupportedEndianness,
    /// Each descriptor is supported, but the object format of the operating
    /// system cannot be written for the architecture.
    UnsupportedCombination,
}

/// Why a resource could not be embedded. Every failure is fatal: no step of
/// a build that fails is handed out.
#[derive(Clone, Debug, PartialEq, Eq)]
pub enum EmbedError {
    /// The target cannot be built for.
    Configuration(ConfigurationError),
    /// The object file or the archive could not be written: the resource is
    /// too large for what the platform keeps it in.
    Io,
    /// The entry at this path is neither a plain file nor a directory.
    UnsupportedEntryType(String),
    /// The indexing tool failed; this is what it wrote to its error stream.
    ExternalTool(String),
}

/// An [`EmbedError`] with its texts as sequences of characters.
pub enum EmbedErrorView {
    Configuration(ConfigurationError),
    Io,
    UnsupportedEntryType(Seq<char>),
    ExternalTool(Seq<char>),
}

impl View for EmbedError {
    type V = EmbedErrorView;

    open spec fn view(&self) -> EmbedErrorView {
        match self {
            EmbedError::Configuration(error) => EmbedErrorView::Configuration(*error),
            EmbedError::Io => EmbedErrorView::Io,
            EmbedError::UnsupportedEntryType(path) => EmbedErrorView::UnsupportedEntryType(path@),
            EmbedError::ExternalTool(stderr) => EmbedErrorView::ExternalTool(stderr@),
        }
    }
}

impl EmbedError {
    /// A line of text that says what went wrong.
    pub fn message(&self) -> (text: String)
        ensures
            text@ == self.message_text(),
    {
        match self {
            EmbedError::Configuration(error) => error.message(),
            EmbedError::Io => String::from_str(
                "the resource is too large for an object file and archive of the target",
            ),
            EmbedError::UnsupportedEntryType(path) => String::from_str(
                "cannot handle the file type of ",
            ).concat(path.as_str()),
            EmbedError::ExternalTool(stderr) => String::from_str(
                "the archive could not be indexed: ",
            ).concat(stderr.as_str()),
        }
    }

    /// The text of [`EmbedError::message`].
    pub open spec fn message_text(&self) -> Seq<char> {
        match self {
            EmbedError::Configuration(error) => error.message_text(),
            EmbedError::Io => {
                "the resource is too large for an object file and archive of the target"@
            },
            EmbedError::UnsupportedEntryType(path) => "cannot handle the file type of "@ + path@,
            EmbedError::ExternalTool(stderr) => "the archive could not be indexed: "@ + stderr@,
        }
    }
}

impl ConfigurationError {
    /// A line of text that says what is not supported.
    pub fn message(&self) -> (text: String)
        ensures
            text@ == self.message_text(),
    {
        match self {
            ConfigurationError::UnsupportedOs => String::from_str("unsupported operating system"),
            ConfigurationError::UnsupportedArchitecture => String::from_str(
                "unsupported architecture",
            ),
            ConfigurationError::UnsupportedEndianness => String::from_str("unsupported endianness"),
            ConfigurationError::UnsupportedCombination => String::from_str(
                "the object format cannot be written for the architecture",
            ),
        }
    }

    /// The text of [`ConfigurationError::message`].
    pub open spec fn message_text(&self) -> Seq<char> {
        match self {
            ConfigurationError::UnsupportedOs => "unsupported operating system"@,
            ConfigurationError::UnsupportedArchitecture => "unsupported architecture"@,
            ConfigurationError::UnsupportedEndianness => "unsupported endianness"@,
            ConfigurationError::UnsupportedCombination => {
                "the object format cannot be written for the architecture"@
            },
        }
    }
}

} // verus!
