//! Embedding of large binary resources without the compile-time cost of
//! turning them into source text.
//!
//! A resource is embedded in two stages that never talk to each other. Before
//! compilation, [`make_includable`] turns each resource file into an object
//! file with one data symbol, wrapped in a static archive, and says which
//! directives the linker is to be given. Where the resource is used,
//! [`embed_reference`] computes the same symbol again and describes a
//! reference to it, which the linker resolves against the archive.
//!
//! The library reads and writes no file and starts no program. It takes what
//! was read as plain values and answers with what is to be done.

pub mod archive;
pub mod error;
pub mod naming;
pub mod object_file;
pub mod preprocess;
pub mod reference;
pub mod target;

pub use archive::indexing_outcome;
pub use archive::write_archive;
pub use error::ConfigurationError;
pub use error::EmbedError;
pub use naming::format_symbol;
pub use naming::symbol_name;
pub use object_file::synthesize_object;
pub use object_file::ObjectArtifact;
pub use preprocess::make_includable;
pub use preprocess::plan_archive;
pub use preprocess::process_file;
pub use preprocess::BuildStep;
pub use preprocess::Entry;
pub use preprocess::LinkDirective;
pub use preprocess::ResourceFile;
pub use reference::embed_reference;
pub use reference::EmbedReference;
pub use reference::EntryKind;
pub use target::ArchiveKind;
pub use target::ByteOrder;
pub use target::CpuArchitecture;
pub use target::LibraryNaming;
pub use target::ObjectFormat;
pub use target::TargetDescriptor;
pub use target::TargetInfo;
