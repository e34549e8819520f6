//! Target "triple" support: parsing, formatting and querying the
//! architecture / vendor / operating-system / environment / binary-format
//! identifiers used by cross-compilation tooling.

pub mod data_model;
pub mod default_to_host;
pub mod host;
pub mod strutil;
pub mod targets;
pub mod triple;

pub use data_model::CDataModel;
pub use data_model::Size;
pub use default_to_host::DefaultToHost;
pub use host::host_from_facts;
pub use targets::Aarch64Architecture;
pub use targets::Architecture;
pub use targets::ArmArchitecture;
pub use targets::BinaryFormat;
pub use targets::Environment;
pub use targets::OperatingSystem;
pub use targets::Vendor;
pub use targets::default_binary_format;
pub use triple::Category;
pub use triple::Endianness;
pub use triple::ParseError;
pub use triple::PointerWidth;
pub use triple::Triple;
