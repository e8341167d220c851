//! C type information: what is known of each named type and prototype, and
//! the databases that hold it.

pub mod config;
pub mod db;
pub mod info;
pub mod laws;
pub mod load;
pub mod places;
pub mod property;
pub mod resolve;
pub mod table;
pub mod table_laws;
pub mod text_laws;
pub mod type_laws;

pub use self::config::TypeDBConfig;
pub use self::db::{TypeDB, TypeDBIter, TypeDBKeys, TypeDBValues, TypeInfoDB, TypeInfoDBInner};
pub use self::info::{Arg, Enum, Field, Prototype, Struct, TypeDef, TypeInfo, Union};
pub use self::load::{Error, FileError, LoadEvent, LoadRequest, LoadStep, TypeError};
pub use self::places::TypeRef;
pub use self::property::{Property, PropertyParseError};
