//! Types, variables and address spaces.

pub mod address;
pub mod laws;
pub mod space;
pub mod term;
pub mod types;
pub mod var;

pub use self::address::Address;
pub use self::space::{AddressSpace, AddressSpaceId, AddressValue, SpaceManager};
pub use self::term::Term;
pub use self::types::Type;
pub use self::var::{Var, VarView};
