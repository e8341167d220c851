//! Calling conventions, and where values are when a function is called.

pub mod builder;
pub mod convention;
pub mod disassembly;
pub mod laws;
pub mod lift;
pub mod loaded;
pub mod prototype;
pub mod translator;
pub mod value_laws;

pub use self::builder::LifterBuilderError;
pub use self::disassembly::LifterError;
pub use self::lift::{Endian, Lifter};
pub use self::loaded::LoadedTranslators;
pub use self::prototype::{DefaultPrototype, Operand, PrototypeResolver};
pub use self::translator::{FloatKind, Translator, TranslatorExt};
