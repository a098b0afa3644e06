//! Relays for a structured decode: each holds one backend object, receiver
//! or seed, and each hand-off step re-wraps the nested handle it passes on.
pub mod de;

pub use de::{
    relay_variant, DeserializeSeed, Deserializer, EnumAccess, MapAccess, SeqAccess, VariantAccess,
    Visitor,
};
