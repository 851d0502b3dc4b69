//! Verified bookkeeping for KI18n bindings.
//!
//! KI18n is the internationalization framework of KDE. Its classes live on the
//! native side of a language boundary; Rust code holds them through opaque
//! handles. This crate is the part of such a binding that can be reasoned
//! about: which native objects exist, who keeps each of them alive, what the
//! translation domains and override languages currently are, and which native
//! call every operation forwards.
//!
//! A [`bridge::Bridge`] is the single owner of that record. Every operation
//! takes the bridge, updates the record and hands back the
//! [`call::NativeCall`] that the caller has to carry out on the native side.
//! As long as all writes go through one bridge, the record and the native
//! state agree, so the getters answer from the record.
pub mod bridge;
pub mod call;
pub mod klocalizedcontext;
pub mod klocalizedstring;
pub mod klocalizedtranslator;
pub mod prelude;
