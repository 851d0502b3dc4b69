//! The types that most users of the crate need.
pub use crate::bridge::Bridge;
pub use crate::call::NativeCall;
pub use crate::klocalizedcontext::KLocalizedContext;
pub use crate::klocalizedstring::KLocalizedString;
