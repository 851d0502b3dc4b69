//! The native calls that the bridge asks its caller to carry out.
use vstd::prelude::*;

verus! {

/// The native classes that live on the heap behind a handle.
#[derive(Clone, Copy, Debug, PartialEq, Eq, Structural)]
pub enum Kind {
    /// `KLocalizedContext`: exposes the translation functions to QML.
    Context,
    /// `KLocalizedTranslator`: retranslates dynamically built UI trees.
    Translator,
}

/// One call into the native library, with its arguments already copied out of
/// the caller's values.
///
/// Objects are named by the identifier under which the bridge records them;
/// parents and engines by the token that the caller obtained for them.
#[derive(Debug, PartialEq, Eq)]
pub enum NativeCall {
    /// Allocate an object of class `kind` for the record `object`, as a child
    /// of `parent` if there is one.
    Construct { kind: Kind, object: usize, parent: Option<usize> },
    /// Allocate a `KLocalizedContext` for the record `object` as a child of
    /// `engine`, and register it as the context object of the engine's root
    /// context.
    InstallContext { object: usize, engine: usize },
    /// Free the object recorded as `object`.
    Destroy { object: usize },
    /// `setTranslationDomain` on the object recorded as `object`.
    SetTranslationDomain { object: usize, translation_domain: String },
    /// `KLocalizedTranslator::addContextToMonitor`.
    AddContextToMonitor { object: usize, context: String },
    /// `KLocalizedTranslator::removeContextToMonitor`.
    RemoveContextToMonitor { object: usize, context: String },
    /// `KLocalizedString::setApplicationDomain`.
    SetApplicationDomain { domain: Vec<u8> },
    /// `KLocalizedString::setLanguages`.
    SetLanguages { languages: Vec<String> },
    /// `KLocalizedString::clearLanguages`.
    ClearLanguages,
    /// `KLocalizedString::addDomainLocaleDir`.
    AddDomainLocaleDir { domain: Vec<u8>, path: String },
    /// `KLocalizedString::isApplicationTranslatedInto`.
    IsApplicationTranslatedInto { language: String },
    /// `KLocalizedString::localizedFilePath`.
    LocalizedFilePath { file_path: String },
    /// `KLocalizedString::removeAcceleratorMarker`.
    RemoveAcceleratorMarker { label: String },
    /// `toString` on a localized string that looks for its translation in
    /// `within_domain` and `within_languages`, where either is set.
    Finalize { within_domain: Option<Vec<u8>>, within_languages: Option<Vec<String>> },
}

/// What a [`NativeCall`] says, with strings and byte strings as sequences.
#[verifier::ext_equal]
pub enum NativeCallView {
    Construct { kind: Kind, object: usize, parent: Option<usize> },
    InstallContext { object: usize, engine: usize },
    Destroy { object: usize },
    SetTranslationDomain { object: usize, translation_domain: Seq<char> },
    AddContextToMonitor { object: usize, context: Seq<char> },
    RemoveContextToMonitor { object: usize, context: Seq<char> },
    SetApplicationDomain { domain: Seq<u8> },
    SetLanguages { languages: Seq<Seq<char>> },
    ClearLanguages,
    AddDomainLocaleDir { domain: Seq<u8>, path: Seq<char> },
    IsApplicationTranslatedInto { language: Seq<char> },
    LocalizedFilePath { file_path: Seq<char> },
    RemoveAcceleratorMarker { label: Seq<char> },
    Finalize { within_domain: Option<Seq<u8>>, within_languages: Option<Seq<Seq<char>>> },
}

impl View for NativeCall {
    type V = NativeCallView;

    open spec fn view(&self) -> NativeCallView {
        match *self {
            NativeCall::Construct { kind, object, parent } => NativeCallView::Construct {
                kind,
                object,
                parent,
            },
            NativeCall::InstallContext { object, engine } => NativeCallView::InstallContext {
                object,
                engine,
            },
            NativeCall::Destroy { object } => NativeCallView::Destroy { object },
            NativeCall::SetTranslationDomain { object, translation_domain } => {
                NativeCallView::SetTranslationDomain {
                    object,
                    translation_domain: translation_domain@,
                }
            },
            NativeCall::AddContextToMonitor { object, context } => {
                NativeCallView::AddContextToMonitor { object, context: context@ }
            },
            NativeCall::RemoveContextToMonitor { object, context } => {
                NativeCallView::RemoveContextToMonitor { object, context: context@ }
            },
            NativeCall::SetApplicationDomain { domain } => NativeCallView::SetApplicationDomain {
                domain: domain@,
            },
            NativeCall::SetLanguages { languages } => NativeCallView::SetLanguages {
                languages: languages.deep_view(),
            },
            NativeCall::ClearLanguages => NativeCallView::ClearLanguages,
            NativeCall::AddDomainLocaleDir { domain, path } => NativeCallView::AddDomainLocaleDir {
                domain: domain@,
                path: path@,
            },
            NativeCall::IsApplicationTranslatedInto { language } => {
                NativeCallView::IsApplicationTranslatedInto { language: language@ }
            },
            NativeCall::LocalizedFilePath { file_path } => NativeCallView::LocalizedFilePath {
                file_path: file_path@,
            },
            NativeCall::RemoveAcceleratorMarker { label } => {
                NativeCallView::RemoveAcceleratorMarker { label: label@ }
            },
            NativeCall::Finalize { within_domain, within_languages } => NativeCallView::Finalize {
                within_domain: optional_bytes(within_domain),
                within_languages: within_languages.deep_view(),
            },
        }
    }
}

/// The bytes of an optional byte string.
pub open spec fn optional_bytes(bytes: Option<Vec<u8>>) -> Option<Seq<u8>> {
    match bytes {
        Some(bytes) => Some(bytes@),
        None => None,
    }
}

} // verus!
