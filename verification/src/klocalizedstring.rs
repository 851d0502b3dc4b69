//! Localized strings and the process-wide settings of the library.
use vstd::prelude::*;
use vstd::slice::slice_to_vec;

verus! {

use crate::bridge::Bridge;
use crate::call::{optional_bytes, NativeCall, NativeCallView};

/// A localized string: a value, not an object on the native heap. It records
/// where its translation is looked for.
#[derive(Debug, PartialEq, Eq)]
pub struct KLocalizedString {
    domain: Option<Vec<u8>>,
    languages: Option<Vec<String>>,
}

/// A [`KLocalizedString`] as a mathematical value.
pub struct KLocalizedStringView {
    /// The domain in which the translation is looked for, if one was given.
    pub domain: Option<Seq<u8>>,
    /// The languages in which the translation is looked for, if any were
    /// given.
    pub languages: Option<Seq<Seq<char>>>,
}

impl View for KLocalizedString {
    type V = KLocalizedStringView;

    closed spec fn view(&self) -> KLocalizedStringView {
        KLocalizedStringView {
            domain: optional_bytes(self.domain),
            languages: self.languages.deep_view(),
        }
    }
}

impl Default for KLocalizedString {
    /// A localized string that is looked for in the application domain and
    /// in the languages of the process.
    fn default() -> (string: KLocalizedString)
        ensures
            string@ == (KLocalizedStringView { domain: None, languages: None }),
    {
        KLocalizedString { domain: None, languages: None }
    }
}

impl Clone for KLocalizedString {
    /// A copy that is looked for in the same places.
    fn clone(&self) -> (copy: KLocalizedString)
        ensures
            copy@ == self@,
    {
        let domain = match &self.domain {
            Some(domain) => Some(domain.clone()),
            None => None,
        };
        let languages = match &self.languages {
            Some(languages) => Some(languages.clone()),
            None => None,
        };
        KLocalizedString { domain, languages }
    }
}

impl KLocalizedString {
    /// Sets the application domain: the domain in which translations are
    /// looked for where no other is given.
    pub fn set_application_domain(bridge: &mut Bridge, domain: &[u8]) -> (call: NativeCall)
        ensures
            final(bridge)@ == old(bridge)@.set_application_domain(domain@),
            old(bridge)@.wf() ==> final(bridge)@.wf(),
            call@ == (NativeCallView::SetApplicationDomain { domain: domain@ }),
    {
        bridge.set_application_domain(slice_to_vec(domain));
        NativeCall::SetApplicationDomain { domain: slice_to_vec(domain) }
    }

    /// The application domain: the one that was set last, or the empty byte
    /// string if none was.
    pub fn application_domain(bridge: &Bridge) -> (domain: Vec<u8>)
        ensures
            domain@ == bridge@.application_domain,
    {
        bridge.application_domain()
    }

    /// The override languages, in decreasing priority, or `None` where the
    /// languages are those of the locale.
    pub fn languages(bridge: &Bridge) -> (languages: Option<Vec<String>>)
        ensures
            languages.deep_view() == bridge@.languages,
    {
        bridge.languages()
    }

    /// Sets the languages for which translations are made, in decreasing
    /// priority. They override those of the locale.
    pub fn set_languages(bridge: &mut Bridge, languages: &Vec<String>) -> (call: NativeCall)
        ensures
            final(bridge)@ == old(bridge)@.set_languages(Some(languages.deep_view())),
            old(bridge)@.wf() ==> final(bridge)@.wf(),
            call@ == (NativeCallView::SetLanguages { languages: languages.deep_view() }),
    {
        bridge.set_languages(Some(languages.clone()));
        NativeCall::SetLanguages { languages: languages.clone() }
    }

    /// Clears the override languages: the languages are those of the locale
    /// again.
    pub fn clear_languages(bridge: &mut Bridge) -> (call: NativeCall)
        ensures
            final(bridge)@ == old(bridge)@.set_languages(None),
            old(bridge)@.wf() ==> final(bridge)@.wf(),
            call@ == NativeCallView::ClearLanguages,
    {
        bridge.set_languages(None);
        NativeCall::ClearLanguages
    }

    /// Registers `path` as a place where the catalogs of `domain` are looked
    /// for. The bridge keeps no record of it.
    pub fn add_domain_locale_dir(domain: Vec<u8>, path: String) -> (call: NativeCall)
        ensures
            call@ == (NativeCallView::AddDomainLocaleDir { domain: domain@, path: path@ }),
    {
        NativeCall::AddDomainLocaleDir { domain, path }
    }

    /// Asks whether a catalog of the application domain exists for
    /// `language`. The answer is that of the native call.
    pub fn is_application_translated_into(language: String) -> (call: NativeCall)
        ensures
            call@ == (NativeCallView::IsApplicationTranslatedInto { language: language@ }),
    {
        NativeCall::IsApplicationTranslatedInto { language }
    }

    /// Asks for the path of the localized file for `file_path`. The answer
    /// is that of the native call.
    pub fn localized_file_path(file_path: String) -> (call: NativeCall)
        ensures
            call@ == (NativeCallView::LocalizedFilePath { file_path: file_path@ }),
    {
        NativeCall::LocalizedFilePath { file_path }
    }

    /// Asks for `label` without its accelerator marker. The answer is that
    /// of the native call.
    pub fn remove_accelerator_marker(label: String) -> (call: NativeCall)
        ensures
            call@ == (NativeCallView::RemoveAcceleratorMarker { label: label@ }),
    {
        NativeCall::RemoveAcceleratorMarker { label }
    }

    /// Asks for the translated string with its placeholders substituted.
    /// The answer is that of the native call.
    pub fn to_qstring(&self) -> (call: NativeCall)
        ensures
            call@ == (NativeCallView::Finalize {
                within_domain: self@.domain,
                within_languages: self@.languages,
            }),
    {
        let within_domain = match &self.domain {
            Some(domain) => Some(domain.clone()),
            None => None,
        };
        let within_languages = match &self.languages {
            Some(languages) => Some(languages.clone()),
            None => None,
        };
        NativeCall::Finalize { within_domain, within_languages }
    }

    /// The same string, looked for in `domain`.
    pub fn with_domain(&self, domain: &[u8]) -> (string: KLocalizedString)
        ensures
            string@ == (KLocalizedStringView {
                domain: Some(domain@),
                languages: self@.languages,
            }),
    {
        let languages = match &self.languages {
            Some(languages) => Some(languages.clone()),
            None => None,
        };
        KLocalizedString { domain: Some(slice_to_vec(domain)), languages }
    }

    /// The same string, looked for in `languages` only.
    pub fn with_languages(&self, languages: &Vec<String>) -> (string: KLocalizedString)
        ensures
            string@ == (KLocalizedStringView {
                domain: self@.domain,
                languages: Some(languages.deep_view()),
            }),
    {
        let domain = match &self.domain {
            Some(domain) => Some(domain.clone()),
            None => None,
        };
        KLocalizedString { domain, languages: Some(languages.clone()) }
    }
}

} // verus!
