//! Handles of `KLocalizedTranslator` objects.
use vstd::prelude::*;

verus! {

use crate::bridge::{Bridge, BridgeView};
use crate::call::{Kind, NativeCall, NativeCallView};

/// A handle of a native `KLocalizedTranslator`, which retranslates the
/// strings of the UI contexts that it monitors.
///
/// A translator is always the child of a native parent, which owns it: the
/// handle does not keep it alive, and cannot be copied.
pub struct KLocalizedTranslator {
    object: usize,
}

impl KLocalizedTranslator {
    #[verifier::type_invariant]
    spec fn nonzero(&self) -> bool {
        self.object != 0
    }

    /// The identifier of the object that the handle refers to.
    pub closed spec fn id(&self) -> int {
        self.object as int
    }

    /// Whether the handle refers to a live translator of the bridge `b`.
    pub open spec fn valid(&self, b: BridgeView) -> bool {
        b.holds(self.id(), Kind::Translator)
    }

    /// Makes a translator as a child of the native object `parent`.
    pub fn new(bridge: &mut Bridge, parent: usize) -> (made: (KLocalizedTranslator, NativeCall))
        requires
            old(bridge)@.objects.len() < usize::MAX,
        ensures
            final(bridge)@ == old(bridge)@.create(Kind::Translator, Some(parent)),
            old(bridge)@.wf() ==> final(bridge)@.wf(),
            made.0.id() == old(bridge)@.next_id(),
            made.1@ == (NativeCallView::Construct {
                kind: Kind::Translator,
                object: old(bridge)@.next_id() as usize,
                parent: Some(parent),
            }),
    {
        let object = bridge.create(Kind::Translator, Some(parent));
        (
            KLocalizedTranslator { object },
            NativeCall::Construct { kind: Kind::Translator, object, parent: Some(parent) },
        )
    }

    /// Whether the handle refers to a live translator of `bridge`.
    pub fn is_valid(&self, bridge: &Bridge) -> (valid: bool)
        ensures
            valid == self.valid(bridge@),
    {
        bridge.holds(self.object, Kind::Translator)
    }

    /// Adds a UI context for which the translator should be active. The
    /// bridge keeps no record of the monitored contexts.
    pub fn add_context_to_monitor(&mut self, bridge: &Bridge, context: String) -> (call:
        NativeCall)
        requires
            old(self).valid(bridge@),
        ensures
            final(self).id() == old(self).id(),
            call@ == (NativeCallView::AddContextToMonitor {
                object: old(self).id() as usize,
                context: context@,
            }),
    {
        NativeCall::AddContextToMonitor { object: self.object, context }
    }

    /// Stops the translator from translating for a UI context.
    pub fn remove_context_to_moitor(&mut self, bridge: &Bridge, context: String) -> (call:
        NativeCall)
        requires
            old(self).valid(bridge@),
        ensures
            final(self).id() == old(self).id(),
            call@ == (NativeCallView::RemoveContextToMonitor {
                object: old(self).id() as usize,
                context: context@,
            }),
    {
        NativeCall::RemoveContextToMonitor { object: self.object, context }
    }

    /// Sets the translation domain of the translator.
    pub fn set_translation_domain(
        &mut self,
        bridge: &mut Bridge,
        translation_domain: String,
    ) -> (call: NativeCall)
        requires
            old(self).valid(old(bridge)@),
        ensures
            final(self).id() == old(self).id(),
            final(bridge)@ == old(bridge)@.set_translation_domain(
                old(self).id(),
                translation_domain@,
            ),
            old(bridge)@.wf() ==> final(bridge)@.wf(),
            call@ == (NativeCallView::SetTranslationDomain {
                object: old(self).id() as usize,
                translation_domain: translation_domain@,
            }),
    {
        bridge.set_translation_domain(self.object, translation_domain.clone());
        NativeCall::SetTranslationDomain { object: self.object, translation_domain }
    }

    /// The translation domain of the translator: the one that was set last,
    /// or the empty string if none was.
    pub fn translation_domain(&self, bridge: &Bridge) -> (domain: String)
        requires
            self.valid(bridge@),
        ensures
            domain@ == bridge@.object(self.id()).domain,
    {
        bridge.translation_domain(self.object)
    }
}

} // verus!
