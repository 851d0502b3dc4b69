//! Handles of `KLocalizedContext` objects.
use vstd::prelude::*;

verus! {

use crate::bridge::{Bridge, BridgeView};
use crate::call::{Kind, NativeCall, NativeCallView};

/// A handle of a native `KLocalizedContext`, the object that exposes the
/// translation functions to QML.
///
/// The handle is a fixed-size token. It shows nothing of the native object
/// but the identifier that [`KLocalizedContext::cpp_ptr`] returns, and it is
/// made by the three constructors only. Whether it is still valid is a
/// question to the bridge that made it.
pub struct KLocalizedContext {
    object: usize,
}

impl KLocalizedContext {
    #[verifier::type_invariant]
    spec fn nonzero(&self) -> bool {
        self.object != 0
    }

    /// The identifier of the object that the handle refers to.
    pub closed spec fn id(&self) -> int {
        self.object as int
    }

    /// Whether the handle refers to a live context of the bridge `b`.
    pub open spec fn valid(&self, b: BridgeView) -> bool {
        b.holds(self.id(), Kind::Context)
    }

    /// Makes a context without a parent. Its handles are counted, and this is
    /// the first of them.
    pub fn create_default(bridge: &mut Bridge) -> (made: (KLocalizedContext, NativeCall))
        requires
            old(bridge)@.objects.len() < usize::MAX,
        ensures
            final(bridge)@ == old(bridge)@.create(Kind::Context, None),
            old(bridge)@.wf() ==> final(bridge)@.wf(),
            made.0.id() == old(bridge)@.next_id(),
            made.1@ == (NativeCallView::Construct {
                kind: Kind::Context,
                object: old(bridge)@.next_id() as usize,
                parent: None,
            }),
    {
        let object = bridge.create(Kind::Context, None);
        (
            KLocalizedContext { object },
            NativeCall::Construct { kind: Kind::Context, object, parent: None },
        )
    }

    /// Makes a context as a child of the native object `parent`, which owns
    /// it from then on: the handle does not keep the context alive.
    pub fn new(bridge: &mut Bridge, parent: usize) -> (made: (KLocalizedContext, NativeCall))
        requires
            old(bridge)@.objects.len() < usize::MAX,
        ensures
            final(bridge)@ == old(bridge)@.create(Kind::Context, Some(parent)),
            old(bridge)@.wf() ==> final(bridge)@.wf(),
            made.0.id() == old(bridge)@.next_id(),
            made.1@ == (NativeCallView::Construct {
                kind: Kind::Context,
                object: old(bridge)@.next_id() as usize,
                parent: Some(parent),
            }),
    {
        let object = bridge.create(Kind::Context, Some(parent));
        (
            KLocalizedContext { object },
            NativeCall::Construct { kind: Kind::Context, object, parent: Some(parent) },
        )
    }

    /// Makes a context as a child of the QML engine `engine` and has it
    /// registered as the context object of the engine's root context. The
    /// engine owns the context: the handle does not keep it alive.
    pub fn init_from_engine(bridge: &mut Bridge, engine: usize) -> (made: (
        KLocalizedContext,
        NativeCall,
    ))
        requires
            old(bridge)@.objects.len() < usize::MAX,
        ensures
            final(bridge)@ == old(bridge)@.create(Kind::Context, Some(engine)),
            old(bridge)@.wf() ==> final(bridge)@.wf(),
            made.0.id() == old(bridge)@.next_id(),
            made.1@ == (NativeCallView::InstallContext {
                object: old(bridge)@.next_id() as usize,
                engine,
            }),
    {
        let object = bridge.create(Kind::Context, Some(engine));
        (KLocalizedContext { object }, NativeCall::InstallContext { object, engine })
    }

    /// The identifier that stands for the address of the native object. It
    /// is never zero, and the caller must not use it for longer than the
    /// handle is valid.
    pub fn cpp_ptr(&self) -> (ptr: usize)
        ensures
            ptr == self.id(),
            ptr != 0,
    {
        proof {
            use_type_invariant(self);
        }
        self.object
    }

    /// Whether the handle refers to a live context of `bridge`.
    pub fn is_valid(&self, bridge: &Bridge) -> (valid: bool)
        ensures
            valid == self.valid(bridge@),
    {
        bridge.holds(self.object, Kind::Context)
    }

    /// Sets the translation domain of the context.
    pub fn set_translation_domain(&mut self, bridge: &mut Bridge, domain: String) -> (call:
        NativeCall)
        requires
            old(self).valid(old(bridge)@),
        ensures
            final(self).id() == old(self).id(),
            final(bridge)@ == old(bridge)@.set_translation_domain(old(self).id(), domain@),
            old(bridge)@.wf() ==> final(bridge)@.wf(),
            call@ == (NativeCallView::SetTranslationDomain {
                object: old(self).id() as usize,
                translation_domain: domain@,
            }),
    {
        bridge.set_translation_domain(self.object, domain.clone());
        NativeCall::SetTranslationDomain { object: self.object, translation_domain: domain }
    }

    /// The translation domain of the context: the one that was set last, or
    /// the empty string if none was.
    pub fn translation_domain(&self, bridge: &Bridge) -> (domain: String)
        requires
            self.valid(bridge@),
        ensures
            domain@ == bridge@.object(self.id()).domain,
    {
        bridge.translation_domain(self.object)
    }

    /// Makes another handle of the same context. Where the handles of the
    /// context are counted, the copy counts as one more.
    pub fn copy(&self, bridge: &mut Bridge) -> (copy: KLocalizedContext)
        requires
            self.valid(old(bridge)@),
            old(bridge)@.handles(self.id()) < usize::MAX,
        ensures
            copy.id() == self.id(),
            final(bridge)@ == old(bridge)@.retain(self.id()),
            old(bridge)@.wf() ==> final(bridge)@.wf(),
    {
        proof {
            use_type_invariant(self);
        }
        bridge.retain(self.object);
        KLocalizedContext { object: self.object }
    }

    /// Gives the handle up. Where the handles of the context are counted and
    /// this was the last of them, the context is released, and the call that
    /// frees it is returned.
    pub fn release(self, bridge: &mut Bridge) -> (call: Option<NativeCall>)
        requires
            old(bridge)@.wf(),
            self.valid(old(bridge)@),
        ensures
            final(bridge)@ == old(bridge)@.release(self.id()),
            final(bridge)@.wf(),
            call is Some <==> old(bridge)@.object(self.id()).last_handle(),
            call matches Some(destroy) ==> destroy@ == (NativeCallView::Destroy {
                object: self.id() as usize,
            }),
    {
        if bridge.release(self.object) {
            Some(NativeCall::Destroy { object: self.object })
        } else {
            None
        }
    }
}

} // verus!
