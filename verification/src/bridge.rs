//! The record of native objects and process-wide settings.
//!
//! Every native object is owned in exactly one of two ways. An object made
//! without a parent is kept alive by its handles, which are counted: it is
//! freed when the last of them is released. An object made as the child of a
//! native parent is kept alive by that parent: its handles do not count, and
//! become invalid when the parent is destroyed. In either case an object is
//! released once, and a released record is never used again.
use vstd::prelude::*;

verus! {

use crate::call::Kind;

/// Who keeps a native object alive.
pub enum Lifetime {
    /// The object lives as long as one of its `handles` handles does.
    Shared { handles: nat },
    /// The object lives as long as the native object `parent` does.
    Parented { parent: usize },
    /// The object has been freed.
    Released,
}

/// What the bridge records of one native object.
pub struct ObjectView {
    pub kind: Kind,
    pub lifetime: Lifetime,
    pub domain: Seq<char>,
}

/// The bridge as a mathematical value: the process-wide settings and the
/// objects in the order in which they were made. The object with the
/// identifier `id` is `objects[id - 1]`; no identifier is zero.
#[verifier::ext_equal]
pub struct BridgeView {
    pub application_domain: Seq<u8>,
    pub languages: Option<Seq<Seq<char>>>,
    pub objects: Seq<ObjectView>,
}

impl ObjectView {
    /// An object whose handles are counted has at least one: when the last
    /// one goes, the object is freed.
    pub open spec fn wf(self) -> bool {
        self.lifetime != (Lifetime::Shared { handles: 0 })
    }

    /// The same object with another lifetime.
    pub open spec fn with_lifetime(self, lifetime: Lifetime) -> ObjectView {
        ObjectView { kind: self.kind, lifetime, domain: self.domain }
    }

    /// The same object with another translation domain.
    pub open spec fn with_domain(self, domain: Seq<char>) -> ObjectView {
        ObjectView { kind: self.kind, lifetime: self.lifetime, domain }
    }

    /// The object after one more handle was made for it. Handles of an object
    /// that a parent owns are not counted.
    pub open spec fn retained(self) -> ObjectView {
        match self.lifetime {
            Lifetime::Shared { handles } => self.with_lifetime(
                Lifetime::Shared { handles: handles + 1 },
            ),
            _ => self,
        }
    }

    /// Whether giving up one handle frees the object.
    pub open spec fn last_handle(self) -> bool {
        self.lifetime == (Lifetime::Shared { handles: 1 })
    }

    /// The object after one of its handles was given up.
    pub open spec fn dropped(self) -> ObjectView {
        match self.lifetime {
            Lifetime::Shared { handles } => if handles == 1 {
                self.with_lifetime(Lifetime::Released)
            } else {
                self.with_lifetime(Lifetime::Shared { handles: (handles - 1) as nat })
            },
            _ => self,
        }
    }

    /// The object after the native object `parent` was destroyed.
    pub open spec fn orphaned(self, parent: usize) -> ObjectView {
        if self.lifetime == (Lifetime::Parented { parent }) {
            self.with_lifetime(Lifetime::Released)
        } else {
            self
        }
    }
}

impl BridgeView {
    /// The bridge before anything was done through it.
    pub open spec fn empty() -> BridgeView {
        BridgeView { application_domain: Seq::empty(), languages: None, objects: Seq::empty() }
    }

    /// Every record is well formed.
    pub open spec fn wf(self) -> bool {
        forall|i: int| 0 <= i < self.objects.len() ==> (#[trigger] self.objects[i]).wf()
    }

    /// Whether `id` names a record.
    pub open spec fn has(self, id: int) -> bool {
        1 <= id <= self.objects.len()
    }

    /// The record named `id`.
    pub open spec fn object(self, id: int) -> ObjectView
        recommends
            self.has(id),
    {
        self.objects[id - 1]
    }

    /// Whether `id` names an object that has not been freed.
    pub open spec fn is_live(self, id: int) -> bool {
        self.has(id) && self.object(id).lifetime != Lifetime::Released
    }

    /// Whether `id` names a live object of class `kind`.
    pub open spec fn holds(self, id: int, kind: Kind) -> bool {
        self.is_live(id) && self.object(id).kind == kind
    }

    /// The number of handles that keep `id` alive: zero for an object that a
    /// parent owns, for a freed one and for an unknown identifier.
    pub open spec fn handles(self, id: int) -> nat {
        if self.has(id) {
            match self.object(id).lifetime {
                Lifetime::Shared { handles } => handles,
                _ => 0,
            }
        } else {
            0
        }
    }

    /// The identifier that the next object gets.
    pub open spec fn next_id(self) -> int {
        (self.objects.len() + 1) as int
    }

    /// The bridge with the record named `id` replaced.
    pub open spec fn with_object(self, id: int, object: ObjectView) -> BridgeView
        recommends
            self.has(id),
    {
        BridgeView {
            application_domain: self.application_domain,
            languages: self.languages,
            objects: self.objects.update(id - 1, object),
        }
    }

    /// The bridge after a new object of class `kind` was made. It has the
    /// identifier `next_id()` and no translation domain. With a parent, the
    /// parent owns it; without, it is counted and has one handle.
    pub open spec fn create(self, kind: Kind, parent: Option<usize>) -> BridgeView {
        BridgeView {
            application_domain: self.application_domain,
            languages: self.languages,
            objects: self.objects.push(
                ObjectView {
                    kind,
                    lifetime: match parent {
                        Some(parent) => Lifetime::Parented { parent },
                        None => Lifetime::Shared { handles: 1 },
                    },
                    domain: Seq::empty(),
                },
            ),
        }
    }

    /// The bridge after a handle of `id` was copied.
    pub open spec fn retain(self, id: int) -> BridgeView
        recommends
            self.has(id),
    {
        self.with_object(id, self.object(id).retained())
    }

    /// The bridge after a handle of `id` was given up.
    pub open spec fn release(self, id: int) -> BridgeView
        recommends
            self.has(id),
    {
        self.with_object(id, self.object(id).dropped())
    }

    /// The bridge after the native object `parent` was destroyed: all the
    /// objects that it owned are freed with it.
    pub open spec fn parent_destroyed(self, parent: usize) -> BridgeView {
        BridgeView {
            application_domain: self.application_domain,
            languages: self.languages,
            objects: Seq::new(self.objects.len(), |i: int| self.objects[i].orphaned(parent)),
        }
    }

    /// The bridge after the translation domain of `id` was set.
    pub open spec fn set_translation_domain(self, id: int, domain: Seq<char>) -> BridgeView
        recommends
            self.has(id),
    {
        self.with_object(id, self.object(id).with_domain(domain))
    }

    /// The bridge after the application domain was set.
    pub open spec fn set_application_domain(self, domain: Seq<u8>) -> BridgeView {
        BridgeView {
            application_domain: domain,
            languages: self.languages,
            objects: self.objects,
        }
    }

    /// The bridge after the override languages were set or, with `None`,
    /// cleared.
    pub open spec fn set_languages(self, languages: Option<Seq<Seq<char>>>) -> BridgeView {
        BridgeView {
            application_domain: self.application_domain,
            languages,
            objects: self.objects,
        }
    }
}

/// Adding an object keeps the bridge well formed.
proof fn lemma_create_keeps_wf(b: BridgeView, kind: Kind, parent: Option<usize>)
    requires
        b.wf(),
    ensures
        b.create(kind, parent).wf(),
{
    let after = b.create(kind, parent);
    assert forall|i: int| 0 <= i < after.objects.len() implies (#[trigger] after.objects[i]).wf() by {
        if i < b.objects.len() {
            assert(after.objects[i] == b.objects[i]);
        }
    }
}

/// Replacing a record by a well-formed one keeps the bridge well formed.
proof fn lemma_with_object_keeps_wf(b: BridgeView, id: int, object: ObjectView)
    requires
        b.wf(),
        b.has(id),
        object.wf(),
    ensures
        b.with_object(id, object).wf(),
{
    let after = b.with_object(id, object);
    assert forall|i: int| 0 <= i < after.objects.len() implies (#[trigger] after.objects[i]).wf() by {
        if i != id - 1 {
            assert(after.objects[i] == b.objects[i]);
        }
    }
}

/// Well-formedness is an invariant: the empty bridge has it, and a bridge
/// that has it keeps it through every operation.
pub proof fn lemma_wf_is_invariant(
    b: BridgeView,
    id: int,
    kind: Kind,
    parent: Option<usize>,
    destroyed: usize,
    domain: Seq<char>,
    application_domain: Seq<u8>,
    languages: Option<Seq<Seq<char>>>,
)
    requires
        b.wf(),
    ensures
        BridgeView::empty().wf(),
        b.create(kind, parent).wf(),
        b.has(id) ==> b.retain(id).wf(),
        b.has(id) ==> b.release(id).wf(),
        b.has(id) ==> b.set_translation_domain(id, domain).wf(),
        b.parent_destroyed(destroyed).wf(),
        b.set_application_domain(application_domain).wf(),
        b.set_languages(languages).wf(),
{
    lemma_create_keeps_wf(b, kind, parent);
    if b.has(id) {
        let object = b.object(id);
        assert(object.wf());
        lemma_with_object_keeps_wf(b, id, object.retained());
        lemma_with_object_keeps_wf(b, id, object.dropped());
        lemma_with_object_keeps_wf(b, id, object.with_domain(domain));
    }
    let after = b.parent_destroyed(destroyed);
    assert forall|i: int| 0 <= i < after.objects.len() implies (#[trigger] after.objects[i]).wf() by {
        assert(b.objects[i].wf());
    }
}

/// The application domain that is read after one was set is exactly the one
/// that was set, whatever bytes it holds, and setting it changes nothing
/// else.
pub proof fn lemma_application_domain_round_trip(b: BridgeView, domain: Seq<u8>)
    ensures
        b.set_application_domain(domain).application_domain == domain,
        b.set_application_domain(domain).languages == b.languages,
        b.set_application_domain(domain).objects == b.objects,
{
}

/// The override languages that are read after some were set are exactly
/// those, in their order; after they were cleared there are none. Neither
/// changes anything else.
pub proof fn lemma_languages_round_trip(b: BridgeView, languages: Option<Seq<Seq<char>>>)
    ensures
        b.set_languages(languages).languages == languages,
        b.set_languages(languages).application_domain == b.application_domain,
        b.set_languages(languages).objects == b.objects,
{
}

/// A new object is live, of the class that was asked for, and has the empty
/// translation domain. With a parent it is owned by that parent; without
/// one it has one handle. Its identifier was not in use, and the objects
/// that were there before are as they were.
pub proof fn lemma_new_object_has_no_domain(
    b: BridgeView,
    kind: Kind,
    parent: Option<usize>,
    other: int,
)
    ensures
        !b.has(b.next_id()),
        b.create(kind, parent).holds(b.next_id(), kind),
        b.create(kind, parent).object(b.next_id()).domain == Seq::<char>::empty(),
        b.create(kind, parent).handles(b.next_id()) == (if parent is None {
            1nat
        } else {
            0nat
        }),
        b.has(other) ==> b.create(kind, parent).object(other) == b.object(other),
{
}

/// The translation domain that is read through a handle after one was set
/// through it is exactly the one that was set, whatever characters it
/// holds. The object is otherwise as it was, and every other object keeps
/// its own domain.
pub proof fn lemma_translation_domain_round_trip(
    b: BridgeView,
    id: int,
    other: int,
    domain: Seq<char>,
)
    requires
        b.has(id),
    ensures
        b.set_translation_domain(id, domain).object(id).domain == domain,
        b.set_translation_domain(id, domain).object(id).lifetime == b.object(id).lifetime,
        b.set_translation_domain(id, domain).object(id).kind == b.object(id).kind,
        b.set_translation_domain(id, domain).objects.len() == b.objects.len(),
        b.has(other) && other != id ==> b.set_translation_domain(id, domain).object(other)
            == b.object(other),
{
}

/// A copy of a handle keeps the object alive: after a handle was copied,
/// giving one of the two up frees nothing, and leaves the bridge as it was
/// before the copy.
pub proof fn lemma_copy_keeps_object_alive(b: BridgeView, id: int)
    requires
        b.wf(),
        b.is_live(id),
    ensures
        b.retain(id).is_live(id),
        !b.retain(id).object(id).last_handle(),
        b.retain(id).release(id) == b,
{
    assert(b.object(id).wf());
    assert(b.retain(id).release(id).objects =~= b.objects);
}

/// An object whose handles are counted is freed when its last handle is
/// given up, and not before: each release takes one handle off the count,
/// and the object is live thereafter just if a handle is left. Handles of an
/// object that a parent owns free nothing.
pub proof fn lemma_release_frees_with_last_handle(b: BridgeView, id: int)
    requires
        b.wf(),
        b.is_live(id),
    ensures
        b.object(id).last_handle() <==> b.handles(id) == 1,
        b.release(id).is_live(id) <==> !b.object(id).last_handle(),
        b.object(id).lifetime is Shared ==> b.release(id).handles(id) == b.handles(id) - 1,
        b.object(id).lifetime is Parented ==> b.release(id) == b,
{
    assert(b.object(id).wf());
    if b.object(id).lifetime is Parented {
        assert(b.release(id).objects =~= b.objects);
    }
}

/// Destroying a parent frees the objects that it owned and no others.
pub proof fn lemma_parent_destroyed_frees_children(b: BridgeView, parent: usize, id: int)
    requires
        b.has(id),
    ensures
        b.parent_destroyed(parent).has(id),
        b.object(id).lifetime == (Lifetime::Parented { parent }) ==> !b.parent_destroyed(
            parent,
        ).is_live(id),
        b.object(id).lifetime != (Lifetime::Parented { parent }) ==> b.parent_destroyed(
            parent,
        ).object(id) == b.object(id),
{
}

/// An object is freed once: a freed object stays freed through every
/// operation, on itself or on another object, and its identifier is not
/// given to a new object.
pub proof fn lemma_freed_stays_freed(
    b: BridgeView,
    id: int,
    other: int,
    kind: Kind,
    parent: Option<usize>,
    destroyed: usize,
    domain: Seq<char>,
    application_domain: Seq<u8>,
    languages: Option<Seq<Seq<char>>>,
)
    requires
        b.has(id),
        !b.is_live(id),
    ensures
        !b.create(kind, parent).is_live(id),
        b.create(kind, parent).next_id() != id,
        b.has(other) ==> !b.retain(other).is_live(id),
        b.has(other) ==> !b.release(other).is_live(id),
        b.has(other) ==> !b.set_translation_domain(other, domain).is_live(id),
        !b.parent_destroyed(destroyed).is_live(id),
        !b.set_application_domain(application_domain).is_live(id),
        !b.set_languages(languages).is_live(id),
{
}

/// Who keeps a native object alive, as the bridge stores it.
#[derive(Clone, Copy)]
enum Owner {
    Handles { count: usize },
    Parent { parent: usize },
    Nobody,
}

impl View for Owner {
    type V = Lifetime;

    closed spec fn view(&self) -> Lifetime {
        match *self {
            Owner::Handles { count } => Lifetime::Shared { handles: count as nat },
            Owner::Parent { parent } => Lifetime::Parented { parent },
            Owner::Nobody => Lifetime::Released,
        }
    }
}

/// One record of the bridge.
struct Object {
    kind: Kind,
    owner: Owner,
    domain: String,
}

impl View for Object {
    type V = ObjectView;

    closed spec fn view(&self) -> ObjectView {
        ObjectView { kind: self.kind, lifetime: self.owner@, domain: self.domain@ }
    }
}

/// The single owner of the record. All operations of the binding go through
/// one bridge, one at a time: they take it by reference, so two writers
/// cannot hold it at once.
pub struct Bridge {
    application_domain: Vec<u8>,
    languages: Option<Vec<String>>,
    objects: Vec<Object>,
}

impl View for Bridge {
    type V = BridgeView;

    closed spec fn view(&self) -> BridgeView {
        BridgeView {
            application_domain: self.application_domain@,
            languages: self.languages.deep_view(),
            objects: Seq::new(self.objects@.len(), |i: int| self.objects@[i]@),
        }
    }
}

impl Bridge {
    /// A bridge with no objects, an empty application domain and no override
    /// languages.
    pub fn new() -> (bridge: Bridge)
        ensures
            bridge@ == BridgeView::empty(),
            bridge@.wf(),
    {
        Bridge { application_domain: Vec::new(), languages: None, objects: Vec::new() }
    }

    /// The number of objects that were ever made through this bridge.
    pub fn object_count(&self) -> (count: usize)
        ensures
            count == self@.objects.len(),
    {
        self.objects.len()
    }

    /// Whether `id` names a live object of class `kind`.
    pub fn holds(&self, id: usize, kind: Kind) -> (held: bool)
        ensures
            held == self@.holds(id as int, kind),
    {
        if id == 0 || id > self.objects.len() {
            return false;
        }
        let object = &self.objects[id - 1];
        let live = match object.owner {
            Owner::Nobody => false,
            _ => true,
        };
        live && object.kind == kind
    }

    /// The number of handles that keep `id` alive.
    pub fn handles(&self, id: usize) -> (count: usize)
        ensures
            count == self@.handles(id as int),
    {
        if id == 0 || id > self.objects.len() {
            return 0;
        }
        match self.objects[id - 1].owner {
            Owner::Handles { count } => count,
            _ => 0,
        }
    }

    /// Records that the native object `parent` was destroyed. The native
    /// side frees the children of a parent together with it, so every object
    /// that `parent` owned is released, and nothing is left to forward.
    pub fn parent_destroyed(&mut self, parent: usize)
        ensures
            final(self)@ == old(self)@.parent_destroyed(parent),
            old(self)@.wf() ==> final(self)@.wf(),
    {
        let mut i: usize = 0;
        while i < self.objects.len()
            invariant
                i <= self.objects.len(),
                self.objects.len() == old(self).objects.len(),
                self@.application_domain == old(self)@.application_domain,
                self@.languages == old(self)@.languages,
                forall|j: int|
                    0 <= j < i ==> (#[trigger] self.objects@[j])@ == old(
                        self,
                    ).objects@[j]@.orphaned(parent),
                forall|j: int|
                    i <= j < self.objects.len() ==> #[trigger] self.objects@[j] == old(
                        self,
                    ).objects@[j],
            decreases self.objects.len() - i,
        {
            let owned = match self.objects[i].owner {
                Owner::Parent { parent: owner } => owner == parent,
                _ => false,
            };
            if owned {
                let object = &mut self.objects[i];
                object.owner = Owner::Nobody;
            }
            i = i + 1;
        }
    }

    /// Adds the record of a new object and returns its identifier.
    pub(crate) fn create(&mut self, kind: Kind, parent: Option<usize>) -> (id: usize)
        requires
            old(self)@.objects.len() < usize::MAX,
        ensures
            final(self)@ == old(self)@.create(kind, parent),
            id == old(self)@.next_id(),
            old(self)@.wf() ==> final(self)@.wf(),
    {
        let owner = match parent {
            Some(parent) => Owner::Parent { parent },
            None => Owner::Handles { count: 1 },
        };
        self.objects.push(Object { kind, owner, domain: String::new() });
        proof {
            assert(self@ =~= old(self)@.create(kind, parent));
            if old(self)@.wf() {
                lemma_create_keeps_wf(old(self)@, kind, parent);
            }
        }
        self.objects.len()
    }

    /// Counts one more handle of the object named `id`.
    pub(crate) fn retain(&mut self, id: usize)
        requires
            old(self)@.has(id as int),
            old(self)@.handles(id as int) < usize::MAX,
        ensures
            final(self)@ == old(self)@.retain(id as int),
            old(self)@.wf() ==> final(self)@.wf(),
    {
        let object = &mut self.objects[id - 1];
        if let Owner::Handles { count } = object.owner {
            object.owner = Owner::Handles { count: count + 1 };
        }
        proof {
            assert(self@ =~= old(self)@.retain(id as int));
            if old(self)@.wf() {
                lemma_with_object_keeps_wf(
                    old(self)@,
                    id as int,
                    old(self)@.object(id as int).retained(),
                );
            }
        }
    }

    /// Counts one handle less of the object named `id`, and says whether
    /// that freed the object.
    pub(crate) fn release(&mut self, id: usize) -> (freed: bool)
        requires
            old(self)@.wf(),
            old(self)@.has(id as int),
        ensures
            final(self)@ == old(self)@.release(id as int),
            freed == old(self)@.object(id as int).last_handle(),
            final(self)@.wf(),
    {
        proof {
            assert(self@.object(id as int).wf());
            lemma_with_object_keeps_wf(self@, id as int, self@.object(id as int).dropped());
        }
        let object = &mut self.objects[id - 1];
        let freed = match object.owner {
            Owner::Handles { count } => {
                if count == 1 {
                    object.owner = Owner::Nobody;
                    true
                } else {
                    object.owner = Owner::Handles { count: count - 1 };
                    false
                }
            },
            _ => false,
        };
        assert(self@ =~= old(self)@.release(id as int));
        freed
    }

    /// Records `domain` as the translation domain of the object named `id`.
    pub(crate) fn set_translation_domain(&mut self, id: usize, domain: String)
        requires
            old(self)@.has(id as int),
        ensures
            final(self)@ == old(self)@.set_translation_domain(id as int, domain@),
            old(self)@.wf() ==> final(self)@.wf(),
    {
        proof {
            if self@.wf() {
                assert(self@.object(id as int).wf());
                lemma_with_object_keeps_wf(
                    self@,
                    id as int,
                    self@.object(id as int).with_domain(domain@),
                );
            }
        }
        let object = &mut self.objects[id - 1];
        object.domain = domain;
        assert(self@ =~= old(self)@.set_translation_domain(id as int, domain@));
    }

    /// The translation domain of the object named `id`.
    pub(crate) fn translation_domain(&self, id: usize) -> (domain: String)
        requires
            self@.has(id as int),
        ensures
            domain@ == self@.object(id as int).domain,
    {
        self.objects[id - 1].domain.clone()
    }

    /// Records `domain` as the application domain.
    pub(crate) fn set_application_domain(&mut self, domain: Vec<u8>)
        ensures
            final(self)@ == old(self)@.set_application_domain(domain@),
    {
        self.application_domain = domain;
    }

    /// The application domain.
    pub(crate) fn application_domain(&self) -> (domain: Vec<u8>)
        ensures
            domain@ == self@.application_domain,
    {
        self.application_domain.clone()
    }

    /// Records the override languages, or with `None` that there are none.
    pub(crate) fn set_languages(&mut self, languages: Option<Vec<String>>)
        ensures
            final(self)@ == old(self)@.set_languages(languages.deep_view()),
    {
        self.languages = languages;
    }

    /// The override languages, if there are any.
    pub(crate) fn languages(&self) -> (languages: Option<Vec<String>>)
        ensures
            languages.deep_view() == self@.languages,
    {
        match &self.languages {
            Some(list) => Some(list.clone()),
            None => None,
        }
    }
}

} // verus!
