//! Extensions: resources that all actors of a system share.

use crate::erased::{distinct_types, erased_as, erasure_of, is_type_id, Erased};
use std::sync::Arc;
use vstd::prelude::*;

verus! {

/// A resource that all actors of a system share.
pub trait Extension: Send + Sync + 'static {
    /// Make the resource.
    fn new_extension() -> Self where Self: Sized;
}

/// The extensions of a system, at most one of each type.
pub struct ExtensionRegistry {
    entries: Vec<Erased>,
}

impl View for ExtensionRegistry {
    type V = Seq<Erased>;

    closed spec fn view(&self) -> Seq<Erased> {
        self.entries@
    }
}

/// The extension of type `T` among `entries`.
pub open spec fn found<T: Extension>(entries: Seq<Erased>) -> Option<Arc<T>>
    decreases entries.len(),
{
    if entries.len() == 0 {
        None
    } else {
        match erased_as::<T>(entries[0]) {
            Some(extension) => Some(extension),
            None => found::<T>(entries.drop_first()),
        }
    }
}

/// An entry behind the others is found if none of them is.
proof fn lemma_found_push<T: Extension>(entries: Seq<Erased>, last: Erased)
    ensures
        found::<T>(entries.push(last)) == match found::<T>(entries) {
            Some(extension) => Some(extension),
            None => erased_as::<T>(last),
        },
    decreases entries.len(),
{
    if entries.len() > 0 {
        assert(entries.push(last).drop_first() =~= entries.drop_first().push(last));
        lemma_found_push::<T>(entries.drop_first(), last);
    } else {
        assert(entries.push(last).drop_first() =~= entries);
    }
}

/// The types of the extensions are all different.
pub open spec fn one_of_each_type(entries: Seq<Erased>) -> bool {
    forall|i: int, j: int|
        0 <= i < j < entries.len() ==> (#[trigger] entries[i]).type_key() != (
        #[trigger] entries[j]).type_key()
}

/// `after` holds `extension` besides what `before` held.
pub open spec fn registered<T: Extension>(
    before: Seq<Erased>,
    after: Seq<Erased>,
    extension: Arc<T>,
) -> bool {
    exists|e: Erased| #[trigger]
        erasure_of(extension, e) && erased_as::<T>(e) == Some(extension) && after == before.push(e)
}

impl ExtensionRegistry {
    /// No extensions.
    pub fn new() -> (registry: Self)
        ensures
            registry@ == Seq::<Erased>::empty(),
    {
        ExtensionRegistry { entries: Vec::new() }
    }

    /// No two extensions are of the same type.
    #[verifier::type_invariant]
    spec fn distinct(&self) -> bool {
        one_of_each_type(self.entries@)
    }

    fn add<T: Extension>(&mut self, extension: Arc<T>)
        requires
            found::<T>(old(self)@) is None,
        ensures
            registered(old(self)@, final(self)@, extension),
            found::<T>(final(self)@) == Some(extension),
    {
        let _none: Option<Arc<T>> = self.get_optional::<T>();
        let e: Erased = Erased::new(extension);
        proof {
            use_type_invariant(&*self);
            lemma_found_push::<T>(self.entries@, e);
            assert(one_of_each_type(self.entries@.push(e)));
        }
        let mut entries: Vec<Erased> = Vec::new();
        std::mem::swap(&mut self.entries, &mut entries);
        entries.push(e);
        *self = ExtensionRegistry { entries };
    }

    /// Register an extension. None of its type may be registered yet.
    pub fn register<T: Extension>(&mut self, extension: T)
        requires
            found::<T>(old(self)@) is None,
        ensures
            registered(old(self)@, final(self)@, Arc::new(extension)),
            found::<T>(final(self)@) == Some(Arc::new(extension)),
    {
        self.add(Arc::new(extension))
    }

    /// The extension of type `T`, which must be registered.
    pub fn get<T: Extension>(&self) -> (extension: Arc<T>)
        requires
            found::<T>(self@) is Some,
        ensures
            found::<T>(self@) == Some(extension),
    {
        self.get_optional::<T>().unwrap()
    }

    /// The extension of type `T`, if it is registered.
    pub fn get_optional<T: Extension>(&self) -> (res: Option<Arc<T>>)
        ensures
            res == found::<T>(self@),
            one_of_each_type(self@),
            res is None ==> forall|i: int|
                0 <= i < self@.len() ==> !is_type_id::<T>((#[trigger] self@[i]).type_key()),
    {
        proof {
            use_type_invariant(self);
        }
        let mut i: usize = 0;
        proof {
            assert(self.entries@.skip(0) =~= self.entries@);
        }
        while i < self.entries.len()
            invariant
                i <= self.entries@.len(),
                found::<T>(self.entries@) == found::<T>(self.entries@.skip(i as int)),
                one_of_each_type(self.entries@),
                forall|k: int|
                    0 <= k < i ==> !is_type_id::<T>((#[trigger] self.entries@[k]).type_key()),
            decreases self.entries@.len() - i,
        {
            let ghost rest = self.entries@.skip(i as int);
            assert(rest[0] == self.entries@[i as int]);
            match self.entries[i].downcast::<T>() {
                Some(extension) => {
                    return Some(extension);
                },
                None => {},
            }
            assert(rest.drop_first() =~= self.entries@.skip(i + 1));
            i = i + 1;
        }
        None
    }

    /// Whether an extension of type `T` is registered.
    pub fn has<T: Extension>(&self) -> (yes: bool)
        ensures
            yes == (found::<T>(self@) is Some),
    {
        self.get_optional::<T>().is_some()
    }

    /// The extension of type `T`, which is made and registered if it was not
    /// yet.
    pub fn get_or_create<T: Extension>(&mut self) -> (extension: Arc<T>)
        ensures
            found::<T>(final(self)@) == Some(extension),
            found::<T>(old(self)@) is Some ==> final(self)@ == old(self)@,
            found::<T>(old(self)@) is None ==> registered(old(self)@, final(self)@, extension)
                && exists|made: T| #[trigger]
                call_ensures(T::new_extension, (), made) && extension == Arc::new(made),
    {
        match self.get_optional::<T>() {
            Some(extension) => extension,
            None => {
                let extension: Arc<T> = Arc::new(T::new_extension());
                self.add(Arc::clone(&extension));
                extension
            },
        }
    }
}

impl Default for ExtensionRegistry {
    fn default() -> (registry: Self)
        ensures
            registry@ == Seq::<Erased>::empty(),
    {
        ExtensionRegistry::new()
    }
}

/// An extension that is found stays the same when another is registered.
pub proof fn law_extensions_are_kept<T: Extension, U: Extension>(
    before: Seq<Erased>,
    after: Seq<Erased>,
    other: Arc<U>,
)
    requires
        found::<T>(before) is Some,
        registered(before, after, other),
    ensures
        found::<T>(after) == found::<T>(before),
{
    let e = choose|e: Erased| #[trigger] erasure_of(other, e) && after == before.push(e);
    lemma_found_push::<T>(before, e);
}

/// Registering an extension leaves every other type as it was: one that was
/// registered is found as before, and one that was not is not.
pub proof fn law_other_extensions_are_untouched<T: Extension, U: Extension>(
    before: Seq<Erased>,
    after: Seq<Erased>,
    extension: Arc<T>,
)
    requires
        registered(before, after, extension),
        distinct_types::<T, U>(),
    ensures
        found::<U>(after) == found::<U>(before),
{
    let e = choose|e: Erased| #[trigger] erasure_of(extension, e) && after == before.push(e);
    lemma_found_push::<U>(before, e);
    crate::erased::law_types_are_told_apart::<T, U>(&extension, &e);
}

/// An extension that was registered is found.
pub proof fn law_registered_extensions_are_found<T: Extension>(
    before: Seq<Erased>,
    after: Seq<Erased>,
    extension: Arc<T>,
)
    requires
        found::<T>(before) is None,
        registered(before, after, extension),
    ensures
        found::<T>(after) == Some(extension),
{
    let e = choose|e: Erased| #[trigger]
        erasure_of(extension, e) && erased_as::<T>(e) == Some(extension) && after == before.push(e);
    lemma_found_push::<T>(before, e);
}

/// The extension of a type is the first entry of that type, and there is one
/// exactly where an entry of the type is.
pub proof fn law_the_first_of_a_type_is_found<T: Extension>(entries: Seq<Erased>)
    ensures
        found::<T>(entries) is None <==> forall|i: int|
            0 <= i < entries.len() ==> erased_as::<T>(#[trigger] entries[i]) is None,
        found::<T>(entries) matches Some(extension) ==> exists|k: int|
            0 <= k < entries.len() && erased_as::<T>(#[trigger] entries[k]) == Some(extension)
                && forall|i: int| 0 <= i < k ==> erased_as::<T>(#[trigger] entries[i]) is None,
    decreases entries.len(),
{
    if entries.len() > 0 {
        let rest = entries.drop_first();
        law_the_first_of_a_type_is_found::<T>(rest);
        assert forall|i: int| 0 <= i < rest.len() implies #[trigger] rest[i] == entries[i + 1] by {
        }
        if erased_as::<T>(entries[0]) is None {
            if found::<T>(rest) is None {
                assert forall|i: int| 0 <= i < entries.len() implies erased_as::<T>(
                    #[trigger] entries[i],
                ) is None by {
                    if i > 0 {
                        assert(rest[i - 1] == entries[i]);
                    }
                }
            } else {
                let k = choose|k: int|
                    0 <= k < rest.len() && erased_as::<T>(#[trigger] rest[k]) == found::<T>(rest)
                        && forall|i: int| 0 <= i < k ==> erased_as::<T>(#[trigger] rest[i]) is None;
                assert(entries[k + 1] == rest[k]);
                assert forall|i: int| 0 <= i < k + 1 implies erased_as::<T>(
                    #[trigger] entries[i],
                ) is None by {
                    if i > 0 {
                        assert(rest[i - 1] == entries[i]);
                    }
                }
            }
        } else {
            assert(erased_as::<T>(entries[0]) == found::<T>(entries));
        }
    }
}

/// A registry of extensions starts empty, gives what is registered, and keeps
/// what was registered before in its place.
pub proof fn law_extensions_are_registered_once<T: Extension>(
    registry: &mut ExtensionRegistry,
    extension: T,
    got: Arc<T>,
    res: Option<Arc<T>>,
    yes: bool,
)
    ensures
        ({
            let before = old(registry)@;
            let after = final(registry)@;
            &&& call_ensures(ExtensionRegistry::new, (), *old(registry)) ==> before.len() == 0
            &&& call_ensures(ExtensionRegistry::register::<T>, (registry, extension), ()) ==> {
                &&& found::<T>(after) == Some(Arc::new(extension))
                &&& after.len() == before.len() + 1
                &&& after.drop_last() == before
                &&& erased_as::<T>(after.last()) == Some(Arc::new(extension))
            }
            &&& call_ensures(ExtensionRegistry::get::<T>, (&*old(registry),), got) ==> found::<T>(
                before,
            ) == Some(got)
            &&& call_ensures(ExtensionRegistry::get_optional::<T>, (&*old(registry),), res) ==> res
                == found::<T>(before)
            &&& call_ensures(ExtensionRegistry::has::<T>, (&*old(registry),), yes) ==> (yes
                <==> found::<T>(before) is Some)
            &&& call_ensures(ExtensionRegistry::get_or_create::<T>, (registry,), got) ==> {
                &&& found::<T>(after) == Some(got)
                &&& found::<T>(before) is Some ==> after == before && found::<T>(before) == Some(
                    got,
                )
                &&& found::<T>(before) is None ==> after.len() == before.len() + 1
                    && after.drop_last() == before && erased_as::<T>(after.last()) == Some(got)
                    && exists|made: T| #[trigger]
                    call_ensures(T::new_extension, (), made) && got == Arc::new(made)
            }
        }),
{
    let before = old(registry)@;
    assert forall|e: Erased| #[trigger] before.push(e).drop_last() == before by {
        assert(before.push(e).drop_last() =~= before);
    }
}

/// An extension can be registered where none of its type is, and be had where one
/// is.
pub proof fn law_extensions_can_be_registered_and_had<T: Extension>(
    registry: &mut ExtensionRegistry,
    extension: T,
)
    ensures
        found::<T>(old(registry)@) is None ==> call_requires(
            ExtensionRegistry::register::<T>,
            (registry, extension),
        ),
        found::<T>(old(registry)@) is Some ==> call_requires(
            ExtensionRegistry::get::<T>,
            (&*old(registry),),
        ),
{
}

} // verus!
