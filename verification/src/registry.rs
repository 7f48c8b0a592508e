//! The set of bindings that are globally active.
//!
//! A binding is active from the moment it is registered until it is
//! unregistered. Registering an active binding again is refused and changes
//! nothing, so a handler can neither be replaced nor doubled by accident.

use vstd::prelude::*;
use crate::binding::Binding;

verus! {

/// Why the registry turned a request down.
#[derive(Clone, Copy, Debug, PartialEq, Eq, Structural)]
pub enum RegistryError {
    /// The binding is active already.
    AlreadyRegistered,
    /// The binding is not active.
    NotRegistered,
}

/// The active bindings after `binding` was offered for registration while
/// `active` were: unchanged where it is among them, with it at the end where
/// it is not.
pub open spec fn after_register(active: Seq<Binding>, binding: Binding) -> Seq<Binding> {
    if active.contains(binding) {
        active
    } else {
        active.push(binding)
    }
}

/// What a request to register `binding` is answered with while `active`
/// are the active bindings.
pub open spec fn register_answer(active: Seq<Binding>, binding: Binding) -> Result<
    (),
    RegistryError,
> {
    if active.contains(binding) {
        Err(RegistryError::AlreadyRegistered)
    } else {
        Ok(())
    }
}

/// The active bindings after a request to unregister `binding`.
pub open spec fn after_unregister(active: Seq<Binding>, binding: Binding) -> Seq<Binding> {
    if active.contains(binding) {
        active.remove(active.index_of(binding))
    } else {
        active
    }
}

/// What a request to unregister `binding` is answered with.
pub open spec fn unregister_answer(active: Seq<Binding>, binding: Binding) -> Result<
    (),
    RegistryError,
> {
    if active.contains(binding) {
        Ok(())
    } else {
        Err(RegistryError::NotRegistered)
    }
}

/// The active bindings, in the order in which they were registered.
pub struct Registry {
    active: Vec<Binding>,
}

impl View for Registry {
    type V = Seq<Binding>;

    closed spec fn view(&self) -> Seq<Binding> {
        self.active@
    }
}

impl Registry {
    /// No binding is held twice.
    pub open spec fn wf(&self) -> bool {
        self@.no_duplicates()
    }

    /// A registry with no active binding.
    pub fn new() -> (r: Registry)
        ensures
            r.wf(),
            r@ == Seq::<Binding>::empty(),
    {
        Registry { active: Vec::new() }
    }

    /// How many bindings are active.
    pub fn len(&self) -> (n: usize)
        ensures
            n == self@.len(),
    {
        self.active.len()
    }

    /// Where `binding` stands among the active ones, if it does.
    fn position(&self, binding: &Binding) -> (at: Option<usize>)
        ensures
            match at {
                Some(i) => i < self@.len() && self@[i as int] == *binding,
                None => !self@.contains(*binding),
            },
    {
        let mut i: usize = 0;
        while i < self.active.len()
            invariant
                i <= self.active.len(),
                forall|j: int| 0 <= j < i ==> self.active@[j] != *binding,
            decreases self.active.len() - i,
        {
            if self.active[i].same_as(binding) {
                return Some(i);
            }
            i += 1;
        }
        None
    }

    /// Whether `binding` is active.
    pub fn is_registered(&self, binding: &Binding) -> (r: bool)
        ensures
            r == self@.contains(*binding),
    {
        self.position(binding).is_some()
    }

    /// Makes `binding` active. Refused with `AlreadyRegistered`, and without
    /// any change, exactly when it is active already.
    pub fn register(&mut self, binding: Binding) -> (r: Result<(), RegistryError>)
        requires
            old(self).wf(),
        ensures
            final(self).wf(),
            final(self)@ == after_register(old(self)@, binding),
            final(self)@.contains(binding),
            r == register_answer(old(self)@, binding),
    {
        proof {
            lemma_register_keeps_unique(self@, binding);
        }
        match self.position(&binding) {
            Some(_) => Err(RegistryError::AlreadyRegistered),
            None => {
                self.active.push(binding);
                Ok(())
            },
        }
    }

    /// Makes `binding` inactive again. Refused with `NotRegistered`, and
    /// without any change, exactly when it is not active.
    pub fn unregister(&mut self, binding: Binding) -> (r: Result<(), RegistryError>)
        requires
            old(self).wf(),
        ensures
            final(self).wf(),
            final(self)@ == after_unregister(old(self)@, binding),
            !final(self)@.contains(binding),
            r == unregister_answer(old(self)@, binding),
    {
        match self.position(&binding) {
            Some(i) => {
                proof {
                    lemma_index_of_unique(self@, binding, i as int);
                }
                self.active.remove(i);
                Ok(())
            },
            None => Err(RegistryError::NotRegistered),
        }
    }
}

/// In a sequence without duplicates an element stands at one place only.
proof fn lemma_index_of_unique(s: Seq<Binding>, binding: Binding, i: int)
    requires
        s.no_duplicates(),
        0 <= i < s.len(),
        s[i] == binding,
    ensures
        s.contains(binding),
        s.index_of(binding) == i,
        s.remove(i).no_duplicates(),
        !s.remove(i).contains(binding),
{
    assert(s.contains(binding));
    let k = s.index_of(binding);
    assert(0 <= k < s.len() && s[k] == binding);
    let t = s.remove(i);
    assert forall|a: int, b: int| 0 <= a < t.len() && 0 <= b < t.len() && a != b implies t[a]
        != t[b] by {
        let a0 = if a < i { a } else { a + 1 };
        let b0 = if b < i { b } else { b + 1 };
        assert(t[a] == s[a0] && t[b] == s[b0]);
    }
    assert forall|a: int| 0 <= a < t.len() implies t[a] != binding by {
        let a0 = if a < i { a } else { a + 1 };
        assert(t[a] == s[a0]);
    }
}

/// Registration keeps the registry free of duplicates.
pub proof fn lemma_register_keeps_unique(active: Seq<Binding>, binding: Binding)
    requires
        active.no_duplicates(),
    ensures
        after_register(active, binding).no_duplicates(),
        after_register(active, binding).contains(binding),
{
    let next = after_register(active, binding);
    if !active.contains(binding) {
        assert(next[active.len() as int] == binding);
        assert forall|a: int, b: int| 0 <= a < next.len() && 0 <= b < next.len() && a
            != b implies next[a] != next[b] by {
            if a < active.len() {
                assert(active.contains(next[a]));
            }
            if b < active.len() {
                assert(active.contains(next[b]));
            }
        }
    }
}

/// Registering a binding a second time, with no unregistration in between,
/// is answered with `AlreadyRegistered` and leaves the active bindings as
/// the first registration left them. This holds whether or not the first
/// registration itself succeeded.
pub proof fn lemma_second_registration_refused(active: Seq<Binding>, binding: Binding)
    requires
        active.no_duplicates(),
    ensures
        register_answer(after_register(active, binding), binding) == Err::<(), RegistryError>(
            RegistryError::AlreadyRegistered,
        ),
        after_register(after_register(active, binding), binding) == after_register(
            active,
            binding,
        ),
        after_register(after_register(active, binding), binding).no_duplicates(),
{
    lemma_register_keeps_unique(active, binding);
}

/// After a successful unregistration the binding can be registered afresh.
pub proof fn lemma_register_after_unregister(active: Seq<Binding>, binding: Binding)
    requires
        active.no_duplicates(),
        active.contains(binding),
    ensures
        register_answer(after_unregister(active, binding), binding) == Ok::<(), RegistryError>(()),
{
    lemma_index_of_unique(active, binding, active.index_of(binding));
}

} // verus!
