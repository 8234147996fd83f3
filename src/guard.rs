//! Guard tokens, unbound values, and the views that binding produces.
use crate::registry::{claim_spec, ClaimError, SlotRegistry};
use vstd::prelude::*;

verus! {

/// The capability for exclusivity slot `SLOT` of a registry. The only way to
/// get one is to claim the slot ([`GuardToken::new`]), which succeeds once
/// per slot of a given registry, and a token cannot be copied: a view holds
/// `&mut` to it, so a slot of a registry has at most one live view. Each
/// fresh registry can give its own token for a slot, so the guarantee is
/// per process only where the process keeps a single registry.
pub struct GuardToken<const SLOT: usize> {
    claimed: (),
}

impl<const SLOT: usize> GuardToken<SLOT> {
    /// Claims slot `SLOT` of `registry` and returns its token; fails where the
    /// slot does not exist or was claimed before, and then leaves `registry`.
    pub fn new(registry: &mut SlotRegistry) -> (r: Result<GuardToken<SLOT>, ClaimError>)
        ensures
            (match r {
                Ok(_) => Ok(()),
                Err(e) => Err(e),
            }, final(registry)@) == claim_spec(old(registry)@, SLOT as int),
            r is Ok <==> SLOT < old(registry)@.len() && !old(registry)@[SLOT as int],
            r == Err::<GuardToken<SLOT>, ClaimError>(ClaimError::Configuration) <==> SLOT >= old(registry)@.len(),
            r == Err::<GuardToken<SLOT>, ClaimError>(ClaimError::DoubleClaim) <==> SLOT < old(registry)@.len() && old(registry)@[SLOT as int],
    {
        match registry.try_claim(SLOT) {
            Ok(()) => Ok(GuardToken { claimed: () }),
            Err(e) => Err(e),
        }
    }

    /// Claims slot `SLOT` of a shared registry of `slots` slots through an
    /// attempt to lock it: `None` stands for a lock that was held. A slot at
    /// or past `slots` fails with [`ClaimError::Configuration`] before the
    /// lock counts; otherwise a held lock fails with
    /// [`ClaimError::LockContention`] rather than wait.
    pub fn new_locked(slots: usize, registry: Option<&mut SlotRegistry>) -> (r: Result<GuardToken<SLOT>, ClaimError>)
        requires
            registry is Some ==> registry->Some_0@.len() == slots,
        ensures
            SLOT >= slots ==> r == Err::<GuardToken<SLOT>, ClaimError>(ClaimError::Configuration),
            SLOT >= slots && registry is Some ==> final(registry->Some_0)@ == registry->Some_0@,
            SLOT < slots && registry is None ==> r == Err::<GuardToken<SLOT>, ClaimError>(ClaimError::LockContention),
            SLOT < slots && registry is Some ==> (match r {
                Ok(_) => Ok(()),
                Err(e) => Err(e),
            }, final(registry->Some_0)@) == claim_spec(registry->Some_0@, SLOT as int),
    {
        if SLOT >= slots {
            return Err(ClaimError::Configuration);
        }
        match registry {
            Some(reg) => GuardToken::new(reg),
            None => Err(ClaimError::LockContention),
        }
    }

    /// The slot this token stands for.
    pub fn slot(&self) -> (r: usize)
        ensures
            r == SLOT,
    {
        SLOT
    }
}

/// Told of every bind of a value of this type, with the slot it is bound in.
pub trait OnBind {
    fn on_bind<const SLOT: usize>(&self);
}

/// Owns one value, and gives no access to it but through a bound view.
///
/// This holds only while the guarded type has no public way to make a bare
/// value of itself (a `Default`, a constructor returning `Self`): its
/// constructors should hand out an `UnboundValue` instead.
pub struct UnboundValue<T> {
    value: T,
}

/// The hold a view keeps on its slot's token. Its field is private, so the
/// token cannot be taken back out of a view while the view's value is in use.
pub struct TokenHold<'a, const SLOT: usize> {
    token: &'a mut GuardToken<SLOT>,
}

/// A read-only view of a bound value, alive while it holds the slot's token.
pub struct BoundView<'a, T, const SLOT: usize> {
    /// The bound value.
    pub value: &'a T,
    /// The hold on the token.
    pub hold: TokenHold<'a, SLOT>,
}

/// A read-write view of a bound value, alive while it holds the slot's token.
pub struct MutBoundView<'a, T, const SLOT: usize> {
    /// The bound value.
    pub value: &'a mut T,
    /// The hold on the token.
    pub hold: TokenHold<'a, SLOT>,
}

impl<T> UnboundValue<T> {
    /// The owned value.
    pub closed spec fn payload(&self) -> T {
        self.value
    }

    /// Takes ownership of `value`; it stays out of reach until bound.
    pub fn from(value: T) -> (r: UnboundValue<T>)
        ensures
            r.payload() == value,
    {
        UnboundValue { value }
    }

    /// A read-only view of the value in slot `SLOT`, after telling the value's
    /// hook. It cannot fail.
    pub fn bind<'a, const SLOT: usize>(&'a self, token: &'a mut GuardToken<SLOT>) -> (r: BoundView<'a, T, SLOT>)
        where T: OnBind,
        ensures
            *r.value == self.payload(),
    {
        self.value.on_bind::<SLOT>();
        BoundView { value: &self.value, hold: TokenHold { token } }
    }

    /// A read-write view of the value in slot `SLOT`, after telling the value's
    /// hook. It cannot fail. What the view holds when it ends is the value
    /// from then on.
    pub fn bind_mut<'a, const SLOT: usize>(&'a mut self, token: &'a mut GuardToken<SLOT>) -> (r: MutBoundView<'a, T, SLOT>)
        where T: OnBind,
        ensures
            r.current() == old(self).payload(),
            final(self).payload() == *final(r.value),
    {
        self.value.on_bind::<SLOT>();
        MutBoundView { value: &mut self.value, hold: TokenHold { token } }
    }
}

impl<'a, const SLOT: usize> TokenHold<'a, SLOT> {
    /// The slot of the held token.
    pub fn slot(&self) -> (r: usize)
        ensures
            r == SLOT,
    {
        self.token.slot()
    }
}

impl<'a, T, const SLOT: usize> BoundView<'a, T, SLOT> {
    /// Reads the bound value.
    pub fn get(&self) -> (r: &T)
        ensures
            *r == *(*self).value,
    {
        self.value
    }
}

impl<'a, T, const SLOT: usize> MutBoundView<'a, T, SLOT> {
    /// The value the view holds now.
    pub open spec fn current(&self) -> T {
        *self.value
    }

    /// Reads the bound value.
    pub fn get(&self) -> (r: &T)
        ensures
            *r == self.current(),
    {
        self.value
    }

    /// Writes `value` over the bound value.
    pub fn set(&mut self, value: T)
        ensures
            final(self).current() == value,
            *final(final(self).value) == *final(old(self).value),
    {
        *self.value = value;
    }
}

} // verus!
