//! The hook manager: at most one live keyboard hook and one live mouse hook
//! per process, each installed and uninstalled on its own.
use vstd::prelude::*;

verus! {

/// The two kinds of low-level hook.
#[derive(Debug, Clone, Copy, PartialEq, Eq, Structural)]
pub enum HookKind {
    Keyboard,
    Mouse,
}

/// Why a hook could not be installed.
#[derive(Debug, Clone, Copy, PartialEq, Eq, Structural)]
pub enum HookError {
    /// Registering the mouse hook failed, with the native error code.
    Mouse(u32),
    /// Registering the keyboard hook failed, with the native error code.
    Key(u32),
    /// A hook of that kind is live already.
    AlreadyInstalled,
}

/// The native handle of each live hook; a slot is `None` while its hook is
/// not installed. A live handle is never zero.
pub struct HookManager {
    keyboard: Option<isize>,
    mouse: Option<isize>,
}

/// The error that a failed native registration of `kind` reports.
pub open spec fn native_error(kind: HookKind, error: u32) -> HookError {
    match kind {
        HookKind::Keyboard => HookError::Key(error),
        HookKind::Mouse => HookError::Mouse(error),
    }
}

/// What recording a registration gives, from the slot's state, the handle
/// that registration returned (zero on failure) and the native error code.
pub open spec fn install_result(kind: HookKind, slot: Option<isize>, handle: isize, error: u32) -> Result<(), HookError> {
    if slot is Some {
        Err(HookError::AlreadyInstalled)
    } else if handle == 0 {
        Err(native_error(kind, error))
    } else {
        Ok(())
    }
}

/// The slot after recording a registration: it takes the handle only when
/// it was empty and the registration succeeded.
pub open spec fn slot_after_install(slot: Option<isize>, handle: isize) -> Option<isize> {
    if slot is None && handle != 0 {
        Some(handle)
    } else {
        slot
    }
}

/// `after` is `before` with the hook of `kind` uninstalled, and `released`
/// is the handle that was live, if any.
pub open spec fn uninstalled(before: HookManager, after: HookManager, kind: HookKind, released: Option<isize>) -> bool {
    &&& released == before.slot(kind)
    &&& after.slot(kind) is None
    &&& forall|k: HookKind| k != kind ==> after.slot(k) == before.slot(k)
}

impl HookManager {
    /// The handle in the slot of `kind`.
    pub closed spec fn slot(&self, kind: HookKind) -> Option<isize> {
        match kind {
            HookKind::Keyboard => self.keyboard,
            HookKind::Mouse => self.mouse,
        }
    }

    /// No live handle is zero.
    pub closed spec fn wf(&self) -> bool {
        &&& (self.keyboard matches Some(h) ==> h != 0)
        &&& (self.mouse matches Some(h) ==> h != 0)
    }

    /// A manager with no hook installed.
    pub fn new() -> (m: HookManager)
        ensures
            m.wf(),
            m.slot(HookKind::Keyboard) is None,
            m.slot(HookKind::Mouse) is None,
    {
        HookManager { keyboard: None, mouse: None }
    }

    /// Whether a hook of `kind` is live.
    pub fn is_installed(&self, kind: HookKind) -> (r: bool)
        ensures
            r == self.slot(kind) is Some,
    {
        match kind {
            HookKind::Keyboard => self.keyboard.is_some(),
            HookKind::Mouse => self.mouse.is_some(),
        }
    }

    /// The handle of the live hook of `kind`, if any.
    pub fn handle(&self, kind: HookKind) -> (r: Option<isize>)
        ensures
            r == self.slot(kind),
    {
        match kind {
            HookKind::Keyboard => self.keyboard,
            HookKind::Mouse => self.mouse,
        }
    }

    /// Checks, before a native registration, that no hook of `kind` is live.
    pub fn check_vacant(&self, kind: HookKind) -> (r: Result<(), HookError>)
        ensures
            r is Ok <==> self.slot(kind) is None,
            r is Err ==> r == Err::<(), HookError>(HookError::AlreadyInstalled),
    {
        if self.is_installed(kind) {
            Err(HookError::AlreadyInstalled)
        } else {
            Ok(())
        }
    }

    /// Records what the native registration of a hook of `kind` returned:
    /// its handle, zero on failure, with the native error code.
    pub fn record_install(&mut self, kind: HookKind, handle: isize, error: u32) -> (r: Result<(), HookError>)
        requires
            old(self).wf(),
        ensures
            final(self).wf(),
            r == install_result(kind, old(self).slot(kind), handle, error),
            final(self).slot(kind) == slot_after_install(old(self).slot(kind), handle),
            forall|k: HookKind| k != kind ==> final(self).slot(k) == old(self).slot(k),
    {
        if self.is_installed(kind) {
            return Err(HookError::AlreadyInstalled);
        }
        if handle == 0 {
            return match kind {
                HookKind::Keyboard => Err(HookError::Key(error)),
                HookKind::Mouse => Err(HookError::Mouse(error)),
            };
        }
        match kind {
            HookKind::Keyboard => self.keyboard = Some(handle),
            HookKind::Mouse => self.mouse = Some(handle),
        }
        Ok(())
    }

    /// Marks the hook of `kind` as uninstalled and hands back the handle to
    /// release, or `None` when none was live: then nothing changes.
    pub fn uninstall(&mut self, kind: HookKind) -> (released: Option<isize>)
        requires
            old(self).wf(),
        ensures
            final(self).wf(),
            uninstalled(*old(self), *final(self), kind, released),
            released matches Some(h) ==> h != 0,
    {
        match kind {
            HookKind::Keyboard => self.keyboard.take(),
            HookKind::Mouse => self.mouse.take(),
        }
    }
}

/// Records the native registration of the keyboard hook.
pub fn set_key_hook(hooks: &mut HookManager, handle: isize, error: u32) -> (r: Result<(), HookError>)
    requires
        old(hooks).wf(),
    ensures
        final(hooks).wf(),
        r == install_result(HookKind::Keyboard, old(hooks).slot(HookKind::Keyboard), handle, error),
        final(hooks).slot(HookKind::Keyboard) == slot_after_install(old(hooks).slot(HookKind::Keyboard), handle),
        final(hooks).slot(HookKind::Mouse) == old(hooks).slot(HookKind::Mouse),
{
    hooks.record_install(HookKind::Keyboard, handle, error)
}

/// Records the native registration of the mouse hook.
pub fn set_mouse_hook(hooks: &mut HookManager, handle: isize, error: u32) -> (r: Result<(), HookError>)
    requires
        old(hooks).wf(),
    ensures
        final(hooks).wf(),
        r == install_result(HookKind::Mouse, old(hooks).slot(HookKind::Mouse), handle, error),
        final(hooks).slot(HookKind::Mouse) == slot_after_install(old(hooks).slot(HookKind::Mouse), handle),
        final(hooks).slot(HookKind::Keyboard) == old(hooks).slot(HookKind::Keyboard),
{
    hooks.record_install(HookKind::Mouse, handle, error)
}

/// While a hook of a kind is live, a second registration of that kind fails
/// with `AlreadyInstalled` and leaves the live handle in place, whatever the
/// native call returned.
pub proof fn lemma_second_install_refused(kind: HookKind, slot: Option<isize>, first: isize, first_error: u32, second: isize, second_error: u32)
    requires
        slot is None,
        first != 0,
    ensures
        install_result(kind, slot, first, first_error) is Ok,
        install_result(kind, slot_after_install(slot, first), second, second_error) == Err::<(), HookError>(HookError::AlreadyInstalled),
        slot_after_install(slot_after_install(slot, first), second) == Some(first),
{
}

/// Uninstalling a hook that is not live releases nothing and leaves every
/// slot as it was; so a second uninstall right after a first is a no-op.
pub proof fn lemma_uninstall_idempotent(
    m0: HookManager,
    m1: HookManager,
    m2: HookManager,
    kind: HookKind,
    first: Option<isize>,
    second: Option<isize>,
)
    requires
        uninstalled(m0, m1, kind, first),
        uninstalled(m1, m2, kind, second),
    ensures
        second is None,
        forall|k: HookKind| m2.slot(k) == m1.slot(k),
        m2.slot(kind) is None,
{
}

} // verus!
