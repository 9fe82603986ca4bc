//! A hook on an entry point of the host: installed once, it keeps the entry
//! point it replaced for calling through and for restoring it on removal.
use vstd::prelude::*;

verus! {

/// The address of an entry point that a hook replaced.
pub type EntryPoint = usize;

/// The presentation entry point's hook.
pub struct PresentInterceptor {
    original: Option<EntryPoint>,
}

impl PresentInterceptor {
    /// The entry point captured at installation; `None` when not installed.
    pub closed spec fn captured(&self) -> Option<EntryPoint> {
        self.original
    }

    /// A hook not yet installed.
    pub fn new() -> (r: PresentInterceptor)
        ensures
            r.captured() is None,
    {
        PresentInterceptor { original: None }
    }

    /// Records the installation of the hook over `previous`. Only the first
    /// installation of a session counts: a second one changes nothing and
    /// returns `false`.
    pub fn install(&mut self, previous: EntryPoint) -> (r: bool)
        ensures
            r == old(self).captured() is None,
            r ==> final(self).captured() == Some(previous),
            !r ==> final(self).captured() == old(self).captured(),
    {
        if self.original.is_some() {
            return false;
        }
        self.original = Some(previous);
        true
    }

    /// The entry point that an intercepted call goes on to.
    pub fn original(&self) -> (r: Option<EntryPoint>)
        ensures
            r == self.captured(),
    {
        self.original
    }

    pub fn is_installed(&self) -> (r: bool)
        ensures
            r == self.captured() is Some,
    {
        self.original.is_some()
    }

    /// Removes the hook, handing back exactly the entry point to restore.
    pub fn uninstall(&mut self) -> (r: Option<EntryPoint>)
        ensures
            r == old(self).captured(),
            final(self).captured() is None,
    {
        let r = self.original;
        self.original = None;
        r
    }
}

} // verus!
