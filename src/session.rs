//! The add-on session: both hooks installed on load, in a fixed order, and
//! removed on unload in the reverse order.
use vstd::prelude::*;
use crate::hook::{EntryPoint, PresentInterceptor};
use crate::router::{InputRouter, RouterPhase};

verus! {

/// The two hooks of a session.
pub struct Session {
    pub interceptor: PresentInterceptor,
    pub router: InputRouter,
}

/// Which entry point a restoration puts back.
#[derive(Clone, Copy, Debug, PartialEq, Eq, Structural)]
pub enum HookSite {
    WindowProc,
    Present,
}

/// An entry point to put back at unload.
#[derive(Clone, Copy, Debug, PartialEq, Eq, Structural)]
pub struct Restoration {
    pub site: HookSite,
    pub entry: EntryPoint,
}

/// Why loading did nothing.
#[derive(Clone, Copy, Debug, PartialEq, Eq, Structural)]
pub enum LoadError {
    /// A hook of this session is already installed.
    AlreadyLoaded,
}

/// The restorations that unloading `s` performs, in order: the window
/// procedure first, then the presentation entry point, each only if hooked.
pub open spec fn restorations(s: Session) -> Seq<Restoration> {
    let w: Seq<Restoration> = match s.router.captured() {
        Some(p) => seq![Restoration { site: HookSite::WindowProc, entry: p }],
        None => Seq::empty(),
    };
    let p: Seq<Restoration> = match s.interceptor.captured() {
        Some(e) => seq![Restoration { site: HookSite::Present, entry: e }],
        None => Seq::empty(),
    };
    w + p
}

impl Session {
    pub open spec fn wf(&self) -> bool {
        self.router.wf()
    }

    /// Either hook is installed.
    pub open spec fn loaded(&self) -> bool {
        self.interceptor.captured() is Some || self.router.captured() is Some
    }

    /// A session with nothing installed.
    pub fn new() -> (r: Session)
        ensures
            r.wf(),
            !r.loaded(),
    {
        Session { interceptor: PresentInterceptor::new(), router: InputRouter::new() }
    }
}

/// Loads the add-on's hooks: the presentation entry point's first, then the
/// window procedure's, whose transport is then running. A session loads
/// once; a second load changes nothing.
pub fn nexus_load(session: &mut Session, present_entry: EntryPoint, window_proc: EntryPoint) -> (r:
    Result<(), LoadError>)
    requires
        old(session).wf(),
    ensures
        final(session).wf(),
        r is Ok == !old(session).loaded(),
        r is Ok ==> {
            &&& final(session).interceptor.captured() == Some(present_entry)
            &&& final(session).router.captured() == Some(window_proc)
            &&& final(session).router.phase_spec() == RouterPhase::Active
        },
        r is Err ==> {
            &&& r == Err::<(), LoadError>(LoadError::AlreadyLoaded)
            &&& final(session).interceptor.captured() == old(session).interceptor.captured()
            &&& final(session).router.captured() == old(session).router.captured()
            &&& final(session).router.phase_spec() == old(session).router.phase_spec()
        },
{
    if session.interceptor.is_installed() || session.router.forward_target().is_some() {
        return Err(LoadError::AlreadyLoaded);
    }
    session.interceptor.install(present_entry);
    session.router.install(window_proc);
    session.router.activate();
    Ok(())
}

/// Unloads the add-on's hooks in the reverse order of loading, handing back
/// exactly the entry points captured when they were installed.
pub fn nexus_unload(session: &mut Session) -> (r: Vec<Restoration>)
    requires
        old(session).wf(),
    ensures
        final(session).wf(),
        !final(session).loaded(),
        final(session).router.phase_spec() == RouterPhase::Uninstalled,
        r@ == restorations(*old(session)),
{
    let mut out: Vec<Restoration> = Vec::new();
    if let Some(p) = session.router.uninstall() {
        out.push(Restoration { site: HookSite::WindowProc, entry: p });
    }
    if let Some(e) = session.interceptor.uninstall() {
        out.push(Restoration { site: HookSite::Present, entry: e });
    }
    assert(out@ =~= restorations(*old(session)));
    out
}

} // verus!
