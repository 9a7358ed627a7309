//! The profiling session: which profiler a build runs, the guard that owns
//! the running session, and the two operations the host has on it.

use crate::handle::OpaqueHandle;
use vstd::prelude::*;

verus! {

/// The profiling that a build has compiled in.
#[derive(Clone, Copy, Debug, PartialEq, Eq, Structural)]
pub enum ProfilingMode {
    /// Every heap allocation is tracked.
    Heap,
    /// Only events that the program reports itself are tracked.
    AdHoc,
    /// No profiling is compiled in.
    Disabled,
}

impl ProfilingMode {
    /// The line that announces the start of profiling in this mode.
    pub open spec fn startup_text(self) -> Option<Seq<char>> {
        match self {
            ProfilingMode::Heap => Some("[dhat-heap]: Initializing heap profiler"@),
            ProfilingMode::AdHoc => Some("[dhat-ad-hoc]: Initializing ad-hoc profiler"@),
            ProfilingMode::Disabled => None,
        }
    }

    /// The notice to print before the session of this mode is started; none
    /// where there is nothing to start.
    pub fn startup_notice(self) -> (notice: Option<String>)
        ensures
            notice.is_some() == self.startup_text().is_some(),
            notice is Some ==> notice->Some_0@ == self.startup_text()->Some_0,
    {
        match self {
            ProfilingMode::Heap => Some("[dhat-heap]: Initializing heap profiler".to_owned()),
            ProfilingMode::AdHoc => Some("[dhat-ad-hoc]: Initializing ad-hoc profiler".to_owned()),
            ProfilingMode::Disabled => None,
        }
    }
}

/// The line that announces the end of profiling.
pub open spec fn teardown_text() -> Seq<char> {
    "[dhat]: Teardown profiler"@
}

/// Owns one running profiling session of type `S`. The session ends when the
/// guard gives it up.
pub struct DhatProfilerGuard<S> {
    mode: ProfilingMode,
    session: S,
}

/// What the release of a profiler guard leaves to do: print the notice, then
/// let the session go, which finalizes it.
pub struct ProfilerTeardown<S> {
    pub notice: String,
    pub session: S,
}

impl<S> DhatProfilerGuard<S> {
    /// The mode of the session.
    pub closed spec fn mode(&self) -> ProfilingMode {
        self.mode
    }

    /// The session that the guard owns.
    pub closed spec fn session(&self) -> S {
        self.session
    }

    /// A guard is only ever made for a mode that profiles.
    pub open spec fn wf(&self) -> bool {
        self.mode() != ProfilingMode::Disabled
    }

    /// The guard that `try_init` makes of a mode and of the session that was
    /// started for it.
    pub closed spec fn started(mode: ProfilingMode, session: Option<S>) -> Option<
        DhatProfilerGuard<S>,
    > {
        match session {
            Some(session) if mode != ProfilingMode::Disabled => Some(
                DhatProfilerGuard { mode, session },
            ),
            _ => None,
        }
    }

    /// Makes the guard of a started session. A build without profiling has no
    /// guard: that is no error. Neither has a mode for which no session was
    /// started.
    pub fn try_init(mode: ProfilingMode, session: Option<S>) -> (guard: Option<Self>)
        ensures
            guard == Self::started(mode, session),
            guard.is_some() == (mode != ProfilingMode::Disabled && session.is_some()),
            guard is Some ==> {
                &&& guard->Some_0.wf()
                &&& guard->Some_0.mode() == mode
                &&& guard->Some_0.session() == session->Some_0
            },
    {
        match session {
            Some(session) => match mode {
                ProfilingMode::Disabled => None,
                _ => Some(DhatProfilerGuard { mode, session }),
            },
            None => None,
        }
    }

    /// Ends the guard: hands out the session together with the notice to print
    /// before it is let go.
    pub fn finish(self) -> (teardown: ProfilerTeardown<S>)
        ensures
            teardown.notice@ == teardown_text(),
            teardown.session == self.session(),
    {
        ProfilerTeardown { notice: "[dhat]: Teardown profiler".to_owned(), session: self.session }
    }
}

/// Starts the profiling session for the host: the handle holds the guard of
/// the started session, or nothing where the build has no profiling.
pub fn init_dhat_profiler_js<S>(mode: ProfilingMode, session: Option<S>) -> (handle: OpaqueHandle<
    DhatProfilerGuard<S>,
>)
    ensures
        handle == OpaqueHandle::of(DhatProfilerGuard::started(mode, session)),
        handle@ == DhatProfilerGuard::started(mode, session),
        handle@.is_some() == (mode != ProfilingMode::Disabled && session.is_some()),
        handle@ is Some ==> {
            &&& handle@->Some_0.wf()
            &&& handle@->Some_0.mode() == mode
            &&& handle@->Some_0.session() == session->Some_0
        },
{
    OpaqueHandle::hold(DhatProfilerGuard::try_init(mode, session))
}

/// Ends the profiling session that the handle holds. The first release hands
/// out the teardown; every later one, and the release of a handle that never
/// held a guard, finds nothing and does nothing.
pub fn teardown_dhat_profiler_js<S>(handle: &mut OpaqueHandle<DhatProfilerGuard<S>>) -> (teardown:
    Option<ProfilerTeardown<S>>)
    ensures
        *final(handle) == old(handle).released(),
        final(handle)@ is None,
        teardown.is_some() == old(handle)@.is_some(),
        teardown is Some ==> {
            &&& teardown->Some_0.notice@ == teardown_text()
            &&& teardown->Some_0.session == old(handle)@->Some_0.session()
        },
{
    match handle.take() {
        Some(guard) => Some(guard.finish()),
        None => None,
    }
}

/// A build without profiling still gets a handle, and that handle is inert:
/// it holds nothing, its release tears nothing down and leaves it as it was.
pub proof fn lemma_disabled_profiler_is_inert<S>(session: Option<S>)
    ensures
        DhatProfilerGuard::started(ProfilingMode::Disabled, session) is None,
        OpaqueHandle::of(DhatProfilerGuard::started(ProfilingMode::Disabled, session))@ is None,
        OpaqueHandle::of(
            DhatProfilerGuard::started(ProfilingMode::Disabled, session),
        ).teardowns() == 0,
        OpaqueHandle::of(
            DhatProfilerGuard::started(ProfilingMode::Disabled, session),
        ).released() == OpaqueHandle::of(
            DhatProfilerGuard::started(ProfilingMode::Disabled, session),
        ),
{
    crate::handle::lemma_view_of(DhatProfilerGuard::started(ProfilingMode::Disabled, session));
}

} // verus!
