use vstd::prelude::*;

verus! {

/// Where the one-time construction of the process-wide function table stands.
#[derive(Clone, Copy, Debug, PartialEq, Eq, Structural)]
pub enum InitState {
    Uninitialized,
    Initializing,
    Ready,
    Failed,
}

/// What a caller reports to the guard.
#[derive(Clone, Copy, Debug, PartialEq, Eq, Structural)]
pub enum InitEvent {
    /// A caller asks for the table.
    Request,
    /// The caller that was told to build the table finished it.
    Built,
    /// The caller that was told to build the table could not.
    BuildFailed,
}

/// What the guard tells the reporting caller to do next.
#[derive(Clone, Copy, Debug, PartialEq, Eq, Structural)]
pub enum InitAction {
    /// Run the locate, unpack, load and resolve sequence, then report its outcome.
    Initialize,
    /// Another caller is building the table: block until the state changes, then ask again.
    Wait,
    /// The table is built: read it.
    UseTable,
    /// Wake the callers that are waiting; the table is now stored.
    Publish,
    /// Initialization failed for good: report it and end the process.
    Terminate,
    /// The report does not apply to the current state: do nothing.
    Ignore,
}

/// The transition function of the guard: the next state and the action for the caller.
pub open spec fn next(s: InitState, e: InitEvent) -> (InitState, InitAction) {
    match (s, e) {
        (InitState::Uninitialized, InitEvent::Request) => (InitState::Initializing, InitAction::Initialize),
        (InitState::Uninitialized, _) => (InitState::Uninitialized, InitAction::Ignore),
        (InitState::Initializing, InitEvent::Request) => (InitState::Initializing, InitAction::Wait),
        (InitState::Initializing, InitEvent::Built) => (InitState::Ready, InitAction::Publish),
        (InitState::Initializing, InitEvent::BuildFailed) => (InitState::Failed, InitAction::Terminate),
        (InitState::Ready, InitEvent::Request) => (InitState::Ready, InitAction::UseTable),
        (InitState::Ready, _) => (InitState::Ready, InitAction::Ignore),
        (InitState::Failed, _) => (InitState::Failed, InitAction::Terminate),
    }
}

impl InitState {
    /// The state of a process that has not asked for the table yet.
    pub fn new() -> (r: InitState)
        ensures
            r == InitState::Uninitialized,
    {
        InitState::Uninitialized
    }

    /// Applies one report to the guard and says what the reporting caller does next.
    pub fn step(&mut self, e: InitEvent) -> (a: InitAction)
        ensures
            (*final(self), a) == next(*old(self), e),
    {
        let (s, a) = match (*self, e) {
            (InitState::Uninitialized, InitEvent::Request) => (InitState::Initializing, InitAction::Initialize),
            (InitState::Uninitialized, _) => (InitState::Uninitialized, InitAction::Ignore),
            (InitState::Initializing, InitEvent::Request) => (InitState::Initializing, InitAction::Wait),
            (InitState::Initializing, InitEvent::Built) => (InitState::Ready, InitAction::Publish),
            (InitState::Initializing, InitEvent::BuildFailed) => (InitState::Failed, InitAction::Terminate),
            (InitState::Ready, InitEvent::Request) => (InitState::Ready, InitAction::UseTable),
            (InitState::Ready, _) => (InitState::Ready, InitAction::Ignore),
            (InitState::Failed, _) => (InitState::Failed, InitAction::Terminate),
        };
        *self = s;
        a
    }

    /// The table can be read: it was built and stored.
    pub fn is_ready(&self) -> (r: bool)
        ensures
            r == (*self == InitState::Ready),
    {
        match self {
            InitState::Ready => true,
            _ => false,
        }
    }
}

/// The state reached and the actions handed out when the reports `evs` arrive,
/// in that order, at a guard in state `s`.
pub open spec fn run(s: InitState, evs: Seq<InitEvent>) -> (InitState, Seq<InitAction>)
    decreases evs.len(),
{
    if evs.len() == 0 {
        (s, Seq::empty())
    } else {
        let (mid, acts) = run(s, evs.drop_last());
        let (end, a) = next(mid, evs.last());
        (end, acts.push(a))
    }
}

/// How many times `a` occurs in `acts`.
pub open spec fn count_of(acts: Seq<InitAction>, a: InitAction) -> nat
    decreases acts.len(),
{
    if acts.len() == 0 {
        0
    } else {
        count_of(acts.drop_last(), a) + if acts.last() == a { 1nat } else { 0nat }
    }
}

proof fn lemma_run_shape(evs: Seq<InitEvent>)
    ensures
        run(InitState::Uninitialized, evs).1.len() == evs.len(),
        count_of(run(InitState::Uninitialized, evs).1, InitAction::Initialize) <= 1,
        (run(InitState::Uninitialized, evs).0 == InitState::Uninitialized)
            <==> count_of(run(InitState::Uninitialized, evs).1, InitAction::Initialize) == 0,
        (run(InitState::Uninitialized, evs).0 == InitState::Uninitialized) <==> !evs.contains(InitEvent::Request),
        run(InitState::Uninitialized, evs).0 == InitState::Ready ==> evs.contains(InitEvent::Built),
        forall|i: int| 0 <= i < evs.len() && #[trigger] run(InitState::Uninitialized, evs).1[i] == InitAction::UseTable
            ==> exists|j: int| 0 <= j < i && evs[j] == InitEvent::Built,
    decreases evs.len(),
{
    if evs.len() > 0 {
        let init = evs.drop_last();
        lemma_run_shape(init);
        let (mid, acts) = run(InitState::Uninitialized, init);
        let (end, a) = next(mid, evs.last());
        assert(run(InitState::Uninitialized, evs) == (end, acts.push(a)));
        assert(acts.push(a).drop_last() =~= acts);
        if init.contains(InitEvent::Request) {
            let j = choose|j: int| 0 <= j < init.len() && init[j] == InitEvent::Request;
            assert(evs[j] == InitEvent::Request);
        }
        if evs.last() == InitEvent::Request {
            assert(evs[evs.len() - 1] == InitEvent::Request);
        }
        if !init.contains(InitEvent::Request) && evs.last() != InitEvent::Request {
            assert forall|j: int| 0 <= j < evs.len() implies evs[j] != InitEvent::Request by {
                if j < init.len() {
                    assert(evs[j] == init[j]);
                }
            }
        }
        if mid == InitState::Ready {
            let j = choose|j: int| 0 <= j < init.len() && init[j] == InitEvent::Built;
            assert(evs[j] == InitEvent::Built);
        }
        if end == InitState::Ready && mid != InitState::Ready {
            assert(evs[evs.len() - 1] == InitEvent::Built);
        }
        assert forall|i: int| 0 <= i < evs.len() && #[trigger] run(InitState::Uninitialized, evs).1[i] == InitAction::UseTable
            implies exists|j: int| 0 <= j < i && evs[j] == InitEvent::Built by {
            if i < init.len() {
                assert(acts.push(a)[i] == acts[i]);
                let j = choose|j: int| 0 <= j < i && init[j] == InitEvent::Built;
                assert(evs[j] == InitEvent::Built);
            } else {
                let j = choose|j: int| 0 <= j < init.len() && init[j] == InitEvent::Built;
                assert(evs[j] == InitEvent::Built);
            }
        }
    }
}

/// However the requests of concurrent callers interleave, the guard hands out
/// the build step at most once, and exactly once as soon as any caller has asked.
pub proof fn lemma_single_initialization(evs: Seq<InitEvent>)
    ensures
        count_of(run(InitState::Uninitialized, evs).1, InitAction::Initialize) <= 1,
        evs.contains(InitEvent::Request) ==> count_of(run(InitState::Uninitialized, evs).1, InitAction::Initialize) == 1,
{
    lemma_run_shape(evs);
}

/// No caller is told to read the table before the build has been reported
/// complete, so every reader sees the one table that was stored.
pub proof fn lemma_reads_follow_build(evs: Seq<InitEvent>, i: int)
    requires
        0 <= i < evs.len(),
        run(InitState::Uninitialized, evs).1[i] == InitAction::UseTable,
    ensures
        exists|j: int| 0 <= j < i && evs[j] == InitEvent::Built,
{
    lemma_run_shape(evs);
}

} // verus!
