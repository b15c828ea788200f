//! Choosing the backend: which candidates an environment has, in which
//! order they are tried, and what is reported when none opens.
//!
//! The resolver opens nothing itself. It names the candidate to try, is
//! told how the attempt ended, and answers with the next candidate, the
//! handle, or the list of every failure. Attempts are strictly sequential:
//! a second backend is named only after the first has failed.
use crate::environment::{Environment, Os};
use crate::error::{Backend, BackendFailure, ClipboardError, ErrorView, FailureView, failure_views};
use crate::handle::{AttemptOutcome, ClipboardHandle, OutcomeView};
use vstd::prelude::*;

verus! {

/// The backends that are tried in `environment`, in this order.
///
/// A Linux host, and WSL2 with it, tries Wayland, then the X11 clipboard,
/// then the X11 primary selection. WSL1 reaches no display server and goes
/// through the shell bridge. macOS and Windows have their one platform
/// API. Anywhere else only the no-op backend is left.
pub open spec fn candidates(environment: Environment) -> Seq<Backend> {
    match environment {
        Environment::Native(Os::Linux) | Environment::Wsl2 => seq![
            Backend::Wayland,
            Backend::X11Clipboard,
            Backend::X11Primary,
        ],
        Environment::Wsl1 => seq![Backend::ShellBridge],
        Environment::Native(Os::MacOs) => seq![Backend::MacOs],
        Environment::Native(Os::Windows) => seq![Backend::Windows],
        Environment::Native(Os::Other) => seq![Backend::Nop],
    }
}

/// The candidates of `environment`, in the order in which they are tried.
pub fn candidate_list(environment: Environment) -> (list: Vec<Backend>)
    ensures
        list@ == candidates(environment),
{
    let mut list: Vec<Backend> = Vec::new();
    match environment {
        Environment::Native(Os::Linux) | Environment::Wsl2 => {
            list.push(Backend::Wayland);
            list.push(Backend::X11Clipboard);
            list.push(Backend::X11Primary);
        },
        Environment::Wsl1 => {
            list.push(Backend::ShellBridge);
        },
        Environment::Native(Os::MacOs) => {
            list.push(Backend::MacOs);
        },
        Environment::Native(Os::Windows) => {
            list.push(Backend::Windows);
        },
        Environment::Native(Os::Other) => {
            list.push(Backend::Nop);
        },
    }
    assert(list@ =~= candidates(environment));
    list
}

/// A resolution under way: at least one candidate is still untried.
#[derive(Debug, PartialEq, Eq)]
pub struct Resolver {
    /// The candidates not yet tried; the first is the one to try now.
    remaining: Vec<Backend>,
    /// The candidates that failed, in the order of the attempts.
    failures: Vec<BackendFailure>,
}

/// The mathematical value of a [`Resolver`].
pub ghost struct ResolverView {
    pub remaining: Seq<Backend>,
    pub failures: Seq<FailureView>,
}

/// Where a resolution stands.
#[derive(Debug, PartialEq, Eq)]
pub enum Resolution {
    /// Try the resolver's candidate and tell it the outcome.
    Pending(Resolver),
    /// The candidate opened: this is its handle.
    Resolved(ClipboardHandle),
    /// No candidate is left. The error is `AllBackendsExhausted`, and lists
    /// each backend that was tried with the reason it gave.
    Exhausted(ClipboardError),
}

/// The mathematical value of a [`Resolution`].
pub ghost enum ResolutionView {
    Pending(ResolverView),
    Resolved(Backend),
    Exhausted(ErrorView),
}

impl ResolverView {
    /// A resolution with these candidates left: pending while there is
    /// one, exhausted otherwise.
    pub open spec fn settle(self) -> ResolutionView {
        if self.remaining.len() > 0 {
            ResolutionView::Pending(self)
        } else {
            ResolutionView::Exhausted(ErrorView::AllBackendsExhausted(self.failures))
        }
    }

    /// The resolution after the attempt on the first remaining candidate
    /// ended in `outcome`. Success resolves to that candidate. Failure is
    /// noted and the candidate dropped; the next one is then due, or none.
    pub open spec fn advance(self, outcome: OutcomeView) -> ResolutionView {
        if self.remaining.len() == 0 {
            self.settle()
        } else {
            match outcome {
                OutcomeView::Opened => ResolutionView::Resolved(self.remaining[0]),
                OutcomeView::Failed(reason) => ResolverView {
                    remaining: self.remaining.drop_first(),
                    failures: self.failures.push(
                        FailureView { backend: self.remaining[0], reason },
                    ),
                }.settle(),
            }
        }
    }
}

/// The resolution for `environment` before any attempt.
pub open spec fn initial_resolution(environment: Environment) -> ResolutionView {
    ResolverView { remaining: candidates(environment), failures: Seq::empty() }.settle()
}

/// The resolution that `start` comes to when the attempts end as
/// `outcomes` say, one after the other. Outcomes that come after the
/// resolution is settled change nothing.
pub open spec fn resolution_after(start: ResolutionView, outcomes: Seq<OutcomeView>)
    -> ResolutionView
    decreases outcomes.len(),
{
    if outcomes.len() == 0 {
        start
    } else {
        match start {
            ResolutionView::Pending(resolver) => resolution_after(
                resolver.advance(outcomes[0]),
                outcomes.drop_first(),
            ),
            _ => start,
        }
    }
}

impl View for Resolver {
    type V = ResolverView;

    closed spec fn view(&self) -> ResolverView {
        ResolverView { remaining: self.remaining@, failures: failure_views(self.failures@) }
    }
}

impl View for Resolution {
    type V = ResolutionView;

    open spec fn view(&self) -> ResolutionView {
        match self {
            Resolution::Pending(resolver) => ResolutionView::Pending(resolver@),
            Resolution::Resolved(handle) => ResolutionView::Resolved(handle@),
            Resolution::Exhausted(error) => ResolutionView::Exhausted(error@),
        }
    }
}

impl Resolver {
    #[verifier::type_invariant]
    spec fn has_candidate(self) -> bool {
        self.remaining@.len() > 0
    }

    fn settle(remaining: Vec<Backend>, failures: Vec<BackendFailure>) -> (resolution: Resolution)
        ensures
            resolution@ == (ResolverView {
                remaining: remaining@,
                failures: failure_views(failures@),
            }).settle(),
    {
        if remaining.len() > 0 {
            Resolution::Pending(Resolver { remaining, failures })
        } else {
            Resolution::Exhausted(ClipboardError::AllBackendsExhausted(failures))
        }
    }

    /// Starts the resolution for `environment`: its first candidate is due.
    pub fn begin(environment: Environment) -> (resolution: Resolution)
        ensures
            resolution@ == initial_resolution(environment),
    {
        let failures: Vec<BackendFailure> = Vec::new();
        assert(failure_views(failures@) =~= Seq::<FailureView>::empty());
        Resolver::settle(candidate_list(environment), failures)
    }

    /// The backend to try now.
    pub fn candidate(&self) -> (backend: Backend)
        ensures
            self@.remaining.len() > 0,
            backend == self@.remaining[0],
    {
        proof {
            use_type_invariant(self);
        }
        self.remaining[0]
    }

    /// Takes the outcome of the attempt on [`candidate`](Self::candidate).
    pub fn advance(self, outcome: AttemptOutcome) -> (resolution: Resolution)
        ensures
            resolution@ == self@.advance(outcome@),
    {
        proof {
            use_type_invariant(&self);
        }
        let ghost before = self@;
        let Resolver { mut remaining, mut failures } = self;
        let backend = remaining.remove(0);
        match outcome {
            AttemptOutcome::Opened => Resolution::Resolved(ClipboardHandle::opened(backend)),
            AttemptOutcome::Failed(reason) => {
                let ghost noted = FailureView { backend, reason: reason@ };
                failures.push(BackendFailure { backend, reason });
                assert(remaining@ =~= before.remaining.drop_first());
                assert(failure_views(failures@) =~= before.failures.push(noted));
                Resolver::settle(remaining, failures)
            },
        }
    }
}

/// Outcomes change nothing once the resolution is settled.
proof fn lemma_settled_stays(start: ResolutionView, outcomes: Seq<OutcomeView>)
    requires
        !(start is Pending),
    ensures
        resolution_after(start, outcomes) == start,
{
}

proof fn lemma_first_success(resolver: ResolverView, outcomes: Seq<OutcomeView>, k: int)
    requires
        0 <= k < resolver.remaining.len(),
        k < outcomes.len(),
        forall|i: int| 0 <= i < k ==> outcomes[i] is Failed,
        outcomes[k] is Opened,
    ensures
        resolution_after(ResolutionView::Pending(resolver), outcomes) == ResolutionView::Resolved(
            resolver.remaining[k],
        ),
    decreases k,
{
    let rest = outcomes.drop_first();
    if k == 0 {
        lemma_settled_stays(resolver.advance(outcomes[0]), rest);
    } else {
        let next = ResolverView {
            remaining: resolver.remaining.drop_first(),
            failures: resolver.failures.push(
                FailureView { backend: resolver.remaining[0], reason: outcomes[0]->Failed_0 },
            ),
        };
        assert(resolver.advance(outcomes[0]) == ResolutionView::Pending(next));
        assert forall|i: int| 0 <= i < k - 1 implies rest[i] is Failed by {
            assert(rest[i] == outcomes[i + 1]);
        }
        lemma_first_success(next, rest, k - 1);
    }
}

/// The failures that the first `count` of `outcomes` add to a list, one
/// for each of `backends` in turn.
pub open spec fn noted_failures(backends: Seq<Backend>, outcomes: Seq<OutcomeView>, count: int)
    -> Seq<FailureView> {
    Seq::new(
        count as nat,
        |i: int| FailureView { backend: backends[i], reason: outcomes[i]->Failed_0 },
    )
}

proof fn lemma_all_fail(resolver: ResolverView, outcomes: Seq<OutcomeView>)
    requires
        0 < resolver.remaining.len() <= outcomes.len(),
        forall|i: int| 0 <= i < resolver.remaining.len() ==> outcomes[i] is Failed,
    ensures
        resolution_after(ResolutionView::Pending(resolver), outcomes) == ResolutionView::Exhausted(
            ErrorView::AllBackendsExhausted(
                resolver.failures + noted_failures(
                    resolver.remaining,
                    outcomes,
                    resolver.remaining.len() as int,
                ),
            ),
        ),
    decreases resolver.remaining.len(),
{
    let n = resolver.remaining.len() as int;
    let rest = outcomes.drop_first();
    let noted = FailureView { backend: resolver.remaining[0], reason: outcomes[0]->Failed_0 };
    let next = ResolverView {
        remaining: resolver.remaining.drop_first(),
        failures: resolver.failures.push(noted),
    };
    let all = resolver.failures + noted_failures(resolver.remaining, outcomes, n);
    if n == 1 {
        assert(all =~= next.failures);
        lemma_settled_stays(next.settle(), rest);
    } else {
        assert forall|i: int| 0 <= i < next.remaining.len() implies rest[i] is Failed by {
            assert(rest[i] == outcomes[i + 1]);
        }
        lemma_all_fail(next, rest);
        assert(all =~= next.failures + noted_failures(next.remaining, rest, n - 1));
    }
}

/// Fallback order. If the first `k` candidates of an environment fail to
/// open and the next one opens, that one is chosen, whatever would have
/// become of the candidates after it. A success after earlier failures is
/// no error, and the failures before it are not reported.
pub proof fn lemma_first_to_open_is_chosen(
    environment: Environment,
    outcomes: Seq<OutcomeView>,
    k: int,
)
    requires
        0 <= k < candidates(environment).len(),
        k < outcomes.len(),
        forall|i: int| 0 <= i < k ==> outcomes[i] is Failed,
        outcomes[k] is Opened,
    ensures
        resolution_after(initial_resolution(environment), outcomes) == ResolutionView::Resolved(
            candidates(environment)[k],
        ),
{
    let resolver = ResolverView { remaining: candidates(environment), failures: Seq::empty() };
    lemma_first_success(resolver, outcomes, k);
}

/// Exhaustion. If every candidate of an environment fails to open, the
/// resolution ends in `AllBackendsExhausted`, and the error lists each
/// candidate with its own reason, in the order of the attempts.
pub proof fn lemma_exhaustion_lists_every_failure(
    environment: Environment,
    outcomes: Seq<OutcomeView>,
)
    requires
        candidates(environment).len() <= outcomes.len(),
        forall|i: int| 0 <= i < candidates(environment).len() ==> outcomes[i] is Failed,
    ensures
        resolution_after(initial_resolution(environment), outcomes) == ResolutionView::Exhausted(
            ErrorView::AllBackendsExhausted(
                noted_failures(
                    candidates(environment),
                    outcomes,
                    candidates(environment).len() as int,
                ),
            ),
        ),
{
    let resolver = ResolverView { remaining: candidates(environment), failures: Seq::empty() };
    lemma_all_fail(resolver, outcomes);
    assert(resolver.failures + noted_failures(
        resolver.remaining,
        outcomes,
        resolver.remaining.len() as int,
    ) =~= noted_failures(resolver.remaining, outcomes, resolver.remaining.len() as int));
}

} // verus!
