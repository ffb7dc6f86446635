//! Making a socket ready for use.
//!
//! A socket is usable once a few system calls have been made, in order. A [`Setup`] says which one
//! is next, and whether a failure matters.

use vstd::prelude::*;

use crate::platform::Platform;
use crate::unix_utils::xattr::SocketRole;

verus! {

/// Where a socket comes from.
#[derive(Debug, Clone, Copy, PartialEq, Eq, Structural)]
pub enum Origin {
    /// A stream that is yet to be connected.
    Connect,
    /// A stream that a listener is yet to give.
    Accept,
    /// A stream of the runtime that runs on.
    WrapStream,
    /// A stream of the standard library.
    AdoptStream,
    /// The file descriptor of a listener.
    AdoptListener,
}

/// A system call, or a call into the runtime, that a socket needs.
#[derive(Debug, Clone, Copy, PartialEq, Eq, Structural)]
pub enum SetupStep {
    /// Connect.
    Connect,
    /// Wait for a connection and accept it.
    Accept,
    /// Tag the socket with its role.
    Tag(SocketRole),
    /// Make the socket non-blocking.
    SetNonblocking,
    /// Hand the socket to the runtime.
    Register,
    /// Have the kernel pass on the credentials that the peer sends.
    EnablePasscred,
}

impl SetupStep {
    /// Whether the socket is of no use when this step fails. Tagging is best effort.
    pub open spec fn is_essential(self) -> bool {
        !(self is Tag)
    }
}

/// What the outcome of a step means for the socket.
pub open spec fn step_result<E>(step: SetupStep, outcome: Result<(), E>) -> Result<(), E> {
    if step.is_essential() {
        outcome
    } else {
        Ok(())
    }
}

/// The steps that a socket needs, in order. Tagging it and having credentials passed on are for
/// Linux alone.
pub open spec fn setup_steps(origin: Origin, platform: Platform) -> Seq<SetupStep> {
    let linux = platform == Platform::Linux;
    match origin {
        Origin::Connect => if linux {
            seq![
                SetupStep::Connect,
                SetupStep::Tag(SocketRole::Client),
                SetupStep::EnablePasscred,
            ]
        } else {
            seq![SetupStep::Connect]
        },
        Origin::Accept => if linux {
            seq![
                SetupStep::Accept,
                SetupStep::Tag(SocketRole::Server),
                SetupStep::EnablePasscred,
            ]
        } else {
            seq![SetupStep::Accept]
        },
        Origin::WrapStream => if linux {
            seq![SetupStep::EnablePasscred]
        } else {
            seq![]
        },
        Origin::AdoptStream => if linux {
            seq![SetupStep::SetNonblocking, SetupStep::Register, SetupStep::EnablePasscred]
        } else {
            seq![SetupStep::SetNonblocking, SetupStep::Register]
        },
        Origin::AdoptListener => seq![SetupStep::SetNonblocking, SetupStep::Register],
    }
}

/// The progress of making a socket ready.
#[derive(Debug)]
pub struct Setup {
    steps: Vec<SetupStep>,
    done: usize,
}

impl View for Setup {
    type V = Seq<SetupStep>;

    /// The steps that are left.
    closed spec fn view(&self) -> Seq<SetupStep> {
        self.steps@.skip(self.done as int)
    }
}

impl Setup {
    #[verifier::type_invariant]
    spec fn wf(self) -> bool {
        self.done <= self.steps@.len()
    }

    /// All that a socket from `origin` needs on a platform.
    pub fn new(origin: Origin, platform: Platform) -> (setup: Self)
        ensures
            setup@ == setup_steps(origin, platform),
    {
        let mut steps = match origin {
            Origin::Connect => vec![SetupStep::Connect],
            Origin::Accept => vec![SetupStep::Accept],
            Origin::WrapStream => vec![],
            Origin::AdoptStream | Origin::AdoptListener => vec![
                SetupStep::SetNonblocking,
                SetupStep::Register,
            ],
        };
        if platform == Platform::Linux {
            match origin {
                Origin::Connect => {
                    steps.push(SetupStep::Tag(SocketRole::Client));
                },
                Origin::Accept => {
                    steps.push(SetupStep::Tag(SocketRole::Server));
                },
                _ => {},
            }
            if origin != Origin::AdoptListener {
                steps.push(SetupStep::EnablePasscred);
            }
        }
        let setup = Setup { steps, done: 0 };
        assert(setup@ == setup_steps(origin, platform));
        setup
    }

    /// The step to take now, or `None` when the socket is ready.
    pub fn current(&self) -> (step: Option<SetupStep>)
        ensures
            step == (if self@.len() == 0 {
                None
            } else {
                Some(self@[0])
            }),
    {
        proof {
            use_type_invariant(self);
        }
        if self.done < self.steps.len() {
            Some(self.steps[self.done])
        } else {
            None
        }
    }

    /// Takes note of how the current step went. An error is handed back if it matters.
    pub fn advance<E>(&mut self, outcome: Result<(), E>) -> (result: Result<(), E>)
        requires
            old(self)@.len() > 0,
        ensures
            result == step_result(old(self)@[0], outcome),
            final(self)@ == (if result is Ok {
                old(self)@.drop_first()
            } else {
                old(self)@
            }),
    {
        proof {
            use_type_invariant(&*self);
        }
        let result = match self.steps[self.done] {
            SetupStep::Tag(_) => Ok(()),
            _ => outcome,
        };
        if result.is_ok() {
            assert(self.done < self.steps.len());
            self.done = self.done + 1;
            assert(self@ == old(self)@.drop_first());
        }
        result
    }
}

/// How making a socket ready ends.
pub enum SetupEnd<E> {
    /// The socket is ready.
    Ready,
    /// This error ended it.
    Failed(E),
}

/// How taking the steps ends, where `outcomes` is how each of them goes.
pub open spec fn setup_end<E>(steps: Seq<SetupStep>, outcomes: Seq<Result<(), E>>) -> SetupEnd<E>
    recommends
        steps.len() == outcomes.len(),
    decreases steps.len(),
{
    if steps.len() == 0 {
        SetupEnd::Ready
    } else {
        match step_result(steps[0], outcomes[0]) {
            Ok(()) => setup_end(steps.drop_first(), outcomes.drop_first()),
            Err(error) => SetupEnd::Failed(error),
        }
    }
}

/// A socket gets ready if and only if all essential steps go well; how tagging it goes does not
/// matter.
pub proof fn law_ready_iff_essential_steps_went_well<E>(
    steps: Seq<SetupStep>,
    outcomes: Seq<Result<(), E>>,
)
    requires
        steps.len() == outcomes.len(),
    ensures
        setup_end(steps, outcomes) is Ready <==> forall|i: int|
            0 <= i < steps.len() && (#[trigger] steps[i]).is_essential() ==> outcomes[i] is Ok,
    decreases steps.len(),
{
    if steps.len() > 0 {
        let rest = steps.drop_first();
        let others = outcomes.drop_first();
        law_ready_iff_essential_steps_went_well(rest, others);
        if setup_end(steps, outcomes) is Ready {
            assert forall|i: int|
                0 <= i < steps.len() && (#[trigger] steps[i]).is_essential() implies outcomes[i]
                is Ok by {
                if i > 0 {
                    assert(rest[i - 1] == steps[i]);
                    assert(others[i - 1] == outcomes[i]);
                }
            }
        }
        if forall|i: int|
            0 <= i < steps.len() && (#[trigger] steps[i]).is_essential() ==> outcomes[i] is Ok {
            assert forall|i: int|
                0 <= i < rest.len() && (#[trigger] rest[i]).is_essential() implies others[i]
                is Ok by {
                assert(rest[i] == steps[i + 1]);
            }
            assert(steps[0].is_essential() ==> outcomes[0] is Ok);
        }
    }
}

/// Where it fails, it fails with the error of the first essential step that did.
pub proof fn law_first_essential_failure_is_reported<E>(
    steps: Seq<SetupStep>,
    outcomes: Seq<Result<(), E>>,
    failed: int,
)
    requires
        steps.len() == outcomes.len(),
        0 <= failed < steps.len(),
        steps[failed].is_essential(),
        outcomes[failed] is Err,
        forall|i: int|
            0 <= i < failed && (#[trigger] steps[i]).is_essential() ==> outcomes[i] is Ok,
    ensures
        setup_end(steps, outcomes) == SetupEnd::Failed(outcomes[failed]->Err_0),
    decreases steps.len(),
{
    if failed > 0 {
        let rest = steps.drop_first();
        let others = outcomes.drop_first();
        assert(steps[0].is_essential() ==> outcomes[0] is Ok);
        assert forall|i: int| 0 <= i < failed - 1 && (#[trigger] rest[i]).is_essential() implies
            others[i] is Ok by {
            assert(rest[i] == steps[i + 1]);
        }
        law_first_essential_failure_is_reported(rest, others, failed - 1);
    }
}

/// On Linux, every stream is ready only after the kernel has been told to pass on credentials, as
/// the last step, and a stream that was connected or accepted is tagged with its role before that.
/// Everywhere, a socket from outside is made non-blocking before the runtime gets it.
pub proof fn law_setup_order(origin: Origin, platform: Platform)
    ensures
        platform == Platform::Linux && origin != Origin::AdoptListener ==> setup_steps(
            origin,
            platform,
        ).last() == SetupStep::EnablePasscred,
        platform == Platform::Linux && origin == Origin::Connect ==> setup_steps(
            origin,
            platform,
        ).contains(SetupStep::Tag(SocketRole::Client)),
        platform == Platform::Linux && origin == Origin::Accept ==> setup_steps(
            origin,
            platform,
        ).contains(SetupStep::Tag(SocketRole::Server)),
        forall|i: int|
            0 <= i < setup_steps(origin, platform).len() && setup_steps(origin, platform)[i]
                == SetupStep::Register ==> i > 0 && #[trigger] setup_steps(origin, platform)[i - 1]
                == SetupStep::SetNonblocking,
{
    if platform == Platform::Linux && (origin == Origin::Connect || origin == Origin::Accept) {
        assert(setup_steps(origin, platform)[1] is Tag);
    }
}

/// Elsewhere than on Linux, no socket is tagged, and none is asked to pass on credentials. The other
/// steps are the same.
pub proof fn law_linux_steps_are_for_linux(origin: Origin, platform: Platform)
    requires
        platform != Platform::Linux,
    ensures
        forall|i: int|
            0 <= i < setup_steps(origin, platform).len() ==> !(#[trigger] setup_steps(
                origin,
                platform,
            )[i] is Tag) && setup_steps(origin, platform)[i] != SetupStep::EnablePasscred,
        setup_steps(origin, platform).is_prefix_of(setup_steps(origin, Platform::Linux)),
{
}

/// How tagging a socket goes never matters, and a failure of any other step always does, with its
/// own error.
pub proof fn law_only_tagging_may_fail<E>(step: SetupStep, error: E)
    ensures
        step_result(step, Ok::<(), E>(())) is Ok,
        step is Tag ==> step_result(step, Err::<(), E>(error)) is Ok,
        step is Connect || step is Accept || step is SetNonblocking || step is Register || step
            is EnablePasscred ==> step_result(step, Err::<(), E>(error)) == Err::<(), E>(error),
{
}

/// A socket gets ready if and only if every step but tagging goes well; and if not, the error is
/// that of the first step but tagging that failed.
pub proof fn law_setup_ends_at_the_first_failure<E>(
    steps: Seq<SetupStep>,
    outcomes: Seq<Result<(), E>>,
)
    requires
        steps.len() == outcomes.len(),
    ensures
        match setup_end(steps, outcomes) {
            SetupEnd::Ready => forall|i: int|
                0 <= i < steps.len() ==> (#[trigger] steps[i] is Tag || outcomes[i] is Ok),
            SetupEnd::Failed(error) => exists|failed: int|
                #![trigger steps[failed]]
                {
                    &&& 0 <= failed < steps.len()
                    &&& !(steps[failed] is Tag)
                    &&& outcomes[failed] == Err::<(), E>(error)
                    &&& forall|i: int|
                        0 <= i < failed ==> (#[trigger] steps[i] is Tag || outcomes[i] is Ok)
                },
        },
    decreases steps.len(),
{
    if steps.len() > 0 {
        let rest = steps.drop_first();
        let others = outcomes.drop_first();
        law_setup_ends_at_the_first_failure(rest, others);
        if step_result(steps[0], outcomes[0]) is Ok {
            match setup_end(rest, others) {
                SetupEnd::Ready => {
                    assert forall|i: int| 0 <= i < steps.len() implies (#[trigger] steps[i] is Tag
                        || outcomes[i] is Ok) by {
                        if i > 0 {
                            assert(rest[i - 1] == steps[i]);
                            assert(others[i - 1] == outcomes[i]);
                        }
                    }
                },
                SetupEnd::Failed(error) => {
                    let failed = choose|failed: int|
                        #![trigger rest[failed]]
                        {
                            &&& 0 <= failed < rest.len()
                            &&& !(rest[failed] is Tag)
                            &&& others[failed] == Err::<(), E>(error)
                            &&& forall|i: int|
                                0 <= i < failed ==> (#[trigger] rest[i] is Tag || others[i] is Ok)
                        };
                    assert(rest[failed] == steps[failed + 1]);
                    assert forall|i: int| 0 <= i < failed + 1 implies (#[trigger] steps[i] is Tag
                        || outcomes[i] is Ok) by {
                        if i > 0 {
                            assert(rest[i - 1] == steps[i]);
                            assert(others[i - 1] == outcomes[i]);
                        }
                    }
                },
            }
        } else {
            assert(!(steps[0] is Tag));
        }
    }
}

/// A stream begins by being connected or accepted, if it is yet to be, and then carries the role
/// that it got that way; nothing else is connected, accepted or tagged.
pub proof fn law_stream_is_tagged_with_the_role_it_got(origin: Origin, platform: Platform, i: int)
    requires
        0 <= i < setup_steps(origin, platform).len(),
    ensures
        match setup_steps(origin, platform)[i] {
            SetupStep::Connect => origin is Connect && i == 0,
            SetupStep::Accept => origin is Accept && i == 0,
            SetupStep::Tag(SocketRole::Client) => origin is Connect && i == 1,
            SetupStep::Tag(SocketRole::Server) => origin is Accept && i == 1,
            SetupStep::Tag(SocketRole::Listen) => false,
            SetupStep::SetNonblocking => (origin is AdoptStream || origin is AdoptListener) && i
                == 0,
            SetupStep::Register => (origin is AdoptStream || origin is AdoptListener) && i == 1,
            SetupStep::EnablePasscred => !(origin is AdoptListener) && platform is Linux,
        },
        origin is Connect ==> setup_steps(origin, platform)[0] is Connect,
        origin is Accept ==> setup_steps(origin, platform)[0] is Accept,
        origin is AdoptStream || origin is AdoptListener ==> setup_steps(origin, platform).len()
            >= 2,
{
}

} // verus!
