//! Opening a link to a hub, sending a resource over it, session numbers, and the pauses
//! between attempts.
use crate::types::{Error, ErrorView};
use vstd::prelude::*;

verus! {

/// A step on the way to a session.
#[derive(Clone, Copy, Debug, Eq, PartialEq, Structural)]
pub enum LinkStep {
    /// Ask the network for a path to the hub.
    RequestPath,
    /// Wait for the path.
    AwaitPath,
    /// Look up the public key of the hub.
    Recall,
    /// Open the link and identify on it.
    Identify,
    /// Greet the hub.
    Hello,
}

/// How a step went.
#[derive(Debug, PartialEq, Eq)]
pub enum LinkReply {
    /// It was done.
    Done,
    /// It failed, in the words of the transport.
    Failed(String),
    /// The lookup of the public key ended, with a key or without one.
    Recalled {
        /// Whether a key was found.
        known: bool,
    },
}

/// Where the way to a session stands.
#[derive(Debug, PartialEq, Eq)]
pub enum LinkProgress {
    /// This step is next.
    Next(LinkStep),
    /// The session is there.
    Open,
    /// There will be no session.
    Failed(Error),
}

/// The step that comes after `step`, if one does.
pub open spec fn step_after(step: LinkStep) -> Option<LinkStep> {
    match step {
        LinkStep::RequestPath => Some(LinkStep::AwaitPath),
        LinkStep::AwaitPath => Some(LinkStep::Recall),
        LinkStep::Recall => Some(LinkStep::Identify),
        LinkStep::Identify => Some(LinkStep::Hello),
        LinkStep::Hello => None,
    }
}

/// Why a step that went like this ends the way to a session, if it does.
pub open spec fn link_failure(step: LinkStep, reply: LinkReply) -> Option<ErrorView> {
    if step == LinkStep::Recall {
        match reply {
            LinkReply::Recalled { known } if known => None,
            _ => Some(ErrorView::UnknownIdentity),
        }
    } else {
        match reply {
            LinkReply::Failed(words) => Some(ErrorView::Transport(words@)),
            _ => None,
        }
    }
}

/// The first step on the way to a session.
pub fn first_step() -> (step: LinkStep)
    ensures
        step == LinkStep::RequestPath,
{
    LinkStep::RequestPath
}

/// Where the way to a session stands after a step went like this.
pub fn advance_link(step: LinkStep, reply: LinkReply) -> (progress: LinkProgress)
    ensures
        match link_failure(step, reply) {
            Some(error) => progress matches LinkProgress::Failed(e) && e@ == error,
            None => match step_after(step) {
                Some(next) => progress == LinkProgress::Next(next),
                None => progress is Open,
            },
        },
{
    match step {
        LinkStep::Recall => match reply {
            LinkReply::Recalled { known } => if known {
                LinkProgress::Next(LinkStep::Identify)
            } else {
                LinkProgress::Failed(Error::UnknownIdentity)
            },
            _ => LinkProgress::Failed(Error::UnknownIdentity),
        },
        _ => match reply {
            LinkReply::Failed(words) => LinkProgress::Failed(Error::Transport(words)),
            _ => match step {
                LinkStep::RequestPath => LinkProgress::Next(LinkStep::AwaitPath),
                LinkStep::AwaitPath => LinkProgress::Next(LinkStep::Recall),
                LinkStep::Identify => LinkProgress::Next(LinkStep::Hello),
                _ => LinkProgress::Open,
            },
        },
    }
}

/// A step on the way of a resource to a hub.
#[derive(Clone, Copy, Debug, Eq, PartialEq, Structural)]
pub enum ResourceStep {
    /// Send the envelope that announces it.
    Announce,
    /// Send its bytes.
    Transfer,
}

/// Where the way of a resource stands.
#[derive(Debug, PartialEq, Eq)]
pub enum ResourceProgress {
    /// This step is next.
    Next(ResourceStep),
    /// It came to this.
    Ended(Result<(), Error>),
}

/// The first step on the way of a resource.
pub fn first_resource_step() -> (step: ResourceStep)
    ensures
        step == ResourceStep::Announce,
{
    ResourceStep::Announce
}

/// Where the way of a resource stands after a step went like this: a failure ends it, so that
/// the bytes are sent only where their announcement was.
pub fn advance_resource(step: ResourceStep, result: Result<(), Error>) -> (progress:
    ResourceProgress)
    ensures
        match (step, result) {
            (_, Err(error)) => progress == ResourceProgress::Ended(Err(error)),
            (ResourceStep::Announce, Ok(_)) => progress == ResourceProgress::Next(
                ResourceStep::Transfer,
            ),
            (ResourceStep::Transfer, Ok(_)) => progress == ResourceProgress::Ended(Ok(())),
        },
{
    match (step, result) {
        (_, Err(error)) => ResourceProgress::Ended(Err(error)),
        (ResourceStep::Announce, Ok(())) => ResourceProgress::Next(ResourceStep::Transfer),
        (ResourceStep::Transfer, Ok(())) => ResourceProgress::Ended(Ok(())),
    }
}

/// The number that follows the session number `id`: the next one, and one after the last.
pub open spec fn session_id_after(id: u64) -> u64 {
    if id == u64::MAX {
        1
    } else {
        (id + 1) as u64
    }
}

/// Takes a session number.
pub fn take_session_id(next: &mut u64) -> (id: u64)
    ensures
        id == *old(next),
        *final(next) == session_id_after(*old(next)),
{
    let current: u64 = *next;
    let following: u64 = current.wrapping_add(1);
    *next = if following == 0 {
        1
    } else {
        following
    };
    current
}

/// The pause before an attempt, in seconds: it doubles from one to sixty-four.
pub open spec fn backoff(attempt: nat) -> nat
    decreases attempt,
{
    if attempt <= 1 {
        1
    } else if attempt >= 7 {
        64
    } else {
        2 * backoff((attempt - 1) as nat)
    }
}

/// The pause before an attempt, in seconds.
pub fn reconnect_delay(attempt: u32) -> (seconds: u64)
    ensures
        seconds == backoff(attempt as nat),
{
    let shift: u32 = if attempt <= 1 {
        0
    } else if attempt >= 7 {
        6
    } else {
        attempt - 1
    };
    proof {
        reveal_with_fuel(backoff, 7);
        assert(1u64 << 0u32 == 1 && 1u64 << 1u32 == 2 && 1u64 << 2u32 == 4 && 1u64 << 3u32 == 8
            && 1u64 << 4u32 == 16 && 1u64 << 5u32 == 32 && 1u64 << 6u32 == 64) by (bit_vector);
    }
    1u64 << shift
}

/// Every pause is between one second and sixty-four, and none is shorter than the one before.
pub proof fn backoff_is_bounded(attempt: nat)
    ensures
        1 <= backoff(attempt) <= 64,
        backoff(attempt) <= backoff(attempt + 1),
        1 <= attempt < 7 ==> backoff(attempt + 1) == 2 * backoff(attempt),
{
    reveal_with_fuel(backoff, 9);
}

/// No session number is followed by zero or by itself.
pub proof fn session_ids_stay_positive(id: u64)
    ensures
        session_id_after(id) >= 1,
        session_id_after(id) != id,
{
}

/// The steps on the way to a session, in their order.
pub open spec fn link_steps() -> Seq<LinkStep> {
    seq![
        LinkStep::RequestPath,
        LinkStep::AwaitPath,
        LinkStep::Recall,
        LinkStep::Identify,
        LinkStep::Hello,
    ]
}

/// What the way to a session comes to from `step` on, when the steps go like `replies`; nothing
/// where it is not at its end.
pub open spec fn link_outcome(step: LinkStep, replies: Seq<LinkReply>) -> Option<
    Result<(), ErrorView>,
>
    decreases replies.len(),
{
    if replies.len() == 0 {
        None
    } else {
        match link_failure(step, replies[0]) {
            Some(error) => Some(Err(error)),
            None => match step_after(step) {
                Some(next) => link_outcome(next, replies.drop_first()),
                None => Some(Ok(())),
            },
        }
    }
}

/// Whether the first `n` steps on the way to a session went well.
pub open spec fn steps_went_well(replies: Seq<LinkReply>, n: int) -> bool {
    forall|i: int|
        0 <= i < n ==> link_failure(#[trigger] link_steps()[i], replies[i]) is None
}

proof fn outcome_after(replies: Seq<LinkReply>, n: int)
    requires
        0 <= n <= replies.len(),
        n < 5,
        steps_went_well(replies, n),
    ensures
        link_outcome(LinkStep::RequestPath, replies) == link_outcome(
            link_steps()[n],
            replies.skip(n),
        ),
    decreases n,
{
    if n == 0 {
        assert(replies.skip(0) =~= replies);
    } else {
        assert(steps_went_well(replies, n - 1));
        outcome_after(replies, n - 1);
        let rest = replies.skip(n - 1);
        assert(link_failure(link_steps()[n - 1], replies[n - 1]) is None);
        assert(rest[0] == replies[n - 1]);
        assert(rest.drop_first() =~= replies.skip(n));
        assert(step_after(link_steps()[n - 1]) == Some(link_steps()[n]));
    }
}

/// A session is there exactly where all five steps went well.
pub proof fn link_opens_when_all_went_well(replies: Seq<LinkReply>)
    requires
        replies.len() >= 5,
    ensures
        link_outcome(LinkStep::RequestPath, replies) == Some(Ok::<(), ErrorView>(()))
            <==> steps_went_well(replies, 5),
{
    if steps_went_well(replies, 5) {
        assert(steps_went_well(replies, 4));
        outcome_after(replies, 4);
        assert(link_failure(link_steps()[4], replies[4]) is None);
        assert(replies.skip(4)[0] == replies[4]);
    } else {
        let at = first_failure(replies, 5);
        link_fails_with_first_failure(replies, at);
    }
}

proof fn first_failure(replies: Seq<LinkReply>, n: int) -> (at: int)
    requires
        0 <= n <= 5,
        !steps_went_well(replies, n),
    ensures
        0 <= at < n,
        steps_went_well(replies, at),
        link_failure(link_steps()[at], replies[at]) is Some,
    decreases n,
{
    if steps_went_well(replies, n - 1) {
        n - 1
    } else {
        first_failure(replies, n - 1)
    }
}

/// Where a step failed and all before it went well, there is no session, and the error is that
/// of this step.
pub proof fn link_fails_with_first_failure(replies: Seq<LinkReply>, at: int)
    requires
        0 <= at < 5,
        at < replies.len(),
        steps_went_well(replies, at),
        link_failure(link_steps()[at], replies[at]) is Some,
    ensures
        link_outcome(LinkStep::RequestPath, replies) == Some(
            Err::<(), ErrorView>(link_failure(link_steps()[at], replies[at])->0),
        ),
{
    outcome_after(replies, at);
    assert(replies.skip(at)[0] == replies[at]);
}

/// While fewer than five steps were done and all went well, the way goes on.
pub proof fn link_is_on_its_way(replies: Seq<LinkReply>)
    requires
        replies.len() < 5,
        steps_went_well(replies, replies.len() as int),
    ensures
        link_outcome(LinkStep::RequestPath, replies) is None,
{
    outcome_after(replies, replies.len() as int);
}

/// What the way of a resource comes to from `step` on, when the steps go like `results`; nothing
/// where it is not at its end.
pub open spec fn resource_outcome(
    step: ResourceStep,
    results: Seq<Result<(), ErrorView>>,
) -> Option<Result<(), ErrorView>>
    decreases results.len(),
{
    if results.len() == 0 {
        None
    } else {
        match (step, results[0]) {
            (_, Err(error)) => Some(Err(error)),
            (ResourceStep::Announce, Ok(_)) => resource_outcome(
                ResourceStep::Transfer,
                results.drop_first(),
            ),
            (ResourceStep::Transfer, Ok(_)) => Some(Ok(())),
        }
    }
}

/// A resource is sent where it was announced and its bytes were sent; where the announcement
/// failed, its error is the outcome, whatever would come of the bytes.
pub proof fn resource_needs_its_announcement(
    announced: Result<(), ErrorView>,
    sent: Result<(), ErrorView>,
)
    ensures
        resource_outcome(ResourceStep::Announce, seq![announced, sent]) == Some(
            match (announced, sent) {
                (Err(error), _) => Err(error),
                (Ok(_), Err(error)) => Err(error),
                (Ok(_), Ok(_)) => Ok(()),
            },
        ),
        announced is Err ==> resource_outcome(ResourceStep::Announce, seq![announced]) == Some(
            announced,
        ),
{
    reveal_with_fuel(resource_outcome, 3);
    assert(seq![announced, sent].drop_first() =~= seq![sent]);
}

} // verus!
