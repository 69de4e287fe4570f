//! What the agent's decisions mean for the world around it.
//!
//! The world is the record store, the containers that the engine knows, and
//! the order in which containers were started. [`perform`] says what a
//! faithful driver on a healthy host makes of each action; [`run`] lets an
//! agent and such a driver take turns until the agent waits for nothing. The
//! theorems below are about what the world looks like afterwards.

use crate::error::AgentError;
use crate::model::{
    advance, captured, deploy, finished, initial, lock, pending, record_of, verified,
    well_formed, AgentView, OnConcurrentDeploy, Phase,
};
use crate::record::{ContainerStatus, LockfileView};
use crate::runtime::{ActionView, EventView};
use vstd::prelude::*;

verus! {

/// The world outside the agent.
pub struct World {
    /// What the record store holds.
    pub record: Option<LockfileView>,
    /// The containers that exist.
    pub containers: Set<Seq<char>>,
    /// The containers that were started, the latest last.
    pub started: Seq<Seq<char>>,
}

/// What a faithful driver makes of `action` on a healthy host, and what it
/// reports. `fresh` is the identifier that the engine gives to a container
/// that it creates. Removing or starting a container that does not exist is
/// answered with `NotFound`.
pub open spec fn perform(w: World, action: ActionView, fresh: Seq<char>) -> (World, EventView) {
    match action {
        ActionView::Ping | ActionView::Pull(_) => (w, EventView::Done),
        ActionView::Create(_) => (
            World { containers: w.containers.insert(fresh), ..w },
            EventView::Created(fresh),
        ),
        ActionView::ReadRecord => (w, EventView::Record(w.record)),
        ActionView::WriteRecord(record) => (World { record: Some(record), ..w }, EventView::Done),
        ActionView::ClearRecord => (World { record: None, ..w }, EventView::Done),
        ActionView::Remove(request) => if w.containers.contains(request.container_id) {
            (
                World { containers: w.containers.remove(request.container_id), ..w },
                EventView::Done,
            )
        } else {
            (w, EventView::NotFound)
        },
        ActionView::Start(container) => if w.containers.contains(container) {
            (World { started: w.started.push(container), ..w }, EventView::Done)
        } else {
            (w, EventView::NotFound)
        },
    }
}

/// Agent and driver take turns, at most `turns` times, until the agent
/// waits for nothing.
pub open spec fn drive(s: AgentView, w: World, fresh: Seq<char>, turns: nat) -> (AgentView, World)
    decreases turns,
{
    if turns == 0 {
        (s, w)
    } else {
        match pending(s) {
            None => (s, w),
            Some(action) => {
                let (after, event) = perform(w, action, fresh);
                drive(advance(s, event), after, fresh, (turns - 1) as nat)
            },
        }
    }
}

/// Agent and driver take turns until the agent waits for nothing. No agent
/// asks for more than four actions in a row.
pub open spec fn run(s: AgentView, w: World, fresh: Seq<char>) -> (AgentView, World) {
    drive(s, w, fresh, 4)
}

/// One request for a deployment: the image, the suffix drawn for the
/// container's name, and the identifier that the engine will give to the
/// container.
pub struct Request {
    pub image: Seq<char>,
    pub suffix: Seq<char>,
    pub container: Seq<char>,
}

/// The agent and the world once a new agent has been set up.
pub open spec fn set_up(w: World, policy: OnConcurrentDeploy, request: Request) -> (AgentView, World) {
    run(initial(request.image, request.suffix, policy), w, request.container)
}

/// The agent and the world once a new agent has been set up and told to lock.
pub open spec fn locked(w: World, policy: OnConcurrentDeploy, request: Request) -> (AgentView, World) {
    let (s, after) = set_up(w, policy, request);
    run(lock(s), after, request.container)
}

/// The agent and the world after one whole attempt: a new agent is set up,
/// told to lock, and told to deploy.
pub open spec fn attempt(w: World, policy: OnConcurrentDeploy, request: Request) -> (AgentView, World) {
    let (s, after) = locked(w, policy, request);
    run(deploy(s), after, request.container)
}

/// Whether the store names `container`.
pub open spec fn names(record: Option<LockfileView>, container: Seq<char>) -> bool {
    record matches Some(r) && r.container_id == container
}

/// Whether the store holds the trace of an attempt that never finished.
pub open spec fn unfinished(record: Option<LockfileView>) -> bool {
    record matches Some(r) && r.status == ContainerStatus::Deploying
}

/// The world with this record in the store.
pub open spec fn with_record(w: World, record: Option<LockfileView>) -> World {
    World { record, ..w }
}

/// The world without this container.
pub open spec fn without(w: World, container: Seq<char>) -> World {
    World { containers: w.containers.remove(container), ..w }
}

/// Setting up, step by step: the engine answers, the image arrives, and the
/// container is created.
pub proof fn lemma_set_up(w: World, policy: OnConcurrentDeploy, request: Request)
    ensures
        set_up(w, policy, request) == (
            AgentView {
                phase: Phase::Created,
                container: Some(request.container),
                ..initial(request.image, request.suffix, policy)
            },
            World { containers: w.containers.insert(request.container), ..w },
        ),
{
    let fresh = request.container;
    let s0 = initial(request.image, request.suffix, policy);
    let s1 = advance(s0, EventView::Done);
    let s2 = advance(s1, EventView::Done);
    let s3 = advance(s2, EventView::Created(fresh));
    let created = World { containers: w.containers.insert(fresh), ..w };
    assert(drive(s3, created, fresh, 1) == (s3, created));
    assert(drive(s2, w, fresh, 2) == (s3, created));
    assert(drive(s1, w, fresh, 3) == (s3, created));
    assert(drive(s0, w, fresh, 4) == (s3, created));
}

/// Locking, step by step: the store is read, the fate of what it names is
/// decided, and unless the agent gave up the store takes the lock.
pub proof fn lemma_lock(s: AgentView, w: World, fresh: Seq<char>)
    requires
        s.phase is Created,
        s.container is Some,
    ensures
        ({
            let decided = captured(crate::model::moved(s, Phase::Reading), w.record);
            let held = with_record(
                w,
                Some(record_of(s.container->0, ContainerStatus::Deploying)),
            );
            if decided.phase is Locking {
                run(lock(s), w, fresh) == (crate::model::moved(decided, Phase::Locked), held)
            } else {
                run(lock(s), w, fresh) == (decided, w)
            }
        }),
{
    let s1 = lock(s);
    let s2 = advance(s1, EventView::Record(w.record));
    assert(s2 == captured(s1, w.record));
    if s2.phase is Locking {
        let held = with_record(w, Some(record_of(s.container->0, ContainerStatus::Deploying)));
        let s3 = advance(s2, EventView::Done);
        assert(drive(s3, held, fresh, 2) == (s3, held));
        assert(drive(s2, w, fresh, 3) == (s3, held));
        assert(drive(s1, w, fresh, 4) == (s3, held));
    } else {
        assert(drive(s2, w, fresh, 3) == (s2, w));
        assert(drive(s1, w, fresh, 4) == (s2, w));
    }
}

/// The last two steps of a deployment: the new container is started and
/// recorded as running, unless the engine does not know it.
pub proof fn lemma_promote(s: AgentView, w: World, fresh: Seq<char>)
    requires
        s.phase is Starting,
        s.container is Some,
    ensures
        ({
            let container = s.container->0;
            if w.containers.contains(container) {
                drive(s, w, fresh, 2) == (
                    crate::model::moved(s, Phase::Deployed),
                    World {
                        record: Some(record_of(container, ContainerStatus::Running)),
                        started: w.started.push(container),
                        ..w
                    },
                )
            } else {
                drive(s, w, fresh, 2) == (crate::model::failed(s, AgentError::StartError), w)
            }
        }),
{
    let container = s.container->0;
    if w.containers.contains(container) {
        let w1 = World { started: w.started.push(container), ..w };
        let s1 = advance(s, EventView::Done);
        let w2 = with_record(w1, Some(record_of(container, ContainerStatus::Running)));
        let s2 = advance(s1, EventView::Done);
        assert(drive(s2, w2, fresh, 0) == (s2, w2));
        assert(drive(s1, w1, fresh, 1) == (s2, w2));
        assert(drive(s, w, fresh, 2) == (s2, w2));
    } else {
        let s1 = advance(s, EventView::NotFound);
        assert(drive(s1, w, fresh, 1) == (s1, w));
        assert(drive(s, w, fresh, 2) == (s1, w));
    }
}

/// Deploying with a container to retire, step by step: the store is
/// emptied, the previous container is removed if it is still there, and the
/// new container is promoted.
pub proof fn lemma_deploy_retiring(s: AgentView, w: World, fresh: Seq<char>)
    requires
        s.phase is Locked,
        s.container is Some,
        s.old_container is Some,
    ensures
        run(deploy(s), w, fresh) == drive(
            crate::model::accepted(s),
            without(with_record(w, None), s.old_container->0),
            fresh,
            2,
        ),
{
    let previous = s.old_container->0;
    let s1 = deploy(s);
    let w1 = with_record(w, None);
    let s2 = advance(s1, EventView::Done);
    let w2 = without(w1, previous);
    let (after, event) = perform(w1, pending(s2)->0, fresh);
    assert(after.containers =~= w2.containers);
    assert(after == w2);
    let s3 = advance(s2, event);
    assert(s3 == crate::model::accepted(s));
    assert(drive(s2, w1, fresh, 3) == drive(s3, w2, fresh, 2));
    assert(drive(s1, w, fresh, 4) == drive(s2, w1, fresh, 3));
}

/// Deploying with no container to retire, step by step: the store is read,
/// and the new container is promoted if the store is empty or holds the
/// agent's own lock.
pub proof fn lemma_deploy_first(s: AgentView, w: World, fresh: Seq<char>)
    requires
        s.phase is Locked,
        s.container is Some,
        s.old_container is None,
    ensures
        ({
            let checked = verified(crate::model::moved(s, Phase::Verifying), w.record);
            if checked.phase is Starting {
                run(deploy(s), w, fresh) == drive(crate::model::accepted(s), w, fresh, 2)
            } else {
                run(deploy(s), w, fresh) == (
                    crate::model::failed(
                        crate::model::moved(s, Phase::Verifying),
                        AgentError::InvariantViolation,
                    ),
                    w,
                )
            }
        }),
{
    let s1 = deploy(s);
    let s2 = advance(s1, EventView::Record(w.record));
    assert(s2 == verified(s1, w.record));
    if s2.phase is Starting {
        lemma_promote(s2, w, fresh);
        assert(drive(s2, w, fresh, 3) == drive(s2, w, fresh, 2)) by {
            reveal_with_fuel(drive, 4);
        }
        assert(drive(s1, w, fresh, 4) == drive(s2, w, fresh, 3));
    } else {
        assert(drive(s2, w, fresh, 3) == (s2, w));
        assert(drive(s1, w, fresh, 4) == (s2, w));
    }
}

/// An agent is well-formed when it is made, and stays so whatever it is told.
pub proof fn law_well_formed(
    s: AgentView,
    event: EventView,
    image: Seq<char>,
    suffix: Seq<char>,
    policy: OnConcurrentDeploy,
)
    ensures
        well_formed(initial(image, suffix, policy)),
        well_formed(s) ==> well_formed(lock(s)),
        well_formed(s) ==> well_formed(deploy(s)),
        well_formed(s) ==> well_formed(advance(s, event)),
{
}

/// An agent that has finished stays as it is and asks for nothing, whatever
/// it is told.
pub proof fn law_finished_is_final(s: AgentView, event: EventView)
    requires
        finished(s),
    ensures
        pending(s) is None,
        lock(s) == s,
        deploy(s) == s,
        advance(s, event) == s,
{
}

/// The order of a deployment cannot be changed from outside. An agent holds
/// the lock only once the store has taken its `Deploying` record. It goes to
/// start its container only from having retired the previous one, or from
/// having seen the store empty or with its own lock in it. It goes to record
/// its container as `Running` only once the container has started, and is
/// deployed only once the store has taken that record.
pub proof fn law_order_of_steps(s: AgentView, event: EventView)
    ensures
        lock(s) != s ==> s.phase is Created && lock(s).phase is Reading,
        deploy(s) != s ==> {
            ||| s.phase is Locked && s.old_container is Some && deploy(s).phase is Clearing
            ||| s.phase is Locked && s.old_container is None && deploy(s).phase is Verifying
            ||| !(s.phase is Locked) && deploy(s).phase == Phase::Failed(AgentError::NotLocked)
        },
        advance(s, event).phase is Locked && !(s.phase is Locked) ==> s.phase is Locking
            && event is Done,
        advance(s, event).phase is Removing ==> s.phase is Clearing,
        advance(s, event).phase is Starting ==> {
            ||| s.phase is Removing && (event is Done || event is NotFound)
            ||| s.phase is Verifying && (event matches EventView::Record(stored) && (
            stored matches Some(record) ==> crate::model::is_own_lock(s, record)))
        },
        advance(s, event).phase is Recording ==> s.phase is Starting && event is Done,
        advance(s, event).phase is Deployed && !(s.phase is Deployed) ==> s.phase is Recording
            && event is Done,
{
}

/// How many actions an agent can still ask for before it comes to rest.
pub open spec fn actions_left(s: AgentView) -> nat {
    match s.phase {
        Phase::Connecting => 3,
        Phase::Pulling => 2,
        Phase::Creating => 1,
        Phase::Reading => 2,
        Phase::Locking => 1,
        Phase::Clearing => 4,
        Phase::Removing => 3,
        Phase::Verifying => 3,
        Phase::Starting => 2,
        Phase::Recording => 1,
        Phase::Created | Phase::Locked | Phase::Deployed | Phase::Failed(_) => 0,
    }
}

/// Every answer brings an agent that waits for an action closer to rest.
pub proof fn lemma_advance_nears_rest(s: AgentView, event: EventView)
    ensures
        actions_left(s) == 0 ==> pending(s) is None,
        actions_left(s) > 0 ==> actions_left(advance(s, event)) < actions_left(s),
{
}

/// Agent and driver have come to rest after as many turns as the agent had
/// actions left.
pub proof fn lemma_drive_comes_to_rest(s: AgentView, w: World, fresh: Seq<char>, turns: nat)
    requires
        actions_left(s) <= turns,
    ensures
        pending(drive(s, w, fresh, turns).0) is None,
    decreases turns,
{
    if turns > 0 {
        match pending(s) {
            None => {},
            Some(action) => {
                let (after, event) = perform(w, action, fresh);
                lemma_advance_nears_rest(s, event);
                lemma_drive_comes_to_rest(advance(s, event), after, fresh, (turns - 1) as nat);
            },
        }
    } else {
        lemma_advance_nears_rest(s, EventView::Done);
    }
}

/// However an agent starts out, a run brings it to rest: at the end it waits
/// for nothing.
pub proof fn law_run_comes_to_rest(s: AgentView, w: World, fresh: Seq<char>)
    ensures
        pending(run(s, w, fresh).0) is None,
{
    lemma_drive_comes_to_rest(s, w, fresh, 4);
}

/// Setting up an agent neither reads nor changes the store, removes no
/// container and starts none: until `lock` is called, a failed attempt can be
/// made again as if it had never been made.
pub proof fn law_set_up_touches_no_record(w: World, policy: OnConcurrentDeploy, request: Request)
    ensures
        ({
            let (s, after) = set_up(w, policy, request);
            &&& s.phase is Created
            &&& s.container == Some(request.container)
            &&& after.record == w.record
            &&& after.started == w.started
            &&& after.containers == w.containers.insert(request.container)
        }),
{
    lemma_set_up(w, policy, request);
}

/// What locking leaves behind, whatever the store held: either the agent
/// gave up and the store is as it was, or the agent holds the lock and the
/// store names the new container as `Deploying`. The agent gives up exactly
/// where the store holds an unfinished attempt and the policy is to reject.
pub proof fn law_lock(w: World, policy: OnConcurrentDeploy, request: Request)
    ensures
        ({
            let (s, held) = locked(w, policy, request);
            let rejected = unfinished(w.record) && policy == OnConcurrentDeploy::Reject;
            &&& held.started == w.started
            &&& held.containers == w.containers.insert(request.container)
            &&& s.container == Some(request.container)
            &&& well_formed(s)
            &&& rejected ==> s.phase == Phase::Failed(AgentError::AlreadyDeploying) && held.record
                == w.record
            &&& !rejected ==> {
                &&& s.phase is Locked
                &&& held.record == Some(
                    record_of(request.container, ContainerStatus::Deploying),
                )
                &&& s.old_container == (match w.record {
                    Some(record) => Some(record.container_id),
                    None => None,
                })
                &&& s.abandoned == unfinished(w.record)
            }
        }),
{
    lemma_set_up(w, policy, request);
    let (s, after) = set_up(w, policy, request);
    lemma_lock(s, after, request.container);
}

/// What deploying leaves behind. An agent that holds the lock and whose own
/// lock is still in the store retires the container that it captured, if
/// any, and then starts its own and records it as `Running`. The one thing
/// that stops it on a healthy host is that its own container is the one it
/// retired.
pub proof fn law_deploy(s: AgentView, w: World, fresh: Seq<char>)
    requires
        well_formed(s),
        s.phase is Locked,
        w.record == Some(record_of(s.container->0, ContainerStatus::Deploying)),
        w.containers.contains(s.container->0),
    ensures
        ({
            let (t, after) = run(deploy(s), w, fresh);
            let own = s.container->0;
            let retired_itself = s.old_container == Some(own);
            &&& after.containers == (match s.old_container {
                Some(previous) => w.containers.remove(previous),
                None => w.containers,
            })
            &&& t.accepted
            &&& retired_itself ==> {
                &&& t.phase == Phase::Failed(AgentError::StartError)
                &&& after.record is None
                &&& after.started == w.started
            }
            &&& !retired_itself ==> {
                &&& t.phase is Deployed
                &&& after.record == Some(record_of(own, ContainerStatus::Running))
                &&& after.started == w.started.push(own)
            }
        }),
{
    let own = s.container->0;
    match s.old_container {
        Some(previous) => {
            lemma_deploy_retiring(s, w, fresh);
            lemma_promote(
                crate::model::accepted(s),
                without(with_record(w, None), previous),
                fresh,
            );
        },
        None => {
            lemma_deploy_first(s, w, fresh);
            lemma_promote(crate::model::accepted(s), w, fresh);
        },
    }
}

/// On a healthy host an attempt succeeds unless the store names the very
/// container that the engine hands out, or holds an unfinished attempt that
/// the policy rejects. When it has succeeded, the store holds one record, it
/// says `Running`, and it names the container that was started last.
pub proof fn law_attempt(w: World, policy: OnConcurrentDeploy, request: Request)
    ensures
        ({
            let (s, after) = attempt(w, policy, request);
            &&& s.phase is Deployed <==> !names(w.record, request.container) && !(unfinished(
                w.record,
            ) && policy == OnConcurrentDeploy::Reject)
            &&& s.phase is Deployed ==> {
                &&& after.record == Some(record_of(request.container, ContainerStatus::Running))
                &&& after.started == w.started.push(request.container)
                &&& after.containers.contains(request.container)
            }
        }),
{
    law_lock(w, policy, request);
    let (s, held) = locked(w, policy, request);
    if s.phase is Locked {
        law_deploy(s, held, request.container);
    } else {
        law_finished_is_final(s, EventView::Done);
        assert(drive(s, held, request.container, 4) == (s, held));
    }
}

/// The world after the first `n` of these requests were attempted, one after
/// the other.
pub open spec fn after_first(
    w: World,
    policy: OnConcurrentDeploy,
    requests: Seq<Request>,
    n: nat,
) -> World
    decreases n,
{
    if n == 0 {
        w
    } else {
        attempt(after_first(w, policy, requests, (n - 1) as nat), policy, requests[n - 1]).1
    }
}

/// Whether each of the first `n` attempts succeeded.
pub open spec fn all_deployed(
    w: World,
    policy: OnConcurrentDeploy,
    requests: Seq<Request>,
    n: nat,
) -> bool
    decreases n,
{
    n == 0 || {
        &&& all_deployed(w, policy, requests, (n - 1) as nat)
        &&& attempt(
            after_first(w, policy, requests, (n - 1) as nat),
            policy,
            requests[n - 1],
        ).0.phase is Deployed
    }
}

/// After every one of a series of successful attempts, made one after the
/// other, the store holds one record, and it names the container that was
/// started last: the one of the latest attempt.
pub proof fn law_one_live_record(
    w: World,
    policy: OnConcurrentDeploy,
    requests: Seq<Request>,
    n: nat,
)
    requires
        0 < n <= requests.len(),
        all_deployed(w, policy, requests, n),
    ensures
        ({
            let after = after_first(w, policy, requests, n);
            &&& after.record == Some(
                record_of(requests[n - 1].container, ContainerStatus::Running),
            )
            &&& after.started.len() > 0
            &&& after.started.last() == requests[n - 1].container
        }),
{
    law_attempt(after_first(w, policy, requests, (n - 1) as nat), policy, requests[n - 1]);
}

/// Recovery after a crash. The store says that `crashed` was being deployed,
/// and no agent is left that knows of it. A new agent that reclaims takes
/// `crashed` for the container to retire when it locks, and puts its own
/// container in the store as `Deploying`. When it has deployed, its own
/// container is started and recorded as `Running`, and `crashed` is gone.
pub proof fn law_crash_recovery(w: World, request: Request, crashed: Seq<char>)
    requires
        w.record == Some(record_of(crashed, ContainerStatus::Deploying)),
        crashed != request.container,
    ensures
        ({
            let (s, held) = locked(w, OnConcurrentDeploy::Reclaim, request);
            &&& s.phase is Locked
            &&& s.old_container == Some(crashed)
            &&& s.abandoned
            &&& held.record == Some(record_of(request.container, ContainerStatus::Deploying))
        }),
        ({
            let (s, after) = attempt(w, OnConcurrentDeploy::Reclaim, request);
            &&& s.phase is Deployed
            &&& after.record == Some(record_of(request.container, ContainerStatus::Running))
            &&& !after.containers.contains(crashed)
            &&& after.started.len() > 0
            &&& after.started.last() == request.container
        }),
{
    law_lock(w, OnConcurrentDeploy::Reclaim, request);
    let (s, held) = locked(w, OnConcurrentDeploy::Reclaim, request);
    law_deploy(s, held, request.container);
}

/// No deployment without the lock. An agent that does not hold the lock
/// answers `deploy` by giving up with `NotLocked`, unless it had finished
/// before. Either way it has finished now, it asks for nothing, and a run
/// leaves the world as it is: no container is touched, no record written.
pub proof fn law_lock_before_deploy(s: AgentView, w: World, fresh: Seq<char>)
    requires
        !(s.phase is Locked),
    ensures
        !finished(s) ==> deploy(s).phase == Phase::Failed(AgentError::NotLocked),
        finished(deploy(s)),
        pending(deploy(s)) is None,
        run(deploy(s), w, fresh) == (deploy(s), w),
{
    assert(drive(deploy(s), w, fresh, 4) == (deploy(s), w));
}

/// An agent that was set up and never told to lock does not hold the lock,
/// and neither does one whose locking failed.
pub proof fn law_lock_is_earned(w: World, policy: OnConcurrentDeploy, request: Request)
    ensures
        !(set_up(w, policy, request).0.phase is Locked),
        ({
            let s = locked(w, policy, request).0;
            s.phase is Locked || s.phase is Failed
        }),
{
    lemma_set_up(w, policy, request);
    law_lock(w, policy, request);
}

/// The first deployment. The store is empty: locking finds nothing to
/// retire and puts the new container in the store as `Deploying`. Deploying
/// then removes nothing: once the agent has seen its own lock in the store,
/// the next thing it asks for is to start the new container.
pub proof fn law_first_deployment(w: World, policy: OnConcurrentDeploy, request: Request)
    requires
        w.record is None,
    ensures
        ({
            let (s, held) = locked(w, policy, request);
            let (t, after) = attempt(w, policy, request);
            &&& s.phase is Locked
            &&& s.old_container is None
            &&& held.record == Some(record_of(request.container, ContainerStatus::Deploying))
            &&& pending(deploy(s)) == Some(ActionView::ReadRecord)
            &&& pending(advance(deploy(s), EventView::Record(held.record))) == Some(
                ActionView::Start(request.container),
            )
            &&& t.phase is Deployed
            &&& after.containers == held.containers
            &&& after.started == w.started.push(request.container)
            &&& after.record == Some(record_of(request.container, ContainerStatus::Running))
        }),
{
    law_lock(w, policy, request);
    let (s, held) = locked(w, policy, request);
    law_deploy(s, held, request.container);
}

/// A record that someone else wrote is not overwritten. An agent that holds
/// the lock and has no container to retire finds, when told to deploy, a
/// record in the store that is not its own lock: it gives up with
/// `InvariantViolation` and leaves the world as it is.
pub proof fn law_foreign_record_is_kept(s: AgentView, w: World, fresh: Seq<char>)
    requires
        well_formed(s),
        s.phase is Locked,
        s.old_container is None,
        w.record matches Some(record) && !crate::model::is_own_lock(s, record),
    ensures
        run(deploy(s), w, fresh) == (
            crate::model::failed(deploy(s), AgentError::InvariantViolation),
            w,
        ),
{
    lemma_deploy_first(s, w, fresh);
}

} // verus!
