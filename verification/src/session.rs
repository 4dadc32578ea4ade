//! A scenario as it is played.

use crate::check::{
    answers, holds, inputs, inputs_are, is_told, outcome, outcome_of, shared_in, Outcome,
};
use crate::scenario::{
    is_grounded, scenarios_are_grounded, steps, steps_of, yields_share, yields_user, Scenario,
};
use crate::step::{Action, Answer, Inputs, Query, Reply, Step};
use vstd::prelude::*;

verus! {

/// What a session has the caller do.
#[derive(Clone, Debug, PartialEq, Eq)]
pub enum Request {
    /// Perform an action, with what it builds on.
    Perform { action: Action, inputs: Inputs },
    /// Perform an action, with what it builds on, and look at something, with
    /// no other task running in between.
    PerformAndObserve { action: Action, inputs: Inputs, query: Query },
    /// Look at something.
    Observe(Query),
    /// Nothing more: the scenario is over. Its server is to be taken down
    /// where it was started, whether the scenario passed or not.
    Finish { passed: bool, drop_server: bool },
}

/// How far a scenario has come.
#[verifier::ext_equal]
pub struct Progress {
    /// The scenario.
    pub scenario: Scenario,
    /// The replies by which its steps were done so far, in order.
    pub log: Seq<Reply>,
    /// Whether the step after those has failed.
    pub failed: bool,
}

impl Progress {
    /// A scenario of which nothing has been done.
    pub open spec fn begun(scenario: Scenario) -> Progress {
        Progress { scenario, log: Seq::empty(), failed: false }
    }

    /// Every step has been done.
    pub open spec fn passed(self) -> bool {
        !self.failed && self.log.len() >= steps_of(self.scenario).len()
    }

    /// There is nothing more to do.
    pub open spec fn is_over(self) -> bool {
        self.failed || self.passed()
    }

    /// The step that is to be done next.
    pub open spec fn step(self) -> Step {
        steps_of(self.scenario)[self.log.len() as int]
    }

    /// What `reply` does to the step that is to be done next.
    pub open spec fn outcome(self, reply: Reply) -> Outcome {
        outcome_of(self.step(), self.log, reply)
    }

    /// How far the scenario has come after one more reply.
    pub open spec fn after(self, reply: Reply) -> Progress {
        if self.is_over() {
            self
        } else {
            match self.outcome(reply) {
                Outcome::Accept => Progress { log: self.log.push(reply), ..self },
                Outcome::Refuse => Progress { failed: true, ..self },
                Outcome::Again | Outcome::Misfit => self,
            }
        }
    }

    /// How far the scenario has come after all these replies.
    pub open spec fn after_all(self, replies: Seq<Reply>) -> Progress
        decreases replies.len(),
    {
        if replies.len() == 0 {
            self
        } else {
            self.after_all(replies.drop_last()).after(replies.last())
        }
    }

    /// Every step that was done was done by a reply that it accepts.
    pub open spec fn is_faithful(self) -> bool {
        &&& self.log.len() <= steps_of(self.scenario).len()
        &&& self.failed ==> self.log.len() < steps_of(self.scenario).len()
        &&& forall|k: int|
            0 <= k < self.log.len() ==> outcome_of(
                steps_of(self.scenario)[k],
                self.log.take(k),
                #[trigger] self.log[k],
            ) == Outcome::Accept
    }

    /// The scenario has started its server.
    pub open spec fn has_server(self) -> bool {
        exists|k: int| 0 <= k < self.log.len() && starts_server(steps_of(self.scenario)[k])
    }

    /// `request` is what is to be done next.
    pub open spec fn asks_for(self, request: Request) -> bool {
        if self.is_over() {
            request == (Request::Finish { passed: self.passed(), drop_server: self.has_server() })
        } else {
            match self.step() {
                Step::Do(a) => request matches Request::Perform { action, inputs } && action == a
                    && inputs_are(a, self.log, inputs),
                Step::DoThenCheck(a, q, _) => request matches Request::PerformAndObserve {
                    action,
                    inputs,
                    query,
                } && action == a && inputs_are(a, self.log, inputs) && query == q,
                Step::Note(q) | Step::Check(q, _) | Step::Wait(q, _) => request
                    == Request::Observe(q),
            }
        }
    }
}

/// The step starts the server.
pub open spec fn starts_server(step: Step) -> bool {
    step matches Step::Do(Action::StartServer)
}

/// A scenario that is being played.
pub struct Session {
    scenario: Scenario,
    steps: Vec<Step>,
    log: Vec<Reply>,
    failed: bool,
}

impl View for Session {
    type V = Progress;

    closed spec fn view(&self) -> Progress {
        Progress { scenario: self.scenario, log: self.log@, failed: self.failed }
    }
}

impl Session {
    #[verifier::type_invariant]
    closed spec fn follows_its_scenario(self) -> bool {
        &&& self.steps@ == steps_of(self.scenario)
        &&& self@.is_faithful()
    }

    /// Begins a scenario.
    pub fn begin(scenario: Scenario) -> (session: Session)
        ensures
            session@ == Progress::begun(scenario),
    {
        Session { scenario, steps: steps(scenario), log: Vec::new(), failed: false }
    }

    /// What the caller is to do next.
    pub fn request(&self) -> (request: Request)
        ensures
            self@.asks_for(request),
    {
        proof {
            use_type_invariant(self);
        }
        if self.failed || self.log.len() >= self.steps.len() {
            return Request::Finish {
                passed: !self.failed,
                drop_server: self.has_server(),
            };
        }
        match self.steps[self.log.len()] {
            Step::Do(action) => {
                proof {
                    scenarios_are_grounded(self.scenario, self.log@.len() as int);
                    grounded_is_told(self@, action);
                }
                Request::Perform { action, inputs: inputs(action, &self.log) }
            },
            Step::DoThenCheck(action, query, _) => {
                proof {
                    scenarios_are_grounded(self.scenario, self.log@.len() as int);
                    grounded_is_told(self@, action);
                }
                Request::PerformAndObserve { action, inputs: inputs(action, &self.log), query }
            },
            Step::Note(query) => Request::Observe(query),
            Step::Check(query, _) => Request::Observe(query),
            Step::Wait(query, _) => Request::Observe(query),
        }
    }

    fn has_server(&self) -> (b: bool)
        requires
            self@.is_faithful(),
            self.steps@ == steps_of(self@.scenario),
        ensures
            b == self@.has_server(),
    {
        let mut k: usize = 0;
        while k < self.log.len()
            invariant
                k <= self.log@.len() <= self.steps@.len(),
                self.steps@ == steps_of(self@.scenario),
                self@.log == self.log@,
                forall|j: int| 0 <= j < k ==> !starts_server(#[trigger] self.steps@[j]),
            decreases self.log@.len() - k,
        {
            if let Step::Do(Action::StartServer) = self.steps[k] {
                assert(starts_server(steps_of(self@.scenario)[k as int]));
                return true;
            }
            k += 1;
        }
        false
    }

    /// Whether there is nothing more to do.
    pub fn is_over(&self) -> (over: bool)
        ensures
            over == self@.is_over(),
    {
        proof {
            use_type_invariant(self);
        }
        self.failed || self.log.len() >= self.steps.len()
    }

    /// What telling this reply would do, without telling it.
    pub fn judge(&self, reply: &Reply) -> (result: Outcome)
        requires
            !self@.is_over(),
        ensures
            result == self@.outcome(*reply),
    {
        proof {
            use_type_invariant(self);
        }
        outcome(self.steps[self.log.len()], &self.log, reply)
    }

    /// Tells the session what came of its request. A reply that the step cannot
    /// have, and what is seen before it is as expected, change nothing.
    pub fn tell(&mut self, reply: Reply) -> (result: Outcome)
        requires
            !old(self)@.is_over(),
        ensures
            result == old(self)@.outcome(reply),
            final(self)@ == old(self)@.after(reply),
    {
        proof {
            use_type_invariant(&*self);
        }
        let result = outcome(self.steps[self.log.len()], &self.log, &reply);
        match result {
            Outcome::Accept => {
                let mut log: Vec<Reply> = Vec::new();
                std::mem::swap(&mut log, &mut self.log);
                log.push(reply);
                proof {
                    stays_faithful(old(self)@, reply);
                }
                self.log = log;
            },
            Outcome::Refuse => {
                self.failed = true;
            },
            Outcome::Again | Outcome::Misfit => {},
        }
        result
    }
}

proof fn stays_faithful(p: Progress, reply: Reply)
    requires
        p.is_faithful(),
    ensures
        p.after(reply).is_faithful(),
{
    let q = p.after(reply);
    assert forall|k: int| 0 <= k < q.log.len() implies outcome_of(
        steps_of(q.scenario)[k],
        q.log.take(k),
        #[trigger] q.log[k],
    ) == Outcome::Accept by {
        if k < p.log.len() {
            assert(q.log.take(k) =~= p.log.take(k));
            assert(p.log[k] == q.log[k]);
        } else {
            assert(q.log.take(k) =~= p.log);
        }
    }
}

proof fn grounded_is_told(p: Progress, action: Action)
    requires
        p.is_faithful(),
        !p.is_over(),
        is_grounded(steps_of(p.scenario), p.log.len() as int),
        match p.step() {
            Step::Do(a) | Step::DoThenCheck(a, _, _) => a == action,
            _ => false,
        },
    ensures
        is_told(action, p.log),
{
}

/// `at` picks `log` out of `replies`, in order.
pub open spec fn picks(replies: Seq<Reply>, at: Seq<int>, log: Seq<Reply>) -> bool {
    &&& at.len() == log.len()
    &&& forall|k: int|
        0 <= k < at.len() ==> 0 <= #[trigger] at[k] < replies.len() && log[k] == replies[at[k]]
    &&& forall|j: int, k: int| 0 <= j < k < at.len() ==> at[j] < at[k]
}

/// Whatever a session is told, its steps are done in the order of its scenario,
/// each by a reply that it accepts, and those replies were given in that order.
pub proof fn steps_are_done_in_order(scenario: Scenario, replies: Seq<Reply>) -> (at: Seq<int>)
    ensures
        ({
            let p = Progress::begun(scenario).after_all(replies);
            p.scenario == scenario && p.is_faithful() && picks(replies, at, p.log)
        }),
    decreases replies.len(),
{
    if replies.len() == 0 {
        Seq::empty()
    } else {
        let before = Progress::begun(scenario).after_all(replies.drop_last());
        let at = steps_are_done_in_order(scenario, replies.drop_last());
        stays_faithful(before, replies.last());
        assert forall|k: int| 0 <= k < at.len() implies 0 <= #[trigger] at[k] < replies.len()
            && before.log[k] == replies[at[k]] by {
            assert(replies.drop_last()[at[k]] == replies[at[k]]);
        }
        if !before.is_over() && before.outcome(replies.last()) == Outcome::Accept {
            at.push(replies.len() - 1)
        } else {
            at
        }
    }
}

/// A session that has passed has seen everything that its scenario expects: of
/// every step that looks, whether once or until, something was seen that is as
/// expected after the steps before it.
pub proof fn passed_has_seen_everything(scenario: Scenario, replies: Seq<Reply>, k: int)
    requires
        Progress::begun(scenario).after_all(replies).passed(),
        0 <= k < steps_of(scenario).len(),
    ensures
        ({
            let log = Progress::begun(scenario).after_all(replies).log;
            &&& log.len() == steps_of(scenario).len()
            &&& replies.contains(log[k])
            &&& !(log[k] is Failed)
            &&& match steps_of(scenario)[k] {
                Step::Check(query, expect)
                | Step::Wait(query, expect)
                | Step::DoThenCheck(_, query, expect) => log[k] matches Reply::Seen(answer)
                    && answers(query, answer) && holds(expect, answer, log.take(k)),
                _ => true,
            }
        }),
{
    let at = steps_are_done_in_order(scenario, replies);
    let p = Progress::begun(scenario).after_all(replies);
    assert(outcome_of(steps_of(scenario)[k], p.log.take(k), p.log[k]) == Outcome::Accept);
    assert(replies[at[k]] == p.log[k]);
}

/// A session fails by a reply that its step refuses, and by nothing else: a
/// step that came to nothing, or something seen that a step which looks once
/// does not expect.
pub proof fn fails_only_when_refused(p: Progress, reply: Reply)
    requires
        !p.is_over(),
    ensures
        p.after(reply).failed <==> reply is Failed || match p.step() {
            Step::Check(query, expect) | Step::DoThenCheck(_, query, expect) => {
                reply matches Reply::Seen(answer) && answers(query, answer) && !holds(
                    expect,
                    answer,
                    p.log,
                )
            },
            _ => false,
        },
{
}

/// A session that is over stays as it is.
pub proof fn over_is_final(p: Progress, replies: Seq<Reply>)
    requires
        p.is_over(),
    ensures
        p.after_all(replies) == p,
    decreases replies.len(),
{
    if replies.len() > 0 {
        over_is_final(p, replies.drop_last());
    }
}

/// A step that looks until something is as expected is never failed by what is
/// seen: it is done once that is as expected, and is asked for again before.
pub proof fn waiting_is_patient(p: Progress, query: Query, answer: Answer)
    requires
        !p.is_over(),
        p.step() matches Step::Wait(q, _) && q == query,
        answers(query, answer),
    ensures
        ({
            let q = p.after(Reply::Seen(answer));
            &&& !q.failed
            &&& holds(p.step()->Wait_1, answer, p.log) ==> q.log == p.log.push(Reply::Seen(answer))
            &&& !holds(p.step()->Wait_1, answer, p.log) ==> q == p
        }),
{
}

/// A guest joins by what came of sharing: the worktree and the token that a
/// guest is told to join with are those that the host's worktree was shared
/// with.
pub proof fn guests_join_what_was_shared(p: Progress, request: Request)
    requires
        p.is_faithful(),
        !p.is_over(),
        p.asks_for(request),
        p.step() matches Step::Do(Action::OpenRemote { .. }),
    ensures
        exists|k: int|
            0 <= k < p.log.len() && yields_share(#[trigger] steps_of(p.scenario)[k]) && (
            request matches Request::Perform {
                inputs: Inputs::Worktree { worktree_id, token },
                ..
            } && p.log[k] == (Reply::Shared { worktree_id, token })),
{
    scenarios_are_grounded(p.scenario, p.log.len() as int);
    let share = match p.step() {
        Step::Do(Action::OpenRemote { share, .. }) => share,
        _ => 0,
    };
    assert(yields_share(steps_of(p.scenario)[share as int]));
    assert(shared_in(p.log, share) is Some);
}

/// Every scenario starts one server, and makes no client before.
pub proof fn server_comes_first(scenario: Scenario)
    ensures
        exists|s: int|
            0 <= s < steps_of(scenario).len() && starts_server(#[trigger] steps_of(scenario)[s])
                && forall|k: int|
                0 <= k < steps_of(scenario).len() ==> {
                    &&& starts_server(#[trigger] steps_of(scenario)[k]) ==> k == s
                    &&& yields_user(steps_of(scenario)[k]) ==> k > s
                },
{
    let s = server_step(scenario);
    let steps = steps_of(scenario);
    assert(starts_server(steps[s]));
    assert forall|k: int| 0 <= k < steps.len() implies {
        &&& starts_server(#[trigger] steps[k]) ==> k == s
        &&& yields_user(steps[k]) ==> k > s
    } by {
        step_against_server(scenario, k);
    }
}

/// The number of the step that starts the server.
spec fn server_step(scenario: Scenario) -> int {
    if scenario is ShareWorktree {
        3
    } else {
        0
    }
}

proof fn step_against_server(scenario: Scenario, k: int)
    requires
        0 <= k < steps_of(scenario).len(),
    ensures
        starts_server(steps_of(scenario)[k]) ==> k == server_step(scenario),
        yields_user(steps_of(scenario)[k]) ==> k > server_step(scenario),
{
}

/// A session that has passed has its server taken down.
pub proof fn passed_takes_server_down(p: Progress, request: Request)
    requires
        p.passed(),
        p.asks_for(request),
    ensures
        request == (Request::Finish { passed: true, drop_server: true }),
{
    server_comes_first(p.scenario);
}

/// Telling a session something adds the reply to what was done, or marks the session
/// as failed, or leaves it as it is, as the outcome of the reply says. Nothing else
/// changes, and a session begins with nothing done.
pub proof fn telling_does_one_thing(p: Progress, reply: Reply)
    requires
        !p.is_over(),
    ensures
        p.after(reply).scenario == p.scenario,
        p.outcome(reply) is Accept ==> p.after(reply).log == p.log.push(reply) && !p.after(
            reply,
        ).failed,
        p.outcome(reply) is Refuse ==> p.after(reply).log == p.log && p.after(reply).failed,
        p.outcome(reply) is Again || p.outcome(reply) is Misfit ==> p.after(reply) == p,
        Progress::begun(p.scenario).log.len() == 0,
        !Progress::begun(p.scenario).failed,
        Progress::begun(p.scenario).scenario == p.scenario,
{
}

/// A session that is not over asks for what its next step says, with the action's
/// inputs where there is an action; and it is over exactly when it has failed or
/// every step is done.
pub proof fn requests_follow_the_steps(p: Progress, request: Request)
    requires
        p.asks_for(request),
    ensures
        request is Finish <==> p.failed || p.log.len() >= steps_of(p.scenario).len(),
        request is Finish <==> p.is_over(),
        p.passed() <==> request is Finish && !p.failed,
        !(request is Finish) ==> match steps_of(p.scenario)[p.log.len() as int] {
            Step::Do(action) => request is Perform && request->Perform_action == action
                && inputs_are(action, p.log, request->Perform_inputs),
            Step::DoThenCheck(action, query, _) => request is PerformAndObserve
                && request->PerformAndObserve_action == action && inputs_are(
                action,
                p.log,
                request->PerformAndObserve_inputs,
            ) && request->query == query,
            Step::Note(query) => request == Request::Observe(query),
            Step::Check(query, _) => request == Request::Observe(query),
            Step::Wait(query, _) => request == Request::Observe(query),
        },
{
}

/// However a session ends, it says whether it has passed, and has the server taken
/// down if and only if the step that starts it was done: the fourth where a worktree
/// is shared, the first otherwise.
pub proof fn end_is_reported(p: Progress, request: Request)
    requires
        p.is_faithful(),
        p.is_over(),
        p.asks_for(request),
    ensures
        request == (Request::Finish {
            passed: !p.failed,
            drop_server: p.log.len() > if p.scenario is ShareWorktree {
                3int
            } else {
                0
            },
        }),
{
    let steps = steps_of(p.scenario);
    let s = server_step(p.scenario);
    assert(starts_server(steps[s]));
    if p.has_server() {
        let k = choose|k: int| 0 <= k < p.log.len() && starts_server(steps_of(p.scenario)[k]);
        step_against_server(p.scenario, k);
    }
}

} // verus!
