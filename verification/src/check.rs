//! What a reply to a step means.

use crate::client::DbId;
use crate::step::{
    Action, Answer, ChannelDetails, ChannelMessage, Expect, Inputs, Query, Reply, Seat, Step,
};
use vstd::prelude::*;

verus! {

/// What a reply does to the step that it is a reply to.
#[derive(Clone, Copy, Debug, PartialEq, Eq, Structural)]
pub enum Outcome {
    /// The step is done.
    Accept,
    /// The step has failed, and the scenario with it.
    Refuse,
    /// The step is still to be done.
    Again,
    /// The reply is none that the step can have.
    Misfit,
}

/// `answer` is of the kind that `query` asks for.
pub open spec fn answers(query: Query, answer: Answer) -> bool {
    match query {
        Query::Text { .. } | Query::FileText { .. } => answer is Text,
        Query::HasOpenBuffer { .. } | Query::IsDirty { .. } | Query::HasConflict { .. } =>
            answer is Flag,
        Query::SelectionSets { .. } | Query::FileCount { .. } => answer is Count,
        Query::Replica { .. } => answer is Replica,
        Query::Peers { .. } => answer is Replicas,
        Query::Mtime { .. } => answer is Time,
        Query::Paths { .. } | Query::PendingMessages { .. } => answer is Texts,
        Query::AvailableChannels { .. } => answer is Channels,
        Query::Messages { .. } => answer is Messages,
    }
}

/// `reply` tells of `action` that it was done.
pub open spec fn completes(action: Action, reply: Reply) -> bool {
    match action {
        Action::CreateClient { .. } => reply is User,
        Action::Share { .. } => reply is Shared,
        Action::CreateOrg { .. } => reply is Org,
        Action::CreateOrgChannel { .. } => reply is Channel,
        _ => reply is Done,
    }
}

/// The user that came of step `step`.
pub open spec fn user_in(log: Seq<Reply>, step: usize) -> Option<DbId> {
    if step < log.len() && log[step as int] is User {
        Some(log[step as int]->User_0)
    } else {
        None
    }
}

/// The organisation that came of step `step`.
pub open spec fn org_in(log: Seq<Reply>, step: usize) -> Option<DbId> {
    if step < log.len() && log[step as int] is Org {
        Some(log[step as int]->Org_0)
    } else {
        None
    }
}

/// The channel that came of step `step`.
pub open spec fn channel_in(log: Seq<Reply>, step: usize) -> Option<DbId> {
    if step < log.len() && log[step as int] is Channel {
        Some(log[step as int]->Channel_0)
    } else {
        None
    }
}

/// How the worktree shared in step `step` can be joined.
pub open spec fn shared_in(log: Seq<Reply>, step: usize) -> Option<(u64, String)> {
    if step < log.len() && log[step as int] is Shared {
        Some((log[step as int]->worktree_id, log[step as int]->token))
    } else {
        None
    }
}

/// What was seen in step `step`.
pub open spec fn seen_in(log: Seq<Reply>, step: usize) -> Option<Answer> {
    if step < log.len() && log[step as int] is Seen {
        Some(log[step as int]->Seen_0)
    } else {
        None
    }
}

/// `answer` is as expected, after the earlier steps were replied to as in `log`.
pub open spec fn holds(expect: Expect, answer: Answer, log: Seq<Reply>) -> bool {
    match expect {
        Expect::TextIs(t) => answer matches Answer::Text(s) && s@ == t@,
        Expect::TextAsIn(step) => answer matches Answer::Text(s) && seen_in(log, step) matches Some(
            Answer::Text(t),
        ) && s@ == t@,
        Expect::FlagIs(b) => answer == Answer::Flag(b),
        Expect::CountIs(n) => answer == Answer::Count(n),
        Expect::PeersNumber(n) => answer matches Answer::Replicas(r) && r@.len() == n,
        Expect::PeersInclude(step) => answer matches Answer::Replicas(r) && seen_in(
            log,
            step,
        ) matches Some(Answer::Replica(id)) && r@.contains(id),
        Expect::TimeNotAsIn(step) => answer matches Answer::Time(t) && seen_in(log, step) matches Some(
            Answer::Time(u),
        ) && t != u,
        Expect::TwoTexts(a, b) => answer matches Answer::Texts(v) && v@.len() == 2 && v@[0]@ == a@
            && v@[1]@ == b@,
        Expect::ThreeTexts(a, b, c) => answer matches Answer::Texts(v) && v@.len() == 3 && v@[0]@
            == a@ && v@[1]@ == b@ && v@[2]@ == c@,
        Expect::OneChannel { channel, name } => answer matches Answer::Channels(v) && channel_in(
            log,
            channel,
        ) matches Some(id) && v@.len() == 1 && v@[0].id == id.proto && v@[0].name@ == name@,
        Expect::NoMessage => answer matches Answer::Messages(v) && v@.len() == 0,
        Expect::OneMessage { sender, body } => answer matches Answer::Messages(v) && user_in(
            log,
            sender,
        ) matches Some(id) && v@.len() == 1 && v@[0].sender_id == id.proto && v@[0].body@ == body@,
    }
}

/// What `reply` does to the step that follows those replied to in `log`.
pub open spec fn outcome_of(step: Step, log: Seq<Reply>, reply: Reply) -> Outcome {
    if reply is Failed {
        Outcome::Refuse
    } else {
        match step {
            Step::Do(action) => if completes(action, reply) {
                Outcome::Accept
            } else {
                Outcome::Misfit
            },
            Step::Note(query) => if reply is Seen && answers(query, reply->Seen_0) {
                Outcome::Accept
            } else {
                Outcome::Misfit
            },
            Step::Check(query, expect) | Step::DoThenCheck(_, query, expect) => if !(reply is Seen
                && answers(query, reply->Seen_0)) {
                Outcome::Misfit
            } else if holds(expect, reply->Seen_0, log) {
                Outcome::Accept
            } else {
                Outcome::Refuse
            },
            Step::Wait(query, expect) => if !(reply is Seen && answers(query, reply->Seen_0)) {
                Outcome::Misfit
            } else if holds(expect, reply->Seen_0, log) {
                Outcome::Accept
            } else {
                Outcome::Again
            },
        }
    }
}

/// Everything that `action` builds on is told in `log`.
pub open spec fn is_told(action: Action, log: Seq<Reply>) -> bool {
    match action {
        Action::OpenRemote { share, .. } => shared_in(log, share) is Some,
        Action::AddOrgMember { org, user, .. } => org_in(log, org) is Some && user_in(
            log,
            user,
        ) is Some,
        Action::CreateOrgChannel { org, .. } => org_in(log, org) is Some,
        Action::AddChannelMember { channel, user, .. } => channel_in(log, channel) is Some
            && user_in(log, user) is Some,
        Action::CreateChannelMessage { channel, sender, .. } => channel_in(log, channel) is Some
            && user_in(log, sender) is Some,
        Action::GetChannel { channel, .. } => channel_in(log, channel) is Some,
        _ => true,
    }
}

/// `inputs` is what `action` builds on, after the earlier steps were replied to
/// as in `log`.
pub open spec fn inputs_are(action: Action, log: Seq<Reply>, inputs: Inputs) -> bool {
    match action {
        Action::CreateClient { seat, .. } => inputs matches Inputs::UserName(name) && name@
            == seat.user_name_text(),
        Action::OpenRemote { share, .. } => inputs matches Inputs::Worktree { worktree_id, token }
            && shared_in(log, share) == Some((worktree_id, token)),
        Action::AddOrgMember { org, user, .. } => inputs matches Inputs::Member { group, user: u }
            && org_in(log, org) == Some(group) && user_in(log, user) == Some(u),
        Action::CreateOrgChannel { org, .. } => inputs matches Inputs::Org(o) && org_in(log, org)
            == Some(o),
        Action::AddChannelMember { channel, user, .. } => inputs matches Inputs::Member {
            group,
            user: u,
        } && channel_in(log, channel) == Some(group) && user_in(log, user) == Some(u),
        Action::CreateChannelMessage { channel, sender, .. } => inputs matches Inputs::Post {
            channel: c,
            sender: s,
        } && channel_in(log, channel) == Some(c) && user_in(log, sender) == Some(s),
        Action::GetChannel { channel, .. } => inputs matches Inputs::Channel(c) && channel_in(
            log,
            channel,
        ) == Some(c),
        _ => inputs is Nothing,
    }
}

fn is_answer(query: Query, answer: &Answer) -> (b: bool)
    ensures
        b == answers(query, *answer),
{
    match query {
        Query::Text { .. } | Query::FileText { .. } => matches!(answer, Answer::Text(_)),
        Query::HasOpenBuffer { .. } | Query::IsDirty { .. } | Query::HasConflict { .. } =>
            matches!(answer, Answer::Flag(_)),
        Query::SelectionSets { .. } | Query::FileCount { .. } => matches!(answer, Answer::Count(_)),
        Query::Replica { .. } => matches!(answer, Answer::Replica(_)),
        Query::Peers { .. } => matches!(answer, Answer::Replicas(_)),
        Query::Mtime { .. } => matches!(answer, Answer::Time(_)),
        Query::Paths { .. } | Query::PendingMessages { .. } => matches!(answer, Answer::Texts(_)),
        Query::AvailableChannels { .. } => matches!(answer, Answer::Channels(_)),
        Query::Messages { .. } => matches!(answer, Answer::Messages(_)),
    }
}

fn is_completion(action: Action, reply: &Reply) -> (b: bool)
    ensures
        b == completes(action, *reply),
{
    match action {
        Action::CreateClient { .. } => matches!(reply, Reply::User(_)),
        Action::Share { .. } => matches!(reply, Reply::Shared { .. }),
        Action::CreateOrg { .. } => matches!(reply, Reply::Org(_)),
        Action::CreateOrgChannel { .. } => matches!(reply, Reply::Channel(_)),
        _ => matches!(reply, Reply::Done),
    }
}

fn find_user(log: &Vec<Reply>, step: usize) -> (user: Option<DbId>)
    ensures
        user == user_in(log@, step),
{
    if step < log.len() {
        match &log[step] {
            Reply::User(id) => Some(*id),
            _ => None,
        }
    } else {
        None
    }
}

fn find_org(log: &Vec<Reply>, step: usize) -> (org: Option<DbId>)
    ensures
        org == org_in(log@, step),
{
    if step < log.len() {
        match &log[step] {
            Reply::Org(id) => Some(*id),
            _ => None,
        }
    } else {
        None
    }
}

fn find_channel(log: &Vec<Reply>, step: usize) -> (channel: Option<DbId>)
    ensures
        channel == channel_in(log@, step),
{
    if step < log.len() {
        match &log[step] {
            Reply::Channel(id) => Some(*id),
            _ => None,
        }
    } else {
        None
    }
}

fn find_seen(log: &Vec<Reply>, step: usize) -> (seen: Option<&Answer>)
    ensures
        match seen {
            Some(a) => seen_in(log@, step) == Some(*a),
            None => seen_in(log@, step) is None,
        },
{
    if step < log.len() {
        match &log[step] {
            Reply::Seen(answer) => Some(answer),
            _ => None,
        }
    } else {
        None
    }
}

fn same_text(s: &String, t: &str) -> (b: bool)
    ensures
        b == (s@ == t@),
{
    *s == t.to_owned()
}

fn includes(replicas: &Vec<u16>, id: u16) -> (b: bool)
    ensures
        b == replicas@.contains(id),
{
    let mut i: usize = 0;
    while i < replicas.len()
        invariant
            i <= replicas@.len(),
            forall|j: int| 0 <= j < i ==> replicas@[j] != id,
        decreases replicas@.len() - i,
    {
        if replicas[i] == id {
            return true;
        }
        i += 1;
    }
    false
}

/// Whether `answer` is as expected, after the earlier steps were replied to as
/// in `log`.
pub fn is_as_expected(expect: Expect, answer: &Answer, log: &Vec<Reply>) -> (b: bool)
    ensures
        b == holds(expect, *answer, log@),
{
    match (expect, answer) {
        (Expect::TextIs(t), Answer::Text(s)) => same_text(s, t),
        (Expect::TextAsIn(step), Answer::Text(s)) => match find_seen(log, step) {
            Some(Answer::Text(t)) => same_text(s, t.as_str()),
            _ => false,
        },
        (Expect::FlagIs(b), Answer::Flag(c)) => b == *c,
        (Expect::CountIs(n), Answer::Count(m)) => n == *m,
        (Expect::PeersNumber(n), Answer::Replicas(r)) => r.len() as u64 == n,
        (Expect::PeersInclude(step), Answer::Replicas(r)) => match find_seen(log, step) {
            Some(Answer::Replica(id)) => includes(r, *id),
            _ => false,
        },
        (Expect::TimeNotAsIn(step), Answer::Time(t)) => match find_seen(log, step) {
            Some(Answer::Time(u)) => *t != *u,
            _ => false,
        },
        (Expect::TwoTexts(a, b), Answer::Texts(v)) => v.len() == 2 && same_text(&v[0], a)
            && same_text(&v[1], b),
        (Expect::ThreeTexts(a, b, c), Answer::Texts(v)) => v.len() == 3 && same_text(&v[0], a)
            && same_text(&v[1], b) && same_text(&v[2], c),
        (Expect::OneChannel { channel, name }, Answer::Channels(v)) => match find_channel(
            log,
            channel,
        ) {
            Some(id) => v.len() == 1 && v[0].id == id.proto && same_text(&v[0].name, name),
            None => false,
        },
        (Expect::NoMessage, Answer::Messages(v)) => v.len() == 0,
        (Expect::OneMessage { sender, body }, Answer::Messages(v)) => match find_user(log, sender) {
            Some(id) => v.len() == 1 && v[0].sender_id == id.proto && same_text(&v[0].body, body),
            None => false,
        },
        _ => false,
    }
}

/// What `reply` does to the step that follows those replied to in `log`.
pub fn outcome(step: Step, log: &Vec<Reply>, reply: &Reply) -> (outcome: Outcome)
    ensures
        outcome == outcome_of(step, log@, *reply),
{
    match (step, reply) {
        (_, Reply::Failed) => Outcome::Refuse,
        (Step::Do(action), _) => if is_completion(action, reply) {
            Outcome::Accept
        } else {
            Outcome::Misfit
        },
        (Step::Note(query), Reply::Seen(answer)) => if is_answer(query, answer) {
            Outcome::Accept
        } else {
            Outcome::Misfit
        },
        (Step::Check(query, expect), Reply::Seen(answer)) | (
            Step::DoThenCheck(_, query, expect),
            Reply::Seen(answer),
        ) => if !is_answer(query, answer) {
            Outcome::Misfit
        } else if is_as_expected(expect, answer, log) {
            Outcome::Accept
        } else {
            Outcome::Refuse
        },
        (Step::Wait(query, expect), Reply::Seen(answer)) => if !is_answer(query, answer) {
            Outcome::Misfit
        } else if is_as_expected(expect, answer, log) {
            Outcome::Accept
        } else {
            Outcome::Again
        },
        _ => Outcome::Misfit,
    }
}

/// What `action` builds on, after the earlier steps were replied to as in `log`.
pub fn inputs(action: Action, log: &Vec<Reply>) -> (inputs: Inputs)
    requires
        is_told(action, log@),
    ensures
        inputs_are(action, log@, inputs),
{
    match action {
        Action::CreateClient { seat, .. } => Inputs::UserName(seat.user_name()),
        Action::OpenRemote { share, .. } => match &log[share] {
            Reply::Shared { worktree_id, token } => Inputs::Worktree {
                worktree_id: *worktree_id,
                token: token.clone(),
            },
            _ => Inputs::Nothing,
        },
        Action::AddOrgMember { org, user, .. } => match (find_org(log, org), find_user(log, user)) {
            (Some(group), Some(user)) => Inputs::Member { group, user },
            _ => Inputs::Nothing,
        },
        Action::CreateOrgChannel { org, .. } => match find_org(log, org) {
            Some(org) => Inputs::Org(org),
            None => Inputs::Nothing,
        },
        Action::AddChannelMember { channel, user, .. } => match (
            find_channel(log, channel),
            find_user(log, user),
        ) {
            (Some(group), Some(user)) => Inputs::Member { group, user },
            _ => Inputs::Nothing,
        },
        Action::CreateChannelMessage { channel, sender, .. } => match (
            find_channel(log, channel),
            find_user(log, sender),
        ) {
            (Some(channel), Some(sender)) => Inputs::Post { channel, sender },
            _ => Inputs::Nothing,
        },
        Action::GetChannel { channel, .. } => match find_channel(log, channel) {
            Some(channel) => Inputs::Channel(channel),
            None => Inputs::Nothing,
        },
        _ => Inputs::Nothing,
    }
}

/// A look that expects `expect` takes `answer` for what is expected if and only if
/// `met`: a look that is made once is then done and fails otherwise, and one that is
/// made until is then done and is made again otherwise.
pub open spec fn is_judged(
    query: Query,
    expect: Expect,
    log: Seq<Reply>,
    answer: Answer,
    met: bool,
) -> bool {
    &&& holds(expect, answer, log) == met
    &&& outcome_of(Step::Check(query, expect), log, Reply::Seen(answer)) == if met {
        Outcome::Accept
    } else {
        Outcome::Refuse
    }
    &&& outcome_of(Step::Wait(query, expect), log, Reply::Seen(answer)) == if met {
        Outcome::Accept
    } else {
        Outcome::Again
    }
    &&& forall|action: Action| #[trigger]
        outcome_of(Step::DoThenCheck(action, query, expect), log, Reply::Seen(answer)) == if met {
            Outcome::Accept
        } else {
            Outcome::Refuse
        }
}

/// A look at a text is met by the same characters and by no others: those given,
/// or those that were seen in the step that it builds on.
pub proof fn texts_are_judged(
    query: Query,
    text: String,
    expected: &'static str,
    earlier: String,
    step: usize,
    log: Seq<Reply>,
)
    requires
        query is Text || query is FileText,
    ensures
        is_judged(query, Expect::TextIs(expected), log, Answer::Text(text), text@ == expected@),
        step < log.len() && log[step as int] == Reply::Seen(Answer::Text(earlier)) ==> is_judged(
            query,
            Expect::TextAsIn(step),
            log,
            Answer::Text(text),
            text@ == earlier@,
        ),
        !(step < log.len() && log[step as int] is Seen && log[step as int]->Seen_0 is Text)
            ==> is_judged(
            query,
            Expect::TextAsIn(step),
            log,
            Answer::Text(text),
            false,
        ),
{
}

/// A look at a truth value is met by the value expected, one at a number by the
/// number expected.
pub proof fn flags_and_counts_are_judged(
    flag_query: Query,
    count_query: Query,
    flag: bool,
    expected_flag: bool,
    count: u64,
    expected_count: u64,
    log: Seq<Reply>,
)
    requires
        flag_query is HasOpenBuffer || flag_query is IsDirty || flag_query is HasConflict,
        count_query is SelectionSets || count_query is FileCount,
    ensures
        is_judged(
            flag_query,
            Expect::FlagIs(expected_flag),
            log,
            Answer::Flag(flag),
            flag == expected_flag,
        ),
        is_judged(
            count_query,
            Expect::CountIs(expected_count),
            log,
            Answer::Count(count),
            count == expected_count,
        ),
{
}

/// A look at the peers is met by as many as expected, or by any among which is the
/// replica that was seen in the step that it builds on.
pub proof fn peers_are_judged(
    query: Query,
    peers: Vec<u16>,
    number: u64,
    replica: u16,
    step: usize,
    log: Seq<Reply>,
)
    requires
        query is Peers,
    ensures
        is_judged(
            query,
            Expect::PeersNumber(number),
            log,
            Answer::Replicas(peers),
            peers@.len() == number,
        ),
        step < log.len() && log[step as int] == Reply::Seen(Answer::Replica(replica))
            ==> is_judged(
            query,
            Expect::PeersInclude(step),
            log,
            Answer::Replicas(peers),
            exists|i: int| 0 <= i < peers@.len() && #[trigger] peers@[i] == replica,
        ),
        !(step < log.len() && log[step as int] is Seen && log[step as int]->Seen_0 is Replica)
            ==> is_judged(
            query,
            Expect::PeersInclude(step),
            log,
            Answer::Replicas(peers),
            false,
        ),
{
}

/// A look at a time is met by every time but the one that was seen in the step that
/// it builds on.
pub proof fn times_are_judged(
    query: Query,
    time: u128,
    earlier: u128,
    step: usize,
    log: Seq<Reply>,
)
    requires
        query is Mtime,
    ensures
        step < log.len() && log[step as int] == Reply::Seen(Answer::Time(earlier)) ==> is_judged(
            query,
            Expect::TimeNotAsIn(step),
            log,
            Answer::Time(time),
            time != earlier,
        ),
        !(step < log.len() && log[step as int] is Seen && log[step as int]->Seen_0 is Time)
            ==> is_judged(
            query,
            Expect::TimeNotAsIn(step),
            log,
            Answer::Time(time),
            false,
        ),
{
}

/// A look at a list of texts is met by as many texts as expected, each in its
/// place.
pub proof fn lists_are_judged(
    query: Query,
    texts: Vec<String>,
    a: &'static str,
    b: &'static str,
    c: &'static str,
    log: Seq<Reply>,
)
    requires
        query is Paths || query is PendingMessages,
    ensures
        is_judged(
            query,
            Expect::TwoTexts(a, b),
            log,
            Answer::Texts(texts),
            texts@.map_values(|t: String| t@) == seq![a@, b@],
        ),
        is_judged(
            query,
            Expect::ThreeTexts(a, b, c),
            log,
            Answer::Texts(texts),
            texts@.map_values(|t: String| t@) == seq![a@, b@, c@],
        ),
{
    let seen = texts@.map_values(|t: String| t@);
    if texts@.len() == 2 && texts@[0]@ == a@ && texts@[1]@ == b@ {
        assert(seen =~= seq![a@, b@]);
    }
    if seen == seq![a@, b@] {
        assert(seen.len() == 2 && seen[0] == a@ && seen[1] == b@);
    }
    if texts@.len() == 3 && texts@[0]@ == a@ && texts@[1]@ == b@ && texts@[2]@ == c@ {
        assert(seen =~= seq![a@, b@, c@]);
    }
    if seen == seq![a@, b@, c@] {
        assert(seen.len() == 3 && seen[0] == a@ && seen[1] == b@ && seen[2] == c@);
    }
}

/// A look at the channels is met by one channel alone, that of the step that it
/// builds on, under the name expected.
pub proof fn channels_are_judged(
    query: Query,
    channels: Vec<ChannelDetails>,
    name: &'static str,
    id: DbId,
    step: usize,
    log: Seq<Reply>,
)
    requires
        query is AvailableChannels,
    ensures
        step < log.len() && log[step as int] == Reply::Channel(id) ==> is_judged(
            query,
            Expect::OneChannel { channel: step, name },
            log,
            Answer::Channels(channels),
            channels@.map_values(|c: ChannelDetails| (c.id, c.name@)) == seq![(id.proto, name@)],
        ),
        !(step < log.len() && log[step as int] is Channel) ==> is_judged(
            query,
            Expect::OneChannel { channel: step, name },
            log,
            Answer::Channels(channels),
            false,
        ),
{
    let seen = channels@.map_values(|c: ChannelDetails| (c.id, c.name@));
    if channels@.len() == 1 && channels@[0].id == id.proto && channels@[0].name@ == name@ {
        assert(seen =~= seq![(id.proto, name@)]);
    }
    if seen == seq![(id.proto, name@)] {
        assert(seen.len() == 1 && seen[0] == (id.proto, name@));
    }
}

/// A look at the messages is met by none at all, or by one message alone, of the
/// user of the step that it builds on and with the words expected.
pub proof fn messages_are_judged(
    query: Query,
    messages: Vec<ChannelMessage>,
    body: &'static str,
    id: DbId,
    step: usize,
    log: Seq<Reply>,
)
    requires
        query is Messages,
    ensures
        is_judged(
            query,
            Expect::NoMessage,
            log,
            Answer::Messages(messages),
            messages@ == Seq::<ChannelMessage>::empty(),
        ),
        step < log.len() && log[step as int] == Reply::User(id) ==> is_judged(
            query,
            Expect::OneMessage { sender: step, body },
            log,
            Answer::Messages(messages),
            messages@.map_values(|m: ChannelMessage| (m.sender_id, m.body@)) == seq![
                (id.proto, body@),
            ],
        ),
        !(step < log.len() && log[step as int] is User) ==> is_judged(
            query,
            Expect::OneMessage { sender: step, body },
            log,
            Answer::Messages(messages),
            false,
        ),
{
    let seen = messages@.map_values(|m: ChannelMessage| (m.sender_id, m.body@));
    if messages@.len() == 0 {
        assert(messages@ =~= Seq::<ChannelMessage>::empty());
    }
    if messages@.len() == 1 && messages@[0].sender_id == id.proto && messages@[0].body@ == body@ {
        assert(seen =~= seq![(id.proto, body@)]);
    }
    if seen == seq![(id.proto, body@)] {
        assert(seen.len() == 1 && seen[0] == (id.proto, body@));
    }
}

/// An expectation is met by answers of its own kind only.
pub proof fn expectations_are_of_one_kind(expect: Expect, answer: Answer, log: Seq<Reply>)
    requires
        holds(expect, answer, log),
    ensures
        answer is Text <==> expect is TextIs || expect is TextAsIn,
        answer is Flag <==> expect is FlagIs,
        answer is Count <==> expect is CountIs,
        answer is Replicas <==> expect is PeersNumber || expect is PeersInclude,
        answer is Time <==> expect is TimeNotAsIn,
        answer is Texts <==> expect is TwoTexts || expect is ThreeTexts,
        answer is Channels <==> expect is OneChannel,
        answer is Messages <==> expect is NoMessage || expect is OneMessage,
        !(answer is Replica),
{
}

/// A look is answered by one kind of answer only, whatever it expects: every other
/// reply but a failure changes nothing, and a failure fails it. A look that expects
/// nothing is done by every answer of its kind.
pub proof fn looks_are_answered_in_kind(
    query: Query,
    expect: Expect,
    action: Action,
    log: Seq<Reply>,
    reply: Reply,
)
    ensures
        ({
            let in_kind = reply is Seen && match reply->Seen_0 {
                Answer::Text(_) => query is Text || query is FileText,
                Answer::Flag(_) => query is HasOpenBuffer || query is IsDirty
                    || query is HasConflict,
                Answer::Count(_) => query is SelectionSets || query is FileCount,
                Answer::Replica(_) => query is Replica,
                Answer::Replicas(_) => query is Peers,
                Answer::Time(_) => query is Mtime,
                Answer::Texts(_) => query is Paths || query is PendingMessages,
                Answer::Channels(_) => query is AvailableChannels,
                Answer::Messages(_) => query is Messages,
            };
            &&& reply is Seen ==> answers(query, reply->Seen_0) == in_kind
            &&& forall|step: Step| #[trigger]
                outcome_of(step, log, reply) == Outcome::Refuse <== reply is Failed
            &&& !in_kind && !(reply is Failed) ==> {
                &&& outcome_of(Step::Note(query), log, reply) == Outcome::Misfit
                &&& outcome_of(Step::Check(query, expect), log, reply) == Outcome::Misfit
                &&& outcome_of(Step::Wait(query, expect), log, reply) == Outcome::Misfit
                &&& outcome_of(Step::DoThenCheck(action, query, expect), log, reply)
                    == Outcome::Misfit
            }
            &&& in_kind ==> {
                &&& outcome_of(Step::Note(query), log, reply) == Outcome::Accept
                &&& outcome_of(Step::Check(query, expect), log, reply) != Outcome::Misfit
                &&& outcome_of(Step::Wait(query, expect), log, reply) != Outcome::Misfit
                &&& outcome_of(Step::DoThenCheck(action, query, expect), log, reply)
                    != Outcome::Misfit
            }
        }),
{
}

/// An action is done by the reply that tells what comes of it, fails by a failure,
/// and is left as it is by every other reply.
pub proof fn actions_are_done_in_kind(action: Action, log: Seq<Reply>, reply: Reply)
    ensures
        ({
            let in_kind = match reply {
                Reply::User(_) => action is CreateClient,
                Reply::Shared { .. } => action is Share,
                Reply::Org(_) => action is CreateOrg,
                Reply::Channel(_) => action is CreateOrgChannel,
                Reply::Done => !(action is CreateClient || action is Share || action is CreateOrg
                    || action is CreateOrgChannel),
                Reply::Failed | Reply::Seen(_) => false,
            };
            outcome_of(Step::Do(action), log, reply) == if in_kind {
                Outcome::Accept
            } else if reply is Failed {
                Outcome::Refuse
            } else {
                Outcome::Misfit
            }
        }),
{
}

/// What an action builds on is what came of the steps that it names, and nothing
/// else: the worktree as it was shared, the organisation, the channel and the users
/// as they came about.
pub proof fn inputs_are_what_came_about(action: Action, log: Seq<Reply>, inputs: Inputs)
    requires
        inputs_are(action, log, inputs),
    ensures
        action matches Action::CreateClient { seat, .. } ==> inputs is UserName
            && inputs->UserName_0@ == match seat {
            Seat::A => "user_a"@,
            Seat::B => "user_b"@,
            Seat::C => "user_c"@,
        },
        action matches Action::OpenRemote { share, .. } ==> inputs is Worktree && share < log.len()
            && log[share as int] == (Reply::Shared {
            worktree_id: inputs->worktree_id,
            token: inputs->token,
        }),
        action matches Action::AddOrgMember { org, user, .. } ==> inputs is Member && org
            < log.len() && user < log.len() && log[org as int] == Reply::Org(inputs->group)
            && log[user as int] == Reply::User(inputs->user),
        action matches Action::CreateOrgChannel { org, .. } ==> inputs is Org && org < log.len()
            && log[org as int] == Reply::Org(inputs->Org_0),
        action matches Action::AddChannelMember { channel, user, .. } ==> inputs is Member
            && channel < log.len() && user < log.len() && log[channel as int] == Reply::Channel(
            inputs->group,
        ) && log[user as int] == Reply::User(inputs->user),
        action matches Action::CreateChannelMessage { channel, sender, .. } ==> inputs is Post
            && channel < log.len() && sender < log.len() && log[channel as int] == Reply::Channel(
            inputs->channel,
        ) && log[sender as int] == Reply::User(inputs->sender),
        action matches Action::GetChannel { channel, .. } ==> inputs is Channel && channel
            < log.len() && log[channel as int] == Reply::Channel(inputs->Channel_0),
        !(action is CreateClient || action is OpenRemote || action is AddOrgMember
            || action is CreateOrgChannel || action is AddChannelMember
            || action is CreateChannelMessage || action is GetChannel) ==> inputs is Nothing,
{
}

} // verus!
