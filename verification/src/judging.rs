//! What each scenario takes for success.

use crate::check::{outcome_of, Outcome};
use crate::scenario::{steps_of, Scenario};
use crate::session::{steps_are_done_in_order, Progress, Request};
use crate::step::{
    Action, Answer, ChannelDetails, ChannelMessage, Inputs, Query, Reply, Seat,
};
use vstd::prelude::*;

verus! {

/// The scenario asks for a look at `query`, and `answer` lets it go on if and only
/// if `met`. Otherwise it fails, where it looks `once`, or looks again.
pub open spec fn looks(
    p: Progress,
    query: Query,
    once: bool,
    answer: Answer,
    met: bool,
) -> bool {
    &&& forall|request: Request| #[trigger]
        p.asks_for(request) ==> request == Request::Observe(query)
    &&& p.outcome(Reply::Seen(answer)) == if met {
        Outcome::Accept
    } else if once {
        Outcome::Refuse
    } else {
        Outcome::Again
    }
    &&& p.after(Reply::Seen(answer)).failed == (once && !met)
    &&& p.after(Reply::Seen(answer)).log == if met {
        p.log.push(Reply::Seen(answer))
    } else {
        p.log
    }
}

/// How the scenario of sharing a worktree judges what is seen, at
/// each of its looks and whatever is seen.
pub proof fn share_worktree_is_judged(
    p: Progress,
    replica: u16,
    replicas: Vec<u16>,
    text: String,
    flag: bool,
    count: u64,
)
    requires
        p.scenario is ShareWorktree,
        p.is_faithful(),
        !p.failed,
    ensures
        p.log.len() == 12 ==> looks(
            p,
            Query::Replica { seat: Seat::B },
            false,
            Answer::Replica(replica),
            true,
        ),
        p.log.len() == 13 ==> (p.log[12] matches Reply::Seen(Answer::Replica(earlier)) && looks(
            p,
            Query::Peers { seat: Seat::A },
            false,
            Answer::Replicas(replicas),
            exists|i: int| 0 <= i < replicas@.len()
                && #[trigger] replicas@[i] == earlier,
        )),
        p.log.len() == 15 ==> looks(
            p,
            Query::Text { seat: Seat::B },
            true,
            Answer::Text(text),
            text@ == "b-contents"@,
        ),
        p.log.len() == 16 ==> looks(
            p,
            Query::HasOpenBuffer { seat: Seat::A, path: "b.txt" },
            true,
            Answer::Flag(flag),
            flag,
        ),
        p.log.len() == 19 ==> looks(
            p,
            Query::SelectionSets { seat: Seat::A },
            false,
            Answer::Count(count),
            count == 1,
        ),
        p.log.len() == 21 ==> looks(
            p,
            Query::Text { seat: Seat::A },
            false,
            Answer::Text(text),
            text@ == "ok, b-contents"@,
        ),
        p.log.len() == 23 ==> looks(
            p,
            Query::SelectionSets { seat: Seat::A },
            false,
            Answer::Count(count),
            count == 0,
        ),
        p.log.len() == 25 ==> looks(
            p,
            Query::HasOpenBuffer { seat: Seat::A, path: "b.txt" },
            false,
            Answer::Flag(flag),
            !flag,
        ),
        p.log.len() == 27 ==> looks(
            p,
            Query::Peers { seat: Seat::A },
            false,
            Answer::Replicas(replicas),
            replicas@.len() == 0,
        ),
{
    let steps = steps_of(p.scenario);
    if p.log.len() > 12 {
        assert(outcome_of(steps[12], p.log.take(12), p.log[12]) == Outcome::Accept);
    }
}

/// What has been seen when the scenario of sharing a worktree has passed,
/// whatever it was told on the way.
pub proof fn share_worktree_has_seen(replies: Seq<Reply>)
    requires
        Progress::begun(Scenario::ShareWorktree).after_all(replies).passed(),
    ensures
        ({
            let p = Progress::begun(Scenario::ShareWorktree).after_all(replies);
            &&& p.log.len() == 28
            &&& p.log[12] matches Reply::Seen(Answer::Replica(_))
            &&& p.log[13] matches Reply::Seen(Answer::Replicas(replicas))
                && (p.log[12] matches Reply::Seen(Answer::Replica(earlier))
                && (exists|i: int| 0 <= i < replicas@.len()
                && #[trigger] replicas@[i] == earlier))
            &&& p.log[15] matches Reply::Seen(Answer::Text(text)) && text@ == "b-contents"@
            &&& p.log[16] matches Reply::Seen(Answer::Flag(flag)) && flag
            &&& p.log[19] matches Reply::Seen(Answer::Count(count)) && count == 1
            &&& p.log[21] matches Reply::Seen(Answer::Text(text)) && text@ == "ok, b-contents"@
            &&& p.log[23] matches Reply::Seen(Answer::Count(count)) && count == 0
            &&& p.log[25] matches Reply::Seen(Answer::Flag(flag)) && !flag
            &&& p.log[27] matches Reply::Seen(Answer::Replicas(replicas)) && replicas@.len() == 0
        }),
{
    let at = steps_are_done_in_order(Scenario::ShareWorktree, replies);
    let p = Progress::begun(Scenario::ShareWorktree).after_all(replies);
    let steps = steps_of(Scenario::ShareWorktree);
    assert(outcome_of(steps[12], p.log.take(12), p.log[12]) == Outcome::Accept);
    assert(outcome_of(steps[13], p.log.take(13), p.log[13]) == Outcome::Accept);
    assert(outcome_of(steps[15], p.log.take(15), p.log[15]) == Outcome::Accept);
    assert(outcome_of(steps[16], p.log.take(16), p.log[16]) == Outcome::Accept);
    assert(outcome_of(steps[19], p.log.take(19), p.log[19]) == Outcome::Accept);
    assert(outcome_of(steps[21], p.log.take(21), p.log[21]) == Outcome::Accept);
    assert(outcome_of(steps[23], p.log.take(23), p.log[23]) == Outcome::Accept);
    assert(outcome_of(steps[25], p.log.take(25), p.log[25]) == Outcome::Accept);
    assert(outcome_of(steps[27], p.log.take(27), p.log[27]) == Outcome::Accept);
}

/// How the scenario of propagating saves and changes judges what is seen, at
/// each of its looks and whatever is seen.
pub proof fn propagate_saves_and_fs_changes_is_judged(
    p: Progress,
    text: String,
    flag: bool,
    count: u64,
    texts: Vec<String>,
)
    requires
        p.scenario is PropagateSavesAndFsChanges,
        p.is_faithful(),
        !p.failed,
    ensures
        p.log.len() == 16 ==> looks(
            p,
            Query::Text { seat: Seat::A },
            false,
            Answer::Text(text),
            text@ == "i-am-c, i-am-b, "@,
        ),
        p.log.len() == 18 ==> looks(
            p,
            Query::Text { seat: Seat::A },
            false,
            Answer::Text(text),
            text@ == "i-am-c, i-am-b, i-am-a"@,
        ),
        p.log.len() == 19 ==> looks(
            p,
            Query::Text { seat: Seat::B },
            false,
            Answer::Text(text),
            text@ == "i-am-c, i-am-b, i-am-a"@,
        ),
        p.log.len() == 20 ==> looks(
            p,
            Query::Text { seat: Seat::C },
            false,
            Answer::Text(text),
            text@ == "i-am-c, i-am-b, i-am-a"@,
        ),
        p.log.len() == 24 ==> looks(
            p,
            Query::FileText { path: "/a/file1" },
            true,
            Answer::Text(text),
            text@ == "hi-a, i-am-c, i-am-b, i-am-a"@,
        ),
        p.log.len() == 25 ==> looks(
            p,
            Query::IsDirty { seat: Seat::A },
            true,
            Answer::Flag(flag),
            !flag,
        ),
        p.log.len() == 26 ==> looks(
            p,
            Query::IsDirty { seat: Seat::B },
            true,
            Answer::Flag(flag),
            !flag,
        ),
        p.log.len() == 27 ==> looks(
            p,
            Query::IsDirty { seat: Seat::C },
            false,
            Answer::Flag(flag),
            !flag,
        ),
        p.log.len() == 30 ==> looks(
            p,
            Query::FileCount { seat: Seat::B },
            false,
            Answer::Count(count),
            count == 3,
        ),
        p.log.len() == 31 ==> looks(
            p,
            Query::FileCount { seat: Seat::C },
            false,
            Answer::Count(count),
            count == 3,
        ),
        p.log.len() == 32 ==> looks(
            p,
            Query::Paths { seat: Seat::B },
            true,
            Answer::Texts(texts),
            texts@.len() == 3
                && texts@[0]@ == "file1"@
                && texts@[1]@ == "file3"@
                && texts@[2]@ == "file4"@,
        ),
        p.log.len() == 33 ==> looks(
            p,
            Query::Paths { seat: Seat::C },
            true,
            Answer::Texts(texts),
            texts@.len() == 3
                && texts@[0]@ == "file1"@
                && texts@[1]@ == "file3"@
                && texts@[2]@ == "file4"@,
        ),
{
    let steps = steps_of(p.scenario);
}

/// What has been seen when the scenario of propagating saves and changes has passed,
/// whatever it was told on the way.
pub proof fn propagate_saves_and_fs_changes_has_seen(replies: Seq<Reply>)
    requires
        Progress::begun(Scenario::PropagateSavesAndFsChanges).after_all(replies).passed(),
    ensures
        ({
            let p = Progress::begun(Scenario::PropagateSavesAndFsChanges).after_all(replies);
            &&& p.log.len() == 34
            &&& p.log[16] matches Reply::Seen(Answer::Text(text)) && text@ == "i-am-c, i-am-b, "@
            &&& p.log[18] matches Reply::Seen(Answer::Text(text))
                && text@ == "i-am-c, i-am-b, i-am-a"@
            &&& p.log[19] matches Reply::Seen(Answer::Text(text))
                && text@ == "i-am-c, i-am-b, i-am-a"@
            &&& p.log[20] matches Reply::Seen(Answer::Text(text))
                && text@ == "i-am-c, i-am-b, i-am-a"@
            &&& p.log[24] matches Reply::Seen(Answer::Text(text))
                && text@ == "hi-a, i-am-c, i-am-b, i-am-a"@
            &&& p.log[25] matches Reply::Seen(Answer::Flag(flag)) && !flag
            &&& p.log[26] matches Reply::Seen(Answer::Flag(flag)) && !flag
            &&& p.log[27] matches Reply::Seen(Answer::Flag(flag)) && !flag
            &&& p.log[30] matches Reply::Seen(Answer::Count(count)) && count == 3
            &&& p.log[31] matches Reply::Seen(Answer::Count(count)) && count == 3
            &&& p.log[32] matches Reply::Seen(Answer::Texts(texts)) && texts@.len() == 3
                && texts@[0]@ == "file1"@
                && texts@[1]@ == "file3"@
                && texts@[2]@ == "file4"@
            &&& p.log[33] matches Reply::Seen(Answer::Texts(texts)) && texts@.len() == 3
                && texts@[0]@ == "file1"@
                && texts@[1]@ == "file3"@
                && texts@[2]@ == "file4"@
        }),
{
    let at = steps_are_done_in_order(Scenario::PropagateSavesAndFsChanges, replies);
    let p = Progress::begun(Scenario::PropagateSavesAndFsChanges).after_all(replies);
    let steps = steps_of(Scenario::PropagateSavesAndFsChanges);
    assert(outcome_of(steps[16], p.log.take(16), p.log[16]) == Outcome::Accept);
    assert(outcome_of(steps[18], p.log.take(18), p.log[18]) == Outcome::Accept);
    assert(outcome_of(steps[19], p.log.take(19), p.log[19]) == Outcome::Accept);
    assert(outcome_of(steps[20], p.log.take(20), p.log[20]) == Outcome::Accept);
    assert(outcome_of(steps[24], p.log.take(24), p.log[24]) == Outcome::Accept);
    assert(outcome_of(steps[25], p.log.take(25), p.log[25]) == Outcome::Accept);
    assert(outcome_of(steps[26], p.log.take(26), p.log[26]) == Outcome::Accept);
    assert(outcome_of(steps[27], p.log.take(27), p.log[27]) == Outcome::Accept);
    assert(outcome_of(steps[30], p.log.take(30), p.log[30]) == Outcome::Accept);
    assert(outcome_of(steps[31], p.log.take(31), p.log[31]) == Outcome::Accept);
    assert(outcome_of(steps[32], p.log.take(32), p.log[32]) == Outcome::Accept);
    assert(outcome_of(steps[33], p.log.take(33), p.log[33]) == Outcome::Accept);
}

/// How the scenario of saving without conflict judges what is seen, at
/// each of its looks and whatever is seen.
pub proof fn buffer_conflict_after_save_is_judged(
    p: Progress,
    time: u128,
    flag: bool,
)
    requires
        p.scenario is BufferConflictAfterSave,
        p.is_faithful(),
        !p.failed,
    ensures
        p.log.len() == 10 ==> looks(
            p,
            Query::Mtime { seat: Seat::B },
            false,
            Answer::Time(time),
            true,
        ),
        p.log.len() == 12 ==> looks(
            p,
            Query::IsDirty { seat: Seat::B },
            true,
            Answer::Flag(flag),
            flag,
        ),
        p.log.len() == 13 ==> looks(
            p,
            Query::HasConflict { seat: Seat::B },
            true,
            Answer::Flag(flag),
            !flag,
        ),
        p.log.len() == 16 ==> (p.log[10] matches Reply::Seen(Answer::Time(earlier)) && looks(
            p,
            Query::Mtime { seat: Seat::B },
            false,
            Answer::Time(time),
            time != earlier,
        )),
        p.log.len() == 17 ==> looks(
            p,
            Query::IsDirty { seat: Seat::B },
            true,
            Answer::Flag(flag),
            !flag,
        ),
        p.log.len() == 18 ==> looks(
            p,
            Query::HasConflict { seat: Seat::B },
            true,
            Answer::Flag(flag),
            !flag,
        ),
        p.log.len() == 20 ==> looks(
            p,
            Query::IsDirty { seat: Seat::B },
            true,
            Answer::Flag(flag),
            flag,
        ),
        p.log.len() == 21 ==> looks(
            p,
            Query::HasConflict { seat: Seat::B },
            true,
            Answer::Flag(flag),
            !flag,
        ),
{
    let steps = steps_of(p.scenario);
    if p.log.len() > 10 {
        assert(outcome_of(steps[10], p.log.take(10), p.log[10]) == Outcome::Accept);
    }
}

/// What has been seen when the scenario of saving without conflict has passed,
/// whatever it was told on the way.
pub proof fn buffer_conflict_after_save_has_seen(replies: Seq<Reply>)
    requires
        Progress::begun(Scenario::BufferConflictAfterSave).after_all(replies).passed(),
    ensures
        ({
            let p = Progress::begun(Scenario::BufferConflictAfterSave).after_all(replies);
            &&& p.log.len() == 22
            &&& p.log[10] matches Reply::Seen(Answer::Time(_))
            &&& p.log[12] matches Reply::Seen(Answer::Flag(flag)) && flag
            &&& p.log[13] matches Reply::Seen(Answer::Flag(flag)) && !flag
            &&& p.log[16] matches Reply::Seen(Answer::Time(time))
                && (p.log[10] matches Reply::Seen(Answer::Time(earlier))
                && (time != earlier))
            &&& p.log[17] matches Reply::Seen(Answer::Flag(flag)) && !flag
            &&& p.log[18] matches Reply::Seen(Answer::Flag(flag)) && !flag
            &&& p.log[20] matches Reply::Seen(Answer::Flag(flag)) && flag
            &&& p.log[21] matches Reply::Seen(Answer::Flag(flag)) && !flag
        }),
{
    let at = steps_are_done_in_order(Scenario::BufferConflictAfterSave, replies);
    let p = Progress::begun(Scenario::BufferConflictAfterSave).after_all(replies);
    let steps = steps_of(Scenario::BufferConflictAfterSave);
    assert(outcome_of(steps[10], p.log.take(10), p.log[10]) == Outcome::Accept);
    assert(outcome_of(steps[12], p.log.take(12), p.log[12]) == Outcome::Accept);
    assert(outcome_of(steps[13], p.log.take(13), p.log[13]) == Outcome::Accept);
    assert(outcome_of(steps[16], p.log.take(16), p.log[16]) == Outcome::Accept);
    assert(outcome_of(steps[17], p.log.take(17), p.log[17]) == Outcome::Accept);
    assert(outcome_of(steps[18], p.log.take(18), p.log[18]) == Outcome::Accept);
    assert(outcome_of(steps[20], p.log.take(20), p.log[20]) == Outcome::Accept);
    assert(outcome_of(steps[21], p.log.take(21), p.log[21]) == Outcome::Accept);
}

/// How the scenario of editing while a guest opens judges what is seen, at
/// each of its looks and whatever is seen.
pub proof fn editing_while_guest_opens_buffer_is_judged(
    p: Progress,
    text: String,
)
    requires
        p.scenario is EditingWhileGuestOpensBuffer,
        p.is_faithful(),
        !p.failed,
    ensures
        p.log.len() == 13 ==> looks(
            p,
            Query::Text { seat: Seat::A },
            false,
            Answer::Text(text),
            true,
        ),
        p.log.len() == 15 ==> (p.log[13] matches Reply::Seen(Answer::Text(earlier)) && looks(
            p,
            Query::Text { seat: Seat::B },
            false,
            Answer::Text(text),
            text@ == earlier@,
        )),
{
    let steps = steps_of(p.scenario);
    if p.log.len() > 13 {
        assert(outcome_of(steps[13], p.log.take(13), p.log[13]) == Outcome::Accept);
    }
}

/// What has been seen when the scenario of editing while a guest opens has passed,
/// whatever it was told on the way.
pub proof fn editing_while_guest_opens_buffer_has_seen(replies: Seq<Reply>)
    requires
        Progress::begun(Scenario::EditingWhileGuestOpensBuffer).after_all(replies).passed(),
    ensures
        ({
            let p = Progress::begun(Scenario::EditingWhileGuestOpensBuffer).after_all(replies);
            &&& p.log.len() == 16
            &&& p.log[13] matches Reply::Seen(Answer::Text(_))
            &&& p.log[15] matches Reply::Seen(Answer::Text(text))
                && (p.log[13] matches Reply::Seen(Answer::Text(earlier))
                && (text@ == earlier@))
        }),
{
    let at = steps_are_done_in_order(Scenario::EditingWhileGuestOpensBuffer, replies);
    let p = Progress::begun(Scenario::EditingWhileGuestOpensBuffer).after_all(replies);
    let steps = steps_of(Scenario::EditingWhileGuestOpensBuffer);
    assert(outcome_of(steps[13], p.log.take(13), p.log[13]) == Outcome::Accept);
    assert(outcome_of(steps[15], p.log.take(15), p.log[15]) == Outcome::Accept);
}

/// How the scenario of losing a peer judges what is seen, at
/// each of its looks and whatever is seen.
pub proof fn peer_disconnection_is_judged(
    p: Progress,
    replicas: Vec<u16>,
)
    requires
        p.scenario is PeerDisconnection,
        p.is_faithful(),
        !p.failed,
    ensures
        p.log.len() == 9 ==> looks(
            p,
            Query::Peers { seat: Seat::A },
            false,
            Answer::Replicas(replicas),
            replicas@.len() == 1,
        ),
        p.log.len() == 11 ==> looks(
            p,
            Query::Peers { seat: Seat::A },
            false,
            Answer::Replicas(replicas),
            replicas@.len() == 0,
        ),
{
    let steps = steps_of(p.scenario);
}

/// What has been seen when the scenario of losing a peer has passed,
/// whatever it was told on the way.
pub proof fn peer_disconnection_has_seen(replies: Seq<Reply>)
    requires
        Progress::begun(Scenario::PeerDisconnection).after_all(replies).passed(),
    ensures
        ({
            let p = Progress::begun(Scenario::PeerDisconnection).after_all(replies);
            &&& p.log.len() == 12
            &&& p.log[9] matches Reply::Seen(Answer::Replicas(replicas)) && replicas@.len() == 1
            &&& p.log[11] matches Reply::Seen(Answer::Replicas(replicas)) && replicas@.len() == 0
        }),
{
    let at = steps_are_done_in_order(Scenario::PeerDisconnection, replies);
    let p = Progress::begun(Scenario::PeerDisconnection).after_all(replies);
    let steps = steps_of(Scenario::PeerDisconnection);
    assert(outcome_of(steps[9], p.log.take(9), p.log[9]) == Outcome::Accept);
    assert(outcome_of(steps[11], p.log.take(11), p.log[11]) == Outcome::Accept);
}

/// How the scenario of the chat judges what is seen, at
/// each of its looks and whatever is seen.
pub proof fn basic_chat_is_judged(
    p: Progress,
    channels: Vec<ChannelDetails>,
    messages: Vec<ChannelMessage>,
    texts: Vec<String>,
)
    requires
        p.scenario is BasicChat,
        p.is_faithful(),
        !p.failed,
    ensures
        p.log.len() == 11 ==> (p.log[6] matches Reply::Channel(id) && looks(
            p,
            Query::AvailableChannels { seat: Seat::A },
            true,
            Answer::Channels(channels),
            channels@.len() == 1
                && channels@[0].id == id.proto
                && channels@[0].name@ == "test-channel"@,
        )),
        p.log.len() == 13 ==> looks(
            p,
            Query::Messages { seat: Seat::A },
            true,
            Answer::Messages(messages),
            messages@.len() == 0,
        ),
        p.log.len() == 15 ==> (p.log[2] matches Reply::User(id) && looks(
            p,
            Query::Messages { seat: Seat::A },
            true,
            Answer::Messages(messages),
            messages@.len() == 1
                && messages@[0].sender_id == id.proto
                && messages@[0].body@ == "hello A, it's B."@,
        )),
        p.log.len() == 16 ==> {
            &&& forall|request: Request| #[trigger]
                p.asks_for(request) ==> request == (Request::PerformAndObserve {
                    action: Action::SendMessages {
                        seat: Seat::A,
                        body: "oh, hi B.",
                        next_body: "sup",
                    },
                    inputs: Inputs::Nothing,
                    query: Query::PendingMessages { seat: Seat::A },
                })
            &&& p.outcome(Reply::Seen(Answer::Texts(texts))) == if texts@.len() == 2
                && texts@[0]@ == "oh, hi B."@ && texts@[1]@ == "sup"@ {
                Outcome::Accept
            } else {
                Outcome::Refuse
            }
        },
{
    let steps = steps_of(p.scenario);
    if p.log.len() > 2 {
        assert(outcome_of(steps[2], p.log.take(2), p.log[2]) == Outcome::Accept);
    }
    if p.log.len() > 6 {
        assert(outcome_of(steps[6], p.log.take(6), p.log[6]) == Outcome::Accept);
    }
}

/// What has been seen when the scenario of the chat has passed,
/// whatever it was told on the way.
pub proof fn basic_chat_has_seen(replies: Seq<Reply>)
    requires
        Progress::begun(Scenario::BasicChat).after_all(replies).passed(),
    ensures
        ({
            let p = Progress::begun(Scenario::BasicChat).after_all(replies);
            &&& p.log.len() == 18
            &&& p.log[11] matches Reply::Seen(Answer::Channels(channels))
                && (p.log[6] matches Reply::Channel(id)
                && (channels@.len() == 1
                && channels@[0].id == id.proto
                && channels@[0].name@ == "test-channel"@))
            &&& p.log[13] matches Reply::Seen(Answer::Messages(messages)) && messages@.len() == 0
            &&& p.log[15] matches Reply::Seen(Answer::Messages(messages))
                && (p.log[2] matches Reply::User(id)
                && (messages@.len() == 1
                && messages@[0].sender_id == id.proto
                && messages@[0].body@ == "hello A, it's B."@))
            &&& p.log[16] matches Reply::Seen(Answer::Texts(texts)) && texts@.len() == 2
                && texts@[0]@ == "oh, hi B."@
                && texts@[1]@ == "sup"@
        }),
{
    let at = steps_are_done_in_order(Scenario::BasicChat, replies);
    let p = Progress::begun(Scenario::BasicChat).after_all(replies);
    let steps = steps_of(Scenario::BasicChat);
    assert(outcome_of(steps[2], p.log.take(2), p.log[2]) == Outcome::Accept);
    assert(outcome_of(steps[6], p.log.take(6), p.log[6]) == Outcome::Accept);
    assert(outcome_of(steps[11], p.log.take(11), p.log[11]) == Outcome::Accept);
    assert(outcome_of(steps[13], p.log.take(13), p.log[13]) == Outcome::Accept);
    assert(outcome_of(steps[15], p.log.take(15), p.log[15]) == Outcome::Accept);
    assert(outcome_of(steps[16], p.log.take(16), p.log[16]) == Outcome::Accept);
}

} // verus!
