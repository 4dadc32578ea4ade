//! The scenarios.

use crate::step::{Action, Expect, File, Place, Query, Seat, Step};
use vstd::prelude::*;

verus! {

/// A scenario.
#[derive(Clone, Copy, Debug, PartialEq, Eq, Structural)]
pub enum Scenario {
    ShareWorktree,
    PropagateSavesAndFsChanges,
    BufferConflictAfterSave,
    EditingWhileGuestOpensBuffer,
    PeerDisconnection,
    BasicChat,
}

/// A shares a directory and B joins it. B is seen among A's peers; B's selections
/// and edits are seen by A; what is dropped on one side is seen to go on the other.
pub open spec fn share_worktree_steps() -> Seq<Step> {
    seq![
        Step::Do(Action::StartLog),
        Step::Do(Action::AddWindow { seat: Seat::B }),
        Step::Do(Action::LoadSettings { seat: Seat::B }),
        Step::Do(Action::StartServer),
        Step::Do(Action::CreateClient { seat: Seat::A, cx: Seat::A }),
        Step::Do(Action::CreateClient { seat: Seat::B, cx: Seat::B }),
        Step::Do(Action::ForbidParking { seat: Seat::A }),
        Step::Do(
            Action::InsertTree {
                root: "/a",
                first: File { name: "a.txt", text: "a-contents" },
                second: File { name: "b.txt", text: "b-contents" },
            },
        ),
        Step::Do(Action::OpenLocal { seat: Seat::A, path: "/a" }),
        Step::Do(Action::ScanComplete { seat: Seat::A }),
        Step::Do(Action::Share { seat: Seat::A }),
        Step::Do(Action::OpenRemote { seat: Seat::B, share: 10 }),
        Step::Note(Query::Replica { seat: Seat::B }),
        Step::Wait(Query::Peers { seat: Seat::A }, Expect::PeersInclude(12)),
        Step::Do(Action::OpenBuffer { seat: Seat::B, path: "b.txt" }),
        Step::Check(Query::Text { seat: Seat::B }, Expect::TextIs("b-contents")),
        Step::Check(Query::HasOpenBuffer { seat: Seat::A, path: "b.txt" }, Expect::FlagIs(true)),
        Step::Do(Action::OpenBuffer { seat: Seat::A, path: "b.txt" }),
        Step::Do(Action::OpenEditor { seat: Seat::B }),
        Step::Wait(Query::SelectionSets { seat: Seat::A }, Expect::CountIs(1)),
        Step::Do(Action::EditorInsert { seat: Seat::B, text: "ok, " }),
        Step::Wait(Query::Text { seat: Seat::A }, Expect::TextIs("ok, b-contents")),
        Step::Do(Action::DropEditor { seat: Seat::B }),
        Step::Wait(Query::SelectionSets { seat: Seat::A }, Expect::CountIs(0)),
        Step::Do(Action::DropBuffer { seat: Seat::A }),
        Step::Wait(Query::HasOpenBuffer { seat: Seat::A, path: "b.txt" }, Expect::FlagIs(false)),
        Step::Do(Action::DropWorktree { seat: Seat::B }),
        Step::Wait(Query::Peers { seat: Seat::A }, Expect::PeersNumber(0)),
    ]
}

/// A shares a directory and B and C join it. All three edit one file and see the
/// same text. B saves while A edits, and nobody is left with changes to save. What
/// then changes in A's file system is seen by B and C.
pub open spec fn propagate_saves_and_fs_changes_steps() -> Seq<Step> {
    seq![
        Step::Do(Action::StartServer),
        Step::Do(Action::CreateClient { seat: Seat::A, cx: Seat::A }),
        Step::Do(Action::CreateClient { seat: Seat::B, cx: Seat::B }),
        Step::Do(Action::CreateClient { seat: Seat::C, cx: Seat::C }),
        Step::Do(Action::ForbidParking { seat: Seat::A }),
        Step::Do(
            Action::InsertTree {
                root: "/a",
                first: File { name: "file1", text: "" },
                second: File { name: "file2", text: "" },
            },
        ),
        Step::Do(Action::OpenLocal { seat: Seat::A, path: "/a" }),
        Step::Do(Action::ScanComplete { seat: Seat::A }),
        Step::Do(Action::Share { seat: Seat::A }),
        Step::Do(Action::OpenRemote { seat: Seat::B, share: 8 }),
        Step::Do(Action::OpenRemote { seat: Seat::C, share: 8 }),
        Step::Do(Action::OpenBuffer { seat: Seat::B, path: "file1" }),
        Step::Do(Action::OpenBuffer { seat: Seat::C, path: "file1" }),
        Step::Do(Action::Edit { seat: Seat::B, place: Place::Start, text: "i-am-b, " }),
        Step::Do(Action::Edit { seat: Seat::C, place: Place::Start, text: "i-am-c, " }),
        Step::Do(Action::OpenBuffer { seat: Seat::A, path: "file1" }),
        Step::Wait(Query::Text { seat: Seat::A }, Expect::TextIs("i-am-c, i-am-b, ")),
        Step::Do(Action::Edit { seat: Seat::A, place: Place::End, text: "i-am-a" }),
        Step::Wait(Query::Text { seat: Seat::A }, Expect::TextIs("i-am-c, i-am-b, i-am-a")),
        Step::Wait(Query::Text { seat: Seat::B }, Expect::TextIs("i-am-c, i-am-b, i-am-a")),
        Step::Wait(Query::Text { seat: Seat::C }, Expect::TextIs("i-am-c, i-am-b, i-am-a")),
        Step::Do(Action::BeginSave { seat: Seat::B }),
        Step::Do(Action::Edit { seat: Seat::A, place: Place::Start, text: "hi-a, " }),
        Step::Do(Action::FinishSave { seat: Seat::B }),
        Step::Check(Query::FileText { path: "/a/file1" }, Expect::TextIs("hi-a, i-am-c, i-am-b, i-am-a")),
        Step::Check(Query::IsDirty { seat: Seat::A }, Expect::FlagIs(false)),
        Step::Check(Query::IsDirty { seat: Seat::B }, Expect::FlagIs(false)),
        Step::Wait(Query::IsDirty { seat: Seat::C }, Expect::FlagIs(false)),
        Step::Do(Action::RenameFile { from: "/a/file2", to: "/a/file3" }),
        Step::Do(Action::InsertFile { path: "/a/file4", text: "4" }),
        Step::Wait(Query::FileCount { seat: Seat::B }, Expect::CountIs(3)),
        Step::Wait(Query::FileCount { seat: Seat::C }, Expect::CountIs(3)),
        Step::Check(Query::Paths { seat: Seat::B }, Expect::ThreeTexts("file1", "file3", "file4")),
        Step::Check(Query::Paths { seat: Seat::C }, Expect::ThreeTexts("file1", "file3", "file4")),
    ]
}

/// B edits and saves a file of A's. Saving changes the file's time and leaves B with
/// no changes to save; at no time is B in conflict with the file.
pub open spec fn buffer_conflict_after_save_steps() -> Seq<Step> {
    seq![
        Step::Do(Action::StartServer),
        Step::Do(Action::CreateClient { seat: Seat::A, cx: Seat::A }),
        Step::Do(Action::CreateClient { seat: Seat::B, cx: Seat::B }),
        Step::Do(Action::ForbidParking { seat: Seat::A }),
        Step::Do(Action::SaveFile { path: "/a.txt", text: "a-contents" }),
        Step::Do(Action::OpenLocal { seat: Seat::A, path: "/" }),
        Step::Do(Action::ScanComplete { seat: Seat::A }),
        Step::Do(Action::Share { seat: Seat::A }),
        Step::Do(Action::OpenRemote { seat: Seat::B, share: 7 }),
        Step::Do(Action::OpenBuffer { seat: Seat::B, path: "a.txt" }),
        Step::Note(Query::Mtime { seat: Seat::B }),
        Step::Do(Action::Edit { seat: Seat::B, place: Place::Start, text: "world " }),
        Step::Check(Query::IsDirty { seat: Seat::B }, Expect::FlagIs(true)),
        Step::Check(Query::HasConflict { seat: Seat::B }, Expect::FlagIs(false)),
        Step::Do(Action::BeginSave { seat: Seat::B }),
        Step::Do(Action::FinishSave { seat: Seat::B }),
        Step::Wait(Query::Mtime { seat: Seat::B }, Expect::TimeNotAsIn(10)),
        Step::Check(Query::IsDirty { seat: Seat::B }, Expect::FlagIs(false)),
        Step::Check(Query::HasConflict { seat: Seat::B }, Expect::FlagIs(false)),
        Step::Do(Action::Edit { seat: Seat::B, place: Place::Start, text: "hello " }),
        Step::Check(Query::IsDirty { seat: Seat::B }, Expect::FlagIs(true)),
        Step::Check(Query::HasConflict { seat: Seat::B }, Expect::FlagIs(false)),
    ]
}

/// A edits a file while B is opening it, and B comes to see the text that A sees.
pub open spec fn editing_while_guest_opens_buffer_steps() -> Seq<Step> {
    seq![
        Step::Do(Action::StartServer),
        Step::Do(Action::CreateClient { seat: Seat::A, cx: Seat::A }),
        Step::Do(Action::CreateClient { seat: Seat::B, cx: Seat::B }),
        Step::Do(Action::ForbidParking { seat: Seat::A }),
        Step::Do(Action::SaveFile { path: "/a.txt", text: "a-contents" }),
        Step::Do(Action::OpenLocal { seat: Seat::A, path: "/" }),
        Step::Do(Action::ScanComplete { seat: Seat::A }),
        Step::Do(Action::Share { seat: Seat::A }),
        Step::Do(Action::OpenRemote { seat: Seat::B, share: 7 }),
        Step::Do(Action::OpenBuffer { seat: Seat::A, path: "a.txt" }),
        Step::Do(Action::BeginOpenBuffer { seat: Seat::B, path: "a.txt" }),
        Step::Do(Action::YieldNow),
        Step::Do(Action::Edit { seat: Seat::A, place: Place::Start, text: "z" }),
        Step::Note(Query::Text { seat: Seat::A }),
        Step::Do(Action::FinishOpenBuffer { seat: Seat::B }),
        Step::Wait(Query::Text { seat: Seat::B }, Expect::TextAsIn(13)),
    ]
}

/// B joins a directory of A's and then loses its connection, and A is seen to have
/// no peers left. Both clients are served from A's context.
pub open spec fn peer_disconnection_steps() -> Seq<Step> {
    seq![
        Step::Do(Action::StartServer),
        Step::Do(Action::CreateClient { seat: Seat::A, cx: Seat::A }),
        Step::Do(Action::CreateClient { seat: Seat::B, cx: Seat::A }),
        Step::Do(Action::ForbidParking { seat: Seat::A }),
        Step::Do(
            Action::InsertTree {
                root: "/a",
                first: File { name: "a.txt", text: "a-contents" },
                second: File { name: "b.txt", text: "b-contents" },
            },
        ),
        Step::Do(Action::OpenLocal { seat: Seat::A, path: "/a" }),
        Step::Do(Action::ScanComplete { seat: Seat::A }),
        Step::Do(Action::Share { seat: Seat::A }),
        Step::Do(Action::OpenRemote { seat: Seat::B, share: 7 }),
        Step::Wait(Query::Peers { seat: Seat::A }, Expect::PeersNumber(1)),
        Step::Do(Action::Disconnect { seat: Seat::B }),
        Step::Wait(Query::Peers { seat: Seat::A }, Expect::PeersNumber(0)),
    ]
}

/// A and B are members of a channel. A sees the channel and no other, comes to see
/// B's message in it, and sees its own messages on their way in the order in which
/// they were sent. Both clients are served from A's context.
pub open spec fn basic_chat_steps() -> Seq<Step> {
    seq![
        Step::Do(Action::StartServer),
        Step::Do(Action::CreateClient { seat: Seat::A, cx: Seat::A }),
        Step::Do(Action::CreateClient { seat: Seat::B, cx: Seat::A }),
        Step::Do(Action::CreateOrg { name: "Test Org", slug: "test-org" }),
        Step::Do(Action::AddOrgMember { org: 3, user: 1, admin: false }),
        Step::Do(Action::AddOrgMember { org: 3, user: 2, admin: false }),
        Step::Do(Action::CreateOrgChannel { org: 3, name: "test-channel" }),
        Step::Do(Action::AddChannelMember { channel: 6, user: 1, admin: false }),
        Step::Do(Action::AddChannelMember { channel: 6, user: 2, admin: false }),
        Step::Do(Action::CreateChannelMessage { channel: 6, sender: 2, body: "hello A, it's B." }),
        Step::Do(Action::OpenChannelList { seat: Seat::A }),
        Step::Check(
            Query::AvailableChannels { seat: Seat::A },
            Expect::OneChannel { channel: 6, name: "test-channel" },
        ),
        Step::Do(Action::GetChannel { seat: Seat::A, channel: 6 }),
        Step::Check(Query::Messages { seat: Seat::A }, Expect::NoMessage),
        Step::Do(Action::NextNotification { seat: Seat::A }),
        Step::Check(
            Query::Messages { seat: Seat::A },
            Expect::OneMessage { sender: 2, body: "hello A, it's B." },
        ),
        Step::DoThenCheck(
            Action::SendMessages { seat: Seat::A, body: "oh, hi B.", next_body: "sup" },
            Query::PendingMessages { seat: Seat::A },
            Expect::TwoTexts("oh, hi B.", "sup"),
        ),
        Step::Do(Action::NextNotification { seat: Seat::A }),
    ]
}

/// The steps of a scenario.
pub open spec fn steps_of(scenario: Scenario) -> Seq<Step> {
    match scenario {
        Scenario::ShareWorktree => share_worktree_steps(),
        Scenario::PropagateSavesAndFsChanges => propagate_saves_and_fs_changes_steps(),
        Scenario::BufferConflictAfterSave => buffer_conflict_after_save_steps(),
        Scenario::EditingWhileGuestOpensBuffer => editing_while_guest_opens_buffer_steps(),
        Scenario::PeerDisconnection => peer_disconnection_steps(),
        Scenario::BasicChat => basic_chat_steps(),
    }
}

fn share_worktree() -> (steps: Vec<Step>)
    ensures
        steps@ == share_worktree_steps(),
{
    vec![
        Step::Do(Action::StartLog),
        Step::Do(Action::AddWindow { seat: Seat::B }),
        Step::Do(Action::LoadSettings { seat: Seat::B }),
        Step::Do(Action::StartServer),
        Step::Do(Action::CreateClient { seat: Seat::A, cx: Seat::A }),
        Step::Do(Action::CreateClient { seat: Seat::B, cx: Seat::B }),
        Step::Do(Action::ForbidParking { seat: Seat::A }),
        Step::Do(
            Action::InsertTree {
                root: "/a",
                first: File { name: "a.txt", text: "a-contents" },
                second: File { name: "b.txt", text: "b-contents" },
            },
        ),
        Step::Do(Action::OpenLocal { seat: Seat::A, path: "/a" }),
        Step::Do(Action::ScanComplete { seat: Seat::A }),
        Step::Do(Action::Share { seat: Seat::A }),
        Step::Do(Action::OpenRemote { seat: Seat::B, share: 10 }),
        Step::Note(Query::Replica { seat: Seat::B }),
        Step::Wait(Query::Peers { seat: Seat::A }, Expect::PeersInclude(12)),
        Step::Do(Action::OpenBuffer { seat: Seat::B, path: "b.txt" }),
        Step::Check(Query::Text { seat: Seat::B }, Expect::TextIs("b-contents")),
        Step::Check(Query::HasOpenBuffer { seat: Seat::A, path: "b.txt" }, Expect::FlagIs(true)),
        Step::Do(Action::OpenBuffer { seat: Seat::A, path: "b.txt" }),
        Step::Do(Action::OpenEditor { seat: Seat::B }),
        Step::Wait(Query::SelectionSets { seat: Seat::A }, Expect::CountIs(1)),
        Step::Do(Action::EditorInsert { seat: Seat::B, text: "ok, " }),
        Step::Wait(Query::Text { seat: Seat::A }, Expect::TextIs("ok, b-contents")),
        Step::Do(Action::DropEditor { seat: Seat::B }),
        Step::Wait(Query::SelectionSets { seat: Seat::A }, Expect::CountIs(0)),
        Step::Do(Action::DropBuffer { seat: Seat::A }),
        Step::Wait(Query::HasOpenBuffer { seat: Seat::A, path: "b.txt" }, Expect::FlagIs(false)),
        Step::Do(Action::DropWorktree { seat: Seat::B }),
        Step::Wait(Query::Peers { seat: Seat::A }, Expect::PeersNumber(0)),
    ]
}

fn propagate_saves_and_fs_changes() -> (steps: Vec<Step>)
    ensures
        steps@ == propagate_saves_and_fs_changes_steps(),
{
    vec![
        Step::Do(Action::StartServer),
        Step::Do(Action::CreateClient { seat: Seat::A, cx: Seat::A }),
        Step::Do(Action::CreateClient { seat: Seat::B, cx: Seat::B }),
        Step::Do(Action::CreateClient { seat: Seat::C, cx: Seat::C }),
        Step::Do(Action::ForbidParking { seat: Seat::A }),
        Step::Do(
            Action::InsertTree {
                root: "/a",
                first: File { name: "file1", text: "" },
                second: File { name: "file2", text: "" },
            },
        ),
        Step::Do(Action::OpenLocal { seat: Seat::A, path: "/a" }),
        Step::Do(Action::ScanComplete { seat: Seat::A }),
        Step::Do(Action::Share { seat: Seat::A }),
        Step::Do(Action::OpenRemote { seat: Seat::B, share: 8 }),
        Step::Do(Action::OpenRemote { seat: Seat::C, share: 8 }),
        Step::Do(Action::OpenBuffer { seat: Seat::B, path: "file1" }),
        Step::Do(Action::OpenBuffer { seat: Seat::C, path: "file1" }),
        Step::Do(Action::Edit { seat: Seat::B, place: Place::Start, text: "i-am-b, " }),
        Step::Do(Action::Edit { seat: Seat::C, place: Place::Start, text: "i-am-c, " }),
        Step::Do(Action::OpenBuffer { seat: Seat::A, path: "file1" }),
        Step::Wait(Query::Text { seat: Seat::A }, Expect::TextIs("i-am-c, i-am-b, ")),
        Step::Do(Action::Edit { seat: Seat::A, place: Place::End, text: "i-am-a" }),
        Step::Wait(Query::Text { seat: Seat::A }, Expect::TextIs("i-am-c, i-am-b, i-am-a")),
        Step::Wait(Query::Text { seat: Seat::B }, Expect::TextIs("i-am-c, i-am-b, i-am-a")),
        Step::Wait(Query::Text { seat: Seat::C }, Expect::TextIs("i-am-c, i-am-b, i-am-a")),
        Step::Do(Action::BeginSave { seat: Seat::B }),
        Step::Do(Action::Edit { seat: Seat::A, place: Place::Start, text: "hi-a, " }),
        Step::Do(Action::FinishSave { seat: Seat::B }),
        Step::Check(Query::FileText { path: "/a/file1" }, Expect::TextIs("hi-a, i-am-c, i-am-b, i-am-a")),
        Step::Check(Query::IsDirty { seat: Seat::A }, Expect::FlagIs(false)),
        Step::Check(Query::IsDirty { seat: Seat::B }, Expect::FlagIs(false)),
        Step::Wait(Query::IsDirty { seat: Seat::C }, Expect::FlagIs(false)),
        Step::Do(Action::RenameFile { from: "/a/file2", to: "/a/file3" }),
        Step::Do(Action::InsertFile { path: "/a/file4", text: "4" }),
        Step::Wait(Query::FileCount { seat: Seat::B }, Expect::CountIs(3)),
        Step::Wait(Query::FileCount { seat: Seat::C }, Expect::CountIs(3)),
        Step::Check(Query::Paths { seat: Seat::B }, Expect::ThreeTexts("file1", "file3", "file4")),
        Step::Check(Query::Paths { seat: Seat::C }, Expect::ThreeTexts("file1", "file3", "file4")),
    ]
}

fn buffer_conflict_after_save() -> (steps: Vec<Step>)
    ensures
        steps@ == buffer_conflict_after_save_steps(),
{
    vec![
        Step::Do(Action::StartServer),
        Step::Do(Action::CreateClient { seat: Seat::A, cx: Seat::A }),
        Step::Do(Action::CreateClient { seat: Seat::B, cx: Seat::B }),
        Step::Do(Action::ForbidParking { seat: Seat::A }),
        Step::Do(Action::SaveFile { path: "/a.txt", text: "a-contents" }),
        Step::Do(Action::OpenLocal { seat: Seat::A, path: "/" }),
        Step::Do(Action::ScanComplete { seat: Seat::A }),
        Step::Do(Action::Share { seat: Seat::A }),
        Step::Do(Action::OpenRemote { seat: Seat::B, share: 7 }),
        Step::Do(Action::OpenBuffer { seat: Seat::B, path: "a.txt" }),
        Step::Note(Query::Mtime { seat: Seat::B }),
        Step::Do(Action::Edit { seat: Seat::B, place: Place::Start, text: "world " }),
        Step::Check(Query::IsDirty { seat: Seat::B }, Expect::FlagIs(true)),
        Step::Check(Query::HasConflict { seat: Seat::B }, Expect::FlagIs(false)),
        Step::Do(Action::BeginSave { seat: Seat::B }),
        Step::Do(Action::FinishSave { seat: Seat::B }),
        Step::Wait(Query::Mtime { seat: Seat::B }, Expect::TimeNotAsIn(10)),
        Step::Check(Query::IsDirty { seat: Seat::B }, Expect::FlagIs(false)),
        Step::Check(Query::HasConflict { seat: Seat::B }, Expect::FlagIs(false)),
        Step::Do(Action::Edit { seat: Seat::B, place: Place::Start, text: "hello " }),
        Step::Check(Query::IsDirty { seat: Seat::B }, Expect::FlagIs(true)),
        Step::Check(Query::HasConflict { seat: Seat::B }, Expect::FlagIs(false)),
    ]
}

fn editing_while_guest_opens_buffer() -> (steps: Vec<Step>)
    ensures
        steps@ == editing_while_guest_opens_buffer_steps(),
{
    vec![
        Step::Do(Action::StartServer),
        Step::Do(Action::CreateClient { seat: Seat::A, cx: Seat::A }),
        Step::Do(Action::CreateClient { seat: Seat::B, cx: Seat::B }),
        Step::Do(Action::ForbidParking { seat: Seat::A }),
        Step::Do(Action::SaveFile { path: "/a.txt", text: "a-contents" }),
        Step::Do(Action::OpenLocal { seat: Seat::A, path: "/" }),
        Step::Do(Action::ScanComplete { seat: Seat::A }),
        Step::Do(Action::Share { seat: Seat::A }),
        Step::Do(Action::OpenRemote { seat: Seat::B, share: 7 }),
        Step::Do(Action::OpenBuffer { seat: Seat::A, path: "a.txt" }),
        Step::Do(Action::BeginOpenBuffer { seat: Seat::B, path: "a.txt" }),
        Step::Do(Action::YieldNow),
        Step::Do(Action::Edit { seat: Seat::A, place: Place::Start, text: "z" }),
        Step::Note(Query::Text { seat: Seat::A }),
        Step::Do(Action::FinishOpenBuffer { seat: Seat::B }),
        Step::Wait(Query::Text { seat: Seat::B }, Expect::TextAsIn(13)),
    ]
}

fn peer_disconnection() -> (steps: Vec<Step>)
    ensures
        steps@ == peer_disconnection_steps(),
{
    vec![
        Step::Do(Action::StartServer),
        Step::Do(Action::CreateClient { seat: Seat::A, cx: Seat::A }),
        Step::Do(Action::CreateClient { seat: Seat::B, cx: Seat::A }),
        Step::Do(Action::ForbidParking { seat: Seat::A }),
        Step::Do(
            Action::InsertTree {
                root: "/a",
                first: File { name: "a.txt", text: "a-contents" },
                second: File { name: "b.txt", text: "b-contents" },
            },
        ),
        Step::Do(Action::OpenLocal { seat: Seat::A, path: "/a" }),
        Step::Do(Action::ScanComplete { seat: Seat::A }),
        Step::Do(Action::Share { seat: Seat::A }),
        Step::Do(Action::OpenRemote { seat: Seat::B, share: 7 }),
        Step::Wait(Query::Peers { seat: Seat::A }, Expect::PeersNumber(1)),
        Step::Do(Action::Disconnect { seat: Seat::B }),
        Step::Wait(Query::Peers { seat: Seat::A }, Expect::PeersNumber(0)),
    ]
}

fn basic_chat() -> (steps: Vec<Step>)
    ensures
        steps@ == basic_chat_steps(),
{
    vec![
        Step::Do(Action::StartServer),
        Step::Do(Action::CreateClient { seat: Seat::A, cx: Seat::A }),
        Step::Do(Action::CreateClient { seat: Seat::B, cx: Seat::A }),
        Step::Do(Action::CreateOrg { name: "Test Org", slug: "test-org" }),
        Step::Do(Action::AddOrgMember { org: 3, user: 1, admin: false }),
        Step::Do(Action::AddOrgMember { org: 3, user: 2, admin: false }),
        Step::Do(Action::CreateOrgChannel { org: 3, name: "test-channel" }),
        Step::Do(Action::AddChannelMember { channel: 6, user: 1, admin: false }),
        Step::Do(Action::AddChannelMember { channel: 6, user: 2, admin: false }),
        Step::Do(Action::CreateChannelMessage { channel: 6, sender: 2, body: "hello A, it's B." }),
        Step::Do(Action::OpenChannelList { seat: Seat::A }),
        Step::Check(
            Query::AvailableChannels { seat: Seat::A },
            Expect::OneChannel { channel: 6, name: "test-channel" },
        ),
        Step::Do(Action::GetChannel { seat: Seat::A, channel: 6 }),
        Step::Check(Query::Messages { seat: Seat::A }, Expect::NoMessage),
        Step::Do(Action::NextNotification { seat: Seat::A }),
        Step::Check(
            Query::Messages { seat: Seat::A },
            Expect::OneMessage { sender: 2, body: "hello A, it's B." },
        ),
        Step::DoThenCheck(
            Action::SendMessages { seat: Seat::A, body: "oh, hi B.", next_body: "sup" },
            Query::PendingMessages { seat: Seat::A },
            Expect::TwoTexts("oh, hi B.", "sup"),
        ),
        Step::Do(Action::NextNotification { seat: Seat::A }),
    ]
}

/// The steps of a scenario.
pub fn steps(scenario: Scenario) -> (steps: Vec<Step>)
    ensures
        steps@ == steps_of(scenario),
{
    match scenario {
        Scenario::ShareWorktree => share_worktree(),
        Scenario::PropagateSavesAndFsChanges => propagate_saves_and_fs_changes(),
        Scenario::BufferConflictAfterSave => buffer_conflict_after_save(),
        Scenario::EditingWhileGuestOpensBuffer => editing_while_guest_opens_buffer(),
        Scenario::PeerDisconnection => peer_disconnection(),
        Scenario::BasicChat => basic_chat(),
    }
}

/// The expectation can be met by an answer to the query.
pub open spec fn suits(query: Query, expect: Expect) -> bool {
    match query {
        Query::Text { .. } | Query::FileText { .. } => expect is TextIs || expect is TextAsIn,
        Query::HasOpenBuffer { .. } | Query::IsDirty { .. } | Query::HasConflict { .. } =>
            expect is FlagIs,
        Query::SelectionSets { .. } | Query::FileCount { .. } => expect is CountIs,
        Query::Replica { .. } => false,
        Query::Peers { .. } => expect is PeersNumber || expect is PeersInclude,
        Query::Mtime { .. } => expect is TimeNotAsIn,
        Query::Paths { .. } | Query::PendingMessages { .. } => expect is TwoTexts
            || expect is ThreeTexts,
        Query::AvailableChannels { .. } => expect is OneChannel,
        Query::Messages { .. } => expect is NoMessage || expect is OneMessage,
    }
}

/// A user comes of this step.
pub open spec fn yields_user(step: Step) -> bool {
    step matches Step::Do(Action::CreateClient { .. })
}

/// A shared worktree comes of this step.
pub open spec fn yields_share(step: Step) -> bool {
    step matches Step::Do(Action::Share { .. })
}

/// An organisation comes of this step.
pub open spec fn yields_org(step: Step) -> bool {
    step matches Step::Do(Action::CreateOrg { .. })
}

/// A channel comes of this step.
pub open spec fn yields_channel(step: Step) -> bool {
    step matches Step::Do(Action::CreateOrgChannel { .. })
}

/// What `action`, as step `k`, builds on comes of earlier steps.
pub open spec fn action_is_grounded(steps: Seq<Step>, k: int, action: Action) -> bool {
    match action {
        Action::OpenRemote { share, .. } => share < k && yields_share(steps[share as int]),
        Action::AddOrgMember { org, user, .. } => org < k && yields_org(steps[org as int]) && user
            < k && yields_user(steps[user as int]),
        Action::CreateOrgChannel { org, .. } => org < k && yields_org(steps[org as int]),
        Action::AddChannelMember { channel, user, .. } => channel < k && yields_channel(
            steps[channel as int],
        ) && user < k && yields_user(steps[user as int]),
        Action::CreateChannelMessage { channel, sender, .. } => channel < k && yields_channel(
            steps[channel as int],
        ) && sender < k && yields_user(steps[sender as int]),
        Action::GetChannel { channel, .. } => channel < k && yields_channel(steps[channel as int]),
        _ => true,
    }
}

/// What is expected in step `k` can be seen by its query, and what it builds on
/// comes of earlier steps.
pub open spec fn expect_is_grounded(
    steps: Seq<Step>,
    k: int,
    query: Query,
    expect: Expect,
) -> bool {
    suits(query, expect) && match expect {
        Expect::TextAsIn(step) => step < k && (steps[step as int] matches Step::Note(
            Query::Text { .. },
        )),
        Expect::PeersInclude(step) => step < k && (steps[step as int] matches Step::Note(
            Query::Replica { .. },
        )),
        Expect::TimeNotAsIn(step) => step < k && (steps[step as int] matches Step::Note(
            Query::Mtime { .. },
        )),
        Expect::OneChannel { channel, .. } => channel < k && yields_channel(steps[channel as int]),
        Expect::OneMessage { sender, .. } => sender < k && yields_user(steps[sender as int]),
        _ => true,
    }
}

/// What step `k` builds on comes of earlier steps.
pub open spec fn is_grounded(steps: Seq<Step>, k: int) -> bool {
    match steps[k] {
        Step::Do(action) => action_is_grounded(steps, k, action),
        Step::DoThenCheck(action, query, expect) => action_is_grounded(steps, k, action)
            && expect_is_grounded(steps, k, query, expect),
        Step::Note(_) => true,
        Step::Check(query, expect) | Step::Wait(query, expect) => expect_is_grounded(
            steps,
            k,
            query,
            expect,
        ),
    }
}

/// No scenario builds on something that has not come about yet: what a step
/// builds on comes of earlier steps, and what it expects can be seen.
pub proof fn scenarios_are_grounded(scenario: Scenario, k: int)
    requires
        0 <= k < steps_of(scenario).len(),
    ensures
        is_grounded(steps_of(scenario), k),
{
}

} // verus!
