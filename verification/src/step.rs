//! The steps of a scenario, and what is told of how they went.

use crate::client::DbId;
use vstd::prelude::*;

verus! {

/// A participant of a scenario, each with an application context of its own.
#[derive(Clone, Copy, Debug, PartialEq, Eq, Structural)]
pub enum Seat {
    A,
    B,
    C,
}

impl Seat {
    /// What the user in this seat is called.
    pub open spec fn user_name_text(self) -> Seq<char> {
        match self {
            Seat::A => "user_a"@,
            Seat::B => "user_b"@,
            Seat::C => "user_c"@,
        }
    }

    /// What the user in this seat is called.
    pub fn user_name(self) -> (name: &'static str)
        ensures
            name@ == self.user_name_text(),
    {
        match self {
            Seat::A => "user_a",
            Seat::B => "user_b",
            Seat::C => "user_c",
        }
    }
}

/// Where in a buffer an edit inserts.
#[derive(Clone, Copy, Debug, PartialEq, Eq, Structural)]
pub enum Place {
    Start,
    End,
}

/// A file and what it holds.
#[derive(Clone, Copy, Debug, PartialEq, Eq)]
pub struct File {
    pub name: &'static str,
    pub text: &'static str,
}

/// Something to be done. Where an action builds on what came of an earlier step,
/// it holds the number of that step.
#[derive(Clone, Copy, Debug, PartialEq, Eq)]
pub enum Action {
    /// Start the log.
    StartLog,
    /// Open a window that shows an empty view.
    AddWindow { seat: Seat },
    /// Load the settings from the seat's fonts.
    LoadSettings { seat: Seat },
    /// Start a server of its own for the scenario.
    StartServer,
    /// Make a client for the seat's user, in the background of context `cx`.
    CreateClient { seat: Seat, cx: Seat },
    /// Have the seat's foreground fail where it would block.
    ForbidParking { seat: Seat },
    /// Put a directory with two files into a new fake file system.
    InsertTree { root: &'static str, first: File, second: File },
    /// Save a file into a new fake file system.
    SaveFile { path: &'static str, text: &'static str },
    /// Put a file into the fake file system.
    InsertFile { path: &'static str, text: &'static str },
    /// Rename a file in the fake file system.
    RenameFile { from: &'static str, to: &'static str },
    /// Open a directory of the fake file system as a worktree.
    OpenLocal { seat: Seat, path: &'static str },
    /// Wait until the seat's worktree has been scanned.
    ScanComplete { seat: Seat },
    /// Share the seat's worktree.
    Share { seat: Seat },
    /// Join the worktree that was shared in step `share`.
    OpenRemote { seat: Seat, share: usize },
    /// Open a file of the seat's worktree.
    OpenBuffer { seat: Seat, path: &'static str },
    /// Begin to open a file of the seat's worktree in the background.
    BeginOpenBuffer { seat: Seat, path: &'static str },
    /// Wait until that file is open.
    FinishOpenBuffer { seat: Seat },
    /// Let other tasks run.
    YieldNow,
    /// Open an editor on the seat's buffer, in the seat's window. The seat gives
    /// the buffer up to the editor: whoever performs this keeps no handle of the
    /// buffer, so that the buffer is let go of when the editor is dropped.
    OpenEditor { seat: Seat },
    /// Insert a text at the editor's selections.
    EditorInsert { seat: Seat, text: &'static str },
    /// Drop the seat's editor, and with it the buffer that was given up to it.
    DropEditor { seat: Seat },
    /// Drop the seat's buffer.
    DropBuffer { seat: Seat },
    /// Drop the seat's worktree.
    DropWorktree { seat: Seat },
    /// Insert a text into the seat's buffer.
    Edit { seat: Seat, place: Place, text: &'static str },
    /// Begin to save the seat's buffer.
    BeginSave { seat: Seat },
    /// Wait until that buffer is saved.
    FinishSave { seat: Seat },
    /// Disconnect the seat's client from the server.
    Disconnect { seat: Seat },
    /// Enter an organisation into the server's database.
    CreateOrg { name: &'static str, slug: &'static str },
    /// Make the user of step `user` a member of the organisation of step `org`.
    AddOrgMember { org: usize, user: usize, admin: bool },
    /// Enter a channel of the organisation of step `org`.
    CreateOrgChannel { org: usize, name: &'static str },
    /// Make the user of step `user` a member of the channel of step `channel`.
    AddChannelMember { channel: usize, user: usize, admin: bool },
    /// Enter a message of the user of step `sender`, sent now, into the channel
    /// of step `channel`.
    CreateChannelMessage { channel: usize, sender: usize, body: &'static str },
    /// Have the seat's client fetch its channels.
    OpenChannelList { seat: Seat },
    /// Open the channel of step `channel`.
    GetChannel { seat: Seat, channel: usize },
    /// Wait for the next change of the seat's channel.
    NextNotification { seat: Seat },
    /// Send two messages to the seat's channel, one right after the other, with
    /// no other task running in between.
    SendMessages { seat: Seat, body: &'static str, next_body: &'static str },
}

/// Something to be looked at.
#[derive(Clone, Copy, Debug, PartialEq, Eq)]
pub enum Query {
    /// The text of the seat's buffer.
    Text { seat: Seat },
    /// Whether the seat's worktree has a buffer open on this file.
    HasOpenBuffer { seat: Seat, path: &'static str },
    /// The number of selection sets in the seat's buffer.
    SelectionSets { seat: Seat },
    /// The replica that the seat's worktree is.
    Replica { seat: Seat },
    /// The replicas of the peers of the seat's worktree.
    Peers { seat: Seat },
    /// Whether the seat's buffer holds changes that are not saved.
    IsDirty { seat: Seat },
    /// Whether the seat's buffer is in conflict with its file.
    HasConflict { seat: Seat },
    /// When the file of the seat's buffer was last changed.
    Mtime { seat: Seat },
    /// What a file of the fake file system holds.
    FileText { path: &'static str },
    /// The number of files in the seat's worktree.
    FileCount { seat: Seat },
    /// The paths of the seat's worktree, in order.
    Paths { seat: Seat },
    /// The channels that the seat's user can open.
    AvailableChannels { seat: Seat },
    /// The messages of the seat's channel.
    Messages { seat: Seat },
    /// The bodies of the messages on their way to the seat's channel.
    PendingMessages { seat: Seat },
}

/// What is expected to be seen. Where an expectation builds on what came of an
/// earlier step, it holds the number of that step.
#[derive(Clone, Copy, Debug, PartialEq, Eq)]
pub enum Expect {
    /// This text.
    TextIs(&'static str),
    /// The text seen in that step.
    TextAsIn(usize),
    /// This truth value.
    FlagIs(bool),
    /// This number.
    CountIs(u64),
    /// Peers of this number.
    PeersNumber(u64),
    /// Peers, among them the replica seen in that step.
    PeersInclude(usize),
    /// Another time than the one seen in that step.
    TimeNotAsIn(usize),
    /// These two texts, in order.
    TwoTexts(&'static str, &'static str),
    /// These three texts, in order.
    ThreeTexts(&'static str, &'static str, &'static str),
    /// The channel of step `channel`, called `name`, and no other.
    OneChannel { channel: usize, name: &'static str },
    /// No message.
    NoMessage,
    /// The message `body` of the user of step `sender`, and no other.
    OneMessage { sender: usize, body: &'static str },
}

/// A step of a scenario.
#[derive(Clone, Copy, Debug, PartialEq, Eq)]
pub enum Step {
    /// Do something.
    Do(Action),
    /// Do something and look once, with no other task running in between: what
    /// is seen must be as expected.
    DoThenCheck(Action, Query, Expect),
    /// Look, and keep what is seen for later steps.
    Note(Query),
    /// Look once: what is seen must be as expected.
    Check(Query, Expect),
    /// Look until what is seen is as expected.
    Wait(Query, Expect),
}

/// A channel that can be opened.
#[derive(Clone, Debug, PartialEq, Eq)]
pub struct ChannelDetails {
    pub id: u64,
    pub name: String,
}

/// A message of a channel.
#[derive(Clone, Debug, PartialEq, Eq)]
pub struct ChannelMessage {
    pub sender_id: u64,
    pub body: String,
}

/// What was seen.
#[derive(Clone, Debug, PartialEq, Eq)]
pub enum Answer {
    Text(String),
    Flag(bool),
    Count(u64),
    Replica(u16),
    Replicas(Vec<u16>),
    /// Nanoseconds since the epoch.
    Time(u128),
    Texts(Vec<String>),
    Channels(Vec<ChannelDetails>),
    Messages(Vec<ChannelMessage>),
}

/// What is told of a step.
#[derive(Clone, Debug, PartialEq, Eq)]
pub enum Reply {
    /// It was done.
    Done,
    /// It came to nothing.
    Failed,
    /// It was done, and this user came of it.
    User(DbId),
    /// It was done, and this is how the worktree can be joined.
    Shared { worktree_id: u64, token: String },
    /// It was done, and this organisation came of it.
    Org(DbId),
    /// It was done, and this channel came of it.
    Channel(DbId),
    /// This was seen.
    Seen(Answer),
}

/// What an action builds on.
#[derive(Clone, Debug, PartialEq, Eq)]
pub enum Inputs {
    Nothing,
    /// The name of the user to be created.
    UserName(&'static str),
    /// The worktree to be joined.
    Worktree { worktree_id: u64, token: String },
    /// The organisation that a channel is created in.
    Org(DbId),
    /// The channel to be opened.
    Channel(DbId),
    /// The organisation or the channel, and the user who becomes its member.
    Member { group: DbId, user: DbId },
    /// The channel, and the user whose message goes into it.
    Post { channel: DbId, sender: DbId },
}

} // verus!
