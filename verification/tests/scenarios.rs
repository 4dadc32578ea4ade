//! The scenarios, played to the end.

use test_server::check::Outcome;
use test_server::client::DbId;
use test_server::scenario::Scenario;
use test_server::session::{Request, Session};
use test_server::step::{
    Action, Answer, ChannelDetails, ChannelMessage, File, Inputs, Place, Query, Reply, Seat,
};

const USER_A: DbId = DbId { key: 1, proto: 101 };
const USER_B: DbId = DbId { key: 2, proto: 102 };
const USER_C: DbId = DbId { key: 3, proto: 103 };

struct Player {
    session: Session,
}

impl Player {
    fn new(scenario: Scenario) -> Self {
        Player { session: Session::begin(scenario) }
    }

    fn gives(&mut self, action: Action, inputs: Inputs, reply: Reply) {
        assert_eq!(self.session.request(), Request::Perform { action, inputs });
        assert_eq!(self.session.tell(reply), Outcome::Accept);
    }

    fn does(&mut self, action: Action) {
        self.gives(action, Inputs::Nothing, Reply::Done);
    }

    fn connects(&mut self, seat: Seat, cx: Seat, name: &'static str, user: DbId) {
        self.gives(
            Action::CreateClient { seat, cx },
            Inputs::UserName(name),
            Reply::User(user),
        );
    }

    fn shares(&mut self, path: &'static str, worktree_id: u64, token: &str) {
        self.does(Action::OpenLocal { seat: Seat::A, path });
        self.does(Action::ScanComplete { seat: Seat::A });
        self.gives(
            Action::Share { seat: Seat::A },
            Inputs::Nothing,
            Reply::Shared { worktree_id, token: token.to_string() },
        );
    }

    fn joins(&mut self, seat: Seat, worktree_id: u64, token: &str) {
        match self.session.request() {
            Request::Perform { action: Action::OpenRemote { seat: guest, .. }, inputs } => {
                assert_eq!(guest, seat);
                assert_eq!(inputs, Inputs::Worktree { worktree_id, token: token.to_string() });
            }
            other => panic!("{:?}", other),
        }
        assert_eq!(self.session.tell(Reply::Done), Outcome::Accept);
    }

    /// What is seen, where it is as expected.
    fn sees(&mut self, query: Query, answer: Answer) {
        assert_eq!(self.session.request(), Request::Observe(query));
        assert_eq!(self.session.tell(Reply::Seen(answer)), Outcome::Accept);
    }

    /// What is seen first, where the scenario looks on.
    fn waits(&mut self, query: Query, not_yet: Answer, answer: Answer) {
        assert_eq!(self.session.request(), Request::Observe(query));
        assert_eq!(self.session.tell(Reply::Seen(not_yet)), Outcome::Again);
        self.sees(query, answer);
    }

    fn edits(&mut self, seat: Seat, place: Place, text: &'static str) {
        self.does(Action::Edit { seat, place, text });
    }

    fn sends_and_sees(&mut self, pending: Answer) {
        assert_eq!(
            self.session.request(),
            Request::PerformAndObserve {
                action: Action::SendMessages {
                    seat: Seat::A,
                    body: "oh, hi B.",
                    next_body: "sup",
                },
                inputs: Inputs::Nothing,
                query: Query::PendingMessages { seat: Seat::A },
            }
        );
        assert_eq!(self.session.tell(Reply::Done), Outcome::Misfit);
        assert_eq!(self.session.tell(Reply::Seen(pending)), Outcome::Accept);
    }

    fn passes(self) {
        assert!(self.session.is_over());
        assert_eq!(
            self.session.request(),
            Request::Finish { passed: true, drop_server: true }
        );
    }
}

fn text(s: &str) -> Answer {
    Answer::Text(s.to_string())
}

fn texts(v: &[&str]) -> Answer {
    Answer::Texts(v.iter().map(|s| s.to_string()).collect())
}

#[test]
fn test_share_worktree() {
    let (a, b) = (Seat::A, Seat::B);
    let mut p = Player::new(Scenario::ShareWorktree);
    p.does(Action::StartLog);
    p.does(Action::AddWindow { seat: b });
    p.does(Action::LoadSettings { seat: b });

    // Connect to a server as 2 clients.
    p.does(Action::StartServer);
    p.connects(a, a, "user_a", USER_A);
    p.connects(b, b, "user_b", USER_B);
    p.does(Action::ForbidParking { seat: a });

    // Share a local worktree as client A
    p.does(Action::InsertTree {
        root: "/a",
        first: File { name: "a.txt", text: "a-contents" },
        second: File { name: "b.txt", text: "b-contents" },
    });
    p.shares("/a", 7, "token");

    // Join that worktree as client B, and see that a guest has joined as client A.
    p.joins(b, 7, "token");
    p.sees(Query::Replica { seat: b }, Answer::Replica(1));
    p.waits(
        Query::Peers { seat: a },
        Answer::Replicas(vec![2]),
        Answer::Replicas(vec![2, 1]),
    );

    // Open the same file as client B and client A.
    p.does(Action::OpenBuffer { seat: b, path: "b.txt" });
    p.sees(Query::Text { seat: b }, text("b-contents"));
    p.sees(Query::HasOpenBuffer { seat: a, path: "b.txt" }, Answer::Flag(true));
    p.does(Action::OpenBuffer { seat: a, path: "b.txt" });

    // Create a selection set as client B and see that selection set as client A.
    p.does(Action::OpenEditor { seat: b });
    p.waits(Query::SelectionSets { seat: a }, Answer::Count(0), Answer::Count(1));

    // Edit the buffer as client B and see that edit as client A.
    p.does(Action::EditorInsert { seat: b, text: "ok, " });
    p.waits(Query::Text { seat: a }, text("b-contents"), text("ok, b-contents"));

    // Remove the selection set as client B, see those selections disappear as client A.
    p.does(Action::DropEditor { seat: b });
    p.waits(Query::SelectionSets { seat: a }, Answer::Count(1), Answer::Count(0));

    // Close the buffer as client A, see that the buffer is closed.
    p.does(Action::DropBuffer { seat: a });
    p.waits(
        Query::HasOpenBuffer { seat: a, path: "b.txt" },
        Answer::Flag(true),
        Answer::Flag(false),
    );

    // Dropping the worktree removes client B from client A's peers.
    p.does(Action::DropWorktree { seat: b });
    p.waits(
        Query::Peers { seat: a },
        Answer::Replicas(vec![1]),
        Answer::Replicas(vec![]),
    );
    p.passes();
}

#[test]
fn test_propagate_saves_and_fs_changes_in_shared_worktree() {
    let (a, b, c) = (Seat::A, Seat::B, Seat::C);
    let mut p = Player::new(Scenario::PropagateSavesAndFsChanges);

    // Connect to a server as 3 clients.
    p.does(Action::StartServer);
    p.connects(a, a, "user_a", USER_A);
    p.connects(b, b, "user_b", USER_B);
    p.connects(c, c, "user_c", USER_C);
    p.does(Action::ForbidParking { seat: a });

    // Share a worktree as client A.
    p.does(Action::InsertTree {
        root: "/a",
        first: File { name: "file1", text: "" },
        second: File { name: "file2", text: "" },
    });
    p.shares("/a", 8, "another token");

    // Join that worktree as clients B and C.
    p.joins(b, 8, "another token");
    p.joins(c, 8, "another token");

    // Open and edit a buffer as both guests B and C.
    p.does(Action::OpenBuffer { seat: b, path: "file1" });
    p.does(Action::OpenBuffer { seat: c, path: "file1" });
    p.edits(b, Place::Start, "i-am-b, ");
    p.edits(c, Place::Start, "i-am-c, ");

    // Open and edit that buffer as the host.
    p.does(Action::OpenBuffer { seat: a, path: "file1" });
    p.waits(Query::Text { seat: a }, text("i-am-b, "), text("i-am-c, i-am-b, "));
    p.edits(a, Place::End, "i-am-a");

    // Wait for edits to propagate
    p.sees(Query::Text { seat: a }, text("i-am-c, i-am-b, i-am-a"));
    p.waits(
        Query::Text { seat: b },
        text("i-am-c, i-am-b, "),
        text("i-am-c, i-am-b, i-am-a"),
    );
    p.waits(Query::Text { seat: c }, text(""), text("i-am-c, i-am-b, i-am-a"));

    // Edit the buffer as the host and concurrently save as guest B.
    p.does(Action::BeginSave { seat: b });
    p.edits(a, Place::Start, "hi-a, ");
    p.does(Action::FinishSave { seat: b });
    p.sees(Query::FileText { path: "/a/file1" }, text("hi-a, i-am-c, i-am-b, i-am-a"));
    p.sees(Query::IsDirty { seat: a }, Answer::Flag(false));
    p.sees(Query::IsDirty { seat: b }, Answer::Flag(false));
    p.waits(Query::IsDirty { seat: c }, Answer::Flag(true), Answer::Flag(false));

    // Make changes on host's file system, see those changes on the guests.
    p.does(Action::RenameFile { from: "/a/file2", to: "/a/file3" });
    p.does(Action::InsertFile { path: "/a/file4", text: "4" });
    p.waits(Query::FileCount { seat: b }, Answer::Count(2), Answer::Count(3));
    p.waits(Query::FileCount { seat: c }, Answer::Count(2), Answer::Count(3));
    p.sees(Query::Paths { seat: b }, texts(&["file1", "file3", "file4"]));
    p.sees(Query::Paths { seat: c }, texts(&["file1", "file3", "file4"]));
    p.passes();
}

fn share_root(p: &mut Player) {
    p.does(Action::StartServer);
    p.connects(Seat::A, Seat::A, "user_a", USER_A);
    p.connects(Seat::B, Seat::B, "user_b", USER_B);
    p.does(Action::ForbidParking { seat: Seat::A });
    p.does(Action::SaveFile { path: "/a.txt", text: "a-contents" });
    p.shares("/", 9, "t");
    p.joins(Seat::B, 9, "t");
}

#[test]
fn test_buffer_conflict_after_save() {
    let b = Seat::B;
    let mut p = Player::new(Scenario::BufferConflictAfterSave);
    share_root(&mut p);

    p.does(Action::OpenBuffer { seat: b, path: "a.txt" });
    p.sees(Query::Mtime { seat: b }, Answer::Time(1000));

    p.edits(b, Place::Start, "world ");
    p.sees(Query::IsDirty { seat: b }, Answer::Flag(true));
    p.sees(Query::HasConflict { seat: b }, Answer::Flag(false));

    p.does(Action::BeginSave { seat: b });
    p.does(Action::FinishSave { seat: b });
    p.waits(Query::Mtime { seat: b }, Answer::Time(1000), Answer::Time(1001));
    p.sees(Query::IsDirty { seat: b }, Answer::Flag(false));
    p.sees(Query::HasConflict { seat: b }, Answer::Flag(false));

    p.edits(b, Place::Start, "hello ");
    p.sees(Query::IsDirty { seat: b }, Answer::Flag(true));
    p.sees(Query::HasConflict { seat: b }, Answer::Flag(false));
    p.passes();
}

#[test]
fn test_editing_while_guest_opens_buffer() {
    let (a, b) = (Seat::A, Seat::B);
    let mut p = Player::new(Scenario::EditingWhileGuestOpensBuffer);
    share_root(&mut p);

    p.does(Action::OpenBuffer { seat: a, path: "a.txt" });
    p.does(Action::BeginOpenBuffer { seat: b, path: "a.txt" });
    p.does(Action::YieldNow);
    p.edits(a, Place::Start, "z");

    p.sees(Query::Text { seat: a }, text("za-contents"));
    p.does(Action::FinishOpenBuffer { seat: b });
    p.waits(Query::Text { seat: b }, text("a-contents"), text("za-contents"));
    p.passes();
}

#[test]
fn test_peer_disconnection() {
    let (a, b) = (Seat::A, Seat::B);
    let mut p = Player::new(Scenario::PeerDisconnection);

    // Connect to a server as 2 clients.
    p.does(Action::StartServer);
    p.connects(a, a, "user_a", USER_A);
    p.connects(b, a, "user_b", USER_B);
    p.does(Action::ForbidParking { seat: a });

    // Share a local worktree as client A
    p.does(Action::InsertTree {
        root: "/a",
        first: File { name: "a.txt", text: "a-contents" },
        second: File { name: "b.txt", text: "b-contents" },
    });
    p.shares("/a", 4, "");

    // Join that worktree as client B, and see that a guest has joined as client A.
    p.joins(b, 4, "");
    p.waits(
        Query::Peers { seat: a },
        Answer::Replicas(vec![]),
        Answer::Replicas(vec![1]),
    );

    // Drop client B's connection and ensure client A observes client B leaving the worktree.
    p.does(Action::Disconnect { seat: b });
    p.waits(
        Query::Peers { seat: a },
        Answer::Replicas(vec![1]),
        Answer::Replicas(vec![]),
    );
    p.passes();
}

/// Plays the chat up to the first look at the channels.
fn chat_until_channels() -> Player {
    let a = Seat::A;
    let org = DbId { key: 11, proto: 111 };
    let channel = DbId { key: 12, proto: 112 };
    let mut p = Player::new(Scenario::BasicChat);

    // Connect to a server as 2 clients.
    p.does(Action::StartServer);
    p.connects(a, a, "user_a", USER_A);
    p.connects(Seat::B, a, "user_b", USER_B);

    // Create an org that includes these 2 users.
    p.gives(
        Action::CreateOrg { name: "Test Org", slug: "test-org" },
        Inputs::Nothing,
        Reply::Org(org),
    );
    for user in [USER_A, USER_B] {
        match p.session.request() {
            Request::Perform { action: Action::AddOrgMember { admin, .. }, inputs } => {
                assert!(!admin);
                assert_eq!(inputs, Inputs::Member { group: org, user });
            }
            other => panic!("{:?}", other),
        }
        assert_eq!(p.session.tell(Reply::Done), Outcome::Accept);
    }

    // Create a channel that includes all the users.
    match p.session.request() {
        Request::Perform { action: Action::CreateOrgChannel { name, .. }, inputs } => {
            assert_eq!(name, "test-channel");
            assert_eq!(inputs, Inputs::Org(org));
        }
        other => panic!("{:?}", other),
    }
    assert_eq!(p.session.tell(Reply::Channel(channel)), Outcome::Accept);
    for user in [USER_A, USER_B] {
        match p.session.request() {
            Request::Perform { action: Action::AddChannelMember { admin, .. }, inputs } => {
                assert!(!admin);
                assert_eq!(inputs, Inputs::Member { group: channel, user });
            }
            other => panic!("{:?}", other),
        }
        assert_eq!(p.session.tell(Reply::Done), Outcome::Accept);
    }
    match p.session.request() {
        Request::Perform { action: Action::CreateChannelMessage { body, .. }, inputs } => {
            assert_eq!(body, "hello A, it's B.");
            assert_eq!(inputs, Inputs::Post { channel, sender: USER_B });
        }
        other => panic!("{:?}", other),
    }
    assert_eq!(p.session.tell(Reply::Done), Outcome::Accept);
    p.does(Action::OpenChannelList { seat: a });
    p
}

fn channel(id: u64, name: &str) -> ChannelDetails {
    ChannelDetails { id, name: name.to_string() }
}

fn message(sender_id: u64, body: &str) -> ChannelMessage {
    ChannelMessage { sender_id, body: body.to_string() }
}

#[test]
fn test_basic_chat() {
    let a = Seat::A;
    let mut p = chat_until_channels();
    p.sees(
        Query::AvailableChannels { seat: a },
        Answer::Channels(vec![channel(112, "test-channel")]),
    );
    match p.session.request() {
        Request::Perform { action: Action::GetChannel { seat, .. }, inputs } => {
            assert_eq!(seat, a);
            assert_eq!(inputs, Inputs::Channel(DbId { key: 12, proto: 112 }));
        }
        other => panic!("{:?}", other),
    }
    assert_eq!(p.session.tell(Reply::Done), Outcome::Accept);
    p.sees(Query::Messages { seat: a }, Answer::Messages(vec![]));
    p.does(Action::NextNotification { seat: a });
    p.sees(
        Query::Messages { seat: a },
        Answer::Messages(vec![message(102, "hello A, it's B.")]),
    );
    p.sends_and_sees(texts(&["oh, hi B.", "sup"]));
    p.does(Action::NextNotification { seat: a });
    p.passes();
}

fn fails_on(mut p: Player, answer: Answer) {
    assert_eq!(p.session.tell(Reply::Seen(answer)), Outcome::Refuse);
    assert!(p.session.is_over());
    assert_eq!(
        p.session.request(),
        Request::Finish { passed: false, drop_server: true }
    );
}

#[test]
fn another_channel_fails_the_chat() {
    for wrong in [
        vec![],
        vec![channel(112, "other")],
        vec![channel(12, "test-channel")],
        vec![channel(112, "test-channel"), channel(113, "test-channel")],
    ] {
        fails_on(chat_until_channels(), Answer::Channels(wrong));
    }
}

fn chat_until_messages() -> Player {
    let mut p = chat_until_channels();
    p.sees(
        Query::AvailableChannels { seat: Seat::A },
        Answer::Channels(vec![channel(112, "test-channel")]),
    );
    assert_eq!(p.session.tell(Reply::Done), Outcome::Accept);
    p
}

#[test]
fn early_message_fails_the_chat() {
    fails_on(
        chat_until_messages(),
        Answer::Messages(vec![message(102, "hello A, it's B.")]),
    );
}

#[test]
fn wrong_message_fails_the_chat() {
    for wrong in [
        vec![],
        vec![message(101, "hello A, it's B.")],
        vec![message(102, "hello")],
        vec![message(102, "hello A, it's B."), message(102, "")],
    ] {
        let mut p = chat_until_messages();
        p.sees(Query::Messages { seat: Seat::A }, Answer::Messages(vec![]));
        p.does(Action::NextNotification { seat: Seat::A });
        fails_on(p, Answer::Messages(wrong));
    }
}

#[test]
fn pending_messages_keep_their_order() {
    for wrong in [&["sup", "oh, hi B."][..], &["oh, hi B."][..], &["oh, hi B.", "sup", ""][..]] {
        let mut p = chat_until_messages();
        p.sees(Query::Messages { seat: Seat::A }, Answer::Messages(vec![]));
        p.does(Action::NextNotification { seat: Seat::A });
        p.sees(
            Query::Messages { seat: Seat::A },
            Answer::Messages(vec![message(102, "hello A, it's B.")]),
        );
        fails_on(p, texts(wrong));
    }
}

#[test]
fn conflict_fails_the_save() {
    let b = Seat::B;
    let mut p = Player::new(Scenario::BufferConflictAfterSave);
    share_root(&mut p);
    p.does(Action::OpenBuffer { seat: b, path: "a.txt" });
    p.sees(Query::Mtime { seat: b }, Answer::Time(1000));
    p.edits(b, Place::Start, "world ");
    p.sees(Query::IsDirty { seat: b }, Answer::Flag(true));
    fails_on(p, Answer::Flag(true));
}

#[test]
fn step_that_comes_to_nothing_fails_the_scenario() {
    let mut p = Player::new(Scenario::ShareWorktree);
    p.does(Action::StartLog);
    p.does(Action::AddWindow { seat: Seat::B });
    assert_eq!(p.session.tell(Reply::Failed), Outcome::Refuse);
    assert!(p.session.is_over());
    assert_eq!(
        p.session.request(),
        Request::Finish { passed: false, drop_server: false }
    );

    let mut p = Player::new(Scenario::PeerDisconnection);
    p.does(Action::StartServer);
    assert_eq!(p.session.tell(Reply::Failed), Outcome::Refuse);
    assert_eq!(
        p.session.request(),
        Request::Finish { passed: false, drop_server: true }
    );
}

#[test]
fn judging_changes_nothing() {
    let mut p = Player::new(Scenario::PeerDisconnection);
    assert_eq!(p.session.judge(&Reply::Failed), Outcome::Refuse);
    assert_eq!(p.session.judge(&Reply::Done), Outcome::Accept);
    assert_eq!(p.session.judge(&Reply::User(USER_A)), Outcome::Misfit);
    p.does(Action::StartServer);
    assert_eq!(p.session.judge(&Reply::Done), Outcome::Misfit);
    assert_eq!(p.session.judge(&Reply::User(USER_A)), Outcome::Accept);
    p.connects(Seat::A, Seat::A, "user_a", USER_A);
}

#[test]
fn reply_of_another_kind_changes_nothing() {
    let mut p = Player::new(Scenario::PeerDisconnection);
    for misfit in [
        Reply::User(USER_A),
        Reply::Org(USER_A),
        Reply::Channel(USER_A),
        Reply::Shared { worktree_id: 0, token: String::new() },
        Reply::Seen(Answer::Flag(true)),
    ] {
        assert_eq!(p.session.tell(misfit), Outcome::Misfit);
    }
    p.does(Action::StartServer);
    assert_eq!(p.session.tell(Reply::Done), Outcome::Misfit);
    p.connects(Seat::A, Seat::A, "user_a", USER_A);
}

#[test]
fn answer_of_another_kind_changes_nothing() {
    let mut p = Player::new(Scenario::ShareWorktree);
    p.does(Action::StartLog);
    p.does(Action::AddWindow { seat: Seat::B });
    p.does(Action::LoadSettings { seat: Seat::B });
    p.does(Action::StartServer);
    p.connects(Seat::A, Seat::A, "user_a", USER_A);
    p.connects(Seat::B, Seat::B, "user_b", USER_B);
    p.does(Action::ForbidParking { seat: Seat::A });
    p.does(Action::InsertTree {
        root: "/a",
        first: File { name: "a.txt", text: "a-contents" },
        second: File { name: "b.txt", text: "b-contents" },
    });
    p.shares("/a", 7, "token");
    p.joins(Seat::B, 7, "token");
    assert_eq!(p.session.tell(Reply::Seen(Answer::Count(1))), Outcome::Misfit);
    assert_eq!(p.session.tell(Reply::Done), Outcome::Misfit);
    p.sees(Query::Replica { seat: Seat::B }, Answer::Replica(1));
    assert_eq!(p.session.tell(Reply::Seen(Answer::Replica(1))), Outcome::Misfit);
}
