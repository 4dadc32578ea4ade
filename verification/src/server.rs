//! One test server: how it is started, and how it is taken down.

use crate::client::{ClientSetup, ClientStage};
use crate::entropy::{random_number, NoEntropy};
use crate::names::{
    address_ends_in_name, database_url, database_url_of, db_name, db_name_of, first_quoted,
    migrations_path, session_secret, session_secret_is_fixed, session_secret_text,
    terminate_statement, terminate_statement_of, terminate_statement_quotes_db_name,
    terminate_statement_spares_its_connection, MIGRATIONS_DIR,
};
use crate::text::decimal;
use vstd::prelude::*;

verus! {

/// The most connections that a test server holds to its database.
pub const MAX_CONNECTIONS: u32 = 5;

/// The settings that a test server runs with where they differ from the
/// defaults.
#[derive(Clone, Debug, PartialEq, Eq)]
pub struct Config {
    /// What sessions are signed with.
    pub session_secret: String,
    /// The address of the server's own database.
    pub database_url: String,
}

/// The job that broke off a server's start or its end.
#[derive(Clone, Copy, Debug, PartialEq, Eq, Structural)]
pub enum Failure {
    CreateDatabase,
    Connect,
    LoadMigrations,
    RunMigrations,
    TerminateConnections,
    DropDatabase,
}

/// How far a server has come.
#[derive(Clone, Copy, Debug, PartialEq, Eq, Structural)]
pub enum Phase {
    /// Waiting for its turn to create a database.
    Locking,
    /// Creating its database.
    Creating,
    /// Passing the turn on.
    Unlocking,
    /// Passing the turn on, with no database created.
    UnlockingAfterFailure,
    /// Opening the connections to the new database.
    Connecting,
    /// Reading the migrations.
    LoadingMigrations,
    /// Running the migrations.
    Migrating,
    /// Putting together what the server works on.
    BuildingState,
    /// Making the end of the network that the server speaks through.
    MakingPeer,
    /// Making the server itself.
    MakingServer,
    /// In use.
    Running,
    /// Closing the server's connections to its clients.
    ResettingPeer,
    /// Ending the other connections to the database.
    Terminating,
    /// Closing the server's own connections to the database.
    Closing,
    /// Dropping the database.
    Dropping,
    /// Taken down.
    Gone,
    /// Broken off.
    Failed(Failure),
}

/// What a server has the caller do.
#[derive(Clone, Debug, PartialEq, Eq)]
pub enum Job {
    /// Take the lock that all servers share.
    LockCreation,
    /// Create the database at this address.
    CreateDatabase { url: String },
    /// Release that lock.
    UnlockCreation,
    /// Open a pool of connections.
    Connect { url: String, max_connections: u32 },
    /// Read the migrations in this directory.
    LoadMigrations { path: String },
    /// Run the migrations that were read.
    RunMigrations,
    /// Put the state together: the connections, the settings, and clients of
    /// the outside services with the given credentials.
    BuildAppState { config: Config, auth_id: &'static str, auth_secret: &'static str },
    /// Make the peer.
    MakePeer,
    /// Make the server on the state and the peer.
    MakeServer,
    /// Reset the peer.
    ResetPeer,
    /// Execute a statement over the server's own connections.
    Execute { sql: String },
    /// Close the server's own connections.
    CloseDatabase,
    /// Drop the database at this address.
    DropDatabase { url: String },
}

impl Failure {
    /// What is said of the failure, where anything is said beyond the error
    /// itself.
    pub fn message(self) -> (text: Option<&'static str>)
        ensures
            match self {
                Failure::CreateDatabase => text matches Some(t) && t@
                    == "failed to create test database"@,
                Failure::Connect => text matches Some(t) && t@
                    == "failed to connect to postgres database"@,
                _ => text is None,
            },
    {
        match self {
            Failure::CreateDatabase => Some("failed to create test database"),
            Failure::Connect => Some("failed to connect to postgres database"),
            _ => None,
        }
    }
}

impl Phase {
    /// Nothing is left to do in this phase.
    pub open spec fn at_rest(self) -> bool {
        self is Running || self is Gone || self is Failed
    }

    /// The job of this phase can come to nothing.
    pub open spec fn can_fail(self) -> bool {
        self.failure() is Some
    }

    /// What it is called when the job of this phase comes to nothing.
    pub open spec fn failure(self) -> Option<Failure> {
        match self {
            Phase::Creating => Some(Failure::CreateDatabase),
            Phase::Connecting => Some(Failure::Connect),
            Phase::LoadingMigrations => Some(Failure::LoadMigrations),
            Phase::Migrating => Some(Failure::RunMigrations),
            Phase::Terminating => Some(Failure::TerminateConnections),
            Phase::Dropping => Some(Failure::DropDatabase),
            _ => None,
        }
    }

    /// The phase that follows when the job of this one is done.
    pub open spec fn after_success(self) -> Phase {
        match self {
            Phase::Locking => Phase::Creating,
            Phase::Creating => Phase::Unlocking,
            Phase::Unlocking => Phase::Connecting,
            Phase::UnlockingAfterFailure => Phase::Failed(Failure::CreateDatabase),
            Phase::Connecting => Phase::LoadingMigrations,
            Phase::LoadingMigrations => Phase::Migrating,
            Phase::Migrating => Phase::BuildingState,
            Phase::BuildingState => Phase::MakingPeer,
            Phase::MakingPeer => Phase::MakingServer,
            Phase::MakingServer => Phase::Running,
            Phase::ResettingPeer => Phase::Terminating,
            Phase::Terminating => Phase::Closing,
            Phase::Closing => Phase::Dropping,
            Phase::Dropping => Phase::Gone,
            _ => self,
        }
    }

    /// The phase that follows when the job of this one comes to nothing: the
    /// shared lock is given back first where it is held.
    pub open spec fn after_failure(self) -> Phase {
        match self.failure() {
            Some(Failure::CreateDatabase) => Phase::UnlockingAfterFailure,
            Some(failure) => Phase::Failed(failure),
            None => self,
        }
    }

    /// A server in this phase holds the lock that all servers share.
    pub open spec fn holds_lock(self) -> bool {
        self is Creating || self is Unlocking || self is UnlockingAfterFailure
    }

    /// A server in this phase has been told that its database was created.
    pub open spec fn has_created(self) -> bool {
        match self {
            Phase::Locking | Phase::Creating | Phase::UnlockingAfterFailure => false,
            Phase::Failed(failure) => failure != Failure::CreateDatabase,
            _ => true,
        }
    }

    /// The database of a server in this phase exists, as far as the server
    /// has been told.
    pub open spec fn has_database(self) -> bool {
        self.has_created() && !(self is Gone)
    }
}

/// A server that is being started, is in use, or is being taken down.
pub struct TestServer {
    db_name: String,
    config: Config,
    manifest_dir: String,
    phase: Phase,
}

impl TestServer {
    /// The name of the server's database.
    pub closed spec fn name(self) -> Seq<char> {
        self.db_name@
    }

    /// The directory of the package whose migrations the server runs.
    pub closed spec fn package(self) -> Seq<char> {
        self.manifest_dir@
    }

    /// How far the server has come.
    pub closed spec fn at(self) -> Phase {
        self.phase
    }

    /// The settings belong to the database.
    #[verifier::type_invariant]
    closed spec fn settings_fit(self) -> bool {
        &&& self.config.database_url@ == database_url_of(self.db_name@)
        &&& self.config.session_secret@ == session_secret_text()
    }

    /// `job` is what is left to do in this server's phase.
    pub open spec fn asks_for(self, job: Option<Job>) -> bool {
        match self.at() {
            Phase::Locking => job matches Some(Job::LockCreation),
            Phase::Creating => job matches Some(Job::CreateDatabase { url }) && url@
                == database_url_of(self.name()),
            Phase::Unlocking | Phase::UnlockingAfterFailure => job matches Some(
                Job::UnlockCreation,
            ),
            Phase::Connecting => job matches Some(Job::Connect { url, max_connections }) && url@
                == database_url_of(self.name()) && max_connections == MAX_CONNECTIONS,
            Phase::LoadingMigrations => job matches Some(Job::LoadMigrations { path }) && path@
                == self.package() + MIGRATIONS_DIR@,
            Phase::Migrating => job matches Some(Job::RunMigrations),
            Phase::BuildingState => job matches Some(
                Job::BuildAppState { config, auth_id, auth_secret },
            ) && config.database_url@ == database_url_of(self.name()) && config.session_secret@
                == session_secret_text() && auth_id@ == ""@ && auth_secret@ == ""@,
            Phase::MakingPeer => job matches Some(Job::MakePeer),
            Phase::MakingServer => job matches Some(Job::MakeServer),
            Phase::ResettingPeer => job matches Some(Job::ResetPeer),
            Phase::Terminating => job matches Some(Job::Execute { sql }) && sql@
                == terminate_statement_of(self.name()),
            Phase::Closing => job matches Some(Job::CloseDatabase),
            Phase::Dropping => job matches Some(Job::DropDatabase { url }) && url@
                == database_url_of(self.name()),
            Phase::Running | Phase::Gone | Phase::Failed(_) => job is None,
        }
    }

    /// Begins to start a server on a database of its own, whose name ends in a
    /// number drawn at random. The migrations are those of the package at
    /// `manifest_dir`.
    pub fn start(manifest_dir: &str) -> (server: Result<TestServer, NoEntropy>)
        ensures
            server matches Ok(s) ==> {
                &&& s.at() == Phase::Locking
                &&& s.package() == manifest_dir@
                &&& exists|n: u128| s.name() == #[trigger] db_name_of(n as nat)
            },
    {
        Self::start_drawn(random_number(), manifest_dir)
    }

    /// Begins to start a server on the database that goes with the number that
    /// was drawn. Where none was drawn there is no server, and the error is
    /// handed on.
    pub fn start_drawn(drawn: Result<u128, NoEntropy>, manifest_dir: &str) -> (server: Result<
        TestServer,
        NoEntropy,
    >)
        ensures
            match drawn {
                Ok(n) => server matches Ok(s) && s.at() == Phase::Locking && s.package()
                    == manifest_dir@ && s.name() == db_name_of(n as nat),
                Err(e) => server == Err::<TestServer, NoEntropy>(e),
            },
    {
        match drawn {
            Ok(n) => Ok(Self::start_with(n, manifest_dir)),
            Err(e) => Err(e),
        }
    }

    /// Begins to start a server on the database that goes with the number `n`.
    pub fn start_with(n: u128, manifest_dir: &str) -> (server: TestServer)
        ensures
            server.at() == Phase::Locking,
            server.package() == manifest_dir@,
            server.name() == db_name_of(n as nat),
            server.name() == "zed-test-"@ + decimal(n as nat),
    {
        let db_name = db_name(n);
        let config = Self::build_config(db_name.as_str());
        TestServer { db_name, config, manifest_dir: manifest_dir.to_owned(), phase: Phase::Locking }
    }

    /// The settings of a server on the database `db_name`.
    pub fn build_config(db_name: &str) -> (config: Config)
        ensures
            config.session_secret@ == session_secret_text(),
            config.database_url@ == database_url_of(db_name@),
            config.session_secret@.len() == 32,
            forall|i: int| 0 <= i < 32 ==> #[trigger] config.session_secret@[i] == 'a',
            config.database_url@ == "postgres://postgres@localhost/"@ + db_name@,
    {
        Config { session_secret: session_secret(), database_url: database_url(db_name) }
    }

    /// How far the server has come.
    pub fn phase(&self) -> (phase: Phase)
        ensures
            phase == self.at(),
    {
        self.phase
    }

    /// The name of the server's database.
    pub fn db_name(&self) -> (name: &str)
        ensures
            name@ == self.name(),
    {
        self.db_name.as_str()
    }

    /// What the caller is to do next, or nothing where the server is at rest.
    pub fn job(&self) -> (job: Option<Job>)
        ensures
            self.asks_for(job),
    {
        proof {
            use_type_invariant(self);
        }
        match self.phase {
            Phase::Locking => Some(Job::LockCreation),
            Phase::Creating => Some(Job::CreateDatabase { url: self.config.database_url.clone() }),
            Phase::Unlocking | Phase::UnlockingAfterFailure => Some(Job::UnlockCreation),
            Phase::Connecting => Some(
                Job::Connect {
                    url: self.config.database_url.clone(),
                    max_connections: MAX_CONNECTIONS,
                },
            ),
            Phase::LoadingMigrations => Some(
                Job::LoadMigrations { path: migrations_path(self.manifest_dir.as_str()) },
            ),
            Phase::Migrating => Some(Job::RunMigrations),
            Phase::BuildingState => Some(
                Job::BuildAppState {
                    config: Config {
                        session_secret: self.config.session_secret.clone(),
                        database_url: self.config.database_url.clone(),
                    },
                    auth_id: "",
                    auth_secret: "",
                },
            ),
            Phase::MakingPeer => Some(Job::MakePeer),
            Phase::MakingServer => Some(Job::MakeServer),
            Phase::ResettingPeer => Some(Job::ResetPeer),
            Phase::Terminating => Some(
                Job::Execute { sql: terminate_statement(self.db_name.as_str()) },
            ),
            Phase::Closing => Some(Job::CloseDatabase),
            Phase::Dropping => Some(Job::DropDatabase { url: self.config.database_url.clone() }),
            Phase::Running | Phase::Gone | Phase::Failed(_) => None,
        }
    }

    /// Tells the server that its job is done.
    pub fn succeeded(&mut self)
        requires
            !old(self).at().at_rest(),
        ensures
            final(self).at() == old(self).at().after_success(),
            final(self).name() == old(self).name(),
            final(self).package() == old(self).package(),
    {
        proof {
            use_type_invariant(&*self);
        }
        self.phase = match self.phase {
            Phase::Locking => Phase::Creating,
            Phase::Creating => Phase::Unlocking,
            Phase::Unlocking => Phase::Connecting,
            Phase::UnlockingAfterFailure => Phase::Failed(Failure::CreateDatabase),
            Phase::Connecting => Phase::LoadingMigrations,
            Phase::LoadingMigrations => Phase::Migrating,
            Phase::Migrating => Phase::BuildingState,
            Phase::BuildingState => Phase::MakingPeer,
            Phase::MakingPeer => Phase::MakingServer,
            Phase::MakingServer => Phase::Running,
            Phase::ResettingPeer => Phase::Terminating,
            Phase::Terminating => Phase::Closing,
            Phase::Closing => Phase::Dropping,
            Phase::Dropping => Phase::Gone,
            rest => rest,
        };
    }

    /// Tells the server that its job came to nothing.
    pub fn failed(&mut self)
        requires
            old(self).at().can_fail(),
        ensures
            final(self).at() == old(self).at().after_failure(),
            final(self).name() == old(self).name(),
            final(self).package() == old(self).package(),
    {
        proof {
            use_type_invariant(&*self);
        }
        self.phase = match self.phase {
            Phase::Creating => Phase::UnlockingAfterFailure,
            Phase::Connecting => Phase::Failed(Failure::Connect),
            Phase::LoadingMigrations => Phase::Failed(Failure::LoadMigrations),
            Phase::Migrating => Phase::Failed(Failure::RunMigrations),
            Phase::Terminating => Phase::Failed(Failure::TerminateConnections),
            Phase::Dropping => Phase::Failed(Failure::DropDatabase),
            rest => rest,
        };
    }

    /// Begins to make a client of this server, for a new user called `name`.
    pub fn create_client(&mut self, name: &str) -> (client: ClientSetup)
        requires
            old(self).at() == Phase::Running,
        ensures
            *final(self) == *old(self),
            client.user_name() == name@,
            client.at() == ClientStage::CreatingUser,
    {
        ClientSetup::new(name)
    }

    /// Begins to take down a server that is in use.
    pub fn drop(&mut self)
        requires
            old(self).at() == Phase::Running,
        ensures
            final(self).at() == Phase::ResettingPeer,
            final(self).name() == old(self).name(),
            final(self).package() == old(self).package(),
    {
        proof {
            use_type_invariant(&*self);
        }
        self.phase = Phase::ResettingPeer;
    }
}

/// The phase that `phase` comes to when its next `jobs` jobs are done.
pub open spec fn after_jobs(phase: Phase, jobs: nat) -> Phase
    decreases jobs,
{
    if jobs == 0 {
        phase
    } else {
        after_jobs(phase, (jobs - 1) as nat).after_success()
    }
}

/// The phases of a start in which every job is done, in order.
pub open spec fn start_order() -> Seq<Phase> {
    seq![
        Phase::Locking,
        Phase::Creating,
        Phase::Unlocking,
        Phase::Connecting,
        Phase::LoadingMigrations,
        Phase::Migrating,
        Phase::BuildingState,
        Phase::MakingPeer,
        Phase::MakingServer,
        Phase::Running,
    ]
}

/// The phases of an end in which every job is done, in order.
pub open spec fn end_order() -> Seq<Phase> {
    seq![
        Phase::ResettingPeer,
        Phase::Terminating,
        Phase::Closing,
        Phase::Dropping,
        Phase::Gone,
    ]
}

/// How many jobs at most are left before a server in `phase` is at rest.
pub open spec fn jobs_left(phase: Phase) -> nat {
    match phase {
        Phase::Locking => 9,
        Phase::Creating => 8,
        Phase::Unlocking => 7,
        Phase::UnlockingAfterFailure => 1,
        Phase::Connecting => 6,
        Phase::LoadingMigrations => 5,
        Phase::Migrating => 4,
        Phase::BuildingState => 3,
        Phase::MakingPeer => 2,
        Phase::MakingServer => 1,
        Phase::ResettingPeer => 4,
        Phase::Terminating => 3,
        Phase::Closing => 2,
        Phase::Dropping => 1,
        Phase::Running | Phase::Gone | Phase::Failed(_) => 0,
    }
}

/// A start whose jobs are all done goes through its phases in one order and
/// ends in use.
pub proof fn start_runs_in_order(jobs: nat)
    ensures
        after_jobs(Phase::Locking, jobs) == if jobs < start_order().len() {
            start_order()[jobs as int]
        } else {
            Phase::Running
        },
    decreases jobs,
{
    if jobs > 0 {
        start_runs_in_order((jobs - 1) as nat);
    }
}

/// An end whose jobs are all done goes through its phases in one order and
/// leaves nothing behind.
pub proof fn end_runs_in_order(jobs: nat)
    ensures
        after_jobs(Phase::ResettingPeer, jobs) == if jobs < end_order().len() {
            end_order()[jobs as int]
        } else {
            Phase::Gone
        },
    decreases jobs,
{
    if jobs > 0 {
        end_runs_in_order((jobs - 1) as nat);
    }
}

/// Whatever comes of its jobs, a server comes to rest: each job, done or not,
/// leaves fewer to do.
pub proof fn server_comes_to_rest(phase: Phase)
    ensures
        phase.at_rest() <==> jobs_left(phase) == 0,
        !phase.at_rest() ==> jobs_left(phase.after_success()) < jobs_left(phase),
        phase.can_fail() ==> jobs_left(phase.after_failure()) < jobs_left(phase),
{
}

/// A server asks for its database to be created only while it holds the lock
/// that all servers share. It takes the lock by the one job that asks for it,
/// and has given it back whenever it is at rest, also when the database could
/// not be created.
pub proof fn creation_is_under_lock(server: TestServer, job: Option<Job>)
    requires
        server.asks_for(job),
    ensures
        job matches Some(Job::CreateDatabase { .. }) ==> server.at().holds_lock(),
        server.at().at_rest() ==> !server.at().holds_lock(),
        !server.at().holds_lock() && server.at().after_success().holds_lock() ==> job matches Some(
            Job::LockCreation,
        ),
        server.at().holds_lock() && !server.at().after_success().holds_lock() <==> job matches Some(
            Job::UnlockCreation,
        ),
        server.at().can_fail() ==> server.at().after_failure().holds_lock()
            == server.at().holds_lock(),
{
}

/// A server's database comes to be by the job that creates it and ceases to be
/// by the job that drops it, and by no other. A start that breaks off later
/// leaves the database behind, and so does an end that breaks off.
pub proof fn database_lives_from_creation_to_drop(phase: Phase)
    ensures
        !phase.has_database() && phase.after_success().has_database() <==> phase is Creating,
        phase.has_database() && !phase.after_success().has_database() <==> phase is Dropping,
        phase.can_fail() ==> phase.after_failure().has_database() == phase.has_database(),
        phase is Running ==> phase.has_database(),
        phase is Gone ==> !phase.has_database(),
{
}

/// A server that drew the number `n` works on the database of that number
/// throughout: it creates, connects to and drops the database at one address,
/// and the connections that it ends are those to the database of that name.
pub proof fn works_on_its_own_database(server: TestServer, n: u128, job: Option<Job>)
    requires
        server.name() == db_name_of(n as nat),
        server.asks_for(job),
    ensures
        job matches Some(Job::CreateDatabase { url }) ==> url@ == database_url_of(server.name()),
        job matches Some(Job::Connect { url, .. }) ==> url@ == database_url_of(server.name()),
        job matches Some(Job::BuildAppState { config, .. }) ==> config.database_url@
            == database_url_of(server.name()),
        job matches Some(Job::DropDatabase { url }) ==> url@ == database_url_of(server.name()),
        job matches Some(Job::Execute { sql }) ==> first_quoted(sql@) == server.name(),
{
    terminate_statement_quotes_db_name(n);
}

/// Whatever the package, the migrations that a server of it asks for are those in
/// the directory `migrations` of the package.
pub proof fn migrations_are_the_packages_own(
    server: TestServer,
    manifest_dir: Seq<char>,
    job: Option<Job>,
)
    requires
        server.package() == manifest_dir,
        server.asks_for(job),
    ensures
        server.at() is LoadingMigrations <==> job is Some && job->0 is LoadMigrations,
        job matches Some(Job::LoadMigrations { path }) ==> {
            &&& path@.len() == manifest_dir.len() + 11
            &&& path@.take(manifest_dir.len() as int) == manifest_dir
            &&& path@.skip(manifest_dir.len() as int) == "/migrations"@
        },
{
    reveal_strlit("/migrations");
    if let Some(Job::LoadMigrations { path }) = job {
        assert(path@.take(manifest_dir.len() as int) =~= manifest_dir);
        assert(path@.skip(manifest_dir.len() as int) =~= "/migrations"@);
    }
}

/// `url` is the address of the local server and behind it `db_name`.
pub open spec fn leads_to(url: Seq<char>, db_name: Seq<char>) -> bool {
    &&& url.len() == 30 + db_name.len()
    &&& url.take(30) == "postgres://postgres@localhost/"@
    &&& url.skip(30) == db_name
}

/// Whatever the name of its database, a server creates, connects to, is set up
/// with and drops the database at the local server under that name, through five
/// connections at most, with the fixed secret and no credentials.
pub proof fn jobs_lead_to_the_database(server: TestServer, db_name: Seq<char>, job: Option<Job>)
    requires
        server.name() == db_name,
        server.asks_for(job),
    ensures
        job matches Some(Job::CreateDatabase { url }) ==> leads_to(url@, db_name),
        job matches Some(Job::Connect { url, max_connections }) ==> leads_to(url@, db_name)
            && max_connections == 5,
        job matches Some(Job::DropDatabase { url }) ==> leads_to(url@, db_name),
        job matches Some(Job::BuildAppState { config, auth_id, auth_secret }) ==> {
            &&& leads_to(config.database_url@, db_name)
            &&& config.session_secret@.len() == 32
            &&& forall|i: int| 0 <= i < 32 ==> #[trigger] config.session_secret@[i] == 'a'
            &&& auth_id@.len() == 0
            &&& auth_secret@.len() == 0
        },
{
    reveal_strlit("");
    address_ends_in_name(db_name);
    session_secret_is_fixed();
}

/// Whatever the name of its database, the statement that a server sends at its end
/// selects the activities in the database of that name, up to the one that it is
/// sent over.
pub proof fn end_spares_its_own_connection(server: TestServer, db_name: Seq<char>, job: Option<Job>)
    requires
        server.name() == db_name,
        server.asks_for(job),
    ensures
        job matches Some(Job::Execute { sql }) ==> {
            let head =
                "\n                        SELECT pg_terminate_backend(pg_stat_activity.pid)\n                        FROM pg_stat_activity\n                        WHERE pg_stat_activity.datname = '"@;
            let tail = "' AND pid <> pg_backend_pid();"@;
            &&& sql@.len() == head.len() + db_name.len() + tail.len()
            &&& sql@.take(head.len() as int) == head
            &&& sql@.subrange(head.len() as int, sql@.len() - tail.len()) == db_name
            &&& sql@.skip(sql@.len() - tail.len()) == tail
        },
{
    terminate_statement_spares_its_connection(db_name);
}

/// Each job belongs to one phase, the release of the lock to two, and there is
/// nothing to do exactly in use, at the end and after a failure.
pub proof fn each_phase_has_its_job(server: TestServer, job: Option<Job>)
    requires
        server.asks_for(job),
    ensures
        server.at() is Locking <==> job == Some(Job::LockCreation),
        server.at() is Creating <==> job is Some && job->0 is CreateDatabase,
        server.at() is Unlocking || server.at() is UnlockingAfterFailure <==> job == Some(
            Job::UnlockCreation,
        ),
        server.at() is Connecting <==> job is Some && job->0 is Connect,
        server.at() is LoadingMigrations <==> job is Some && job->0 is LoadMigrations,
        server.at() is Migrating <==> job == Some(Job::RunMigrations),
        server.at() is BuildingState <==> job is Some && job->0 is BuildAppState,
        server.at() is MakingPeer <==> job == Some(Job::MakePeer),
        server.at() is MakingServer <==> job == Some(Job::MakeServer),
        server.at() is ResettingPeer <==> job == Some(Job::ResetPeer),
        server.at() is Terminating <==> job is Some && job->0 is Execute,
        server.at() is Closing <==> job == Some(Job::CloseDatabase),
        server.at() is Dropping <==> job is Some && job->0 is DropDatabase,
        server.at().at_rest() <==> job is None,
        job is None <==> server.at() is Running || server.at() is Gone || server.at() is Failed,
{
}

/// A job that comes to nothing breaks the server off under the job's own name. A
/// failed creation does so by way of giving the lock back; the jobs that are not
/// named here cannot fail.
pub proof fn failures_are_named(server: TestServer, job: Option<Job>)
    requires
        server.asks_for(job),
    ensures
        job matches Some(Job::CreateDatabase { .. }) ==> {
            &&& server.at().can_fail()
            &&& server.at().after_failure() is UnlockingAfterFailure
            &&& server.at().after_failure().after_success() == Phase::Failed(
                Failure::CreateDatabase,
            )
        },
        job matches Some(Job::Connect { .. }) ==> server.at().can_fail()
            && server.at().after_failure() == Phase::Failed(Failure::Connect),
        job matches Some(Job::LoadMigrations { .. }) ==> server.at().can_fail()
            && server.at().after_failure() == Phase::Failed(Failure::LoadMigrations),
        job matches Some(Job::RunMigrations) ==> server.at().can_fail()
            && server.at().after_failure() == Phase::Failed(Failure::RunMigrations),
        job matches Some(Job::Execute { .. }) ==> server.at().can_fail()
            && server.at().after_failure() == Phase::Failed(Failure::TerminateConnections),
        job matches Some(Job::DropDatabase { .. }) ==> server.at().can_fail()
            && server.at().after_failure() == Phase::Failed(Failure::DropDatabase),
        server.at().can_fail() ==> job is Some && (job->0 is CreateDatabase || job->0 is Connect
            || job->0 is LoadMigrations || job->0 is RunMigrations || job->0 is Execute
            || job->0 is DropDatabase),
{
}

} // verus!
