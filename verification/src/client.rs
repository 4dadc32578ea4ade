//! One client of a test server: how it is given a user and connected.

use vstd::prelude::*;

verus! {

/// How a row is known: to the database, and to the peers of the network.
#[derive(Clone, Copy, Debug, PartialEq, Eq, Structural)]
pub struct DbId {
    pub key: i64,
    pub proto: u64,
}

/// The job that broke off the making of a client.
#[derive(Clone, Copy, Debug, PartialEq, Eq, Structural)]
pub enum ClientFailure {
    CreateUser,
    AddConnection,
}

/// How far a client has come.
#[derive(Clone, Copy, Debug, PartialEq, Eq, Structural)]
pub enum ClientStage {
    CreatingUser,
    MakingClient { user: DbId },
    MakingChannel { user: DbId },
    Handling { user: DbId },
    Connecting { user: DbId },
    Connected { user: DbId },
    Failed(ClientFailure),
}

/// What the making of a client has the caller do.
#[derive(Clone, Debug, PartialEq, Eq)]
pub enum ClientJob {
    /// Enter a user into the server's database.
    CreateUser { name: String, admin: bool },
    /// Make a client that is not connected yet.
    MakeClient,
    /// Make a channel with an end for the client and an end for the server.
    MakeChannel,
    /// Have the server handle its end in the background.
    Handle { name: String, user: DbId },
    /// Give the client its end.
    AddConnection { user_id: u64 },
}

impl ClientStage {
    /// Nothing is left to do in this stage.
    pub open spec fn at_rest(self) -> bool {
        self is Connected || self is Failed
    }

    /// The user that the client is made for, once there is one.
    pub open spec fn user(self) -> Option<DbId> {
        match self {
            ClientStage::MakingClient { user }
            | ClientStage::MakingChannel { user }
            | ClientStage::Handling { user }
            | ClientStage::Connecting { user }
            | ClientStage::Connected { user } => Some(user),
            _ => None,
        }
    }

    /// The stage that follows when the job of this one is done; that of the
    /// first is done only with the user that came of it.
    pub open spec fn after_success(self) -> ClientStage {
        match self {
            ClientStage::MakingClient { user } => ClientStage::MakingChannel { user },
            ClientStage::MakingChannel { user } => ClientStage::Handling { user },
            ClientStage::Handling { user } => ClientStage::Connecting { user },
            ClientStage::Connecting { user } => ClientStage::Connected { user },
            _ => self,
        }
    }

    /// What it is called when the job of this stage comes to nothing.
    pub open spec fn failure(self) -> Option<ClientFailure> {
        match self {
            ClientStage::CreatingUser => Some(ClientFailure::CreateUser),
            ClientStage::Connecting { .. } => Some(ClientFailure::AddConnection),
            _ => None,
        }
    }
}

/// A client that is being made.
pub struct ClientSetup {
    name: String,
    stage: ClientStage,
}

impl ClientSetup {
    /// What the user of this client is called.
    pub closed spec fn user_name(self) -> Seq<char> {
        self.name@
    }

    /// How far the client has come.
    pub closed spec fn at(self) -> ClientStage {
        self.stage
    }

    /// `job` is what is left to do in this client's stage.
    pub open spec fn asks_for(self, job: Option<ClientJob>) -> bool {
        match self.at() {
            ClientStage::CreatingUser => job matches Some(ClientJob::CreateUser { name, admin })
                && name@ == self.user_name() && !admin,
            ClientStage::MakingClient { .. } => job matches Some(ClientJob::MakeClient),
            ClientStage::MakingChannel { .. } => job matches Some(ClientJob::MakeChannel),
            ClientStage::Handling { user } => job matches Some(ClientJob::Handle { name, user: u })
                && name@ == self.user_name() && u == user,
            ClientStage::Connecting { user } => job matches Some(
                ClientJob::AddConnection { user_id },
            ) && user_id == user.proto,
            ClientStage::Connected { .. } | ClientStage::Failed(_) => job is None,
        }
    }

    /// Begins to make a client for a new user called `name`.
    pub(crate) fn new(name: &str) -> (client: ClientSetup)
        ensures
            client.user_name() == name@,
            client.at() == ClientStage::CreatingUser,
    {
        ClientSetup { name: name.to_owned(), stage: ClientStage::CreatingUser }
    }

    /// How far the client has come.
    pub fn stage(&self) -> (stage: ClientStage)
        ensures
            stage == self.at(),
    {
        self.stage
    }

    /// What the caller is to do next, or nothing where the client is at rest.
    pub fn job(&self) -> (job: Option<ClientJob>)
        ensures
            self.asks_for(job),
    {
        match self.stage {
            ClientStage::CreatingUser => Some(
                ClientJob::CreateUser { name: self.name.clone(), admin: false },
            ),
            ClientStage::MakingClient { .. } => Some(ClientJob::MakeClient),
            ClientStage::MakingChannel { .. } => Some(ClientJob::MakeChannel),
            ClientStage::Handling { user } => Some(
                ClientJob::Handle { name: self.name.clone(), user },
            ),
            ClientStage::Connecting { user } => Some(
                ClientJob::AddConnection { user_id: user.proto },
            ),
            ClientStage::Connected { .. } | ClientStage::Failed(_) => None,
        }
    }

    /// Tells the client which user was created for it.
    pub fn user_created(&mut self, user: DbId)
        requires
            old(self).at() == ClientStage::CreatingUser,
        ensures
            final(self).at() == (ClientStage::MakingClient { user }),
            final(self).user_name() == old(self).user_name(),
    {
        self.stage = ClientStage::MakingClient { user };
    }

    /// Tells the client that a job after the first is done.
    pub fn succeeded(&mut self)
        requires
            !old(self).at().at_rest(),
            old(self).at() != ClientStage::CreatingUser,
        ensures
            final(self).at() == old(self).at().after_success(),
            final(self).user_name() == old(self).user_name(),
    {
        self.stage = match self.stage {
            ClientStage::MakingClient { user } => ClientStage::MakingChannel { user },
            ClientStage::MakingChannel { user } => ClientStage::Handling { user },
            ClientStage::Handling { user } => ClientStage::Connecting { user },
            ClientStage::Connecting { user } => ClientStage::Connected { user },
            rest => rest,
        };
    }

    /// Tells the client that its job came to nothing.
    pub fn failed(&mut self)
        requires
            old(self).at().failure() is Some,
        ensures
            final(self).at() == ClientStage::Failed(old(self).at().failure()->0),
            final(self).user_name() == old(self).user_name(),
    {
        self.stage = match self.stage {
            ClientStage::CreatingUser => ClientStage::Failed(ClientFailure::CreateUser),
            _ => ClientStage::Failed(ClientFailure::AddConnection),
        };
    }
}

/// The stage that `stage` comes to when its next `jobs` jobs are done.
pub open spec fn after_jobs(stage: ClientStage, jobs: nat) -> ClientStage
    decreases jobs,
{
    if jobs == 0 {
        stage
    } else {
        after_jobs(stage, (jobs - 1) as nat).after_success()
    }
}

/// A client is connected as the user that was created for it: four more jobs
/// connect it, and both the server's handler and the client's connection are
/// given that user on the way.
pub proof fn connected_as_created(setup: ClientSetup, user: DbId, jobs: nat, job: Option<ClientJob>)
    requires
        setup.at() == after_jobs(ClientStage::MakingClient { user }, jobs),
        setup.asks_for(job),
    ensures
        setup.at().user() == Some(user),
        setup.at() is Connected <==> jobs >= 4,
        job matches Some(ClientJob::Handle { name, user: u }) ==> u == user && name@
            == setup.user_name(),
        job matches Some(ClientJob::AddConnection { user_id }) ==> user_id == user.proto,
{
    after_jobs_in_order(user, jobs);
}

proof fn after_jobs_in_order(user: DbId, jobs: nat)
    ensures
        after_jobs(ClientStage::MakingClient { user }, jobs) == if jobs == 0 {
            ClientStage::MakingClient { user }
        } else if jobs == 1 {
            ClientStage::MakingChannel { user }
        } else if jobs == 2 {
            ClientStage::Handling { user }
        } else if jobs == 3 {
            ClientStage::Connecting { user }
        } else {
            ClientStage::Connected { user }
        },
    decreases jobs,
{
    if jobs > 0 {
        after_jobs_in_order(user, (jobs - 1) as nat);
    }
}

/// Whatever the name, the first thing that a client for a user of that name asks
/// for is a user of that name who is no admin.
pub proof fn user_is_created_by_name(setup: ClientSetup, name: Seq<char>, job: Option<ClientJob>)
    requires
        setup.user_name() == name,
        setup.at() is CreatingUser,
        setup.asks_for(job),
    ensures
        job matches Some(ClientJob::CreateUser { name: created, admin }) && created@ == name
            && admin == false,
{
}

/// The server's handler is given the name under which the user was created, and
/// the user that came of it.
pub proof fn one_name_throughout(
    first: ClientSetup,
    first_job: Option<ClientJob>,
    later: ClientSetup,
    later_job: Option<ClientJob>,
    user: DbId,
)
    requires
        first.at() is CreatingUser,
        first.asks_for(first_job),
        later.user_name() == first.user_name(),
        later.at() == (ClientStage::Handling { user }),
        later.asks_for(later_job),
    ensures
        first_job is Some && first_job->0 is CreateUser,
        later_job is Some && later_job->0 is Handle,
        first_job->0->CreateUser_name@ == later_job->0->Handle_name@,
        later_job->0->user == user,
{
}

/// Once its user is created, a client asks for four jobs and no more: to be made,
/// for a channel, to be handled, and to be connected, in this order, and each for
/// that user.
pub proof fn client_jobs_in_order(setup: ClientSetup, user: DbId, jobs: nat, job: Option<ClientJob>)
    requires
        setup.at() == after_jobs(ClientStage::MakingClient { user }, jobs),
        setup.asks_for(job),
    ensures
        jobs == 0 <==> job == Some(ClientJob::MakeClient),
        jobs == 1 <==> job == Some(ClientJob::MakeChannel),
        jobs == 2 <==> job is Some && job->0 is Handle,
        jobs == 2 ==> job->0->Handle_name@ == setup.user_name() && job->0->user == user,
        jobs == 3 <==> job == Some(ClientJob::AddConnection { user_id: user.proto }),
        jobs >= 4 <==> job is None,
        jobs >= 4 ==> setup.at() == (ClientStage::Connected { user }),
{
    after_jobs_in_order(user, jobs);
}

/// Only the creation of the user and the connection can come to nothing, and each
/// is called by its own name then. A client with nothing left to do is connected
/// or has failed.
pub proof fn client_failures_are_named(setup: ClientSetup, job: Option<ClientJob>)
    requires
        setup.asks_for(job),
    ensures
        setup.at().failure() == Some(ClientFailure::CreateUser) <==> job is Some
            && job->0 is CreateUser,
        setup.at().failure() == Some(ClientFailure::AddConnection) <==> job is Some
            && job->0 is AddConnection,
        job is None <==> setup.at().at_rest(),
        job is None <==> setup.at() is Connected || setup.at() is Failed,
{
}

} // verus!
