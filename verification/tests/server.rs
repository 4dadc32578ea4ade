//! Servers and clients, from their start to their end.

use test_server::client::{ClientFailure, ClientJob, ClientStage, DbId};
use test_server::entropy::NoEntropy;
use test_server::names::{
    database_url, db_name, migrations_path, session_secret, terminate_statement,
};
use test_server::server::{Config, Failure, Job, Phase, TestServer};
use test_server::text::push_decimal;
use test_server::view::EmptyView;

const SQL: &str = "
                        SELECT pg_terminate_backend(pg_stat_activity.pid)
                        FROM pg_stat_activity
                        WHERE pg_stat_activity.datname = 'zed-test-42' AND pid <> pg_backend_pid();";

const URL: &str = "postgres://postgres@localhost/zed-test-42";

fn config() -> Config {
    Config {
        session_secret: "a".repeat(32),
        database_url: URL.to_string(),
    }
}

fn running() -> TestServer {
    let mut server = TestServer::start_with(42, "/package");
    while server.phase() != Phase::Running {
        server.succeeded();
    }
    server
}

#[test]
fn numbers_in_decimal() {
    for n in [0, 9, 10, 99, 100, 1234567890, u64::MAX as u128, u128::MAX - 1, u128::MAX] {
        let mut s = "n=".to_string();
        push_decimal(&mut s, n);
        assert_eq!(s, format!("n={}", n));
    }
}

#[test]
fn names_of_a_server() {
    assert_eq!(db_name(0), "zed-test-0");
    assert_eq!(db_name(42), "zed-test-42");
    assert_eq!(db_name(u128::MAX), "zed-test-340282366920938463463374607431768211455");
    assert_eq!(db_name(u128::MAX).len(), 48);
    assert_eq!(database_url("zed-test-42"), URL);
    assert_eq!(session_secret(), "aaaaaaaaaaaaaaaaaaaaaaaaaaaaaaaa");
    assert_eq!(migrations_path("/package"), "/package/migrations");
    assert_eq!(terminate_statement("zed-test-42"), SQL);
    assert_eq!(EmptyView::ui_name(), "empty view");
}

#[test]
fn servers_differ_by_their_number() {
    assert_ne!(db_name(1), db_name(11));
    assert_ne!(database_url(&db_name(1)), database_url(&db_name(11)));
    assert_ne!(terminate_statement(&db_name(1)), terminate_statement(&db_name(11)));
}

#[test]
fn statement_quotes_the_name() {
    let sql = terminate_statement(&db_name(7));
    let parts: Vec<&str> = sql.split('\'').collect();
    assert_eq!(parts.len(), 3);
    assert_eq!(parts[1], "zed-test-7");
}

#[test]
fn settings_of_a_server() {
    assert_eq!(TestServer::build_config("zed-test-42"), config());
}

#[test]
fn start_in_order() {
    let mut server = TestServer::start_with(42, "/package");
    assert_eq!(server.db_name(), "zed-test-42");
    let jobs = [
        Job::LockCreation,
        Job::CreateDatabase { url: URL.to_string() },
        Job::UnlockCreation,
        Job::Connect { url: URL.to_string(), max_connections: 5 },
        Job::LoadMigrations { path: "/package/migrations".to_string() },
        Job::RunMigrations,
        Job::BuildAppState { config: config(), auth_id: "", auth_secret: "" },
        Job::MakePeer,
        Job::MakeServer,
    ];
    for job in jobs {
        assert_eq!(server.job(), Some(job));
        server.succeeded();
    }
    assert_eq!(server.phase(), Phase::Running);
    assert_eq!(server.job(), None);
}

#[test]
fn end_in_order() {
    let mut server = running();
    server.drop();
    let jobs = [
        Job::ResetPeer,
        Job::Execute { sql: SQL.to_string() },
        Job::CloseDatabase,
        Job::DropDatabase { url: URL.to_string() },
    ];
    for job in jobs {
        assert_eq!(server.job(), Some(job));
        server.succeeded();
    }
    assert_eq!(server.phase(), Phase::Gone);
    assert_eq!(server.job(), None);
}

#[test]
fn lock_is_given_back_when_creation_fails() {
    let mut server = TestServer::start_with(42, "/package");
    server.succeeded();
    server.failed();
    assert_eq!(server.phase(), Phase::UnlockingAfterFailure);
    assert_eq!(server.job(), Some(Job::UnlockCreation));
    server.succeeded();
    assert_eq!(server.phase(), Phase::Failed(Failure::CreateDatabase));
    assert_eq!(server.job(), None);
}

/// Lets servers go on one at a time, in the order of `turns` over and over, each
/// job done, and tells the addresses created and dropped in between. A server
/// that wants the lock is passed over while another holds it.
fn run_together(servers: &mut [TestServer], turns: &[usize]) -> (Vec<String>, Vec<String>) {
    let (mut created, mut dropped) = (Vec::new(), Vec::new());
    let mut holder = None;
    while servers.iter().any(|server| server.job().is_some()) {
        for &who in turns {
            match servers[who].job() {
                None => continue,
                Some(Job::LockCreation) => {
                    if holder.is_some() {
                        continue;
                    }
                    holder = Some(who);
                }
                Some(Job::CreateDatabase { url }) => {
                    assert_eq!(holder, Some(who));
                    created.push(url);
                }
                Some(Job::UnlockCreation) => {
                    assert_eq!(holder, Some(who));
                    holder = None;
                }
                Some(Job::DropDatabase { url }) => dropped.push(url),
                Some(_) => {}
            }
            servers[who].succeeded();
            let creating =
                servers.iter().filter(|server| server.phase() == Phase::Creating).count();
            assert!(creating <= 1);
        }
    }
    assert_eq!(holder, None);
    (created, dropped)
}

#[test]
fn servers_start_and_end_together() {
    for turns in [[0, 1, 2], [2, 1, 0], [1, 2, 0]] {
        let numbers = [1, 11, 111];
        let mut servers = numbers.map(|n| TestServer::start_with(n, "/package"));
        let mut expected: Vec<String> = numbers.map(|n| database_url(&db_name(n))).to_vec();
        expected.sort();

        let (mut created, dropped) = run_together(&mut servers, &turns);
        assert!(servers.iter().all(|server| server.phase() == Phase::Running));
        created.sort();
        assert_eq!(created, expected);
        assert!(!created.contains(&database_url("zed")));
        assert!(dropped.is_empty());

        for server in servers.iter_mut() {
            server.drop();
        }
        let (created, mut dropped) = run_together(&mut servers, &turns);
        assert!(servers.iter().all(|server| server.phase() == Phase::Gone));
        dropped.sort();
        assert_eq!(dropped, expected);
        assert!(!dropped.contains(&database_url("zed")));
        assert!(created.is_empty());
    }
}

#[test]
fn failures_break_off() {
    let start = [
        (3, Failure::Connect),
        (4, Failure::LoadMigrations),
        (5, Failure::RunMigrations),
    ];
    for (done, failure) in start {
        let mut server = TestServer::start_with(42, "/package");
        for _ in 0..done {
            server.succeeded();
        }
        server.failed();
        assert_eq!(server.phase(), Phase::Failed(failure));
        assert_eq!(server.job(), None);
    }
    for (done, failure) in [(1, Failure::TerminateConnections), (3, Failure::DropDatabase)] {
        let mut server = running();
        server.drop();
        for _ in 0..done {
            server.succeeded();
        }
        server.failed();
        assert_eq!(server.phase(), Phase::Failed(failure));
        assert_eq!(server.job(), None);
    }
}

#[test]
fn failures_are_told() {
    assert_eq!(
        Failure::CreateDatabase.message(),
        Some("failed to create test database")
    );
    assert_eq!(
        Failure::Connect.message(),
        Some("failed to connect to postgres database")
    );
    for failure in [
        Failure::LoadMigrations,
        Failure::RunMigrations,
        Failure::TerminateConnections,
        Failure::DropDatabase,
    ] {
        assert_eq!(failure.message(), None);
    }
}

#[test]
fn started_servers_draw_their_numbers() {
    let a = TestServer::start("/package").expect("entropy");
    let b = TestServer::start("/package").expect("entropy");
    assert_eq!(a.phase(), Phase::Locking);
    for server in [&a, &b] {
        let number: u128 = server.db_name().strip_prefix("zed-test-").unwrap().parse().unwrap();
        assert_eq!(server.db_name(), db_name(number));
    }
    assert_ne!(a.db_name(), b.db_name());
}

#[test]
fn start_follows_what_was_drawn() {
    let server = TestServer::start_drawn(Ok(42), "/package").expect("a number was drawn");
    assert_eq!(server.phase(), Phase::Locking);
    assert_eq!(server.db_name(), "zed-test-42");
    assert_eq!(TestServer::start_drawn(Err(NoEntropy), "/package").err(), Some(NoEntropy));
}

#[test]
fn client_is_connected_as_its_user() {
    let user = DbId { key: 5, proto: 55 };
    let mut server = running();
    let mut client = server.create_client("user_a");
    assert_eq!(server.phase(), Phase::Running);
    assert_eq!(
        client.job(),
        Some(ClientJob::CreateUser { name: "user_a".to_string(), admin: false })
    );
    client.user_created(user);
    let jobs = [
        ClientJob::MakeClient,
        ClientJob::MakeChannel,
        ClientJob::Handle { name: "user_a".to_string(), user },
        ClientJob::AddConnection { user_id: 55 },
    ];
    for job in jobs {
        assert_eq!(client.job(), Some(job));
        client.succeeded();
    }
    assert_eq!(client.stage(), ClientStage::Connected { user });
    assert_eq!(client.job(), None);
}

#[test]
fn client_failures_break_off() {
    let mut client = running().create_client("user_a");
    client.failed();
    assert_eq!(client.stage(), ClientStage::Failed(ClientFailure::CreateUser));
    assert_eq!(client.job(), None);

    let mut client = running().create_client("user_b");
    client.user_created(DbId { key: 5, proto: 55 });
    client.succeeded();
    client.succeeded();
    client.succeeded();
    client.failed();
    assert_eq!(client.stage(), ClientStage::Failed(ClientFailure::AddConnection));
    assert_eq!(client.job(), None);
}
