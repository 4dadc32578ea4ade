//! Servers that are started and taken down side by side.

use crate::names::{addresses_are_apart, database_url_of, db_name_of, servers_are_apart};
use crate::server::{jobs_left, start_order, Job, Phase, TestServer};
use vstd::prelude::*;

verus! {

/// What a server is told.
pub enum Turn {
    /// Its job is done.
    Succeeded,
    /// Its job came to nothing.
    Failed,
    /// It is no longer used.
    Dropped,
}

/// A server in the state `before` can be told `turn`, and is then in the state
/// `after`.
pub open spec fn takes_turn(before: TestServer, after: TestServer, turn: Turn) -> bool {
    &&& after.name() == before.name()
    &&& after.package() == before.package()
    &&& match turn {
        Turn::Succeeded => !before.at().at_rest() && after.at() == before.at().after_success(),
        Turn::Failed => before.at().can_fail() && after.at() == before.at().after_failure(),
        Turn::Dropped => before.at() is Running && after.at() is ResettingPeer,
    }
}

/// No server holds the lock that all of them share.
pub open spec fn lock_is_free(servers: Seq<TestServer>) -> bool {
    forall|i: int| 0 <= i < servers.len() ==> !(#[trigger] servers[i]).at().holds_lock()
}

/// Server `who` alone goes on from `before` to `after`. The lock is got only
/// while no server holds it.
pub open spec fn goes_on(
    before: Seq<TestServer>,
    after: Seq<TestServer>,
    who: int,
    turn: Turn,
) -> bool {
    &&& 0 <= who < before.len()
    &&& after.len() == before.len()
    &&& takes_turn(before[who], after[who], turn)
    &&& before[who].at() is Locking ==> lock_is_free(before)
    &&& forall|i: int| 0 <= i < before.len() && i != who ==> #[trigger] after[i] == before[i]
}

/// `states` are the states that several servers go through when, one at a time,
/// those that `moves` names are told what it says. All begin to start.
pub open spec fn is_run(states: Seq<Seq<TestServer>>, moves: Seq<(int, Turn)>) -> bool {
    &&& states.len() == moves.len() + 1
    &&& forall|i: int| 0 <= i < states[0].len() ==> (#[trigger] states[0][i]).at() is Locking
    &&& forall|k: int|
        0 <= k < moves.len() ==> goes_on(
            states[k],
            states[k + 1],
            (#[trigger] moves[k]).0,
            moves[k].1,
        )
}

/// The address at which a server's database is created, and from which it is
/// dropped.
pub open spec fn address(server: TestServer) -> Seq<char> {
    database_url_of(server.name())
}

/// The addresses at which databases were created in the first `k` moves, in
/// order.
pub open spec fn created_by(
    states: Seq<Seq<TestServer>>,
    moves: Seq<(int, Turn)>,
    k: nat,
) -> Seq<Seq<char>>
    decreases k,
{
    if k == 0 {
        Seq::empty()
    } else {
        let earlier = created_by(states, moves, (k - 1) as nat);
        let server = states[k - 1][moves[k - 1].0];
        if server.at() is Creating && moves[k - 1].1 is Succeeded {
            earlier.push(address(server))
        } else {
            earlier
        }
    }
}

/// The addresses of the databases that exist after the first `k` moves, where
/// those at the addresses `initial` existed before.
pub open spec fn existing_after(
    initial: Set<Seq<char>>,
    states: Seq<Seq<TestServer>>,
    moves: Seq<(int, Turn)>,
    k: nat,
) -> Set<Seq<char>>
    decreases k,
{
    if k == 0 {
        initial
    } else {
        let earlier = existing_after(initial, states, moves, (k - 1) as nat);
        let server = states[k - 1][moves[k - 1].0];
        if server.at() is Creating && moves[k - 1].1 is Succeeded {
            earlier.insert(address(server))
        } else if server.at() is Dropping && moves[k - 1].1 is Succeeded {
            earlier.remove(address(server))
        } else {
            earlier
        }
    }
}

/// The addresses of the servers' databases are none of `initial`.
pub open spec fn addresses_are_fresh(initial: Set<Seq<char>>, servers: Seq<TestServer>) -> bool {
    forall|i: int| 0 <= i < servers.len() ==> !initial.contains(address(#[trigger] servers[i]))
}

/// No two servers have a database of one name.
pub open spec fn names_differ(servers: Seq<TestServer>) -> bool {
    forall|i: int, j: int|
        0 <= i < j < servers.len() ==> (#[trigger] servers[i]).name() != (
        #[trigger] servers[j]).name()
}

/// The servers have drawn these numbers, no two of them the same.
pub open spec fn drew(servers: Seq<TestServer>, numbers: Seq<u128>) -> bool {
    &&& numbers.len() == servers.len()
    &&& numbers.no_duplicates()
    &&& forall|i: int|
        0 <= i < servers.len() ==> (#[trigger] servers[i]).name() == db_name_of(numbers[i] as nat)
}

/// How many jobs at most are left before all servers are at rest.
pub open spec fn all_jobs_left(servers: Seq<TestServer>) -> nat
    decreases servers.len(),
{
    if servers.len() == 0 {
        0
    } else {
        all_jobs_left(servers.drop_last()) + jobs_left(servers.last().at())
    }
}

/// Whatever servers are told, each keeps the name of its database and its package.
pub proof fn names_stay(states: Seq<Seq<TestServer>>, moves: Seq<(int, Turn)>, k: int)
    requires
        is_run(states, moves),
        0 <= k < states.len(),
    ensures
        states[k].len() == states[0].len(),
        forall|i: int|
            0 <= i < states[0].len() ==> (#[trigger] states[k][i]).name() == states[0][i].name()
                && states[k][i].package() == states[0][i].package(),
    decreases k,
{
    if k > 0 {
        names_stay(states, moves, k - 1);
        assert(goes_on(states[k - 1], states[k], moves[k - 1].0, moves[k - 1].1));
    }
}

/// Databases are created one at a time: however servers are started and taken
/// down side by side, at no time do two of them hold the lock, and so at no
/// time are two of them creating a database.
pub proof fn creations_are_serialized(
    states: Seq<Seq<TestServer>>,
    moves: Seq<(int, Turn)>,
    k: int,
    i: int,
    j: int,
)
    requires
        is_run(states, moves),
        0 <= k < states.len(),
        0 <= i < states[k].len(),
        0 <= j < states[k].len(),
    ensures
        states[k][i].at().holds_lock() && states[k][j].at().holds_lock() ==> i == j,
        states[k][i].at() is Creating && states[k][j].at() is Creating ==> i == j,
    decreases k,
{
    if k > 0 {
        let before = states[k - 1];
        assert(goes_on(before, states[k], moves[k - 1].0, moves[k - 1].1));
        creations_are_serialized(states, moves, k - 1, i, j);
        assert(!before[i].at().holds_lock() || !before[j].at().holds_lock() || i == j);
    } else {
        assert(states[0][i].at() is Locking);
    }
}

/// What was created, and what exists, is what the servers know of: no database
/// is created twice, those that were created are those of the servers that were
/// told so, and those that exist are, besides those that existed before, those of
/// the servers that were told so and have not dropped theirs since. In which order
/// the servers went on does not matter.
pub proof fn databases_are_the_servers_own(
    initial: Set<Seq<char>>,
    states: Seq<Seq<TestServer>>,
    moves: Seq<(int, Turn)>,
    k: nat,
)
    requires
        is_run(states, moves),
        k < states.len(),
        names_differ(states[0]),
        addresses_are_fresh(initial, states[0]),
    ensures
        created_by(states, moves, k).no_duplicates(),
        forall|i: int|
            0 <= i < states[k as int].len() ==> (created_by(states, moves, k).contains(
                address(#[trigger] states[k as int][i]),
            ) <==> states[k as int][i].at().has_created()),
        forall|a: Seq<char>| #[trigger]
            created_by(states, moves, k).contains(a) ==> exists|i: int|
                0 <= i < states[k as int].len() && a == address(#[trigger] states[k as int][i]),
        forall|a: Seq<char>| #[trigger]
            existing_after(initial, states, moves, k).contains(a) <==> initial.contains(a) || exists|
                i: int,
            |
                0 <= i < states[k as int].len() && a == address(#[trigger] states[k as int][i])
                    && states[k as int][i].at().has_database(),
    decreases k,
{
    let now = states[k as int];
    if k == 0 {
        assert forall|i: int| 0 <= i < now.len() implies !(#[trigger] now[i]).at().has_created() by {
            assert(states[0][i].at() is Locking);
        }
    } else {
        let before = states[k - 1];
        let (who, turn) = moves[k - 1];
        let earlier = created_by(states, moves, (k - 1) as nat);
        let created = created_by(states, moves, k);
        let existed = existing_after(initial, states, moves, (k - 1) as nat);
        let existing = existing_after(initial, states, moves, k);
        databases_are_the_servers_own(initial, states, moves, (k - 1) as nat);
        names_stay(states, moves, k - 1);
        assert(goes_on(before, now, who, turn));
        let own = address(before[who]);
        assert forall|i: int| 0 <= i < before.len() && i != who implies address(
            #[trigger] before[i],
        ) != own && now[i] == before[i] by {
            assert(states[0][i].name() == before[i].name());
            assert(states[0][who].name() == before[who].name());
            addresses_are_apart(before[i].name(), before[who].name());
        }
        assert(address(now[who]) == own);
        let creates = before[who].at() is Creating && turn is Succeeded;
        assert forall|a: Seq<char>| #[trigger] created.contains(a) <==> earlier.contains(a) || (
        creates && a == own) by {
            if creates {
                assert(created == earlier.push(own));
                assert(created[earlier.len() as int] == own);
                if earlier.contains(a) {
                    let j = choose|j: int| 0 <= j < earlier.len() && earlier[j] == a;
                    assert(created[j] == a);
                }
            }
        }
        assert(earlier.contains(own) <==> before[who].at().has_created());
        assert forall|i: int| 0 <= i < now.len() implies (created.contains(
            address(#[trigger] now[i]),
        ) <==> now[i].at().has_created()) by {
            if i != who {
                assert(address(before[i]) != own);
            }
        }
        assert forall|a: Seq<char>| #[trigger] created.contains(a) implies exists|i: int|
            0 <= i < now.len() && a == address(#[trigger] now[i]) by {
            if earlier.contains(a) {
                let i = choose|i: int| 0 <= i < before.len() && a == address(#[trigger] before[i]);
                assert(address(now[i]) == a);
            } else {
                assert(address(now[who]) == a);
            }
        }
        assert(!initial.contains(own)) by {
            assert(states[0][who].name() == before[who].name());
            assert(!initial.contains(address(states[0][who])));
        }
        assert forall|a: Seq<char>| #[trigger] existing.contains(a) <==> initial.contains(a)
            || exists|i: int|
            0 <= i < now.len() && a == address(#[trigger] now[i]) && now[i].at().has_database() by {
            if a == own {
                if existed.contains(a) {
                    let i = choose|i: int|
                        0 <= i < before.len() && a == address(#[trigger] before[i])
                            && before[i].at().has_database();
                    assert(i == who);
                }
                assert(existed.contains(own) <==> before[who].at().has_database());
                assert(existing.contains(own) <==> now[who].at().has_database());
                if exists|i: int|
                    0 <= i < now.len() && a == address(#[trigger] now[i])
                        && now[i].at().has_database() {
                    let i = choose|i: int|
                        0 <= i < now.len() && a == address(#[trigger] now[i])
                            && now[i].at().has_database();
                    if i != who {
                        assert(address(before[i]) != own);
                    }
                }
            } else {
                assert(existing.contains(a) <==> existed.contains(a));
                if existed.contains(a) && !initial.contains(a) {
                    let i = choose|i: int|
                        0 <= i < before.len() && a == address(#[trigger] before[i])
                            && before[i].at().has_database();
                    assert(now[i] == before[i]);
                }
                if exists|i: int|
                    0 <= i < now.len() && a == address(#[trigger] now[i])
                        && now[i].at().has_database() {
                    let i = choose|i: int|
                        0 <= i < now.len() && a == address(#[trigger] now[i])
                            && now[i].at().has_database();
                    assert(now[i] == before[i]);
                }
            }
        }
    }
}

proof fn numbers_make_names_differ(servers: Seq<TestServer>, numbers: Seq<u128>)
    requires
        drew(servers, numbers),
    ensures
        names_differ(servers),
{
    assert forall|i: int, j: int| 0 <= i < j < servers.len() implies (#[trigger] servers[i]).name()
        != (#[trigger] servers[j]).name() by {
        servers_are_apart(numbers[i] as nat, numbers[j] as nat);
    }
}

/// Servers can start in parallel: where servers that drew different numbers have
/// all had their databases created and have dropped none of them, as when all are
/// in use, the databases that were created are exactly theirs, each was created
/// once, and each exists beside those that existed before, in whatever order the
/// servers took their turns.
pub proof fn started_together(
    initial: Set<Seq<char>>,
    states: Seq<Seq<TestServer>>,
    moves: Seq<(int, Turn)>,
    numbers: Seq<u128>,
)
    requires
        is_run(states, moves),
        drew(states[0], numbers),
        addresses_are_fresh(initial, states[0]),
        forall|i: int|
            0 <= i < states.last().len() ==> (#[trigger] states.last()[i]).at().has_database(),
    ensures
        created_by(states, moves, moves.len()).no_duplicates(),
        created_by(states, moves, moves.len()).len() == numbers.len(),
        forall|a: Seq<char>|
            #![trigger created_by(states, moves, moves.len()).contains(a)]
            #![trigger existing_after(initial, states, moves, moves.len()).contains(a)]
            {
                &&& created_by(states, moves, moves.len()).contains(a) <==> exists|i: int|
                    0 <= i < numbers.len() && a == database_url_of(
                        db_name_of(#[trigger] numbers[i] as nat),
                    )
                &&& existing_after(initial, states, moves, moves.len()).contains(a)
                    <==> initial.contains(a) || created_by(states, moves, moves.len()).contains(a)
            },
{
    let k = moves.len();
    let now = states.last();
    let created = created_by(states, moves, k);
    numbers_make_names_differ(states[0], numbers);
    names_stay(states, moves, k as int);
    databases_are_the_servers_own(initial, states, moves, k);
    assert forall|i: int| 0 <= i < numbers.len() implies address(#[trigger] now[i])
        == database_url_of(db_name_of(numbers[i] as nat)) && created.contains(address(now[i])) by {
        assert(states[0][i].name() == now[i].name());
    }
    assert forall|a: Seq<char>| #[trigger] created.contains(a) <==> exists|i: int|
        0 <= i < numbers.len() && a == database_url_of(
            db_name_of(#[trigger] numbers[i] as nat),
        ) by {
        if created.contains(a) {
            let i = choose|i: int| 0 <= i < now.len() && a == address(#[trigger] now[i]);
            assert(a == database_url_of(db_name_of(numbers[i] as nat)));
        }
        if exists|i: int|
            0 <= i < numbers.len() && a == database_url_of(
                db_name_of(#[trigger] numbers[i] as nat),
            ) {
            let i = choose|i: int|
                0 <= i < numbers.len() && a == database_url_of(
                    db_name_of(#[trigger] numbers[i] as nat),
                );
            assert(address(now[i]) == a);
        }
    }
    assert forall|a: Seq<char>| #[trigger]
        existing_after(initial, states, moves, k).contains(a) <==> initial.contains(a)
        || created.contains(a) by {
        if created.contains(a) {
            let i = choose|i: int| 0 <= i < now.len() && a == address(#[trigger] now[i]);
            assert(now[i].at().has_database());
        }
    }
    let addresses = Seq::new(numbers.len(), |i: int| address(now[i]));
    assert(addresses.no_duplicates()) by {
        assert forall|i: int, j: int|
            0 <= i < addresses.len() && 0 <= j < addresses.len() && i != j implies addresses[i]
            != addresses[j] by {
            servers_are_apart(numbers[i] as nat, numbers[j] as nat);
            assert(address(now[i]) == database_url_of(db_name_of(numbers[i] as nat)));
            assert(address(now[j]) == database_url_of(db_name_of(numbers[j] as nat)));
        }
    }
    assert(addresses.to_set() =~= created.to_set()) by {
        assert forall|a: Seq<char>| addresses.contains(a) <==> created.contains(a) by {
            if created.contains(a) {
                let i = choose|i: int| 0 <= i < now.len() && a == address(#[trigger] now[i]);
                assert(addresses[i] == a);
            }
            if addresses.contains(a) {
                let i = choose|i: int| 0 <= i < addresses.len() && addresses[i] == a;
                assert(address(now[i]) == a);
            }
        }
    }
    addresses.unique_seq_to_set();
    created.unique_seq_to_set();
}

/// A server in this phase is in use, or on its way to it with nothing failed.
pub open spec fn is_starting_well(phase: Phase) -> bool {
    start_order().contains(phase)
}

proof fn starting_goes_well(states: Seq<Seq<TestServer>>, moves: Seq<(int, Turn)>, k: int, i: int)
    requires
        is_run(states, moves),
        forall|m: int| 0 <= m < moves.len() ==> (#[trigger] moves[m]).1 is Succeeded,
        0 <= k < states.len(),
        0 <= i < states[k].len(),
    ensures
        is_starting_well(states[k][i].at()),
    decreases k,
{
    let order = start_order();
    if k == 0 {
        assert(states[0][i].at() is Locking);
        assert(order[0] == Phase::Locking);
    } else {
        let (who, turn) = moves[k - 1];
        assert(goes_on(states[k - 1], states[k], who, turn));
        starting_goes_well(states, moves, k - 1, i);
        if i == who {
            let j = choose|j: int| 0 <= j < order.len() && order[j] == states[k - 1][i].at();
            assert(order[j + 1] == states[k][i].at());
        }
    }
}

/// Where no job fails, every server comes into use: once none of them can go on,
/// all of them are in use.
pub proof fn unfailing_starts_come_into_use(
    states: Seq<Seq<TestServer>>,
    moves: Seq<(int, Turn)>,
    i: int,
)
    requires
        is_run(states, moves),
        forall|m: int| 0 <= m < moves.len() ==> (#[trigger] moves[m]).1 is Succeeded,
        forall|j: int|
            0 <= j < states.last().len() && !(#[trigger] states.last()[j]).at().at_rest() ==> {
                states.last()[j].at() is Locking && !lock_is_free(states.last())
            },
        0 <= i < states.last().len(),
    ensures
        states.last()[i].at() is Running,
{
    let last = states.last();
    if !last[i].at().at_rest() {
        let who = somebody_can_go_on(states, moves, moves.len() as int, i);
        assert(!last[who].at().at_rest());
        assert(false);
    }
    starting_goes_well(states, moves, moves.len() as int, i);
}

/// Servers that have all been taken down leave the databases as they were: none
/// of their own is left, and every other is.
pub proof fn taken_down_together(
    initial: Set<Seq<char>>,
    states: Seq<Seq<TestServer>>,
    moves: Seq<(int, Turn)>,
    numbers: Seq<u128>,
)
    requires
        is_run(states, moves),
        drew(states[0], numbers),
        addresses_are_fresh(initial, states[0]),
        forall|i: int| 0 <= i < states.last().len() ==> (#[trigger] states.last()[i]).at() is Gone,
    ensures
        existing_after(initial, states, moves, moves.len()) == initial,
{
    numbers_make_names_differ(states[0], numbers);
    databases_are_the_servers_own(initial, states, moves, moves.len());
    let existing = existing_after(initial, states, moves, moves.len());
    assert forall|a: Seq<char>| #[trigger] existing.contains(a) <==> initial.contains(a) by {
        if existing.contains(a) && !initial.contains(a) {
            let now = states.last();
            let i = choose|i: int|
                0 <= i < now.len() && a == address(#[trigger] now[i]) && now[i].at().has_database();
            assert(now[i].at() is Gone);
        }
    }
    assert(existing =~= initial);
}

/// Servers touch no database but their own: at an address that is none of
/// theirs, nothing is ever created or dropped by any of them, no server asks for
/// it, and what existed there before exists there still.
pub proof fn other_databases_are_left_alone(
    initial: Set<Seq<char>>,
    states: Seq<Seq<TestServer>>,
    moves: Seq<(int, Turn)>,
    k: nat,
    a: Seq<char>,
)
    requires
        is_run(states, moves),
        k < states.len(),
        forall|i: int| 0 <= i < states[0].len() ==> a != address(#[trigger] states[0][i]),
    ensures
        forall|m: int|
            0 <= m < k ==> address(states[m][(#[trigger] moves[m]).0]) != a,
        forall|m: int, job: Option<Job>|
            0 <= m < k && #[trigger] states[m][moves[m].0].asks_for(job) ==> match job {
                Some(Job::CreateDatabase { url })
                | Some(Job::Connect { url, .. })
                | Some(Job::DropDatabase { url }) => url@ != a,
                _ => true,
            },
        !created_by(states, moves, k).contains(a),
        existing_after(initial, states, moves, k).contains(a) <==> initial.contains(a),
    decreases k,
{
    if k > 0 {
        other_databases_are_left_alone(initial, states, moves, (k - 1) as nat, a);
        let (who, turn) = moves[k - 1];
        names_stay(states, moves, k - 1);
        assert(goes_on(states[k - 1], states[k as int], who, turn));
        let server = states[k - 1][who];
        assert(server.name() == states[0][who].name());
        assert(a != address(states[0][who]));
        let earlier = created_by(states, moves, (k - 1) as nat);
        if created_by(states, moves, k).contains(a) {
            let created = created_by(states, moves, k);
            let j = choose|j: int| 0 <= j < created.len() && created[j] == a;
            assert(j < earlier.len());
            assert(earlier[j] == a);
        }
    }
}

/// Servers never wait for each other in a circle: at any time at which one of
/// them is not at rest, one of them can go on.
pub proof fn somebody_can_go_on(
    states: Seq<Seq<TestServer>>,
    moves: Seq<(int, Turn)>,
    k: int,
    waiting: int,
) -> (who: int)
    requires
        is_run(states, moves),
        0 <= k < states.len(),
        0 <= waiting < states[k].len(),
        !states[k][waiting].at().at_rest(),
    ensures
        0 <= who < states[k].len(),
        !states[k][who].at().at_rest(),
        states[k][who].at() is Locking ==> lock_is_free(states[k]),
{
    if lock_is_free(states[k]) {
        waiting
    } else {
        choose|i: int| 0 <= i < states[k].len() && (#[trigger] states[k][i]).at().holds_lock()
    }
}

proof fn one_goes_on(before: Seq<TestServer>, after: Seq<TestServer>, who: int)
    requires
        0 <= who < before.len(),
        after.len() == before.len(),
        forall|i: int| 0 <= i < before.len() && i != who ==> #[trigger] after[i] == before[i],
    ensures
        all_jobs_left(after) - jobs_left(after[who].at()) == all_jobs_left(before) - jobs_left(
            before[who].at(),
        ),
    decreases before.len(),
{
    if who == before.len() - 1 {
        assert(after.drop_last() =~= before.drop_last());
    } else {
        one_goes_on(before.drop_last(), after.drop_last(), who);
        assert(after.last() == before.last());
    }
}

proof fn all_start_with_nine(servers: Seq<TestServer>)
    requires
        forall|i: int| 0 <= i < servers.len() ==> (#[trigger] servers[i]).at() is Locking,
    ensures
        all_jobs_left(servers) == 9 * servers.len(),
    decreases servers.len(),
{
    if servers.len() > 0 {
        assert(servers.last().at() is Locking);
        all_start_with_nine(servers.drop_last());
    }
}

/// Every start ends: before any server is taken down, each move leaves fewer
/// jobs to do, and so no more moves than nine for each server can be made.
pub proof fn starts_end(states: Seq<Seq<TestServer>>, moves: Seq<(int, Turn)>)
    requires
        is_run(states, moves),
        forall|k: int| 0 <= k < moves.len() ==> !((#[trigger] moves[k]).1 is Dropped),
    ensures
        moves.len() <= 9 * states[0].len(),
{
    starts_end_after(states, moves, moves.len());
}

proof fn starts_end_after(states: Seq<Seq<TestServer>>, moves: Seq<(int, Turn)>, k: nat)
    requires
        is_run(states, moves),
        k < states.len(),
        forall|k: int| 0 <= k < moves.len() ==> !((#[trigger] moves[k]).1 is Dropped),
    ensures
        all_jobs_left(states[k as int]) + k <= 9 * states[0].len(),
    decreases k,
{
    if k == 0 {
        all_start_with_nine(states[0]);
    } else {
        let (who, turn) = moves[k - 1];
        starts_end_after(states, moves, (k - 1) as nat);
        assert(goes_on(states[k - 1], states[k as int], who, turn));
        one_goes_on(states[k - 1], states[k as int], who);
    }
}

} // verus!
