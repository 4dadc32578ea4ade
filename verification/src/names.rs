//! The names and texts that belong to one test server.

use crate::text::{
    decimal, decimal_injective, decimal_is_digits, decimal_len, decimal_reads_back, is_digit,
    pow10, push_decimal, value_of,
};
use vstd::prelude::*;
use vstd::string::StringExecFns;

verus! {

/// What the name of every test database begins with.
pub const DB_NAME_PREFIX: &'static str = "zed-test-";

/// What the address of every test database begins with.
pub const DATABASE_URL_PREFIX: &'static str = "postgres://postgres@localhost/";

/// Where the migrations stand below the directory of the package.
pub const MIGRATIONS_DIR: &'static str = "/migrations";

/// The length of the session secret of a test server.
pub const SESSION_SECRET_LEN: usize = 32;

/// The statement that ends the other connections to a database, up to the
/// database's name.
pub const TERMINATE_HEAD: &'static str = "\n                        SELECT pg_terminate_backend(pg_stat_activity.pid)\n                        FROM pg_stat_activity\n                        WHERE pg_stat_activity.datname = '";

/// The rest of that statement, after the database's name.
pub const TERMINATE_TAIL: &'static str = "' AND pid <> pg_backend_pid();";

/// The database name that goes with the number `n`.
pub open spec fn db_name_of(n: nat) -> Seq<char> {
    DB_NAME_PREFIX@ + decimal(n)
}

/// The address of the database called `db_name`.
pub open spec fn database_url_of(db_name: Seq<char>) -> Seq<char> {
    DATABASE_URL_PREFIX@ + db_name
}

/// The session secret of every test server.
pub open spec fn session_secret_text() -> Seq<char> {
    Seq::new(SESSION_SECRET_LEN as nat, |i: int| 'a')
}

/// The statement that ends every connection to `db_name` but the one it is
/// sent over.
pub open spec fn terminate_statement_of(db_name: Seq<char>) -> Seq<char> {
    TERMINATE_HEAD@ + db_name + TERMINATE_TAIL@
}

/// The database name that goes with the random number `n`.
pub fn db_name(n: u128) -> (name: String)
    ensures
        name@ == db_name_of(n as nat),
        name@ == "zed-test-"@ + decimal(n as nat),
{
    let mut name = DB_NAME_PREFIX.to_owned();
    push_decimal(&mut name, n);
    name
}

/// The address of the database called `db_name`.
pub fn database_url(db_name: &str) -> (url: String)
    ensures
        url@ == database_url_of(db_name@),
        url@ == "postgres://postgres@localhost/"@ + db_name@,
{
    DATABASE_URL_PREFIX.to_owned().concat(db_name)
}

/// The session secret: the letter `a`, over and over.
pub fn session_secret() -> (secret: String)
    ensures
        secret@ == session_secret_text(),
        secret@.len() == 32,
        forall|i: int| 0 <= i < 32 ==> #[trigger] secret@[i] == 'a',
{
    proof {
        reveal_strlit("a");
    }
    let mut secret = String::new();
    let mut i: usize = 0;
    while i < SESSION_SECRET_LEN
        invariant
            i <= SESSION_SECRET_LEN,
            secret@ == Seq::new(i as nat, |j: int| 'a'),
            "a"@ == seq!['a'],
        decreases SESSION_SECRET_LEN - i,
    {
        secret.append("a");
        i += 1;
        assert(secret@ =~= Seq::new(i as nat, |j: int| 'a'));
    }
    secret
}

/// The directory of the migrations of the package at `manifest_dir`.
pub fn migrations_path(manifest_dir: &str) -> (path: String)
    ensures
        path@ == manifest_dir@ + MIGRATIONS_DIR@,
        path@ == manifest_dir@ + "/migrations"@,
{
    manifest_dir.to_owned().concat(MIGRATIONS_DIR)
}

/// The statement that ends every connection to `db_name` but the one it is
/// sent over.
pub fn terminate_statement(db_name: &str) -> (sql: String)
    ensures
        sql@ == terminate_statement_of(db_name@),
        sql@ == TERMINATE_HEAD@ + db_name@ + TERMINATE_TAIL@,
{
    TERMINATE_HEAD.to_owned().concat(db_name).concat(TERMINATE_TAIL)
}

/// Whether `c` may stand in a database name, an address and a quoted text as
/// it is: a lower-case letter, a digit or a hyphen.
pub open spec fn is_plain(c: char) -> bool {
    'a' <= c <= 'z' || is_digit(c) || c == '-'
}

/// The first position at or after `from` at which `s` holds a single quote,
/// or the length of `s` where there is none.
pub open spec fn next_quote(s: Seq<char>, from: int) -> int
    decreases s.len() - from,
{
    if from >= s.len() || s[from] == '\'' {
        from
    } else {
        next_quote(s, from + 1)
    }
}

/// The text between the first two single quotes of `s`.
pub open spec fn first_quoted(s: Seq<char>) -> Seq<char> {
    let open = next_quote(s, 0);
    let close = next_quote(s, open + 1);
    s.subrange(open + 1, close)
}

proof fn same_head(head: Seq<char>, a: Seq<char>, b: Seq<char>)
    requires
        head + a == head + b,
    ensures
        a == b,
{
    let whole = head + a;
    assert(a =~= whole.subrange(head.len() as int, whole.len() as int));
    assert(b =~= whole.subrange(head.len() as int, whole.len() as int));
}

proof fn next_quote_at(s: Seq<char>, from: int, at: int)
    requires
        0 <= from <= at < s.len(),
        s[at] == '\'',
        forall|i: int| from <= i < at ==> s[i] != '\'',
    ensures
        next_quote(s, from) == at,
    decreases at - from,
{
    if from < at {
        next_quote_at(s, from + 1, at);
    }
}

/// Databases of different names have different addresses.
pub proof fn addresses_are_apart(a: Seq<char>, b: Seq<char>)
    ensures
        database_url_of(a) == database_url_of(b) <==> a == b,
{
    if database_url_of(a) == database_url_of(b) {
        same_head(DATABASE_URL_PREFIX@, a, b);
    }
}

/// Servers that drew different numbers share no database: their databases
/// differ in name and in address, and so do the statements that end the
/// connections to them. Servers that drew the same number share all three.
pub proof fn servers_are_apart(m: nat, n: nat)
    ensures
        db_name_of(m) == db_name_of(n) <==> m == n,
        database_url_of(db_name_of(m)) == database_url_of(db_name_of(n)) <==> m == n,
        terminate_statement_of(db_name_of(m)) == terminate_statement_of(db_name_of(n)) <==> m == n,
{
    if db_name_of(m) == db_name_of(n) {
        same_head(DB_NAME_PREFIX@, decimal(m), decimal(n));
        decimal_injective(m, n);
    }
    addresses_are_apart(db_name_of(m), db_name_of(n));
    let a = terminate_statement_of(db_name_of(m));
    let b = terminate_statement_of(db_name_of(n));
    if a == b {
        assert(a.len() == TERMINATE_HEAD@.len() + db_name_of(m).len() + TERMINATE_TAIL@.len());
        assert(b.len() == TERMINATE_HEAD@.len() + db_name_of(n).len() + TERMINATE_TAIL@.len());
        let from = TERMINATE_HEAD@.len() as int;
        let to = from + db_name_of(m).len();
        assert(db_name_of(m) =~= a.subrange(from, to));
        assert(db_name_of(n) =~= a.subrange(from, to));
    }
}

/// A generated database name holds plain characters only and is at most 48
/// characters long, so that no part of it is quoted, escaped or cut off on its
/// way through the address or a statement.
pub proof fn db_name_is_plain(n: u128)
    ensures
        10 <= db_name_of(n as nat).len() <= 48,
        forall|i: int|
            0 <= i < db_name_of(n as nat).len() ==> is_plain(#[trigger] db_name_of(n as nat)[i]),
{
    reveal_strlit("zed-test-");
    decimal_is_digits(n as nat);
    assert(pow10(39) == 1_000_000_000_000_000_000_000_000_000_000_000_000_000) by {
        reveal_with_fuel(pow10, 40);
    }
    decimal_len(n as nat, 39);
    assert forall|i: int| 0 <= i < db_name_of(n as nat).len() implies is_plain(
        #[trigger] db_name_of(n as nat)[i],
    ) by {
        if i >= 9 {
            assert(db_name_of(n as nat)[i] == decimal(n as nat)[i - 9]);
        }
    }
}

/// What the terminating statement quotes is the database name and nothing
/// else, for every name that holds no single quote.
pub proof fn terminate_statement_quotes_name(db_name: Seq<char>)
    requires
        !db_name.contains('\''),
    ensures
        first_quoted(terminate_statement_of(db_name)) == db_name,
{
    reveal_strlit("\n                        SELECT pg_terminate_backend(pg_stat_activity.pid)\n                        FROM pg_stat_activity\n                        WHERE pg_stat_activity.datname = '");
    reveal_strlit("' AND pid <> pg_backend_pid();");
    let s = terminate_statement_of(db_name);
    let open = TERMINATE_HEAD@.len() - 1;
    let close = open + 1 + db_name.len();
    assert forall|i: int| 0 <= i < open implies s[i] != '\'' by {
        assert(s[i] == TERMINATE_HEAD@[i]);
    }
    assert(s[open] == TERMINATE_HEAD@[open]);
    assert(s[close] == TERMINATE_TAIL@[0]);
    next_quote_at(s, 0, open);
    assert forall|i: int| open + 1 <= i < close implies s[i] != '\'' by {
        assert(s[i] == db_name[i - open - 1]);
    }
    next_quote_at(s, open + 1, close);
    assert(s.subrange(open + 1, close) =~= db_name);
}

/// The statement that ends the connections to a generated database quotes
/// that database's name.
pub proof fn terminate_statement_quotes_db_name(n: u128)
    ensures
        first_quoted(terminate_statement_of(db_name_of(n as nat))) == db_name_of(n as nat),
{
    db_name_is_plain(n);
    terminate_statement_quotes_name(db_name_of(n as nat));
}

/// A generated database name is `zed-test-` and behind it the number, in digits
/// that read back as it, without zeros in front.
pub proof fn db_name_reads_back(n: nat)
    ensures
        db_name_of(n).len() >= 10,
        db_name_of(n).take(9) == "zed-test-"@,
        forall|i: int| 9 <= i < db_name_of(n).len() ==> '0' <= #[trigger] db_name_of(n)[i] <= '9',
        value_of(db_name_of(n).skip(9)) == n,
        db_name_of(n)[9] == '0' ==> n == 0 && db_name_of(n).len() == 10,
{
    reveal_strlit("zed-test-");
    decimal_reads_back(n);
    assert(db_name_of(n).skip(9) =~= decimal(n));
    assert(db_name_of(n).take(9) =~= "zed-test-"@);
    assert forall|i: int| 9 <= i < db_name_of(n).len() implies '0' <= #[trigger] db_name_of(n)[i]
        <= '9' by {
        assert(db_name_of(n)[i] == decimal(n)[i - 9]);
    }
}

/// The address of a database is that of the local server, and behind it the
/// database's name, whatever the name is.
pub proof fn address_ends_in_name(db_name: Seq<char>)
    ensures
        database_url_of(db_name).len() == 30 + db_name.len(),
        database_url_of(db_name).take(30) == "postgres://postgres@localhost/"@,
        database_url_of(db_name).skip(30) == db_name,
{
    reveal_strlit("postgres://postgres@localhost/");
    assert(database_url_of(db_name).take(30) =~= "postgres://postgres@localhost/"@);
    assert(database_url_of(db_name).skip(30) =~= db_name);
}

/// The secret is thirty-two times the letter `a`.
pub proof fn session_secret_is_fixed()
    ensures
        session_secret_text().len() == 32,
        forall|i: int| 0 <= i < 32 ==> #[trigger] session_secret_text()[i] == 'a',
{
}

/// The terminating statement, whatever the name: it selects among the
/// activities those in the database of that name, and spares the connection that
/// it is sent over. Nothing stands between, in front of or behind those parts.
pub proof fn terminate_statement_spares_its_connection(db_name: Seq<char>)
    ensures
        ({
            let s = terminate_statement_of(db_name);
            let head =
                "\n                        SELECT pg_terminate_backend(pg_stat_activity.pid)\n                        FROM pg_stat_activity\n                        WHERE pg_stat_activity.datname = '"@;
            let tail = "' AND pid <> pg_backend_pid();"@;
            &&& s.len() == head.len() + db_name.len() + tail.len()
            &&& s.take(head.len() as int) == head
            &&& s.subrange(head.len() as int, s.len() - tail.len()) == db_name
            &&& s.skip(s.len() - tail.len()) == tail
        }),
{
    let s = terminate_statement_of(db_name);
    let (head, tail) = (TERMINATE_HEAD@, TERMINATE_TAIL@);
    assert(s.len() == head.len() + db_name.len() + tail.len());
    assert(s.take(head.len() as int) =~= head);
    assert(s.subrange(head.len() as int, s.len() - tail.len()) =~= db_name);
    assert(s.skip(s.len() - tail.len()) =~= tail);
}

} // verus!
