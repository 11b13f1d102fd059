//! The CQL texts a run sends: keyspace and table provisioning, and the
//! two prepared statements. The texts are fixed but for the replication
//! factor, which is rendered in decimal.

use vstd::prelude::*;
use vstd::arithmetic::div_mod::lemma_div_decreases;
use vstd::string::StringExecFns;

verus! {

/// The decimal digit character for `d`.
pub open spec fn spec_digit_char(d: nat) -> char {
    if d == 0 {
        '0'
    } else if d == 1 {
        '1'
    } else if d == 2 {
        '2'
    } else if d == 3 {
        '3'
    } else if d == 4 {
        '4'
    } else if d == 5 {
        '5'
    } else if d == 6 {
        '6'
    } else if d == 7 {
        '7'
    } else if d == 8 {
        '8'
    } else {
        '9'
    }
}

/// The decimal rendering of `n`, most significant digit first, no sign
/// and no leading zero (but "0" itself).
pub open spec fn spec_dec_digits(n: nat) -> Seq<char>
    decreases n,
{
    if n < 10 {
        seq![spec_digit_char(n)]
    } else {
        spec_dec_digits(n / 10).push(spec_digit_char(n % 10))
    }
}

/// The one-character text of a single decimal digit.
fn digit_str(d: u64) -> (r: &'static str)
    requires
        d < 10,
    ensures
        r@ == seq![spec_digit_char(d as nat)],
{
    proof {
        reveal_strlit("0");
        reveal_strlit("1");
        reveal_strlit("2");
        reveal_strlit("3");
        reveal_strlit("4");
        reveal_strlit("5");
        reveal_strlit("6");
        reveal_strlit("7");
        reveal_strlit("8");
        reveal_strlit("9");
    }
    let r = match d {
        0 => "0",
        1 => "1",
        2 => "2",
        3 => "3",
        4 => "4",
        5 => "5",
        6 => "6",
        7 => "7",
        8 => "8",
        _ => "9",
    };
    proof {
        assert(r@ =~= seq![spec_digit_char(d as nat)]);
    }
    r
}

/// Renders `n` in decimal.
pub fn u64_to_dec_string(n: u64) -> (r: String)
    ensures
        r@ == spec_dec_digits(n as nat),
    decreases n,
{
    if n < 10 {
        let mut s = String::new();
        s.append(digit_str(n));
        proof {
            assert(s@ =~= spec_dec_digits(n as nat));
        }
        s
    } else {
        proof {
            lemma_div_decreases(n as int, 10);
        }
        let mut s = u64_to_dec_string(n / 10);
        s.append(digit_str(n % 10));
        proof {
            assert(s@ =~= spec_dec_digits(n as nat));
        }
        s
    }
}

/// The keyspace-provisioning statement for a given replication factor.
pub fn create_keyspace_cql(replication_factor: u32) -> (r: String)
    ensures
        r@ == "CREATE KEYSPACE IF NOT EXISTS ks_rust_scylla_bench WITH replication = {'class': 'SimpleStrategy', 'replication_factor': "@
            + spec_dec_digits(replication_factor as nat) + "}"@,
{
    let mut s =
        "CREATE KEYSPACE IF NOT EXISTS ks_rust_scylla_bench WITH replication = {'class': 'SimpleStrategy', 'replication_factor': ".to_owned();
    let digits = u64_to_dec_string(replication_factor as u64);
    s.append(digits.as_str());
    s.append("}");
    s
}

/// Drops the bench table if an earlier run left one behind.
pub fn drop_table_cql() -> (r: String)
    ensures
        r@ == "DROP TABLE IF EXISTS ks_rust_scylla_bench.t"@,
{
    "DROP TABLE IF EXISTS ks_rust_scylla_bench.t".to_owned()
}

/// Creates the bench table.
pub fn create_table_cql() -> (r: String)
    ensures
        r@ == "CREATE TABLE ks_rust_scylla_bench.t (pk bigint PRIMARY KEY, v1 bigint, v2 bigint)"@,
{
    "CREATE TABLE ks_rust_scylla_bench.t (pk bigint PRIMARY KEY, v1 bigint, v2 bigint)".to_owned()
}

/// The insert every write issues, prepared once per node.
pub fn insert_cql() -> (r: String)
    ensures
        r@ == "INSERT INTO ks_rust_scylla_bench.t (pk, v1, v2) VALUES (?, ?, ?)"@,
{
    "INSERT INTO ks_rust_scylla_bench.t (pk, v1, v2) VALUES (?, ?, ?)".to_owned()
}

/// The point lookup every read issues, prepared once per node.
pub fn select_cql() -> (r: String)
    ensures
        r@ == "SELECT pk, v1, v2 FROM ks_rust_scylla_bench.t WHERE pk = ?"@,
{
    "SELECT pk, v1, v2 FROM ks_rust_scylla_bench.t WHERE pk = ?".to_owned()
}

} // verus!
