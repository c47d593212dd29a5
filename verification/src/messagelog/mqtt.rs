//! Computational core of the broker-backed message logger: the client
//! identifier the backend connects under.
//!
//! The connection itself — broker options, TLS material, the connect call —
//! is unverifiable I/O and lives with the embedder; what is decided here is
//! only which identifier to use: the configured one, or the lowercase
//! hexadecimal text of a random value drawn by the caller.

use vstd::prelude::*;
use vstd::string::StringExecFns;

verus! {

/// Hexadecimal digit character for a value below sixteen.
pub open spec fn spec_hex_digit(d: int) -> char
    recommends
        0 <= d < 16,
{
    if d == 0 {
        '0'
    } else if d == 1 {
        '1'
    } else if d == 2 {
        '2'
    } else if d == 3 {
        '3'
    } else if d == 4 {
        '4'
    } else if d == 5 {
        '5'
    } else if d == 6 {
        '6'
    } else if d == 7 {
        '7'
    } else if d == 8 {
        '8'
    } else if d == 9 {
        '9'
    } else if d == 10 {
        'a'
    } else if d == 11 {
        'b'
    } else if d == 12 {
        'c'
    } else if d == 13 {
        'd'
    } else if d == 14 {
        'e'
    } else {
        'f'
    }
}

/// Lowercase hexadecimal text of a non-negative integer, most significant
/// digit first, without leading zeros; zero is the single digit `0`.
pub open spec fn spec_hex(n: int) -> Seq<char>
    recommends
        n >= 0,
    decreases n,
{
    if n < 16 {
        seq![spec_hex_digit(n)]
    } else {
        spec_hex(n / 16).push(spec_hex_digit(n % 16))
    }
}

/// The single-character text of a hexadecimal digit.
fn hex_digit_str(d: u8) -> (r: &'static str)
    requires
        d < 16,
    ensures
        r@ == seq![spec_hex_digit(d as int)],
{
    let r: &'static str = match d {
        0 => "0",
        1 => "1",
        2 => "2",
        3 => "3",
        4 => "4",
        5 => "5",
        6 => "6",
        7 => "7",
        8 => "8",
        9 => "9",
        10 => "a",
        11 => "b",
        12 => "c",
        13 => "d",
        14 => "e",
        _ => "f",
    };
    proof {
        reveal_strlit("0");
        reveal_strlit("1");
        reveal_strlit("2");
        reveal_strlit("3");
        reveal_strlit("4");
        reveal_strlit("5");
        reveal_strlit("6");
        reveal_strlit("7");
        reveal_strlit("8");
        reveal_strlit("9");
        reveal_strlit("a");
        reveal_strlit("b");
        reveal_strlit("c");
        reveal_strlit("d");
        reveal_strlit("e");
        reveal_strlit("f");
        assert(r@ =~= seq![spec_hex_digit(d as int)]);
    }
    r
}

/// Lowercase hexadecimal text of the value, as `format!("{:x}", n)` would
/// write it.
pub fn hex_string_u64(n: u64) -> (r: String)
    ensures
        r@ == spec_hex(n as int),
    decreases n,
{
    if n < 16 {
        hex_digit_str(n as u8).to_owned()
    } else {
        let mut s = hex_string_u64(n / 16);
        let d = hex_digit_str((n % 16) as u8);
        s.append(d);
        proof {
            assert(s@ =~= spec_hex(n as int / 16).push(spec_hex_digit(n as int % 16)));
        }
        s
    }
}

/// The client identifier the backend connects under: the configured one,
/// or, where none is configured, the lowercase hexadecimal text of a
/// random value the caller drew.
pub fn client_id_for(configured: &String, random: u64) -> (r: String)
    ensures
        configured@.len() > 0 ==> r@ == configured@,
        configured@.len() == 0 ==> r@ == spec_hex(random as int),
{
    if configured.as_str().is_empty() {
        hex_string_u64(random)
    } else {
        configured.clone()
    }
}

} // verus!
