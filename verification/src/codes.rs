//! The exit-code table: the fixed ordered list of HTTP status codes that
//! child processes address through their 8-bit exit codes, and the mapping
//! from an exit code back to a status.

use vstd::prelude::*;
use crate::text::{dec_digits, dec_string};

verus! {

/// The fixed table. Index 0 is reserved for successful execution and maps
/// to 200; the rest enumerates the known HTTP status codes in numeric
/// order. A script exits with the *index* of the status it wants.
pub open spec fn spec_exit_table() -> Seq<u16> {
    seq![
        200u16,
        100u16, 101u16, 102u16, 103u16,
        200u16, 201u16, 202u16, 203u16, 204u16, 205u16, 206u16, 207u16, 208u16, 226u16,
        300u16, 301u16, 302u16, 303u16, 304u16, 305u16, 306u16, 307u16, 308u16,
        400u16, 401u16, 402u16, 403u16, 404u16, 405u16, 406u16, 407u16, 408u16, 409u16,
        410u16, 411u16, 412u16, 413u16, 414u16, 415u16, 416u16, 417u16, 418u16,
        421u16, 422u16, 423u16, 424u16, 425u16, 426u16, 428u16, 429u16, 431u16, 451u16,
        500u16, 501u16, 502u16, 503u16, 504u16, 505u16, 506u16, 507u16, 508u16, 510u16, 511u16,
    ]
}

/// The exit-code table as a vector.
pub fn exit_codes() -> (v: Vec<u16>)
    ensures
        v@ == spec_exit_table(),
{
    let v: Vec<u16> = vec![
        200u16,
        100u16, 101u16, 102u16, 103u16,
        200u16, 201u16, 202u16, 203u16, 204u16, 205u16, 206u16, 207u16, 208u16, 226u16,
        300u16, 301u16, 302u16, 303u16, 304u16, 305u16, 306u16, 307u16, 308u16,
        400u16, 401u16, 402u16, 403u16, 404u16, 405u16, 406u16, 407u16, 408u16, 409u16,
        410u16, 411u16, 412u16, 413u16, 414u16, 415u16, 416u16, 417u16, 418u16,
        421u16, 422u16, 423u16, 424u16, 425u16, 426u16, 428u16, 429u16, 431u16, 451u16,
        500u16, 501u16, 502u16, 503u16, 504u16, 505u16, 506u16, 507u16, 508u16, 510u16, 511u16,
    ];
    proof {
        assert(v@ =~= spec_exit_table());
    }
    v
}

/// Whether a status code counts as success (2xx).
pub open spec fn spec_status_ok(status: u16) -> bool {
    200 <= status < 300
}

/// Tests whether a status code lies in the 2xx range.
pub fn status_is_ok(status: u16) -> (r: bool)
    ensures
        r == spec_status_ok(status),
{
    200 <= status && status < 300
}

/// The status a process result stands for: the table entry at the exit
/// code, 500 when the process was killed by a signal (no code), and 500
/// when the code lies outside the table.
pub open spec fn spec_exit_status(res: Option<i32>) -> u16 {
    match res {
        None => 500u16,
        Some(c) => if 0 <= c && (c as int) < spec_exit_table().len() {
            spec_exit_table()[c as int]
        } else {
            500u16
        },
    }
}

/// Maps a child process exit code to the HTTP status it stands for.
pub fn to_exit_code(res: Option<i32>) -> (r: u16)
    ensures
        r == spec_exit_status(res),
{
    match res {
        None => 500,
        Some(c) => {
            let table = exit_codes();
            if 0 <= c && (c as usize) < table.len() {
                table[c as usize]
            } else {
                500
            }
        },
    }
}

/// The environment entries that publish the table to child processes:
/// for each status in the table, in order, a variable named after the
/// status whose value is the decimal index, so a script can write
/// `exit ${404}` without hard-coding the index.
pub fn exit_code_env() -> (v: Vec<(String, String)>)
    ensures
        v@.len() == spec_exit_table().len(),
        forall|i: int|
            0 <= i < v@.len() ==> v@[i].0@ == dec_digits(spec_exit_table()[i] as nat) && v@[i].1@
                == dec_digits(i as nat),
{
    let table = exit_codes();
    let mut v: Vec<(String, String)> = Vec::new();
    let mut i: usize = 0;
    let n = table.len();
    while i < n
        invariant
            i <= n,
            n == spec_exit_table().len(),
            table@ == spec_exit_table(),
            v@.len() == i,
            forall|k: int|
                0 <= k < i ==> v@[k].0@ == dec_digits(spec_exit_table()[k] as nat) && v@[k].1@
                    == dec_digits(k as nat),
        decreases n - i,
    {
        let key = dec_string(table[i] as u64);
        let val = dec_string(i as u64);
        v.push((key, val));
        i += 1;
    }
    v
}

} // verus!
