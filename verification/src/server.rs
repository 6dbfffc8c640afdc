//! The MCP server's shared state: its connection token and whether it runs.

use vstd::prelude::*;
use std::sync::atomic::AtomicBool;
use std::sync::atomic::Ordering;
use std::sync::Arc;
use std::time::{Duration, SystemTime};
use crate::mcp::{hex_of, hex_string, le_bytes, le_bytes_of, lemma_hex_of_len};

verus! {

#[verifier::external_type_specification]
#[verifier::external_body]
pub struct ExSystemTime(SystemTime);

/// `getrandom::fill`: fills `dest` with random bytes from the operating
/// system; false if it could not (the bytes are then unspecified).
#[verifier::external_body]
fn fill_random(dest: &mut Vec<u8>) -> (ok: bool)
    ensures
        final(dest)@.len() == old(dest)@.len(),
{
    getrandom::fill(dest.as_mut_slice()).is_ok()
}

/// `SystemTime::now`: the current time, whatever the clock says.
#[verifier::external_body]
fn system_now() -> SystemTime {
    SystemTime::now()
}

/// `SystemTime::duration_since(UNIX_EPOCH)`: the time since the epoch; none
/// for a time before it.
#[verifier::external_body]
fn since_epoch(t: &SystemTime) -> Option<Duration> {
    t.duration_since(std::time::UNIX_EPOCH).ok()
}

/// `Duration::as_nanos`: the whole duration in nanoseconds.
#[verifier::external_body]
fn duration_nanos(d: &Duration) -> u128 {
    d.as_nanos()
}

/// `<Arc as Clone>::clone`: another pointer to the same allocation.
#[verifier::external_body]
fn share_flag(flag: &Arc<AtomicBool>) -> (r: Arc<AtomicBool>)
    ensures
        r == *flag,
{
    flag.clone()
}

/// Some 16 bytes, written as 32 lowercase hexadecimal digits.
pub open spec fn is_token(t: Seq<char>) -> bool {
    exists|b: Seq<u8>| b.len() == 16 && t == hex_of(b)
}

fn zero_bytes() -> (v: Vec<u8>)
    ensures
        v@.len() == 16,
{
    let mut v: Vec<u8> = Vec::new();
    let mut i: usize = 0;
    while i < 16
        invariant
            i <= 16,
            v@.len() == i,
        decreases 16 - i,
    {
        v.push(0);
        i = i + 1;
    }
    v
}

/// Sixteen random bytes in hexadecimal. Only when the operating system's
/// random source fails are the bytes taken from the clock (the nanoseconds
/// since the epoch, little-endian; zero for a clock before the epoch).
pub fn random_token() -> (t: String)
    ensures
        is_token(t@),
        t@.len() == 32,
{
    let mut bytes = zero_bytes();
    if !fill_random(&mut bytes) {
        let now = system_now();
        let nanos: u128 = match since_epoch(&now) {
            Some(d) => duration_nanos(&d),
            None => 0,
        };
        bytes = le_bytes_of(nanos);
        proof {
            lemma_le_bytes_len(nanos as nat, 16);
        }
    }
    let t = hex_string(&bytes);
    proof {
        lemma_hex_of_len(bytes@);
    }
    t
}

proof fn lemma_le_bytes_len(n: nat, count: nat)
    ensures
        le_bytes(n, count).len() == count,
    decreases count,
{
    if count > 0 {
        lemma_le_bytes_len(n / 256, (count - 1) as nat);
    }
}

/// The server state kept by the app: the token (new at each launch) and a
/// flag shared with the accept loop, which stops once the flag is cleared.
pub struct McpServer {
    token: String,
    running: Arc<AtomicBool>,
}

impl McpServer {
    pub closed spec fn token_view(&self) -> Seq<char> {
        self.token@
    }

    /// A stopped server with a fresh token.
    pub fn new() -> (s: Self)
        ensures
            is_token(s.token_view()),
            s.token_view().len() == 32,
    {
        McpServer { token: random_token(), running: Arc::new(AtomicBool::new(false)) }
    }

    pub fn token(&self) -> (t: &str)
        ensures
            t@ == self.token_view(),
    {
        self.token.as_str()
    }

    /// Whether the accept loop is meant to run; another thread may change it.
    pub fn is_running(&self) -> bool {
        self.running.load(Ordering::SeqCst)
    }

    /// Marks the server as running; true if it already was (then there is
    /// nothing to start).
    pub fn claim_start(&self) -> bool {
        self.running.swap(true, Ordering::SeqCst)
    }

    /// The server's own running flag (as a spec value).
    pub closed spec fn flag(&self) -> Arc<AtomicBool> {
        self.running
    }

    /// The flag the accept loop watches, equal to the server's own flag.
    pub fn running_flag(&self) -> (f: Arc<AtomicBool>)
        ensures
            f == self.flag(),
    {
        share_flag(&self.running)
    }

    /// Asks the accept loop to stop; it notices within its poll interval and
    /// frees the port.
    pub fn stop(&self) {
        self.running.store(false, Ordering::SeqCst);
    }
}

impl Default for McpServer {
    fn default() -> (s: Self)
        ensures
            is_token(s.token_view()),
    {
        Self::new()
    }
}

} // verus!
