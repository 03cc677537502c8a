//! The machine ID: which one is used, and how one is generated.
use vstd::prelude::*;
use vstd::string::*;
use vstd::utf8::encode_utf8;
use sha2::Digest;
use crate::env::{view_opt, EnvVars};
use crate::state::State;
use crate::text::{
    char_is_ascii_alnum, chars_of, hex_bytes, hex_string, is_ascii_alnum, string_of, to_string,
};

verus! {

/// SHA-256 of a byte string (32 bytes).
pub uninterp spec fn sha256_spec(data: Seq<u8>) -> Seq<u8>;

/// `sha2::Sha256::digest`.  Claimed: the result is the SHA-256 digest of
/// `data`, which depends on `data` alone, and is 32 bytes long.
#[verifier::external_body]
fn sha256_digest(data: &[u8]) -> (r: Vec<u8>)
    ensures
        r@ == sha256_spec(data@),
        r@.len() == 32,
{
    sha2::Sha256::digest(data).to_vec()
}

/// What the machine tells about itself, from which an ID is generated: its
/// host name (absent when it could not be read), its environment, and the
/// names of its operating system and architecture.
#[derive(Clone, Debug)]
pub struct HostFacts {
    pub hostname: Option<String>,
    pub env: EnvVars,
    pub os: String,
    pub arch: String,
}

/// Why no machine ID could be had.
#[derive(Clone, Copy, Debug, PartialEq, Eq)]
pub enum MachineError {
    /// An ID had to be generated and the host name could not be read.
    HostnameUnavailable,
}

/// Characters that a host name keeps; any other becomes `-`.
pub open spec fn safe_char(c: char) -> char {
    if is_ascii_alnum(c) || c == '-' || c == '_' {
        c
    } else {
        '-'
    }
}

/// `s` without the copies of `c` it starts with.
pub open spec fn strip_leading(s: Seq<char>, c: char) -> Seq<char>
    decreases s.len(),
{
    if s.len() > 0 && s[0] == c {
        strip_leading(s.drop_first(), c)
    } else {
        s
    }
}

/// `s` without the copies of `c` it ends with.
pub open spec fn strip_trailing(s: Seq<char>, c: char) -> Seq<char>
    decreases s.len(),
{
    if s.len() > 0 && s.last() == c {
        strip_trailing(s.drop_last(), c)
    } else {
        s
    }
}

/// A host name made safe for an ID: unsafe characters become `-`, dashes at
/// either end are dropped, and an empty result becomes `machine`.
pub open spec fn sanitize_spec(hostname: Seq<char>) -> Seq<char> {
    let t = strip_trailing(strip_leading(hostname.map_values(|c: char| safe_char(c)), '-'), '-');
    if t.len() == 0 {
        "machine"@
    } else {
        t
    }
}

/// The user name: `USER`, else `USERNAME`, else `unknown`.
pub open spec fn username_spec(env: EnvVars) -> Seq<char> {
    match env.lookup("USER"@) {
        Some(u) => u,
        None => match env.lookup("USERNAME"@) {
            Some(u) => u,
            None => "unknown"@,
        },
    }
}

/// The text that a generated ID hashes: `host|user|os|arch`.
pub open spec fn fingerprint_spec(hostname: Seq<char>, username: Seq<char>, os: Seq<char>, arch: Seq<char>) -> Seq<char> {
    hostname + "|"@ + username + "|"@ + os + "|"@ + arch
}

/// A generated ID: the sanitized host name, `-`, and the first four bytes of
/// the SHA-256 of the fingerprint in hex.
pub open spec fn generated_id_spec(hostname: Seq<char>, env: EnvVars, os: Seq<char>, arch: Seq<char>) -> Seq<char> {
    let fp = fingerprint_spec(hostname, username_spec(env), os, arch);
    sanitize_spec(hostname) + "-"@ + hex_bytes(sha256_spec(encode_utf8(fp)).subrange(0, 4))
}

/// The machine ID in use and the ID the state then holds: the one given on the
/// command line (which is stored), else the stored one, else a generated one
/// (which is stored); none when one must be generated without a host name.
pub open spec fn resolve_spec(cli: Option<Seq<char>>, stored: Option<Seq<char>>, host: HostFacts) -> (Result<Seq<char>, MachineError>, Option<Seq<char>>) {
    match cli {
        Some(c) => (Ok(c), Some(c)),
        None => match stored {
            Some(m) => (Ok(m), Some(m)),
            None => match host.hostname {
                Some(h) => {
                    let id = generated_id_spec(h@, host.env, host.os@, host.arch@);
                    (Ok(id), Some(id))
                },
                None => (Err(MachineError::HostnameUnavailable), None),
            },
        },
    }
}

/// `s` with its unsafe characters replaced by `-`.
fn map_safe(s: &Vec<char>) -> (r: Vec<char>)
    ensures
        r@ == s@.map_values(|c: char| safe_char(c)),
{
    let mut r: Vec<char> = Vec::new();
    let mut i: usize = 0;
    while i < s.len()
        invariant
            i <= s.len(),
            r@ == s@.subrange(0, i as int).map_values(|c: char| safe_char(c)),
        decreases s.len() - i,
    {
        let c = s[i];
        if char_is_ascii_alnum(c) || c == '-' || c == '_' {
            r.push(c);
        } else {
            r.push('-');
        }
        i += 1;
        assert(r@ =~= s@.subrange(0, i as int).map_values(|c: char| safe_char(c)));
    }
    assert(s@.subrange(0, s.len() as int) =~= s@);
    r
}

proof fn lemma_strip_leading_step(s: Seq<char>, i: int, c: char)
    requires
        0 <= i < s.len(),
        s[i] == c,
    ensures
        strip_leading(s.subrange(i, s.len() as int), c) == strip_leading(s.subrange(i + 1, s.len() as int), c),
{
    let t = s.subrange(i, s.len() as int);
    assert(t.drop_first() =~= s.subrange(i + 1, s.len() as int));
}

proof fn lemma_strip_trailing_step(s: Seq<char>, j: int, c: char)
    requires
        0 < j <= s.len(),
        s[j - 1] == c,
    ensures
        strip_trailing(s.subrange(0, j), c) == strip_trailing(s.subrange(0, j - 1), c),
{
    let t = s.subrange(0, j);
    assert(t.drop_last() =~= s.subrange(0, j - 1));
}

proof fn lemma_hex_bytes_len(bs: Seq<u8>)
    ensures
        hex_bytes(bs).len() == 2 * bs.len(),
    decreases bs.len(),
{
    if bs.len() > 0 {
        lemma_hex_bytes_len(bs.drop_last());
    }
}

/// A host name already made of ASCII letters, digits, `-` and `_`, that
/// neither starts nor ends with `-`, is kept as it is.
pub proof fn lemma_sanitize_keeps_plain_hostname(hostname: Seq<char>)
    requires
        hostname.len() > 0,
        hostname[0] != '-',
        hostname.last() != '-',
        forall|i: int| 0 <= i < hostname.len() ==> {
            let c = #[trigger] hostname[i];
            ('0' <= c && c <= '9') || ('a' <= c && c <= 'z') || ('A' <= c && c <= 'Z') || c == '-' || c == '_'
        },
    ensures
        sanitize_spec(hostname) == hostname,
{
    let m = hostname.map_values(|c: char| safe_char(c));
    assert(m =~= hostname);
    assert(strip_leading(m, '-') == m);
    assert(strip_trailing(m, '-') == m);
}

/// A host name made safe for use in an ID (see `sanitize_spec`).
pub fn sanitize_hostname(hostname: &str) -> (r: String)
    ensures
        r@ == sanitize_spec(hostname@),
        // A name of ASCII letters, digits, `-` and `_` without a dash at
        // either end comes back unchanged.
        hostname@.len() > 0 && hostname@[0] != '-' && hostname@.last() != '-'
            && (forall|i: int| 0 <= i < hostname@.len() ==> {
                let c = #[trigger] hostname@[i];
                ('0' <= c && c <= '9') || ('a' <= c && c <= 'z') || ('A' <= c && c <= 'Z') || c == '-' || c == '_'
            }) ==> r@ == hostname@,
{
    proof {
        if hostname@.len() > 0 && hostname@[0] != '-' && hostname@.last() != '-'
            && (forall|i: int| 0 <= i < hostname@.len() ==> {
                let c = #[trigger] hostname@[i];
                ('0' <= c && c <= '9') || ('a' <= c && c <= 'z') || ('A' <= c && c <= 'Z') || c == '-' || c == '_'
            }) {
            lemma_sanitize_keeps_plain_hostname(hostname@);
        }
    }
    let m = map_safe(&chars_of(hostname));
    let ghost ms = m@;
    let n: usize = m.len();
    let mut start: usize = 0;
    assert(ms.subrange(0, n as int) =~= ms);
    while start < n && m[start] == '-'
        invariant
            m@ == ms,
            n == ms.len(),
            start <= n,
            strip_leading(ms, '-') == strip_leading(ms.subrange(start as int, n as int), '-'),
        decreases n - start,
    {
        proof {
            lemma_strip_leading_step(ms, start as int, '-');
        }
        start += 1;
    }
    let ghost lead = ms.subrange(start as int, n as int);
    assert(strip_leading(ms, '-') == lead);
    let mut end: usize = n;
    assert(lead.subrange(0, (n - start) as int) =~= lead);
    while end > start && m[end - 1] == '-'
        invariant
            m@ == ms,
            n == ms.len(),
            start <= end <= n,
            lead == ms.subrange(start as int, n as int),
            strip_trailing(lead, '-') == strip_trailing(lead.subrange(0, end - start), '-'),
        decreases end - start,
    {
        proof {
            lemma_strip_trailing_step(lead, (end - start) as int, '-');
        }
        end -= 1;
    }
    let mut kept: Vec<char> = Vec::new();
    let mut k: usize = start;
    while k < end
        invariant
            m@ == ms,
            start <= k <= end <= n,
            n == ms.len(),
            kept@ == ms.subrange(start as int, k as int),
        decreases end - k,
    {
        kept.push(m[k]);
        k += 1;
        assert(kept@ =~= ms.subrange(start as int, k as int));
    }
    assert(lead.subrange(0, end - start) =~= kept@);
    assert(strip_trailing(lead, '-') == kept@);
    if kept.len() == 0 {
        to_string("machine")
    } else {
        string_of(&kept)
    }
}

/// The user name that a generated ID hashes.
fn username(env: &EnvVars) -> (r: String)
    ensures
        r@ == username_spec(*env),
{
    match env.get("USER") {
        Some(u) => u,
        None => match env.get("USERNAME") {
            Some(u) => u,
            None => to_string("unknown"),
        },
    }
}

/// An ID from a host name and the digest of the machine's fingerprint: the
/// sanitized host name, `-`, and the first four bytes of the digest in hex.
pub fn machine_id_from_digest(hostname: &str, digest: &[u8]) -> (r: String)
    requires
        digest@.len() >= 4,
    ensures
        r@ == sanitize_spec(hostname@) + "-"@ + hex_bytes(digest@.subrange(0, 4)),
{
    let mut head: Vec<u8> = Vec::new();
    let mut i: usize = 0;
    while i < 4
        invariant
            i <= 4,
            digest@.len() >= 4,
            head@ == digest@.subrange(0, i as int),
        decreases 4 - i,
    {
        head.push(digest[i]);
        i += 1;
        assert(head@ =~= digest@.subrange(0, i as int));
    }
    let suffix = hex_string(head.as_slice());
    let mut id = sanitize_hostname(hostname);
    id.append("-");
    id.append(suffix.as_str());
    id
}

/// A stable ID for this machine, derived from what it tells about itself:
/// `<sanitized-hostname>-<8 hex digits>`.
pub fn generate_machine_id(hostname: &str, env: &EnvVars, os: &str, arch: &str) -> (r: String)
    ensures
        r@ == generated_id_spec(hostname@, *env, os@, arch@),
        // A host name of ASCII letters, digits, `-` and `_` without a dash at
        // either end is the ID's beginning, followed by `-` and the hash.
        hostname@.len() > 0 && hostname@[0] != '-' && hostname@.last() != '-'
            && (forall|i: int| 0 <= i < hostname@.len() ==> {
                let c = #[trigger] hostname@[i];
                ('0' <= c && c <= '9') || ('a' <= c && c <= 'z') || ('A' <= c && c <= 'Z') || c == '-' || c == '_'
            }) ==> r@.len() == hostname@.len() + 9 && r@.subrange(0, hostname@.len() as int) == hostname@
                && r@[hostname@.len() as int] == '-',
{
    let user = username(env);
    let mut fingerprint = to_string(hostname);
    fingerprint.append("|");
    fingerprint.append(user.as_str());
    fingerprint.append("|");
    fingerprint.append(os);
    fingerprint.append("|");
    fingerprint.append(arch);
    let digest = sha256_digest(fingerprint.as_str().as_bytes());
    let id = machine_id_from_digest(hostname, digest.as_slice());
    proof {
        reveal_strlit("|");
        assert(fingerprint@ =~= fingerprint_spec(hostname@, user@, os@, arch@));
        if hostname@.len() > 0 && hostname@[0] != '-' && hostname@.last() != '-'
            && (forall|i: int| 0 <= i < hostname@.len() ==> {
                let c = #[trigger] hostname@[i];
                ('0' <= c && c <= '9') || ('a' <= c && c <= 'z') || ('A' <= c && c <= 'Z') || c == '-' || c == '_'
            }) {
            lemma_sanitize_keeps_plain_hostname(hostname@);
            reveal_strlit("-");
            lemma_hex_bytes_len(digest@.subrange(0, 4));
            assert(id@.subrange(0, hostname@.len() as int) =~= hostname@);
        }
    }
    id
}

/// The machine ID to use for this run, and the state updated to remember it
/// (see `resolve_spec`).  The checkpoint is left as it was.
pub fn resolve_machine_id(cli_machine_id: Option<&str>, state: &mut State, host: &HostFacts) -> (r: Result<String, MachineError>)
    ensures
        ({
            let (res, stored) = resolve_spec(
                match cli_machine_id { Some(c) => Some(c@), None => None },
                view_opt(old(state).machine_id),
                *host,
            );
            &&& (r matches Ok(id) ==> res == Ok::<Seq<char>, MachineError>(id@))
            &&& (r matches Err(e) ==> res == Err::<Seq<char>, MachineError>(e))
            &&& (r is Ok ==> view_opt(final(state).machine_id) == stored)
            &&& (r is Err ==> final(state).machine_id == old(state).machine_id)
        }),
        final(state).last_synced_id == old(state).last_synced_id,
        final(state).last_synced_at == old(state).last_synced_at,
{
    if let Some(machine_id) = cli_machine_id {
        state.machine_id = Some(to_string(machine_id));
        return Ok(to_string(machine_id));
    }
    if let Some(machine_id) = &state.machine_id {
        return Ok(machine_id.clone());
    }
    match &host.hostname {
        Some(h) => {
            let id = generate_machine_id(h.as_str(), &host.env, host.os.as_str(), host.arch.as_str());
            state.machine_id = Some(id.clone());
            Ok(id)
        },
        None => Err(MachineError::HostnameUnavailable),
    }
}

/// Once an ID has been resolved and stored, resolving again without a command
/// line ID gives the same ID and leaves the stored one as it is: the machine ID
/// is stable across runs.
pub proof fn lemma_machine_id_is_stable(cli: Option<Seq<char>>, stored: Option<Seq<char>>, host: HostFacts)
    requires
        resolve_spec(cli, stored, host).0 is Ok,
    ensures
        ({
            let (first, kept) = resolve_spec(cli, stored, host);
            resolve_spec(None, kept, host) == (first, kept)
        }),
{
}

/// Characters that a generated or sanitized ID may hold.
pub open spec fn is_id_char(c: char) -> bool {
    is_ascii_alnum(c) || c == '-' || c == '_'
}

/// A sanitized host name is never empty, holds only ASCII letters, digits,
/// `-` and `_`, and neither starts nor ends with `-`.
pub proof fn lemma_sanitized_hostname_is_safe(hostname: Seq<char>)
    ensures
        sanitize_spec(hostname).len() > 0,
        forall|i: int| 0 <= i < sanitize_spec(hostname).len() ==> is_id_char(#[trigger] sanitize_spec(hostname)[i]),
        sanitize_spec(hostname)[0] != '-',
        sanitize_spec(hostname).last() != '-',
{
    reveal_strlit("machine");
    let m = hostname.map_values(|c: char| safe_char(c));
    lemma_strip_leading_suffix(m, '-');
    let l = strip_leading(m, '-');
    lemma_strip_trailing_prefix(l, '-');
    let t = strip_trailing(l, '-');
    if t.len() > 0 {
        assert forall|i: int| 0 <= i < t.len() implies is_id_char(#[trigger] t[i]) by {
            let k = m.len() - l.len();
            assert(t[i] == l[i]);
            assert(l[i] == m[k + i]);
        }
        assert(t[0] == l[0]);
    } else {
        let w = "machine"@;
        assert(forall|i: int| 0 <= i < w.len() ==> is_id_char(#[trigger] w[i]));
    }
}

/// Stripping leading copies of `c` leaves a suffix of `s` that does not start with `c`.
proof fn lemma_strip_leading_suffix(s: Seq<char>, c: char)
    ensures
        strip_leading(s, c).len() <= s.len(),
        strip_leading(s, c) == s.subrange(s.len() - strip_leading(s, c).len(), s.len() as int),
        strip_leading(s, c).len() > 0 ==> strip_leading(s, c)[0] != c,
    decreases s.len(),
{
    if s.len() > 0 && s[0] == c {
        lemma_strip_leading_suffix(s.drop_first(), c);
        let r = strip_leading(s.drop_first(), c);
        assert(r =~= s.subrange(s.len() - r.len(), s.len() as int));
    } else {
        assert(s =~= s.subrange(0, s.len() as int));
    }
}

/// Stripping trailing copies of `c` leaves a prefix of `s` that does not end with `c`.
proof fn lemma_strip_trailing_prefix(s: Seq<char>, c: char)
    ensures
        strip_trailing(s, c).len() <= s.len(),
        strip_trailing(s, c) == s.subrange(0, strip_trailing(s, c).len() as int),
        strip_trailing(s, c).len() > 0 ==> strip_trailing(s, c).last() != c,
    decreases s.len(),
{
    if s.len() > 0 && s.last() == c {
        lemma_strip_trailing_prefix(s.drop_last(), c);
        let r = strip_trailing(s.drop_last(), c);
        assert(r =~= s.subrange(0, r.len() as int));
    } else {
        assert(s =~= s.subrange(0, s.len() as int));
    }
}

} // verus!
