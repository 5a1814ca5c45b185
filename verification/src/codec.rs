//! The wire codec: self-describing JSON frames with a `"type"` discriminant.
//!
//! `encode_*` renders a message in one canonical form; `decode_*` accepts
//! exactly that form and refuses everything else with a [`DecodeError`],
//! so the two are mutually inverse.  A malformed or unrecognized frame is
//! an error value, never a panic: the caller discards the single frame and
//! the connection stays open.

use vstd::prelude::*;

use crate::error::DecodeError;
use crate::numfmt::{
    dec_digits, is_dec_digit, lemma_dec_digits_canonical, lemma_digit_run_end_bounds,
    lemma_parse_tenths_at, lemma_parse_tenths_sound, lemma_parse_u64_at, lemma_parse_u64_sound,
    parse_tenths, parse_u64, push_dec_chars, push_tenths_chars, spec_parse_tenths, spec_parse_u64,
    tenths_digits,
};
use crate::textenc::{
    escape_chars, expect_lit, lemma_concat_at, lemma_concat_of_subranges,
    lemma_parse_str_body_complete, lemma_parse_str_body_sound, parse_str_body, push_escaped_chars,
    spec_match_lit, spec_parse_str_body,
};
use crate::types::{
    AgentMessage, AgentMessageV, AppEvent, AppEventV, ClientMessage, SystemInfo, SystemInfoV,
    SystemMetrics,
};

verus! {

/// Relies on `Iterator::collect` for `String`: the collected string holds
/// exactly the characters of the vector, in order.
#[verifier::external_body]
pub fn chars_to_string(v: &Vec<char>) -> (r: String)
    ensures
        r@ == v@,
{
    v.iter().collect()
}

/// The characters of `s`, as a vector.
pub fn str_chars(s: &str) -> (v: Vec<char>)
    ensures
        v@ == s@,
{
    let n = s.unicode_len();
    let mut v: Vec<char> = Vec::new();
    let mut k: usize = 0;
    while k < n
        invariant
            k <= n,
            n == s@.len(),
            v@ == s@.subrange(0, k as int),
        decreases n - k,
    {
        v.push(s.get_char(k));
        proof {
            assert(s@.subrange(0, k + 1) =~= s@.subrange(0, k as int).push(s@[k as int]));
        }
        k = k + 1;
    }
    proof {
        assert(s@.subrange(0, s@.len() as int) =~= s@);
    }
    v
}

/// Appends the characters of the literal `lit` to `out`.
pub fn push_lit(out: &mut Vec<char>, lit: &str)
    ensures
        final(out)@ == old(out)@ + lit@,
{
    let n = lit.unicode_len();
    let mut k: usize = 0;
    while k < n
        invariant
            k <= n,
            n == lit@.len(),
            out@ == old(out)@ + lit@.subrange(0, k as int),
        decreases n - k,
    {
        out.push(lit.get_char(k));
        proof {
            assert(lit@.subrange(0, k + 1) =~= lit@.subrange(0, k as int).push(lit@[k as int]));
            assert(out@ =~= old(out)@ + lit@.subrange(0, k + 1));
        }
        k = k + 1;
    }
    proof {
        assert(lit@.subrange(0, lit@.len() as int) =~= lit@);
    }
}

/// Whether the whole input equals the literal `lit`.
fn eq_lit(v: &Vec<char>, lit: &str) -> (r: bool)
    ensures
        r == (v@ == lit@),
{
    match expect_lit(v, 0, lit) {
        Some(j) => {
            proof {
                if j == v@.len() {
                    assert(v@.subrange(0, v@.len() as int) =~= v@);
                }
                if v@ == lit@ {
                    assert(j == v@.len());
                }
            }
            j == v.len()
        },
        None => {
            proof {
                if v@ == lit@ {
                    assert(v@.subrange(0, lit@.len() as int) =~= lit@);
                }
            }
            false
        },
    }
}

/// Whether a string equals the literal `lit`.
pub fn str_eq_lit(s: &str, lit: &str) -> (r: bool)
    ensures
        r == (s@ == lit@),
{
    let v = str_chars(s);
    eq_lit(&v, lit)
}

/// The canonical decimal rendering of `n`, as a string.
pub fn u64_to_string(n: u64) -> (r: String)
    ensures
        r@ == dec_digits(n as nat),
{
    let mut out: Vec<char> = Vec::new();
    push_dec_chars(n, &mut out);
    chars_to_string(&out)
}

/// A quoted string payload: the escaped body and its closing quote.
pub open spec fn quoted(sv: Seq<char>) -> Seq<char> {
    escape_chars(sv) + seq!['"']
}

/// A fixed literal followed by a tenths number.
pub open spec fn spec_parse_lit_tenths(s: Seq<char>, i: int, lit: Seq<char>) -> Option<(u64, int)> {
    if spec_match_lit(s, i, lit) {
        spec_parse_tenths(s, i + lit.len())
    } else {
        None
    }
}

/// A fixed literal followed by a decimal integer.
pub open spec fn spec_parse_lit_u64(s: Seq<char>, i: int, lit: Seq<char>) -> Option<(u64, int)> {
    if spec_match_lit(s, i, lit) {
        spec_parse_u64(s, i + lit.len())
    } else {
        None
    }
}

/// A fixed literal (ending in an opening quote) followed by a quoted
/// string body.
pub open spec fn spec_parse_lit_str(s: Seq<char>, i: int, lit: Seq<char>) -> Option<
    (Seq<char>, int),
> {
    if spec_match_lit(s, i, lit) {
        spec_parse_str_body(s, i + lit.len())
    } else {
        None
    }
}

fn parse_lit_tenths(v: &Vec<char>, i: usize, lit: &str) -> (r: Option<(u64, usize)>)
    requires
        i <= v@.len(),
    ensures
        match spec_parse_lit_tenths(v@, i as int, lit@) {
            Some((n, j)) => r matches Some(p) && p.0 == n && p.1 as int == j && i <= p.1 && p.1
                <= v@.len(),
            None => r is None,
        },
{
    match expect_lit(v, i, lit) {
        Some(k) => {
            proof {
                lemma_digit_run_end_bounds(v@, k as int);
            }
            parse_tenths(v, k)
        },
        None => None,
    }
}

fn parse_lit_u64(v: &Vec<char>, i: usize, lit: &str) -> (r: Option<(u64, usize)>)
    requires
        i <= v@.len(),
    ensures
        match spec_parse_lit_u64(v@, i as int, lit@) {
            Some((n, j)) => r matches Some(p) && p.0 == n && p.1 as int == j && i <= p.1 && p.1
                <= v@.len(),
            None => r is None,
        },
{
    match expect_lit(v, i, lit) {
        Some(k) => {
            proof {
                lemma_digit_run_end_bounds(v@, k as int);
            }
            parse_u64(v, k)
        },
        None => None,
    }
}

fn parse_lit_str(v: &Vec<char>, i: usize, lit: &str) -> (r: Option<(Vec<char>, usize)>)
    requires
        i <= v@.len(),
    ensures
        match spec_parse_lit_str(v@, i as int, lit@) {
            Some((t, j)) => r matches Some(p) && p.0@ == t && p.1 as int == j && i <= p.1 && p.1
                <= v@.len(),
            None => r is None,
        },
{
    match expect_lit(v, i, lit) {
        Some(k) => {
            let r = parse_str_body(v, k);
            proof {
                if spec_parse_str_body(v@, k as int) is Some {
                    lemma_parse_str_body_sound(v@, k as int);
                }
            }
            r
        },
        None => None,
    }
}

/// Appends a quoted string payload: the escaped body plus closing quote.
fn push_quoted(out: &mut Vec<char>, s: &String)
    ensures
        final(out)@ == old(out)@ + quoted(s@),
{
    let chars = str_chars(s.as_str());
    push_escaped_chars(&chars, out);
    out.push('"');
    proof {
        assert(out@ =~= old(out)@ + quoted(s@));
    }
}

/// The canonical frame for a metrics snapshot.
pub open spec fn spec_encode_metrics(m: SystemMetrics) -> Seq<char> {
    ("{\"type\":\"Metrics\",\"cpu_usage\":")@ + tenths_digits(m.cpu_usage as nat) + (
    ",\"memory_usage\":")@ + tenths_digits(m.memory_usage as nat) + (",\"disk_usage\":")@
        + tenths_digits(m.disk_usage as nat) + (",\"network_in\":")@ + dec_digits(
        m.network_in as nat,
    ) + (",\"network_out\":")@ + dec_digits(m.network_out as nat) + (",\"timestamp\":")@
        + dec_digits(m.timestamp as nat) + ("}")@
}

/// The canonical frame for host facts.
pub open spec fn spec_encode_info(i: SystemInfoV) -> Seq<char> {
    ("{\"type\":\"HostInfo\",\"hostname\":\"")@ + quoted(i.hostname) + (",\"os_name\":\"")@
        + quoted(i.os_name) + (",\"os_version\":\"")@ + quoted(i.os_version) + (
    ",\"kernel_version\":\"")@ + quoted(i.kernel_version) + (",\"total_memory\":")@ + dec_digits(
        i.total_memory as nat,
    ) + (",\"cpu_count\":")@ + dec_digits(i.cpu_count as nat) + (",\"uptime\":")@ + dec_digits(
        i.uptime as nat,
    ) + ("}")@
}

/// The canonical frame for an agent message.
pub open spec fn spec_encode_agent(m: AgentMessageV) -> Seq<char> {
    match m {
        AgentMessageV::SystemMetrics(s) => spec_encode_metrics(s),
        AgentMessageV::SystemInfo(i) => spec_encode_info(i),
        AgentMessageV::Heartbeat => ("{\"type\":\"Heartbeat\"}")@,
    }
}

/// The metrics snapshot denoted by a frame, if any.  A utilization above
/// one hundred percent is refused.
pub open spec fn spec_decode_metrics(s: Seq<char>) -> Option<SystemMetrics> {
    match spec_parse_lit_tenths(s, 0, ("{\"type\":\"Metrics\",\"cpu_usage\":")@) {
        None => None,
        Some((cpu, i1)) => match spec_parse_lit_tenths(s, i1, (",\"memory_usage\":")@) {
            None => None,
            Some((mem, i2)) => match spec_parse_lit_tenths(s, i2, (",\"disk_usage\":")@) {
                None => None,
                Some((disk, i3)) => match spec_parse_lit_u64(s, i3, (",\"network_in\":")@) {
                    None => None,
                    Some((ni, i4)) => match spec_parse_lit_u64(s, i4, (",\"network_out\":")@) {
                        None => None,
                        Some((no, i5)) => match spec_parse_lit_u64(s, i5, (",\"timestamp\":")@) {
                            None => None,
                            Some((ts, i6)) => {
                                if cpu <= 1000 && mem <= 1000 && disk <= 1000 && i6 + 1 == s.len()
                                    && s[i6] == '}' {
                                    Some(
                                        SystemMetrics {
                                            cpu_usage: cpu as u32,
                                            memory_usage: mem as u32,
                                            disk_usage: disk as u32,
                                            network_in: ni,
                                            network_out: no,
                                            timestamp: ts,
                                        },
                                    )
                                } else {
                                    None
                                }
                            },
                        },
                    },
                },
            },
        },
    }
}

/// The host facts denoted by a frame, if any.
pub open spec fn spec_decode_info(s: Seq<char>) -> Option<SystemInfoV> {
    match spec_parse_lit_str(s, 0, ("{\"type\":\"HostInfo\",\"hostname\":\"")@) {
        None => None,
        Some((hn, i1)) => match spec_parse_lit_str(s, i1, (",\"os_name\":\"")@) {
            None => None,
            Some((osn, i2)) => match spec_parse_lit_str(s, i2, (",\"os_version\":\"")@) {
                None => None,
                Some((osv, i3)) => match spec_parse_lit_str(s, i3, (",\"kernel_version\":\"")@) {
                    None => None,
                    Some((kv, i4)) => match spec_parse_lit_u64(s, i4, (",\"total_memory\":")@) {
                        None => None,
                        Some((tm, i5)) => match spec_parse_lit_u64(s, i5, (",\"cpu_count\":")@) {
                            None => None,
                            Some((cc, i6)) => match spec_parse_lit_u64(s, i6, (",\"uptime\":")@) {
                                None => None,
                                Some((up, i7)) => {
                                    if cc <= u32::MAX && i7 + 1 == s.len() && s[i7] == '}' {
                                        Some(
                                            SystemInfoV {
                                                hostname: hn,
                                                os_name: osn,
                                                os_version: osv,
                                                kernel_version: kv,
                                                total_memory: tm,
                                                cpu_count: cc as u32,
                                                uptime: up,
                                            },
                                        )
                                    } else {
                                        None
                                    }
                                },
                            },
                        },
                    },
                },
            },
        },
    }
}

/// The agent message denoted by a frame, if it is recognized.
pub open spec fn spec_decode_agent(s: Seq<char>) -> Option<AgentMessageV> {
    if s == ("{\"type\":\"Heartbeat\"}")@ {
        Some(AgentMessageV::Heartbeat)
    } else {
        match spec_decode_metrics(s) {
            Some(m) => Some(AgentMessageV::SystemMetrics(m)),
            None => match spec_decode_info(s) {
                Some(i) => Some(AgentMessageV::SystemInfo(i)),
                None => None,
            },
        }
    }
}

/// Renders an agent message in its canonical wire form.
pub fn encode_agent_message(m: &AgentMessage) -> (r: String)
    ensures
        r@ == spec_encode_agent(m@),
{
    let mut out: Vec<char> = Vec::new();
    match m {
        AgentMessage::SystemMetrics(s) => {
            push_lit(&mut out, "{\"type\":\"Metrics\",\"cpu_usage\":");
            push_tenths_chars(s.cpu_usage, &mut out);
            push_lit(&mut out, ",\"memory_usage\":");
            push_tenths_chars(s.memory_usage, &mut out);
            push_lit(&mut out, ",\"disk_usage\":");
            push_tenths_chars(s.disk_usage, &mut out);
            push_lit(&mut out, ",\"network_in\":");
            push_dec_chars(s.network_in, &mut out);
            push_lit(&mut out, ",\"network_out\":");
            push_dec_chars(s.network_out, &mut out);
            push_lit(&mut out, ",\"timestamp\":");
            push_dec_chars(s.timestamp, &mut out);
            push_lit(&mut out, "}");
            proof {
                assert(out@ =~= spec_encode_metrics(*s));
            }
        },
        AgentMessage::SystemInfo(i) => {
            push_lit(&mut out, "{\"type\":\"HostInfo\",\"hostname\":\"");
            push_quoted(&mut out, &i.hostname);
            push_lit(&mut out, ",\"os_name\":\"");
            push_quoted(&mut out, &i.os_name);
            push_lit(&mut out, ",\"os_version\":\"");
            push_quoted(&mut out, &i.os_version);
            push_lit(&mut out, ",\"kernel_version\":\"");
            push_quoted(&mut out, &i.kernel_version);
            push_lit(&mut out, ",\"total_memory\":");
            push_dec_chars(i.total_memory, &mut out);
            push_lit(&mut out, ",\"cpu_count\":");
            push_dec_chars(i.cpu_count as u64, &mut out);
            push_lit(&mut out, ",\"uptime\":");
            push_dec_chars(i.uptime, &mut out);
            push_lit(&mut out, "}");
            proof {
                assert(out@ =~= spec_encode_info(i@));
            }
        },
        AgentMessage::Heartbeat => {
            push_lit(&mut out, "{\"type\":\"Heartbeat\"}");
        },
    }
    chars_to_string(&out)
}

/// Decodes an agent message, refusing any frame that is not the canonical
/// rendering of one.
pub fn decode_agent_message(s: &str) -> (r: Result<AgentMessage, DecodeError>)
    ensures
        match spec_decode_agent(s@) {
            Some(mv) => r matches Ok(m) && m@ == mv,
            None => r == Err::<AgentMessage, DecodeError>(DecodeError::Unrecognized),
        },
{
    let v = str_chars(s);
    if eq_lit(&v, "{\"type\":\"Heartbeat\"}") {
        return Ok(AgentMessage::Heartbeat);
    }
    match decode_metrics_fields(&v) {
        Some(m) => Ok(AgentMessage::SystemMetrics(m)),
        None => match decode_info_fields(&v) {
            Some(i) => Ok(AgentMessage::SystemInfo(i)),
            None => Err(DecodeError::Unrecognized),
        },
    }
}

#[verifier::rlimit(80)]
fn decode_metrics_fields(v: &Vec<char>) -> (r: Option<SystemMetrics>)
    ensures
        match spec_decode_metrics(v@) {
            Some(m) => r == Some(m),
            None => r is None,
        },
{
    let (cpu, i1) = match parse_lit_tenths(v, 0, "{\"type\":\"Metrics\",\"cpu_usage\":") {
        Some(p) => p,
        None => {
            return None;
        },
    };
    let (mem, i2) = match parse_lit_tenths(v, i1, ",\"memory_usage\":") {
        Some(p) => p,
        None => {
            return None;
        },
    };
    let (disk, i3) = match parse_lit_tenths(v, i2, ",\"disk_usage\":") {
        Some(p) => p,
        None => {
            return None;
        },
    };
    let (ni, i4) = match parse_lit_u64(v, i3, ",\"network_in\":") {
        Some(p) => p,
        None => {
            return None;
        },
    };
    let (no, i5) = match parse_lit_u64(v, i4, ",\"network_out\":") {
        Some(p) => p,
        None => {
            return None;
        },
    };
    let (ts, i6) = match parse_lit_u64(v, i5, ",\"timestamp\":") {
        Some(p) => p,
        None => {
            return None;
        },
    };
    if cpu <= 1000 && mem <= 1000 && disk <= 1000 && v.len() - i6 == 1 && v[i6] == '}' {
        Some(
            SystemMetrics {
                cpu_usage: cpu as u32,
                memory_usage: mem as u32,
                disk_usage: disk as u32,
                network_in: ni,
                network_out: no,
                timestamp: ts,
            },
        )
    } else {
        None
    }
}

#[verifier::rlimit(80)]
fn decode_info_fields(v: &Vec<char>) -> (r: Option<SystemInfo>)
    ensures
        match spec_decode_info(v@) {
            Some(iv) => r matches Some(i) && i@ == iv,
            None => r is None,
        },
{
    let (hn, i1) = match parse_lit_str(v, 0, "{\"type\":\"HostInfo\",\"hostname\":\"") {
        Some(p) => p,
        None => {
            return None;
        },
    };
    let (osn, i2) = match parse_lit_str(v, i1, ",\"os_name\":\"") {
        Some(p) => p,
        None => {
            return None;
        },
    };
    let (osv, i3) = match parse_lit_str(v, i2, ",\"os_version\":\"") {
        Some(p) => p,
        None => {
            return None;
        },
    };
    let (kv, i4) = match parse_lit_str(v, i3, ",\"kernel_version\":\"") {
        Some(p) => p,
        None => {
            return None;
        },
    };
    let (tm, i5) = match parse_lit_u64(v, i4, ",\"total_memory\":") {
        Some(p) => p,
        None => {
            return None;
        },
    };
    let (cc, i6) = match parse_lit_u64(v, i5, ",\"cpu_count\":") {
        Some(p) => p,
        None => {
            return None;
        },
    };
    let (up, i7) = match parse_lit_u64(v, i6, ",\"uptime\":") {
        Some(p) => p,
        None => {
            return None;
        },
    };
    if cc <= u32::MAX as u64 && v.len() - i7 == 1 && v[i7] == '}' {
        Some(
            SystemInfo {
                hostname: chars_to_string(&hn),
                os_name: chars_to_string(&osn),
                os_version: chars_to_string(&osv),
                kernel_version: chars_to_string(&kv),
                total_memory: tm,
                cpu_count: cc as u32,
                uptime: up,
            },
        )
    } else {
        None
    }
}

/// The canonical frame for an operational event.
pub open spec fn spec_encode_event(e: AppEventV) -> Seq<char> {
    match e {
        AppEventV::InstallDocker(id) => (
        "{\"type\":\"InstallDocker\",\"identifier\":\"")@ + quoted(id) + ("}")@,
    }
}

/// The operational event denoted by a frame, if it is recognized.
pub open spec fn spec_decode_event(s: Seq<char>) -> Option<AppEventV> {
    match spec_parse_lit_str(s, 0, ("{\"type\":\"InstallDocker\",\"identifier\":\"")@) {
        Some((id, j)) => {
            if j + 1 == s.len() && s[j] == '}' {
                Some(AppEventV::InstallDocker(id))
            } else {
                None
            }
        },
        None => None,
    }
}

/// Renders an operational event in its canonical wire form.
pub fn encode_app_event(e: &AppEvent) -> (r: String)
    ensures
        r@ == spec_encode_event(e@),
{
    let mut out: Vec<char> = Vec::new();
    match e {
        AppEvent::InstallDocker(id) => {
            push_lit(&mut out, "{\"type\":\"InstallDocker\",\"identifier\":\"");
            push_quoted(&mut out, id);
            push_lit(&mut out, "}");
        },
    }
    chars_to_string(&out)
}

/// Decodes an operational event, refusing any frame that is not the
/// canonical rendering of one.
pub fn decode_app_event(s: &str) -> (r: Result<AppEvent, DecodeError>)
    ensures
        match spec_decode_event(s@) {
            Some(ev) => r matches Ok(e) && e@ == ev,
            None => r == Err::<AppEvent, DecodeError>(DecodeError::Unrecognized),
        },
{
    let v = str_chars(s);
    match parse_lit_str(&v, 0, "{\"type\":\"InstallDocker\",\"identifier\":\"") {
        Some((id, j)) => {
            if v.len() - j == 1 && v[j] == '}' {
                Ok(AppEvent::InstallDocker(chars_to_string(&id)))
            } else {
                Err(DecodeError::Unrecognized)
            }
        },
        None => Err(DecodeError::Unrecognized),
    }
}

/// Completeness of literal-then-tenths: at a position holding the literal,
/// the canonical tenths of `t`, and then `rest`, the parse succeeds.
proof fn lemma_parse_lit_tenths_complete(
    s: Seq<char>,
    i: int,
    lit: Seq<char>,
    t: u64,
    rest: Seq<char>,
)
    requires
        0 <= i <= s.len(),
        s.subrange(i, s.len() as int) == lit + (tenths_digits(t as nat) + rest),
        rest.len() > 0,
        !is_dec_digit(rest[0]),
        t <= u64::MAX / 10,
    ensures
        spec_parse_lit_tenths(s, i, lit) == Some(
            (t, i + lit.len() + tenths_digits(t as nat).len()),
        ),
        s.subrange(i + lit.len() + tenths_digits(t as nat).len(), s.len() as int) == rest,
{
    let td = tenths_digits(t as nat);
    assert(s.subrange(i, s.len() as int).len() == s.len() - i);
    assert((lit + (td + rest)).len() == lit.len() + td.len() + rest.len());
    assert(i + lit.len() + (td + rest).len() == s.len());
    lemma_concat_at(s, i, lit, td + rest);
    assert(spec_match_lit(s, i, lit));
    let k = i + lit.len();
    assert(k + td.len() + rest.len() == s.len());
    lemma_concat_at(s, k, td, rest);
    let j = k + td.len();
    assert(s.subrange(j, s.len() as int)[0] == s[j]);
    assert(s[j] == rest[0]);
    lemma_parse_tenths_at(s, k, t);
}

/// Completeness of literal-then-integer.
proof fn lemma_parse_lit_u64_complete(s: Seq<char>, i: int, lit: Seq<char>, n: u64, rest: Seq<char>)
    requires
        0 <= i <= s.len(),
        s.subrange(i, s.len() as int) == lit + (dec_digits(n as nat) + rest),
        rest.len() > 0,
        !is_dec_digit(rest[0]),
    ensures
        spec_parse_lit_u64(s, i, lit) == Some((n, i + lit.len() + dec_digits(n as nat).len())),
        s.subrange(i + lit.len() + dec_digits(n as nat).len(), s.len() as int) == rest,
{
    let d = dec_digits(n as nat);
    assert(s.subrange(i, s.len() as int).len() == s.len() - i);
    assert((lit + (d + rest)).len() == lit.len() + d.len() + rest.len());
    assert(i + lit.len() + (d + rest).len() == s.len());
    lemma_concat_at(s, i, lit, d + rest);
    assert(spec_match_lit(s, i, lit));
    let k = i + lit.len();
    assert(k + d.len() + rest.len() == s.len());
    lemma_concat_at(s, k, d, rest);
    let j = k + d.len();
    assert(s.subrange(j, s.len() as int)[0] == s[j]);
    assert(s[j] == rest[0]);
    lemma_parse_u64_at(s, k, n);
}

/// Completeness of literal-then-quoted-string.
proof fn lemma_parse_lit_str_complete(
    s: Seq<char>,
    i: int,
    lit: Seq<char>,
    t: Seq<char>,
    rest: Seq<char>,
)
    requires
        0 <= i <= s.len(),
        s.subrange(i, s.len() as int) == lit + (quoted(t) + rest),
    ensures
        spec_parse_lit_str(s, i, lit) == Some((t, i + lit.len() + quoted(t).len())),
        s.subrange(i + lit.len() + quoted(t).len(), s.len() as int) == rest,
{
    let q = quoted(t);
    assert(s.subrange(i, s.len() as int).len() == s.len() - i);
    assert((lit + (q + rest)).len() == lit.len() + q.len() + rest.len());
    assert(i + lit.len() + (q + rest).len() == s.len());
    lemma_concat_at(s, i, lit, q + rest);
    assert(spec_match_lit(s, i, lit));
    let k = i + lit.len();
    assert(k + q.len() + rest.len() == s.len());
    lemma_concat_at(s, k, q, rest);
    assert(q.len() == escape_chars(t).len() + 1);
    lemma_parse_str_body_complete(s, k, t);
}

/// Soundness of literal-then-tenths: a success consumed the literal and
/// the canonical tenths of its value.
proof fn lemma_parse_lit_tenths_sound(s: Seq<char>, i: int, lit: Seq<char>)
    requires
        0 <= i <= s.len(),
        spec_parse_lit_tenths(s, i, lit) is Some,
    ensures
        ({
            let (t, j) = spec_parse_lit_tenths(s, i, lit)->Some_0;
            i + lit.len() < j <= s.len() && s.subrange(i, j) == lit + tenths_digits(t as nat)
        }),
{
    let (t, j) = spec_parse_lit_tenths(s, i, lit)->Some_0;
    let k = i + lit.len();
    lemma_parse_tenths_sound(s, k, t, j);
    lemma_concat_of_subranges(s, i, k, j);
}

/// Soundness of literal-then-integer.
proof fn lemma_parse_lit_u64_sound(s: Seq<char>, i: int, lit: Seq<char>)
    requires
        0 <= i <= s.len(),
        spec_parse_lit_u64(s, i, lit) is Some,
    ensures
        ({
            let (n, j) = spec_parse_lit_u64(s, i, lit)->Some_0;
            i + lit.len() < j <= s.len() && s.subrange(i, j) == lit + dec_digits(n as nat) && (j
                == s.len() || !is_dec_digit(s[j]))
        }),
{
    let (n, j) = spec_parse_lit_u64(s, i, lit)->Some_0;
    let k = i + lit.len();
    lemma_parse_u64_sound(s, k, n, j);
    lemma_concat_of_subranges(s, i, k, j);
}

/// Soundness of literal-then-quoted-string.
proof fn lemma_parse_lit_str_sound(s: Seq<char>, i: int, lit: Seq<char>)
    requires
        0 <= i <= s.len(),
        spec_parse_lit_str(s, i, lit) is Some,
    ensures
        ({
            let (t, j) = spec_parse_lit_str(s, i, lit)->Some_0;
            i + lit.len() < j <= s.len() && s.subrange(i, j) == lit + quoted(t)
        }),
{
    let (t, j) = spec_parse_lit_str(s, i, lit)->Some_0;
    let k = i + lit.len();
    lemma_parse_str_body_sound(s, k);
    lemma_concat_of_subranges(s, i, k, j);
}

/// The metrics frame, re-associated so that each literal heads its own
/// group.
#[verifier::rlimit(100)]
proof fn lemma_metrics_encode_assoc(m: SystemMetrics)
    ensures
        spec_encode_metrics(m) == ("{\"type\":\"Metrics\",\"cpu_usage\":")@ + (tenths_digits(
            m.cpu_usage as nat,
        ) + ((",\"memory_usage\":")@ + (tenths_digits(m.memory_usage as nat) + ((",\"disk_usage\":")@
            + (tenths_digits(m.disk_usage as nat) + ((",\"network_in\":")@ + (dec_digits(
            m.network_in as nat,
        ) + ((",\"network_out\":")@ + (dec_digits(m.network_out as nat) + ((",\"timestamp\":")@ + (
        dec_digits(m.timestamp as nat) + ("}")@))))))))))),
{
    assert(spec_encode_metrics(m) =~= ("{\"type\":\"Metrics\",\"cpu_usage\":")@ + (tenths_digits(
        m.cpu_usage as nat,
    ) + ((",\"memory_usage\":")@ + (tenths_digits(m.memory_usage as nat) + ((",\"disk_usage\":")@ + (
    tenths_digits(m.disk_usage as nat) + ((",\"network_in\":")@ + (dec_digits(m.network_in as nat)
        + ((",\"network_out\":")@ + (dec_digits(m.network_out as nat) + ((",\"timestamp\":")@ + (
    dec_digits(m.timestamp as nat) + ("}")@))))))))))));
}

/// Round trip for metrics frames: every well-formed snapshot decodes back
/// from its own canonical frame.
#[verifier::rlimit(100)]
pub proof fn lemma_metrics_round_trip(m: SystemMetrics)
    requires
        crate::types::metrics_wf(m),
    ensures
        spec_decode_metrics(spec_encode_metrics(m)) == Some(m),
{
    reveal_strlit("{\"type\":\"Metrics\",\"cpu_usage\":");
    reveal_strlit(",\"memory_usage\":");
    reveal_strlit(",\"disk_usage\":");
    reveal_strlit(",\"network_in\":");
    reveal_strlit(",\"network_out\":");
    reveal_strlit(",\"timestamp\":");
    reveal_strlit("}");
    let s = spec_encode_metrics(m);
    let t1 = tenths_digits(m.cpu_usage as nat);
    let t2 = tenths_digits(m.memory_usage as nat);
    let t3 = tenths_digits(m.disk_usage as nat);
    let d4 = dec_digits(m.network_in as nat);
    let d5 = dec_digits(m.network_out as nat);
    let d6 = dec_digits(m.timestamp as nat);
    let l0 = ("{\"type\":\"Metrics\",\"cpu_usage\":")@;
    let l1 = (",\"memory_usage\":")@;
    let l2 = (",\"disk_usage\":")@;
    let l3 = (",\"network_in\":")@;
    let l4 = (",\"network_out\":")@;
    let l5 = (",\"timestamp\":")@;
    let l6 = ("}")@;
    let r5 = l5 + (d6 + l6);
    let r4 = l4 + (d5 + r5);
    let r3 = l3 + (d4 + r4);
    let r2 = l2 + (t3 + r3);
    let r1 = l1 + (t2 + r2);
    lemma_metrics_encode_assoc(m);
    assert(s == l0 + (t1 + r1));
    assert(s.subrange(0, s.len() as int) =~= s);
    lemma_parse_lit_tenths_complete(s, 0, l0, m.cpu_usage as u64, r1);
    let i1 = l0.len() + t1.len() as int;
    lemma_parse_lit_tenths_complete(s, i1, l1, m.memory_usage as u64, r2);
    let i2 = i1 + l1.len() + t2.len();
    lemma_parse_lit_tenths_complete(s, i2, l2, m.disk_usage as u64, r3);
    let i3 = i2 + l2.len() + t3.len();
    lemma_parse_lit_u64_complete(s, i3, l3, m.network_in, r4);
    let i4 = i3 + l3.len() + d4.len();
    lemma_parse_lit_u64_complete(s, i4, l4, m.network_out, r5);
    let i5 = i4 + l4.len() + d5.len();
    lemma_parse_lit_u64_complete(s, i5, l5, m.timestamp, l6);
    let i6 = i5 + l5.len() + d6.len();
    assert(s.subrange(i6, s.len() as int) == l6);
    assert(s.subrange(i6, s.len() as int)[0] == s[i6]);
    assert(s[i6] == '}');
    assert(i6 + 1 == s.len());
}

/// Exactness for metrics frames: a frame that decodes as a snapshot is
/// that snapshot's one canonical frame, and the snapshot is well formed.
#[verifier::rlimit(100)]
pub proof fn lemma_metrics_decode_exact(s: Seq<char>, m: SystemMetrics)
    requires
        spec_decode_metrics(s) == Some(m),
    ensures
        s == spec_encode_metrics(m),
        crate::types::metrics_wf(m),
{
    let l0 = ("{\"type\":\"Metrics\",\"cpu_usage\":")@;
    let l1 = (",\"memory_usage\":")@;
    let l2 = (",\"disk_usage\":")@;
    let l3 = (",\"network_in\":")@;
    let l4 = (",\"network_out\":")@;
    let l5 = (",\"timestamp\":")@;
    let l6 = ("}")@;
    let (cpu, i1) = spec_parse_lit_tenths(s, 0, l0)->Some_0;
    lemma_parse_lit_tenths_sound(s, 0, l0);
    let (mem, i2) = spec_parse_lit_tenths(s, i1, l1)->Some_0;
    lemma_parse_lit_tenths_sound(s, i1, l1);
    let (disk, i3) = spec_parse_lit_tenths(s, i2, l2)->Some_0;
    lemma_parse_lit_tenths_sound(s, i2, l2);
    let (ni, i4) = spec_parse_lit_u64(s, i3, l3)->Some_0;
    lemma_parse_lit_u64_sound(s, i3, l3);
    let (no, i5) = spec_parse_lit_u64(s, i4, l4)->Some_0;
    lemma_parse_lit_u64_sound(s, i4, l4);
    let (ts, i6) = spec_parse_lit_u64(s, i5, l5)->Some_0;
    lemma_parse_lit_u64_sound(s, i5, l5);
    assert(s.subrange(i6, s.len() as int) =~= l6) by {
        reveal_strlit("}");
        assert(s.subrange(i6, s.len() as int)[0] == s[i6]);
    }
    let p1 = l0 + tenths_digits(cpu as nat);
    let p2 = p1 + l1 + tenths_digits(mem as nat);
    let p3 = p2 + l2 + tenths_digits(disk as nat);
    let p4 = p3 + l3 + dec_digits(ni as nat);
    let p5 = p4 + l4 + dec_digits(no as nat);
    let p6 = p5 + l5 + dec_digits(ts as nat);
    lemma_concat_of_subranges(s, 0, i1, i2);
    assert(s.subrange(0, i2) =~= p2);
    lemma_concat_of_subranges(s, 0, i2, i3);
    assert(s.subrange(0, i3) =~= p3);
    lemma_concat_of_subranges(s, 0, i3, i4);
    assert(s.subrange(0, i4) =~= p4);
    lemma_concat_of_subranges(s, 0, i4, i5);
    assert(s.subrange(0, i5) =~= p5);
    lemma_concat_of_subranges(s, 0, i5, i6);
    assert(s.subrange(0, i6) =~= p6);
    lemma_concat_of_subranges(s, 0, i6, s.len() as int);
    assert(s.subrange(0, s.len() as int) =~= s);
    assert((m.cpu_usage as nat) == (cpu as nat));
    assert((m.memory_usage as nat) == (mem as nat));
    assert((m.disk_usage as nat) == (disk as nat));
    assert(s =~= p6 + l6);
    assert(spec_encode_metrics(m) =~= p6 + l6);
}

/// Round trip for host-fact frames.
#[verifier::rlimit(100)]
pub proof fn lemma_info_round_trip(i: SystemInfoV)
    ensures
        spec_decode_info(spec_encode_info(i)) == Some(i),
{
    reveal_strlit("{\"type\":\"HostInfo\",\"hostname\":\"");
    reveal_strlit(",\"os_name\":\"");
    reveal_strlit(",\"os_version\":\"");
    reveal_strlit(",\"kernel_version\":\"");
    reveal_strlit(",\"total_memory\":");
    reveal_strlit(",\"cpu_count\":");
    reveal_strlit(",\"uptime\":");
    reveal_strlit("}");
    let s = spec_encode_info(i);
    let q1 = quoted(i.hostname);
    let q2 = quoted(i.os_name);
    let q3 = quoted(i.os_version);
    let q4 = quoted(i.kernel_version);
    let d5 = dec_digits(i.total_memory as nat);
    let d6 = dec_digits(i.cpu_count as nat);
    let d7 = dec_digits(i.uptime as nat);
    let l0 = ("{\"type\":\"HostInfo\",\"hostname\":\"")@;
    let l1 = (",\"os_name\":\"")@;
    let l2 = (",\"os_version\":\"")@;
    let l3 = (",\"kernel_version\":\"")@;
    let l4 = (",\"total_memory\":")@;
    let l5 = (",\"cpu_count\":")@;
    let l6 = (",\"uptime\":")@;
    let l7 = ("}")@;
    let r6 = l6 + (d7 + l7);
    let r5 = l5 + (d6 + r6);
    let r4 = l4 + (d5 + r5);
    let r3 = l3 + (q4 + r4);
    let r2 = l2 + (q3 + r3);
    let r1 = l1 + (q2 + r2);
    assert(s.subrange(0, s.len() as int) =~= l0 + (q1 + r1));
    lemma_parse_lit_str_complete(s, 0, l0, i.hostname, r1);
    let i1 = l0.len() + q1.len() as int;
    lemma_parse_lit_str_complete(s, i1, l1, i.os_name, r2);
    let i2 = i1 + l1.len() + q2.len();
    lemma_parse_lit_str_complete(s, i2, l2, i.os_version, r3);
    let i3 = i2 + l2.len() + q3.len();
    lemma_parse_lit_str_complete(s, i3, l3, i.kernel_version, r4);
    let i4 = i3 + l3.len() + q4.len();
    lemma_parse_lit_u64_complete(s, i4, l4, i.total_memory, r5);
    let i5 = i4 + l4.len() + d5.len();
    lemma_parse_lit_u64_complete(s, i5, l5, i.cpu_count as u64, r6);
    let i6 = i5 + l5.len() + d6.len();
    lemma_parse_lit_u64_complete(s, i6, l6, i.uptime, l7);
    let i7 = i6 + l6.len() + d7.len();
    assert(s.subrange(i7, s.len() as int) == l7);
    assert(s.subrange(i7, s.len() as int)[0] == s[i7]);
    assert(s[i7] == '}');
    assert(i7 + 1 == s.len());
}

/// Exactness for host-fact frames.
#[verifier::rlimit(100)]
pub proof fn lemma_info_decode_exact(s: Seq<char>, i: SystemInfoV)
    requires
        spec_decode_info(s) == Some(i),
    ensures
        s == spec_encode_info(i),
{
    let l0 = ("{\"type\":\"HostInfo\",\"hostname\":\"")@;
    let l1 = (",\"os_name\":\"")@;
    let l2 = (",\"os_version\":\"")@;
    let l3 = (",\"kernel_version\":\"")@;
    let l4 = (",\"total_memory\":")@;
    let l5 = (",\"cpu_count\":")@;
    let l6 = (",\"uptime\":")@;
    let l7 = ("}")@;
    let (hn, i1) = spec_parse_lit_str(s, 0, l0)->Some_0;
    lemma_parse_lit_str_sound(s, 0, l0);
    let (osn, i2) = spec_parse_lit_str(s, i1, l1)->Some_0;
    lemma_parse_lit_str_sound(s, i1, l1);
    let (osv, i3) = spec_parse_lit_str(s, i2, l2)->Some_0;
    lemma_parse_lit_str_sound(s, i2, l2);
    let (kv, i4) = spec_parse_lit_str(s, i3, l3)->Some_0;
    lemma_parse_lit_str_sound(s, i3, l3);
    let (tm, i5) = spec_parse_lit_u64(s, i4, l4)->Some_0;
    lemma_parse_lit_u64_sound(s, i4, l4);
    let (cc, i6) = spec_parse_lit_u64(s, i5, l5)->Some_0;
    lemma_parse_lit_u64_sound(s, i5, l5);
    let (up, i7) = spec_parse_lit_u64(s, i6, l6)->Some_0;
    lemma_parse_lit_u64_sound(s, i6, l6);
    assert(s.subrange(i7, s.len() as int) =~= l7) by {
        reveal_strlit("}");
        assert(s.subrange(i7, s.len() as int)[0] == s[i7]);
    }
    let p1 = l0 + quoted(hn);
    let p2 = p1 + l1 + quoted(osn);
    let p3 = p2 + l2 + quoted(osv);
    let p4 = p3 + l3 + quoted(kv);
    let p5 = p4 + l4 + dec_digits(tm as nat);
    let p6 = p5 + l5 + dec_digits(cc as nat);
    let p7 = p6 + l6 + dec_digits(up as nat);
    lemma_concat_of_subranges(s, 0, i1, i2);
    assert(s.subrange(0, i2) =~= p2);
    lemma_concat_of_subranges(s, 0, i2, i3);
    assert(s.subrange(0, i3) =~= p3);
    lemma_concat_of_subranges(s, 0, i3, i4);
    assert(s.subrange(0, i4) =~= p4);
    lemma_concat_of_subranges(s, 0, i4, i5);
    assert(s.subrange(0, i5) =~= p5);
    lemma_concat_of_subranges(s, 0, i5, i6);
    assert(s.subrange(0, i6) =~= p6);
    lemma_concat_of_subranges(s, 0, i6, i7);
    assert(s.subrange(0, i7) =~= p7);
    lemma_concat_of_subranges(s, 0, i7, s.len() as int);
    assert(s.subrange(0, s.len() as int) =~= s);
    assert((i.cpu_count as nat) == (cc as nat));
    assert(s =~= p7 + l7);
    assert(spec_encode_info(i) =~= p7 + l7);
}

/// Round trip for agent frames: every valid agent message decodes back
/// from its own canonical frame.
pub proof fn lemma_agent_round_trip(m: AgentMessageV)
    requires
        crate::types::agent_message_wf(m),
    ensures
        spec_decode_agent(spec_encode_agent(m)) == Some(m),
{
    reveal_strlit("{\"type\":\"Heartbeat\"}");
    let hb = ("{\"type\":\"Heartbeat\"}")@;
    match m {
        AgentMessageV::Heartbeat => {},
        AgentMessageV::SystemMetrics(sm) => {
            let s = spec_encode_metrics(sm);
            lemma_metrics_round_trip(sm);
            reveal_strlit("{\"type\":\"Metrics\",\"cpu_usage\":");
            assert(s.len() > hb.len());
            assert(s != hb);
        },
        AgentMessageV::SystemInfo(iv) => {
            let s = spec_encode_info(iv);
            lemma_info_round_trip(iv);
            reveal_strlit("{\"type\":\"HostInfo\",\"hostname\":\"");
            reveal_strlit("{\"type\":\"Metrics\",\"cpu_usage\":");
            let l0 = ("{\"type\":\"HostInfo\",\"hostname\":\"")@;
            assert(s.len() > hb.len());
            assert(s != hb);
            assert(s.subrange(0, l0.len() as int) =~= l0);
            let ml = ("{\"type\":\"Metrics\",\"cpu_usage\":")@;
            assert(spec_decode_metrics(s) is None) by {
                if spec_match_lit(s, 0, ml) {
                    assert(s.subrange(0, ml.len() as int)[9] == s[9]);
                    assert(s.subrange(0, l0.len() as int)[9] == s[9]);
                }
            }
        },
    }
}

/// Exactness for agent frames: a frame that decodes as an agent message is
/// that message's one canonical frame, and the message is valid.
pub proof fn lemma_agent_decode_exact(s: Seq<char>, m: AgentMessageV)
    requires
        spec_decode_agent(s) == Some(m),
    ensures
        s == spec_encode_agent(m),
        crate::types::agent_message_wf(m),
{
    if s == ("{\"type\":\"Heartbeat\"}")@ {
    } else {
        match spec_decode_metrics(s) {
            Some(sm) => {
                lemma_metrics_decode_exact(s, sm);
            },
            None => {
                let iv = spec_decode_info(s)->Some_0;
                lemma_info_decode_exact(s, iv);
            },
        }
    }
}

/// Round trip for event frames.
pub proof fn lemma_event_round_trip(e: AppEventV)
    ensures
        spec_decode_event(spec_encode_event(e)) == Some(e),
{
    reveal_strlit("{\"type\":\"InstallDocker\",\"identifier\":\"");
    reveal_strlit("}");
    let AppEventV::InstallDocker(id) = e;
    let s = spec_encode_event(e);
    let l0 = ("{\"type\":\"InstallDocker\",\"identifier\":\"")@;
    let l1 = ("}")@;
    assert(s.subrange(0, s.len() as int) =~= l0 + (quoted(id) + l1));
    lemma_parse_lit_str_complete(s, 0, l0, id, l1);
    let j = l0.len() + quoted(id).len() as int;
    assert(s.subrange(j, s.len() as int) == l1);
    assert(s.subrange(j, s.len() as int)[0] == s[j]);
    assert(s[j] == '}');
    assert(j + 1 == s.len());
}

/// Exactness for event frames.
pub proof fn lemma_event_decode_exact(s: Seq<char>, e: AppEventV)
    requires
        spec_decode_event(s) == Some(e),
    ensures
        s == spec_encode_event(e),
{
    let l0 = ("{\"type\":\"InstallDocker\",\"identifier\":\"")@;
    let (id, j) = spec_parse_lit_str(s, 0, l0)->Some_0;
    lemma_parse_lit_str_sound(s, 0, l0);
    assert(s.subrange(j, s.len() as int) =~= ("}")@) by {
        reveal_strlit("}");
        assert(s.subrange(j, s.len() as int)[0] == s[j]);
    }
    lemma_concat_of_subranges(s, 0, j, s.len() as int);
    assert(s.subrange(0, s.len() as int) =~= s);
    assert(s =~= spec_encode_event(e));
}

/// The canonical frame for a consumer command.
pub open spec fn spec_encode_client(m: ClientMessage) -> Seq<char> {
    match m {
        ClientMessage::RequestSystemInfo => ("{\"type\":\"RequestHostInfo\"}")@,
        ClientMessage::StartMonitoring { interval_secs } => (
        "{\"type\":\"StartMonitoring\",\"interval_secs\":")@ + dec_digits(interval_secs as nat) + (
        "}")@,
        ClientMessage::StopMonitoring => ("{\"type\":\"StopMonitoring\"}")@,
        ClientMessage::Heartbeat => ("{\"type\":\"Heartbeat\"}")@,
    }
}

/// The command denoted by a frame, if it is recognized.  A requested
/// monitoring period of zero is refused here: the wire constraint demands
/// a positive period.
pub open spec fn spec_decode_client(s: Seq<char>) -> Option<ClientMessage> {
    if s == ("{\"type\":\"RequestHostInfo\"}")@ {
        Some(ClientMessage::RequestSystemInfo)
    } else if s == ("{\"type\":\"StopMonitoring\"}")@ {
        Some(ClientMessage::StopMonitoring)
    } else if s == ("{\"type\":\"Heartbeat\"}")@ {
        Some(ClientMessage::Heartbeat)
    } else if spec_match_lit(s, 0, ("{\"type\":\"StartMonitoring\",\"interval_secs\":")@) {
        let i = ("{\"type\":\"StartMonitoring\",\"interval_secs\":")@.len() as int;
        match spec_parse_u64(s, i) {
            Some((n, j)) => {
                if n >= 1 && j + 1 == s.len() && s[j] == '}' {
                    Some(ClientMessage::StartMonitoring { interval_secs: n })
                } else {
                    None
                }
            },
            None => None,
        }
    } else {
        None
    }
}

/// Renders a consumer command in its canonical wire form.
pub fn encode_client_message(m: &ClientMessage) -> (r: String)
    ensures
        r@ == spec_encode_client(*m),
{
    let mut out: Vec<char> = Vec::new();
    match m {
        ClientMessage::RequestSystemInfo => {
            push_lit(&mut out, "{\"type\":\"RequestHostInfo\"}");
        },
        ClientMessage::StartMonitoring { interval_secs } => {
            push_lit(&mut out, "{\"type\":\"StartMonitoring\",\"interval_secs\":");
            push_dec_chars(*interval_secs, &mut out);
            push_lit(&mut out, "}");
        },
        ClientMessage::StopMonitoring => {
            push_lit(&mut out, "{\"type\":\"StopMonitoring\"}");
        },
        ClientMessage::Heartbeat => {
            push_lit(&mut out, "{\"type\":\"Heartbeat\"}");
        },
    }
    chars_to_string(&out)
}

/// Decodes a consumer command, refusing any frame that is not the
/// canonical rendering of one.
pub fn decode_client_message(s: &str) -> (r: Result<ClientMessage, DecodeError>)
    ensures
        match spec_decode_client(s@) {
            Some(m) => r == Ok::<ClientMessage, DecodeError>(m),
            None => r == Err::<ClientMessage, DecodeError>(DecodeError::Unrecognized),
        },
{
    let v = str_chars(s);
    if eq_lit(&v, "{\"type\":\"RequestHostInfo\"}") {
        return Ok(ClientMessage::RequestSystemInfo);
    }
    if eq_lit(&v, "{\"type\":\"StopMonitoring\"}") {
        return Ok(ClientMessage::StopMonitoring);
    }
    if eq_lit(&v, "{\"type\":\"Heartbeat\"}") {
        return Ok(ClientMessage::Heartbeat);
    }
    match expect_lit(&v, 0, "{\"type\":\"StartMonitoring\",\"interval_secs\":") {
        Some(i) => {
            proof {
                crate::numfmt::lemma_digit_run_end_bounds(v@, i as int);
            }
            match parse_u64(&v, i) {
                Some((n, j)) => {
                    if n >= 1 && v.len() - j == 1 && v[j] == '}' {
                        Ok(ClientMessage::StartMonitoring { interval_secs: n })
                    } else {
                        Err(DecodeError::Unrecognized)
                    }
                },
                None => Err(DecodeError::Unrecognized),
            }
        },
        None => Err(DecodeError::Unrecognized),
    }
}

/// Round trip: every valid consumer command decodes back from its own
/// canonical frame.
pub proof fn lemma_client_round_trip(m: ClientMessage)
    requires
        crate::types::client_message_wf(m),
    ensures
        spec_decode_client(spec_encode_client(m)) == Some(m),
{
    reveal_strlit("{\"type\":\"RequestHostInfo\"}");
    reveal_strlit("{\"type\":\"StopMonitoring\"}");
    reveal_strlit("{\"type\":\"Heartbeat\"}");
    reveal_strlit("{\"type\":\"StartMonitoring\",\"interval_secs\":");
    reveal_strlit("}");
    match m {
        ClientMessage::StartMonitoring { interval_secs } => {
            let pre = ("{\"type\":\"StartMonitoring\",\"interval_secs\":")@;
            let d = dec_digits(interval_secs as nat);
            let s = spec_encode_client(m);
            lemma_dec_digits_canonical(interval_secs as nat);
            assert(s.subrange(0, s.len() as int) =~= pre + (d + ("}")@));
            lemma_concat_at(s, 0, pre, d + ("}")@);
            assert(spec_match_lit(s, 0, pre));
            let i = pre.len() as int;
            assert(s.subrange(i, s.len() as int) == d + ("}")@);
            lemma_concat_at(s, i, d, ("}")@);
            assert(s.subrange(i + d.len(), i + d.len() + 1)[0] == s[i + d.len()]);
            assert(s[i + d.len()] == '}');
            lemma_parse_u64_at(s, i, interval_secs);
            assert(s != ("{\"type\":\"RequestHostInfo\"}")@);
            assert(s != ("{\"type\":\"StopMonitoring\"}")@);
            assert(s != ("{\"type\":\"Heartbeat\"}")@);
        },
        _ => {},
    }
}

/// Exactness: a frame that decodes as a command is that command's one
/// canonical rendering, and the command is valid.
pub proof fn lemma_client_decode_exact(s: Seq<char>, m: ClientMessage)
    requires
        spec_decode_client(s) == Some(m),
    ensures
        s == spec_encode_client(m),
        crate::types::client_message_wf(m),
{
    if s == ("{\"type\":\"RequestHostInfo\"}")@ || s == ("{\"type\":\"StopMonitoring\"}")@ || s == (
    "{\"type\":\"Heartbeat\"}")@ {
    } else {
        let pre = ("{\"type\":\"StartMonitoring\",\"interval_secs\":")@;
        let i = pre.len() as int;
        let (n, j) = spec_parse_u64(s, i)->Some_0;
        lemma_parse_u64_sound(s, i, n, j);
        lemma_concat_of_subranges(s, 0, i, s.len() as int);
        lemma_concat_of_subranges(s, i, j, s.len() as int);
        assert(s.subrange(0, s.len() as int) =~= s);
        assert(s.subrange(j, s.len() as int) =~= ("}")@) by {
            reveal_strlit("}");
            assert(s.subrange(j, s.len() as int)[0] == s[j]);
        }
        assert(s == pre + (dec_digits(n as nat) + ("}")@));
        assert(pre + (dec_digits(n as nat) + ("}")@) =~= (pre + dec_digits(n as nat)) + ("}")@);
    }
}

} // verus!
