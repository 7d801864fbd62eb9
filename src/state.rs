//! The persisted hotspot record: one line of seven `|`-separated fields,
//! `running|ssid|gateway|interface|has_password|dhcp_pid|started_at`.
use crate::ipv4::{ipv4_text, lemma_ipv4_round_trip, parse_ipv4_spec, Ipv4};
use crate::text::{
    append_decimal, decimal, decimal_value, free_of, is_digit, join_on, lemma_decimal,
    lemma_split_join, parse_u64, split_fields, split_on,
};
use vstd::prelude::*;
use vstd::string::*;

verus! {

/// The record of a hotspot that this library started.
#[derive(Debug, Clone, PartialEq, Eq)]
pub struct HotspotState {
    pub is_running: bool,
    pub ssid: String,
    pub gateway: Ipv4,
    pub interface: String,
    pub has_password: bool,
    /// The DHCP/DNS daemon's process id; never `Some(0)`.
    pub dhcp_pid: Option<u32>,
    /// Seconds since the Unix epoch.
    pub started_at: u64,
}

/// The value of a [`HotspotState`], with its strings as character sequences.
pub struct StateRecord {
    pub is_running: bool,
    pub ssid: Seq<char>,
    pub gateway: Ipv4,
    pub interface: Seq<char>,
    pub has_password: bool,
    pub dhcp_pid: Option<u32>,
    pub started_at: u64,
}

impl View for HotspotState {
    type V = StateRecord;

    open spec fn view(&self) -> StateRecord {
        StateRecord {
            is_running: self.is_running,
            ssid: self.ssid@,
            gateway: self.gateway,
            interface: self.interface@,
            has_password: self.has_password,
            dhcp_pid: self.dhcp_pid,
            started_at: self.started_at,
        }
    }
}

/// Why a line is not a hotspot record.
#[derive(Debug, Clone, Copy, PartialEq, Eq, Structural)]
pub enum StateError {
    /// The line does not have exactly seven fields.
    FieldCount,
    /// The running or password field is neither `1` nor `0`.
    BadFlag,
    /// The gateway is not a dotted-decimal IPv4 address.
    BadGateway,
    /// The process id is not a decimal number that fits in 32 bits.
    BadPid,
    /// The start time is not a decimal number that fits in 64 bits.
    BadTimestamp,
}

pub open spec fn flag_text(b: bool) -> Seq<char> {
    if b {
        seq!['1']
    } else {
        seq!['0']
    }
}

pub open spec fn flag_value(t: Seq<char>) -> Option<bool> {
    if t == seq!['1'] {
        Some(true)
    } else if t == seq!['0'] {
        Some(false)
    } else {
        None
    }
}

/// An absent process id is written as `0`.
pub open spec fn pid_text(p: Option<u32>) -> Seq<char> {
    match p {
        Some(v) => decimal(v as nat),
        None => decimal(0),
    }
}

/// `0` reads as no process id.
pub open spec fn pid_value(t: Seq<char>) -> Option<Option<u32>> {
    match decimal_value(t) {
        Some(v) => if v > u32::MAX {
            None
        } else if v == 0 {
            Some(None)
        } else {
            Some(Some(v as u32))
        },
        None => None,
    }
}

pub open spec fn timestamp_value(t: Seq<char>) -> Option<u64> {
    match decimal_value(t) {
        Some(v) => if v > u64::MAX {
            None
        } else {
            Some(v as u64)
        },
        None => None,
    }
}

pub open spec fn state_fields(r: StateRecord) -> Seq<Seq<char>> {
    seq![
        flag_text(r.is_running),
        r.ssid,
        ipv4_text(r.gateway),
        r.interface,
        flag_text(r.has_password),
        pid_text(r.dhcp_pid),
        decimal(r.started_at as nat),
    ]
}

/// The line that stores a record.
pub open spec fn encode_state(r: StateRecord) -> Seq<char> {
    join_on(state_fields(r), '|')
}

/// A record that its line stores faithfully: the strings hold no `|`, and
/// an absent process id is `None` rather than `Some(0)`.
pub open spec fn record_is_valid(r: StateRecord) -> bool {
    &&& free_of(r.ssid, '|')
    &&& free_of(r.interface, '|')
    &&& r.dhcp_pid != Some(0u32)
}

/// The record that a line stores, or the first reason it stores none.
pub open spec fn decode_state(s: Seq<char>) -> Result<StateRecord, StateError> {
    let f = split_on(s, '|');
    if f.len() != 7 {
        Err(StateError::FieldCount)
    } else if flag_value(f[0]) is None || flag_value(f[4]) is None {
        Err(StateError::BadFlag)
    } else if parse_ipv4_spec(f[2]) is None {
        Err(StateError::BadGateway)
    } else if pid_value(f[5]) is None {
        Err(StateError::BadPid)
    } else if timestamp_value(f[6]) is None {
        Err(StateError::BadTimestamp)
    } else {
        Ok(
            StateRecord {
                is_running: flag_value(f[0])->Some_0,
                ssid: f[1],
                gateway: parse_ipv4_spec(f[2])->Some_0,
                interface: f[3],
                has_password: flag_value(f[4])->Some_0,
                dhcp_pid: pid_value(f[5])->Some_0,
                started_at: timestamp_value(f[6])->Some_0,
            },
        )
    }
}

proof fn lemma_join_step(p: Seq<Seq<char>>, k: int, sep: char)
    requires
        1 <= k < p.len(),
    ensures
        join_on(p.take(k + 1), sep) == join_on(p.take(k), sep).push(sep) + p[k],
{
    assert(p.take(k + 1).drop_last() =~= p.take(k));
}

proof fn lemma_decimal_free(n: nat)
    ensures
        free_of(decimal(n), '|'),
        decimal_value(decimal(n)) == Some(n),
{
    lemma_decimal(n);
    let t = decimal(n);
    assert forall|i: int| 0 <= i < t.len() implies #[trigger] t[i] != '|' by {
        assert(is_digit(t[i]));
    }
}

/// Decoding the line of a valid record gives the record back.
pub proof fn lemma_state_round_trip(r: StateRecord)
    requires
        record_is_valid(r),
    ensures
        decode_state(encode_state(r)) == Ok::<StateRecord, StateError>(r),
{
    let f = state_fields(r);
    lemma_ipv4_round_trip(r.gateway);
    lemma_decimal_free(0);
    lemma_decimal_free(r.started_at as nat);
    match r.dhcp_pid {
        Some(v) => lemma_decimal_free(v as nat),
        None => {},
    }
    assert(flag_text(true) == seq!['1']);
    assert forall|i: int| 0 <= i < f.len() implies free_of(#[trigger] f[i], '|') by {}
    lemma_split_join(f, '|');
    assert(split_on(encode_state(r), '|') == f);
}

/// A line with other than seven fields, a process id that is not a
/// number, or a gateway that is not an address is rejected as a whole.
pub proof fn lemma_malformed_rejected(s: Seq<char>)
    ensures
        split_on(s, '|').len() != 7 ==> decode_state(s) == Err::<StateRecord, StateError>(
            StateError::FieldCount,
        ),
        split_on(s, '|').len() == 7 && decimal_value(split_on(s, '|')[5]) is None
            ==> decode_state(s) is Err,
        split_on(s, '|').len() == 7 && parse_ipv4_spec(split_on(s, '|')[2]) is None
            ==> decode_state(s) is Err,
{
}

fn parse_flag(t: &str) -> (r: Option<bool>)
    ensures
        r == flag_value(t@),
{
    if t.unicode_len() != 1 {
        return None;
    }
    let c = t.get_char(0);
    if c == '1' {
        assert(t@ =~= seq!['1']);
        Some(true)
    } else if c == '0' {
        assert(t@ =~= seq!['0']);
        Some(false)
    } else {
        assert(t@ != seq!['1']);
        assert(t@ != seq!['0']);
        None
    }
}

fn append_flag(out: &mut String, b: bool)
    ensures
        final(out)@ == old(out)@ + flag_text(b),
{
    if b {
        out.append("1");
        proof {
            reveal_strlit("1");
            assert("1"@ =~= seq!['1']);
        }
    } else {
        out.append("0");
        proof {
            reveal_strlit("0");
            assert("0"@ =~= seq!['0']);
        }
    }
}

fn append_bar(out: &mut String)
    ensures
        final(out)@ == old(out)@.push('|'),
{
    out.append("|");
    proof {
        reveal_strlit("|");
        assert(final(out)@ =~= old(out)@.push('|'));
    }
}

impl HotspotState {
    /// A copy of the record.
    pub fn clone_record(&self) -> (r: HotspotState)
        ensures
            r@ == self@,
    {
        HotspotState {
            is_running: self.is_running,
            ssid: self.ssid.clone(),
            gateway: self.gateway,
            interface: self.interface.clone(),
            has_password: self.has_password,
            dhcp_pid: self.dhcp_pid,
            started_at: self.started_at,
        }
    }

    /// The line that stores this record.
    pub fn encode(&self) -> (r: String)
        ensures
            r@ == encode_state(self@),
    {
        let ghost f = state_fields(self@);
        let mut out = String::new();
        append_flag(&mut out, self.is_running);
        assert(f.take(1) =~= seq![f[0]]);
        assert(out@ =~= join_on(f.take(1), '|'));
        append_bar(&mut out);
        out.append(self.ssid.as_str());
        proof {
            lemma_join_step(f, 1, '|');
        }
        append_bar(&mut out);
        self.gateway.append_text(&mut out);
        proof {
            lemma_join_step(f, 2, '|');
        }
        append_bar(&mut out);
        out.append(self.interface.as_str());
        proof {
            lemma_join_step(f, 3, '|');
        }
        append_bar(&mut out);
        append_flag(&mut out, self.has_password);
        proof {
            lemma_join_step(f, 4, '|');
        }
        append_bar(&mut out);
        let pid: u32 = match self.dhcp_pid {
            Some(v) => v,
            None => 0,
        };
        append_decimal(&mut out, pid as u64);
        proof {
            lemma_join_step(f, 5, '|');
        }
        append_bar(&mut out);
        append_decimal(&mut out, self.started_at);
        proof {
            lemma_join_step(f, 6, '|');
            assert(f.take(7) =~= f);
        }
        out
    }

    /// Reads the record stored in a line; a malformed line yields an error
    /// and no record.
    pub fn decode(line: &str) -> (r: Result<HotspotState, StateError>)
        ensures
            r is Ok ==> decode_state(line@) == Ok::<StateRecord, StateError>(r->Ok_0@),
            r is Err ==> decode_state(line@) == Err::<StateRecord, StateError>(r->Err_0),
    {
        let f = split_fields(line, '|');
        if f.len() != 7 {
            return Err(StateError::FieldCount);
        }
        let running = parse_flag(f[0].as_str());
        let password = parse_flag(f[4].as_str());
        let (is_running, has_password) = match (running, password) {
            (Some(a), Some(b)) => (a, b),
            _ => {
                return Err(StateError::BadFlag);
            },
        };
        let gateway = match Ipv4::parse(f[2].as_str()) {
            Some(g) => g,
            None => {
                return Err(StateError::BadGateway);
            },
        };
        let dhcp_pid = match parse_u64(f[5].as_str()) {
            Some(v) => {
                if v > u32::MAX as u64 {
                    return Err(StateError::BadPid);
                } else if v == 0 {
                    None
                } else {
                    Some(v as u32)
                }
            },
            None => {
                return Err(StateError::BadPid);
            },
        };
        let started_at = match parse_u64(f[6].as_str()) {
            Some(v) => v,
            None => {
                return Err(StateError::BadTimestamp);
            },
        };
        let st = HotspotState {
            is_running,
            ssid: f[1].clone(),
            gateway,
            interface: f[3].clone(),
            has_password,
            dhcp_pid,
            started_at,
        };
        proof {
            let fs = split_on(line@, '|');
            assert(f@[1]@ == fs[1]);
            assert(f@[3]@ == fs[3]);
        }
        Ok(st)
    }
}

} // verus!
