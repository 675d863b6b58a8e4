//! Opcode metadata records (mnemonic, length, cycles, flag effects), as read
//! from an opcode table, and the parsing of their fields.
use vstd::prelude::*;
use vstd::string::StringSliceAdditionalSpecFns;
use vstd::utf8::encode_utf8;
use crate::flags::FlagOps;

verus! {

/// Value of an ASCII hexadecimal digit.
pub open spec fn hex_digit(c: u8) -> Option<int> {
    if 0x30 <= c <= 0x39 {
        Some(c - 0x30)
    } else if 0x61 <= c <= 0x66 {
        Some(c - 0x61 + 10)
    } else if 0x41 <= c <= 0x46 {
        Some(c - 0x41 + 10)
    } else {
        None
    }
}

pub open spec fn all_hex(b: Seq<u8>) -> bool {
    forall|i: int| 0 <= i < b.len() ==> #[trigger] hex_digit(b[i]).is_some()
}

/// The number that the hex digits `b` spell, most significant first.
pub open spec fn hex_value(b: Seq<u8>) -> int
    decreases b.len(),
{
    if b.len() == 0 {
        0
    } else {
        hex_value(b.drop_last()) * 16 + hex_digit(b.last()).unwrap()
    }
}

/// `b` without any leading repetitions of `0x`.
pub open spec fn strip_hex_prefix(b: Seq<u8>) -> Seq<u8>
    decreases b.len(),
{
    if b.len() >= 2 && b[0] == 0x30 && b[1] == 0x78 {
        strip_hex_prefix(b.subrange(2, b.len() as int))
    } else {
        b
    }
}

/// A 16-bit hexadecimal number: leading `0x` prefixes stripped, then an optional
/// `+`, then one or more hex digits whose value fits in 16 bits.
pub open spec fn parse_hex_u16(b: Seq<u8>) -> Option<u16> {
    let t = strip_hex_prefix(b);
    let d = if t.len() > 0 && t[0] == 0x2B { t.subrange(1, t.len() as int) } else { t };
    if d.len() == 0 || !all_hex(d) || hex_value(d) > 0xFFFF {
        None
    } else {
        Some(hex_value(d) as u16)
    }
}

proof fn lemma_hex_value_grows(b: Seq<u8>, j: int)
    requires
        0 <= j <= b.len(),
        all_hex(b),
    ensures
        hex_value(b.subrange(0, j)) <= hex_value(b),
    decreases b.len(),
{
    if j < b.len() {
        let c = b.drop_last();
        assert(all_hex(c)) by {
            assert forall|i: int| 0 <= i < c.len() implies #[trigger] hex_digit(c[i]).is_some() by {
                assert(c[i] == b[i]);
            }
        }
        assert(hex_digit(b[b.len() - 1]).is_some());
        lemma_hex_value_grows(c, j);
        assert(c.subrange(0, j) =~= b.subrange(0, j));
        assert(hex_value(c) >= 0) by {
            lemma_hex_value_nonneg(c);
        }
    } else {
        assert(b.subrange(0, j) =~= b);
    }
}

proof fn lemma_hex_value_nonneg(b: Seq<u8>)
    requires
        all_hex(b),
    ensures
        hex_value(b) >= 0,
    decreases b.len(),
{
    if b.len() > 0 {
        let c = b.drop_last();
        assert(all_hex(c)) by {
            assert forall|i: int| 0 <= i < c.len() implies #[trigger] hex_digit(c[i]).is_some() by {
                assert(c[i] == b[i]);
            }
        }
        assert(hex_digit(b[b.len() - 1]).is_some());
        lemma_hex_value_nonneg(c);
    }
}

fn hex_digit_value(c: u8) -> (r: Option<u16>)
    ensures
        r.is_some() == hex_digit(c).is_some(),
        r.is_some() ==> r.unwrap() == hex_digit(c).unwrap(),
{
    if 0x30 <= c && c <= 0x39 {
        Some((c - 0x30) as u16)
    } else if 0x61 <= c && c <= 0x66 {
        Some((c - 0x61 + 10) as u16)
    } else if 0x41 <= c && c <= 0x46 {
        Some((c - 0x41 + 10) as u16)
    } else {
        None
    }
}

/// Reads a hexadecimal address such as `0x01A0`.
pub fn parse_hex_string_u16(s: &str) -> (r: Option<u16>)
    ensures
        r == parse_hex_u16(s.spec_bytes()),
{
    let b = s.as_bytes();
    let n = b.len();
    let mut i: usize = 0;
    assert(b@.subrange(0, n as int) =~= b@);
    while n >= 2 && i <= n - 2 && b[i] == 0x30 && b[i + 1] == 0x78
        invariant
            b@ == s.spec_bytes(),
            n == b@.len(),
            i <= n,
            strip_hex_prefix(b@) == strip_hex_prefix(b@.subrange(i as int, n as int)),
        decreases n - i,
    {
        assert(b@.subrange(i as int, n as int).subrange(2, (n - i) as int) =~= b@.subrange(
            i + 2,
            n as int,
        ));
        i = i + 2;
    }
    let ghost t = b@.subrange(i as int, n as int);
    assert(strip_hex_prefix(b@) == t);
    if i < n && b[i] == 0x2B {
        i = i + 1;
    }
    let ghost d = b@.subrange(i as int, n as int);
    assert(d == (if t.len() > 0 && t[0] == 0x2B { t.subrange(1, t.len() as int) } else { t }));
    assert(parse_hex_u16(b@) == (if d.len() == 0 || !all_hex(d) || hex_value(d) > 0xFFFF {
        None
    } else {
        Some(hex_value(d) as u16)
    }));
    if i == n {
        return None;
    }
    let start = i;
    let mut value: u16 = 0;
    while i < n
        invariant
            b@ == s.spec_bytes(),
            n == b@.len(),
            start <= i <= n,
            d == b@.subrange(start as int, n as int),
            parse_hex_u16(b@) == (if d.len() == 0 || !all_hex(d) || hex_value(d) > 0xFFFF {
                None
            } else {
                Some(hex_value(d) as u16)
            }),
            all_hex(b@.subrange(start as int, i as int)),
            value == hex_value(b@.subrange(start as int, i as int)),
        decreases n - i,
    {
        let ghost prefix = b@.subrange(start as int, i as int);
        let ghost next = b@.subrange(start as int, i + 1);
        assert(next.drop_last() =~= prefix);
        match hex_digit_value(b[i]) {
            None => {
                assert(!all_hex(d)) by {
                    assert(d[i - start] == b@[i as int]);
                }
                return None;
            },
            Some(digit) => {
                assert(all_hex(next)) by {
                    assert forall|k: int| 0 <= k < next.len() implies #[trigger] hex_digit(
                        next[k],
                    ).is_some() by {
                        if k < prefix.len() {
                            assert(next[k] == prefix[k]);
                        }
                    }
                }
                if value > 0x0FFF || value * 16 + digit > 0xFFFF {
                    proof {
                        if all_hex(d) {
                            assert(d.subrange(0, i + 1 - start) =~= next);
                            lemma_hex_value_grows(d, i + 1 - start);
                        }
                    }
                    return None;
                }
                value = value * 16 + digit;
                i = i + 1;
            },
        }
    }
    assert(b@.subrange(start as int, n as int) == d);
    Some(value)
}

/// One opcode record as the table lists it.
#[derive(Debug)]
pub struct OpCodeRaw {
    pub mnemonic: String,
    pub length: u8,
    pub cycles: Vec<u8>,
    pub flags: [FlagOps; 4],
    pub addr: String,
    pub group: String,
    pub operand1: Option<String>,
    pub operand2: Option<String>,
}

/// One opcode record with its address parsed and its cycle counts split into
/// the taken and untaken counts.
#[derive(Debug)]
pub struct OpCode {
    pub prefixed: bool,
    pub mnemonic: String,
    pub length: u8,
    pub cycles: (Option<u8>, Option<u8>),
    pub flags: [FlagOps; 4],
    pub addr: u16,
    pub group: String,
    pub operand1: Option<String>,
    pub operand2: Option<String>,
}

pub open spec fn nth_cycle(cycles: Seq<u8>, i: int) -> Option<u8> {
    if i < cycles.len() {
        Some(cycles[i])
    } else {
        None
    }
}

impl OpCode {
    /// The record for `raw`, from the CB table when `prefixed`; `None` when its
    /// address is not a 16-bit hex number.
    pub fn from_raw(raw: OpCodeRaw, prefixed: bool) -> (r: Option<OpCode>)
        ensures
            r.is_some() == parse_hex_u16(encode_utf8(raw.addr@)).is_some(),
            r.is_some() ==> {
                let op = r.unwrap();
                &&& op.prefixed == prefixed
                &&& op.mnemonic@ == raw.mnemonic@
                &&& op.length == raw.length
                &&& op.cycles == (nth_cycle(raw.cycles@, 0), nth_cycle(raw.cycles@, 1))
                &&& op.flags@ == raw.flags@
                &&& op.addr == parse_hex_u16(encode_utf8(raw.addr@)).unwrap()
                &&& op.group@ == raw.group@
                &&& op.operand1 == raw.operand1
                &&& op.operand2 == raw.operand2
            },
    {
        let addr = match parse_hex_string_u16(raw.addr.as_str()) {
            Some(a) => a,
            None => return None,
        };
        let first = if raw.cycles.len() > 0 { Some(raw.cycles[0]) } else { None };
        let second = if raw.cycles.len() > 1 { Some(raw.cycles[1]) } else { None };
        Some(
            OpCode {
                prefixed,
                mnemonic: raw.mnemonic,
                length: raw.length,
                cycles: (first, second),
                flags: raw.flags,
                addr,
                group: raw.group,
                operand1: raw.operand1,
                operand2: raw.operand2,
            },
        )
    }
}

} // verus!
