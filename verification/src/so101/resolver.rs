//! USB device identity: the VID/PID/serial that locate the servo bus of an arm.

use vstd::prelude::*;

verus! {

/// Config for USB device discovery, mirroring `[arm.<type>]` of the daemon config.
#[derive(Debug, Clone)]
pub struct UsbDeviceConfig {
    pub vid: u16,
    pub pid: u16,
    pub serial: Option<String>,
}

/// One device of a USB scan as port selection reads it: whether the arm's device rule
/// matched it, and the serial paths the scan reported for it.
#[derive(Debug, Clone)]
pub struct ScannedPort {
    pub matched: bool,
    pub system_path: String,
    pub system_path_alt: Option<String>,
}

/// The serial path opened for a matched device: the alternative path where the scan
/// reported one, else the system path.
pub open spec fn port_path(d: ScannedPort) -> Seq<char> {
    match d.system_path_alt {
        Some(p) => p@,
        None => d.system_path@,
    }
}

/// The serial path of the first matched device of a scan, in scan order.
pub open spec fn first_matched_path(s: Seq<ScannedPort>) -> Option<Seq<char>>
    decreases s.len(),
{
    if s.len() == 0 {
        None
    } else if s[0].matched {
        Some(port_path(s[0]))
    } else {
        first_matched_path(s.drop_first())
    }
}

/// The first matched device of a scan decides: where device `i` matched and none
/// before it did, the path picked is device `i`'s (its alternative path where the scan
/// gave one, else its system path).
pub proof fn lemma_first_match_wins(s: Seq<ScannedPort>, i: int)
    requires
        0 <= i < s.len(),
        s[i].matched,
        forall|j: int| 0 <= j < i ==> !(#[trigger] s[j]).matched,
    ensures
        first_matched_path(s) == Some(
            match s[i].system_path_alt {
                Some(p) => p@,
                None => s[i].system_path@,
            },
        ),
    decreases i,
{
    if i > 0 {
        assert(!s[0].matched);
        let t = s.drop_first();
        assert forall|j: int| 0 <= j < i - 1 implies !(#[trigger] t[j]).matched by {
            assert(t[j] == s[j + 1]);
        }
        assert(t[i - 1] == s[i]);
        lemma_first_match_wins(t, i - 1);
    }
}

/// Pick the serial port of the arm from a USB scan: the path of the first device the
/// rule matched, `None` where it matched none.
pub fn select_arm_port(devices: &Vec<ScannedPort>) -> (r: Option<String>)
    ensures
        match first_matched_path(devices@) {
            Some(p) => r matches Some(q) && q@ == p,
            None => r is None,
        },
        r is None <==> (forall|i: int| 0 <= i < devices@.len() ==> !(#[trigger] devices@[i]).matched),
        forall|i: int|
            0 <= i < devices@.len() && (#[trigger] devices@[i]).matched && (forall|j: int|
                0 <= j < i ==> !devices@[j].matched) ==> (r matches Some(q) && q@ == match devices@[i].system_path_alt {
                Some(p) => p@,
                None => devices@[i].system_path@,
            }),
{
    proof {
        assert forall|i: int|
            0 <= i < devices@.len() && (#[trigger] devices@[i]).matched && (forall|j: int|
                0 <= j < i ==> !devices@[j].matched) implies first_matched_path(devices@) == Some(
            match devices@[i].system_path_alt {
                Some(p) => p@,
                None => devices@[i].system_path@,
            },
        ) by {
            lemma_first_match_wins(devices@, i);
        }
    }
    let mut i: usize = 0;
    assert(devices@.skip(0) =~= devices@);
    while i < devices.len()
        invariant
            i <= devices.len(),
            first_matched_path(devices@) == first_matched_path(devices@.skip(i as int)),
            forall|j: int| 0 <= j < i ==> !(#[trigger] devices@[j]).matched,
        decreases devices.len() - i,
    {
        let d = &devices[i];
        proof {
            assert(devices@.skip(i as int).drop_first() =~= devices@.skip(i + 1));
            assert(devices@.skip(i as int)[0] == devices@[i as int]);
        }
        if d.matched {
            return match &d.system_path_alt {
                Some(p) => Some(p.clone()),
                None => Some(d.system_path.clone()),
            };
        }
        i = i + 1;
    }
    proof {
        assert(devices@.skip(i as int).len() == 0);
    }
    None
}

/// The lowercase hexadecimal digit of a value below sixteen.
pub open spec fn lower_hex_char(d: nat) -> char {
    if d == 0 {
        '0'
    } else if d == 1 {
        '1'
    } else if d == 2 {
        '2'
    } else if d == 3 {
        '3'
    } else if d == 4 {
        '4'
    } else if d == 5 {
        '5'
    } else if d == 6 {
        '6'
    } else if d == 7 {
        '7'
    } else if d == 8 {
        '8'
    } else if d == 9 {
        '9'
    } else if d == 10 {
        'a'
    } else if d == 11 {
        'b'
    } else if d == 12 {
        'c'
    } else if d == 13 {
        'd'
    } else if d == 14 {
        'e'
    } else {
        'f'
    }
}

/// A 16-bit id as `{:#06x}` writes it: `0x` and four lowercase hexadecimal digits.
pub open spec fn hex_id_text(v: u16) -> Seq<char> {
    "0x"@ + seq![
        lower_hex_char((v / 4096) as nat),
        lower_hex_char(((v / 256) % 16) as nat),
        lower_hex_char(((v / 16) % 16) as nat),
        lower_hex_char((v % 16) as nat),
    ]
}

/// The error text when no scanned device matches the arm's rule: the VID and PID as
/// `0x` and four hex digits, then the serial where the config names one.
pub open spec fn no_match_text(vid: u16, pid: u16, serial: Option<Seq<char>>) -> Seq<char> {
    "no matching USB device: vid="@ + hex_id_text(vid) + ", pid="@ + hex_id_text(pid) + match serial {
        Some(s) => ", serial="@ + s,
        None => Seq::<char>::empty(),
    }
}

fn lower_hex_str(d: u16) -> (s: &'static str)
    requires
        d < 16,
    ensures
        s@ == seq![lower_hex_char(d as nat)],
{
    proof {
        reveal_strlit("0");
        reveal_strlit("1");
        reveal_strlit("2");
        reveal_strlit("3");
        reveal_strlit("4");
        reveal_strlit("5");
        reveal_strlit("6");
        reveal_strlit("7");
        reveal_strlit("8");
        reveal_strlit("9");
        reveal_strlit("a");
        reveal_strlit("b");
        reveal_strlit("c");
        reveal_strlit("d");
        reveal_strlit("e");
        reveal_strlit("f");
    }
    if d == 0 {
        "0"
    } else if d == 1 {
        "1"
    } else if d == 2 {
        "2"
    } else if d == 3 {
        "3"
    } else if d == 4 {
        "4"
    } else if d == 5 {
        "5"
    } else if d == 6 {
        "6"
    } else if d == 7 {
        "7"
    } else if d == 8 {
        "8"
    } else if d == 9 {
        "9"
    } else if d == 10 {
        "a"
    } else if d == 11 {
        "b"
    } else if d == 12 {
        "c"
    } else if d == 13 {
        "d"
    } else if d == 14 {
        "e"
    } else {
        "f"
    }
}

/// Append the `{:#06x}` text of a 16-bit id.
fn push_hex_id(s: &mut String, v: u16)
    ensures
        final(s)@ == old(s)@ + hex_id_text(v),
{
    proof {
        reveal_strlit("0x");
    }
    let ghost start = s@;
    s.append("0x");
    s.append(lower_hex_str(v / 4096));
    s.append(lower_hex_str((v / 256) % 16));
    s.append(lower_hex_str((v / 16) % 16));
    s.append(lower_hex_str(v % 16));
    assert(s@ =~= start + hex_id_text(v));
}

impl UsbDeviceConfig {
    /// The error text for a scan in which no device matched this config.
    pub fn no_match_message(&self) -> (r: String)
        ensures
            r@ == no_match_text(
                self.vid,
                self.pid,
                match self.serial {
                    Some(s) => Some(s@),
                    None => None,
                },
            ),
    {
        let mut s = String::from_str("no matching USB device: vid=");
        push_hex_id(&mut s, self.vid);
        s.append(", pid=");
        push_hex_id(&mut s, self.pid);
        match &self.serial {
            Some(serial) => {
                s.append(", serial=");
                s.append(serial.as_str());
            },
            None => {},
        }
        proof {
            reveal_strlit("no matching USB device: vid=");
            reveal_strlit(", pid=");
            reveal_strlit(", serial=");
        }
        s
    }
}

/// A hex value that does not parse; `value` is the text after any `0x` prefix.
#[derive(Debug, Clone)]
pub struct InvalidHexError {
    pub value: String,
}

impl InvalidHexError {
    /// The text `Display` gives for the error: `invalid hex value: ` and the text.
    pub fn message(&self) -> (r: String)
        ensures
            r@ == "invalid hex value: "@ + self.value@,
    {
        let mut s = String::from_str("invalid hex value: ");
        s.append(self.value.as_str());
        s
    }
}

/// The value of one hexadecimal digit, either case.
pub open spec fn hex_digit_value(c: char) -> Option<nat> {
    if '0' <= c && c <= '9' {
        Some((c as nat - '0' as nat) as nat)
    } else if 'a' <= c && c <= 'f' {
        Some((c as nat - 'a' as nat + 10) as nat)
    } else if 'A' <= c && c <= 'F' {
        Some((c as nat - 'A' as nat + 10) as nat)
    } else {
        None
    }
}

/// The number a run of hexadecimal digits stands for (zero for no digits), `None` if a
/// character is not a hexadecimal digit.
pub open spec fn hex_digits_value(d: Seq<char>) -> Option<nat>
    decreases d.len(),
{
    if d.len() == 0 {
        Some(0)
    } else {
        match (hex_digits_value(d.drop_last()), hex_digit_value(d.last())) {
            (Some(v), Some(x)) => Some(v * 16 + x),
            _ => None,
        }
    }
}

/// `s` without a leading `0x`, as `str::strip_prefix("0x").unwrap_or(s)` gives.
pub open spec fn strip_hex_prefix(s: Seq<char>) -> Seq<char> {
    if s.len() >= 2 && s[0] == '0' && s[1] == 'x' {
        s.subrange(2, s.len() as int)
    } else {
        s
    }
}

/// `u16::from_str_radix(s, 16)`: an optional `+`, then one or more hexadecimal digits
/// whose value fits in 16 bits.
pub open spec fn radix16_u16(s: Seq<char>) -> Option<u16> {
    let digits = if s.len() > 0 && s[0] == '+' {
        s.drop_first()
    } else {
        s
    };
    if digits.len() == 0 {
        None
    } else {
        digits_u16(digits)
    }
}

/// The 16-bit value of a run of hexadecimal digits, if it is one and fits.
pub open spec fn digits_u16(digits: Seq<char>) -> Option<u16> {
    match hex_digits_value(digits) {
        Some(v) => if v <= 0xFFFF {
            Some(v as u16)
        } else {
            None
        },
        None => None,
    }
}

/// The value `parse_hex_u16` gives for a text.
pub open spec fn spec_parse_hex_u16(s: Seq<char>) -> Option<u16> {
    radix16_u16(strip_hex_prefix(s))
}

fn hex_digit(c: char) -> (r: Option<u32>)
    ensures
        match hex_digit_value(c) {
            Some(v) => r == Some(v as u32),
            None => r is None,
        },
{
    if '0' <= c && c <= '9' {
        Some((c as u32) - ('0' as u32))
    } else if 'a' <= c && c <= 'f' {
        Some((c as u32) - ('a' as u32) + 10)
    } else if 'A' <= c && c <= 'F' {
        Some((c as u32) - ('A' as u32) + 10)
    } else {
        None
    }
}

/// Once the digits read so far are worth more than 16 bits, no further digits bring the
/// value back.
proof fn lemma_hex_overflow_persists(d: Seq<char>, k: int)
    requires
        0 <= k <= d.len(),
        hex_digits_value(d.subrange(0, k)) matches Some(v) && v > 0xFFFF,
    ensures
        hex_digits_value(d) matches Some(w) ==> w > 0xFFFF,
    decreases d.len() - k,
{
    if k < d.len() {
        let p = d.subrange(0, k + 1);
        assert(p.drop_last() =~= d.subrange(0, k));
        assert(p.last() == d[k]);
        if hex_digit_value(d[k]) is None {
            lemma_hex_invalid_persists(d, k + 1);
        } else {
            lemma_hex_overflow_persists(d, k + 1);
        }
    } else {
        assert(d.subrange(0, k) =~= d);
    }
}

/// A digit that is not hexadecimal spoils every longer run.
proof fn lemma_hex_invalid_persists(d: Seq<char>, k: int)
    requires
        0 <= k <= d.len(),
        hex_digits_value(d.subrange(0, k)) is None,
    ensures
        hex_digits_value(d) is None,
    decreases d.len() - k,
{
    if k < d.len() {
        let p = d.subrange(0, k + 1);
        assert(p.drop_last() =~= d.subrange(0, k));
        lemma_hex_invalid_persists(d, k + 1);
    } else {
        assert(d.subrange(0, k) =~= d);
    }
}

/// Parse a hex string like `"0x0483"` or `"0483"` into `u16`. The error carries the
/// text after the `0x` prefix.
pub fn parse_hex_u16(s: &str) -> (r: Result<u16, InvalidHexError>)
    ensures
        match spec_parse_hex_u16(s@) {
            Some(v) => r == Ok::<u16, InvalidHexError>(v),
            None => r matches Err(e) && e.value@ == strip_hex_prefix(s@),
        },
{
    let n = s.unicode_len();
    let start: usize = if n >= 2 && s.get_char(0) == '0' && s.get_char(1) == 'x' {
        2
    } else {
        0
    };
    let ghost t = strip_hex_prefix(s@);
    assert(t =~= s@.subrange(start as int, n as int));
    let rest = s.substring_char(start, n);
    let first: usize = if start < n && s.get_char(start) == '+' {
        start + 1
    } else {
        start
    };
    let ghost digits = s@.subrange(first as int, n as int);
    assert(digits =~= if t.len() > 0 && t[0] == '+' {
        t.drop_first()
    } else {
        t
    });
    if first == n {
        return Err(InvalidHexError { value: String::from_str(rest) });
    }
    let mut acc: u32 = 0;
    let mut k: usize = first;
    assert(s@.subrange(first as int, first as int) =~= Seq::<char>::empty());
    while k < n
        invariant
            first <= k <= n,
            n == s@.len(),
            digits == s@.subrange(first as int, n as int),
            digits.len() > 0,
            spec_parse_hex_u16(s@) == digits_u16(digits),
            rest@ == strip_hex_prefix(s@),
            hex_digits_value(s@.subrange(first as int, k as int)) == Some(acc as nat),
            acc <= 0xFFFF,
        decreases n - k,
    {
        let ghost prefix = s@.subrange(first as int, (k + 1) as int);
        assert(prefix.drop_last() =~= s@.subrange(first as int, k as int));
        assert(prefix.last() == s@[k as int]);
        assert(digits.subrange(0, (k - first) as int) =~= s@.subrange(first as int, k as int));
        match hex_digit(s.get_char(k)) {
            None => {
                proof {
                    assert(digits.subrange(0, (k + 1 - first) as int) =~= prefix);
                    lemma_hex_invalid_persists(digits, (k + 1 - first) as int);
                    assert(hex_digits_value(digits) is None);
                    assert(spec_parse_hex_u16(s@) is None);
                }
                return Err(InvalidHexError { value: String::from_str(rest) });
            },
            Some(x) => {
                acc = acc * 16 + x;
                if acc > 0xFFFF {
                    proof {
                        assert(digits.subrange(0, (k + 1 - first) as int) =~= prefix);
                        lemma_hex_overflow_persists(digits, (k + 1 - first) as int);
                        assert(spec_parse_hex_u16(s@) is None);
                    }
                    return Err(InvalidHexError { value: String::from_str(rest) });
                }
            },
        }
        k = k + 1;
    }
    Ok(acc as u16)
}

} // verus!
