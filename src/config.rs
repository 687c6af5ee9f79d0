use vstd::prelude::*;
use vstd::string::*;
use vstd::utf8::char_u32_cast;

use crate::error::CmdArgError;

verus! {

/// A decimal digit character.
pub open spec fn is_digit(c: char) -> bool {
    '0' as u32 <= c as u32 && c as u32 <= '9' as u32
}

/// The value of a run of decimal digits, most significant first.
pub open spec fn digits_value(d: Seq<char>) -> nat
    decreases d.len(),
{
    if d.len() == 0 {
        0
    } else {
        digits_value(d.drop_last()) * 10 + ((d.last() as u32 - '0' as u32) as nat)
    }
}

/// The digits of an unsigned number: the text without one leading `+`.
pub open spec fn unsigned_digits(s: Seq<char>) -> Seq<char> {
    if s.len() > 0 && s[0] == '+' {
        s.drop_first()
    } else {
        s
    }
}

/// What reading `s` as a `u8` gives: an optional `+` and at least one digit,
/// nothing else, with a value that fits in eight bits.
pub open spec fn parsed_u8(s: Seq<char>) -> Option<u8> {
    let d = unsigned_digits(s);
    if d.len() > 0 && (forall|i: int| 0 <= i < d.len() ==> is_digit(#[trigger] d[i]))
        && digits_value(d) <= 255 {
        Some(digits_value(d) as u8)
    } else {
        None
    }
}

/// The character of a decimal digit.
pub open spec fn digit_char(d: nat) -> char {
    seq!['0', '1', '2', '3', '4', '5', '6', '7', '8', '9'][d as int]
}

/// The decimal text of a number, without sign or leading zeros.
pub open spec fn decimal(n: nat) -> Seq<char>
    decreases n,
{
    if n < 10 {
        seq![digit_char(n)]
    } else {
        decimal(n / 10) + seq![digit_char(n % 10)]
    }
}

/// Relies on `<u8 as FromStr>::from_str` (through `str::parse`): an optional
/// `+` followed by decimal digits only, and an error when the value overflows.
#[verifier::external_body]
fn parse_u8(s: &str) -> (r: Option<u8>)
    ensures
        r == parsed_u8(s@),
{
    s.parse::<u8>().ok()
}

/// The device numbers that X10 addresses.
pub open spec fn valid_device_number(n: int) -> bool {
    1 <= n && n <= 16
}

/// Reads an X10 device number: a `u8` in `1..=16`.
pub fn parse_device_num(s: &str) -> (r: Result<u8, CmdArgError>)
    ensures
        match parsed_u8(s@) {
            Some(n) if valid_device_number(n as int) => r == Ok::<u8, CmdArgError>(n),
            _ => r matches Err(CmdArgError::BadDeviceNumber(m)) && m@ == s@,
        },
{
    if let Some(num) = parse_u8(s) {
        if num >= 1 && num <= 16 {
            return Ok(num);
        }
    }
    Err(CmdArgError::BadDeviceNumber(s.to_owned()))
}

} // verus!

verus! {

/// What `str::to_uppercase` gives for a text.
pub uninterp spec fn upper_of(s: Seq<char>) -> Seq<char>;

/// An ASCII character.
pub open spec fn is_ascii_char(c: char) -> bool {
    (c as u32) < 128
}

/// The code of the ASCII upper case form of an ASCII character.
pub open spec fn ascii_upper_code(c: char) -> u32 {
    if 'a' as u32 <= c as u32 && c as u32 <= 'z' as u32 {
        (c as u32 - 32) as u32
    } else {
        c as u32
    }
}

/// Relies on `str::to_uppercase`: the result depends on the characters
/// alone, and on ASCII text the Unicode upper case mapping changes `a..=z`
/// into `A..=Z` and keeps every other character.
#[verifier::external_body]
fn to_uppercase(s: &str) -> (r: String)
    ensures
        r@ == upper_of(s@),
        (forall|i: int| 0 <= i < s@.len() ==> is_ascii_char(#[trigger] s@[i])) ==> {
            &&& r@.len() == s@.len()
            &&& forall|i: int| 0 <= i < s@.len() ==> (#[trigger] r@[i]) as u32 == ascii_upper_code(s@[i])
        },
{
    s.to_uppercase()
}

/// An upper case house code: one letter in `A..=P`.
pub open spec fn valid_house_code(code: Seq<char>) -> bool {
    code.len() == 1 && 'A' as u32 <= code[0] as u32 && code[0] as u32 <= 'P' as u32
}

/// Decides on the upper case form `upper` of the raw house code `raw`.
pub fn house_code_from_upper(raw: &str, upper: String) -> (r: Result<String, CmdArgError>)
    ensures
        valid_house_code(upper@) ==> (r matches Ok(c) && c@ == upper@),
        !valid_house_code(upper@) ==> (r matches Err(CmdArgError::BadHouseCode(m)) && m@ == raw@),
{
    if upper.as_str().unicode_len() == 1 {
        let c = upper.as_str().get_char(0);
        if 'A' as u32 <= c as u32 && c as u32 <= 'P' as u32 {
            return Ok(upper);
        }
    }
    Err(CmdArgError::BadHouseCode(raw.to_owned()))
}

/// A letter that names a house code, in either case.
pub open spec fn is_house_letter(c: char) -> bool {
    ('A' as u32 <= c as u32 && c as u32 <= 'P' as u32) || ('a' as u32 <= c as u32 && c as u32
        <= 'p' as u32)
}

/// Text made of ASCII characters only.
pub open spec fn is_ascii_text(s: Seq<char>) -> bool {
    forall|i: int| 0 <= i < s.len() ==> is_ascii_char(#[trigger] s[i])
}

/// Reads an X10 house code: one letter in `A..=P` in either case, given back
/// in upper case. On ASCII text that is exactly the one-letter texts `A..=P`
/// and `a..=p`, and a valid code is given back unchanged, so reading the
/// result once more gives it again.
pub fn parse_house_code(s: &str) -> (r: Result<String, CmdArgError>)
    ensures
        valid_house_code(upper_of(s@)) ==> (r matches Ok(c) && c@ == upper_of(s@)),
        !valid_house_code(upper_of(s@)) ==> (r matches Err(CmdArgError::BadHouseCode(m)) && m@ == s@),
        is_ascii_text(s@) ==> (r is Ok <==> (s@.len() == 1 && is_house_letter(s@[0]))),
        is_ascii_text(s@) ==> (r matches Ok(c) ==> c@.len() == 1 && c@[0] as u32 == ascii_upper_code(s@[0])),
        valid_house_code(s@) ==> (r matches Ok(c) && c@ == s@),
{
    let code = to_uppercase(s);
    proof {
        if valid_house_code(s@) {
            assert(is_ascii_char(s@[0]));
            char_u32_cast(s@[0], s@[0] as u32);
            char_u32_cast(code@[0], code@[0] as u32);
            assert(code@ =~= s@);
        }
    }
    house_code_from_upper(s, code)
}

/// What the file system reports of a path.
#[derive(Debug, Clone, Copy, PartialEq, Eq)]
pub struct PathStatus {
    pub exists: bool,
    pub is_dir: bool,
}

/// A path that names an existing entry which is not a directory; device
/// nodes pass, so this is no test for a regular file.
pub open spec fn valid_path(status: PathStatus) -> bool {
    status.exists && !status.is_dir
}

/// Checks a path against what the file system reported of it.
pub fn parse_path(s: &str, status: PathStatus) -> (r: Result<String, CmdArgError>)
    ensures
        valid_path(status) ==> (r matches Ok(p) && p@ == s@),
        !valid_path(status) ==> (r matches Err(CmdArgError::BadPath(m)) && m@ == s@),
{
    let string = s.to_owned();
    if status.exists && !status.is_dir {
        Ok(string)
    } else {
        Err(CmdArgError::BadPath(string))
    }
}

} // verus!

verus! {

/// The device number that the text `s` names, if it names one.
pub open spec fn device_number_of(s: Seq<char>) -> Option<u8> {
    match parsed_u8(s) {
        Some(n) if valid_device_number(n as int) => Some(n),
        _ => None,
    }
}

/// The daemon's settings, validated once at startup and only read after.
#[derive(Debug, Clone)]
pub struct Config {
    pub actuator_path: String,
    pub house_code: String,
    pub device_number: u8,
    pub listen_port: u16,
    pub repeat_count: u8,
}

impl Config {
    /// The house code and the device number form a valid X10 address.
    pub open spec fn wf(&self) -> bool {
        &&& valid_house_code(self.house_code@)
        &&& valid_device_number(self.device_number as int)
    }

    /// Validates the raw startup arguments field by field, in the order path,
    /// house code, device number; the first bad field is the error.
    pub fn validate(
        path: &str,
        path_status: PathStatus,
        house: &str,
        device: &str,
        listen_port: u16,
        repeat_count: u8,
    ) -> (r: Result<Config, CmdArgError>)
        ensures
            !valid_path(path_status) ==> (r matches Err(CmdArgError::BadPath(m)) && m@ == path@),
            valid_path(path_status) && !valid_house_code(upper_of(house@)) ==> (r matches Err(
                CmdArgError::BadHouseCode(m),
            ) && m@ == house@),
            valid_path(path_status) && valid_house_code(upper_of(house@)) && device_number_of(
                device@,
            ) is None ==> (r matches Err(CmdArgError::BadDeviceNumber(m)) && m@ == device@),
            valid_path(path_status) && valid_house_code(upper_of(house@)) && device_number_of(
                device@,
            ) is Some ==> (r matches Ok(c) && c.wf() && c.actuator_path@ == path@ && c.house_code@
                == upper_of(house@) && Some(c.device_number) == device_number_of(device@)
                && c.listen_port == listen_port && c.repeat_count == repeat_count),
    {
        let actuator_path = match parse_path(path, path_status) {
            Ok(p) => p,
            Err(e) => return Err(e),
        };
        let house_code = match parse_house_code(house) {
            Ok(h) => h,
            Err(e) => return Err(e),
        };
        let device_number = match parse_device_num(device) {
            Ok(n) => n,
            Err(e) => return Err(e),
        };
        Ok(Config { actuator_path, house_code, device_number, listen_port, repeat_count })
    }
}

} // verus!

verus! {

proof fn lemma_digit_char(k: nat)
    requires
        k < 10,
    ensures
        is_digit(digit_char(k)),
        digit_char(k) as u32 - '0' as u32 == k,
{
    let ds = seq!['0', '1', '2', '3', '4', '5', '6', '7', '8', '9'];
    assert(ds[0] == '0' && ds[1] == '1' && ds[2] == '2' && ds[3] == '3' && ds[4] == '4');
    assert(ds[5] == '5' && ds[6] == '6' && ds[7] == '7' && ds[8] == '8' && ds[9] == '9');
}

proof fn lemma_decimal(n: nat)
    ensures
        decimal(n).len() > 0,
        forall|i: int| 0 <= i < decimal(n).len() ==> is_digit(#[trigger] decimal(n)[i]),
        digits_value(decimal(n)) == n,
    decreases n,
{
    if n < 10 {
        lemma_digit_char(n);
        assert(decimal(n).drop_last() =~= Seq::<char>::empty());
        assert(decimal(n).last() == digit_char(n));
        assert(digits_value(Seq::<char>::empty()) == 0);
    } else {
        lemma_decimal(n / 10);
        lemma_digit_char(n % 10);
        let d = decimal(n / 10);
        assert(decimal(n).drop_last() =~= d);
        assert(decimal(n).last() == digit_char(n % 10));
        assert(digits_value(decimal(n)) == digits_value(d) * 10 + n % 10);
        assert((n / 10) * 10 + n % 10 == n);
        assert forall|i: int| 0 <= i < decimal(n).len() implies is_digit(#[trigger] decimal(n)[i]) by {
            if i < d.len() {
                assert(decimal(n)[i] == d[i]);
            }
        }
    }
}

/// The decimal text of a number is a valid device number exactly when the
/// number is in `1..=16`, and then it reads back as that number; the same
/// text after a minus sign is never one.
pub proof fn lemma_device_number_text(n: nat)
    ensures
        device_number_of(decimal(n)) == (if valid_device_number(n as int) {
            Some(n as u8)
        } else {
            None::<u8>
        }),
        device_number_of(seq!['-'] + decimal(n)) is None,
{
    lemma_decimal(n);
    let d = decimal(n);
    assert(is_digit(d[0]));
    assert(unsigned_digits(d) == d);
    let m = seq!['-'] + d;
    assert(m[0] == '-');
    assert(unsigned_digits(m) == m);
    assert(!is_digit(m[0]));
}

} // verus!
