//! The text-protocol parser.
//!
//! A line of user input is turned into exactly one validated [`Command`] or
//! exactly one [`ParseError`]. The grammar is line-oriented and
//! `:`-separated: a line without separator must be one of the four command
//! names; a line with separators is read as `name:declared_len:data`, with
//! any further fields ignored. The parser performs no I/O and is
//! side-effect free.
//!
//! The functions below are specified against a byte-level model of the
//! grammar ([`spec_parse`]); the contract of [`Parser::parse`] pins the
//! result down for every input line.

use vstd::prelude::*;

use vstd::string::StringSliceAdditionalSpecFns;

use crate::command::{
    cmd_of_bytes, spec_cmd_of_name, ArgModel, Cmd, Command, CommandModel,
};
use crate::{Answer, MAX_DATA_LEN};

verus! {

/// Possible errors when parsing user input.
#[derive(Clone, Copy, Debug, PartialEq, Eq, Structural)]
pub enum ParseError {
    /// No input was provided to the parser.
    EmptyInput,
    /// The command required does not exist.
    UnknownCommand,
    /// The command expected a different amount of arguments.
    InvalidArgNumber,
    /// The extra data length argument was not an unsigned byte.
    InvalidDataLen,
    /// The extra data length was a number, but too large.
    DataLenTooBig,
}

/// Empty parser struct for static methods.
pub struct Parser;

/// Result type used by the parser, containing a `Command` or a `ParseError`.
pub type ParseResult = Result<Command, ParseError>;

/// The field separator of the text protocol.
pub open spec fn sep() -> u8 {
    ':' as u8
}

/// Index of the first separator at or after `from`, or the input's length
/// when no separator follows.
pub open spec fn field_end(s: Seq<u8>, from: int) -> int
    recommends
        0 <= from <= s.len(),
    decreases s.len() - from when 0 <= from <= s.len()
{
    if from >= s.len() {
        s.len() as int
    } else if s[from] == sep() {
        from
    } else {
        field_end(s, from + 1)
    }
}

/// `field_end` lands on the first separator: nothing before it is one, and
/// it is one itself unless the input ends first.
pub proof fn lemma_field_end(s: Seq<u8>, from: int)
    requires
        0 <= from <= s.len(),
    ensures
        from <= field_end(s, from) <= s.len(),
        forall|i: int| from <= i < field_end(s, from) ==> s[i] != sep(),
        field_end(s, from) < s.len() ==> s[field_end(s, from)] == sep(),
    decreases s.len() - from,
{
    if from >= s.len() {
    } else if s[from] == sep() {
    } else {
        lemma_field_end(s, from + 1);
    }
}

/// Any position with no separator before it, that is a separator or the
/// input's end, is `field_end`.
pub proof fn lemma_field_end_unique(s: Seq<u8>, from: int, k: int)
    requires
        0 <= from <= k <= s.len(),
        forall|i: int| from <= i < k ==> s[i] != sep(),
        k < s.len() ==> s[k] == sep(),
    ensures
        field_end(s, from) == k,
    decreases k - from,
{
    if from == k {
    } else {
        assert(s[from] != sep());
        lemma_field_end_unique(s, from + 1, k);
    }
}

/// The command resolved from a name field: empty and unknown names are
/// distinct errors.
pub open spec fn spec_get_cmd(f: Seq<u8>) -> Result<Cmd, ParseError> {
    match spec_cmd_of_name(f) {
        Some(cmd) => Ok(cmd),
        None => if f.len() == 0 {
            Err(ParseError::EmptyInput)
        } else {
            Err(ParseError::UnknownCommand)
        },
    }
}

/// An ASCII decimal digit.
pub open spec fn is_ascii_digit(b: u8) -> bool {
    '0' as u8 <= b <= '9' as u8
}

/// Every byte of the sequence is an ASCII decimal digit.
pub open spec fn all_digits(t: Seq<u8>) -> bool {
    forall|i: int| 0 <= i < t.len() ==> is_ascii_digit(t[i])
}

/// The numeric value of a digit sequence, most-significant digit first.
pub open spec fn digits_val(t: Seq<u8>) -> int
    recommends
        all_digits(t),
    decreases t.len(),
{
    if t.len() == 0 {
        0
    } else {
        digits_val(t.drop_last()) * 10 + (t.last() - '0' as u8)
    }
}

/// The digits of a length token: an optional leading `+` sign is accepted,
/// as the standard unsigned-integer grammar has it.
pub open spec fn u8_token_digits(t: Seq<u8>) -> Seq<u8> {
    if t.len() > 0 && t[0] == '+' as u8 {
        t.subrange(1, t.len() as int)
    } else {
        t
    }
}

/// Whether a token is a well-formed unsigned byte: at least one digit after
/// the optional sign, digits only, and a value that fits in a byte.
pub open spec fn valid_u8_token(t: Seq<u8>) -> bool {
    let d = u8_token_digits(t);
    d.len() > 0 && all_digits(d) && digits_val(d) <= 255
}

/// The numeric value of a well-formed unsigned-byte token.
pub open spec fn token_u8_val(t: Seq<u8>) -> int {
    digits_val(u8_token_digits(t))
}

/// The declared length resolved from its token: an empty token is a missing
/// argument; a token that is not an unsigned byte (a negative number, a
/// decimal, a word, a value over 255) is an invalid length; a byte over the
/// chip's memory size is too big.
pub open spec fn spec_get_data_len(f: Seq<u8>) -> Result<u8, ParseError> {
    if valid_u8_token(f) {
        if token_u8_val(f) > MAX_DATA_LEN as int {
            Err(ParseError::DataLenTooBig)
        } else {
            Ok(token_u8_val(f) as u8)
        }
    } else if f.len() == 0 {
        Err(ParseError::InvalidArgNumber)
    } else {
        Err(ParseError::InvalidDataLen)
    }
}

/// A data payload zero-padded on the right to the chip's memory size.
pub open spec fn pad25(d: Seq<u8>) -> Seq<u8>
    recommends
        d.len() <= MAX_DATA_LEN,
{
    d + Seq::new((MAX_DATA_LEN - d.len()) as nat, |i: int| 0u8)
}

/// The payload taken from a present data field: the first 25 bytes are
/// kept (silently truncated if longer) and zero-padded on the right if
/// shorter. A present but empty field yields the all-zero payload; only a
/// field that is missing altogether is an argument-count error, which the
/// grammar decides before this point.
pub open spec fn spec_data_payload(f: Seq<u8>) -> Seq<u8> {
    if f.len() <= MAX_DATA_LEN {
        pad25(f)
    } else {
        pad25(f.take(MAX_DATA_LEN as int))
    }
}

/// The simple form: the whole line is a command name, and the command must
/// take no argument.
pub open spec fn spec_parse_simple(s: Seq<u8>) -> Result<CommandModel, ParseError> {
    match spec_get_cmd(s) {
        Err(e) => Err(e),
        Ok(cmd) => if cmd is MemWrite {
            Err(ParseError::InvalidArgNumber)
        } else {
            Ok(CommandModel { cmd, arg: None })
        },
    }
}

/// The complex form: fields `name:declared_len:data` taken in order, any
/// further fields ignored, and the command must take an argument. A data
/// field that is missing altogether (no second separator) is an
/// argument-count error; a present but empty one is the all-zero payload.
pub open spec fn spec_parse_complex(s: Seq<u8>) -> Result<CommandModel, ParseError> {
    let e0 = field_end(s, 0);
    let f0 = s.subrange(0, e0);
    let e1 = field_end(s, e0 + 1);
    let f1 = s.subrange(e0 + 1, e1);
    match spec_get_cmd(f0) {
        Err(e) => Err(e),
        Ok(cmd) => match spec_get_data_len(f1) {
            Err(e) => Err(e),
            Ok(data_len) => if e1 == s.len() {
                Err(ParseError::InvalidArgNumber)
            } else {
                let data = spec_data_payload(s.subrange(e1 + 1, field_end(s, e1 + 1)));
                if cmd is MemWrite {
                    Ok(CommandModel { cmd, arg: Some(ArgModel { data_len, data }) })
                } else {
                    Err(ParseError::InvalidArgNumber)
                }
            },
        },
    }
}

/// The parse of a whole line: the simple form when it holds no separator,
/// the complex form otherwise.
pub open spec fn spec_parse(s: Seq<u8>) -> Result<CommandModel, ParseError> {
    if field_end(s, 0) == s.len() {
        spec_parse_simple(s)
    } else {
        spec_parse_complex(s)
    }
}

/// With every byte a digit, the value of a digit sequence is nonnegative.
proof fn lemma_digits_val_nonneg(d: Seq<u8>)
    requires
        all_digits(d),
    ensures
        digits_val(d) >= 0,
    decreases d.len(),
{
    if d.len() > 0 {
        assert(all_digits(d.drop_last()));
        lemma_digits_val_nonneg(d.drop_last());
    }
}

/// With every byte a digit, extending a digit sequence never lowers its
/// value.
proof fn lemma_digits_val_monotone(d: Seq<u8>, k: int)
    requires
        all_digits(d),
        0 <= k <= d.len(),
    ensures
        digits_val(d) >= digits_val(d.take(k)),
    decreases d.len() - k,
{
    if k == d.len() {
        assert(d.take(k) =~= d);
    } else {
        assert(d.take(k + 1).drop_last() =~= d.take(k));
        assert(all_digits(d.take(k)));
        lemma_digits_val_nonneg(d.take(k));
        assert(is_ascii_digit(d[k]));
        assert(d.take(k + 1).last() == d[k]);
        lemma_digits_val_monotone(d, k + 1);
    }
}

/// No byte of a well-formed unsigned-byte token is the separator: it is an
/// optional plus sign followed by decimal digits.
proof fn lemma_token_no_sep(t: Seq<u8>)
    requires
        valid_u8_token(t),
    ensures
        forall|i: int| 0 <= i < t.len() ==> t[i] != sep(),
{
    let d = u8_token_digits(t);
    assert forall|i: int| 0 <= i < t.len() implies t[i] != sep() by {
        if t[0] == '+' as u8 {
            if i > 0 {
                assert(t[i] == d[i - 1]);
                assert(is_ascii_digit(d[i - 1]));
            }
        } else {
            assert(t[i] == d[i]);
            assert(is_ascii_digit(d[i]));
        }
    }
}

/// Parsing a line `mem_write:<len>:<data>` built from any well-formed
/// length token with value at most 25 and any separator-free payload of at
/// most 25 bytes — the empty payload included — yields the mem-write
/// command carrying that declared length and the payload zero-padded to 25
/// bytes.
///
/// A payload holding a separator byte is cut at it by the grammar; such
/// lines parse differently.
pub proof fn lemma_parse_mem_write(t: Seq<u8>, data: Seq<u8>)
    requires
        valid_u8_token(t),
        token_u8_val(t) <= MAX_DATA_LEN as int,
        data.len() <= MAX_DATA_LEN,
        forall|i: int| 0 <= i < data.len() ==> data[i] != sep(),
    ensures
        spec_parse(crate::command::name_mem_write() + seq![sep()] + t + seq![sep()] + data)
            == Ok::<CommandModel, ParseError>(
            CommandModel {
                cmd: Cmd::MemWrite,
                arg: Some(ArgModel { data_len: token_u8_val(t) as u8, data: pad25(data) }),
            },
        ),
{
    let name = crate::command::name_mem_write();
    let s = name + seq![sep()] + t + seq![sep()] + data;
    let tl = t.len() as int;
    let dl = data.len() as int;
    assert(name.len() == 9);
    assert(s.len() == 11 + tl + dl);

    assert forall|i: int| 0 <= i < 9 implies s[i] == name[i] && s[i] != sep() by {
        assert(s[i] == name[i]);
        if i == 0 {
            assert(name[0] == 'm' as u8);
        } else if i == 1 {
            assert(name[1] == 'e' as u8);
        } else if i == 2 {
            assert(name[2] == 'm' as u8);
        } else if i == 3 {
            assert(name[3] == '_' as u8);
        } else if i == 4 {
            assert(name[4] == 'w' as u8);
        } else if i == 5 {
            assert(name[5] == 'r' as u8);
        } else if i == 6 {
            assert(name[6] == 'i' as u8);
        } else if i == 7 {
            assert(name[7] == 't' as u8);
        } else {
            assert(name[8] == 'e' as u8);
        }
    }
    assert(s[9] == sep());
    assert(forall|i: int| 0 <= i < tl ==> s[10 + i] == t[i]);
    assert(s[10 + tl] == sep());
    assert(forall|i: int| 0 <= i < dl ==> s[11 + tl + i] == data[i]);

    lemma_token_no_sep(t);

    lemma_field_end_unique(s, 0, 9);
    assert forall|i: int| 10 <= i < 10 + tl implies s[i] != sep() by {
        assert(s[i] == t[i - 10]);
    }
    lemma_field_end_unique(s, 10, 10 + tl);
    assert forall|i: int| 11 + tl <= i < s.len() implies s[i] != sep() by {
        assert(s[i] == data[i - (11 + tl)]);
    }
    lemma_field_end_unique(s, 11 + tl, s.len() as int);

    assert(s.subrange(0, 9) =~= name);
    assert(s.subrange(10, 10 + tl) =~= t);
    assert(s.subrange(11 + tl, s.len() as int) =~= data);

    assert(name.len() != crate::command::name_mem_read().len());
    assert(name.len() != crate::command::name_get_version().len());
    assert(spec_get_cmd(name) == Ok::<Cmd, ParseError>(Cmd::MemWrite));
    assert(spec_get_data_len(t) == Ok::<u8, ParseError>(token_u8_val(t) as u8));
    assert(spec_data_payload(data) == pad25(data));
}

/// Each bare command name, with no separator, parses to the corresponding
/// no-argument command; `mem_write` alone, which needs an argument, is an
/// invalid argument count; the empty line is empty input.
pub proof fn lemma_parse_bare_names()
    ensures
        spec_parse(crate::command::name_mem_read()) == Ok::<CommandModel, ParseError>(
            CommandModel { cmd: Cmd::MemRead, arg: None },
        ),
        spec_parse(crate::command::name_get_version()) == Ok::<CommandModel, ParseError>(
            CommandModel { cmd: Cmd::GetVersion, arg: None },
        ),
        spec_parse(crate::command::name_gen_rand_id()) == Ok::<CommandModel, ParseError>(
            CommandModel { cmd: Cmd::GenRand, arg: None },
        ),
        spec_parse(crate::command::name_mem_write()) == Err::<CommandModel, ParseError>(
            ParseError::InvalidArgNumber,
        ),
        spec_parse(Seq::<u8>::empty()) == Err::<CommandModel, ParseError>(ParseError::EmptyInput),
{
    reveal_with_fuel(field_end, 13);
    assert(field_end(crate::command::name_mem_read(), 0) == 8);
    assert(field_end(crate::command::name_mem_write(), 0) == 9);
    assert(field_end(crate::command::name_get_version(), 0) == 11);
    assert(field_end(crate::command::name_gen_rand_id(), 0) == 11);
    assert(field_end(Seq::<u8>::empty(), 0) == 0);
    assert(crate::command::name_get_version()[2] != crate::command::name_gen_rand_id()[2]);
    assert(crate::command::name_get_version() != crate::command::name_gen_rand_id());
}

impl Parser {
    /// Index of the first separator of `bytes` at or after `from`, or the
    /// length when none follows.
    fn find_sep(bytes: &[u8], from: usize) -> (fe: usize)
        requires
            from <= bytes@.len(),
        ensures
            fe as int == field_end(bytes@, from as int),
            from <= fe <= bytes@.len(),
    {
        let n = bytes.len();
        let mut i: usize = from;
        while i < n
            invariant
                from <= i <= n,
                n == bytes@.len(),
                forall|j: int| from <= j < i ==> bytes@[j] != sep(),
            decreases n - i,
        {
            if bytes[i] == ':' as u8 {
                proof {
                    lemma_field_end_unique(bytes@, from as int, i as int);
                }
                return i;
            }
            i = i + 1;
        }
        proof {
            lemma_field_end_unique(bytes@, from as int, n as int);
        }
        n
    }

    /// Resolve the name field `bytes[start..end]` to a command.
    fn get_cmd(bytes: &[u8], start: usize, end: usize) -> (r: Result<Cmd, ParseError>)
        requires
            start <= end <= bytes@.len(),
        ensures
            r == spec_get_cmd(bytes@.subrange(start as int, end as int)),
    {
        match cmd_of_bytes(bytes, start, end) {
            Some(cmd) => Ok(cmd),
            None => {
                if start == end {
                    Err(ParseError::EmptyInput)
                } else {
                    Err(ParseError::UnknownCommand)
                }
            },
        }
    }

    /// Resolve the declared-length field `bytes[start..end]`.
    #[verifier::loop_isolation(false)]
    fn get_data_len(bytes: &[u8], start: usize, end: usize) -> (r: Result<u8, ParseError>)
        requires
            start <= end <= bytes@.len(),
        ensures
            r == spec_get_data_len(bytes@.subrange(start as int, end as int)),
    {
        let ghost f = bytes@.subrange(start as int, end as int);
        if start == end {
            return Err(ParseError::InvalidArgNumber);
        }
        let dstart = if bytes[start] == '+' as u8 {
            start + 1
        } else {
            start
        };
        let ghost d = u8_token_digits(f);
        proof {
            assert(d =~= bytes@.subrange(dstart as int, end as int));
        }
        if dstart == end {
            return Err(ParseError::InvalidDataLen);
        }
        let mut acc: u32 = 0;
        let mut i: usize = dstart;
        while i < end
            invariant
                dstart <= i <= end,
                dstart < end <= bytes@.len(),
                d == bytes@.subrange(dstart as int, end as int),
                all_digits(d.take(i - dstart)),
                acc == digits_val(d.take(i - dstart)),
                acc <= 255,
            decreases end - i,
        {
            let b = bytes[i];
            proof {
                assert(d[i - dstart] == bytes@[i as int]);
            }
            if b < '0' as u8 || b > '9' as u8 {
                proof {
                    assert(!is_ascii_digit(d[i - dstart]));
                    assert(!all_digits(d));
                }
                return Err(ParseError::InvalidDataLen);
            }
            acc = acc * 10 + (b - '0' as u8) as u32;
            proof {
                assert(d.take(i - dstart + 1).drop_last() =~= d.take(i - dstart));
                assert(d.take(i - dstart + 1).last() == d[i - dstart]);
                assert(all_digits(d.take(i - dstart + 1)));
                assert(acc == digits_val(d.take(i - dstart + 1)));
            }
            if acc > 255 {
                proof {
                    if all_digits(d) {
                        lemma_digits_val_monotone(d, i - dstart + 1);
                    }
                }
                return Err(ParseError::InvalidDataLen);
            }
            i = i + 1;
        }
        proof {
            assert(d.take(end - dstart) =~= d);
        }
        if acc > MAX_DATA_LEN as u32 {
            Err(ParseError::DataLenTooBig)
        } else {
            Ok(acc as u8)
        }
    }

    /// Copy the data field `bytes[start..end]` into a zero-initialized
    /// 25-byte buffer: left-aligned, zero-padded on the right if shorter,
    /// silently truncated if longer. An empty field leaves the buffer all
    /// zero.
    #[verifier::loop_isolation(false)]
    fn get_data(bytes: &[u8], start: usize, end: usize) -> (r: Answer)
        requires
            start <= end <= bytes@.len(),
        ensures
            r@ == spec_data_payload(bytes@.subrange(start as int, end as int)),
    {
        let ghost f = bytes@.subrange(start as int, end as int);
        let mut data: Answer = [0u8; MAX_DATA_LEN];
        let len = if end - start < MAX_DATA_LEN {
            end - start
        } else {
            MAX_DATA_LEN
        };
        let mut i: usize = 0;
        while i < len
            invariant
                i <= len,
                len <= MAX_DATA_LEN,
                len <= f.len(),
                start + len <= bytes@.len(),
                f == bytes@.subrange(start as int, end as int),
                data@.len() == MAX_DATA_LEN,
                forall|j: int| 0 <= j < i ==> data@[j] == f[j],
                forall|j: int| i <= j < MAX_DATA_LEN ==> data@[j] == 0u8,
            decreases len - i,
        {
            data[i] = bytes[start + i];
            i = i + 1;
        }
        proof {
            if f.len() <= MAX_DATA_LEN {
                assert(data@ =~= pad25(f));
            } else {
                assert(data@ =~= pad25(f.take(MAX_DATA_LEN as int)));
            }
        }
        data
    }

    /// Parse a line that holds no separator.
    fn parse_simple(bytes: &[u8]) -> (r: ParseResult)
        ensures
            ({
                let m = spec_parse_simple(bytes@);
                match r {
                    Ok(c) => m == Ok::<CommandModel, ParseError>(c@),
                    Err(e) => m == Err::<CommandModel, ParseError>(e),
                }
            }),
            r matches Ok(c) ==> c.wf(),
    {
        let n = bytes.len();
        proof {
            assert(bytes@.subrange(0, n as int) =~= bytes@);
        }
        let cmd = match Self::get_cmd(bytes, 0, n) {
            Ok(cmd) => cmd,
            Err(e) => {
                return Err(e);
            },
        };

        match cmd.has_args() {
            false => Ok(Command::new_simple(cmd)),
            true => Err(ParseError::InvalidArgNumber),
        }
    }

    /// Parse a line that holds at least one separator.
    fn parse_complex(bytes: &[u8]) -> (r: ParseResult)
        requires
            field_end(bytes@, 0) < bytes@.len(),
        ensures
            ({
                let m = spec_parse_complex(bytes@);
                match r {
                    Ok(c) => m == Ok::<CommandModel, ParseError>(c@),
                    Err(e) => m == Err::<CommandModel, ParseError>(e),
                }
            }),
            r matches Ok(c) ==> c.wf(),
    {
        proof {
            lemma_field_end(bytes@, 0);
        }
        let n = bytes.len();
        let e0 = Self::find_sep(bytes, 0);
        let cmd = match Self::get_cmd(bytes, 0, e0) {
            Ok(cmd) => cmd,
            Err(e) => {
                return Err(e);
            },
        };

        let s1 = e0 + 1;
        let e1 = Self::find_sep(bytes, s1);
        let data_len = match Self::get_data_len(bytes, s1, e1) {
            Ok(v) => v,
            Err(e) => {
                return Err(e);
            },
        };

        if e1 == n {
            // The data field is missing altogether: no second separator.
            return Err(ParseError::InvalidArgNumber);
        }
        let s2 = e1 + 1;
        let e2 = Self::find_sep(bytes, s2);
        let data = Self::get_data(bytes, s2, e2);

        match cmd.has_args() {
            true => Ok(Command::new(cmd, data_len, data)),
            false => Err(ParseError::InvalidArgNumber),
        }
    }

    /// Parse an MFRC522 command from the user's input.
    ///
    /// Exactly one `Command` or exactly one `ParseError` comes back, as the
    /// byte-level grammar model [`spec_parse`] says, for every input line.
    pub fn parse(input: &str) -> (r: ParseResult)
        ensures
            ({
                let m = spec_parse(input.spec_bytes());
                match r {
                    Ok(c) => m == Ok::<CommandModel, ParseError>(c@),
                    Err(e) => m == Err::<CommandModel, ParseError>(e),
                }
            }),
            r matches Ok(c) ==> c.wf(),
    {
        let bytes = input.as_bytes();
        let e0 = Self::find_sep(bytes, 0);
        if e0 == bytes.len() {
            Self::parse_simple(bytes)
        } else {
            Self::parse_complex(bytes)
        }
    }
}

} // verus!
