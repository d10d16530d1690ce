//! Planned subprocess invocations and the parsing of query output.
//!
//! The library never spawns a process itself: it produces `Invocation`
//! values whose contracts pin the program, the exact argument tokens and the
//! piped input, and it interprets the bytes such a program printed.

use vstd::prelude::*;
use vstd::string::*;

use crate::convert::CommandArgs;
use crate::error::{FolderifyError, GeneralError};

verus! {

/// The external programs the planned pipeline drives.
#[derive(Clone, Copy, Debug, PartialEq, Eq, Structural)]
pub enum Executable {
    /// The image transformation tool of the processing engine.
    Convert,
    /// The image query tool of the processing engine.
    Identify,
    /// The icon-set compiler.
    Iconutil,
    /// The file-manager open/reveal command.
    Open,
}

pub open spec fn spec_program_name(e: Executable) -> Seq<char> {
    match e {
        Executable::Convert => "convert"@,
        Executable::Identify => "identify"@,
        Executable::Iconutil => "iconutil"@,
        Executable::Open => "open"@,
    }
}

impl Executable {
    /// The program name to spawn, resolved through the system search path.
    pub fn program_name(&self) -> (r: &'static str)
        ensures
            r@ == spec_program_name(*self),
    {
        match self {
            Executable::Convert => "convert",
            Executable::Identify => "identify",
            Executable::Iconutil => "iconutil",
            Executable::Open => "open",
        }
    }
}

/// What is piped to a spawned program's input stream: nothing, or the bytes
/// of a bundled resource named by its relative path.
#[derive(Debug)]
pub enum StdinSource {
    NoStdin,
    Resource(String),
}

impl View for StdinSource {
    type V = Option<Seq<char>>;

    open spec fn view(&self) -> Option<Seq<char>> {
        match self {
            StdinSource::NoStdin => None,
            StdinSource::Resource(p) => Some(p@),
        }
    }
}

/// The mathematical model of one invocation: program, argument tokens, and
/// the resource piped to its input stream, if any.
pub type InvocationModel = (Executable, Seq<Seq<char>>, Option<Seq<char>>);

/// One planned subprocess invocation.
#[derive(Debug)]
pub struct Invocation {
    pub executable: Executable,
    pub args: CommandArgs,
    pub stdin: StdinSource,
}

impl View for Invocation {
    type V = InvocationModel;

    open spec fn view(&self) -> InvocationModel {
        (self.executable, self.args@, self.stdin@)
    }
}

impl DeepView for Invocation {
    type V = InvocationModel;

    open spec fn deep_view(&self) -> InvocationModel {
        self@
    }
}

pub open spec fn is_ascii_digit_byte(b: u8) -> bool {
    48 <= b <= 57
}

/// The numeric value of a big-endian decimal digit string.
pub open spec fn spec_digits_value(s: Seq<u8>) -> int
    decreases s.len(),
{
    if s.len() == 0 {
        0
    } else {
        spec_digits_value(s.drop_last()) * 10 + (s.last() - 48)
    }
}

pub open spec fn all_digits(s: Seq<u8>) -> bool {
    forall|i: int| 0 <= i < s.len() ==> is_ascii_digit_byte(#[trigger] s[i])
}

/// The digit part of the accepted text: everything after an optional leading
/// `'+'`.
pub open spec fn spec_digit_part(s: Seq<u8>) -> Seq<u8> {
    if s.len() > 0 && s[0] == 43 {
        s.drop_first()
    } else {
        s
    }
}

/// The byte strings accepted as an unsigned decimal, exactly as the standard
/// library's unsigned parsing accepts them: an optional leading `'+'`, then
/// one or more digits, with a value that fits the result type.
pub open spec fn spec_valid_u32_text(s: Seq<u8>) -> bool {
    let digits = spec_digit_part(s);
    digits.len() > 0 && all_digits(digits) && spec_digits_value(digits) <= u32::MAX as int
}

proof fn lemma_digits_value_nonneg(s: Seq<u8>)
    requires
        all_digits(s),
    ensures
        spec_digits_value(s) >= 0,
    decreases s.len(),
{
    if s.len() > 0 {
        assert(all_digits(s.drop_last())) by {
            assert(forall|i: int|
                0 <= i < s.drop_last().len() ==> #[trigger] s.drop_last()[i] == s[i]);
        }
        lemma_digits_value_nonneg(s.drop_last());
    }
}

proof fn lemma_digits_prefix_le(s: Seq<u8>, i: int)
    requires
        all_digits(s),
        0 <= i <= s.len(),
    ensures
        spec_digits_value(s.take(i)) <= spec_digits_value(s),
    decreases s.len() - i,
{
    if i < s.len() {
        assert(all_digits(s.take(i))) by {
            assert(forall|j: int| 0 <= j < i ==> #[trigger] s.take(i)[j] == s[j]);
        }
        lemma_digits_value_nonneg(s.take(i));
        assert(s.take(i + 1).drop_last() =~= s.take(i));
        assert(s.take(i + 1).last() == s[i]);
        assert(spec_digits_value(s.take(i + 1)) == spec_digits_value(s.take(i)) * 10 + (s[i]
            - 48));
        assert(spec_digits_value(s.take(i)) <= spec_digits_value(s.take(i + 1)));
        lemma_digits_prefix_le(s, i + 1);
    } else {
        assert(s.take(i) =~= s);
    }
}

fn dimension_read_error() -> (r: Result<u32, FolderifyError>)
    ensures
        r matches Err(e) && e matches FolderifyError::General(g) && g.message@
            == "Could not read input dimensions"@,
{
    Err(
        FolderifyError::General(
            GeneralError { message: String::from_str("Could not read input dimensions") },
        ),
    )
}

/// Reads the dimension printed by the query program: text holding a single
/// unsigned decimal integer. Anything else is a read failure.
pub fn parse_identify_output(stdout: &Vec<u8>) -> (r: Result<u32, FolderifyError>)
    ensures
        spec_valid_u32_text(stdout@) ==> (r matches Ok(v) && v as int == spec_digits_value(
            spec_digit_part(stdout@),
        )),
        !spec_valid_u32_text(stdout@) ==> (r matches Err(e)
            && e matches FolderifyError::General(g) && g.message@
            == "Could not read input dimensions"@),
{
    let n = stdout.len();
    let mut i: usize = 0;
    if n > 0 && stdout[0] == 43 {
        i = 1;
    }
    let start = i;
    let ghost digits = spec_digit_part(stdout@);
    proof {
        assert(digits =~= stdout@.subrange(start as int, n as int));
    }
    if i == n {
        return dimension_read_error();
    }
    let mut acc: u64 = 0;
    while i < n
        invariant
            start <= i <= n,
            n == stdout@.len(),
            digits == spec_digit_part(stdout@),
            digits =~= stdout@.subrange(start as int, n as int),
            all_digits(stdout@.subrange(start as int, i as int)),
            acc as int == spec_digits_value(stdout@.subrange(start as int, i as int)),
            acc <= u32::MAX as u64,
        decreases n - i,
    {
        let b = stdout[i];
        if b < 48 || b > 57 {
            proof {
                assert(digits[i - start] == b);
            }
            return dimension_read_error();
        }
        let next = acc * 10 + ((b - 48) as u64);
        proof {
            assert(stdout@.subrange(start as int, i as int + 1).drop_last() =~= stdout@.subrange(
                start as int,
                i as int,
            ));
            assert(stdout@.subrange(start as int, i as int + 1).last() == b);
        }
        if next > u32::MAX as u64 {
            proof {
                if all_digits(digits) {
                    assert(digits.take(i + 1 - start) =~= stdout@.subrange(
                        start as int,
                        i as int + 1,
                    ));
                    lemma_digits_prefix_le(digits, i + 1 - start);
                }
            }
            return dimension_read_error();
        }
        acc = next;
        i += 1;
        proof {
            assert(stdout@.subrange(start as int, i as int) =~= stdout@.subrange(
                start as int,
                i as int - 1,
            ).push(stdout@[i - 1]));
        }
    }
    proof {
        assert(stdout@.subrange(start as int, n as int) =~= digits);
    }
    Ok(acc as u32)
}

} // verus!
