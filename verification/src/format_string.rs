//! The EVE coprocessor's format strings: splitting them into tokens, and
//! planning the message that a format string with a number of arguments
//! becomes.
//!
//! The coprocessor's formatter serves a similar purpose as Rust's own
//! format functionality, but the actual formatting happens inside the EVE
//! coprocessor. This module understands the format syntax just enough to
//! infer the type of each argument from its verb and to check that the
//! arguments match the verbs.

use vstd::prelude::*;

verus! {

/// The byte `%`, which starts a formatting sequence.
pub const PERCENT_BYTE: u8 = 0x25;

/// The null byte, which ends a string for the coprocessor.
pub const NULL_BYTE: u8 = 0x00;

/// One token of a format string. Each holds the bytes of the format string
/// that it covers.
#[derive(Debug, PartialEq, Eq, Clone, Copy)]
pub enum Token<'a> {
    /// Text without `%` or null bytes.
    Literal(&'a [u8]),
    /// A formatting sequence: `%`, then anything, then a verb letter.
    Verb(&'a [u8]),
    /// The escaped percent sign `%%`.
    Percent(&'a [u8]),
    /// A null byte.
    Null(&'a [u8]),
    /// A `%` that no verb letter follows, with the rest of the string.
    Unterminated(&'a [u8]),
    /// Bytes that form no token.
    Invalid(&'a [u8]),
}

/// The kinds of token.
#[derive(Debug, PartialEq, Eq, Clone, Copy)]
pub enum TokenKind {
    Literal,
    Verb,
    Percent,
    Null,
    Unterminated,
    Invalid,
}

impl<'a> Token<'a> {
    /// The kind of the token.
    pub open spec fn spec_kind(self) -> TokenKind {
        match self {
            Token::Literal(_) => TokenKind::Literal,
            Token::Verb(_) => TokenKind::Verb,
            Token::Percent(_) => TokenKind::Percent,
            Token::Null(_) => TokenKind::Null,
            Token::Unterminated(_) => TokenKind::Unterminated,
            Token::Invalid(_) => TokenKind::Invalid,
        }
    }

    /// The bytes that the token covers.
    pub open spec fn spec_bytes(self) -> Seq<u8> {
        match self {
            Token::Literal(b) => b@,
            Token::Verb(b) => b@,
            Token::Percent(b) => b@,
            Token::Null(b) => b@,
            Token::Unterminated(b) => b@,
            Token::Invalid(b) => b@,
        }
    }
}

/// The letters that end a formatting sequence: the ASCII letters.
pub open spec fn is_verb_letter(b: u8) -> bool {
    (0x61 <= b <= 0x7a) || (0x41 <= b <= 0x5a)
}

/// The bytes that end a literal: `%` and null.
pub open spec fn ends_literal(b: u8) -> bool {
    b == PERCENT_BYTE || b == NULL_BYTE
}

/// The index of the first verb letter in `i` from index `k` on, or the
/// length of `i` if there is none.
pub open spec fn verb_end(i: Seq<u8>, k: int) -> int
    decreases i.len() - k,
{
    if k >= i.len() {
        i.len() as int
    } else if is_verb_letter(i[k]) {
        k
    } else {
        verb_end(i, k + 1)
    }
}

/// The index of the first `%` or null byte in `i` from index `k` on, or the
/// length of `i` if there is none.
pub open spec fn literal_end(i: Seq<u8>, k: int) -> int
    decreases i.len() - k,
{
    if k >= i.len() {
        i.len() as int
    } else if ends_literal(i[k]) {
        k
    } else {
        literal_end(i, k + 1)
    }
}

/// `verb_end` lies between `k` and the end of the input.
pub proof fn lemma_verb_end_bounds(i: Seq<u8>, k: int)
    requires
        0 <= k <= i.len(),
    ensures
        k <= verb_end(i, k) <= i.len(),
    decreases i.len() - k,
{
    if k < i.len() && !is_verb_letter(i[k]) {
        lemma_verb_end_bounds(i, k + 1);
    }
}

/// `literal_end` lies between `k` and the end of the input.
pub proof fn lemma_literal_end_bounds(i: Seq<u8>, k: int)
    requires
        0 <= k <= i.len(),
    ensures
        k <= literal_end(i, k) <= i.len(),
    decreases i.len() - k,
{
    if k < i.len() && !ends_literal(i[k]) {
        lemma_literal_end_bounds(i, k + 1);
    }
}

/// The token at the start of `i`, as its kind and the number of bytes it
/// covers: `%%` is an escaped percent sign; another `%` starts a verb that
/// runs to the first letter, or to the end of the input if no letter comes;
/// a null byte is a token of its own; anything else is a literal that runs
/// to the next `%` or null byte.
pub open spec fn spec_token(i: Seq<u8>) -> (TokenKind, int) {
    if i.len() >= 2 && i[0] == PERCENT_BYTE && i[1] == PERCENT_BYTE {
        (TokenKind::Percent, 2)
    } else if i.len() >= 1 && i[0] == PERCENT_BYTE {
        if verb_end(i, 1) < i.len() {
            (TokenKind::Verb, verb_end(i, 1) + 1)
        } else {
            (TokenKind::Unterminated, i.len() as int)
        }
    } else if i.len() >= 1 && i[0] == NULL_BYTE {
        (TokenKind::Null, 1)
    } else {
        (TokenKind::Literal, literal_end(i, 0))
    }
}

/// The token at the start of a non-empty input covers at least one byte and
/// at most all of them, and it is never invalid.
pub proof fn lemma_token_progress(i: Seq<u8>)
    ensures
        0 <= spec_token(i).1 <= i.len(),
        i.len() > 0 ==> spec_token(i).1 >= 1,
        spec_token(i).0 != TokenKind::Invalid,
{
    if i.len() >= 1 {
        lemma_verb_end_bounds(i, 1);
    }
    lemma_literal_end_bounds(i, 0);
    if i.len() > 0 && !(i[0] == PERCENT_BYTE) && !(i[0] == NULL_BYTE) {
        assert(literal_end(i, 0) == literal_end(i, 1));
        lemma_literal_end_bounds(i, 1);
    }
}

fn is_format_verb(b: u8) -> (r: bool)
    ensures
        r == is_verb_letter(b),
{
    (b >= 0x61 && b <= 0x7a) || (b >= 0x41 && b <= 0x5a)
}

/// The index of the first verb letter in `i` from `start` on, or its length.
fn take_till_verb(i: &[u8], start: usize) -> (r: usize)
    requires
        start <= i@.len(),
    ensures
        r == verb_end(i@, start as int),
{
    let mut k = start;
    while k < i.len() && !is_format_verb(i[k])
        invariant
            start <= k <= i@.len(),
            verb_end(i@, k as int) == verb_end(i@, start as int),
        decreases i@.len() - k,
    {
        k += 1;
    }
    k
}

/// The index of the first `%` or null byte in `i`, or its length.
fn take_till_literal_end(i: &[u8]) -> (r: usize)
    ensures
        r == literal_end(i@, 0),
{
    let mut k: usize = 0;
    while k < i.len() && !(i[k] == PERCENT_BYTE || i[k] == NULL_BYTE)
        invariant
            k <= i@.len(),
            literal_end(i@, k as int) == literal_end(i@, 0),
        decreases i@.len() - k,
    {
        k += 1;
    }
    k
}

/// Splits `i` after its first `n` bytes: the rest, then the first bytes.
fn split_at_len<'a>(i: &'a [u8], n: usize) -> (r: (&'a [u8], &'a [u8]))
    requires
        n <= i@.len(),
    ensures
        r.0@ == i@.subrange(n as int, i@.len() as int),
        r.1@ == i@.subrange(0, n as int),
{
    (vstd::slice::slice_subrange(i, n, i.len()), vstd::slice::slice_subrange(i, 0, n))
}

/// A run of bytes up to the first `%` or null byte, possibly empty.
fn fmt_literal<'a>(i: &'a [u8]) -> (r: (&'a [u8], &'a [u8]))
    ensures
        r.1@ == i@.subrange(0, literal_end(i@, 0)),
        r.0@ == i@.subrange(literal_end(i@, 0), i@.len() as int),
{
    let k = take_till_literal_end(i);
    proof {
        lemma_literal_end_bounds(i@, 0);
    }
    split_at_len(i, k)
}

/// A null byte.
fn fmt_null<'a>(i: &'a [u8]) -> (r: Option<(&'a [u8], &'a [u8])>)
    ensures
        r is Some <==> (i@.len() >= 1 && i@[0] == NULL_BYTE),
        r matches Some(p) ==> p.1@ == i@.subrange(0, 1) && p.0@ == i@.subrange(1, i@.len() as int),
{
    if i.len() >= 1 && i[0] == NULL_BYTE {
        Some(split_at_len(i, 1))
    } else {
        None
    }
}

/// The escaped percent sign `%%`.
fn fmt_percent<'a>(i: &'a [u8]) -> (r: Option<(&'a [u8], &'a [u8])>)
    ensures
        r is Some <==> (i@.len() >= 2 && i@[0] == PERCENT_BYTE && i@[1] == PERCENT_BYTE),
        r matches Some(p) ==> p.1@ == i@.subrange(0, 2) && p.0@ == i@.subrange(2, i@.len() as int),
{
    if i.len() >= 2 && i[0] == PERCENT_BYTE && i[1] == PERCENT_BYTE {
        Some(split_at_len(i, 2))
    } else {
        None
    }
}

/// `%`, then anything up to a verb letter, then that letter.
fn fmt_verb<'a>(i: &'a [u8]) -> (r: Option<(&'a [u8], &'a [u8])>)
    ensures
        r is Some <==> (i@.len() >= 1 && i@[0] == PERCENT_BYTE && verb_end(i@, 1) < i@.len()),
        r matches Some(p) ==> p.1@ == i@.subrange(0, verb_end(i@, 1) + 1) && p.0@ == i@.subrange(
            verb_end(i@, 1) + 1,
            i@.len() as int,
        ),
{
    if i.len() >= 1 && i[0] == PERCENT_BYTE {
        let j = take_till_verb(i, 1);
        proof {
            lemma_verb_end_bounds(i@, 1);
        }
        if j < i.len() {
            return Some(split_at_len(i, j + 1));
        }
    }
    None
}

/// `%`, then anything up to a verb letter or the end of the input.
fn fmt_verb_unterminated<'a>(i: &'a [u8]) -> (r: Option<(&'a [u8], &'a [u8])>)
    ensures
        r is Some <==> (i@.len() >= 1 && i@[0] == PERCENT_BYTE),
        r matches Some(p) ==> p.1@ == i@.subrange(0, verb_end(i@, 1)) && p.0@ == i@.subrange(
            verb_end(i@, 1),
            i@.len() as int,
        ),
{
    if i.len() >= 1 && i[0] == PERCENT_BYTE {
        let j = take_till_verb(i, 1);
        proof {
            lemma_verb_end_bounds(i@, 1);
        }
        Some(split_at_len(i, j))
    } else {
        None
    }
}

/// Splits the first token off `i`: returns the rest of the input and the
/// token, which covers the bytes before it.
pub fn fmt_token<'a>(i: &'a [u8]) -> (r: (&'a [u8], Token<'a>))
    ensures
        r.1.spec_kind() == spec_token(i@).0,
        r.1.spec_bytes() == i@.subrange(0, spec_token(i@).1),
        r.0@ == i@.subrange(spec_token(i@).1, i@.len() as int),
{
    proof {
        lemma_token_progress(i@);
    }
    if let Some((rest, bytes)) = fmt_percent(i) {
        return (rest, Token::Percent(bytes));
    }
    if let Some((rest, bytes)) = fmt_verb(i) {
        return (rest, Token::Verb(bytes));
    }
    if let Some((rest, bytes)) = fmt_verb_unterminated(i) {
        proof {
            lemma_verb_end_bounds(i@, 1);
        }
        return (rest, Token::Unterminated(bytes));
    }
    if let Some((rest, bytes)) = fmt_null(i) {
        return (rest, Token::Null(bytes));
    }
    let (rest, bytes) = fmt_literal(i);
    (rest, Token::Literal(bytes))
}

/// Returns the first token of `input` and the rest of the input after it.
pub fn next_token<'a>(input: &'a [u8]) -> (r: (Token<'a>, &'a [u8]))
    ensures
        r.0.spec_kind() == spec_token(input@).0,
        r.0.spec_bytes() == input@.subrange(0, spec_token(input@).1),
        r.1@ == input@.subrange(spec_token(input@).1, input@.len() as int),
{
    let (remain, token) = fmt_token(input);
    (token, remain)
}

/// The types of value that a message argument carries.
#[derive(Debug, PartialEq, Eq, Clone, Copy)]
pub enum ArgKind {
    Int,
    UInt,
    Char,
    String,
}

/// The argument type that a verb letter formats: `d` and `i` format signed
/// integers; `u`, `o`, `x` and `X` unsigned ones; `c` a character; `s` a
/// string in EVE memory.
pub open spec fn spec_verb_kind(letter: u8) -> Option<ArgKind> {
    if letter == 0x64 || letter == 0x69 {
        Some(ArgKind::Int)
    } else if letter == 0x75 || letter == 0x6f || letter == 0x78 || letter == 0x58 {
        Some(ArgKind::UInt)
    } else if letter == 0x63 {
        Some(ArgKind::Char)
    } else if letter == 0x73 {
        Some(ArgKind::String)
    } else {
        None
    }
}

/// The verbs take the argument types that `printf` gives them: the signed
/// conversions `d` and `i` take a signed integer, the unsigned conversions
/// `u`, `o`, `x` and `X` an unsigned one, `c` a character and `s` a string;
/// no other letter is a verb.
pub proof fn lemma_verb_kinds(letter: u8)
    ensures
        spec_verb_kind(letter) == Some(ArgKind::Int) <==> (letter == 'd' as u8 || letter == 'i' as u8),
        spec_verb_kind(letter) == Some(ArgKind::UInt) <==> (letter == 'u' as u8 || letter == 'o' as u8
            || letter == 'x' as u8 || letter == 'X' as u8),
        spec_verb_kind(letter) == Some(ArgKind::Char) <==> letter == 'c' as u8,
        spec_verb_kind(letter) == Some(ArgKind::String) <==> letter == 's' as u8,
        spec_verb_kind(letter) is None <==> !(letter == 'd' as u8 || letter == 'i' as u8 || letter == 'u' as u8
            || letter == 'o' as u8 || letter == 'x' as u8 || letter == 'X' as u8 || letter == 'c' as u8
            || letter == 's' as u8),
{
}

/// Returns the argument type that the verb letter formats, if the letter is
/// supported.
pub fn verb_kind(letter: u8) -> (r: Option<ArgKind>)
    ensures
        r == spec_verb_kind(letter),
{
    if letter == 0x64 || letter == 0x69 {
        Some(ArgKind::Int)
    } else if letter == 0x75 || letter == 0x6f || letter == 0x78 || letter == 0x58 {
        Some(ArgKind::UInt)
    } else if letter == 0x63 {
        Some(ArgKind::Char)
    } else if letter == 0x73 {
        Some(ArgKind::String)
    } else {
        None
    }
}

/// One argument of a planned message.
#[derive(Debug, PartialEq, Eq, Clone, Copy)]
pub enum PlannedArg {
    /// The given argument with this index, as a value of this type.
    Given(ArgKind, usize),
    /// An unsigned zero, printed with `%c`, standing for a null byte of the
    /// format string.
    NullChar,
}

/// Why a format string and its arguments do not make a message.
#[derive(Debug, PartialEq, Eq, Clone, Copy)]
pub enum FormatError {
    /// The verb with this zero-based index has no argument.
    MissingArgument(usize),
    /// A verb ends in this letter, which has no argument type.
    UnsupportedVerb(u8),
    /// A `%` has no verb letter after it.
    Unterminated,
    /// The format string holds bytes that form no token.
    Invalid,
    /// The arguments from this index on have no verb.
    TooManyArguments(usize),
}

/// The message that a format string becomes.
#[derive(Debug, PartialEq, Eq)]
pub struct FormatPlan {
    /// The format string for the coprocessor, null-terminated, in which each
    /// null byte of the original is replaced by `%c`.
    pub format_chars: Vec<u8>,
    /// The arguments, in order.
    pub args: Vec<PlannedArg>,
    /// Whether the coprocessor has to format the message; if not, it is a
    /// literal.
    pub needs_fmt: bool,
}

/// The result of planning the remaining format string `rem` with the given
/// arguments from index `next_arg` on unused: the format string bytes, the
/// arguments and whether formatting is needed, and the index of the first
/// argument left unused; or the first error, from left to right.
pub open spec fn spec_plan_tokens(rem: Seq<u8>, next_arg: nat, n_args: nat) -> Result<(Seq<u8>, Seq<PlannedArg>, bool, nat), FormatError>
    decreases rem.len(),
{
    if rem.len() == 0 {
        Ok((Seq::empty(), Seq::empty(), false, next_arg))
    } else {
        let (kind, n) = spec_token(rem);
        proof {
            lemma_token_progress(rem);
        }
        let bytes = rem.subrange(0, n);
        let rest = rem.subrange(n, rem.len() as int);
        match kind {
            TokenKind::Literal => prepend_plan(bytes, Seq::empty(), false, spec_plan_tokens(rest, next_arg, n_args)),
            TokenKind::Verb => {
                if next_arg >= n_args {
                    Err(FormatError::MissingArgument(next_arg as usize))
                } else {
                    match spec_verb_kind(bytes.last()) {
                        Some(k) => prepend_plan(
                            bytes,
                            seq![PlannedArg::Given(k, next_arg as usize)],
                            true,
                            spec_plan_tokens(rest, next_arg + 1, n_args),
                        ),
                        None => Err(FormatError::UnsupportedVerb(bytes.last())),
                    }
                }
            },
            TokenKind::Percent => prepend_plan(bytes, Seq::empty(), true, spec_plan_tokens(rest, next_arg, n_args)),
            TokenKind::Null => prepend_plan(
                seq![PERCENT_BYTE, 0x63u8],
                seq![PlannedArg::NullChar],
                true,
                spec_plan_tokens(rest, next_arg, n_args),
            ),
            TokenKind::Unterminated => Err(FormatError::Unterminated),
            TokenKind::Invalid => Err(FormatError::Invalid),
        }
    }
}

/// A plan that starts with the given bytes and arguments, followed by the
/// plan `r`, or the error of `r`.
pub open spec fn prepend_plan(
    chars: Seq<u8>,
    args: Seq<PlannedArg>,
    needs_fmt: bool,
    r: Result<(Seq<u8>, Seq<PlannedArg>, bool, nat), FormatError>,
) -> Result<(Seq<u8>, Seq<PlannedArg>, bool, nat), FormatError> {
    match r {
        Ok((c, a, f, used)) => Ok((chars + c, args + a, needs_fmt || f, used)),
        Err(e) => Err(e),
    }
}

/// Prepending twice is prepending the concatenation.
pub proof fn lemma_prepend_plan_twice(
    c1: Seq<u8>,
    a1: Seq<PlannedArg>,
    f1: bool,
    c2: Seq<u8>,
    a2: Seq<PlannedArg>,
    f2: bool,
    r: Result<(Seq<u8>, Seq<PlannedArg>, bool, nat), FormatError>,
)
    ensures
        prepend_plan(c1, a1, f1, prepend_plan(c2, a2, f2, r)) == prepend_plan(c1 + c2, a1 + a2, f1 || f2, r),
{
    match r {
        Ok((c, a, f, used)) => {
            assert(c1 + (c2 + c) =~= (c1 + c2) + c);
            assert(a1 + (a2 + a) =~= (a1 + a2) + a);
        },
        Err(e) => {},
    }
}

/// The message that the format string `fmt` with `n_args` arguments
/// becomes: the planned tokens, a null byte at the end of the format
/// string, and no argument left over.
pub open spec fn spec_plan_format(fmt: Seq<u8>, n_args: nat) -> Result<(Seq<u8>, Seq<PlannedArg>, bool), FormatError> {
    match spec_plan_tokens(fmt, 0, n_args) {
        Ok((chars, args, needs_fmt, used)) => {
            if used < n_args {
                Err(FormatError::TooManyArguments(used as usize))
            } else {
                Ok((chars.push(0), args, needs_fmt))
            }
        },
        Err(e) => Err(e),
    }
}

/// Appends `bytes` to `v`.
fn push_all(v: &mut Vec<u8>, bytes: &[u8])
    ensures
        final(v)@ == old(v)@ + bytes@,
{
    let mut k: usize = 0;
    while k < bytes.len()
        invariant
            k <= bytes@.len(),
            v@ == old(v)@ + bytes@.subrange(0, k as int),
        decreases bytes@.len() - k,
    {
        v.push(bytes[k]);
        k += 1;
        assert(v@ =~= old(v)@ + bytes@.subrange(0, k as int));
    }
    assert(bytes@.subrange(0, bytes@.len() as int) =~= bytes@);
}

/// Plans the message that the format string `fmt` with `n_args` arguments
/// becomes, checking that every verb has an argument of a supported type and
/// that every argument has a verb.
pub fn plan_format(fmt: &[u8], n_args: usize) -> (r: Result<FormatPlan, FormatError>)
    ensures
        match spec_plan_format(fmt@, n_args as nat) {
            Ok((chars, args, needs_fmt)) => r matches Ok(p) && p.format_chars@ == chars && p.args@ == args
                && p.needs_fmt == needs_fmt,
            Err(e) => r == Err::<FormatPlan, FormatError>(e),
        },
{
    let mut format_chars: Vec<u8> = Vec::new();
    let mut args: Vec<PlannedArg> = Vec::new();
    let mut remain = fmt;
    let mut next_arg: usize = 0;
    let mut needs_fmt = false;
    while remain.len() > 0
        invariant
            next_arg <= n_args,
            spec_plan_tokens(fmt@, 0, n_args as nat) == prepend_plan(
                format_chars@,
                args@,
                needs_fmt,
                spec_plan_tokens(remain@, next_arg as nat, n_args as nat),
            ),
        decreases remain@.len(),
    {
        let ghost rem = remain@;
        let (token, next) = next_token(remain);
        proof {
            lemma_token_progress(rem);
        }
        let ghost n = spec_token(rem).1;
        let ghost rest_plan = spec_plan_tokens(next@, next_arg as nat, n_args as nat);
        remain = next;
        match token {
            Token::Literal(bytes) => {
                proof {
                    lemma_prepend_plan_twice(format_chars@, args@, needs_fmt, bytes@, Seq::empty(), false, rest_plan);
                    assert(args@ + Seq::<PlannedArg>::empty() =~= args@);
                }
                push_all(&mut format_chars, bytes);
            },
            Token::Verb(bytes) => {
                if next_arg >= n_args {
                    return Err(FormatError::MissingArgument(next_arg));
                }
                // The token always ends in the verb letter, which selects the
                // argument type.
                let mode = bytes[bytes.len() - 1];
                match verb_kind(mode) {
                    Some(kind) => {
                        let ghost next_plan = spec_plan_tokens(next@, (next_arg + 1) as nat, n_args as nat);
                        proof {
                            lemma_prepend_plan_twice(
                                format_chars@,
                                args@,
                                needs_fmt,
                                bytes@,
                                seq![PlannedArg::Given(kind, next_arg)],
                                true,
                                next_plan,
                            );
                        }
                        let ghost before_args = args@;
                        needs_fmt = true;
                        push_all(&mut format_chars, bytes);
                        args.push(PlannedArg::Given(kind, next_arg));
                        assert(args@ =~= before_args + seq![PlannedArg::Given(kind, next_arg)]);
                        next_arg += 1;
                    },
                    None => {
                        return Err(FormatError::UnsupportedVerb(mode));
                    },
                }
            },
            Token::Percent(bytes) => {
                proof {
                    lemma_prepend_plan_twice(format_chars@, args@, needs_fmt, bytes@, Seq::empty(), true, rest_plan);
                    assert(args@ + Seq::<PlannedArg>::empty() =~= args@);
                }
                needs_fmt = true;
                push_all(&mut format_chars, bytes);
            },
            Token::Null(_) => {
                // EVE's coprocessor considers a literal null to be a string
                // terminator, so we'll encode it instead as a format sequence
                // that inserts the null character in order to avoid producing
                // an invalid message.
                proof {
                    lemma_prepend_plan_twice(
                        format_chars@,
                        args@,
                        needs_fmt,
                        seq![PERCENT_BYTE, 0x63u8],
                        seq![PlannedArg::NullChar],
                        true,
                        rest_plan,
                    );
                }
                let ghost before_chars = format_chars@;
                let ghost before_args = args@;
                needs_fmt = true;
                format_chars.push(PERCENT_BYTE);
                format_chars.push(0x63);
                args.push(PlannedArg::NullChar);
                assert(format_chars@ =~= before_chars + seq![PERCENT_BYTE, 0x63u8]);
                assert(args@ =~= before_args + seq![PlannedArg::NullChar]);
            },
            Token::Unterminated(_) => {
                return Err(FormatError::Unterminated);
            },
            Token::Invalid(_) => {
                return Err(FormatError::Invalid);
            },
        }
    }
    assert(spec_plan_tokens(remain@, next_arg as nat, n_args as nat) == Ok::<(Seq<u8>, Seq<PlannedArg>, bool, nat), FormatError>((Seq::empty(), Seq::empty(), false, next_arg as nat)));
    assert(format_chars@ + Seq::<u8>::empty() =~= format_chars@);
    assert(args@ + Seq::<PlannedArg>::empty() =~= args@);
    if next_arg < n_args {
        return Err(FormatError::TooManyArguments(next_arg));
    }
    // EVE expects format strings to be null-terminated.
    format_chars.push(0);
    Ok(FormatPlan { format_chars: format_chars, args: args, needs_fmt: needs_fmt })
}


/// The indices of the given arguments that the planned arguments take, in
/// order.
pub open spec fn given_indices(args: Seq<PlannedArg>) -> Seq<usize>
    decreases args.len(),
{
    if args.len() == 0 {
        Seq::empty()
    } else {
        match args[0] {
            PlannedArg::Given(_, i) => seq![i] + given_indices(args.drop_first()),
            PlannedArg::NullChar => given_indices(args.drop_first()),
        }
    }
}

/// The indices from `lo` up to but not including `hi`.
pub open spec fn index_range(lo: nat, hi: nat) -> Seq<usize> {
    Seq::new((hi - lo) as nat, |i: int| (lo + i) as usize)
}

proof fn lemma_plan_tokens_args(rem: Seq<u8>, next_arg: nat, n_args: nat)
    requires
        next_arg <= n_args <= usize::MAX,
    ensures
        spec_plan_tokens(rem, next_arg, n_args) matches Ok((c, a, f, used)) ==> {
            &&& next_arg <= used <= n_args
            &&& given_indices(a) == index_range(next_arg, used)
            &&& !f ==> a.len() == 0 && c == rem && used == next_arg
        },
    decreases rem.len(),
{
    if rem.len() == 0 {
        assert(index_range(next_arg, next_arg) =~= Seq::<usize>::empty());
    } else {
        lemma_token_progress(rem);
        let (kind, n) = spec_token(rem);
        let bytes = rem.subrange(0, n);
        let rest = rem.subrange(n, rem.len() as int);
        assert(bytes + rest =~= rem);
        match kind {
            TokenKind::Literal => {
                lemma_plan_tokens_args(rest, next_arg, n_args);
                if let Ok((c2, a2, f2, u)) = spec_plan_tokens(rest, next_arg, n_args) {
                    assert(Seq::<PlannedArg>::empty() + a2 =~= a2);
                }
            },
            TokenKind::Verb => {
                if next_arg < n_args {
                    lemma_plan_tokens_args(rest, next_arg + 1, n_args);
                    if let (Some(k), Ok((c2, a2, f2, u))) = (
                        spec_verb_kind(bytes.last()),
                        spec_plan_tokens(rest, next_arg + 1, n_args),
                    ) {
                        let a = seq![PlannedArg::Given(k, next_arg as usize)] + a2;
                        assert(a.drop_first() =~= a2);
                        assert(given_indices(a) == seq![next_arg as usize] + given_indices(a2));
                        assert(seq![next_arg as usize] + index_range(next_arg + 1, u) =~= index_range(next_arg, u));
                    }
                }
            },
            TokenKind::Percent => {
                lemma_plan_tokens_args(rest, next_arg, n_args);
                if let Ok((c2, a2, f2, u)) = spec_plan_tokens(rest, next_arg, n_args) {
                    assert(Seq::<PlannedArg>::empty() + a2 =~= a2);
                }
            },
            TokenKind::Null => {
                lemma_plan_tokens_args(rest, next_arg, n_args);
                if let Ok((c2, a2, f2, u)) = spec_plan_tokens(rest, next_arg, n_args) {
                    let a = seq![PlannedArg::NullChar] + a2;
                    assert(a.drop_first() =~= a2);
                }
            },
            _ => {},
        }
    }
}

/// A format string that makes a message takes every given argument exactly
/// once, in order; and a message that needs no formatting has no arguments
/// and is the format string itself, null-terminated.
pub proof fn lemma_plan_uses_arguments_in_order(fmt: Seq<u8>, n_args: nat)
    requires
        n_args <= usize::MAX,
    ensures
        spec_plan_format(fmt, n_args) matches Ok((c, a, f)) ==> {
            &&& given_indices(a) == index_range(0, n_args)
            &&& !f ==> a.len() == 0 && c == fmt.push(0)
        },
{
    lemma_plan_tokens_args(fmt, 0, n_args);
}

} // verus!
