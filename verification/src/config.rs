//! Command-line configuration: splitting the raw command line into
//! arguments, and parsing the arguments into thresholds and the logging
//! keyword.
//!
//! The arguments are positional numbers, one per button (left, right,
//! middle, in that order, in milliseconds), mixed with the case-insensitive
//! keyword `logging` which enables diagnostics. Any other argument is a
//! configuration error, as is a fourth number. Arguments are handled left to
//! right and handling stops at the first error, so the keyword takes effect
//! even when a later argument is rejected.

use vstd::prelude::*;

use crate::engine::Thresholds;

verus! {

/// The byte sequences of a sequence of owned byte vectors.
pub open spec fn arg_views(args: Seq<Vec<u8>>) -> Seq<Seq<u8>> {
    args.map_values(|a: Vec<u8>| a@)
}

/// ASCII whitespace: space and the five control characters tab through
/// carriage return.
pub open spec fn is_ascii_space(b: u8) -> bool {
    b == 0x20 || (0x09 <= b && b <= 0x0D)
}

/// An upper-case ASCII letter lowered; every other byte unchanged.
pub open spec fn ascii_lower(b: u8) -> u8 {
    if 0x41 <= b && b <= 0x5A {
        (b + 0x20) as u8
    } else {
        b
    }
}

/// The sequence without its leading ASCII whitespace.
pub open spec fn spec_trim_front(s: Seq<u8>) -> Seq<u8>
    decreases s.len(),
{
    if s.len() > 0 && is_ascii_space(s[0]) {
        spec_trim_front(s.drop_first())
    } else {
        s
    }
}

/// The sequence without its trailing ASCII whitespace.
pub open spec fn spec_trim_back(s: Seq<u8>) -> Seq<u8>
    decreases s.len(),
{
    if s.len() > 0 && is_ascii_space(s.last()) {
        spec_trim_back(s.drop_last())
    } else {
        s
    }
}

/// The sequence without surrounding ASCII whitespace.
pub open spec fn spec_trim(s: Seq<u8>) -> Seq<u8> {
    spec_trim_back(spec_trim_front(s))
}

/// The bytes of the keyword `logging`, lower case.
pub open spec fn spec_logging_keyword() -> Seq<u8> {
    seq![0x6Cu8, 0x6Fu8, 0x67u8, 0x67u8, 0x69u8, 0x6Eu8, 0x67u8]
}

/// Whether the argument, with surrounding ASCII whitespace removed and
/// ASCII case ignored, is the keyword `logging`.
pub open spec fn is_logging_keyword(s: Seq<u8>) -> bool {
    spec_trim(s).map_values(|b: u8| ascii_lower(b)) == spec_logging_keyword()
}

/// Whether the byte is a decimal digit.
pub open spec fn spec_is_digit(b: u8) -> bool {
    0x30 <= b && b <= 0x39
}

/// Whether every byte is a decimal digit.
pub open spec fn spec_all_digits(s: Seq<u8>) -> bool {
    forall|k: int| 0 <= k < s.len() ==> spec_is_digit(#[trigger] s[k])
}

/// The numeric value of a run of decimal digits, most significant first.
pub open spec fn spec_digits_value(s: Seq<u8>) -> nat
    decreases s.len(),
{
    if s.len() == 0 {
        0
    } else {
        (spec_digits_value(s.drop_last()) * 10 + (s.last() - 0x30)) as nat
    }
}

/// The exact unsigned decimal parse: an optional leading `+`, then at least
/// one digit and nothing else, and a value that fits the threshold type.
pub open spec fn spec_parse_u32(s: Seq<u8>) -> Option<u32> {
    let body = if s.len() > 0 && s[0] == 0x2B {
        s.drop_first()
    } else {
        s
    };
    if body.len() > 0 && spec_all_digits(body) && spec_digits_value(body) <= u32::MAX {
        Some(spec_digits_value(body) as u32)
    } else {
        None
    }
}

/// The value of a prefix of a digit run never exceeds the value of the whole
/// run.
proof fn lemma_digits_value_take_le(s: Seq<u8>, k: int)
    requires
        0 <= k <= s.len(),
        spec_all_digits(s),
    ensures
        spec_digits_value(s.take(k)) <= spec_digits_value(s),
    decreases s.len() - k,
{
    if k < s.len() {
        assert(s.take(k + 1).drop_last() =~= s.take(k));
        assert(s.take(k + 1).last() == s[k]);
        lemma_digits_value_take_le(s, k + 1);
    } else {
        assert(s.take(k) =~= s);
    }
}

/// Whether the byte is ASCII whitespace.
fn space_byte(b: u8) -> (r: bool)
    ensures
        r == is_ascii_space(b),
{
    b == 0x20 || (0x09 <= b && b <= 0x0D)
}

/// The byte with an upper-case ASCII letter lowered.
fn lower_byte(b: u8) -> (r: u8)
    ensures
        r == ascii_lower(b),
{
    if 0x41 <= b && b <= 0x5A {
        b + 0x20
    } else {
        b
    }
}

/// One byte of the keyword `logging`.
fn keyword_byte(k: usize) -> (r: u8)
    requires
        k < 7,
    ensures
        r == spec_logging_keyword()[k as int],
{
    if k == 0 {
        0x6C
    } else if k == 1 {
        0x6F
    } else if k == 2 {
        0x67
    } else if k == 3 {
        0x67
    } else if k == 4 {
        0x69
    } else if k == 5 {
        0x6E
    } else {
        0x67
    }
}

/// Whether the argument is the logging keyword, ignoring surrounding ASCII
/// whitespace and ASCII case.
pub fn is_logging_arg(arg: &Vec<u8>) -> (r: bool)
    ensures
        r == is_logging_keyword(arg@),
{
    let n = arg.len();
    let mut lo: usize = 0;
    proof {
        assert(arg@.skip(0) =~= arg@);
    }
    while lo < n && space_byte(arg[lo])
        invariant
            lo <= n,
            n == arg@.len(),
            spec_trim_front(arg@) == spec_trim_front(arg@.skip(lo as int)),
        decreases n - lo,
    {
        proof {
            assert(arg@.skip(lo as int).drop_first() =~= arg@.skip(lo + 1));
        }
        lo = lo + 1;
    }
    proof {
        assert(spec_trim_front(arg@) == arg@.skip(lo as int));
        assert(arg@.skip(lo as int) =~= arg@.subrange(lo as int, n as int));
    }
    let mut hi: usize = n;
    while hi > lo && space_byte(arg[hi - 1])
        invariant
            lo <= hi <= n,
            n == arg@.len(),
            spec_trim_front(arg@) == arg@.skip(lo as int),
            spec_trim(arg@) == spec_trim_back(arg@.subrange(lo as int, hi as int)),
        decreases hi,
    {
        proof {
            assert(arg@.subrange(lo as int, hi as int).drop_last() =~= arg@.subrange(
                lo as int,
                hi - 1,
            ));
        }
        hi = hi - 1;
    }
    proof {
        assert(spec_trim(arg@) == arg@.subrange(lo as int, hi as int));
    }
    let ghost trimmed = arg@.subrange(lo as int, hi as int);
    let ghost lowered = trimmed.map_values(|b: u8| ascii_lower(b));
    if hi - lo != 7 {
        proof {
            assert(lowered.len() != spec_logging_keyword().len());
        }
        return false;
    }
    let mut k: usize = 0;
    while k < 7
        invariant
            k <= 7,
            lo + 7 == hi <= n,
            n == arg@.len(),
            trimmed == arg@.subrange(lo as int, hi as int),
            lowered == trimmed.map_values(|b: u8| ascii_lower(b)),
            spec_trim(arg@) == trimmed,
            forall|j: int| 0 <= j < k ==> lowered[j] == spec_logging_keyword()[j],
        decreases 7 - k,
    {
        let expected = keyword_byte(k);
        let actual = lower_byte(arg[lo + k]);
        proof {
            assert(trimmed[k as int] == arg@[lo + k]);
            assert(lowered[k as int] == ascii_lower(arg@[lo + k]));
        }
        if actual != expected {
            proof {
                assert(lowered[k as int] != spec_logging_keyword()[k as int]);
            }
            return false;
        }
        k = k + 1;
    }
    proof {
        assert(lowered =~= spec_logging_keyword());
    }
    true
}

/// Parses an argument as an unsigned decimal number, exactly as
/// [`spec_parse_u32`] describes: an optional leading `+`, at least one
/// digit, nothing else, and no overflow.
pub fn parse_u32_arg(arg: &Vec<u8>) -> (r: Option<u32>)
    ensures
        r == spec_parse_u32(arg@),
{
    let n = arg.len();
    let start: usize = if n > 0 && arg[0] == 0x2B {
        1
    } else {
        0
    };
    let ghost body = if arg@.len() > 0 && arg@[0] == 0x2B {
        arg@.drop_first()
    } else {
        arg@
    };
    proof {
        assert(body =~= arg@.subrange(start as int, n as int));
    }
    if n == start {
        return None;
    }
    let mut acc: u32 = 0;
    let mut i: usize = start;
    proof {
        assert(body.take(0) =~= Seq::<u8>::empty());
    }
    while i < n
        invariant
            start <= i <= n,
            n == arg@.len(),
            start == (if arg@.len() > 0 && arg@[0] == 0x2B {
                1int
            } else {
                0int
            }),
            body == (if arg@.len() > 0 && arg@[0] == 0x2B {
                arg@.drop_first()
            } else {
                arg@
            }),
            body == arg@.subrange(start as int, n as int),
            body.len() == n - start,
            forall|j: int| 0 <= j < i - start ==> spec_is_digit(#[trigger] body[j]),
            acc == spec_digits_value(body.take(i - start)),
        decreases n - i,
    {
        let b = arg[i];
        proof {
            assert(body[i - start] == arg@[i as int]);
        }
        if !(0x30 <= b && b <= 0x39) {
            proof {
                assert(!spec_is_digit(body[i - start]));
                assert(!spec_all_digits(body));
            }
            return None;
        }
        let d: u32 = (b - 0x30) as u32;
        let wide: u64 = acc as u64 * 10 + d as u64;
        proof {
            assert(body.take(i - start + 1).drop_last() =~= body.take(i - start));
            assert(body.take(i - start + 1).last() == body[i - start]);
            assert(wide == spec_digits_value(body.take(i - start + 1)));
        }
        if wide > u32::MAX as u64 {
            proof {
                if spec_all_digits(body) {
                    lemma_digits_value_take_le(body, i - start + 1);
                    assert(spec_digits_value(body) > u32::MAX);
                }
            }
            return None;
        }
        acc = wide as u32;
        i = i + 1;
    }
    proof {
        assert(body.take(n - start) =~= body);
    }
    Some(acc)
}

/// The configuration the command line yields: the three thresholds and
/// whether logging is enabled.
#[derive(Clone, Copy, Debug, PartialEq, Eq, Structural)]
pub struct ProgramConfig {
    pub thresholds: Thresholds,
    pub logging: bool,
}

/// A configuration error; the process must exit with the configuration
/// failure status after reporting it.
#[derive(Clone, Copy, Debug, PartialEq, Eq, Structural)]
pub enum ConfigError {
    /// The argument at this position (counted from one) is neither the
    /// logging keyword nor an unsigned number.
    InvalidArgument { position: usize },
    /// A fourth number was given; there are only three buttons. The value
    /// carried is the rejected number.
    TooManyArguments { value: u32 },
}

/// How the arguments from position `i` onward refine the configuration
/// `acc`, with `numeric` numbers already consumed: the keyword turns logging
/// on, the first three numbers set the left, right and middle thresholds,
/// and handling stops at the first unparsable argument or fourth number.
pub open spec fn spec_parse_args_from(
    args: Seq<Seq<u8>>,
    i: int,
    acc: ProgramConfig,
    numeric: int,
) -> Result<ProgramConfig, ConfigError>
    decreases args.len() - i,
{
    if i >= args.len() {
        Ok(acc)
    } else if is_logging_keyword(args[i]) {
        spec_parse_args_from(
            args,
            i + 1,
            ProgramConfig { thresholds: acc.thresholds, logging: true },
            numeric,
        )
    } else {
        match spec_parse_u32(args[i]) {
            Option::None => Err(ConfigError::InvalidArgument { position: (i + 1) as usize }),
            Option::Some(v) => if numeric == 0 {
                spec_parse_args_from(
                    args,
                    i + 1,
                    ProgramConfig {
                        thresholds: Thresholds {
                            left: v,
                            right: acc.thresholds.right,
                            middle: acc.thresholds.middle,
                        },
                        logging: acc.logging,
                    },
                    1,
                )
            } else if numeric == 1 {
                spec_parse_args_from(
                    args,
                    i + 1,
                    ProgramConfig {
                        thresholds: Thresholds {
                            left: acc.thresholds.left,
                            right: v,
                            middle: acc.thresholds.middle,
                        },
                        logging: acc.logging,
                    },
                    2,
                )
            } else if numeric == 2 {
                spec_parse_args_from(
                    args,
                    i + 1,
                    ProgramConfig {
                        thresholds: Thresholds {
                            left: acc.thresholds.left,
                            right: acc.thresholds.right,
                            middle: v,
                        },
                        logging: acc.logging,
                    },
                    3,
                )
            } else {
                Err(ConfigError::TooManyArguments { value: v })
            },
        }
    }
}

/// What the whole argument list yields, starting from the given thresholds
/// and logging state.
pub open spec fn spec_parse_args(
    args: Seq<Seq<u8>>,
    defaults: Thresholds,
    logging: bool,
) -> Result<ProgramConfig, ConfigError> {
    spec_parse_args_from(args, 0, ProgramConfig { thresholds: defaults, logging }, 0)
}

/// Parses the argument list into a configuration, starting from the given
/// thresholds and the already-established logging state.
///
/// Arguments are handled left to right: the keyword `logging` (any ASCII
/// case, surrounding whitespace ignored) turns logging on, the first three
/// numbers set the left, right and middle thresholds in milliseconds, and
/// the result is an error exactly when an argument is neither keyword nor
/// number — naming its position — or a fourth number arrives — naming its
/// value.
pub fn parse_and_save_args(args: &Vec<Vec<u8>>, defaults: Thresholds, logging: bool) -> (r: Result<
    ProgramConfig,
    ConfigError,
>)
    ensures
        r == spec_parse_args(arg_views(args@), defaults, logging),
{
    let ghost aview = arg_views(args@);
    let mut cfg = ProgramConfig { thresholds: defaults, logging };
    let mut numeric: usize = 0;
    let mut i: usize = 0;
    while i < args.len()
        invariant
            i <= args.len(),
            aview == arg_views(args@),
            aview.len() == args@.len(),
            numeric <= 3,
            spec_parse_args(aview, defaults, logging) == spec_parse_args_from(
                aview,
                i as int,
                cfg,
                numeric as int,
            ),
        decreases args.len() - i,
    {
        let arg = &args[i];
        proof {
            assert(aview[i as int] == args@[i as int]@);
        }
        if is_logging_arg(arg) {
            cfg.logging = true;
        } else {
            match parse_u32_arg(arg) {
                Option::None => {
                    return Err(ConfigError::InvalidArgument { position: i + 1 });
                },
                Option::Some(v) => {
                    if numeric == 0 {
                        cfg.thresholds.left = v;
                        numeric = 1;
                    } else if numeric == 1 {
                        cfg.thresholds.right = v;
                        numeric = 2;
                    } else if numeric == 2 {
                        cfg.thresholds.middle = v;
                        numeric = 3;
                    } else {
                        return Err(ConfigError::TooManyArguments { value: v });
                    }
                },
            }
        }
        i = i + 1;
    }
    Ok(cfg)
}

/// The index of the first space at or after `from`, or the length when
/// there is none.
pub open spec fn spec_find_space(s: Seq<u8>, from: int) -> int
    decreases s.len() - from,
{
    if from >= s.len() {
        s.len() as int
    } else if s[from] == 0x20 {
        from
    } else {
        spec_find_space(s, from + 1)
    }
}

/// The found index never precedes the starting point.
proof fn lemma_find_space_ge(s: Seq<u8>, from: int)
    requires
        0 <= from <= s.len(),
    ensures
        spec_find_space(s, from) >= from,
    decreases s.len() - from,
{
    if from < s.len() && s[from] != 0x20 {
        lemma_find_space_ge(s, from + 1);
    }
}

/// Where the first space sits, given the bytes before it are not spaces.
proof fn lemma_find_space_value(s: Seq<u8>, from: int, k: int)
    requires
        0 <= from <= k <= s.len(),
        forall|j: int| from <= j < k ==> s[j] != 0x20,
        k < s.len() ==> s[k] == 0x20,
    ensures
        spec_find_space(s, from) == if k < s.len() {
            k
        } else {
            s.len() as int
        },
    decreases k - from,
{
    if from < k {
        lemma_find_space_value(s, from + 1, k);
    }
}

/// The pieces between the spaces, spaces excluded; empty pieces are kept.
pub open spec fn spec_split_spaces(s: Seq<u8>) -> Seq<Seq<u8>>
    decreases s.len(),
    via spec_split_spaces_decreases
{
    let k = spec_find_space(s, 0);
    if k >= s.len() {
        seq![s]
    } else {
        seq![s.take(k)] + spec_split_spaces(s.skip(k + 1))
    }
}

#[via_fn]
proof fn spec_split_spaces_decreases(s: Seq<u8>) {
    lemma_find_space_ge(s, 0);
}

/// The sequence with its empty pieces removed.
pub open spec fn spec_drop_empty(pieces: Seq<Seq<u8>>) -> Seq<Seq<u8>>
    decreases pieces.len(),
{
    if pieces.len() == 0 {
        Seq::empty()
    } else {
        let prev = spec_drop_empty(pieces.drop_last());
        if pieces.last().len() > 0 {
            prev.push(pieces.last())
        } else {
            prev
        }
    }
}

/// Removing empty pieces distributes over concatenation.
proof fn lemma_drop_empty_concat(a: Seq<Seq<u8>>, b: Seq<Seq<u8>>)
    ensures
        spec_drop_empty(a + b) == spec_drop_empty(a) + spec_drop_empty(b),
    decreases b.len(),
{
    if b.len() == 0 {
        assert(a + b =~= a);
        assert(spec_drop_empty(a) + spec_drop_empty(b) =~= spec_drop_empty(a));
    } else {
        lemma_drop_empty_concat(a, b.drop_last());
        assert((a + b).drop_last() =~= a + b.drop_last());
        assert((a + b).last() == b.last());
        if b.last().len() > 0 {
            assert(spec_drop_empty(a) + spec_drop_empty(b) =~= (spec_drop_empty(a)
                + spec_drop_empty(b.drop_last())).push(b.last()));
        }
    }
}

/// The index just past the program name at the head of a raw command line:
/// a quoted name runs to its closing quote, an unquoted one to the first
/// space or tab, and one further byte — the terminator itself — is skipped
/// when present.
pub open spec fn spec_scan_until_quote(s: Seq<u8>, from: int) -> int
    decreases s.len() - from,
{
    if from >= s.len() {
        s.len() as int
    } else if s[from] == 0x22 {
        from
    } else {
        spec_scan_until_quote(s, from + 1)
    }
}

/// The index of the first space or tab at or after `from`, or the length.
pub open spec fn spec_scan_until_blank(s: Seq<u8>, from: int) -> int
    decreases s.len() - from,
{
    if from >= s.len() {
        s.len() as int
    } else if s[from] == 0x20 || s[from] == 0x09 {
        from
    } else {
        spec_scan_until_blank(s, from + 1)
    }
}

/// The index of the first byte at or after `from` that is neither space nor
/// tab, or the length.
pub open spec fn spec_scan_blanks(s: Seq<u8>, from: int) -> int
    decreases s.len() - from,
{
    if from >= s.len() {
        s.len() as int
    } else if s[from] == 0x20 || s[from] == 0x09 {
        spec_scan_blanks(s, from + 1)
    } else {
        from
    }
}

/// The index just past the program name.
pub open spec fn spec_after_program(s: Seq<u8>) -> int {
    let p = if s.len() > 0 && s[0] == 0x22 {
        spec_scan_until_quote(s, 1)
    } else {
        spec_scan_until_blank(s, 0)
    };
    if p + 1 <= s.len() {
        p + 1
    } else {
        s.len() as int
    }
}

/// The index where the arguments begin: past the program name and the
/// blanks that follow it.
pub open spec fn spec_args_begin(s: Seq<u8>) -> int {
    spec_scan_blanks(s, spec_after_program(s))
}

/// The arguments of a raw command line: everything after the program name,
/// split on spaces, with empty pieces dropped.
pub open spec fn spec_command_line_args(s: Seq<u8>) -> Seq<Seq<u8>> {
    spec_drop_empty(spec_split_spaces(s.skip(spec_args_begin(s))))
}

/// An owned copy of one byte range.
fn copy_range(s: &Vec<u8>, from: usize, to: usize) -> (r: Vec<u8>)
    requires
        from <= to <= s@.len(),
    ensures
        r@ == s@.subrange(from as int, to as int),
{
    let mut r: Vec<u8> = Vec::new();
    let mut i = from;
    proof {
        assert(s@.subrange(from as int, from as int) =~= Seq::<u8>::empty());
    }
    while i < to
        invariant
            from <= i <= to <= s@.len(),
            r@ == s@.subrange(from as int, i as int),
        decreases to - i,
    {
        r.push(s[i]);
        proof {
            assert(s@.subrange(from as int, i + 1) =~= s@.subrange(from as int, i as int).push(
                s@[i as int],
            ));
        }
        i = i + 1;
    }
    r
}

/// The non-empty pieces of `s` from `from` onward, split on spaces.
fn split_pieces(s: &Vec<u8>, from: usize) -> (r: Vec<Vec<u8>>)
    requires
        from <= s@.len(),
    ensures
        arg_views(r@) == spec_drop_empty(spec_split_spaces(s@.skip(from as int))),
    decreases s@.len() - from,
{
    let ghost t = s@.skip(from as int);
    let n = s.len();
    let mut k = from;
    while k < n && s[k] != 0x20
        invariant
            from <= k <= n,
            n == s@.len(),
            forall|j: int| from <= j < k ==> s@[j] != 0x20,
        decreases n - k,
    {
        k = k + 1;
    }
    proof {
        assert forall|j: int| 0 <= j < k - from implies t[j] != 0x20 by {
            assert(t[j] == s@[from + j]);
        }
        if k < n {
            assert(t[k - from] == s@[k as int]);
        }
        lemma_find_space_value(t, 0, k - from);
    }
    if k == n {
        let piece = copy_range(s, from, k);
        proof {
            assert(t =~= s@.subrange(from as int, k as int));
            assert(spec_split_spaces(t) == seq![t]);
            assert(seq![t].drop_last() =~= Seq::<Seq<u8>>::empty());
            assert(spec_drop_empty(Seq::<Seq<u8>>::empty()) == Seq::<Seq<u8>>::empty());
            assert(spec_drop_empty(seq![t]) == if t.len() > 0 {
                seq![t]
            } else {
                Seq::<Seq<u8>>::empty()
            });
        }
        let mut r: Vec<Vec<u8>> = Vec::new();
        if piece.len() > 0 {
            r.push(piece);
            proof {
                assert(arg_views(r@) =~= seq![t]);
            }
        } else {
            proof {
                assert(arg_views(r@) =~= Seq::<Seq<u8>>::empty());
            }
        }
        r
    } else {
        let piece = copy_range(s, from, k);
        let mut rest = split_pieces(s, k + 1);
        let ghost first = t.take(k - from);
        let ghost restv = rest@;
        proof {
            assert(first =~= s@.subrange(from as int, k as int));
            assert(t.skip(k - from + 1) =~= s@.skip(k + 1));
            assert(spec_split_spaces(t) == seq![first] + spec_split_spaces(s@.skip(k + 1)));
            lemma_drop_empty_concat(seq![first], spec_split_spaces(s@.skip(k + 1)));
            assert(seq![first].drop_last() =~= Seq::<Seq<u8>>::empty());
            assert(spec_drop_empty(Seq::<Seq<u8>>::empty()) == Seq::<Seq<u8>>::empty());
            assert(spec_drop_empty(seq![first]) == if first.len() > 0 {
                seq![first]
            } else {
                Seq::<Seq<u8>>::empty()
            });
        }
        let mut r: Vec<Vec<u8>> = Vec::new();
        if piece.len() > 0 {
            r.push(piece);
        }
        r.append(&mut rest);
        proof {
            if first.len() > 0 {
                assert(arg_views(r@) =~= seq![first] + arg_views(restv));
            } else {
                assert(arg_views(r@) =~= arg_views(restv));
            }
            assert(arg_views(r@) =~= spec_drop_empty(spec_split_spaces(t)));
        }
        r
    }
}

/// Splits a raw command line into its arguments: the program name — quoted
/// or running to the first space or tab — is skipped along with the blanks
/// after it, and the rest is split on spaces, dropping empty pieces.
pub fn split_command_line(cmdline: &Vec<u8>) -> (r: Vec<Vec<u8>>)
    ensures
        arg_views(r@) == spec_command_line_args(cmdline@),
{
    let n = cmdline.len();
    let mut p: usize;
    if n > 0 && cmdline[0] == 0x22 {
        p = 1;
        while p < n && cmdline[p] != 0x22
            invariant
                1 <= p <= n,
                n == cmdline@.len(),
                spec_scan_until_quote(cmdline@, 1) == spec_scan_until_quote(cmdline@, p as int),
            decreases n - p,
        {
            p = p + 1;
        }
        proof {
            assert(spec_scan_until_quote(cmdline@, 1) == p);
        }
    } else {
        p = 0;
        while p < n && cmdline[p] != 0x20 && cmdline[p] != 0x09
            invariant
                p <= n,
                n == cmdline@.len(),
                spec_scan_until_blank(cmdline@, 0) == spec_scan_until_blank(cmdline@, p as int),
            decreases n - p,
        {
            p = p + 1;
        }
        proof {
            assert(spec_scan_until_blank(cmdline@, 0) == p);
        }
    }
    let after: usize = if p < n {
        p + 1
    } else {
        n
    };
    proof {
        assert(after == spec_after_program(cmdline@));
    }
    let mut q = after;
    while q < n && (cmdline[q] == 0x20 || cmdline[q] == 0x09)
        invariant
            after <= q <= n,
            n == cmdline@.len(),
            spec_scan_blanks(cmdline@, after as int) == spec_scan_blanks(cmdline@, q as int),
        decreases n - q,
    {
        q = q + 1;
    }
    proof {
        assert(spec_scan_blanks(cmdline@, after as int) == q);
        assert(q == spec_args_begin(cmdline@));
    }
    split_pieces(cmdline, q)
}

} // verus!
