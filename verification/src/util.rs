use vstd::prelude::*;

verus! {

/// An optional string as plain characters.
pub open spec fn opt_view(o: Option<String>) -> Option<Seq<char>> {
    match o {
        Some(s) => Some(s@),
        None => None,
    }
}

/// The character of a decimal digit `d < 10`.
pub open spec fn digit_char(d: nat) -> char {
    ((d + 48) as u32) as char
}

/// Whether `c` is one of the ASCII digits `0` to `9`.
pub open spec fn is_digit(c: char) -> bool {
    '0' <= c && c <= '9'
}

/// The value of an ASCII digit character.
pub open spec fn digit_value(c: char) -> nat {
    ((c as u32) - 48) as nat
}

/// The shortest decimal digits of `n` (no sign, no leading zeros, `0` for zero).
pub open spec fn digits_of(n: nat) -> Seq<char>
    decreases n,
{
    if n < 10 {
        seq![digit_char(n)]
    } else {
        digits_of(n / 10).push(digit_char(n % 10))
    }
}

/// The decimal text of an integer, with a leading `-` when it is negative.
pub open spec fn decimal(i: int) -> Seq<char> {
    if i < 0 {
        seq!['-'] + digits_of((-i) as nat)
    } else {
        digits_of(i as nat)
    }
}

/// The one-character text of a digit.
fn digit_str(d: u128) -> (s: &'static str)
    requires
        d < 10,
    ensures
        s@ == seq![digit_char(d as nat)],
{
    proof {
        reveal_strlit("0");
        reveal_strlit("1");
        reveal_strlit("2");
        reveal_strlit("3");
        reveal_strlit("4");
        reveal_strlit("5");
        reveal_strlit("6");
        reveal_strlit("7");
        reveal_strlit("8");
        reveal_strlit("9");
    }
    if d == 0 {
        "0"
    } else if d == 1 {
        "1"
    } else if d == 2 {
        "2"
    } else if d == 3 {
        "3"
    } else if d == 4 {
        "4"
    } else if d == 5 {
        "5"
    } else if d == 6 {
        "6"
    } else if d == 7 {
        "7"
    } else if d == 8 {
        "8"
    } else {
        "9"
    }
}

/// Appends the decimal digits of `n` to `out`.
fn push_digits(out: &mut String, n: u128)
    ensures
        final(out)@ == old(out)@ + digits_of(n as nat),
    decreases n,
{
    if n >= 10 {
        push_digits(out, n / 10);
    }
    out.append(digit_str(n % 10));
    proof {
        if n >= 10 {
            assert(digits_of(n as nat) == digits_of((n / 10) as nat).push(digit_char((n % 10) as nat)));
        }
    }
    assert(final(out)@ =~= old(out)@ + digits_of(n as nat));
}

/// Formats an integer in decimal, as the `itoa` crate does for every integer type.
pub fn itoa(input: i128) -> (s: String)
    ensures
        s@ == decimal(input as int),
{
    let mut out = String::new();
    if input < 0 {
        proof {
            reveal_strlit("-");
        }
        out.append("-");
        let magnitude: u128 = (-(input + 1)) as u128 + 1;
        push_digits(&mut out, magnitude);
    } else {
        push_digits(&mut out, input as u128);
    }
    out
}


/// Formats an unsigned integer in decimal, as the `itoa` crate does; this
/// takes the values of every unsigned integer type, `u128` included.
pub fn itoa_u128(input: u128) -> (s: String)
    ensures
        s@ == decimal(input as int),
{
    let mut out = String::new();
    push_digits(&mut out, input);
    out
}

/// Whether every character of `s` is an ASCII digit.
pub open spec fn all_digits(s: Seq<char>) -> bool {
    forall|i: int| 0 <= i < s.len() ==> is_digit(#[trigger] s[i])
}

/// The value of a run of decimal digits, most significant first.
pub open spec fn digits_value(s: Seq<char>) -> nat
    decreases s.len(),
{
    if s.len() == 0 {
        0
    } else {
        digits_value(s.drop_last()) * 10 + digit_value(s.last())
    }
}

/// The digits that follow an optional leading `+`.
pub open spec fn unsigned_body(s: Seq<char>) -> Seq<char> {
    if s.len() > 0 && s[0] == '+' {
        s.drop_first()
    } else {
        s
    }
}

/// What the standard library's `parse` gives for an integer type whose
/// values run from `min` to `max`: an optional `+` (or `-`, when the type has
/// negative values), then one or more ASCII digits, whose value must lie in
/// the type's range.
pub open spec fn parsed_integer(s: Seq<char>, min: int, max: int) -> Option<int> {
    let negative = min < 0 && s.len() > 0 && s[0] == '-';
    let body = if negative {
        s.drop_first()
    } else {
        unsigned_body(s)
    };
    if body.len() > 0 && all_digits(body) {
        let v = if negative {
            -(digits_value(body) as int)
        } else {
            digits_value(body) as int
        };
        if min <= v && v <= max {
            Some(v)
        } else {
            None
        }
    } else {
        None
    }
}

/// What parsing `s` as a `usize` gives: an optional `+`, then one or more
/// ASCII digits whose value fits in a `usize`.
pub open spec fn parsed_usize(s: Seq<char>) -> Option<usize> {
    match parsed_integer(s, 0, usize::MAX as int) {
        Some(v) => Some(v as usize),
        None => None,
    }
}

/// The nesting level of a runner whose level variable holds `value`:
/// the parsed number, or 1 when it is absent or does not parse.
pub open spec fn level_of(value: Option<Seq<char>>) -> usize {
    match value {
        Some(v) => match parsed_usize(v) {
            Some(n) => n,
            None => 1,
        },
        None => 1,
    }
}

proof fn lemma_prefix_value_le(s: Seq<char>, k: int)
    requires
        all_digits(s),
        0 <= k <= s.len(),
    ensures
        digits_value(s.subrange(0, k)) <= digits_value(s),
    decreases s.len(),
{
    if k < s.len() {
        let t = s.drop_last();
        assert(all_digits(t)) by {
            assert forall|i: int| 0 <= i < t.len() implies is_digit(#[trigger] t[i]) by {
                assert(t[i] == s[i]);
            }
        }
        lemma_prefix_value_le(t, k);
        assert(t.subrange(0, k) =~= s.subrange(0, k));
        assert(s.subrange(0, s.len() as int) =~= s);
    } else {
        assert(s.subrange(0, k) =~= s);
    }
}

/// Parses a `usize` as the standard library does: an optional `+` followed by
/// at least one ASCII digit, and no overflow.
pub fn parse_usize(s: &str) -> (r: Option<usize>)
    ensures
        r == parsed_usize(s@),
{
    let len = s.unicode_len();
    let mut start: usize = 0;
    if len > 0 && s.get_char(0) == '+' {
        start = 1;
    }
    let ghost body = unsigned_body(s@);
    assert(body =~= s@.subrange(start as int, len as int));
    if start >= len {
        return None;
    }
    let mut acc: usize = 0;
    let mut i: usize = start;
    while i < len
        invariant
            len == s@.len(),
            start <= i <= len,
            body == s@.subrange(start as int, len as int),
            body == unsigned_body(s@),
            all_digits(s@.subrange(start as int, i as int)),
            acc as nat == digits_value(s@.subrange(start as int, i as int)),
        decreases len - i,
    {
        let c = s.get_char(i);
        let ghost prev = s@.subrange(start as int, i as int);
        let ghost next = s@.subrange(start as int, i + 1);
        assert(next.drop_last() =~= prev);
        assert(next.last() == c);
        if !('0' <= c && c <= '9') {
            assert(body[i - start] == c);
            assert(!is_digit(body[i - start]));
            assert(!all_digits(body));
            assert(unsigned_body(s@) == body);
            assert(parsed_usize(s@) is None);
            return None;
        }
        let dv: usize = (c as u32 - 48) as usize;
        assert(digits_value(next) == digits_value(prev) * 10 + dv);
        if acc > (usize::MAX - dv) / 10 {
            proof {
                assert(acc * 10 + dv > usize::MAX) by (nonlinear_arith)
                    requires
                        acc > (usize::MAX - dv) / 10,
                        dv <= 9;
                if all_digits(body) {
                    lemma_prefix_value_le(body, i + 1 - start);
                    assert(body.subrange(0, i + 1 - start) =~= next);
                }
            }
            return None;
        }
        proof {
            assert(acc * 10 + dv <= usize::MAX) by (nonlinear_arith)
                requires
                    acc <= (usize::MAX - dv) / 10,
                    dv <= 9;
        }
        acc = acc * 10 + dv;
        i = i + 1;
        assert(all_digits(next)) by {
            assert forall|j: int| 0 <= j < next.len() implies is_digit(#[trigger] next[j]) by {
                if j < prev.len() {
                    assert(next[j] == prev[j]);
                }
            }
        }
    }
    Some(acc)
}

/// Reads the nesting level from the value of the level variable, defaulting to 1.
pub fn level_from_env(value: Option<&str>) -> (level: usize)
    ensures
        level == level_of(
            match value {
                Some(v) => Some(v@),
                None => None,
            },
        ),
{
    match value {
        Some(v) => match parse_usize(v) {
            Some(n) => n,
            None => 1,
        },
        None => 1,
    }
}

proof fn lemma_digits_of_parse(n: nat)
    ensures
        digits_of(n).len() > 0,
        all_digits(digits_of(n)),
        digits_value(digits_of(n)) == n,
        digits_of(n)[0] != '+',
    decreases n,
{
    if n < 10 {
        assert(digit_char(n) as u32 == n + 48);
        assert(digits_of(n) =~= seq![digit_char(n)]);
        assert(digits_of(n).drop_last() =~= Seq::<char>::empty());
        assert(digits_of(n).last() == digit_char(n));
        assert(digit_value(digit_char(n)) == n);
        assert(digits_value(Seq::<char>::empty()) == 0);
    } else {
        lemma_digits_of_parse(n / 10);
        let d = digits_of(n);
        let p = digits_of(n / 10);
        assert(d == p.push(digit_char(n % 10)));
        assert(d.drop_last() =~= p);
        assert(digit_char(n % 10) as u32 == n % 10 + 48);
        assert(d.last() == digit_char(n % 10));
        assert(digit_value(digit_char(n % 10)) == n % 10);
        assert(digits_value(d) == digits_value(p) * 10 + digit_value(d.last()));
        assert((n / 10) * 10 + n % 10 == n);
        assert(d[0] == p[0]);
        assert forall|i: int| 0 <= i < d.len() implies is_digit(#[trigger] d[i]) by {
            if i < p.len() {
                assert(d[i] == p[i]);
            }
        }
    }
}

/// Writing an integer in decimal and parsing the text back as the same
/// integer type (values from `min` to `max`) gives the integer again.
pub proof fn law_decimal_roundtrip(n: int, min: int, max: int)
    requires
        min <= 0 <= max,
        min <= n <= max,
    ensures
        parsed_integer(decimal(n), min, max) == Some(n),
{
    if n >= 0 {
        lemma_digits_of_parse(n as nat);
        assert(unsigned_body(decimal(n)) == decimal(n));
    } else {
        let m = (-n) as nat;
        lemma_digits_of_parse(m);
        let d = decimal(n);
        assert(d[0] == '-');
        assert(d.drop_first() =~= digits_of(m));
    }
}

proof fn lemma_digits_of_shape(n: nat)
    ensures
        digits_of(n).len() > 0,
        n == 0 <==> digits_of(n) == seq!['0'],
        n > 0 ==> digits_of(n)[0] != '0',
    decreases n,
{
    lemma_digits_of_parse(n);
    if n < 10 {
        assert(digit_char(n) as u32 == n + 48);
        assert(digits_of(n) =~= seq![digit_char(n)]);
        if n > 0 {
            assert(digits_of(n)[0] != '0');
        } else {
            assert(digit_char(0) == '0');
        }
    } else {
        lemma_digits_of_shape(n / 10);
        let d = digits_of(n);
        assert(d[0] == digits_of(n / 10)[0]);
        assert(d.len() >= 2);
    }
}

/// The decimal text of an integer is its shortest form: one or more ASCII
/// digits with no leading zero (just `0` for zero), after a `-` exactly when
/// the integer is negative, and its value is the integer.
pub proof fn law_decimal_shape(n: int)
    ensures
        decimal(n).len() > 0,
        (decimal(n)[0] == '-') == (n < 0),
        n >= 0 ==> all_digits(decimal(n)) && digits_value(decimal(n)) == n,
        n < 0 ==> all_digits(decimal(n).drop_first()) && digits_value(decimal(n).drop_first()) == -n,
        n == 0 ==> decimal(n) == seq!['0'],
        n > 0 ==> decimal(n)[0] != '0',
        n < 0 ==> decimal(n).drop_first()[0] != '0',
{
    if n >= 0 {
        lemma_digits_of_parse(n as nat);
        lemma_digits_of_shape(n as nat);
        let d = digits_of(n as nat);
        assert(is_digit(d[0]));
    } else {
        lemma_digits_of_parse((-n) as nat);
        lemma_digits_of_shape((-n) as nat);
        assert(decimal(n).drop_first() =~= digits_of((-n) as nat));
    }
}

/// Writing a level in decimal and reading it back gives the same level: the
/// level a runner hands to the commands it starts is the level they read.
pub proof fn law_level_roundtrip(n: usize)
    ensures
        parsed_usize(decimal(n as int)) == Some(n),
        level_of(Some(decimal(n as int))) == n,
{
    lemma_digits_of_parse(n as nat);
    assert(unsigned_body(decimal(n as int)) == decimal(n as int));
}


/// The code a process exits with: its own, or 1 when it has none (as when a
/// signal ended it).
pub open spec fn exit_code(code: Option<i32>) -> i32 {
    match code {
        Some(c) => c,
        None => 1,
    }
}

/// A process that exited with a code is reported with exactly that code; only
/// a missing code (as after a signal) becomes 1.
pub proof fn law_exit_code_is_kept(c: i32)
    ensures
        exit_code(Some(c)) == c,
        exit_code(None) == 1,
{
}

/// A request to end the runner with an exit code.
#[derive(Clone, Copy, Debug, PartialEq, Eq, Structural)]
pub struct ExitCode(pub i32);

impl ExitCode {
    /// The exit code of a finished child process: its code, or 1 without one.
    pub fn from_status(code: Option<i32>) -> (r: ExitCode)
        ensures
            r.0 == exit_code(code),
            code matches Some(c) ==> r.0 == c,
            code is None ==> r.0 == 1,
    {
        match code {
            Some(c) => ExitCode(c),
            None => ExitCode(1),
        }
    }

    /// The byte the process reports: the code's lowest eight bits.
    pub fn code_byte(&self) -> (b: u8)
        ensures
            b == self.0 as u8,
    {
        self.0 as u8
    }
}

} // verus!
