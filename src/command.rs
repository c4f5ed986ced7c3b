use vstd::prelude::*;
use vstd::string::StrSliceExecFns;

verus! {

/// What the command line asks for.
#[derive(Debug, Clone, Copy, PartialEq, Eq, Structural)]
pub enum Command {
    List,
    Add,
    Help,
    Delete(u32),
    Mark(u32),
    View(u32),
    Invalid,
}

/// The characters of `s` other than dashes, in order.
pub open spec fn without_dashes(s: Seq<char>) -> Seq<char>
    decreases s.len(),
{
    if s.len() == 0 {
        s
    } else if s.last() == '-' {
        without_dashes(s.drop_last())
    } else {
        without_dashes(s.drop_last()).push(s.last())
    }
}

/// The option letter of an argument: its one character besides dashes.
pub open spec fn flag_of(s: Seq<char>) -> Option<char> {
    if without_dashes(s).len() == 1 {
        Some(without_dashes(s)[0])
    } else {
        None
    }
}

pub open spec fn is_letter(f: Option<char>, lower: char, upper: char) -> bool {
    f == Some(lower) || f == Some(upper)
}

pub open spec fn is_digit(c: char) -> bool {
    '0' <= c <= '9'
}

pub open spec fn digit_value(c: char) -> nat {
    (c as u32 - 48) as nat
}

/// The value of a string of decimal digits.
pub open spec fn digits_value(s: Seq<char>) -> nat
    decreases s.len(),
{
    if s.len() == 0 {
        0
    } else {
        digits_value(s.drop_last()) * 10 + digit_value(s.last())
    }
}

/// The digits of an unsigned number, after an optional plus sign.
pub open spec fn unsigned_digits(s: Seq<char>) -> Seq<char> {
    if s.len() > 0 && s[0] == '+' {
        s.drop_first()
    } else {
        s
    }
}

/// The `u32` written in `s`: an optional plus sign, then at least one digit, and a
/// value that fits.
pub open spec fn parsed_u32(s: Seq<char>) -> Option<u32> {
    let d = unsigned_digits(s);
    if d.len() > 0 && (forall|i: int| 0 <= i < d.len() ==> is_digit(#[trigger] d[i]))
        && digits_value(d) <= u32::MAX {
        Some(digits_value(d) as u32)
    } else {
        None
    }
}

/// The command that the arguments (the program's name first) ask for. An identifier
/// must be a positive number.
pub open spec fn command_of(args: Seq<Seq<char>>) -> Command {
    if args.len() == 1 {
        Command::List
    } else if args.len() == 2 {
        let f = flag_of(args[1]);
        if is_letter(f, 'a', 'A') {
            Command::Add
        } else if is_letter(f, 'l', 'L') {
            Command::List
        } else if is_letter(f, 'h', 'H') {
            Command::Help
        } else {
            Command::Invalid
        }
    } else if args.len() == 3 {
        let f = flag_of(args[1]);
        match parsed_u32(args[2]) {
            Some(id) => if id == 0 {
                Command::Invalid
            } else if is_letter(f, 'd', 'D') {
                Command::Delete(id)
            } else if is_letter(f, 'm', 'M') {
                Command::Mark(id)
            } else if is_letter(f, 'v', 'V') {
                Command::View(id)
            } else {
                Command::Invalid
            },
            None => Command::Invalid,
        }
    } else {
        Command::Invalid
    }
}

/// The option letter of an argument, if it has exactly one character besides dashes.
pub fn flag(s: &str) -> (r: Option<char>)
    ensures
        r == flag_of(s@),
{
    let n = s.unicode_len();
    let mut count: usize = 0;
    let mut last: char = ' ';
    let mut i: usize = 0;
    while i < n
        invariant
            n == s@.len(),
            i <= n,
            count <= i,
            count == without_dashes(s@.subrange(0, i as int)).len(),
            count > 0 ==> last == without_dashes(s@.subrange(0, i as int)).last(),
        decreases n - i,
    {
        let c = s.get_char(i);
        assert(s@.subrange(0, i + 1).drop_last() =~= s@.subrange(0, i as int));
        if c != '-' {
            count = count + 1;
            last = c;
        }
        i = i + 1;
    }
    assert(s@.subrange(0, n as int) =~= s@);
    if count == 1 {
        Some(last)
    } else {
        None
    }
}

/// Parses a `u32` as Rust's `str::parse` does: an optional `+`, then decimal digits.
pub fn parse_u32(s: &str) -> (r: Option<u32>)
    ensures
        r == parsed_u32(s@),
{
    let n = s.unicode_len();
    let start: usize = if n > 0 && s.get_char(0) == '+' { 1 } else { 0 };
    let ghost d = unsigned_digits(s@);
    assert(d =~= s@.subrange(start as int, n as int));
    if start == n {
        return None;
    }
    let mut acc: u64 = 0;
    let mut big = false;
    let mut i: usize = start;
    while i < n
        invariant
            n == s@.len(),
            start <= i <= n,
            d == s@.subrange(start as int, n as int),
            d == unsigned_digits(s@),
            forall|k: int| 0 <= k < i - start ==> is_digit(#[trigger] d[k]),
            !big ==> acc == digits_value(d.subrange(0, i - start)) && acc <= u32::MAX,
            big ==> digits_value(d.subrange(0, i - start)) > u32::MAX,
        decreases n - i,
    {
        let c = s.get_char(i);
        assert(d[i - start] == c);
        if !('0' <= c && c <= '9') {
            assert(!is_digit(d[i - start]));
            return None;
        }
        assert(d.subrange(0, i + 1 - start).drop_last() =~= d.subrange(0, i - start));
        if !big {
            acc = acc * 10 + (c as u32 - 48) as u64;
            if acc > 4294967295 {
                big = true;
            }
        }
        i = i + 1;
    }
    assert(d.subrange(0, n - start) =~= d);
    if big {
        None
    } else {
        Some(acc as u32)
    }
}

/// The command that the arguments ask for; the first argument is the program's name.
pub fn parse_command(args: &Vec<String>) -> (r: Command)
    ensures
        r == command_of(args@.map_values(|s: String| s@)),
{
    let ghost a = args@.map_values(|s: String| s@);
    let n = args.len();
    if n == 1 {
        Command::List
    } else if n == 2 {
        assert(a[1] == args@[1]@);
        let f = flag(args[1].as_str());
        if f == Some('a') || f == Some('A') {
            Command::Add
        } else if f == Some('l') || f == Some('L') {
            Command::List
        } else if f == Some('h') || f == Some('H') {
            Command::Help
        } else {
            Command::Invalid
        }
    } else if n == 3 {
        assert(a[1] == args@[1]@);
        assert(a[2] == args@[2]@);
        let f = flag(args[1].as_str());
        match parse_u32(args[2].as_str()) {
            Some(id) => if id == 0 {
                Command::Invalid
            } else if f == Some('d') || f == Some('D') {
                Command::Delete(id)
            } else if f == Some('m') || f == Some('M') {
                Command::Mark(id)
            } else if f == Some('v') || f == Some('V') {
                Command::View(id)
            } else {
                Command::Invalid
            },
            None => Command::Invalid,
        }
    } else {
        Command::Invalid
    }
}

} // verus!
