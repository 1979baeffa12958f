//! Line editing and numeric input over the keyboard's character stream.
//!
//! `string` folds a sequence of typed keys into a line: a newline terminates
//! the line without being part of it, a backspace removes at most the last
//! buffered character, every other key is appended. `number` reads line
//! after line the same way and returns the first one that parses as a
//! non-negative integer lying in the given half-open range, silently
//! discarding the rest. The interactive edge polls the keyboard, re-renders
//! the prompt and buffer after each key, and hands the accumulated keys in;
//! the editing and acceptance rules live here.

use core::ops::Range;
use vstd::prelude::*;

verus! {

/// The character the keyboard sends for the backspace key.
pub const BACKSPACE: char = '\x08';

/// Relies on std's `String::push`: appends the given character to the end
/// of the string.
pub assume_specification[ String::push ](s: &mut String, ch: char)
    ensures
        final(s)@ == old(s)@.push(ch),
;

/// Relies on std's `String::pop`: removes the last character and returns
/// it, or returns `None` when the string is empty, leaving it untouched.
pub assume_specification[ String::pop ](s: &mut String) -> (r: Option<char>)
    ensures
        match r {
            Some(c) => old(s)@.len() > 0 && c == old(s)@.last() && final(s)@ == old(s)@.drop_last(),
            None => old(s)@.len() == 0 && final(s)@ == old(s)@,
        },
;

/// One editing step: backspace removes at most the last buffered character,
/// anything else is appended.
pub open spec fn edit_step(line: Seq<char>, key: char) -> Seq<char> {
    if key == BACKSPACE {
        if line.len() == 0 {
            line
        } else {
            line.drop_last()
        }
    } else {
        line.push(key)
    }
}

/// The line buffer after applying every key of `keys` in order to an empty
/// buffer.
pub open spec fn edited(keys: Seq<char>) -> Seq<char>
    decreases keys.len(),
{
    if keys.len() == 0 {
        Seq::empty()
    } else {
        edit_step(edited(keys.drop_last()), keys.last())
    }
}

/// Index of the first newline in `keys`, or `keys.len()` when there is
/// none.
pub open spec fn first_newline(keys: Seq<char>) -> nat
    decreases keys.len(),
{
    if keys.len() == 0 {
        0
    } else if keys[0] == '\n' {
        0
    } else {
        (1 + first_newline(keys.drop_first())) as nat
    }
}

/// Whether any key of `keys` is a newline, so that a line ends.
pub open spec fn has_newline(keys: Seq<char>) -> bool {
    first_newline(keys) < keys.len()
}

/// `first_newline` is exactly the position of the first newline: no earlier
/// key is one, and either the position holds a newline or it is the end.
pub proof fn lemma_first_newline_at(keys: Seq<char>, i: int)
    requires
        0 <= i <= keys.len(),
        forall|j: int| 0 <= j < i ==> keys[j] != '\n',
        i == keys.len() || keys[i] == '\n',
    ensures
        first_newline(keys) == i,
    decreases keys.len(),
{
    if keys.len() == 0 {
    } else if keys[0] == '\n' {
        assert(i == 0);
    } else {
        assert(i != 0);
        assert forall|j: int| 0 <= j < i - 1 implies keys.drop_first()[j] != '\n' by {
            assert(keys.drop_first()[j] == keys[j + 1]);
        }
        if i < keys.len() {
            assert(keys.drop_first()[i - 1] == keys[i]);
        }
        lemma_first_newline_at(keys.drop_first(), i - 1);
    }
}

/// Whether `c` is a decimal digit.
pub open spec fn is_digit(c: char) -> bool {
    48 <= c as int <= 57
}

/// The value of the digit `c`.
pub open spec fn digit_val(c: char) -> int {
    c as int - 48
}

/// Whether `s` consists of decimal digits only.
pub open spec fn all_digits(s: Seq<char>) -> bool {
    forall|i: int| 0 <= i < s.len() ==> is_digit(#[trigger] s[i])
}

/// The non-negative integer the digit string `s` denotes.
pub open spec fn digits_value(s: Seq<char>) -> int
    decreases s.len(),
{
    if s.len() == 0 {
        0
    } else {
        10 * digits_value(s.drop_last()) + digit_val(s.last())
    }
}

proof fn lemma_digits_value_nonneg(s: Seq<char>)
    requires
        all_digits(s),
    ensures
        digits_value(s) >= 0,
    decreases s.len(),
{
    if s.len() > 0 {
        assert(all_digits(s.drop_last()));
        lemma_digits_value_nonneg(s.drop_last());
    }
}

/// A digit string denotes at least as much as any of its prefixes.
proof fn lemma_digits_value_prefix(s: Seq<char>, i: int)
    requires
        all_digits(s),
        0 <= i <= s.len(),
    ensures
        digits_value(s.take(i)) <= digits_value(s),
    decreases s.len() - i,
{
    if i == s.len() {
        assert(s.take(i) =~= s);
    } else {
        assert(s.take(i + 1).drop_last() =~= s.take(i));
        assert(s.take(i + 1).last() == s[i]);
        assert(all_digits(s.take(i)));
        lemma_digits_value_nonneg(s.take(i));
        assert(digits_value(s.take(i + 1)) == 10 * digits_value(s.take(i)) + digit_val(s[i]));
        lemma_digits_value_prefix(s, i + 1);
    }
}

/// Parse a line as a non-negative decimal integer: at least one key, digits
/// only, and a value that fits the machine word; anything else is rejected.
pub fn parse_number(line: &String) -> (r: Option<usize>)
    ensures
        match r {
            Some(v) => line@.len() > 0 && all_digits(line@) && v == digits_value(line@),
            None => line@.len() == 0 || !all_digits(line@) || digits_value(line@) > usize::MAX,
        },
{
    let s = line.as_str();
    let len = s.unicode_len();
    if len == 0 {
        return None;
    }
    let mut value: usize = 0;
    let mut i: usize = 0;
    while i < len
        invariant
            0 <= i <= len,
            len == line@.len(),
            s@ == line@,
            all_digits(line@.take(i as int)),
            value == digits_value(line@.take(i as int)),
        decreases len - i,
    {
        let c = s.get_char(i);
        let code = c as u32;
        proof {
            assert(line@.take(i + 1).drop_last() =~= line@.take(i as int));
            assert(line@.take(i + 1).last() == line@[i as int]);
        }
        if code < 48 || code > 57 {
            return None;
        }
        let d = (code - 48) as usize;
        if value > (usize::MAX - d) / 10 {
            proof {
                let t = line@.take(i + 1);
                assert(digits_value(t) == 10 * value + d);
                assert(10 * value + d > usize::MAX) by (nonlinear_arith)
                    requires
                        value > (usize::MAX - d) / 10,
                        d <= 9,
                ;
                if all_digits(line@) {
                    lemma_digits_value_prefix(line@, i + 1);
                }
            }
            return None;
        }
        proof {
            assert(10 * value + d <= usize::MAX) by (nonlinear_arith)
                requires
                    value <= (usize::MAX - d) / 10,
                    d <= 9,
            ;
        }
        value = value * 10 + d;
        i += 1;
    }
    proof {
        assert(line@.take(len as int) =~= line@);
    }
    Some(value)
}

/// Read one line out of `keys` starting at `start`: the edited line up to
/// the first newline from there, and the index just past that newline. When
/// no newline follows, no line is complete yet and the caller keeps waiting
/// or gives up.
fn read_line(keys: &Vec<char>, start: usize) -> (r: (Option<String>, usize))
    requires
        start <= keys@.len(),
    ensures
        ({
            let tail = keys@.skip(start as int);
            match r.0 {
                Some(line) => has_newline(tail) && line@ == edited(
                    tail.take(first_newline(tail) as int),
                ) && r.1 == start + first_newline(tail) + 1,
                None => !has_newline(tail),
            }
        }),
{
    let ghost tail = keys@.skip(start as int);
    let n = keys.len();
    let mut i: usize = start;
    let mut line = String::new();
    let mut found = false;
    while i < n
        invariant_except_break
            !found,
        invariant
            start <= i <= keys@.len(),
            n == keys@.len(),
            tail == keys@.skip(start as int),
            forall|j: int| 0 <= j < i - start ==> tail[j] != '\n',
            line@ == edited(tail.take(i - start)),
        ensures
            found ==> i < keys@.len() && tail[i - start] == '\n',
            !found ==> i == keys@.len(),
        decreases keys@.len() - i,
    {
        let k = keys[i];
        proof {
            assert(tail[i - start] == keys@[i as int]);
        }
        if k == '\n' {
            found = true;
            break ;
        }
        proof {
            assert(tail.take(i - start + 1).drop_last() =~= tail.take(i - start));
            assert(tail.take(i - start + 1).last() == tail[i - start]);
        }
        if k == BACKSPACE {
            line.pop();
        } else {
            line.push(k);
        }
        i += 1;
    }
    if found {
        proof {
            lemma_first_newline_at(tail, i - start);
        }
        (Some(line), i + 1)
    } else {
        proof {
            lemma_first_newline_at(tail, i - start);
        }
        (None, i)
    }
}

/// Accumulate one line of input from the typed keys: keys are applied in
/// order until the first newline, which terminates the line without being
/// appended; a backspace removes at most the last buffered character. The
/// interactive edge re-renders `_prompt` and the buffer after every key;
/// the returned line never contains the prompt.
pub fn string(_prompt: &str, keys: &Vec<char>) -> (line: String)
    requires
        has_newline(keys@),
    ensures
        line@ == edited(keys@.take(first_newline(keys@) as int)),
{
    proof {
        assert(keys@.skip(0) =~= keys@);
    }
    let (maybe_line, _next) = read_line(keys, 0);
    match maybe_line {
        Some(line) => line,
        None => {
            proof {
                assert(false);
            }
            unreached()
        },
    }
}

/// The first line of `keys` that denotes an integer in `[lo, hi)`, reading
/// line after line as `string` does and silently discarding every line that
/// fails to parse or falls outside the range; `None` when the keys run out
/// before any line is accepted.
pub open spec fn spec_number(keys: Seq<char>, lo: int, hi: int) -> Option<usize>
    decreases keys.len(),
{
    if !has_newline(keys) {
        None
    } else {
        let line = edited(keys.take(first_newline(keys) as int));
        let rest = keys.skip(first_newline(keys) + 1 as int);
        if line.len() > 0 && all_digits(line) && digits_value(line) <= usize::MAX && lo
            <= digits_value(line) < hi {
            Some(digits_value(line) as usize)
        } else {
            spec_number(rest, lo, hi)
        }
    }
}

/// Prompt for a number until one is accepted: each line is read as `string`
/// reads it, parsed as a non-negative integer, and silently discarded when
/// it fails to parse or lies outside the half-open `range`; the first
/// accepted value is returned. `None` reports that the typed keys ran out
/// before any line was accepted — the interactive edge keeps polling for
/// more keys instead.
pub fn number(_prompt: &str, range: Range<usize>, keys: &Vec<char>) -> (r: Option<usize>)
    ensures
        r == spec_number(keys@, range.start as int, range.end as int),
{
    let mut pos: usize = 0;
    proof {
        assert(keys@.skip(0) =~= keys@);
    }
    loop
        invariant
            pos <= keys@.len(),
            spec_number(keys@, range.start as int, range.end as int) == spec_number(
                keys@.skip(pos as int),
                range.start as int,
                range.end as int,
            ),
        decreases keys@.len() - pos,
    {
        let ghost tail = keys@.skip(pos as int);
        let (maybe_line, next) = read_line(keys, pos);
        match maybe_line {
            None => {
                proof {
                    assert(!has_newline(tail));
                    assert(spec_number(tail, range.start as int, range.end as int) is None);
                }
                return None;
            },
            Some(line) => {
                let parsed = parse_number(&line);
                proof {
                    assert(has_newline(tail));
                    assert(edited(tail.take(first_newline(tail) as int)) == line@);
                }
                if let Some(v) = parsed {
                    if range.contains(&v) {
                        proof {
                            let sline = edited(tail.take(first_newline(tail) as int));
                            assert(sline.len() > 0 && all_digits(sline) && digits_value(sline)
                                <= usize::MAX && range.start as int <= digits_value(sline)
                                < range.end as int);
                            assert(spec_number(tail, range.start as int, range.end as int)
                                == Some(digits_value(sline) as usize));
                        }
                        return Some(v);
                    }
                }
                proof {
                    assert(tail.skip(first_newline(tail) + 1 as int) =~= keys@.skip(next as int));
                }
                pos = next;
            },
        }
    }
}

} // verus!
