//! Readers for the pieces of the hint syntax: identifiers, dotted access
//! names and bracketed counts. Each reads from the start of a byte string
//! and says how many bytes it took.
use vstd::prelude::*;

verus! {

pub open spec fn is_alpha(b: u8) -> bool {
    (97 <= b && b <= 122) || (65 <= b && b <= 90)
}

pub open spec fn is_digit(b: u8) -> bool {
    48 <= b && b <= 57
}

/// A byte that may start an identifier: a letter or `_`.
pub open spec fn is_ident_start(b: u8) -> bool {
    is_alpha(b) || b == 95
}

/// A byte that may continue an identifier: a letter, a digit or `_`.
pub open spec fn is_ident_char(b: u8) -> bool {
    is_alpha(b) || is_digit(b) || b == 95
}

/// `s[start..end]` is an identifier that cannot be extended to the right.
pub open spec fn ident_end(s: Seq<u8>, start: int, end: int) -> bool {
    &&& 0 <= start < end <= s.len()
    &&& is_ident_start(s[start])
    &&& forall|k: int| start < k < end ==> is_ident_char(#[trigger] s[k])
    &&& end < s.len() ==> !is_ident_char(s[end])
}

fn is_ident_start_byte(b: u8) -> (r: bool)
    ensures
        r == is_ident_start(b),
{
    (97 <= b && b <= 122) || (65 <= b && b <= 90) || b == 95
}

fn is_ident_byte(b: u8) -> (r: bool)
    ensures
        r == is_ident_char(b),
{
    (97 <= b && b <= 122) || (65 <= b && b <= 90) || (48 <= b && b <= 57) || b == 95
}

/// Reads the identifier that starts at `start`, and returns where it ends.
fn scan_identifier(input: &[u8], start: usize) -> (r: Option<usize>)
    ensures
        match r {
            Some(end) => ident_end(input@, start as int, end as int),
            None => start >= input@.len() || !is_ident_start(input@[start as int]),
        },
{
    if start >= input.len() || !is_ident_start_byte(input[start]) {
        return None;
    }
    let mut i: usize = start + 1;
    while i < input.len() && is_ident_byte(input[i])
        invariant
            start < i <= input@.len(),
            forall|k: int| start < k < i ==> is_ident_char(#[trigger] input@[k]),
        decreases input@.len() - i,
    {
        i = i + 1;
    }
    Some(i)
}

/// Reads an identifier from the start of `input`: a letter or `_`, then
/// letters, digits and `_`, as many as there are. Returns its length, or
/// `None` where `input` does not start with one.
pub fn parse_identifier(input: &[u8]) -> (r: Option<usize>)
    ensures
        match r {
            Some(n) => ident_end(input@, 0, n as int),
            None => input@.len() == 0 || !is_ident_start(input@[0]),
        },
{
    scan_identifier(input, 0)
}

/// The number that a string of decimal digits writes.
pub open spec fn digits_value(s: Seq<u8>) -> nat
    decreases s.len(),
{
    if s.len() == 0 {
        0
    } else {
        digits_value(s.drop_last()) * 10 + (s.last() - 48) as nat
    }
}

/// `s[..end]` is a count `[n]`: digits between brackets that write `n`, which
/// is not 0.
pub open spec fn count_at(s: Seq<u8>, end: int, n: nat) -> bool {
    &&& 3 <= end <= s.len()
    &&& s[0] == 91
    &&& s[end - 1] == 93
    &&& forall|k: int| 1 <= k < end - 1 ==> is_digit(#[trigger] s[k])
    &&& digits_value(s.subrange(1, end - 1)) == n
    &&& n > 0
}

/// Reads an optional count `[n]` from the start of `input`, where `n` is a
/// decimal number from 1 to `u32::MAX`. Returns the bytes taken and the
/// count; `(0, None)` where `input` does not start with one.
pub fn parse_count(input: &[u8]) -> (r: (usize, Option<u32>))
    ensures
        match r.1 {
            Some(n) => count_at(input@, r.0 as int, n as nat),
            None => r.0 == 0 && forall|end: int, n: nat|
                #![trigger count_at(input@, end, n)]
                count_at(input@, end, n) ==> n > u32::MAX,
        },
{
    if input.len() == 0 || input[0] != 91 {
        return (0, None);
    }
    let mut i: usize = 1;
    let mut value: u64 = 0;
    let mut overflow = false;
    while i < input.len() && 48 <= input[i] && input[i] <= 57
        invariant
            1 <= i <= input@.len(),
            forall|k: int| 1 <= k < i ==> is_digit(#[trigger] input@[k]),
            !overflow ==> value == digits_value(input@.subrange(1, i as int)) && value <= u32::MAX,
            overflow ==> digits_value(input@.subrange(1, i as int)) > u32::MAX,
        decreases input@.len() - i,
    {
        let ghost before = input@.subrange(1, i as int);
        assert(input@.subrange(1, i + 1).drop_last() =~= before);
        assert(input@.subrange(1, i + 1).last() == input@[i as int]);
        if !overflow {
            value = value * 10 + (input[i] - 48) as u64;
            if value > 4294967295 {
                overflow = true;
            }
        }
        i = i + 1;
    }
    if i == 1 || i >= input.len() || input[i] != 93 || overflow || value == 0 {
        proof {
            assert forall|end: int, n: nat| #[trigger] count_at(input@, end, n) implies n > u32::MAX by {
                if end - 1 < i {
                    assert(!is_digit(input@[end - 1]));
                } else if end - 1 > i {
                    if i < input@.len() {
                        assert(is_digit(input@[i as int]));
                    }
                }
            }
        }
        return (0, None);
    }
    (i + 1, Some(value as u32))
}

/// Another identifier follows a `.` at `pos`.
pub open spec fn continues_at(s: Seq<u8>, pos: int) -> bool {
    pos + 1 < s.len() && s[pos] == 46 && is_ident_start(s[pos + 1])
}

/// `spans` are the identifiers of a dotted name at the start of `s`, each
/// as `(start, end)`, taken as far as the name goes.
pub open spec fn access_name_at(s: Seq<u8>, spans: Seq<(usize, usize)>) -> bool {
    &&& spans.len() >= 1
    &&& spans[0].0 == 0
    &&& forall|k: int| 0 <= k < spans.len() ==> ident_end(s, (#[trigger] spans[k]).0 as int, spans[k].1 as int)
    &&& forall|k: int|
        0 < k < spans.len() ==> (#[trigger] spans[k]).0 == spans[k - 1].1 + 1 && s[spans[k - 1].1 as int]
            == 46
    &&& !continues_at(s, spans.last().1 as int)
}

/// Reads a dotted name, identifiers separated by `.`, from the start of
/// `input`. Returns the bytes taken and where each identifier stands; a `.`
/// that no identifier follows is left unread. `None` where `input` does not
/// start with an identifier.
pub fn parse_global_access_name(input: &[u8]) -> (r: Option<(usize, Vec<(usize, usize)>)>)
    ensures
        match r {
            Some((n, spans)) => access_name_at(input@, spans@) && n == spans@.last().1,
            None => input@.len() == 0 || !is_ident_start(input@[0]),
        },
{
    let first = match scan_identifier(input, 0) {
        Some(end) => end,
        None => return None,
    };
    let mut spans: Vec<(usize, usize)> = Vec::new();
    spans.push((0, first));
    let mut pos = first;
    while pos < input.len() && input[pos] == 46 && pos + 1 < input.len() && is_ident_start_byte(
        input[pos + 1],
    )
        invariant
            pos <= input@.len(),
            spans@.len() >= 1,
            spans@[0].0 == 0,
            spans@.last().1 == pos,
            forall|k: int|
                0 <= k < spans@.len() ==> ident_end(input@, (#[trigger] spans@[k]).0 as int, spans@[k].1 as int),
            forall|k: int|
                0 < k < spans@.len() ==> (#[trigger] spans@[k]).0 == spans@[k - 1].1 + 1 && input@[spans@[k
                    - 1].1 as int] == 46,
        decreases input@.len() - pos,
    {
        let end = match scan_identifier(input, pos + 1) {
            Some(end) => end,
            None => return None,
        };
        spans.push((pos + 1, end));
        pos = end;
    }
    Some((pos, spans))
}

/// Reads a pragma line. Pragmas carry no directive that this library acts
/// on: every hint keeps its default, so there is nothing to read.
pub fn parse_pragma() {
}

} // verus!
