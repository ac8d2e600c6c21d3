//! Reading a room's size and a robot's commands from lines of text.

use vstd::prelude::*;

verus! {

/// The characters that count as blank at the ends of a line: those that Unicode gives
/// the property `White_Space`, the line feed and the carriage return among them.
pub open spec fn is_blank(c: char) -> bool {
    let n = c as u32;
    ||| 0x0009 <= n <= 0x000D
    ||| n == 0x0020
    ||| n == 0x0085
    ||| n == 0x00A0
    ||| n == 0x1680
    ||| 0x2000 <= n <= 0x200A
    ||| n == 0x2028
    ||| n == 0x2029
    ||| n == 0x202F
    ||| n == 0x205F
    ||| n == 0x3000
}

/// A text without the blanks at its end.
pub open spec fn trim_end(s: Seq<char>) -> Seq<char>
    decreases s.len(),
{
    if s.len() > 0 && is_blank(s.last()) {
        trim_end(s.drop_last())
    } else {
        s
    }
}

/// A text without the blanks at its start.
pub open spec fn trim_start(s: Seq<char>) -> Seq<char>
    decreases s.len(),
{
    if s.len() > 0 && is_blank(s.first()) {
        trim_start(s.drop_first())
    } else {
        s
    }
}

/// A text without the blanks at either end.
pub open spec fn trim(s: Seq<char>) -> Seq<char> {
    trim_start(trim_end(s))
}

/// A decimal digit.
pub open spec fn is_digit(c: char) -> bool {
    0x30 <= c as u32 <= 0x39
}

/// What a digit is worth; `0` for a character that is none.
pub open spec fn digit_value(c: char) -> nat {
    if is_digit(c) {
        (c as u32 - 0x30) as nat
    } else {
        0
    }
}

/// Every character of the text is a decimal digit.
pub open spec fn all_digits(s: Seq<char>) -> bool {
    forall|i: int| 0 <= i < s.len() ==> is_digit(#[trigger] s[i])
}

/// The natural number that a row of digits writes, the most significant first.
pub open spec fn digits_value(s: Seq<char>) -> nat
    decreases s.len(),
{
    if s.len() == 0 {
        0
    } else {
        10 * digits_value(s.drop_last()) + digit_value(s.last())
    }
}

/// The text after its sign, if it starts with `+` or `-`, and else the whole text.
pub open spec fn unsigned_part(text: Seq<char>) -> Seq<char> {
    if text.len() > 0 && (text[0] == '-' || text[0] == '+') {
        text.drop_first()
    } else {
        text
    }
}

/// The number that a text writes: an optional sign, `+` or `-`, and then one or more
/// decimal digits and nothing else, for a value from `-2147483648` to `2147483647`.
/// Any other text writes no number.
pub open spec fn number_of(text: Seq<char>) -> Option<int> {
    let body = unsigned_part(text);
    let value = if text.len() > 0 && text[0] == '-' {
        -digits_value(body)
    } else {
        digits_value(body) as int
    };
    if body.len() > 0 && all_digits(body) && i32::MIN <= value <= i32::MAX {
        Some(value)
    } else {
        None
    }
}

/// The fields of a text: the stretches between one space and the next, in order. A text
/// with `n` spaces has `n + 1` fields, and two spaces in a row have an empty field
/// between them.
pub open spec fn fields(s: Seq<char>) -> Seq<Seq<char>>
    decreases s.len(),
{
    if s.len() == 0 {
        seq![Seq::empty()]
    } else {
        let before = fields(s.drop_last());
        if s.last() == ' ' {
            before.push(Seq::empty())
        } else {
            before.drop_last().push(before.last().push(s.last()))
        }
    }
}

/// The fields put together again, with a space between one and the next.
pub open spec fn joined(fs: Seq<Seq<char>>) -> Seq<char>
    decreases fs.len(),
{
    if fs.len() == 0 {
        Seq::empty()
    } else if fs.len() == 1 {
        fs[0]
    } else {
        joined(fs.drop_last()) + seq![' '] + fs.last()
    }
}

/// The room size that a line writes: a width and a height, in that order. Once the
/// blanks at the line's end are left off, the line must have exactly two fields, and
/// each must write a number. A line with one number, or with three, writes no room
/// size, and neither does one with a field that writes no number, an empty one among
/// them.
pub open spec fn room_size_of(line: Seq<char>) -> Option<Seq<i32>> {
    let fs = fields(trim_end(line));
    if fs.len() == 2 && number_of(fs[0]) is Some && number_of(fs[1]) is Some {
        Some(seq![number_of(fs[0])->0 as i32, number_of(fs[1])->0 as i32])
    } else {
        None
    }
}

/// A text has at least one field, no field holds a space, and the fields joined by
/// spaces are the text.
pub proof fn lemma_fields_join(s: Seq<char>)
    ensures
        fields(s).len() >= 1,
        forall|i: int, j: int|
            0 <= i < fields(s).len() && 0 <= j < fields(s)[i].len() ==> fields(s)[i][j] != ' ',
        joined(fields(s)) == s,
    decreases s.len(),
{
    if s.len() > 0 {
        let before = fields(s.drop_last());
        lemma_fields_join(s.drop_last());
        if s.last() == ' ' {
            assert(fields(s).drop_last() =~= before);
        } else if before.len() > 1 {
            assert(fields(s).drop_last() =~= before.drop_last());
            assert(joined(fields(s)) =~= joined(before).push(s.last()));
        }
    }
}

/// The fields of a beginning of a text, but for the last of them, are fields of the
/// whole text too.
proof fn lemma_fields_settled(s: Seq<char>, i: int)
    requires
        0 <= i <= s.len(),
    ensures
        1 <= fields(s.subrange(0, i)).len() <= fields(s).len(),
        forall|k: int|
            0 <= k < fields(s.subrange(0, i)).len() - 1 ==> fields(s)[k] == fields(
                s.subrange(0, i),
            )[k],
    decreases s.len(),
{
    lemma_fields_join(s);
    if i == s.len() {
        assert(s.subrange(0, i) =~= s);
    } else {
        lemma_fields_settled(s.drop_last(), i);
        assert(s.drop_last().subrange(0, i) =~= s.subrange(0, i));
    }
}

/// A row of digits is worth at least what any of its beginnings is worth.
proof fn lemma_digits_value_grows(s: Seq<char>, k: int)
    requires
        0 <= k <= s.len(),
    ensures
        digits_value(s.subrange(0, k)) <= digits_value(s),
    decreases s.len(),
{
    if k == s.len() {
        assert(s.subrange(0, k) =~= s);
    } else {
        lemma_digits_value_grows(s.drop_last(), k);
        assert(s.drop_last().subrange(0, k) =~= s.subrange(0, k));
    }
}

/// Whether a character is a blank.
fn blank(c: char) -> (b: bool)
    ensures
        b == is_blank(c),
{
    let n = c as u32;
    if n <= 0x0020 {
        (0x0009 <= n && n <= 0x000D) || n == 0x0020
    } else if n < 0x2000 {
        n == 0x0085 || n == 0x00A0 || n == 0x1680
    } else {
        n <= 0x200A || n == 0x2028 || n == 0x2029 || n == 0x202F || n == 0x205F || n == 0x3000
    }
}

/// The characters of a text, one by one.
fn chars_of(text: &str) -> (v: Vec<char>)
    ensures
        v@ == text@,
{
    let mut v: Vec<char> = Vec::new();
    for c in it: text.chars()
        invariant
            v@ == it.seq().take(it.index()),
    {
        v.push(c);
    }
    v
}

/// Where the text ends once the blanks at its end are left off.
fn trimmed_end(v: &Vec<char>) -> (end: usize)
    ensures
        end <= v@.len(),
        trim_end(v@) == v@.subrange(0, end as int),
{
    let mut end = v.len();
    assert(v@.subrange(0, end as int) =~= v@);
    while end > 0 && blank(v[end - 1])
        invariant
            end <= v@.len(),
            trim_end(v@) == trim_end(v@.subrange(0, end as int)),
        decreases end,
    {
        assert(v@.subrange(0, end as int).drop_last() =~= v@.subrange(0, end - 1));
        end -= 1;
    }
    end
}

/// Where the text `v[..end]` starts once the blanks at its start are left off.
fn trimmed_start(v: &Vec<char>, end: usize) -> (start: usize)
    requires
        end <= v@.len(),
    ensures
        start <= end,
        trim_start(v@.subrange(0, end as int)) == v@.subrange(start as int, end as int),
{
    let mut start: usize = 0;
    while start < end && blank(v[start])
        invariant
            start <= end <= v@.len(),
            trim_start(v@.subrange(0, end as int)) == trim_start(
                v@.subrange(start as int, end as int),
            ),
        decreases end - start,
    {
        assert(v@.subrange(start as int, end as int).drop_first() =~= v@.subrange(
            start + 1,
            end as int,
        ));
        start += 1;
    }
    start
}

/// Reads the number that the characters `v[from..to]` write.
fn number_between(v: &Vec<char>, from: usize, to: usize) -> (r: Option<i32>)
    requires
        from <= to <= v@.len(),
    ensures
        match r {
            Some(n) => number_of(v@.subrange(from as int, to as int)) == Some(n as int),
            None => number_of(v@.subrange(from as int, to as int)) is None,
        },
{
    let ghost text = v@.subrange(from as int, to as int);
    if from == to {
        return None;
    }
    let negative = v[from] == '-';
    let start = if v[from] == '-' || v[from] == '+' {
        from + 1
    } else {
        from
    };
    let ghost body = v@.subrange(start as int, to as int);
    if start == to {
        return None;
    }
    let limit: i64 = if negative {
        2147483648
    } else {
        2147483647
    };
    let mut value: i64 = 0;
    let mut i = start;
    while i < to
        invariant
            start <= i <= to <= v@.len(),
            start < to,
            text == v@.subrange(from as int, to as int),
            text.len() > 0,
            negative == (text[0] == '-'),
            body == unsigned_part(text),
            body == v@.subrange(start as int, to as int),
            limit == if negative { 2147483648i64 } else { 2147483647i64 },
            all_digits(body.subrange(0, i - start)),
            value == digits_value(body.subrange(0, i - start)),
            0 <= value <= limit,
        decreases to - i,
    {
        let c = v[i];
        let n = c as u32;
        if n < 0x30 || n > 0x39 {
            assert(!is_digit(body[i - start]));
            return None;
        }
        let digit = (n - 0x30) as i64;
        assert(body.subrange(0, i + 1 - start).drop_last() =~= body.subrange(0, i - start));
        if value * 10 + digit > limit {
            proof {
                lemma_digits_value_grows(body, i + 1 - start);
            }
            return None;
        }
        value = value * 10 + digit;
        i += 1;
    }
    assert(body.subrange(0, to - start) =~= body);
    if negative {
        Some((-value) as i32)
    } else {
        Some(value as i32)
    }
}

/// Reads a number: see [`number_of`] for the texts that write one.
pub fn parse_number(text: &str) -> (r: Option<i32>)
    ensures
        match r {
            Some(n) => number_of(text@) == Some(n as int),
            None => number_of(text@) is None,
        },
{
    let v = chars_of(text);
    assert(v@.subrange(0, v@.len() as int) =~= v@);
    number_between(&v, 0, v.len())
}

/// Reads a room's size from a line: two numbers, the width and then the height, with
/// one space between them. Blanks at the end of the line do not count. Anything else
/// spoils the line: fewer or more numbers than two, a second space in a row, a blank at
/// the start, a field that is no number.
pub fn room_size_from_line(line: &str) -> (r: Option<Vec<i32>>)
    ensures
        match r {
            Some(sizes) => sizes@.len() == 2 && room_size_of(line@) == Some(sizes@),
            None => room_size_of(line@) is None,
        },
{
    let v = chars_of(line);
    let end = trimmed_end(&v);
    let ghost s = v@.subrange(0, end as int);
    let mut sizes: Vec<i32> = Vec::new();
    let mut start: usize = 0;
    let mut i: usize = 0;
    while i < end
        invariant
            start <= i <= end <= v@.len(),
            s == v@.subrange(0, end as int),
            s == trim_end(line@),
            sizes@.len() <= 1,
            fields(s.subrange(0, i as int)).len() == sizes@.len() + 1,
            fields(s.subrange(0, i as int)).last() == s.subrange(start as int, i as int),
            forall|k: int|
                0 <= k < sizes@.len() ==> number_of(#[trigger] fields(s.subrange(0, i as int))[k])
                    == Some(sizes@[k] as int),
        decreases end - i,
    {
        let ghost before = fields(s.subrange(0, i as int));
        assert(s.subrange(0, i + 1).drop_last() =~= s.subrange(0, i as int));
        if v[i] == ' ' {
            if sizes.len() == 1 {
                // A third field starts here.
                proof {
                    lemma_fields_settled(s, i + 1);
                }
                return None;
            }
            assert(s.subrange(start as int, i as int) =~= v@.subrange(start as int, i as int));
            match number_between(&v, start, i) {
                Some(n) => {
                    sizes.push(n);
                },
                None => {
                    proof {
                        lemma_fields_settled(s, i + 1);
                        assert(fields(s)[before.len() - 1] == before.last());
                    }
                    return None;
                },
            }
            start = i + 1;
        }
        i += 1;
    }
    assert(s.subrange(0, end as int) =~= s);
    if sizes.len() != 1 {
        return None;
    }
    assert(s.subrange(start as int, end as int) =~= v@.subrange(start as int, end as int));
    match number_between(&v, start, end) {
        Some(n) => {
            sizes.push(n);
            assert(room_size_of(line@)->0 =~= sizes@);
            Some(sizes)
        },
        None => None,
    }
}

/// A text of the one character `line[i]`.
fn letter_at(line: &str, v: &Vec<char>, i: usize) -> (log: String)
    requires
        v@ == line@,
        i < v.len(),
    ensures
        log@ == seq![line@[i as int]],
{
    proof {
        reveal_strlit("F");
        reveal_strlit("T");
        reveal_strlit("D");
        reveal_strlit("E");
    }
    // A command's code is at hand; any other character is cut out of the line, which
    // takes the longer the further into the line it stands.
    let c = v[i];
    let letter = if c == 'F' {
        "F"
    } else if c == 'T' {
        "T"
    } else if c == 'D' {
        "D"
    } else if c == 'E' {
        "E"
    } else {
        line.substring_char(i, i + 1)
    };
    String::from_str(letter)
}

/// The commands' codes on a line: the line without the blanks at its ends, cut into
/// its characters, each a text of its own. A line of blanks holds none.
pub fn logs_from_line(line: &str) -> (logs: Vec<String>)
    ensures
        logs@.len() == trim(line@).len(),
        forall|i: int| 0 <= i < logs@.len() ==> (#[trigger] logs@[i])@ == seq![trim(line@)[i]],
{
    let v = chars_of(line);
    let end = trimmed_end(&v);
    let start = trimmed_start(&v, end);
    let mut logs: Vec<String> = Vec::new();
    let mut i = start;
    while i < end
        invariant
            start <= i <= end <= v@.len(),
            v@ == line@,
            trim(line@) == line@.subrange(start as int, end as int),
            logs@.len() == i - start,
            forall|k: int| 0 <= k < logs@.len() ==> (#[trigger] logs@[k])@ == seq![line@[start + k]],
        decreases end - i,
    {
        logs.push(letter_at(line, &v, i));
        i += 1;
    }
    logs
}

} // verus!
