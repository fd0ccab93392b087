//! What the operations on texts do.

use vstd::prelude::*;

use crate::text::{
    after_prefix, all_digits, blank, decimal, decimal_padded, digits_value, is_digit, is_space,
    join, lex_lt, lines, occurs, occurs_at, parse_signed, parse_unsigned, path_join, replace,
    signed_decimal, split, starts, strip_cr, trim, trim_end, trim_start,
};

verus! {

/// Trimming takes white space off both ends, as much as there is, and nothing else.
pub proof fn law_trimming_takes_off_spaces(s: Seq<char>)
    ensures
        exists|a: Seq<char>, b: Seq<char>|
            s == #[trigger] (a + trim(s) + b) && blank(a) && blank(b),
        trim(s).len() > 0 ==> !is_space(trim(s)[0]) && !is_space(trim(s).last()),
{
    lemma_front_off(s);
    lemma_end_off(trim_start(s));
    let a = choose|a: Seq<char>| s == #[trigger] (a + trim_start(s)) && blank(a);
    let b = choose|b: Seq<char>| trim_start(s) == #[trigger] (trim(s) + b) && blank(b);
    assert(s =~= a + trim(s) + b);
    if trim(s).len() > 0 {
        assert(trim_start(s)[0] == trim(s)[0]);
    }
}

proof fn lemma_front_off(s: Seq<char>)
    ensures
        exists|a: Seq<char>| s == #[trigger] (a + trim_start(s)) && blank(a),
        trim_start(s).len() > 0 ==> !is_space(trim_start(s)[0]),
    decreases s.len(),
{
    if s.len() > 0 && is_space(s[0]) {
        lemma_front_off(s.skip(1));
        let a = choose|a: Seq<char>|
            s.skip(1) == #[trigger] (a + trim_start(s.skip(1))) && blank(a);
        let longer = seq![s[0]] + a;
        assert(s =~= seq![s[0]] + s.skip(1));
        assert(s.skip(1) == a + trim_start(s));
        assert(s =~= longer + trim_start(s));
        assert(blank(longer));
    } else {
        assert(s =~= Seq::<char>::empty() + trim_start(s));
        assert(blank(Seq::<char>::empty()));
    }
}

proof fn lemma_end_off(s: Seq<char>)
    ensures
        exists|b: Seq<char>| s == #[trigger] (trim_end(s) + b) && blank(b),
        trim_end(s).len() > 0 ==> !is_space(trim_end(s).last()),
    decreases s.len(),
{
    if s.len() > 0 && is_space(s.last()) {
        lemma_end_off(s.drop_last());
        let b = choose|b: Seq<char>|
            s.drop_last() == #[trigger] (trim_end(s.drop_last()) + b) && blank(b);
        let longer = b.push(s.last());
        assert(s =~= s.drop_last().push(s.last()));
        assert(s.drop_last() == trim_end(s) + b);
        assert(s =~= trim_end(s) + longer);
        assert(blank(longer));
    } else {
        assert(s =~= trim_end(s) + Seq::<char>::empty());
        assert(blank(Seq::<char>::empty()));
    }
}

/// A space, a tab and the ends of a line are white space; a character that is printed and in ASCII
/// is none.
pub proof fn law_white_space(c: char)
    ensures
        c == ' ' || c == '\t' || c == '\n' || c == '\r' ==> is_space(c),
        33 <= c as u32 <= 126 ==> !is_space(c),
{
}

/// The parts of a text do not hold the character between them, and make up the text again.
pub proof fn law_parts_make_up_the_text(s: Seq<char>, c: char)
    ensures
        split(s, c).len() > 0,
        join(split(s, c), seq![c]) == s,
        forall|k: int| 0 <= k < split(s, c).len() ==> !(#[trigger] split(s, c)[k]).contains(c),
    decreases s.len(),
{
    let parts = split(s, c);
    if s.len() == 0 {
        assert(parts[0] =~= s);
    } else {
        let rest = s.drop_last();
        law_parts_make_up_the_text(rest, c);
        let front = split(rest, c);
        if s.last() == c {
            assert(parts.drop_last() =~= front);
            assert(join(parts, seq![c]) =~= rest + seq![c]);
            assert(rest + seq![c] =~= s);
            assert forall|k: int| 0 <= k < parts.len() implies !(#[trigger] parts[k]).contains(
                c,
            ) by {
                if k < front.len() {
                    assert(parts[k] == front[k]);
                }
            }
        } else {
            let last = front.last().push(s.last());
            assert(parts.drop_last() =~= front.drop_last());
            assert(parts.last() == last);
            if front.len() == 1 {
                assert(join(parts, seq![c]) == last);
                assert(last =~= s);
            } else {
                assert(join(parts, seq![c]) =~= join(front.drop_last(), seq![c]) + seq![c] + last);
                assert(join(front, seq![c]) == join(front.drop_last(), seq![c]) + seq![c]
                    + front.last());
                assert(join(parts, seq![c]) =~= rest.push(s.last()));
                assert(rest.push(s.last()) =~= s);
            }
            assert forall|k: int| 0 <= k < parts.len() implies !(#[trigger] parts[k]).contains(
                c,
            ) by {
                if k < front.len() - 1 {
                    assert(parts[k] == front[k]);
                } else {
                    assert(!front[front.len() - 1].contains(c));
                    if last.contains(c) {
                        let m = last.index_of(c);
                        assert(m < front.last().len());
                        assert(front.last()[m] == c);
                    }
                }
            }
        }
    }
}

/// Parts are joined in their order with the separator between each two.
pub proof fn law_joined_parts(parts: Seq<Seq<char>>, part: Seq<char>, sep: Seq<char>)
    ensures
        join(Seq::empty(), sep) == Seq::<char>::empty(),
        join(seq![part], sep) == part,
        parts.len() > 0 ==> join(parts.push(part), sep) == join(parts, sep) + sep + part,
{
    assert(parts.push(part).drop_last() =~= parts);
}

/// The lines of a text without carriage returns are its parts between the ends of lines, without an
/// empty one behind the last end.
pub proof fn law_lines_make_up_the_text(s: Seq<char>)
    requires
        !s.contains('\r'),
    ensures
        s == join(lines(s), "\n"@) || (lines(s).len() > 0 && s == join(lines(s), "\n"@) + "\n"@),
        forall|k: int| 0 <= k < lines(s).len() ==> !(#[trigger] lines(s)[k]).contains('\n'),
{
    reveal_strlit("\n");
    law_parts_make_up_the_text(s, '\n');
    let parts = split(s, '\n');
    assert("\n"@ =~= seq!['\n']);
    lemma_no_returns(s);
    let ended = parts.drop_last().map_values(|line: Seq<char>| strip_cr(line));
    assert(ended =~= parts.drop_last()) by {
        assert forall|k: int| 0 <= k < ended.len() implies #[trigger] ended[k] == parts[k] by {
            assert(!parts[k].contains('\r'));
            if parts[k].len() > 0 {
                assert(parts[k].contains(parts[k].last())) by {
                    assert(parts[k][parts[k].len() - 1] == parts[k].last());
                }
            }
        }
    }
    if parts.last().len() == 0 {
        if parts.len() > 1 {
            assert(s =~= join(ended, "\n"@) + "\n"@);
        } else {
            assert(s =~= join(ended, "\n"@));
        }
    } else {
        assert(ended.push(parts.last()) =~= parts);
    }
}

proof fn lemma_no_returns(s: Seq<char>)
    requires
        !s.contains('\r'),
    ensures
        forall|k: int| 0 <= k < split(s, '\n').len() ==> !(#[trigger] split(s, '\n')[k]).contains('\r'),
    decreases s.len(),
{
    if s.len() > 0 {
        let rest = s.drop_last();
        assert(!rest.contains('\r')) by {
            if rest.contains('\r') {
                let m = rest.index_of('\r');
                assert(s[m] == '\r');
            }
        }
        lemma_no_returns(rest);
        law_parts_make_up_the_text(rest, '\n');
        let front = split(rest, '\n');
        let parts = split(s, '\n');
        assert forall|k: int| 0 <= k < parts.len() implies !(#[trigger] parts[k]).contains('\r') by {
            if k < front.len() - 1 || (s.last() == '\n' && k < front.len()) {
                assert(parts[k] == front[k]);
            } else if s.last() != '\n' {
                assert(!front[front.len() - 1].contains('\r'));
                if parts[k].contains('\r') {
                    let m = parts[k].index_of('\r');
                    if m < front.last().len() {
                        assert(front.last()[m] == '\r');
                    } else {
                        assert(s[s.len() - 1] == '\r');
                    }
                }
            }
        }
    }
}

/// Replacing goes over a text from one end to the other: what is replaced in two texts one after
/// the other is replaced in each, and a character becomes the other text or stays.
pub proof fn law_each_character_is_replaced(
    a: Seq<char>,
    b: Seq<char>,
    c: char,
    d: char,
    with: Seq<char>,
)
    ensures
        replace(a + b, c, with) == replace(a, c, with) + replace(b, c, with),
        replace(seq![c], c, with) == with,
        c != d ==> replace(seq![d], c, with) == seq![d],
    decreases b.len(),
{
    if b.len() == 0 {
        assert(a + b =~= a);
        assert(replace(a, c, with) + replace(b, c, with) =~= replace(a, c, with));
    } else {
        law_each_character_is_replaced(a, b.drop_last(), c, d, with);
        assert((a + b).drop_last() =~= a + b.drop_last());
        assert(replace(a + b, c, with) =~= replace(a, c, with) + replace(b, c, with));
    }
    assert(seq![c].drop_last() =~= Seq::<char>::empty());
    assert(seq![d].drop_last() =~= Seq::<char>::empty());
    assert(replace(Seq::<char>::empty(), c, with) == Seq::<char>::empty());
    assert(replace(seq![c], c, with) =~= Seq::<char>::empty() + with);
    assert(Seq::<char>::empty() + with =~= with);
    assert(c != d ==> replace(seq![d], c, with) =~= seq![d]);
}

/// Numbers are written with the digits from zero to nine, the highest place first; and are read
/// back from them.
pub proof fn law_numbers_are_decimal(n: nat, d: nat, s: Seq<char>, c: char)
    requires
        d < 10,
    ensures
        decimal(d) == seq![(48 + d) as char],
        n > 0 ==> decimal(n * 10 + d) == decimal(n).push((48 + d) as char),
        digits_value(Seq::empty()) == 0,
        48 <= c as u32 <= 57 ==> digits_value(s.push(c)) == digits_value(s) * 10 + (c as u32 - 48),
{
    assert(s.push(c).drop_last() =~= s);
    if n > 0 {
        assert((n * 10 + d) / 10 == n && (n * 10 + d) % 10 == d);
    }
}

/// A number that is written with a width has zeros in front up to the width.
pub proof fn law_padded_number(n: nat, width: nat)
    ensures
        decimal_padded(n, width).len() == if decimal(n).len() >= width {
            decimal(n).len()
        } else {
            width
        },
        forall|k: int|
            0 <= k < decimal_padded(n, width).len() - decimal(n).len() ==> #[trigger] decimal_padded(
                n,
                width,
            )[k] == '0',
        decimal_padded(n, width).skip(
            decimal_padded(n, width).len() - decimal(n).len() as int,
        ) == decimal(n),
{
    let s = decimal_padded(n, width);
    assert(s.skip(s.len() - decimal(n).len() as int) =~= decimal(n));
}

/// A text is read as a number exactly where it is made of digits, a plus sign in front or not, and
/// the number is not too large.
pub proof fn law_number_is_read(s: Seq<char>, max: nat)
    ensures
        (s.len() > 0 && forall|k: int| 0 <= k < s.len() ==> 48 <= #[trigger] s[k] as u32 <= 57)
            && digits_value(s) <= max ==> parse_unsigned(s, max) == Some(digits_value(s))
            && parse_unsigned(seq!['+'] + s, max) == Some(digits_value(s)),
        s.len() == 0 ==> parse_unsigned(s, max) is None,
        (exists|k: int| 0 < k < s.len() && !(48 <= #[trigger] s[k] as u32 <= 57)) ==> parse_unsigned(
            s,
            max,
        ) is None,
        s.len() > 0 && s[0] != '+' && !(48 <= s[0] as u32 <= 57) ==> parse_unsigned(s, max) is None,
        parse_unsigned(s, max) matches Some(n) ==> n <= max,
{
    let plus = seq!['+'] + s;
    assert(plus.skip(1) =~= s);
    if s.len() > 0 && forall|k: int| 0 <= k < s.len() ==> 48 <= #[trigger] s[k] as u32 <= 57 {
        assert(s[0] != '+');
        assert(all_digits(s)) by {
            assert forall|k: int| 0 <= k < s.len() implies is_digit(#[trigger] s[k]) by {}
        }
    }
    if exists|k: int| 0 < k < s.len() && !(48 <= #[trigger] s[k] as u32 <= 57) {
        let k = choose|k: int| 0 < k < s.len() && !(48 <= #[trigger] s[k] as u32 <= 57);
        if s[0] == '+' {
            assert(!is_digit(s.skip(1)[k - 1]));
        } else {
            assert(!is_digit(s[k]));
        }
    }
    if s.len() > 0 && s[0] != '+' && !(48 <= s[0] as u32 <= 57) {
        assert(!is_digit(s[0]));
    }
}

/// A name is put behind a path with one slash between them; a path of its own takes the place of
/// the other.
pub proof fn law_paths_are_joined(base: Seq<char>, name: Seq<char>)
    ensures
        name.len() > 0 && name[0] == '/' ==> path_join(base, name) == name,
        base.len() == 0 ==> path_join(base, name) == name,
        base.len() > 0 && (name.len() == 0 || name[0] != '/') && base.last() == '/' ==> path_join(
            base,
            name,
        ) == base + name,
        base.len() > 0 && (name.len() == 0 || name[0] != '/') && base.last() != '/' ==> path_join(
            base,
            name,
        ) == base + "/"@ + name,
{
}

/// Texts are ordered by the first character in which they differ; one that goes on is behind one
/// that ends there.
pub proof fn law_first_difference_decides(
    p: Seq<char>,
    a: Seq<char>,
    b: Seq<char>,
    x: char,
    y: char,
)
    ensures
        x != y ==> lex_lt(p.push(x) + a, p.push(y) + b) == ((x as int) < (y as int)),
        lex_lt(p, p.push(y) + b),
        !lex_lt(p.push(x) + a, p),
        !lex_lt(p, p),
    decreases p.len(),
{
    let s = p.push(x) + a;
    let t = p.push(y) + b;
    if p.len() > 0 {
        let q = p.skip(1);
        law_first_difference_decides(q, a, b, x, y);
        assert(s.skip(1) =~= q.push(x) + a);
        assert(t.skip(1) =~= q.push(y) + b);
        assert(s[0] == p[0] && t[0] == p[0]);
    } else {
        assert(s[0] == x && t[0] == y);
    }
}

/// A text occurs in another where that one is made of it with something before and behind.
pub proof fn law_text_occurs(a: Seq<char>, p: Seq<char>, b: Seq<char>, s: Seq<char>)
    ensures
        occurs(a + p + b, p),
        occurs(s, p) ==> exists|x: Seq<char>, y: Seq<char>| s == #[trigger] (x + p + y),
        starts(p + b, p),
        after_prefix(p + b, p) == Some(b),
        starts(s, p) ==> exists|y: Seq<char>| s == #[trigger] (p + y),
{
    let whole = a + p + b;
    assert(whole.subrange(a.len() as int, a.len() as int + p.len()) =~= p);
    assert(occurs_at(whole, p, a.len() as int));
    if occurs(s, p) {
        let i = choose|i: int| #[trigger] occurs_at(s, p, i);
        assert(s =~= s.take(i) + p + s.skip(i + p.len())) by {
            assert(s.subrange(i, i + p.len()) == p);
            assert forall|k: int| 0 <= k < s.len() implies s[k] == (s.take(i) + p + s.skip(
                i + p.len(),
            ))[k] by {
                if i <= k < i + p.len() {
                    assert(s.subrange(i, i + p.len())[k - i] == s[k]);
                }
            }
        }
    }
    assert((p + b).take(p.len() as int) =~= p);
    assert((p + b).skip(p.len() as int) =~= b);
    if starts(s, p) {
        assert(s =~= p + s.skip(p.len() as int)) by {
            assert(s.take(p.len() as int) == p);
            assert forall|k: int| 0 <= k < s.len() implies s[k] == (p + s.skip(p.len() as int))[k] by {
                if k < p.len() {
                    assert(s.take(p.len() as int)[k] == s[k]);
                }
            }
        }
    }
}

/// A signed number has a minus sign in front where it is below zero, and is read back.
pub proof fn law_signed_numbers(n: nat, digits: Seq<char>, min: int, max: int)
    requires
        n > 0,
        all_digits(digits),
    ensures
        signed_decimal(-n) == "-"@ + decimal(n),
        signed_decimal(n as int) == decimal(n),
        min <= -digits_value(digits) <= max ==> parse_signed(seq!['-'] + digits, min, max) == Some(
            -digits_value(digits),
        ),
        min <= digits_value(digits) <= max ==> parse_signed(digits, min, max) == Some(
            digits_value(digits) as int,
        ),
{
    let below = seq!['-'] + digits;
    assert(below[0] == '-');
    assert(below.skip(1) =~= digits);
    assert(is_digit(digits[0]));
}

/// A carriage return at the end of a line is left out.
pub proof fn law_returns_are_left_out(line: Seq<char>)
    ensures
        strip_cr(line.push('\r')) == line,
        line.len() == 0 || line.last() != '\r' ==> strip_cr(line) == line,
{
    assert(line.push('\r').drop_last() =~= line);
}

} // verus!
