//! Text: decimal numbers, trimming and joining.
use vstd::prelude::*;
use vstd::string::*;

verus! {

/// The character that stands for a digit below ten.
pub open spec fn digit_char(digit: nat) -> char {
    (48 + digit) as char
}

/// The decimal notation of a number: no sign, no leading zero.
pub open spec fn decimal(n: nat) -> Seq<char>
    decreases n,
{
    if n < 10 {
        seq![digit_char(n)]
    } else {
        decimal(n / 10).push(digit_char(n % 10))
    }
}

/// Whether a character has the Unicode property White_Space.
pub open spec fn white_space(c: char) -> bool {
    let code = c as u32;
    ||| 0x09 <= code <= 0x0d
    ||| code == 0x20
    ||| code == 0x85
    ||| code == 0xa0
    ||| code == 0x1680
    ||| 0x2000 <= code <= 0x200a
    ||| code == 0x2028
    ||| code == 0x2029
    ||| code == 0x202f
    ||| code == 0x205f
    ||| code == 0x3000
}

/// `s` without the white space at its end.
pub open spec fn trimmed_end(s: Seq<char>) -> Seq<char>
    decreases s.len(),
{
    if s.len() > 0 && white_space(s.last()) {
        trimmed_end(s.drop_last())
    } else {
        s
    }
}

/// `s` without the white space at its start.
pub open spec fn trimmed_start(s: Seq<char>) -> Seq<char>
    decreases s.len(),
{
    if s.len() > 0 && white_space(s.first()) {
        trimmed_start(s.drop_first())
    } else {
        s
    }
}

/// `s` without the white space at both ends.
pub open spec fn trimmed(s: Seq<char>) -> Seq<char> {
    trimmed_start(trimmed_end(s))
}

/// Whether nothing is left of `s` once it is trimmed.
pub open spec fn blank(s: Seq<char>) -> bool {
    trimmed(s).len() == 0
}

/// `s` without the slashes at its end.
pub open spec fn unslashed(s: Seq<char>) -> Seq<char>
    decreases s.len(),
{
    if s.len() > 0 && s.last() == '/' {
        unslashed(s.drop_last())
    } else {
        s
    }
}

/// The parts in their order, with `separator` between each two neighbours.
pub open spec fn joined(parts: Seq<Seq<char>>, separator: Seq<char>) -> Seq<char>
    decreases parts.len(),
{
    if parts.len() == 0 {
        Seq::empty()
    } else if parts.len() == 1 {
        parts[0]
    } else {
        joined(parts.drop_last(), separator) + separator + parts.last()
    }
}

/// What a sequence of strings holds.
pub open spec fn texts(strings: Seq<String>) -> Seq<Seq<char>> {
    Seq::new(strings.len(), |i: int| strings[i]@)
}

/// What an optional string holds.
pub open spec fn optional_text(string: Option<String>) -> Option<Seq<char>> {
    match string {
        Some(s) => Some(s@),
        None => None,
    }
}

fn digit_text(digit: u64) -> (r: &'static str)
    requires
        digit < 10,
    ensures
        r@ == seq![digit_char(digit as nat)],
{
    proof {
        reveal_strlit("0");
        reveal_strlit("1");
        reveal_strlit("2");
        reveal_strlit("3");
        reveal_strlit("4");
        reveal_strlit("5");
        reveal_strlit("6");
        reveal_strlit("7");
        reveal_strlit("8");
        reveal_strlit("9");
    }
    match digit {
        0 => "0",
        1 => "1",
        2 => "2",
        3 => "3",
        4 => "4",
        5 => "5",
        6 => "6",
        7 => "7",
        8 => "8",
        _ => "9",
    }
}

/// Writes a number in decimal.
pub fn decimal_text(n: u64) -> (r: String)
    ensures
        r@ == decimal(n as nat),
    decreases n,
{
    if n < 10 {
        digit_text(n).to_owned()
    } else {
        decimal_text(n / 10).concat(digit_text(n % 10))
    }
}

/// Tells whether a character has the Unicode property White_Space.
pub fn is_white_space(c: char) -> (r: bool)
    ensures
        r == white_space(c),
{
    let code: u32 = c as u32;
    (0x09 <= code && code <= 0x0d) || code == 0x20 || code == 0x85 || code == 0xa0 || code == 0x1680
        || (0x2000 <= code && code <= 0x200a) || code == 0x2028 || code == 0x2029 || code == 0x202f
        || code == 0x205f || code == 0x3000
}

/// Removes the white space at both ends.
pub fn trim(s: &str) -> (r: &str)
    ensures
        r@ == trimmed(s@),
{
    let length: usize = s.unicode_len();
    let mut end: usize = length;
    assert(s@.take(end as int) =~= s@);
    while end > 0 && is_white_space(s.get_char(end - 1))
        invariant
            end <= s@.len(),
            trimmed_end(s@.take(end as int)) == trimmed_end(s@),
        decreases end,
    {
        assert(s@.take(end as int).drop_last() =~= s@.take(end - 1));
        end = end - 1;
    }
    let ghost kept = s@.take(end as int);
    assert(end > 0 ==> kept.last() == s@[end - 1]);
    assert(trimmed_end(s@) == kept);
    let mut start: usize = 0;
    assert(kept.skip(0) =~= kept);
    while start < end && is_white_space(s.get_char(start))
        invariant
            start <= end <= s@.len(),
            kept == s@.take(end as int),
            trimmed_start(kept.skip(start as int)) == trimmed_start(kept),
        decreases end - start,
    {
        assert(kept.skip(start as int).first() == s@[start as int]);
        assert(kept.skip(start as int).drop_first() =~= kept.skip(start + 1));
        start = start + 1;
    }
    assert(start < end ==> kept.skip(start as int).first() == s@[start as int]);
    assert(s@.subrange(start as int, end as int) =~= kept.skip(start as int));
    s.substring_char(start, end)
}

/// Removes every slash at the end.
pub fn without_trailing_slashes(s: &str) -> (r: &str)
    ensures
        r@ == unslashed(s@),
{
    let mut end: usize = s.unicode_len();
    assert(s@.take(end as int) =~= s@);
    while end > 0 && s.get_char(end - 1) == '/'
        invariant
            end <= s@.len(),
            unslashed(s@.take(end as int)) == unslashed(s@),
        decreases end,
    {
        assert(s@.take(end as int).drop_last() =~= s@.take(end - 1));
        end = end - 1;
    }
    assert(end > 0 ==> s@.take(end as int).last() == s@[end - 1]);
    assert(s@.subrange(0, end as int) =~= s@.take(end as int));
    s.substring_char(0, end)
}

/// Joins the parts in their order, with `separator` between each two neighbours.
pub fn join_texts(parts: &Vec<String>, separator: &str) -> (r: String)
    ensures
        r@ == joined(texts(parts@), separator@),
{
    let ghost all = texts(parts@);
    let mut r = String::new();
    let mut i: usize = 0;
    while i < parts.len()
        invariant
            i <= parts.len(),
            all == texts(parts@),
            r@ == joined(all.take(i as int), separator@),
        decreases parts.len() - i,
    {
        let ghost longer = all.take(i + 1);
        assert(longer.drop_last() =~= all.take(i as int));
        assert(longer.last() == parts@[i as int]@);
        if i > 0 {
            r.append(separator);
        } else {
            assert(r@ =~= Seq::<char>::empty());
        }
        r.append(parts[i].as_str());
        assert(r@ =~= joined(longer, separator@));
        i = i + 1;
    }
    assert(all.take(i as int) =~= all);
    r
}

/// The number that a text of digits stands for.
pub open spec fn value_of(digits: Seq<char>) -> int
    decreases digits.len(),
{
    if digits.len() == 0 {
        0
    } else {
        10 * value_of(digits.drop_last()) + (digits.last() as int - '0' as int)
    }
}

/// Whether a text is the usual notation of a number: digits that stand for it,
/// the first of which is a zero only where it is the only one.
pub open spec fn is_numeral(digits: Seq<char>, n: int) -> bool {
    &&& digits.len() > 0
    &&& forall|i: int| 0 <= i < digits.len() ==> '0' <= #[trigger] digits[i] <= '9'
    &&& digits.len() > 1 ==> digits[0] != '0'
    &&& value_of(digits) == n
}

/// A number is written in its usual notation.
pub proof fn decimal_is_a_numeral(n: nat)
    ensures
        is_numeral(decimal(n), n as int),
    decreases n,
{
    decimal_has_only_digits(n);
    decimal_is_not_empty(n);
    if n >= 10 {
        decimal_is_a_numeral(n / 10);
        decimal_is_not_empty(n / 10);
        assert(decimal(n).drop_last() =~= decimal(n / 10));
        assert(decimal(n)[0] == decimal(n / 10)[0]);
        if decimal(n / 10).len() == 1 {
            assert(decimal(n / 10).drop_last() =~= Seq::empty());
            assert(value_of(decimal(n / 10).drop_last()) == 0);
        }
    } else {
        assert(decimal(n).drop_last() =~= Seq::empty());
        assert(value_of(decimal(n).drop_last()) == 0);
    }
}

/// There is no other notation of a number than the one it is written in.
pub proof fn decimal_is_the_only_numeral(digits: Seq<char>, n: nat)
    requires
        is_numeral(digits, n as int),
    ensures
        digits == decimal(n),
    decreases digits.len(),
{
    let front = digits.drop_last();
    let last = digits.last() as int - '0' as int;
    assert(digits.last() == digits[digits.len() - 1]);
    if digits.len() == 1 {
        assert(value_of(front) == 0);
        assert(digits =~= seq![digit_char(n)]);
    } else {
        assert forall|i: int| 0 <= i < front.len() implies '0' <= #[trigger] front[i] <= '9' by {
            assert(front[i] == digits[i]);
        }
        assert(front[0] == digits[0]);
        value_is_not_negative(front);
        let rest = value_of(front) as nat;
        decimal_is_the_only_numeral(front, rest);
        assert(rest > 0) by {
            if rest == 0 {
                assert(front[0] == digit_char(0));
            }
        }
        assert(n == 10 * rest + last);
        assert(n / 10 == rest && n % 10 == last);
        assert(digits =~= front.push(digits.last()));
    }
}

proof fn value_is_not_negative(digits: Seq<char>)
    requires
        forall|i: int| 0 <= i < digits.len() ==> '0' <= #[trigger] digits[i] <= '9',
    ensures
        value_of(digits) >= 0,
    decreases digits.len(),
{
    if digits.len() > 0 {
        let front = digits.drop_last();
        assert forall|i: int| 0 <= i < front.len() implies '0' <= #[trigger] front[i] <= '9' by {
            assert(front[i] == digits[i]);
        }
        value_is_not_negative(front);
        assert('0' <= digits[digits.len() - 1]);
    }
}

/// Whether a text has no other characters than white space.
pub open spec fn only_white_space(s: Seq<char>) -> bool {
    forall|i: int| 0 <= i < s.len() ==> white_space(#[trigger] s[i])
}

/// Whether a text has no white space at its ends.
pub open spec fn no_outer_white_space(s: Seq<char>) -> bool {
    s.len() > 0 ==> !white_space(s.first()) && !white_space(s.last())
}

/// Trimming takes away the white space at both ends, and leaves all that is
/// between, be there white space in it or not.
pub proof fn trimming_leaves_what_is_between(before: Seq<char>, inside: Seq<char>, after: Seq<char>)
    requires
        only_white_space(before),
        no_outer_white_space(inside),
        only_white_space(after),
    ensures
        trimmed(before + inside + after) == inside,
{
    end_is_trimmed(before + inside, after);
    if inside.len() > 0 {
        assert((before + inside).last() == inside.last());
        start_is_trimmed(before, inside);
    } else {
        assert(before + inside =~= Seq::empty() + before);
        end_is_trimmed(Seq::empty(), before);
        assert(trimmed_end(before + inside) =~= Seq::empty());
        assert(inside =~= Seq::empty());
    }
}

proof fn end_is_trimmed(front: Seq<char>, after: Seq<char>)
    requires
        only_white_space(after),
    ensures
        trimmed_end(front + after) == trimmed_end(front),
    decreases after.len(),
{
    if after.len() > 0 {
        assert((front + after).last() == after[after.len() - 1]);
        assert((front + after).drop_last() =~= front + after.drop_last());
        end_is_trimmed(front, after.drop_last());
    } else {
        assert(front + after =~= front);
    }
}

proof fn start_is_trimmed(before: Seq<char>, inside: Seq<char>)
    requires
        only_white_space(before),
        inside.len() > 0,
        !white_space(inside.first()),
    ensures
        trimmed_start(before + inside) == inside,
    decreases before.len(),
{
    if before.len() > 0 {
        assert((before + inside).first() == before[0]);
        assert((before + inside).drop_first() =~= before.drop_first() + inside);
        start_is_trimmed(before.drop_first(), inside);
    } else {
        assert(before + inside =~= inside);
    }
}

/// A text is blank if and only if it has no other characters than white space.
pub proof fn blank_means_only_white_space(s: Seq<char>)
    ensures
        blank(s) <==> only_white_space(s),
{
    if only_white_space(s) {
        assert(s + Seq::empty() + Seq::empty() =~= s);
        trimming_leaves_what_is_between(s, Seq::empty(), Seq::empty());
    }
    if blank(s) {
        rest_of_end_is_white_space(s);
        rest_of_start_is_white_space(trimmed_end(s));
    }
}

proof fn rest_of_end_is_white_space(s: Seq<char>)
    ensures
        only_white_space(trimmed_end(s)) ==> only_white_space(s),
    decreases s.len(),
{
    if s.len() > 0 && white_space(s.last()) {
        let front = s.drop_last();
        rest_of_end_is_white_space(front);
        if only_white_space(trimmed_end(s)) {
            assert forall|i: int| 0 <= i < s.len() implies white_space(#[trigger] s[i]) by {
                if i < s.len() - 1 {
                    assert(s[i] == front[i]);
                }
            }
        }
    }
}

proof fn rest_of_start_is_white_space(s: Seq<char>)
    ensures
        trimmed_start(s).len() == 0 ==> only_white_space(s),
    decreases s.len(),
{
    if s.len() > 0 && white_space(s.first()) {
        let back = s.drop_first();
        rest_of_start_is_white_space(back);
        if trimmed_start(s).len() == 0 {
            assert forall|i: int| 0 <= i < s.len() implies white_space(#[trigger] s[i]) by {
                if i > 0 {
                    assert(s[i] == back[i - 1]);
                }
            }
        }
    }
}

/// Slash removal takes away the slashes at the end, and leaves all before them.
pub proof fn slash_removal_leaves_what_is_before(base: Seq<char>, slashes: Seq<char>)
    requires
        base.len() > 0 ==> base.last() != '/',
        forall|i: int| 0 <= i < slashes.len() ==> #[trigger] slashes[i] == '/',
    ensures
        unslashed(base + slashes) == base,
{
    let whole = base + slashes;
    assert forall|i: int| base.len() <= i < whole.len() implies whole[i] == '/' by {
        assert(whole[i] == slashes[i - base.len()]);
    }
    more_slashes_leave_the_same(base, whole);
}

/// Joining can be done piece by piece: nothing is lost, nothing is moved, and the
/// separator stands between two neighbours and nowhere else.
pub proof fn joining_can_be_split(front: Seq<Seq<char>>, back: Seq<Seq<char>>, separator: Seq<char>)
    ensures
        joined(Seq::empty(), separator) == Seq::<char>::empty(),
        forall|part: Seq<char>| #[trigger] joined(seq![part], separator) == part,
        front.len() > 0 && back.len() > 0 ==> joined(front + back, separator) == joined(
            front,
            separator,
        ) + separator + joined(back, separator),
    decreases back.len(),
{
    if front.len() > 0 && back.len() > 0 {
        let shorter = back.drop_last();
        assert((front + back).drop_last() =~= front + shorter);
        assert((front + back).last() == back.last());
        if shorter.len() > 0 {
            joining_can_be_split(front, shorter, separator);
            assert(joined(front + back, separator) =~= joined(front, separator) + separator
                + joined(back, separator));
        } else {
            assert(front + shorter =~= front);
        }
    }
}

/// Strings hold their texts one by one.
pub proof fn texts_are_those_of_the_strings(strings: Seq<String>, string: Option<String>)
    ensures
        texts(strings).len() == strings.len(),
        forall|i: int| 0 <= i < strings.len() ==> #[trigger] texts(strings)[i] == strings[i]@,
        optional_text(string) is None <==> string is None,
        string matches Some(s) ==> optional_text(string) == Some(s@),
{
}

/// A trimmed text neither starts nor ends in white space.
pub proof fn trimmed_has_no_outer_white_space(s: Seq<char>)
    ensures
        trimmed(s).len() > 0 ==> !white_space(trimmed(s).first()) && !white_space(trimmed(s).last()),
{
    trimmed_end_stops(s);
    trimmed_start_stops(trimmed_end(s));
}

proof fn trimmed_end_stops(s: Seq<char>)
    ensures
        trimmed_end(s).len() > 0 ==> !white_space(trimmed_end(s).last()),
    decreases s.len(),
{
    if s.len() > 0 && white_space(s.last()) {
        trimmed_end_stops(s.drop_last());
    }
}

proof fn trimmed_start_stops(s: Seq<char>)
    ensures
        trimmed_start(s).len() > 0 ==> {
            &&& !white_space(trimmed_start(s).first())
            &&& trimmed_start(s).last() == s.last()
        },
    decreases s.len(),
{
    if s.len() > 0 && white_space(s.first()) {
        trimmed_start_stops(s.drop_first());
    }
}

/// Trimming changes nothing about a text that is trimmed already.
pub proof fn trimming_twice_is_trimming_once(s: Seq<char>)
    ensures
        trimmed(trimmed(s)) == trimmed(s),
{
    trimmed_has_no_outer_white_space(s);
}

/// What slash removal leaves does not end in a slash, and slashes are all it
/// removed.
pub proof fn only_trailing_slashes_are_removed(s: Seq<char>)
    ensures
        unslashed(s).len() > 0 ==> unslashed(s).last() != '/',
        unslashed(s).len() <= s.len(),
        s.take(unslashed(s).len() as int) == unslashed(s),
        forall|i: int| unslashed(s).len() <= i < s.len() ==> #[trigger] s[i] == '/',
    decreases s.len(),
{
    if s.len() > 0 && s.last() == '/' {
        let shorter = s.drop_last();
        only_trailing_slashes_are_removed(shorter);
        assert(s.take(unslashed(s).len() as int) =~= shorter.take(unslashed(s).len() as int));
        assert forall|i: int| unslashed(s).len() <= i < s.len() implies #[trigger] s[i] == '/' by {
            if i < s.len() - 1 {
                assert(s[i] == shorter[i]);
            }
        }
    } else {
        assert(s.take(s.len() as int) =~= s);
    }
}

/// Slash removal leaves the same of a text and of that text with slashes behind it.
pub proof fn more_slashes_leave_the_same(s: Seq<char>, slashed: Seq<char>)
    requires
        s.is_prefix_of(slashed),
        forall|i: int| s.len() <= i < slashed.len() ==> slashed[i] == '/',
    ensures
        unslashed(slashed) == unslashed(s),
    decreases slashed.len(),
{
    if slashed.len() > s.len() {
        assert(slashed.last() == '/');
        more_slashes_leave_the_same(s, slashed.drop_last());
    } else {
        assert(slashed =~= s);
    }
}

/// Different numbers are written differently.
pub proof fn decimal_is_injective(a: nat, b: nat)
    ensures
        decimal(a) == decimal(b) ==> a == b,
    decreases a,
{
    decimal_is_not_empty(a);
    decimal_is_not_empty(b);
    if decimal(a) == decimal(b) {
        if a >= 10 && b >= 10 {
            assert(decimal(a).drop_last() =~= decimal(a / 10));
            assert(decimal(b).drop_last() =~= decimal(b / 10));
            assert(decimal(a).last() == digit_char(a % 10));
            assert(decimal(b).last() == digit_char(b % 10));
            decimal_is_injective(a / 10, b / 10);
        } else if a >= 10 {
            decimal_is_not_empty(a / 10);
        } else if b >= 10 {
            decimal_is_not_empty(b / 10);
        } else {
            assert(decimal(a)[0] == digit_char(a));
            assert(decimal(b)[0] == digit_char(b));
        }
    }
}

/// Decimal notation has digits only.
pub proof fn decimal_has_only_digits(n: nat)
    ensures
        forall|i: int| 0 <= i < decimal(n).len() ==> '0' <= #[trigger] decimal(n)[i] <= '9',
    decreases n,
{
    if n >= 10 {
        decimal_has_only_digits(n / 10);
        assert forall|i: int| 0 <= i < decimal(n).len() implies '0' <= #[trigger] decimal(n)[i]
            <= '9' by {
            if i < decimal(n).len() - 1 {
                assert(decimal(n)[i] == decimal(n / 10)[i]);
            }
        }
    }
}

proof fn decimal_is_not_empty(n: nat)
    ensures
        decimal(n).len() > 0,
    decreases n,
{
    if n >= 10 {
        decimal_is_not_empty(n / 10);
    }
}

} // verus!
