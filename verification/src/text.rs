//! Text as sequences of characters: white space, words, ASCII case and decimal
//! numbers.
use vstd::prelude::*;

verus! {

/// Appends a character to a string (`String::push`): the text afterwards is the
/// text before, followed by `c`.
pub assume_specification[ String::push ](s: &mut String, c: char)
    ensures
        final(s)@ == old(s)@.push(c),
;

// ---------------------------------------------------------------------------
// White space
// ---------------------------------------------------------------------------

/// The characters with the Unicode property `White_Space`.
pub open spec fn is_white(c: char) -> bool {
    let n = c as u32;
    ||| 0x09 <= n <= 0x0d
    ||| n == 0x20
    ||| n == 0x85
    ||| n == 0xa0
    ||| n == 0x1680
    ||| 0x2000 <= n <= 0x200a
    ||| n == 0x2028
    ||| n == 0x2029
    ||| n == 0x202f
    ||| n == 0x205f
    ||| n == 0x3000
}

/// A text is blank when it holds nothing but white space, so that trimming it
/// leaves nothing.
pub open spec fn blank(s: Seq<char>) -> bool {
    forall|i: int| 0 <= i < s.len() ==> is_white(#[trigger] s[i])
}

/// Whether `c` is white space.
pub fn is_white_space(c: char) -> (r: bool)
    ensures
        r == is_white(c),
{
    let n: u32 = c as u32;
    (0x09 <= n && n <= 0x0d) || n == 0x20 || n == 0x85 || n == 0xa0 || n == 0x1680 || (0x2000 <= n
        && n <= 0x200a) || n == 0x2028 || n == 0x2029 || n == 0x202f || n == 0x205f || n == 0x3000
}

/// Whether `s` is empty once the white space around it is trimmed.
pub fn is_blank(s: &str) -> (r: bool)
    ensures
        r == blank(s@),
{
    for c in it: s.chars()
        invariant
            it.seq() == s@,
            blank(s@.take(it.index())),
    {
        if !is_white_space(c) {
            assert(s@[it.index()] == c);
            return false;
        }
        assert(s@.take(it.index() + 1) == s@.take(it.index()).push(c));
    }
    assert(s@.take(s@.len() as int) == s@);
    true
}

// ---------------------------------------------------------------------------
// Words
// ---------------------------------------------------------------------------

/// The words of a text, in order: its longest runs of characters that are not
/// white space.
pub open spec fn words(s: Seq<char>) -> Seq<Seq<char>>
    decreases s.len(),
{
    if s.len() == 0 {
        Seq::empty()
    } else {
        let before = words(s.drop_last());
        let c = s.last();
        if is_white(c) {
            before
        } else if s.len() == 1 || is_white(s[s.len() - 2]) {
            before.push(seq![c])
        } else {
            before.drop_last().push(before.last().push(c))
        }
    }
}

/// Words in a row, with one space between each two.
pub open spec fn joined(ws: Seq<Seq<char>>) -> Seq<char>
    decreases ws.len(),
{
    if ws.len() == 0 {
        Seq::empty()
    } else if ws.len() == 1 {
        ws[0]
    } else {
        joined(ws.drop_last()).push(' ') + ws.last()
    }
}

/// The texts of a list of strings.
pub open spec fn texts(list: Seq<String>) -> Seq<Seq<char>> {
    Seq::new(list.len(), |i: int| list[i]@)
}

/// Splits a text at its white space.
pub fn split_words(s: &str) -> (r: Vec<String>)
    ensures
        texts(r@) == words(s@),
{
    let mut done: Vec<String> = Vec::new();
    let mut current = String::new();
    let mut in_word = false;
    assert(texts(done@) =~= words(s@.take(0)));
    for c in it: s.chars()
        invariant
            it.seq() == s@,
            in_word == (it.index() > 0 && !is_white(s@[it.index() - 1])),
            in_word ==> words(s@.take(it.index())) == texts(done@).push(current@),
            !in_word ==> current@ == Seq::<char>::empty() && words(s@.take(it.index())) == texts(
                done@,
            ),
    {
        let ghost k = it.index();
        let ghost before = texts(done@);
        assert(s@.take(k + 1).drop_last() == s@.take(k));
        assert(s@.take(k + 1).last() == c);
        if is_white_space(c) {
            if in_word {
                done.push(current);
                assert(texts(done@) =~= before.push(current@));
                current = String::new();
            }
            in_word = false;
        } else {
            let ghost old_current = current@;
            current.push(c);
            proof {
                if in_word {
                    assert(before.push(old_current).drop_last() =~= before);
                } else {
                    assert(old_current.push(c) =~= seq![c]);
                }
            }
            in_word = true;
        }
    }
    assert(s@.take(s@.len() as int) == s@);
    if in_word {
        let ghost before = texts(done@);
        done.push(current);
        assert(texts(done@) =~= before.push(current@));
    }
    done
}

/// Puts words in a row with one space between each two.
pub fn join_words(ws: &Vec<String>) -> (r: String)
    ensures
        r@ == joined(texts(ws@)),
{
    let mut out = String::new();
    assert(texts(ws@).take(0) =~= Seq::empty());
    for i in 0..ws.len()
        invariant
            out@ == joined(texts(ws@).take(i as int)),
    {
        let ghost upto = texts(ws@).take(i + 1);
        assert(upto.drop_last() =~= texts(ws@).take(i as int));
        if i > 0 {
            out.push(' ');
        }
        out.append(ws[i].as_str());
        assert(out@ =~= joined(upto));
    }
    assert(texts(ws@).take(ws@.len() as int) =~= texts(ws@));
    out
}

// ---------------------------------------------------------------------------
// ASCII case
// ---------------------------------------------------------------------------

/// The lower case of a character, if it is an ASCII letter; any other
/// character unchanged.
pub open spec fn ascii_lower(c: char) -> char {
    if 'A' <= c && c <= 'Z' {
        (c as u8 + 32) as char
    } else {
        c
    }
}

/// A text with its ASCII letters in lower case.
pub open spec fn lowered(s: Seq<char>) -> Seq<char> {
    Seq::new(s.len(), |i: int| ascii_lower(s[i]))
}

/// Puts the ASCII letters of a text in lower case.
pub fn to_ascii_lower(s: &str) -> (r: String)
    ensures
        r@ == lowered(s@),
{
    let mut out = String::new();
    for c in it: s.chars()
        invariant
            it.seq() == s@,
            out@ == lowered(s@.take(it.index())),
    {
        let low: char = if 'A' <= c && c <= 'Z' {
            (c as u8 + 32) as char
        } else {
            c
        };
        assert(lowered(s@.take(it.index() + 1)) =~= lowered(s@.take(it.index())).push(
            ascii_lower(c),
        ));
        out.push(low);
    }
    assert(s@.take(s@.len() as int) == s@);
    out
}

// ---------------------------------------------------------------------------
// Characters and prefixes
// ---------------------------------------------------------------------------

/// The characters of a text, one by one.
pub fn chars_of(s: &str) -> (r: Vec<char>)
    ensures
        r@ == s@,
{
    let mut out: Vec<char> = Vec::new();
    for c in it: s.chars()
        invariant
            it.seq() == s@,
            out@ == s@.take(it.index()),
    {
        assert(s@.take(it.index() + 1) =~= s@.take(it.index()).push(c));
        out.push(c);
    }
    assert(s@.take(s@.len() as int) == s@);
    out
}

/// Whether `s` starts with `prefix`.
pub fn starts_with(s: &Vec<char>, prefix: &Vec<char>) -> (r: bool)
    ensures
        r == prefix@.is_prefix_of(s@),
{
    if prefix.len() > s.len() {
        return false;
    }
    for i in 0..prefix.len()
        invariant
            prefix@.len() <= s@.len(),
            forall|j: int| 0 <= j < i ==> prefix@[j] == s@[j],
    {
        if prefix[i] != s[i] {
            assert(s@.subrange(0, prefix@.len() as int)[i as int] != prefix@[i as int]);
            return false;
        }
    }
    assert(prefix@ =~= s@.subrange(0, prefix@.len() as int));
    true
}

// ---------------------------------------------------------------------------
// Numbers
// ---------------------------------------------------------------------------

/// The character of a digit below ten.
pub open spec fn digit(d: int) -> char {
    ('0' as u8 + d) as char
}

/// A number in decimal, without leading zeros.
pub open spec fn decimal(n: nat) -> Seq<char>
    decreases n,
{
    if n < 10 {
        seq![digit(n as int)]
    } else {
        decimal(n / 10).push(digit((n % 10) as int))
    }
}

/// A whole number in decimal, with a minus sign where it is negative.
pub open spec fn signed_decimal(n: int) -> Seq<char> {
    if n < 0 {
        seq!['-'] + decimal((-n) as nat)
    } else {
        decimal(n as nat)
    }
}

/// Writes a number in decimal.
pub fn decimal_text(n: u64) -> (r: String)
    ensures
        r@ == decimal(n as nat),
    decreases n,
{
    let mut out = if n < 10 {
        String::new()
    } else {
        decimal_text(n / 10)
    };
    let d: u8 = (n % 10) as u8;
    out.push((48u8 + d) as char);
    assert(out@ =~= decimal(n as nat));
    out
}

/// Writes a signed number in decimal.
pub fn signed_decimal_text(n: i32) -> (r: String)
    ensures
        r@ == signed_decimal(n as int),
{
    if n < 0 {
        let mut out = String::new();
        out.push('-');
        let magnitude: u64 = (-(n as i64)) as u64;
        out.append(decimal_text(magnitude).as_str());
        assert(out@ =~= signed_decimal(n as int));
        out
    } else {
        decimal_text(n as u64)
    }
}

// ---------------------------------------------------------------------------
// Laws
// ---------------------------------------------------------------------------

/// The numbers of the 25 characters that are white space.
pub open spec fn white_numbers() -> Seq<u32> {
    seq![
        9, 10, 11, 12, 13, 32, 133, 160, 5760, 8192, 8193, 8194, 8195, 8196, 8197, 8198, 8199,
        8200, 8201, 8202, 8232, 8233, 8239, 8287, 12288,
    ]
}

/// White space is what is listed.
pub proof fn lemma_white_numbers(c: char)
    ensures
        is_white(c) == white_numbers().contains(c as u32),
{
    let all = white_numbers();
    let n = c as u32;
    if is_white(c) {
        if 9 <= n <= 13 {
            assert(all[n - 9] == n);
        } else if 8192 <= n <= 8202 {
            assert(all[n - 8192 + 9] == n);
        } else {
            assert(all[5] == 32 && all[6] == 133 && all[7] == 160 && all[8] == 5760);
            assert(all[20] == 8232 && all[21] == 8233 && all[22] == 8239 && all[23] == 8287
                && all[24] == 12288);
        }
        assert(all.contains(n));
    }
}

/// A character is white space exactly if its number is one of 25.
pub proof fn law_white_space(c: char, r: bool)
    requires
        call_ensures(is_white_space, (c,), r),
    ensures
        r <==> white_numbers().contains(c as u32),
{
    lemma_white_numbers(c);
}

/// A text is blank exactly if none of its characters is other than white space.
pub proof fn law_blank(s: &str, r: bool)
    requires
        call_ensures(is_blank, (s,), r),
    ensures
        !r <==> exists|i: int|
            0 <= i < s@.len() && !white_numbers().contains(#[trigger] s@[i] as u32),
{
    assert forall|i: int| 0 <= i < s@.len() implies is_white(#[trigger] s@[i])
        == white_numbers().contains(s@[i] as u32) by {
        lemma_white_numbers(s@[i]);
    }
}

/// A list of strings and the list of their texts are equally long, and agree
/// everywhere.
pub proof fn law_texts(list: Seq<String>)
    ensures
        texts(list).len() == list.len(),
        forall|i: int| 0 <= i < list.len() ==> #[trigger] texts(list)[i] == list[i]@,
{
}

/// The row of two lists that are not empty has one space between their rows.
pub proof fn lemma_joined_concat(a: Seq<Seq<char>>, b: Seq<Seq<char>>)
    requires
        a.len() > 0,
        b.len() > 0,
    ensures
        joined(a + b) == joined(a) + seq![' '] + joined(b),
    decreases b.len(),
{
    let all = a + b;
    assert(all.drop_last() =~= a + b.drop_last());
    assert(all.last() == b.last());
    if b.len() == 1 {
        assert(a + b.drop_last() =~= a);
    } else {
        lemma_joined_concat(a, b.drop_last());
    }
    assert(joined(all) =~= joined(a) + seq![' '] + joined(b));
}

/// The row of two lists is the rows of each with one space between them; the row
/// of one word is that word, and that of none is empty.
pub proof fn law_join_words(
    a: &Vec<String>,
    b: &Vec<String>,
    both: &Vec<String>,
    row_a: String,
    row_b: String,
    row: String,
)
    requires
        both@ == a@ + b@,
        call_ensures(join_words, (a,), row_a),
        call_ensures(join_words, (b,), row_b),
        call_ensures(join_words, (both,), row),
    ensures
        a@.len() > 0 && b@.len() > 0 ==> row@ == row_a@ + seq![' '] + row_b@,
        a@.len() == 1 ==> row_a@ == a@[0]@,
        a@.len() == 0 ==> row_a@ == Seq::<char>::empty() && row@ == row_b@,
{
    assert(texts(both@) =~= texts(a@) + texts(b@));
    if a@.len() > 0 && b@.len() > 0 {
        lemma_joined_concat(texts(a@), texts(b@));
    }
    if a@.len() == 1 {
        assert(texts(a@)[0] == a@[0]@);
    }
    if a@.len() == 0 {
        assert(both@ =~= b@);
    }
}

/// Lowering a text keeps its length and every character that is no ASCII
/// capital, and puts the letter at the same place of the small alphabet for
/// each capital.
pub proof fn law_ascii_lower(s: &str, r: String, i: int, k: int)
    requires
        call_ensures(to_ascii_lower, (s,), r),
        0 <= i < s@.len(),
    ensures
        r@.len() == s@.len(),
        !"ABCDEFGHIJKLMNOPQRSTUVWXYZ"@.contains(s@[i]) ==> r@[i] == s@[i],
        0 <= k < 26 && s@[i] == "ABCDEFGHIJKLMNOPQRSTUVWXYZ"@[k] ==> r@[i]
            == "abcdefghijklmnopqrstuvwxyz"@[k],
{
    reveal_strlit("ABCDEFGHIJKLMNOPQRSTUVWXYZ");
    reveal_strlit("abcdefghijklmnopqrstuvwxyz");
    let c = s@[i];
    let capitals = "ABCDEFGHIJKLMNOPQRSTUVWXYZ"@;
    if 'A' <= c && c <= 'Z' {
        let at = c as int - 'A' as int;
        assert(capitals[at] == c);
        assert(capitals.contains(c));
    }
}

/// A list of characters and the text that it is taken from agree everywhere.
pub proof fn law_chars_of(s: &str, r: Vec<char>)
    requires
        call_ensures(chars_of, (s,), r),
    ensures
        r@.len() == s@.len(),
        forall|i: int| 0 <= i < s@.len() ==> #[trigger] r@[i] == s@[i],
{
}

/// A text starts with another exactly if it is that text followed by some rest.
pub proof fn law_starts_with(s: &Vec<char>, prefix: &Vec<char>, r: bool)
    requires
        call_ensures(starts_with, (s, prefix), r),
    ensures
        r <==> exists|rest: Seq<char>| s@ == #[trigger] (prefix@ + rest),
{
    if r {
        let rest = s@.skip(prefix@.len() as int);
        assert forall|i: int| 0 <= i < prefix@.len() implies s@[i] == prefix@[i] by {
            assert(s@.subrange(0, prefix@.len() as int)[i] == prefix@[i]);
        }
        assert(s@ =~= prefix@ + rest);
    }
    if exists|rest: Seq<char>| s@ == #[trigger] (prefix@ + rest) {
        let rest = choose|rest: Seq<char>| s@ == #[trigger] (prefix@ + rest);
        assert(s@.subrange(0, prefix@.len() as int) =~= prefix@);
    }
}

/// The number that a row of decimal digits stands for.
pub open spec fn number(s: Seq<char>) -> int
    decreases s.len(),
{
    if s.len() == 0 {
        0
    } else {
        10 * number(s.drop_last()) + (s.last() as int - '0' as int)
    }
}

/// A row of decimal digits without a zero in front of others.
pub open spec fn is_decimal(s: Seq<char>) -> bool {
    &&& s.len() > 0
    &&& forall|i: int| 0 <= i < s.len() ==> '0' <= #[trigger] s[i] && s[i] <= '9'
    &&& s[0] == '0' ==> s.len() == 1
}

/// A number in decimal is decimal and reads back.
proof fn lemma_decimal(n: nat)
    ensures
        is_decimal(decimal(n)),
        number(decimal(n)) == n,
        decimal(n)[0] == '0' ==> n == 0,
    decreases n,
{
    let s = decimal(n);
    if n < 10 {
        assert(s.drop_last() =~= Seq::<char>::empty());
        assert(number(s.drop_last()) == 0);
    } else {
        let before = decimal(n / 10);
        lemma_decimal(n / 10);
        assert(s.drop_last() =~= before);
        assert(s[0] == before[0]);
        assert forall|i: int| 0 <= i < s.len() implies '0' <= #[trigger] s[i] && s[i] <= '9' by {
            if i < before.len() {
                assert(s[i] == before[i]);
            }
        }
    }
}

/// What is written of a number is decimal and reads back as that number.
pub proof fn law_decimal_text(n: u64, r: String)
    requires
        call_ensures(decimal_text, (n,), r),
    ensures
        is_decimal(r@),
        number(r@) == n,
{
    lemma_decimal(n as nat);
}

/// What is written of a signed number is its magnitude, behind a minus sign
/// exactly where it is negative.
pub proof fn law_signed_decimal_text(n: i32, r: String)
    requires
        call_ensures(signed_decimal_text, (n,), r),
    ensures
        n >= 0 ==> is_decimal(r@) && number(r@) == n,
        n < 0 ==> r@[0] == '-' && is_decimal(r@.skip(1)) && number(r@.skip(1)) == -n,
{
    if n < 0 {
        lemma_decimal((-n) as nat);
        assert(r@.skip(1) =~= decimal((-n) as nat));
    } else {
        lemma_decimal(n as nat);
    }
}

/// No two numbers are written alike, and each is written as it reads: a number
/// that is written is the one whose digits stand there.
pub proof fn law_decimal_is_unambiguous(n: nat, m: nat)
    ensures
        is_decimal(decimal(n)),
        number(decimal(n)) == n,
        decimal(n) == decimal(m) <==> n == m,
{
    lemma_decimal(n);
    lemma_decimal(m);
}

} // verus!
