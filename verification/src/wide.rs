//! UTF-16 text with a terminating zero, as the system's pipe calls take it.
use vstd::prelude::*;

verus! {

/// The UTF-16 units of a character: one, or a pair of surrogates for a
/// character above U+FFFF.
pub open spec fn units(c: char) -> Seq<u16> {
    let n = c as u32;
    if n < 0x10000 {
        seq![n as u16]
    } else {
        seq![
            (0xd800 + (n - 0x10000) / 0x400) as u16,
            (0xdc00 + (n - 0x10000) % 0x400) as u16,
        ]
    }
}

/// A text in UTF-16.
pub open spec fn utf16(s: Seq<char>) -> Seq<u16>
    decreases s.len(),
{
    if s.len() == 0 {
        Seq::empty()
    } else {
        utf16(s.drop_last()) + units(s.last())
    }
}

/// A text in UTF-16, followed by a zero.
pub open spec fn terminated(s: Seq<char>) -> Seq<u16> {
    utf16(s).push(0)
}

/// Writes a text in UTF-16, with a zero behind it.
pub fn wide(s: &str) -> (r: Vec<u16>)
    ensures
        r@ == terminated(s@),
{
    let mut out: Vec<u16> = Vec::new();
    assert(s@.take(0) =~= Seq::empty());
    for c in it: s.chars()
        invariant
            it.seq() == s@,
            out@ == utf16(s@.take(it.index())),
    {
        let ghost before = out@;
        assert(s@.take(it.index() + 1).drop_last() =~= s@.take(it.index()));
        let n: u32 = c as u32;
        if n < 0x10000 {
            out.push(n as u16);
        } else {
            let m: u32 = n - 0x10000;
            out.push((0xd800 + m / 0x400) as u16);
            out.push((0xdc00 + m % 0x400) as u16);
        }
        assert(out@ =~= before + units(c));
    }
    assert(s@.take(s@.len() as int) =~= s@);
    out.push(0);
    out
}

// ---------------------------------------------------------------------------
// Laws
// ---------------------------------------------------------------------------

/// A character's number is below 0x110000 and no surrogate.
proof fn lemma_char_range(c: char)
    ensures
        (c as u32) < 0xd800 || 0xe000 <= (c as u32) < 0x110000,
        c as u32 as char == c,
{
    vstd::utf8::char_is_scalar(c);
}

/// The units of a text without the character U+0000 hold no zero.
proof fn lemma_no_zero_unit(s: Seq<char>)
    requires
        !s.contains('\0'),
    ensures
        !utf16(s).contains(0),
    decreases s.len(),
{
    if s.len() > 0 {
        let init = s.drop_last();
        assert(s[s.len() - 1] == s.last());
        assert(s.last() != '\0');
        assert(!init.contains('\0')) by {
            if init.contains('\0') {
                let k = choose|k: int| 0 <= k < init.len() && init[k] == '\0';
                assert(s[k] == '\0');
            }
        }
        lemma_no_zero_unit(init);
        lemma_char_range(s.last());
        assert forall|k: int| 0 <= k < utf16(s).len() implies utf16(s)[k] != 0 by {
            if k < utf16(init).len() {
                assert(utf16(s)[k] == utf16(init)[k]);
                assert(utf16(init).contains(utf16(init)[k]));
            }
        }
    }
}

/// What is written ends in a zero, and for a text without the character U+0000
/// it holds no other: a reader that stops at the first zero reads the whole
/// text.
pub proof fn law_wide_is_terminated(s: Seq<char>)
    requires
        !s.contains('\0'),
    ensures
        terminated(s).last() == 0,
        forall|i: int| 0 <= i < terminated(s).len() - 1 ==> #[trigger] terminated(s)[i] != 0,
{
    lemma_no_zero_unit(s);
    assert forall|i: int| 0 <= i < terminated(s).len() - 1 implies #[trigger] terminated(s)[i]
        != 0 by {
        assert(terminated(s)[i] == utf16(s)[i]);
        assert(utf16(s).contains(utf16(s)[i]));
    }
}

/// Texts with the same UTF-16 are the same.
proof fn lemma_utf16_injective(a: Seq<char>, b: Seq<char>)
    requires
        utf16(a) == utf16(b),
    ensures
        a == b,
    decreases a.len(),
{
    if a.len() == 0 {
        assert(a =~= b);
    } else if b.len() == 0 {
    } else {
        let x = utf16(a.drop_last());
        let y = utf16(b.drop_last());
        let c = a.last();
        let d = b.last();
        let last = utf16(a).last();
        lemma_char_range(c);
        lemma_char_range(d);
        assert(last == units(c).last());
        assert(last == units(d).last());
        assert(0xdc00 <= last <= 0xdfff <==> c as u32 >= 0x10000);
        assert(0xdc00 <= last <= 0xdfff <==> d as u32 >= 0x10000);
        let u = units(c).len();
        assert(units(d).len() == u);
        assert(x.len() == y.len());
        assert(x =~= utf16(a).subrange(0, x.len() as int));
        assert(y =~= utf16(b).subrange(0, y.len() as int));
        assert(units(c) =~= utf16(a).subrange(x.len() as int, utf16(a).len() as int));
        assert(units(d) =~= utf16(b).subrange(x.len() as int, utf16(b).len() as int));
        assert(units(c)[0] == units(d)[0]);
        if u == 2 {
            assert(units(c)[1] == units(d)[1]);
        }
        assert(c as u32 == d as u32);
        lemma_utf16_injective(a.drop_last(), b.drop_last());
        assert(a =~= a.drop_last().push(c));
        assert(b =~= b.drop_last().push(d));
    }
}

/// No two texts are written alike.
pub proof fn law_wide_is_injective(a: Seq<char>, b: Seq<char>)
    requires
        terminated(a) == terminated(b),
    ensures
        a == b,
{
    assert(utf16(a) =~= terminated(a).drop_last());
    assert(utf16(b) =~= terminated(b).drop_last());
    lemma_utf16_injective(a, b);
}

/// The UTF-16 of two texts is that of one behind that of the other.
proof fn lemma_utf16_concat(a: Seq<char>, b: Seq<char>)
    ensures
        utf16(a + b) == utf16(a) + utf16(b),
    decreases b.len(),
{
    if b.len() == 0 {
        assert(a + b =~= a);
    } else {
        lemma_utf16_concat(a, b.drop_last());
        assert((a + b).drop_last() =~= a + b.drop_last());
    }
    assert(utf16(a + b) =~= utf16(a) + utf16(b));
}

/// Two texts are written one behind the other, with one zero at the end.
pub proof fn law_wide_goes_character_by_character(
    a: &str,
    b: &str,
    both: &str,
    wide_a: Vec<u16>,
    wide_b: Vec<u16>,
    r: Vec<u16>,
)
    requires
        both@ == a@ + b@,
        call_ensures(wide, (a,), wide_a),
        call_ensures(wide, (b,), wide_b),
        call_ensures(wide, (both,), r),
    ensures
        r@ == wide_a@.drop_last() + wide_b@,
        a@.len() == 0 ==> wide_a@ == seq![0u16],
{
    lemma_utf16_concat(a@, b@);
    assert(wide_a@.drop_last() =~= utf16(a@));
    assert(r@ =~= wide_a@.drop_last() + wide_b@);
}

/// A character up to U+FFFF is written as its number; one above as a high and a
/// low surrogate that together give its number.
pub proof fn law_wide_of_a_character(s: &str, r: Vec<u16>)
    requires
        s@.len() == 1,
        call_ensures(wide, (s,), r),
    ensures
        (s@[0] as u32) <= 0xffff ==> r@.len() == 2 && r@[0] == s@[0] as u32,
        (s@[0] as u32) > 0xffff ==> {
            &&& r@.len() == 3
            &&& 0xd800 <= r@[0] < 0xdc00
            &&& 0xdc00 <= r@[1] < 0xe000
            &&& 0x10000 + (r@[0] - 0xd800) * 0x400 + (r@[1] - 0xdc00) == s@[0] as u32
        },
        r@.last() == 0,
{
    lemma_char_range(s@[0]);
    assert(s@.drop_last() =~= Seq::empty());
    assert(utf16(s@.drop_last()) =~= Seq::<u16>::empty());
    assert(s@.last() == s@[0]);
    assert(utf16(s@) =~= units(s@[0]));
}

} // verus!
