//! The normal form of a command, on which every whitelist decision rests.
use vstd::prelude::*;
use crate::text::{
    ascii_lower, blank, is_white, join_words, joined, lemma_joined_concat, lemma_white_numbers,
    lowered, split_words, texts, to_ascii_lower, white_numbers, words,
};

verus! {

/// The normal form of a command: its words with one space between each two, in
/// ASCII lower case.
pub open spec fn normalized(command: Seq<char>) -> Seq<char> {
    lowered(joined(words(command)))
}

/// Brings a command to its normal form: white space is compressed and the case
/// is lowered.
pub fn normalize_command(command: &str) -> (r: String)
    ensures
        r@ == normalized(command@),
{
    let ws = split_words(command);
    let row = join_words(&ws);
    to_ascii_lower(row.as_str())
}

// ---------------------------------------------------------------------------
// Words
// ---------------------------------------------------------------------------

/// A word: characters, none of them white space.
pub open spec fn is_word(w: Seq<char>) -> bool {
    &&& w.len() > 0
    &&& forall|i: int| 0 <= i < w.len() ==> !is_white(#[trigger] w[i])
}

/// A list of words.
pub open spec fn all_words(ws: Seq<Seq<char>>) -> bool {
    forall|i: int| 0 <= i < ws.len() ==> is_word(#[trigger] ws[i])
}

/// The words of a text are words, and a text whose last character is not white
/// space has a word.
proof fn lemma_words_are_words(s: Seq<char>)
    ensures
        all_words(words(s)),
        s.len() > 0 && !is_white(s.last()) ==> words(s).len() > 0,
    decreases s.len(),
{
    if s.len() > 0 {
        lemma_words_are_words(s.drop_last());
        let before = words(s.drop_last());
        let c = s.last();
        if !is_white(c) && s.len() > 1 && !is_white(s[s.len() - 2]) {
            assert(s.drop_last().last() == s[s.len() - 2]);
            assert(is_word(before.last()));
            assert forall|i: int| 0 <= i < words(s).len() implies is_word(#[trigger] words(s)[i]) by {
                if i < before.len() - 1 {
                    assert(is_word(before[i]));
                } else {
                    let w = before.last().push(c);
                    assert forall|k: int| 0 <= k < w.len() implies !is_white(#[trigger] w[k]) by {
                        if k < before.last().len() {
                            assert(w[k] == before.last()[k]);
                        }
                    }
                }
            }
        }
    }
}

/// A word after a text that is empty or ends in white space is the next word.
proof fn lemma_words_append_word(s: Seq<char>, w: Seq<char>)
    requires
        is_word(w),
        s.len() == 0 || is_white(s.last()),
    ensures
        words(s + w) == words(s).push(w),
    decreases w.len(),
{
    let t = s + w;
    assert(t.last() == w.last());
    assert(!is_white(w[w.len() - 1]));
    if w.len() == 1 {
        assert(t.drop_last() =~= s);
        if s.len() > 0 {
            assert(t[t.len() - 2] == s.last());
        }
        assert(w =~= seq![w.last()]);
    } else {
        let v = w.drop_last();
        assert(is_word(v)) by {
            assert forall|i: int| 0 <= i < v.len() implies !is_white(#[trigger] v[i]) by {
                assert(v[i] == w[i]);
            }
        }
        assert(t.drop_last() =~= s + v);
        lemma_words_append_word(s, v);
        assert(t[t.len() - 2] == w[w.len() - 2]);
        assert(!is_white(w[w.len() - 2]));
        assert(words(s).push(v).drop_last() =~= words(s));
        assert(v.push(w.last()) =~= w);
    }
}

/// Splitting undoes joining.
pub proof fn law_splitting_undoes_joining(ws: Seq<Seq<char>>)
    requires
        all_words(ws),
    ensures
        words(joined(ws)) == ws,
    decreases ws.len(),
{
    if ws.len() == 0 {
    } else if ws.len() == 1 {
        assert(is_word(ws[0]));
        lemma_words_append_word(Seq::empty(), ws[0]);
        assert(Seq::<char>::empty() + ws[0] =~= ws[0]);
        assert(Seq::<Seq<char>>::empty().push(ws[0]) =~= ws);
    } else {
        let init = ws.drop_last();
        assert(all_words(init)) by {
            assert forall|i: int| 0 <= i < init.len() implies is_word(#[trigger] init[i]) by {
                assert(init[i] == ws[i]);
            }
        }
        law_splitting_undoes_joining(init);
        let row = joined(init).push(' ');
        assert(row.drop_last() =~= joined(init));
        assert(words(row) == words(joined(init)));
        assert(is_word(ws[ws.len() - 1]));
        lemma_words_append_word(row, ws.last());
        assert(init.push(ws.last()) =~= ws);
    }
}

/// Words, one behind the other.
pub open spec fn run_together(ws: Seq<Seq<char>>) -> Seq<char>
    decreases ws.len(),
{
    if ws.len() == 0 {
        Seq::empty()
    } else {
        run_together(ws.drop_last()) + ws.last()
    }
}

/// The words of a text hold all of its characters that are not white space, in
/// their order, and nothing else.
pub proof fn law_words_hold_the_text(s: Seq<char>)
    ensures
        run_together(words(s)) == s.filter(|c: char| !is_white(c)),
    decreases s.len(),
{
    reveal(Seq::filter);
    if s.len() > 0 {
        law_words_hold_the_text(s.drop_last());
        lemma_words_are_words(s.drop_last());
        let before = words(s.drop_last());
        let c = s.last();
        if !is_white(c) {
            if s.len() == 1 || is_white(s[s.len() - 2]) {
                assert(words(s).drop_last() =~= before);
                assert(run_together(words(s)) =~= run_together(before).push(c));
            } else {
                assert(s.drop_last().last() == s[s.len() - 2]);
                assert(words(s).drop_last() =~= before.drop_last());
                assert(run_together(words(s)) =~= run_together(before).push(c));
            }
        }
    }
}

// ---------------------------------------------------------------------------
// Case
// ---------------------------------------------------------------------------

/// A list of texts, each in lower case.
pub open spec fn lowered_each(ws: Seq<Seq<char>>) -> Seq<Seq<char>> {
    Seq::new(ws.len(), |i: int| lowered(ws[i]))
}

/// Lowering keeps white space where it is.
proof fn lemma_lower_keeps_white(c: char)
    ensures
        is_white(ascii_lower(c)) == is_white(c),
        ascii_lower(ascii_lower(c)) == ascii_lower(c),
{
}

/// Lowering twice is lowering once.
proof fn lemma_lowered_twice(s: Seq<char>)
    ensures
        lowered(lowered(s)) == lowered(s),
{
    assert(lowered(lowered(s)) =~= lowered(s));
}

/// Splitting and lowering commute.
proof fn lemma_words_of_lowered(s: Seq<char>)
    ensures
        words(lowered(s)) == lowered_each(words(s)),
    decreases s.len(),
{
    let low = lowered(s);
    if s.len() == 0 {
        assert(words(low) =~= lowered_each(words(s)));
    } else {
        lemma_words_of_lowered(s.drop_last());
        lemma_words_are_words(s.drop_last());
        assert(low.drop_last() =~= lowered(s.drop_last()));
        let before = words(s.drop_last());
        let c = s.last();
        lemma_lower_keeps_white(c);
        if !is_white(c) {
            if s.len() == 1 || is_white(s[s.len() - 2]) {
                assert(lowered(seq![c]) =~= seq![ascii_lower(c)]);
                assert(words(low) =~= lowered_each(words(s)));
            } else {
                assert(s.drop_last().last() == s[s.len() - 2]);
                assert(low[low.len() - 2] == ascii_lower(s[s.len() - 2]));
                assert(lowered(before.last().push(c)) =~= lowered(before.last()).push(
                    ascii_lower(c),
                ));
                assert(words(low) =~= lowered_each(words(s)));
            }
        }
    }
}

/// Joining and lowering commute.
proof fn lemma_joined_lowered(ws: Seq<Seq<char>>)
    ensures
        joined(lowered_each(ws)) == lowered(joined(ws)),
    decreases ws.len(),
{
    if ws.len() == 0 {
        assert(joined(lowered_each(ws)) =~= lowered(joined(ws)));
    } else if ws.len() > 1 {
        lemma_joined_lowered(ws.drop_last());
        assert(lowered_each(ws).drop_last() =~= lowered_each(ws.drop_last()));
        assert(joined(lowered_each(ws)) =~= lowered(joined(ws)));
    }
}

// ---------------------------------------------------------------------------
// Laws
// ---------------------------------------------------------------------------

/// The words of a normal form are the words of the command, in lower case.
pub proof fn law_words_of_normalized(command: Seq<char>)
    ensures
        words(normalized(command)) == lowered_each(words(command)),
{
    lemma_words_are_words(command);
    law_splitting_undoes_joining(words(command));
    lemma_words_of_lowered(joined(words(command)));
}

/// Normalizing twice is normalizing once.
pub proof fn law_normalize_idempotent(command: Seq<char>)
    ensures
        normalized(normalized(command)) == normalized(command),
{
    law_words_of_normalized(command);
    lemma_joined_lowered(words(command));
    lemma_lowered_twice(joined(words(command)));
}

/// Two commands have the same normal form exactly where their words are the
/// same up to ASCII case: how much white space stands between them, of which
/// kind, and what stands around them makes no difference.
pub proof fn law_normalized_ignores_case_and_spacing(a: Seq<char>, b: Seq<char>)
    ensures
        normalized(a) == normalized(b) <==> lowered_each(words(a)) == lowered_each(words(b)),
{
    lemma_joined_lowered(words(a));
    lemma_joined_lowered(words(b));
    law_words_of_normalized(a);
    law_words_of_normalized(b);
}

/// A command has an empty normal form exactly where it is blank.
pub proof fn law_normalized_empty_iff_blank(command: Seq<char>)
    ensures
        normalized(command).len() == 0 <==> blank(command),
{
    lemma_words_are_words(command);
    lemma_no_words_iff_blank(command);
    let ws = words(command);
    if ws.len() > 0 {
        assert(is_word(ws[ws.len() - 1]));
    }
}

/// A text without words is a blank one.
proof fn lemma_no_words_iff_blank(s: Seq<char>)
    ensures
        words(s).len() == 0 <==> blank(s),
    decreases s.len(),
{
    if s.len() > 0 {
        let init = s.drop_last();
        lemma_no_words_iff_blank(init);
        lemma_words_are_words(s);
        assert(s.last() == s[s.len() - 1]);
        if is_white(s.last()) {
            if blank(init) {
                assert forall|i: int| 0 <= i < s.len() implies is_white(#[trigger] s[i]) by {
                    if i < init.len() {
                        assert(init[i] == s[i]);
                    }
                }
            } else {
                let k = choose|k: int| 0 <= k < init.len() && !is_white(#[trigger] init[k]);
                assert(s[k] == init[k]);
            }
        }
    }
}

/// A text in normal form: no ASCII capitals; no white space but single spaces,
/// each between two characters that are not white space.
pub open spec fn is_normal(s: Seq<char>) -> bool {
    &&& forall|i: int| 0 <= i < s.len() ==> !('A' <= #[trigger] s[i] && s[i] <= 'Z')
    &&& forall|i: int|
        0 <= i < s.len() && is_white(#[trigger] s[i]) ==> s[i] == ' ' && 0 < i < s.len() - 1
            && !is_white(s[i - 1]) && !is_white(s[i + 1])
}

/// A row of words has no white space but single spaces between two characters
/// that are not white space, and it starts and ends with such characters.
proof fn lemma_joined_spacing(ws: Seq<Seq<char>>)
    requires
        all_words(ws),
    ensures
        ({
            let s = joined(ws);
            &&& ws.len() > 0 ==> s.len() > 0 && !is_white(s[0]) && !is_white(s.last())
            &&& forall|i: int|
                0 <= i < s.len() && is_white(#[trigger] s[i]) ==> s[i] == ' ' && 0 < i < s.len() - 1
                    && !is_white(s[i - 1]) && !is_white(s[i + 1])
        }),
    decreases ws.len(),
{
    if ws.len() == 1 {
        assert(is_word(ws[0]));
    } else if ws.len() > 1 {
        let init = ws.drop_last();
        assert(all_words(init)) by {
            assert forall|i: int| 0 <= i < init.len() implies is_word(#[trigger] init[i]) by {
                assert(init[i] == ws[i]);
            }
        }
        lemma_joined_spacing(init);
        let a = joined(init);
        let w = ws.last();
        assert(is_word(ws[ws.len() - 1]));
        let s = a.push(' ') + w;
        assert(s[0] == a[0]);
        assert(s.last() == w[w.len() - 1]);
        assert forall|i: int| 0 <= i < s.len() && is_white(#[trigger] s[i]) implies s[i] == ' ' && 0
            < i < s.len() - 1 && !is_white(s[i - 1]) && !is_white(s[i + 1]) by {
            if i < a.len() {
                assert(a[i] == s[i]);
                assert(a[i - 1] == s[i - 1]);
                assert(a[i + 1] == s[i + 1]);
            } else if i == a.len() {
                assert(s[i - 1] == a.last());
                assert(s[i + 1] == w[0]);
            } else {
                assert(s[i] == w[i - a.len() - 1]);
            }
        }
    }
}

/// What normalizing gives back is in normal form.
pub proof fn law_normalized_is_normal(command: Seq<char>)
    ensures
        is_normal(normalized(command)),
{
    lemma_words_are_words(command);
    let row = joined(words(command));
    lemma_joined_spacing(words(command));
    let s = normalized(command);
    assert forall|i: int| 0 <= i < s.len() && is_white(#[trigger] s[i]) implies s[i] == ' ' && 0 < i
        < s.len() - 1 && !is_white(s[i - 1]) && !is_white(s[i + 1]) by {
        lemma_lower_keeps_white(row[i]);
        assert(is_white(row[i]));
        lemma_lower_keeps_white(row[i - 1]);
        lemma_lower_keeps_white(row[i + 1]);
    }
}

/// A command that is in normal form already is left as it is.
pub proof fn law_normal_is_fixed(command: Seq<char>)
    requires
        is_normal(command),
    ensures
        normalized(command) == command,
{
    lemma_joined_words_of_spaced(command);
    assert(lowered(command) =~= command);
}

/// Joining undoes splitting where white space comes only as single spaces
/// between other characters. `s` may end in one space more.
proof fn lemma_joined_words_of_spaced(s: Seq<char>)
    requires
        forall|i: int|
            0 <= i < s.len() && is_white(#[trigger] s[i]) ==> s[i] == ' ' && 0 < i && !is_white(
                s[i - 1],
            ),
    ensures
        s.len() == 0 || !is_white(s.last()) ==> joined(words(s)) == s,
        s.len() > 0 && is_white(s.last()) ==> joined(words(s)).push(' ') == s,
    decreases s.len(),
{
    if s.len() > 0 {
        let init = s.drop_last();
        assert forall|i: int| 0 <= i < init.len() && is_white(#[trigger] init[i]) implies init[i]
            == ' ' && 0 < i && !is_white(init[i - 1]) by {
            assert(init[i] == s[i]);
            assert(init[i - 1] == s[i - 1]);
        }
        lemma_joined_words_of_spaced(init);
        lemma_words_are_words(init);
        let before = words(init);
        let c = s.last();
        assert(s[s.len() - 1] == c);
        assert(s =~= init.push(c));
        if is_white(c) {
            assert(init.last() == s[s.len() - 2]);
        } else if s.len() == 1 {
            assert(words(s) =~= seq![seq![c]]);
            assert(s =~= seq![c]);
        } else if is_white(s[s.len() - 2]) {
            assert(init.last() == s[s.len() - 2]);
            assert(before.len() > 0) by {
                if before.len() == 0 {
                    assert(init.len() == 1);
                    assert(is_white(s[0]));
                }
            }
            assert(words(s).drop_last() =~= before);
            assert(joined(words(s)) =~= init.push(c));
        } else {
            assert(init.last() == s[s.len() - 2]);
            let w = before.last();
            assert(words(s).drop_last() =~= before.drop_last());
            assert(words(s).last() == w.push(c));
            assert(joined(words(s)) =~= joined(before).push(c));
        }
    }
}

/// White space parts the words before it from those behind.
proof fn lemma_white_splits(a: Seq<char>, c: char, b: Seq<char>)
    requires
        is_white(c),
    ensures
        words(a.push(c) + b) == words(a) + words(b),
    decreases b.len(),
{
    let s = a.push(c) + b;
    if b.len() == 0 {
        assert(s =~= a.push(c));
        assert(s.drop_last() =~= a);
        assert(words(a) + words(b) =~= words(a));
    } else {
        let init = b.drop_last();
        lemma_white_splits(a, c, init);
        lemma_words_are_words(init);
        assert(s.drop_last() =~= a.push(c) + init);
        assert(s.last() == b.last());
        if b.len() > 1 {
            assert(s[s.len() - 2] == b[b.len() - 2]);
            assert(init.last() == b[b.len() - 2]);
        } else {
            assert(s[s.len() - 2] == c);
        }
        if !is_white(b.last()) && b.len() > 1 && !is_white(b[b.len() - 2]) {
            assert((words(a) + words(init)).drop_last() =~= words(a) + words(init).drop_last());
        }
        assert(words(s) =~= words(a) + words(b));
    }
}

/// Splitting a text: a white space character parts it into what stands before
/// and behind; without one a text is one word, or none where it is empty.
pub proof fn law_split_words(
    a: &str,
    c: char,
    b: &str,
    whole: &str,
    words_a: Vec<String>,
    words_b: Vec<String>,
    r: Vec<String>,
)
    requires
        whole@ == a@.push(c) + b@,
        call_ensures(split_words, (a,), words_a),
        call_ensures(split_words, (b,), words_b),
        call_ensures(split_words, (whole,), r),
    ensures
        white_numbers().contains(c as u32) ==> texts(r@) == texts(words_a@) + texts(words_b@),
        (forall|i: int| 0 <= i < whole@.len() ==> !white_numbers().contains(#[trigger] whole@[i] as u32))
            ==> texts(r@) == seq![whole@],
        a@.len() == 0 ==> words_a@.len() == 0,
{
    assert forall|d: char| white_numbers().contains(d as u32) == #[trigger] is_white(d) by {
        lemma_white_numbers(d);
    }
    if white_numbers().contains(c as u32) {
        assert(is_white(c));
        lemma_white_splits(a@, c, b@);
    }
    if forall|i: int|
        0 <= i < whole@.len() ==> !white_numbers().contains(#[trigger] whole@[i] as u32) {
        assert forall|i: int| 0 <= i < whole@.len() implies !is_white(#[trigger] whole@[i]) by {}
        lemma_words_append_word(Seq::empty(), whole@);
        assert(Seq::<char>::empty() + whole@ =~= whole@);
        assert(words(whole@) =~= seq![whole@]);
    }
    assert(texts(words_a@).len() == words_a@.len());
}

/// The normal form of a command has the command's words in lower case, with
/// single spaces between them, no other white space and no ASCII capitals; a
/// command of which that holds already comes back unchanged.
pub proof fn law_normalize_command(command: &str, r: String)
    requires
        call_ensures(normalize_command, (command,), r),
    ensures
        words(r@) == lowered_each(words(command@)),
        forall|i: int| 0 <= i < r@.len() ==> !("ABCDEFGHIJKLMNOPQRSTUVWXYZ"@.contains(#[trigger] r@[i])),
        forall|i: int|
            0 <= i < r@.len() && white_numbers().contains(#[trigger] r@[i] as u32) ==> {
                &&& r@[i] == ' '
                &&& 0 < i < r@.len() - 1
                &&& !white_numbers().contains(r@[i - 1] as u32)
                &&& !white_numbers().contains(r@[i + 1] as u32)
            },
        r@.len() == 0 <==> forall|i: int|
            0 <= i < command@.len() ==> white_numbers().contains(#[trigger] command@[i] as u32),
        is_normal(command@) ==> r@ == command@,
{
    assert forall|d: char| white_numbers().contains(d as u32) == #[trigger] is_white(d) by {
        lemma_white_numbers(d);
    }
    law_words_of_normalized(command@);
    law_normalized_is_normal(command@);
    law_normalized_empty_iff_blank(command@);
    if is_normal(command@) {
        law_normal_is_fixed(command@);
    }
    reveal_strlit("ABCDEFGHIJKLMNOPQRSTUVWXYZ");
    assert forall|i: int| 0 <= i < r@.len() && white_numbers().contains(#[trigger] r@[i] as u32) implies {
        &&& r@[i] == ' '
        &&& 0 < i < r@.len() - 1
        &&& !white_numbers().contains(r@[i - 1] as u32)
        &&& !white_numbers().contains(r@[i + 1] as u32)
    } by {
        assert(is_white(r@[i]));
        assert(!is_white(r@[i - 1]) && !is_white(r@[i + 1]));
    }
    if blank(command@) {
        assert forall|i: int| 0 <= i < command@.len() implies white_numbers().contains(
            #[trigger] command@[i] as u32,
        ) by {
            assert(is_white(command@[i]));
        }
    } else {
        let i = choose|i: int| 0 <= i < command@.len() && !is_white(#[trigger] command@[i]);
        assert(!white_numbers().contains(command@[i] as u32));
    }
}

/// The normal form of two texts with white space between them is their normal
/// forms with a space between them, where neither is blank.
pub proof fn law_normal_form_goes_word_by_word(
    a: &str,
    c: char,
    b: &str,
    whole: &str,
    normal_a: String,
    normal_b: String,
    r: String,
)
    requires
        whole@ == a@.push(c) + b@,
        white_numbers().contains(c as u32),
        call_ensures(normalize_command, (a,), normal_a),
        call_ensures(normalize_command, (b,), normal_b),
        call_ensures(normalize_command, (whole,), r),
    ensures
        normal_a@.len() > 0 && normal_b@.len() > 0 ==> r@ == normal_a@ + seq![' '] + normal_b@,
        normal_a@.len() == 0 ==> r@ == normal_b@,
        normal_b@.len() == 0 ==> r@ == normal_a@,
{
    lemma_white_numbers(c);
    lemma_white_splits(a@, c, b@);
    let wa = words(a@);
    let wb = words(b@);
    law_normalized_empty_iff_blank(a@);
    law_normalized_empty_iff_blank(b@);
    lemma_no_words_iff_blank(a@);
    lemma_no_words_iff_blank(b@);
    if wa.len() == 0 {
        assert(wa + wb =~= wb);
    } else if wb.len() == 0 {
        assert(wa + wb =~= wa);
    } else {
        lemma_joined_concat(wa, wb);
        assert(r@ =~= normal_a@ + seq![' '] + normal_b@);
    }
}

/// The normal form of a single word is that word with each letter lowered as
/// `to_ascii_lower` does.
pub proof fn law_normal_form_of_a_word(word: &str, low: String, r: String)
    requires
        is_word(word@),
        call_ensures(to_ascii_lower, (word,), low),
        call_ensures(normalize_command, (word,), r),
    ensures
        r@ == low@,
{
    lemma_words_append_word(Seq::empty(), word@);
    assert(Seq::<char>::empty() + word@ =~= word@);
    assert(words(word@) =~= seq![word@]);
}

} // verus!
