//! From what a program wrote to the broker's answer.
use vstd::prelude::*;
use vstd::slice::slice_subrange;
use vstd::utf8::{
    decode_utf8, encode_utf8, encode_utf8_decode_utf8, encode_utf8_valid_utf8, valid_utf8,
};
use crate::error::{lemma_tells, tells};
use crate::protocol::{AdminResponse, ResponseView};
use crate::text::{decimal, decimal_text};

verus! {

/// What a program left behind.
#[derive(Debug)]
pub struct ProcessOutput {
    /// Whether it ended with success.
    pub success: bool,
    /// Its exit code, if it ended by itself.
    pub code: Option<i32>,
    pub stdout: Vec<u8>,
    pub stderr: Vec<u8>,
}

/// A [`ProcessOutput`], with its outputs as sequences of bytes.
pub struct OutputView {
    pub success: bool,
    pub code: Option<i32>,
    pub stdout: Seq<u8>,
    pub stderr: Seq<u8>,
}

impl View for ProcessOutput {
    type V = OutputView;

    open spec fn view(&self) -> OutputView {
        OutputView {
            success: self.success,
            code: self.code,
            stdout: self.stdout@,
            stderr: self.stderr@,
        }
    }
}

/// What `String::from_utf8_lossy` makes of bytes.
pub uninterp spec fn utf8_lossy(bytes: Seq<u8>) -> Seq<char>;

/// Reads bytes as UTF-8 (`String::from_utf8_lossy`): the text follows from the
/// bytes alone, and where they are valid UTF-8 it is the text that they encode.
/// Where they are not, the text starts with what they encode as far as they are
/// valid, and the character U+FFFD stands for what is invalid; how many of it
/// and where is left to the name.
#[verifier::external_body]
fn lossy_text(bytes: &[u8]) -> (r: String)
    ensures
        r@ == utf8_lossy(bytes@),
        valid_utf8(bytes@) ==> r@ == decode_utf8(bytes@),
        !valid_utf8(bytes@) ==> r@.contains('\u{fffd}'),
        forall|i: int|
            0 <= i <= bytes@.len() && #[trigger] valid_utf8(bytes@.take(i)) ==> decode_utf8(
                bytes@.take(i),
            ).is_prefix_of(r@),
{
    String::from_utf8_lossy(bytes).into_owned()
}

// ---------------------------------------------------------------------------
// Limited output
// ---------------------------------------------------------------------------

/// The bytes of an output that come back: the first `max`, or all where there
/// are no more.
pub open spec fn kept(bytes: Seq<u8>, max: int) -> Seq<u8> {
    if bytes.len() <= max {
        bytes
    } else {
        bytes.take(max)
    }
}

/// The notice at the end of an output that was cut.
pub open spec fn notice(name: Seq<char>, max: nat, total: nat) -> Seq<char> {
    "\n\n[admin-powershell-mcp: "@ + name + " truncated at "@ + decimal(max) + " of "@ + decimal(
        total,
    ) + " bytes]"@
}

/// The text of an output of `total` bytes of which `max` may come back, given
/// the text of those that do.
pub open spec fn noted(text: Seq<char>, name: Seq<char>, max: nat, total: nat) -> Seq<char> {
    if total <= max {
        text
    } else {
        text + notice(name, max, total)
    }
}

/// The text of an output of which `max` bytes may come back.
pub open spec fn limited(bytes: Seq<u8>, max: nat, name: Seq<char>) -> Seq<char> {
    noted(utf8_lossy(kept(bytes, max as int)), name, max, bytes.len())
}

/// `text` is true to bytes that were read as UTF-8: valid ones come back
/// unchanged, invalid ones show, and what is valid before them comes back
/// unchanged too.
pub open spec fn true_to(bytes: Seq<u8>, text: Seq<char>) -> bool {
    &&& valid_utf8(bytes) ==> text == decode_utf8(bytes)
    &&& !valid_utf8(bytes) ==> text.contains('\u{fffd}')
    &&& forall|i: int|
        0 <= i <= bytes.len() && #[trigger] valid_utf8(bytes.take(i)) ==> decode_utf8(
            bytes.take(i),
        ).is_prefix_of(text)
}

/// `text` is true to the bytes of an output that come back where `max` may.
pub open spec fn reads_back(bytes: Seq<u8>, max: nat, name: Seq<char>, text: Seq<char>) -> bool {
    exists|read: Seq<char>|
        true_to(kept(bytes, max as int), read) && text == #[trigger] noted(
            read,
            name,
            max,
            bytes.len(),
        )
}

/// Adds the notice to the text of an output that was cut.
pub fn with_notice(text: String, name: &str, max_bytes: usize, total: usize) -> (r: String)
    ensures
        r@ == noted(text@, name@, max_bytes as nat, total as nat),
{
    if total <= max_bytes {
        return text;
    }
    let mut note = "\n\n[admin-powershell-mcp: ".to_owned();
    note.append(name);
    note.append(" truncated at ");
    note.append(decimal_text(max_bytes as u64).as_str());
    note.append(" of ");
    note.append(decimal_text(total as u64).as_str());
    note.append(" bytes]");
    let mut out = text;
    out.append(note.as_str());
    out
}

/// Reads an output as text, cut to `max_bytes`, with a notice where it was cut.
/// Where the bytes that come back are valid UTF-8, they come back unchanged.
pub fn limited_lossy(bytes: &[u8], max_bytes: usize, name: &str) -> (r: String)
    ensures
        r@ == limited(bytes@, max_bytes as nat, name@),
        reads_back(bytes@, max_bytes as nat, name@, r@),
{
    if bytes.len() <= max_bytes {
        let text = lossy_text(bytes);
        assert(text@ == noted(text@, name@, max_bytes as nat, bytes@.len()));
        return text;
    }
    let first = slice_subrange(bytes, 0, max_bytes);
    assert(first@ =~= kept(bytes@, max_bytes as int));
    let text = lossy_text(first);
    with_notice(text, name, max_bytes, bytes.len())
}

// ---------------------------------------------------------------------------
// Answers
// ---------------------------------------------------------------------------

/// The answer for a program's whole output.
pub open spec fn response_of(out: OutputView) -> ResponseView {
    ResponseView {
        ok: out.success,
        exit_code: out.code,
        stdout: utf8_lossy(out.stdout),
        stderr: utf8_lossy(out.stderr),
    }
}

/// The answer for a program's output, each part of it cut to `max` bytes.
pub open spec fn limited_response_of(out: OutputView, max: nat) -> ResponseView {
    ResponseView {
        ok: out.success,
        exit_code: out.code,
        stdout: limited(out.stdout, max, "stdout"@),
        stderr: limited(out.stderr, max, "stderr"@),
    }
}

/// Answers with a program's whole output. An output that is valid UTF-8 comes
/// back unchanged.
pub fn response(out: ProcessOutput) -> (r: AdminResponse)
    ensures
        r@ == response_of(out@),
        true_to(out@.stdout, r@.stdout),
        true_to(out@.stderr, r@.stderr),
{
    AdminResponse {
        ok: out.success,
        exit_code: out.code,
        stdout: lossy_text(out.stdout.as_slice()),
        stderr: lossy_text(out.stderr.as_slice()),
    }
}

/// Answers with a program's output, each part of it cut to `max_bytes`. A part
/// that is valid UTF-8 as far as it comes back does so unchanged.
pub fn response_with_limit(out: ProcessOutput, max_bytes: usize) -> (r: AdminResponse)
    ensures
        r@ == limited_response_of(out@, max_bytes as nat),
        reads_back(out@.stdout, max_bytes as nat, "stdout"@, r@.stdout),
        reads_back(out@.stderr, max_bytes as nat, "stderr"@, r@.stderr),
{
    AdminResponse {
        ok: out.success,
        exit_code: out.code,
        stdout: limited_lossy(out.stdout.as_slice(), max_bytes, "stdout"),
        stderr: limited_lossy(out.stderr.as_slice(), max_bytes, "stderr"),
    }
}

// ---------------------------------------------------------------------------
// Laws
// ---------------------------------------------------------------------------

/// An output within the limit is not cut, and no notice is added to it.
pub proof fn law_short_output_is_whole(bytes: Seq<u8>, max: nat, name: Seq<char>)
    requires
        bytes.len() <= max,
    ensures
        kept(bytes, max as int) == bytes,
        limited(bytes, max, name) == utf8_lossy(bytes),
{
}

/// A text that a program wrote in UTF-8, within the limit, comes back as it was
/// written.
pub proof fn law_utf8_output_comes_back(
    written: Seq<char>,
    max: nat,
    name: Seq<char>,
    back: Seq<char>,
)
    requires
        encode_utf8(written).len() <= max,
        reads_back(encode_utf8(written), max, name, back),
    ensures
        back == written,
{
    encode_utf8_valid_utf8(written);
    encode_utf8_decode_utf8(written);
}

/// Two texts, one behind the other, are encoded one behind the other.
proof fn lemma_encode_concat(a: Seq<char>, b: Seq<char>)
    ensures
        encode_utf8(a + b) == encode_utf8(a) + encode_utf8(b),
    decreases a.len(),
{
    if a.len() == 0 {
        assert(a + b =~= b);
        assert(encode_utf8(a) + encode_utf8(b) =~= encode_utf8(b));
    } else {
        lemma_encode_concat(a.drop_first(), b);
        assert((a + b).drop_first() =~= a.drop_first() + b);
        assert(encode_utf8(a + b) =~= encode_utf8(a) + encode_utf8(b));
    }
}

/// Of a text that a program wrote in UTF-8, however long, the characters that
/// the limit leaves whole come back as they were written, at the front.
pub proof fn law_cut_output_keeps_its_start(
    written: Seq<char>,
    whole: int,
    max: nat,
    name: Seq<char>,
    back: Seq<char>,
)
    requires
        0 <= whole <= written.len(),
        encode_utf8(written.take(whole)).len() <= max,
        reads_back(encode_utf8(written), max, name, back),
    ensures
        written.take(whole).is_prefix_of(back),
{
    let bytes = encode_utf8(written);
    let start = written.take(whole);
    let front = encode_utf8(start);
    assert(written =~= start + written.skip(whole));
    lemma_encode_concat(start, written.skip(whole));
    encode_utf8_valid_utf8(start);
    encode_utf8_decode_utf8(start);
    let first = kept(bytes, max as int);
    assert(first.take(front.len() as int) =~= front);
    let read = choose|read: Seq<char>|
        true_to(first, read) && back == #[trigger] noted(read, name, max, bytes.len());
    assert(valid_utf8(first.take(front.len() as int)));
    assert(start =~= read.subrange(0, start.len() as int));
    assert(start =~= back.subrange(0, start.len() as int));
}

/// Never more than `max` bytes of an output come back.
pub proof fn law_output_is_cut(bytes: Seq<u8>, max: nat)
    ensures
        kept(bytes, max as int).len() <= max,
        kept(bytes, max as int).is_prefix_of(bytes),
{
    assert(bytes.subrange(0, bytes.len() as int) =~= bytes);
}

/// Of an output that is too long nothing behind the limit matters but how much
/// of it there is.
pub proof fn law_cut_output_forgets_the_rest(
    a: Seq<u8>,
    b: Seq<u8>,
    max: nat,
    name: Seq<char>,
)
    requires
        a.len() == b.len(),
        max <= a.len(),
        a.take(max as int) == b.take(max as int),
    ensures
        limited(a, max, name) == limited(b, max, name),
{
    if a.len() == max {
        assert(a.take(max as int) =~= a);
        assert(b.take(max as int) =~= b);
    }
}

/// The answer for a program's output says of its success and its exit code what
/// the program did, and gives back each stream as it reads.
pub proof fn law_response(out: ProcessOutput, r: AdminResponse)
    requires
        call_ensures(response, (out,), r),
    ensures
        r.ok == out.success,
        r.exit_code == out.code,
        r.stdout@ == utf8_lossy(out.stdout@),
        r.stderr@ == utf8_lossy(out.stderr@),
{
}

/// However much of its output comes back, the answer says of a program's success
/// and its exit code what the program did.
pub proof fn law_exit_code_comes_back(out: OutputView, max: nat)
    ensures
        limited_response_of(out, max).ok == out.success,
        limited_response_of(out, max).exit_code == out.code,
        response_of(out).ok == out.success,
        response_of(out).exit_code == out.code,
{
}

/// A text as it comes back of `bytes` of which `max` may: whole where there are
/// no more, else the first `max` and then a notice that names the stream, the
/// limit and how much there was.
pub open spec fn comes_back(bytes: Seq<u8>, max: nat, name: Seq<char>, text: Seq<char>) -> bool {
    &&& bytes.len() <= max ==> text == utf8_lossy(bytes)
    &&& bytes.len() > max ==> tells(
        text,
        utf8_lossy(bytes.take(max as int)),
        "\n\n[admin-powershell-mcp: "@ + name + " truncated at "@ + decimal(max) + " of "@ + decimal(
            bytes.len(),
        ) + " bytes]"@,
    )
}

/// A limited output is the answer's success, exit code and both streams of the
/// program, each cut on its own and under its own name.
pub proof fn law_response_with_limit(out: ProcessOutput, max_bytes: usize, r: AdminResponse)
    requires
        call_ensures(response_with_limit, (out, max_bytes), r),
    ensures
        r.ok == out.success,
        r.exit_code == out.code,
        comes_back(out.stdout@, max_bytes as nat, "stdout"@, r.stdout@),
        comes_back(out.stderr@, max_bytes as nat, "stderr"@, r.stderr@),
{
    lemma_limited(out.stdout@, max_bytes as nat, "stdout"@);
    lemma_limited(out.stderr@, max_bytes as nat, "stderr"@);
}

/// What is said of a limited output holds of its text.
pub proof fn lemma_limited(bytes: Seq<u8>, max: nat, name: Seq<char>)
    ensures
        comes_back(bytes, max, name, limited(bytes, max, name)),
{
    if bytes.len() > max {
        lemma_tells(
            utf8_lossy(bytes.take(max as int)),
            "\n\n[admin-powershell-mcp: "@ + name + " truncated at "@ + decimal(max) + " of "@
                + decimal(bytes.len()) + " bytes]"@,
        );
    }
}

/// An output that is read under a limit comes back whole, or cut with a notice.
pub proof fn law_limited_lossy(bytes: &[u8], max_bytes: usize, name: &str, r: String)
    requires
        call_ensures(limited_lossy, (bytes, max_bytes, name), r),
    ensures
        comes_back(bytes@, max_bytes as nat, name@, r@),
{
    lemma_limited(bytes@, max_bytes as nat, name@);
}

/// A notice is added exactly where there was more than may come back, behind the
/// text that does.
pub proof fn law_with_notice(text: String, name: &str, max_bytes: usize, total: usize, r: String)
    requires
        call_ensures(with_notice, (text, name, max_bytes, total), r),
    ensures
        total <= max_bytes ==> r@ == text@,
        total > max_bytes ==> tells(
            r@,
            text@,
            "\n\n[admin-powershell-mcp: "@ + name@ + " truncated at "@ + decimal(max_bytes as nat)
                + " of "@ + decimal(total as nat) + " bytes]"@,
        ),
{
    lemma_tells(
        text@,
        "\n\n[admin-powershell-mcp: "@ + name@ + " truncated at "@ + decimal(max_bytes as nat)
            + " of "@ + decimal(total as nat) + " bytes]"@,
    );
}

} // verus!
