//! From what a finished child process reported to an execution result.
use vstd::prelude::*;
use vstd::utf8::{
    decode_utf8, encode_utf8, encode_utf8_decode_utf8, encode_utf8_valid_utf8, valid_utf8,
};

verus! {

/// The exit code given when the process reported none and did not succeed
/// (for instance, it was killed by a signal).
pub const ABNORMAL_EXIT: i32 = -1;

/// The exit code of a process that reported `code` and whose status was
/// `success`: the reported code where there is one, else 0 for a success and
/// `ABNORMAL_EXIT` otherwise.
pub open spec fn exit_code_spec(code: Option<i32>, success: bool) -> i32 {
    match code {
        Some(c) => c,
        None => if success {
            0
        } else {
            ABNORMAL_EXIT
        },
    }
}

/// The exit code to report for a termination status.
pub fn exit_code(code: Option<i32>, success: bool) -> (r: i32)
    ensures
        r == exit_code_spec(code, success),
{
    match code {
        Some(c) => c,
        None => {
            if success {
                0
            } else {
                ABNORMAL_EXIT
            }
        },
    }
}

/// The text that lossy UTF-8 decoding makes of `bytes`: every sequence that is
/// not valid UTF-8 is replaced by U+FFFD.
pub uninterp spec fn lossy_text(bytes: Seq<u8>) -> Seq<char>;

/// Relies on `String::from_utf8_lossy`: it never fails, decodes valid UTF-8 as
/// it stands, and replaces each invalid sequence (one byte at least) by one
/// U+FFFD, so that text comes out of bytes and nothing out of nothing.
#[verifier::external_body]
fn decode_lossy(bytes: &[u8]) -> (r: String)
    ensures
        r@ == lossy_text(bytes@),
        valid_utf8(bytes@) ==> r@ == decode_utf8(bytes@),
        bytes@.len() == 0 <==> r@.len() == 0,
{
    String::from_utf8_lossy(bytes).into_owned()
}

/// What one decoded output stream holds: the lossy decoding of its bytes,
/// exact where they are valid UTF-8, empty exactly when they are.
pub open spec fn decoded_from(text: Seq<char>, bytes: Seq<u8>) -> bool {
    &&& text == lossy_text(bytes)
    &&& valid_utf8(bytes) ==> text == decode_utf8(bytes)
    &&& (bytes.len() == 0 <==> text.len() == 0)
}

/// The result of one execution: the exit code of the termination status
/// (`code`, `success`) and the standard output and standard error decoded.
/// Decoding never fails, so neither does this.
pub fn execution_result(code: Option<i32>, success: bool, stdout: &[u8], stderr: &[u8]) -> (r: (
    i32,
    String,
    String,
))
    ensures
        r.0 == exit_code_spec(code, success),
        decoded_from(r.1@, stdout@),
        decoded_from(r.2@, stderr@),
{
    let exit = exit_code(code, success);
    let out = decode_lossy(stdout);
    let err = decode_lossy(stderr);
    (exit, out, err)
}

/// Text that a process writes comes back as it was written: a stream whose
/// bytes are the UTF-8 encoding of `text` decodes to `text`.
pub proof fn lemma_written_text_decodes(text: Seq<char>, decoded: Seq<char>)
    requires
        decoded_from(decoded, encode_utf8(text)),
    ensures
        decoded == text,
{
    encode_utf8_valid_utf8(text);
    encode_utf8_decode_utf8(text);
}

/// A command that writes `text` to standard output, nothing to standard error,
/// and exits with status 0 gives exit code 0, exactly `text` as its output text
/// and empty error text.
pub proof fn lemma_echo_result(text: Seq<char>, r: (i32, String, String))
    requires
        r.0 == exit_code_spec(Some(0), true),
        decoded_from(r.1@, encode_utf8(text)),
        decoded_from(r.2@, Seq::empty()),
    ensures
        r.0 == 0,
        r.1@ == text,
        r.2@.len() == 0,
{
    lemma_written_text_decodes(text, r.1@);
}

/// A command that exits with status `code` gives exit code `code`, whatever
/// else its status says.
pub proof fn lemma_exit_code_kept(code: i32, success: bool)
    ensures
        exit_code_spec(Some(code), success) == code,
{
}

/// A command that writes `text` to standard error only gives empty output text
/// and exactly `text` as its error text.
pub proof fn lemma_error_only_result(text: Seq<char>, r: (i32, String, String))
    requires
        decoded_from(r.1@, Seq::empty()),
        decoded_from(r.2@, encode_utf8(text)),
    ensures
        r.1@.len() == 0,
        r.2@ == text,
{
    lemma_written_text_decodes(text, r.2@);
}

/// Decoding never loses output: a stream with bytes in it, valid text or not,
/// decodes to text with characters in it.
pub proof fn lemma_output_never_lost(bytes: Seq<u8>, decoded: Seq<char>)
    requires
        decoded_from(decoded, bytes),
        bytes.len() > 0,
    ensures
        decoded.len() > 0,
{
}

} // verus!
