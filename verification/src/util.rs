//! The two pipelines: the whole input as one document, or each line alone.
//!
//! Both hash text with Keccak-256, render the digest as hex and format one
//! output line per unit. They differ in what a unit is, and in what would
//! become of a failure to write the hex digits: for the one document it is
//! fatal, for a line it is shown in that line's place and the other lines go
//! on. The writer used here, a `String`, reports no such failure, so every
//! unit gets the line that shows its digest.

use crate::digest::{keccak256, keccak256_digest};
use crate::document::{document_text, join_lines, line_texts};
use crate::hex::{encode_hex, hex_string, is_hex_digit, lemma_hex_string_digits};
use crate::output::{
    digest_line, echo_text, encoded_text, format_digest_line, format_line,
    lemma_method_id_line_is_cut, lemma_no_prefix_leaves_digits_only,
    lemma_prefix_is_only_difference, prefix_text, shown_hex,
};
use crate::types::{CommandlineArgs, EncodeError, FatalError};
use vstd::prelude::*;
use vstd::utf8::encode_utf8;

verus! {

/// The full hex rendering of the Keccak-256 digest of `bytes`.
pub open spec fn digest_hex(bytes: Seq<u8>) -> Seq<char> {
    hex_string(keccak256_digest(bytes)@)
}

/// The full hex rendering of the Keccak-256 digest of the UTF-8 bytes of `text`.
pub open spec fn text_digest_hex(text: Seq<char>) -> Seq<char> {
    digest_hex(encode_utf8(text))
}

/// Whether whole-input mode refuses an input of `line_count` lines: the echo
/// of a document of several lines would not fit on one output line.
pub open spec fn refuses_line_count(args: CommandlineArgs, line_count: nat) -> bool {
    args.is_include_input && line_count > 1
}

/// What whole-input mode gives for `document`, given how the rendering of its
/// digest ended.
pub open spec fn whole_result(
    args: CommandlineArgs,
    document: Seq<char>,
    encoded: Result<Seq<char>, EncodeError>,
) -> Result<Seq<char>, FatalError> {
    match encoded {
        Ok(hex) => Ok(digest_line(args, document, hex)),
        Err(e) => Err(FatalError::Encoding(e)),
    }
}

/// What a result of whole-input mode holds, as a sequence of characters.
pub open spec fn output_text(res: Result<String, FatalError>) -> Result<Seq<char>, FatalError> {
    match res {
        Ok(line) => Ok(line@),
        Err(e) => Err(e),
    }
}

/// What whole-input mode gives for `lines`: the refusal where the number of
/// lines is refused, else the line that shows the digest of the document.
pub open spec fn whole_output(args: CommandlineArgs, lines: Seq<String>) -> Result<
    Seq<char>,
    FatalError,
> {
    let document = document_text(line_texts(lines));
    if refuses_line_count(args, lines.len()) {
        Err(FatalError::IncludeInputOnMultipleLines)
    } else {
        Ok(digest_line(args, document, text_digest_hex(document)))
    }
}

/// The output line of per-line mode for `line`: the line that shows the digest
/// of `line`.
pub open spec fn line_output(args: CommandlineArgs, line: Seq<char>) -> Seq<char> {
    digest_line(args, line, text_digest_hex(line))
}

/// Whether `outs` are the output lines of per-line mode for `lines`: one for
/// each line, in the order of the lines.
pub open spec fn are_line_outputs(args: CommandlineArgs, lines: Seq<String>, outs: Seq<String>) -> bool {
    &&& outs.len() == lines.len()
    &&& forall|i: int| 0 <= i < lines.len() ==> #[trigger] outs[i]@ == line_output(args, lines[i]@)
}

/// Hashes `bytes` with a fresh Keccak-256 hasher and renders the 32 bytes of
/// the digest as 64 hex digits.
pub fn hash_hex(bytes: &[u8]) -> (res: Result<String, EncodeError>)
    ensures
        res matches Ok(hex) && hex@ == digest_hex(bytes@),
{
    let digest = keccak256(bytes);
    encode_hex(digest.as_slice())
}

/// Handles one line of per-line mode: hashes it, renders the digest and formats
/// the output line. A failure to write the hex digits would not end the run:
/// [`format_line`] puts the failure marker in place of the digits.
pub fn handle_line(args: &CommandlineArgs, line: &str) -> (out: String)
    ensures
        out@ == line_output(*args, line@),
{
    let encoded = hash_hex(line.as_bytes());
    format_line(args, line, &encoded)
}

/// Handles each line independently: the result holds one output line for each
/// input line, in the same order, and each shows the digest of its own line,
/// whatever the other lines are.
pub fn handle_each_line(args: &CommandlineArgs, lines: &[String]) -> (outs: Vec<String>)
    ensures
        are_line_outputs(*args, lines@, outs@),
{
    let mut outs: Vec<String> = Vec::new();
    let mut i: usize = 0;
    while i < lines.len()
        invariant
            i <= lines.len(),
            are_line_outputs(*args, lines@.take(i as int), outs@),
        decreases lines.len() - i,
    {
        let out = handle_line(args, lines[i].as_str());
        outs.push(out);
        i += 1;
    }
    proof {
        assert(lines@.take(i as int) =~= lines@);
    }
    outs
}

/// Checks the number of lines read in whole-input mode, once all input has
/// been read and before anything is hashed.
pub fn check_line_count(args: &CommandlineArgs, line_count: usize) -> (res: Result<(), FatalError>)
    ensures
        refuses_line_count(*args, line_count as nat) ==> res == Err::<(), FatalError>(
            FatalError::IncludeInputOnMultipleLines,
        ),
        !refuses_line_count(*args, line_count as nat) ==> res is Ok,
{
    if line_count > 1 && args.is_include_input {
        Err(FatalError::IncludeInputOnMultipleLines)
    } else {
        Ok(())
    }
}

/// Ends whole-input mode for `document`, given how the rendering of its digest
/// ended: the one output line, or the fatal error that takes its place.
pub fn finish_whole(args: &CommandlineArgs, document: &str, encoded: Result<String, EncodeError>) -> (res:
    Result<String, FatalError>)
    requires
        args.is_method_id_output ==> (encoded matches Ok(hex) ==> hex@.len() >= 8),
    ensures
        output_text(res) == whole_result(*args, document@, encoded_text(encoded)),
{
    match encoded {
        Ok(hex) => Ok(format_digest_line(args, document, hex.as_str())),
        Err(e) => Err(FatalError::Encoding(e)),
    }
}

/// Handles all input lines as a whole: joins them into one document, checks
/// the number of lines, hashes the document and formats the one output line.
///
/// The input is refused exactly where `is_include_input` is set and there is
/// more than one line; nothing is hashed then. Otherwise the result is the
/// output line for the document. A failure to write the hex digits would be
/// fatal here, as [`finish_whole`] has it.
pub fn handle_whole(args: &CommandlineArgs, lines: &[String]) -> (res: Result<String, FatalError>)
    ensures
        output_text(res) == whole_output(*args, lines@),
        refuses_line_count(*args, lines.len() as nat) <==> res
            == Err::<String, FatalError>(FatalError::IncludeInputOnMultipleLines),
{
    let document = join_lines(lines);
    match check_line_count(args, lines.len()) {
        Ok(()) => {},
        Err(e) => {
            return Err(e);
        },
    }
    let encoded = hash_hex(document.as_str().as_bytes());
    finish_whole(args, document.as_str(), encoded)
}

/// Handles `lines` in the mode that `args` selects. Per-line mode gives one
/// output line for each input line and cannot fail; whole-input mode gives
/// exactly one output line, or the refusal of the number of lines.
pub fn handle_input(args: &CommandlineArgs, lines: &[String]) -> (res: Result<Vec<String>, FatalError>)
    ensures
        args.each_line_output ==> (res matches Ok(outs) && are_line_outputs(*args, lines@, outs@)),
        !args.each_line_output ==> match res {
            Ok(outs) => outs.len() == 1 && whole_output(*args, lines@) == Ok::<
                Seq<char>,
                FatalError,
            >(outs[0]@),
            Err(e) => whole_output(*args, lines@) == Err::<Seq<char>, FatalError>(e),
        },
{
    if args.each_line_output {
        Ok(handle_each_line(args, lines))
    } else {
        match handle_whole(args, lines) {
            Ok(out) => {
                let mut outs: Vec<String> = Vec::new();
                outs.push(out);
                Ok(outs)
            },
            Err(e) => Err(e),
        }
    }
}

/// The exit status of a run: 0 where it succeeded, 1 where a fatal error
/// ended it.
pub fn exit_status<T>(outcome: &Result<T, FatalError>) -> (status: i32)
    ensures
        status == (if outcome is Ok {
            0i32
        } else {
            1i32
        }),
{
    match outcome {
        Ok(_) => 0,
        Err(_) => 1,
    }
}

/// The rendering of a digest depends on the hashed bytes alone: equal bytes
/// have equal renderings. Every rendering has exactly 64 characters, each a
/// lowercase hex digit.
pub proof fn lemma_digest_hex_is_determined(first: Seq<u8>, second: Seq<u8>)
    requires
        first =~= second,
    ensures
        digest_hex(first) == digest_hex(second),
        digest_hex(first).len() == 64,
        forall|i: int| 0 <= i < 64 ==> is_hex_digit(#[trigger] digest_hex(first)[i]),
{
    lemma_hex_string_digits(keccak256_digest(first)@);
}

/// The hex part of an output line has 8 characters for a method id and 64
/// otherwise.
pub proof fn lemma_shown_digest_len(args: CommandlineArgs, bytes: Seq<u8>)
    ensures
        shown_hex(args, digest_hex(bytes)).len() == (if args.is_method_id_output {
            8int
        } else {
            64int
        }),
{
}

/// For every text, the method id line is the full line cut off after its
/// first 8 hex digits, whatever the other switches are.
pub proof fn lemma_method_id_output_is_cut(args: CommandlineArgs, text: Seq<char>)
    ensures
        ({
            let full = (CommandlineArgs { is_method_id_output: false, ..args });
            let short = (CommandlineArgs { is_method_id_output: true, ..args });
            let lead = echo_text(args, text).len() + prefix_text(args).len();
            &&& line_output(full, text).len() == lead + 64
            &&& line_output(short, text) == line_output(full, text).take((lead + 8) as int)
        }),
{
    lemma_method_id_line_is_cut(args, text, text_digest_hex(text));
}

/// For every text, the line without prefix holds nothing after its echo part
/// but the hex digits of the digest, and the line with prefix holds `0x` and
/// the same digits there.
pub proof fn lemma_prefix_output_differs_by_0x(args: CommandlineArgs, text: Seq<char>)
    ensures
        ({
            let with = (CommandlineArgs { no_0x: false, ..args });
            let without = (CommandlineArgs { no_0x: true, ..args });
            let digits = shown_hex(args, text_digest_hex(text));
            let echo = echo_text(args, text);
            &&& line_output(with, text) == echo + seq!['0', 'x'] + digits
            &&& line_output(without, text) == echo + digits
            &&& forall|i: int|
                echo.len() <= i < line_output(without, text).len() ==> {
                    &&& is_hex_digit(#[trigger] line_output(without, text)[i])
                    &&& line_output(without, text)[i] != 'x'
                }
        }),
{
    let without = (CommandlineArgs { no_0x: true, ..args });
    let hex = text_digest_hex(text);
    lemma_prefix_is_only_difference(args, text, hex);
    lemma_digest_hex_is_determined(encode_utf8(text), encode_utf8(text));
    lemma_no_prefix_leaves_digits_only(without, text, hex);
}

/// Equal lines have equal output lines in per-line mode, wherever they stand
/// among the lines and whatever was handled before them.
pub proof fn lemma_equal_lines_have_equal_outputs(
    args: CommandlineArgs,
    lines: Seq<String>,
    outs: Seq<String>,
    i: int,
    j: int,
)
    requires
        are_line_outputs(args, lines, outs),
        0 <= i < lines.len(),
        0 <= j < lines.len(),
        lines[i]@ == lines[j]@,
    ensures
        outs[i]@ == outs[j]@,
{
}

/// Input without lines is hashed as the empty text: whole-input mode accepts
/// it and shows the digest of no bytes at all, after an echo that holds
/// nothing but its space.
pub proof fn lemma_no_lines_hash_as_empty_text(args: CommandlineArgs, lines: Seq<String>)
    requires
        lines.len() == 0,
    ensures
        document_text(line_texts(lines)) == Seq::<char>::empty(),
        whole_output(args, lines) == Ok::<Seq<char>, FatalError>(
            echo_text(args, Seq::empty()) + prefix_text(args) + shown_hex(
                args,
                text_digest_hex(Seq::empty()),
            ),
        ),
{
}

} // verus!
