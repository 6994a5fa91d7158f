//! The output formatter: one line of text per unit of input.
//!
//! A line is made of up to three parts, in this order: the input text followed
//! by one space, where the input is echoed; `0x`, unless it is left out; and
//! the hex digits, or in their place a marker that tells of a failure to write
//! them.

use crate::hex::is_hex_digit;
use crate::types::{CommandlineArgs, EncodeError};
use vstd::prelude::*;

verus! {

/// The echo part: the input and one space, or nothing.
pub open spec fn echo_text(args: CommandlineArgs, input: Seq<char>) -> Seq<char> {
    if args.is_include_input {
        input.push(' ')
    } else {
        Seq::empty()
    }
}

/// The prefix part: `0x`, or nothing.
pub open spec fn prefix_text(args: CommandlineArgs) -> Seq<char> {
    if args.no_0x {
        Seq::empty()
    } else {
        seq!['0', 'x']
    }
}

/// The hex part: the first 8 digits for a method id, else all of them.
pub open spec fn shown_hex(args: CommandlineArgs, hex: Seq<char>) -> Seq<char> {
    if args.is_method_id_output {
        hex.take(8)
    } else {
        hex
    }
}

/// The line that shows a digest whose full hex rendering is `hex`.
pub open spec fn digest_line(args: CommandlineArgs, input: Seq<char>, hex: Seq<char>) -> Seq<char> {
    echo_text(args, input) + prefix_text(args) + shown_hex(args, hex)
}

/// The text that stands in place of the hex digits that could not be written:
/// the diagnostic of the failure between two single quotes.
pub open spec fn failure_marker(e: EncodeError) -> Seq<char> {
    seq!['\''] + e.message_text() + seq!['\'']
}

/// The line for a unit whose digest could not be written: the marker stands
/// where the hex digits would, after the echo part and the prefix part.
pub open spec fn failure_line(args: CommandlineArgs, input: Seq<char>, e: EncodeError) -> Seq<char> {
    echo_text(args, input) + prefix_text(args) + failure_marker(e)
}

/// The line for a unit of input, given how the rendering of its digest ended.
pub open spec fn output_line(
    args: CommandlineArgs,
    input: Seq<char>,
    encoded: Result<Seq<char>, EncodeError>,
) -> Seq<char> {
    match encoded {
        Ok(hex) => digest_line(args, input, hex),
        Err(e) => failure_line(args, input, e),
    }
}

/// What a rendering holds, as a sequence of characters.
pub open spec fn encoded_text(encoded: Result<String, EncodeError>) -> Result<
    Seq<char>,
    EncodeError,
> {
    match encoded {
        Ok(hex) => Ok(hex@),
        Err(e) => Err(e),
    }
}

/// Starts a line with the echo part and the prefix part.
fn start_line(args: &CommandlineArgs, input: &str) -> (line: String)
    ensures
        line@ == echo_text(*args, input@) + prefix_text(*args),
{
    let mut line = String::new();
    if args.is_include_input {
        line.append(input);
        line.append(" ");
    }
    if !args.no_0x {
        line.append("0x");
    }
    proof {
        reveal_strlit(" ");
        reveal_strlit("0x");
        assert(line@ =~= echo_text(*args, input@) + prefix_text(*args));
    }
    line
}

/// Formats the line that shows a digest. `hex` is the full rendering of the
/// digest; a method id takes its first 8 characters.
pub fn format_digest_line(args: &CommandlineArgs, input: &str, hex: &str) -> (line: String)
    requires
        args.is_method_id_output ==> hex@.len() >= 8,
    ensures
        line@ == digest_line(*args, input@, hex@),
{
    let mut line = start_line(args, input);
    if args.is_method_id_output {
        line.append(hex.substring_char(0, 8));
    } else {
        line.append(hex);
    }
    line
}

/// Formats the line for a unit whose digest could not be written.
pub fn format_failure_line(args: &CommandlineArgs, input: &str, e: EncodeError) -> (line: String)
    ensures
        line@ == failure_line(*args, input@, e),
{
    let mut line = start_line(args, input);
    let message = e.message();
    line.append("'");
    line.append(message.as_str());
    line.append("'");
    proof {
        reveal_strlit("'");
        assert(line@ =~= failure_line(*args, input@, e));
    }
    line
}

/// Formats the line for one unit of input in per-line mode: the digest where
/// its rendering succeeded, the failure marker in its place where it did not.
pub fn format_line(args: &CommandlineArgs, input: &str, encoded: &Result<String, EncodeError>) -> (line:
    String)
    requires
        args.is_method_id_output ==> (encoded matches Ok(hex) ==> hex@.len() >= 8),
    ensures
        line@ == output_line(*args, input@, encoded_text(*encoded)),
{
    match encoded {
        Ok(hex) => format_digest_line(args, input, hex.as_str()),
        Err(e) => format_failure_line(args, input, *e),
    }
}

/// A method id line is the full line cut off after its first 8 hex digits: the
/// hex part of the one is the first 8 characters of the hex part of the other,
/// and the parts in front of it are the same.
pub proof fn lemma_method_id_line_is_cut(args: CommandlineArgs, input: Seq<char>, hex: Seq<char>)
    requires
        hex.len() >= 8,
    ensures
        ({
            let full = (CommandlineArgs { is_method_id_output: false, ..args });
            let short = (CommandlineArgs { is_method_id_output: true, ..args });
            let lead = echo_text(args, input).len() + prefix_text(args).len();
            &&& shown_hex(short, hex) == shown_hex(full, hex).take(8)
            &&& shown_hex(short, hex).len() == 8
            &&& digest_line(short, input, hex) == digest_line(full, input, hex).take((lead + 8) as int)
        }),
{
    let full = (CommandlineArgs { is_method_id_output: false, ..args });
    let short = (CommandlineArgs { is_method_id_output: true, ..args });
    let lead = echo_text(args, input).len() + prefix_text(args).len();
    assert(digest_line(short, input, hex) =~= digest_line(full, input, hex).take((lead + 8) as int));
}

/// The prefix is the only difference that `no_0x` makes: with it set the hex
/// part follows the echo part at once, without it `0x` stands between the two.
pub proof fn lemma_prefix_is_only_difference(args: CommandlineArgs, input: Seq<char>, hex: Seq<char>)
    ensures
        ({
            let with = (CommandlineArgs { no_0x: false, ..args });
            let without = (CommandlineArgs { no_0x: true, ..args });
            let echo = echo_text(args, input);
            &&& digest_line(with, input, hex) == echo + seq!['0', 'x'] + shown_hex(args, hex)
            &&& digest_line(without, input, hex) == echo + shown_hex(args, hex)
            &&& digest_line(without, input, hex).skip(echo.len() as int) == shown_hex(args, hex)
            &&& digest_line(with, input, hex).skip((echo.len() + 2) as int) == shown_hex(args, hex)
        }),
{
    let with = (CommandlineArgs { no_0x: false, ..args });
    let without = (CommandlineArgs { no_0x: true, ..args });
    let echo = echo_text(args, input);
    assert(digest_line(without, input, hex) =~= echo + shown_hex(args, hex));
    assert(digest_line(without, input, hex).skip(echo.len() as int) =~= shown_hex(args, hex));
    assert(digest_line(with, input, hex).skip((echo.len() + 2) as int) =~= shown_hex(args, hex));
}

/// With `no_0x` set, nothing but hex digits follows the echo part of a line
/// that shows hex digits: in particular no `x`.
pub proof fn lemma_no_prefix_leaves_digits_only(args: CommandlineArgs, input: Seq<char>, hex: Seq<char>)
    requires
        args.no_0x,
        args.is_method_id_output ==> hex.len() >= 8,
        forall|i: int| 0 <= i < hex.len() ==> is_hex_digit(#[trigger] hex[i]),
    ensures
        forall|i: int|
            echo_text(args, input).len() <= i < digest_line(args, input, hex).len() ==> {
                &&& is_hex_digit(#[trigger] digest_line(args, input, hex)[i])
                &&& digest_line(args, input, hex)[i] != 'x'
            },
{
    let echo = echo_text(args, input);
    let line = digest_line(args, input, hex);
    assert forall|i: int| echo.len() <= i < line.len() implies {
        &&& is_hex_digit(#[trigger] line[i])
        &&& line[i] != 'x'
    } by {
        assert(line[i] == hex[i - echo.len()]);
        assert(is_hex_digit(hex[i - echo.len()]));
    }
}

/// An echo shows the input as it came: a line with an echo starts with the
/// input, character for character, followed by one space.
pub proof fn lemma_echo_is_verbatim(args: CommandlineArgs, input: Seq<char>, hex: Seq<char>)
    requires
        args.is_include_input,
    ensures
        digest_line(args, input, hex).take(input.len() as int) == input,
        digest_line(args, input, hex)[input.len() as int] == ' ',
        failure_line(args, input, EncodeError).take(input.len() as int) == input,
        failure_line(args, input, EncodeError)[input.len() as int] == ' ',
{
    assert(digest_line(args, input, hex).take(input.len() as int) =~= input);
    assert(failure_line(args, input, EncodeError).take(input.len() as int) =~= input);
}

} // verus!
