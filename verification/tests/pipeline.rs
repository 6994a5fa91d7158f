use keccak256_cli::types::{CommandlineArgs, FatalError};
use keccak256_cli::util::{
    exit_status, handle_each_line, handle_input, handle_line, handle_whole, hash_hex,
};
use sha3::{Digest, Keccak256};

const EMPTY_DIGEST: &str = "c5d2460186f7233c927e7db2dcc703c0e500b653ca82273b7bfad8045d85a470";
const ABC_DIGEST: &str = "4e03657aea45a94fc7d47ba826c8d667c0d1e6e33a64a036ec44f58fa12d6c45";
const TRANSFER_DIGEST: &str = "a9059cbb2ab09eb219583f4a59a5d0623ade346d962bcd4e46b11da047c9049b";

fn plain() -> CommandlineArgs {
    CommandlineArgs {
        is_method_id_output: false,
        no_0x: false,
        each_line_output: false,
        is_include_input: false,
    }
}

fn lines(texts: &[&str]) -> Vec<String> {
    texts.iter().map(|t| t.to_string()).collect()
}

fn expected_hex(bytes: &[u8]) -> String {
    let mut hex = String::new();
    for byte in Keccak256::digest(bytes) {
        hex.push_str(&format!("{:02x}", byte));
    }
    hex
}

#[test]
fn hash_hex_gives_the_known_digest_of_no_bytes() {
    assert_eq!(hash_hex(b""), Ok(EMPTY_DIGEST.to_string()));
}

#[test]
fn hash_hex_gives_the_known_digest_of_abc() {
    assert_eq!(hash_hex(b"abc"), Ok(ABC_DIGEST.to_string()));
}

#[test]
fn hash_hex_gives_the_known_digest_of_a_method_signature() {
    assert_eq!(hash_hex(b"transfer(address,uint256)"), Ok(TRANSFER_DIGEST.to_string()));
}

#[test]
fn hash_hex_agrees_with_the_hasher_on_long_input() {
    let long: Vec<u8> = (0..1000u32).map(|i| (i % 251) as u8).collect();
    assert_eq!(hash_hex(&long), Ok(expected_hex(&long)));
}

#[test]
fn hash_hex_is_not_the_rendering_of_its_input() {
    let input = [0x12u8; 32];
    let hex = hash_hex(&input).unwrap();
    assert_ne!(hex, "12".repeat(32));
    assert_eq!(hex, expected_hex(&input));
}

#[test]
fn hashing_the_same_bytes_twice_gives_the_same_64_digits() {
    let first = hash_hex("some text".as_bytes()).unwrap();
    let second = hash_hex("some text".as_bytes()).unwrap();
    assert_eq!(first, second);
    assert_eq!(first.len(), 64);
    assert!(first.chars().all(|c| matches!(c, '0'..='9' | 'a'..='f')));
}

#[test]
fn whole_mode_hashes_no_lines_as_the_empty_text() {
    let out = handle_whole(&plain(), &lines(&[]));
    assert_eq!(out, Ok(format!("0x{}", EMPTY_DIGEST)));
}

#[test]
fn whole_mode_echoes_nothing_but_a_space_for_no_lines() {
    let args = CommandlineArgs { is_include_input: true, ..plain() };
    let out = handle_whole(&args, &lines(&[]));
    assert_eq!(out, Ok(format!(" 0x{}", EMPTY_DIGEST)));
}

#[test]
fn whole_mode_hashes_a_single_line_without_a_line_feed() {
    let out = handle_whole(&plain(), &lines(&["abc"]));
    assert_eq!(out, Ok(format!("0x{}", ABC_DIGEST)));
}

#[test]
fn whole_mode_echoes_a_single_line() {
    let args = CommandlineArgs { is_include_input: true, ..plain() };
    let out = handle_whole(&args, &lines(&["abc"]));
    assert_eq!(out, Ok(format!("abc 0x{}", ABC_DIGEST)));
}

#[test]
fn whole_mode_joins_lines_with_line_feeds() {
    let out = handle_whole(&plain(), &lines(&["hello", "world", ""]));
    assert_eq!(out, Ok(format!("0x{}", expected_hex(b"hello\nworld\n"))));
    let two = handle_whole(&plain(), &lines(&["hello", "world"]));
    assert_eq!(two, Ok(format!("0x{}", expected_hex(b"hello\nworld"))));
    assert_ne!(out, two);
}

#[test]
fn whole_mode_hashes_the_utf8_bytes_of_the_text() {
    let out = handle_whole(&plain(), &lines(&["žluťoučký kůň"]));
    assert_eq!(out, Ok(format!("0x{}", expected_hex("žluťoučký kůň".as_bytes()))));
}

#[test]
fn whole_mode_refuses_an_echo_of_two_lines() {
    let args = CommandlineArgs { is_include_input: true, ..plain() };
    let out = handle_whole(&args, &lines(&["abc", "def"]));
    assert_eq!(out, Err(FatalError::IncludeInputOnMultipleLines));
    assert_eq!(exit_status(&out), 1);
}

#[test]
fn whole_mode_refuses_an_echo_of_many_lines_whatever_the_other_switches() {
    for method_id in [false, true] {
        for no_0x in [false, true] {
            let args = CommandlineArgs {
                is_method_id_output: method_id,
                no_0x,
                each_line_output: false,
                is_include_input: true,
            };
            let out = handle_whole(&args, &lines(&["a", "b", "c", "d"]));
            assert_eq!(out, Err(FatalError::IncludeInputOnMultipleLines));
        }
    }
}

#[test]
fn whole_mode_accepts_many_lines_without_an_echo() {
    let out = handle_whole(&plain(), &lines(&["abc", "def"]));
    assert_eq!(out, Ok(format!("0x{}", expected_hex(b"abc\ndef"))));
    assert_eq!(exit_status(&out), 0);
}

#[test]
fn whole_mode_shows_a_method_id() {
    let args = CommandlineArgs { is_method_id_output: true, ..plain() };
    let out = handle_whole(&args, &lines(&["transfer(address,uint256)"]));
    assert_eq!(out, Ok("0xa9059cbb".to_string()));
}

#[test]
fn whole_mode_covers_all_eight_combinations() {
    let input = lines(&["abc"]);
    let short = &ABC_DIGEST[..8];
    let cases = [
        (false, false, false, format!("0x{}", ABC_DIGEST)),
        (false, false, true, format!("abc 0x{}", ABC_DIGEST)),
        (false, true, false, ABC_DIGEST.to_string()),
        (false, true, true, format!("abc {}", ABC_DIGEST)),
        (true, false, false, format!("0x{}", short)),
        (true, false, true, format!("abc 0x{}", short)),
        (true, true, false, short.to_string()),
        (true, true, true, format!("abc {}", short)),
    ];
    for (method_id, no_0x, echo, expected) in cases {
        let args = CommandlineArgs {
            is_method_id_output: method_id,
            no_0x,
            each_line_output: false,
            is_include_input: echo,
        };
        assert_eq!(handle_whole(&args, &input), Ok(expected));
    }
}

#[test]
fn per_line_mode_hashes_an_empty_line() {
    let args = CommandlineArgs { each_line_output: true, ..plain() };
    assert_eq!(handle_line(&args, ""), format!("0x{}", EMPTY_DIGEST));
    assert_eq!(handle_each_line(&args, &lines(&[""])), vec![format!("0x{}", EMPTY_DIGEST)]);
}

#[test]
fn per_line_mode_covers_all_eight_combinations() {
    let short = &ABC_DIGEST[..8];
    let cases = [
        (false, false, false, format!("0x{}", ABC_DIGEST)),
        (false, false, true, format!("abc 0x{}", ABC_DIGEST)),
        (false, true, false, ABC_DIGEST.to_string()),
        (false, true, true, format!("abc {}", ABC_DIGEST)),
        (true, false, false, format!("0x{}", short)),
        (true, false, true, format!("abc 0x{}", short)),
        (true, true, false, short.to_string()),
        (true, true, true, format!("abc {}", short)),
    ];
    for (method_id, no_0x, echo, expected) in cases {
        let args = CommandlineArgs {
            is_method_id_output: method_id,
            no_0x,
            each_line_output: true,
            is_include_input: echo,
        };
        assert_eq!(handle_line(&args, "abc"), expected);
    }
}

#[test]
fn per_line_mode_gives_one_output_line_for_each_input_line() {
    let args = CommandlineArgs { each_line_output: true, ..plain() };
    let input = lines(&["abc", "", "transfer(address,uint256)", "abc"]);
    let outs = handle_each_line(&args, &input);
    assert_eq!(
        outs,
        vec![
            format!("0x{}", ABC_DIGEST),
            format!("0x{}", EMPTY_DIGEST),
            format!("0x{}", TRANSFER_DIGEST),
            format!("0x{}", ABC_DIGEST),
        ]
    );
    assert_eq!(handle_each_line(&args, &lines(&[])), Vec::<String>::new());
}

#[test]
fn per_line_mode_echoes_each_line_of_many() {
    let args = CommandlineArgs { each_line_output: true, is_include_input: true, ..plain() };
    let outs = handle_each_line(&args, &lines(&["abc", "a b  c"]));
    assert_eq!(
        outs,
        vec![
            format!("abc 0x{}", ABC_DIGEST),
            format!("a b  c 0x{}", expected_hex(b"a b  c")),
        ]
    );
}

#[test]
fn per_line_mode_handles_lines_as_handle_line_does() {
    let args = CommandlineArgs {
        is_method_id_output: true,
        no_0x: true,
        each_line_output: true,
        is_include_input: true,
    };
    let input = lines(&["one", "two", "three"]);
    let outs = handle_each_line(&args, &input);
    assert_eq!(outs.len(), input.len());
    for (line, out) in input.iter().zip(outs.iter()) {
        assert_eq!(out, &handle_line(&args, line));
    }
}

#[test]
fn method_id_output_is_the_first_8_digits_of_the_full_output() {
    for text in ["", "abc", "balanceOf(address)", "žluťoučký"] {
        let full = handle_line(&CommandlineArgs { no_0x: true, ..plain() }, text);
        let short = handle_line(
            &CommandlineArgs { no_0x: true, is_method_id_output: true, ..plain() },
            text,
        );
        assert_eq!(short.len(), 8);
        assert_eq!(full.len(), 64);
        assert_eq!(short, full[..8]);
    }
}

#[test]
fn omitting_the_prefix_removes_exactly_the_leading_0x() {
    for text in ["", "abc", "0x", "x0x0"] {
        let with = handle_line(&plain(), text);
        let without = handle_line(&CommandlineArgs { no_0x: true, ..plain() }, text);
        assert_eq!(with.strip_prefix("0x"), Some(without.as_str()));
        assert!(!without.contains('x'));
    }
}

#[test]
fn handle_input_gives_one_line_in_whole_mode() {
    let out = handle_input(&plain(), &lines(&["hello", "world"]));
    assert_eq!(out, Ok(vec![format!("0x{}", expected_hex(b"hello\nworld"))]));
    assert_eq!(exit_status(&out), 0);
    let none = handle_input(&plain(), &lines(&[]));
    assert_eq!(none, Ok(vec![format!("0x{}", EMPTY_DIGEST)]));
}

#[test]
fn handle_input_gives_a_line_for_each_line_in_per_line_mode() {
    let args = CommandlineArgs { each_line_output: true, ..plain() };
    let out = handle_input(&args, &lines(&["hello", "world"]));
    assert_eq!(
        out,
        Ok(vec![
            format!("0x{}", expected_hex(b"hello")),
            format!("0x{}", expected_hex(b"world")),
        ])
    );
    assert_eq!(handle_input(&args, &lines(&[])), Ok(vec![]));
}

#[test]
fn handle_input_refuses_an_echo_of_two_lines_in_whole_mode_only() {
    let whole = CommandlineArgs { is_include_input: true, ..plain() };
    let out = handle_input(&whole, &lines(&["abc", "def"]));
    assert_eq!(out, Err(FatalError::IncludeInputOnMultipleLines));
    assert_eq!(exit_status(&out), 1);
    let each = CommandlineArgs { each_line_output: true, ..whole };
    let outs = handle_input(&each, &lines(&["abc", "def"]));
    assert_eq!(
        outs,
        Ok(vec![
            format!("abc 0x{}", ABC_DIGEST),
            format!("def 0x{}", expected_hex(b"def")),
        ])
    );
}
