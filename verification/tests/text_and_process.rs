use hourly_fortune::process::{
    accept_cow_output, any_fortune_command, cowsay_command, decode_output, fortune_command,
    list_cow_files_command, pick_one_line_command, random_cowsay_command, CommandLine,
    MESSAGE_LIMIT,
};
use hourly_fortune::text::{chars_of, code_block, decimal, split, trim};

fn args(cl: &CommandLine) -> Vec<&str> {
    cl.args.iter().map(|a| a.as_str()).collect()
}

fn chars(s: &str) -> Vec<char> {
    s.chars().collect()
}

#[test]
fn code_block_wraps_in_fences() {
    assert_eq!(code_block("moo"), "```moo```");
    assert_eq!(code_block(""), "``````");
}

#[test]
fn decimal_writes_numbers() {
    assert_eq!(decimal(0), "0");
    assert_eq!(decimal(7), "7");
    assert_eq!(decimal(10), "10");
    assert_eq!(decimal(1234567890), "1234567890");
    assert_eq!(decimal(u64::MAX), "18446744073709551615");
}

#[test]
fn chars_of_keeps_every_char() {
    assert_eq!(chars_of("héllo ☃"), chars("héllo ☃"));
    assert_eq!(chars_of(""), Vec::<char>::new());
}

#[test]
fn trim_removes_unicode_white_space_at_both_ends() {
    assert_eq!(trim(&chars(" \t a b \n")), chars("a b"));
    assert_eq!(trim(&chars("\u{3000}\u{85}x\u{a0}")), chars("x"));
    assert_eq!(trim(&chars(" \n\t ")), Vec::<char>::new());
    assert_eq!(trim(&chars("tux.cow\n")), chars("tux.cow"));
    assert_eq!(trim(&chars("x\u{200b}")), chars("x\u{200b}"));
}

#[test]
fn split_keeps_empty_pieces() {
    assert_eq!(split(&chars("a\nb\n"), '\n'), vec![chars("a"), chars("b"), vec![]]);
    assert_eq!(split(&chars(""), '\n'), vec![Vec::<char>::new()]);
    assert_eq!(split(&chars("\n\n"), '\n'), vec![Vec::<char>::new(), vec![], vec![]]);
    assert_eq!(split(&chars("abc"), '\n'), vec![chars("abc")]);
}

#[test]
fn fortune_command_limits_length() {
    let cl = fortune_command(75);
    assert_eq!(cl.program, "fortune");
    assert_eq!(args(&cl), vec!["-n", "75", "-e"]);
    assert_eq!(args(&fortune_command(0)), vec!["-n", "0", "-e"]);
}

#[test]
fn cowsay_command_with_and_without_cow() {
    let msg = "hello there".to_string();
    let cow = "tux".to_string();
    let cl = cowsay_command(&msg, Some(&cow));
    assert_eq!(cl.program, "cowsay");
    assert_eq!(args(&cl), vec!["-f", "tux", "--", "hello there"]);
    let plain = cowsay_command(&msg, None);
    assert_eq!(plain.program, "cowsay");
    assert_eq!(args(&plain), vec!["hello there"]);
    let dashes = "-f evil".to_string();
    assert_eq!(args(&cowsay_command(&dashes, Some(&cow))), vec!["-f", "tux", "--", "-f evil"]);
}

#[test]
fn random_cow_pipeline_commands() {
    let ls = list_cow_files_command();
    assert_eq!(ls.program, "ls");
    assert_eq!(args(&ls), vec!["/usr/share/cowsay/cows"]);
    let shuf = pick_one_line_command();
    assert_eq!(shuf.program, "shuf");
    assert_eq!(args(&shuf), vec!["-n1"]);
    let fortune = any_fortune_command();
    assert_eq!(fortune.program, "fortune");
    assert_eq!(args(&fortune), vec!["-e"]);
    let cowsay = random_cowsay_command(b"  dragon-and-cow.cow\n".to_vec());
    assert_eq!(cowsay.program, "cowsay");
    assert_eq!(args(&cowsay), vec!["-f", "dragon-and-cow.cow"]);
}

#[test]
fn cow_output_up_to_the_limit_is_accepted() {
    assert_eq!(MESSAGE_LIMIT, 2000);
    let fits = vec![b'x'; 2000];
    assert_eq!(accept_cow_output(fits), Some("x".repeat(2000)));
    let too_long = vec![b'x'; 2001];
    assert_eq!(accept_cow_output(too_long), None);
    assert_eq!(accept_cow_output(Vec::new()), Some(String::new()));
}

#[test]
fn cow_output_limit_counts_bytes() {
    let two_byte = "é".repeat(1000);
    assert_eq!(accept_cow_output(two_byte.clone().into_bytes()), Some(two_byte));
    let over = "é".repeat(1001);
    assert_eq!(accept_cow_output(over.into_bytes()), None);
}

#[test]
fn decode_output_reads_utf8() {
    assert_eq!(decode_output(b"hello".to_vec()), "hello");
    assert_eq!(decode_output("☃ snow".as_bytes().to_vec()), "☃ snow");
}
