//! The programs the bot runs (`fortune`, `cowsay`, `ls`, `shuf`, `sh`) and the
//! checks it makes on what they print. Running them is left to the caller.
use vstd::prelude::*;
use vstd::utf8::*;
use crate::text::{chars_of, decimal, decimal_spec, string_from_chars, trim, trim_spec, views};

verus! {

/// The most bytes a piece of cow output may have: Discord's message length limit.
pub const MESSAGE_LIMIT: usize = 2000;

/// A program to run and the arguments to hand it.
pub struct CommandLine {
    pub program: String,
    pub args: Vec<String>,
}

impl CommandLine {
    /// The program's name.
    pub open spec fn spec_program(&self) -> Seq<char> {
        self.program@
    }

    /// The arguments' texts, in order.
    pub open spec fn spec_args(&self) -> Seq<Seq<char>> {
        views(self.args@)
    }
}

/// Decodes bytes as UTF-8 (`String::from_utf8`): `Some` exactly when the bytes
/// are valid UTF-8, and then the string holds the characters they encode.
#[verifier::external_body]
pub(crate) fn utf8_string(bytes: Vec<u8>) -> (res: Option<String>)
    ensures
        res is Some <==> valid_utf8(bytes@),
        res matches Some(s) ==> s@ == decode_utf8(bytes@),
{
    match String::from_utf8(bytes) {
        Ok(s) => Some(s),
        Err(_) => None,
    }
}

/// `fortune -n <max_length> -e`: a fortune of at most `max_length` characters
/// from any of the fortune files, chosen with equal weight per file.
pub fn fortune_command(max_length: u64) -> (res: CommandLine)
    ensures
        res.spec_program() == "fortune"@,
        res.spec_args() == seq!["-n"@, decimal_spec(max_length as nat), "-e"@],
{
    let mut args: Vec<String> = Vec::new();
    args.push("-n".to_owned());
    args.push(decimal(max_length));
    args.push("-e".to_owned());
    let res = CommandLine { program: "fortune".to_owned(), args };
    assert(res.spec_args() =~= seq!["-n"@, decimal_spec(max_length as nat), "-e"@]);
    res
}

/// `cowsay [-f <cow> --] <msg>`: the cow (the default one where `file` is
/// `None`) saying `msg`.
pub fn cowsay_command(msg: &String, file: Option<&String>) -> (res: CommandLine)
    ensures
        res.spec_program() == "cowsay"@,
        res.spec_args() == match file {
            Some(cow) => seq!["-f"@, cow@, "--"@, msg@],
            None => seq![msg@],
        },
{
    let mut args: Vec<String> = Vec::new();
    match file {
        Some(cow) => {
            args.push("-f".to_owned());
            args.push(cow.clone());
            args.push("--".to_owned());
        },
        None => {},
    }
    args.push(msg.clone());
    let res = CommandLine { program: "cowsay".to_owned(), args };
    match file {
        Some(cow) => {
            assert(res.spec_args() =~= seq!["-f"@, cow@, "--"@, msg@]);
        },
        None => {
            assert(res.spec_args() =~= seq![msg@]);
        },
    }
    res
}

/// `ls /usr/share/cowsay/cows`: the installed cow files, one per line.
pub fn list_cow_files_command() -> (res: CommandLine)
    ensures
        res.spec_program() == "ls"@,
        res.spec_args() == seq!["/usr/share/cowsay/cows"@],
{
    let mut args: Vec<String> = Vec::new();
    args.push("/usr/share/cowsay/cows".to_owned());
    let res = CommandLine { program: "ls".to_owned(), args };
    assert(res.spec_args() =~= seq!["/usr/share/cowsay/cows"@]);
    res
}

/// `shuf -n1`: one line picked at random from its input.
pub fn pick_one_line_command() -> (res: CommandLine)
    ensures
        res.spec_program() == "shuf"@,
        res.spec_args() == seq!["-n1"@],
{
    let mut args: Vec<String> = Vec::new();
    args.push("-n1".to_owned());
    let res = CommandLine { program: "shuf".to_owned(), args };
    assert(res.spec_args() =~= seq!["-n1"@]);
    res
}

/// `fortune -e`: a fortune of any length.
pub fn any_fortune_command() -> (res: CommandLine)
    ensures
        res.spec_program() == "fortune"@,
        res.spec_args() == seq!["-e"@],
{
    let mut args: Vec<String> = Vec::new();
    args.push("-e".to_owned());
    let res = CommandLine { program: "fortune".to_owned(), args };
    assert(res.spec_args() =~= seq!["-e"@]);
    res
}

/// `cowsay -f <cow>`, where `<cow>` is the line that `shuf` printed, trimmed;
/// the fortune is piped into its input.
pub fn random_cowsay_command(picked: Vec<u8>) -> (res: CommandLine)
    requires
        valid_utf8(picked@),
    ensures
        res.spec_program() == "cowsay"@,
        res.spec_args() == seq!["-f"@, trim_spec(decode_utf8(picked@))],
{
    let text = utf8_string(picked).unwrap();
    let cs = chars_of(text.as_str());
    let cow = string_from_chars(trim(&cs));
    let mut args: Vec<String> = Vec::new();
    args.push("-f".to_owned());
    args.push(cow);
    let res = CommandLine { program: "cowsay".to_owned(), args };
    assert(res.spec_args() =~= seq!["-f"@, trim_spec(decode_utf8(picked@))]);
    res
}

/// The text a program printed, given that it printed valid UTF-8.
pub fn decode_output(stdout: Vec<u8>) -> (res: String)
    requires
        valid_utf8(stdout@),
    ensures
        res@ == decode_utf8(stdout@),
{
    utf8_string(stdout).unwrap()
}

/// What a run of `cowsay` printed, checked: the text when it fits in one
/// message (at most `MESSAGE_LIMIT` bytes), `None` when `cowsay` has to be run
/// again.
pub fn accept_cow_output(stdout: Vec<u8>) -> (res: Option<String>)
    requires
        valid_utf8(stdout@),
    ensures
        res is Some <==> stdout@.len() <= MESSAGE_LIMIT,
        res matches Some(s) ==> s@ == decode_utf8(stdout@),
        res matches Some(s) ==> encode_utf8(s@).len() <= MESSAGE_LIMIT,
{
    let len = stdout.len();
    let text = utf8_string(stdout);
    proof {
        decode_utf8_encode_utf8(stdout@);
    }
    if len > MESSAGE_LIMIT {
        None
    } else {
        text
    }
}

} // verus!
