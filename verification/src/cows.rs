//! The cows offered as choices of the `cowsay` command: the list is read from
//! `cowsay -l`, and each cow gets a choice name, which a naming script prints
//! for its file name (`bud-frogs` becomes `BudFrogs`).
use vstd::prelude::*;
use crate::process::{cowsay_command, CommandLine};
use crate::text::{
    chars_of, count_spec, join_spec, lemma_split_join, split, split_spec, string_from_chars, trim,
    trim_spec, views,
};

verus! {

/// The cow names in the output of the listing command: the output trimmed,
/// then split at each newline.
pub open spec fn cow_names_spec(listing: Seq<char>) -> Seq<Seq<char>> {
    split_spec(trim_spec(listing), '\n')
}

/// The cow names are every line of the trimmed listing, however many: no
/// name holds a newline, there is one name more than the trimmed listing has
/// newlines, and the names joined by newlines give the trimmed listing back.
pub proof fn lemma_cow_names_are_all_lines(listing: Seq<char>)
    ensures
        join_spec(cow_names_spec(listing), '\n') == trim_spec(listing),
        cow_names_spec(listing).len() == count_spec(trim_spec(listing), '\n') + 1,
        forall|i: int, j: int|
            0 <= i < cow_names_spec(listing).len() && 0 <= j < cow_names_spec(listing)[i].len()
                ==> #[trigger] cow_names_spec(listing)[i][j] != '\n',
{
    lemma_split_join(trim_spec(listing), '\n');
}

/// The cow used when no choice is made.
pub open spec fn default_cow_spec() -> Seq<char> {
    "default"@
}

/// A cow that can be chosen: its choice name and its file name.
pub struct CowChoice {
    pub variant: String,
    pub name: String,
}

/// The index of the first choice whose choice name is `variant`, if any.
pub open spec fn first_choice(choices: Seq<CowChoice>, variant: Seq<char>) -> Option<int>
    decreases choices.len(),
{
    if choices.len() == 0 {
        None
    } else {
        match first_choice(choices.drop_last(), variant) {
            Some(i) => Some(i),
            None => if choices.last().variant@ == variant {
                Some(choices.len() - 1)
            } else {
                None
            },
        }
    }
}

/// The file name of the cow chosen as `choice`: the default cow when there is
/// no choice, the first cow of that choice name otherwise, none when no cow
/// has it.
pub open spec fn resolve_cow_spec(choices: Seq<CowChoice>, choice: Option<Seq<char>>) -> Option<Seq<char>> {
    match choice {
        None => Some(default_cow_spec()),
        Some(v) => match first_choice(choices, v) {
            Some(i) => Some(choices[i].name@),
            None => None,
        },
    }
}

/// The shell command whose output lists the cows offered: the first 25 names
/// that `cowsay -l` prints after its heading, one per line.
pub fn cow_listing_command() -> (res: CommandLine)
    ensures
        res.spec_program() == "sh"@,
        res.spec_args() == seq![
            "-c"@,
            "cowsay -l | tail -n +2 | sed 's/ /\\n/g' | head -25"@,
        ],
{
    let mut args: Vec<String> = Vec::new();
    args.push("-c".to_owned());
    args.push("cowsay -l | tail -n +2 | sed 's/ /\\n/g' | head -25".to_owned());
    let res = CommandLine { program: "sh".to_owned(), args };
    assert(res.spec_args() =~= seq![
        "-c"@,
        "cowsay -l | tail -n +2 | sed 's/ /\\n/g' | head -25"@,
    ]);
    res
}

/// The naming script that turns a cow's file name into its choice name:
/// the name's `-` become blanks, each word gets an upper-case first letter,
/// and the blanks go. `$1` stands for the cow's file name.
pub open spec fn naming_script_before() -> Seq<char> {
    "echo \""@
}

pub open spec fn naming_script_after() -> Seq<char> {
    "\" | sed 's/-/ /g' | awk '{for(i=1;i<=NF;i++){ $i=toupper(substr($i,1,1)) substr($i,2) }}1' | sed 's/ //g'"@
}

/// The shell command that prints the choice name of the cow whose file name
/// is `cow`: the naming script with `$1` replaced by the name.
pub fn naming_command(cow: &str) -> (res: CommandLine)
    ensures
        res.spec_program() == "sh"@,
        res.spec_args() == seq!["-c"@, naming_script_before() + cow@ + naming_script_after()],
{
    let mut script = "echo \"".to_owned();
    script.append(cow);
    script.append(
        "\" | sed 's/-/ /g' | awk '{for(i=1;i<=NF;i++){ $i=toupper(substr($i,1,1)) substr($i,2) }}1' | sed 's/ //g'",
    );
    let mut args: Vec<String> = Vec::new();
    args.push("-c".to_owned());
    args.push(script);
    let res = CommandLine { program: "sh".to_owned(), args };
    assert(res.spec_args() =~= seq!["-c"@, naming_script_before() + cow@ + naming_script_after()]);
    res
}

/// The cow names in the output of the listing command.
pub fn cow_names(listing: &str) -> (res: Vec<String>)
    ensures
        views(res@) == cow_names_spec(listing@),
        join_spec(views(res@), '\n') == trim_spec(listing@),
        res@.len() == count_spec(trim_spec(listing@), '\n') + 1,
        forall|i: int, j: int|
            0 <= i < res@.len() && 0 <= j < res@[i]@.len() ==> #[trigger] res@[i]@[j] != '\n',
{
    let cs = chars_of(listing);
    let pieces = split(&trim(&cs), '\n');
    let mut res: Vec<String> = Vec::new();
    let mut i: usize = 0;
    while i < pieces.len()
        invariant
            i <= pieces@.len(),
            pieces@.map_values(|p: Vec<char>| p@) == cow_names_spec(listing@),
            views(res@) == pieces@.map_values(|p: Vec<char>| p@).subrange(0, i as int),
        decreases pieces@.len() - i,
    {
        let piece = pieces[i].clone();
        assert(piece@ == pieces@[i as int]@);
        let ghost before = res@;
        assert(views(before).len() == i);
        assert(before.len() == i);
        res.push(string_from_chars(piece));
        assert(res@ == before.push(res@.last()));
        assert(res@.last()@ == pieces@[i as int]@);
        let ghost whole = pieces@.map_values(|p: Vec<char>| p@);
        assert forall|j: int| 0 <= j < i + 1 implies #[trigger] views(res@)[j] == whole.subrange(
            0,
            i + 1,
        )[j] by {
            if j < i {
                assert(views(before)[j] == whole.subrange(0, i as int)[j]);
                assert(res@[j] == before[j]);
            }
        }
        i = i + 1;
        assert(views(res@) =~= pieces@.map_values(|p: Vec<char>| p@).subrange(0, i as int));
    }
    assert(pieces@.map_values(|p: Vec<char>| p@).subrange(0, i as int) =~= pieces@.map_values(
        |p: Vec<char>| p@,
    ));
    proof {
        lemma_cow_names_are_all_lines(listing@);
        assert forall|i: int, j: int|
            0 <= i < res@.len() && 0 <= j < res@[i]@.len() implies #[trigger] res@[i]@[j]
            != '\n' by {
            assert(views(res@)[i] == res@[i]@);
        }
    }
    res
}

/// Whether syn reads `s` as one identifier that is not a keyword.
pub uninterp spec fn syn_accepts_ident(s: Seq<char>) -> bool;

/// Whether `s` parses as an identifier (`syn::parse_str::<syn::Ident>`):
/// the whole text one identifier, keywords refused. The answer is named, not
/// stated: it follows syn's tokenizer and Unicode's identifier tables.
#[verifier::external_body]
fn parses_as_ident(s: &str) -> (res: bool)
    ensures
        res == syn_accepts_ident(s@),
{
    match syn::parse_str::<syn::Ident>(s) {
        Ok(_) => true,
        Err(_) => false,
    }
}

/// Whether the trimmed output of every run of the naming script is an
/// identifier, as the choices need.
pub open spec fn outputs_are_idents(outputs: Seq<String>) -> bool {
    forall|i: int| 0 <= i < outputs.len() ==> syn_accepts_ident(trim_spec(#[trigger] outputs[i]@))
}

/// The choices offered: one per cow, in order, each with the trimmed output
/// of the naming script for that cow as its choice name and the cow's file
/// name; none when some choice name is not an identifier.
pub fn checked_cow_choices(names: &Vec<String>, outputs: &Vec<String>) -> (res: Option<Vec<CowChoice>>)
    requires
        names@.len() == outputs@.len(),
    ensures
        res is Some <==> outputs_are_idents(outputs@),
        res matches Some(v) ==> {
            &&& v@.len() == names@.len()
            &&& forall|i: int|
                0 <= i < v@.len() ==> {
                    &&& #[trigger] v@[i].name@ == names@[i]@
                    &&& v@[i].variant@ == trim_spec(outputs@[i]@)
                }
        },
{
    let mut res: Vec<CowChoice> = Vec::new();
    let mut i: usize = 0;
    while i < names.len()
        invariant
            i <= names@.len(),
            names@.len() == outputs@.len(),
            res@.len() == i,
            forall|j: int| 0 <= j < i ==> syn_accepts_ident(trim_spec(#[trigger] outputs@[j]@)),
            forall|j: int|
                0 <= j < i ==> {
                    &&& #[trigger] res@[j].name@ == names@[j]@
                    &&& res@[j].variant@ == trim_spec(outputs@[j]@)
                },
        decreases names@.len() - i,
    {
        let variant = string_from_chars(trim(&chars_of(outputs[i].as_str())));
        if !parses_as_ident(variant.as_str()) {
            assert(!syn_accepts_ident(trim_spec(outputs@[i as int]@)));
            return None;
        }
        let name = names[i].clone();
        res.push(CowChoice { variant, name });
        i = i + 1;
    }
    Some(res)
}

/// The choices offered, as `checked_cow_choices` gives them, for naming
/// outputs whose trimmed texts are all identifiers.
pub fn cow_choices(names: &Vec<String>, outputs: &Vec<String>) -> (res: Vec<CowChoice>)
    requires
        names@.len() == outputs@.len(),
        outputs_are_idents(outputs@),
    ensures
        res@.len() == names@.len(),
        forall|i: int|
            0 <= i < res@.len() ==> {
                &&& #[trigger] res@[i].name@ == names@[i]@
                &&& res@[i].variant@ == trim_spec(outputs@[i]@)
            },
{
    checked_cow_choices(names, outputs).unwrap()
}

/// The file name of the cow chosen as `choice` among `choices`: the default
/// cow without a choice, else the first cow with that choice name, else none.
pub fn resolve_cow(choices: &Vec<CowChoice>, choice: Option<&str>) -> (res: Option<String>)
    ensures
        match res {
            Some(s) => resolve_cow_spec(choices@, match choice {
                Some(c) => Some(c@),
                None => None,
            }) == Some(s@),
            None => resolve_cow_spec(choices@, match choice {
                Some(c) => Some(c@),
                None => None,
            }) is None,
        },
{
    match choice {
        None => {
            let d = "default".to_owned();
            Some(d)
        },
        Some(v) => {
            let wanted = v.to_owned();
            let mut i: usize = 0;
            while i < choices.len()
                invariant
                    i <= choices@.len(),
                    wanted@ == v@,
                    choice == Some(v),
                    first_choice(choices@.subrange(0, i as int), v@) is None,
                decreases choices@.len() - i,
            {
                let ghost pre = choices@.subrange(0, i as int);
                let ghost next = choices@.subrange(0, i + 1);
                assert(next.drop_last() =~= pre);
                if choices[i].variant == wanted {
                    proof {
                        assert(next.last() == choices@[i as int]);
                        assert(first_choice(next, v@) == Some(i as int));
                        lemma_first_choice_extends(choices@, v@, i + 1);
                    }
                    let name = choices[i].name.clone();
                    assert(first_choice(choices@, v@) == Some(i as int));
                    assert(name@ == choices@[i as int].name@);
                    return Some(name);
                }
                i = i + 1;
            }
            assert(choices@.subrange(0, i as int) =~= choices@);
            None
        },
    }
}

/// Once a prefix of the choices holds a match, the whole list has the same
/// first match.
proof fn lemma_first_choice_extends(choices: Seq<CowChoice>, variant: Seq<char>, k: int)
    requires
        0 <= k <= choices.len(),
        first_choice(choices.subrange(0, k), variant) is Some,
    ensures
        first_choice(choices, variant) == first_choice(choices.subrange(0, k), variant),
    decreases choices.len() - k,
{
    if k < choices.len() {
        assert(choices.subrange(0, k + 1).drop_last() =~= choices.subrange(0, k));
        lemma_first_choice_extends(choices, variant, k + 1);
    } else {
        assert(choices.subrange(0, k) =~= choices);
    }
}

/// The `cowsay` run of the slash command `cowsay`: the chosen cow (the default
/// one without a choice) saying `msg`; none when no cow has the choice name.
pub fn cowsay_slash_command(msg: &String, choices: &Vec<CowChoice>, choice: Option<&str>) -> (res:
    Option<CommandLine>)
    ensures
        res is Some <==> resolve_cow_spec(choices@, match choice {
            Some(c) => Some(c@),
            None => None,
        }) is Some,
        res matches Some(cl) ==> {
            &&& cl.spec_program() == "cowsay"@
            &&& cl.spec_args() == seq![
                "-f"@,
                resolve_cow_spec(choices@, match choice {
                    Some(c) => Some(c@),
                    None => None,
                })->0,
                "--"@,
                msg@,
            ]
        },
{
    match resolve_cow(choices, choice) {
        Some(cow) => Some(cowsay_command(msg, Some(&cow))),
        None => None,
    }
}

/// A choice picks its own cow: the choice name of a listed cow resolves to
/// that cow's file name, unless an earlier listed cow has the same choice name.
pub proof fn lemma_choice_picks_its_cow(choices: Seq<CowChoice>, i: int)
    requires
        0 <= i < choices.len(),
        forall|j: int| 0 <= j < i ==> choices[j].variant@ != choices[i].variant@,
    ensures
        resolve_cow_spec(choices, Some(choices[i].variant@)) == Some(choices[i].name@),
    decreases choices.len(),
{
    lemma_first_choice_is(choices, choices[i].variant@, i);
}

/// The first match is the first choice that has the choice name.
proof fn lemma_first_choice_is(choices: Seq<CowChoice>, variant: Seq<char>, i: int)
    requires
        0 <= i < choices.len(),
        choices[i].variant@ == variant,
        forall|j: int| 0 <= j < i ==> choices[j].variant@ != variant,
    ensures
        first_choice(choices, variant) == Some(i),
    decreases choices.len(),
{
    if i < choices.len() - 1 {
        lemma_first_choice_is(choices.drop_last(), variant, i);
    } else {
        lemma_first_choice_none_before(choices.drop_last(), variant);
    }
}

/// When no choice of a list has the choice name, there is no first match.
proof fn lemma_first_choice_none_before(choices: Seq<CowChoice>, variant: Seq<char>)
    requires
        forall|j: int| 0 <= j < choices.len() ==> choices[j].variant@ != variant,
    ensures
        first_choice(choices, variant) is None,
    decreases choices.len(),
{
    if choices.len() > 0 {
        lemma_first_choice_none_before(choices.drop_last(), variant);
    }
}

} // verus!
