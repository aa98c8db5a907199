//! What the tool says to its user and the commands it hands to the system, as
//! values: the caller prints, prompts and spawns.

use crate::error::{Error, UnhandledError};
use crate::text::{contains, joined};
use colored::Colorize;
use std::io::Error as IoError;
use vstd::prelude::*;

verus! {

/// A program to run with its arguments, in order.
#[derive(Debug)]
pub struct Invocation {
    pub program: String,
    pub args: Vec<String>,
}

/// The mathematical content of an [`Invocation`].
pub struct InvocationView {
    pub program: Seq<char>,
    pub args: Seq<Seq<char>>,
}

/// The texts that a sequence of strings holds.
pub open spec fn texts(strings: Seq<String>) -> Seq<Seq<char>> {
    Seq::new(strings.len(), |i: int| strings[i]@)
}

impl View for Invocation {
    type V = InvocationView;

    open spec fn view(&self) -> InvocationView {
        InvocationView { program: self.program@, args: texts(self.args@) }
    }
}

impl Invocation {
    /// The invocation of `program` without arguments.
    pub fn new(program: String) -> (r: Invocation)
        ensures
            r@ == (InvocationView { program: program@, args: Seq::<Seq<char>>::empty() }),
    {
        let r = Invocation { program, args: Vec::new() };
        assert(texts(r.args@) =~= Seq::<Seq<char>>::empty());
        r
    }

    /// The same invocation with one more argument at the end.
    pub fn arg(self, value: &str) -> (r: Invocation)
        ensures
            r@ == (InvocationView { program: self@.program, args: self@.args.push(value@) }),
    {
        let Invocation { program, args } = self;
        let mut args = args;
        let ghost before = args@;
        args.push(value.to_owned());
        assert(texts(args@) =~= texts(before).push(value@));
        Invocation { program, args }
    }
}

impl Clone for Invocation {
    fn clone(&self) -> (r: Invocation)
        ensures
            r@ == self@,
    {
        let mut args: Vec<String> = Vec::new();
        let mut i: usize = 0;
        while i < self.args.len()
            invariant
                i <= self.args.len(),
                args@.len() == i,
                forall|j: int| 0 <= j < i ==> args@[j]@ == self.args@[j]@,
            decreases self.args.len() - i,
        {
            args.push(self.args[i].clone());
            i += 1;
        }
        assert(texts(args@) =~= texts(self.args@));
        Invocation { program: self.program.clone(), args }
    }
}

/// The label that marks a failure.
pub open spec fn error_label() -> Seq<char> {
    " ERR "@
}

/// The label that marks a success.
pub open spec fn success_label() -> Seq<char> {
    " SUCCESS "@
}

/// `line` is `text` behind a badge that shows `label`: the badge, one space,
/// then the text. The badge is the label alone or the label between the escape
/// sequences that colour it, as the terminal allows.
pub open spec fn is_labelled(line: Seq<char>, label: Seq<char>, text: Seq<char>) -> bool {
    exists|badge: Seq<char>| #[trigger] contains(badge, label) && line == badge + seq![' '] + text
}

/// Renders the failure label with `colored`: white on red, bold. Whether the
/// escape sequences are written depends on the environment and the terminal,
/// so the contract says only what `ColoredString`'s `Display` does either way:
/// the label itself is written, with or without a style around it.
#[verifier::external_body]
fn error_badge() -> (r: String)
    ensures
        contains(r@, error_label()),
{
    " ERR ".white().on_red().bold().to_string()
}

/// Renders the success label with `colored`: white on green, bold. As for the
/// failure label, the contract says only that the label itself is written.
#[verifier::external_body]
fn success_badge() -> (r: String)
    ensures
        contains(r@, success_label()),
{
    " SUCCESS ".white().on_green().bold().to_string()
}

/// A badge, one space and a text.
pub fn labelled(badge: &str, text: &str) -> (r: String)
    ensures
        r@ == badge@ + seq![' '] + text@,
{
    proof {
        reveal_strlit(" ");
    }
    let mut r = joined(badge, " ");
    assert(" "@ =~= seq![' ']);
    r.append(text);
    r
}

/// The line that reports a failure.
pub fn error(err: &str) -> (r: String)
    ensures
        is_labelled(r@, error_label(), err@),
{
    let badge = error_badge();
    labelled(badge.as_str(), err)
}

/// The line that reports a success.
pub fn success(msg: &str) -> (r: String)
    ensures
        is_labelled(r@, success_label(), msg@),
{
    let badge = success_badge();
    labelled(badge.as_str(), msg)
}

/// The choice put before the user when a step has failed in a way that can be
/// mended: skip what the step was for, or take the action that mends it.
#[derive(Debug)]
pub struct SkipDialog {
    /// What is asked.
    pub prompt: String,
    /// The entries to pick from: first the skip, then the action.
    pub items: Vec<String>,
    /// The entry that is marked when the dialog opens.
    pub default: usize,
}

/// The index of the entry that stands for the action.
pub const ACTION_ENTRY: usize = 1;

/// What is asked in a skip dialog about a failure described by `prompt`.
pub open spec fn skip_question(prompt: Seq<char>) -> Seq<char> {
    prompt + "\nWhat would you like to do"@
}

/// The dialog for a failure: the description as a failure line with the
/// question, and the two entries `Skip <item>` and `<action>`, the skip marked.
pub fn skip_dialog(prompt: &str, item: &str, action: &str) -> (r: SkipDialog)
    ensures
        is_labelled(r.prompt@, error_label(), skip_question(prompt@)),
        texts(r.items@) == seq!["Skip "@ + item@, action@],
        r.default == 0,
{
    let question = joined(prompt, "\nWhat would you like to do");
    let mut items: Vec<String> = Vec::new();
    items.push(joined("Skip ", item));
    items.push(action.to_owned());
    assert(texts(items@) =~= seq!["Skip "@ + item@, action@]);
    SkipDialog { prompt: error(question.as_str()), items, default: 0 }
}

/// Whether the user chose the action: the pick is the action's entry. Any other
/// pick, and a dialog left without one, is a skip.
pub open spec fn picks_action(picked: Option<usize>) -> bool {
    picked == Some(ACTION_ENTRY)
}

/// Whether the user chose the action.
pub fn action_picked(picked: Option<usize>) -> (r: bool)
    ensures
        r == picks_action(picked),
{
    match picked {
        Some(index) => index == ACTION_ENTRY,
        None => false,
    }
}

/// The command that has the system's shell open `command`: a URL or a file.
pub fn start_cmd(command: &str) -> (r: Invocation)
    ensures
        r@ == (InvocationView { program: "cmd"@, args: seq!["/C"@, "start"@, command@] }),
{
    let r = Invocation::new("cmd".to_owned()).arg("/C").arg("start").arg(command);
    assert(r@.args =~= seq!["/C"@, "start"@, command@]);
    r
}

/// The command that follows command `index` among `count` commands that are
/// run in turn: the next one, and none after the last.
pub open spec fn following(count: usize, index: usize) -> Option<usize> {
    if index + 1 < count {
        Some((index + 1) as usize)
    } else {
        None
    }
}

/// The command to run first among `count` commands: the first, where there
/// is one.
pub fn first_command(count: usize) -> (r: Option<usize>)
    ensures
        r == if count > 0 {
            Some(0usize)
        } else {
            None
        },
{
    if count > 0 {
        Some(0)
    } else {
        None
    }
}

/// What follows once command `index` among `count` commands has been run
/// with `outcome`. A command that the system refused ends the run with that
/// failure, and no later command is run; else the next command follows, and
/// none after the last.
pub fn after_command(count: usize, index: usize, outcome: Result<(), IoError>) -> (r: Result<
    Option<usize>,
    Error,
>)
    ensures
        r == match outcome {
            Ok(_) => Ok::<Option<usize>, Error>(following(count, index)),
            Err(refusal) => Err(Error::UnhandledError(UnhandledError::IOError(refusal))),
        },
{
    match outcome {
        Ok(_) => if index < count && count - index > 1 {
            Ok(Some(index + 1))
        } else {
            Ok(None)
        },
        Err(refusal) => Err(Error::UnhandledError(UnhandledError::IOError(refusal))),
    }
}

/// The prompt shown while the user carries out `action` by hand.
pub fn wait_for_user(action: &str) -> (r: String)
    ensures
        r@ == "Waiting for "@ + action@ + " press enter when done"@,
{
    let mut r = joined("Waiting for ", action);
    r.append(" press enter when done");
    r
}

} // verus!
