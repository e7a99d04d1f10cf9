use vstd::prelude::*;

use crate::text::texts_view;

verus! {

/// A program to start and the arguments to start it with.
#[derive(Debug, PartialEq, Eq)]
pub struct ShellCommand {
    pub program: String,
    pub args: Vec<String>,
}

/// The text of a command: the program, then each argument.
#[verifier::ext_equal]
pub ghost struct ShellCommandView {
    pub program: Seq<char>,
    pub args: Seq<Seq<char>>,
}

impl View for ShellCommand {
    type V = ShellCommandView;

    open spec fn view(&self) -> ShellCommandView {
        ShellCommandView { program: self.program@, args: texts_view(self.args@) }
    }
}

/// Appends `arg` (a copy of it) to `args`.
pub fn push_arg(args: &mut Vec<String>, arg: &str)
    ensures
        texts_view(final(args)@) == texts_view(old(args)@).push(arg@),
{
    args.push(String::from_str(arg));
    assert(texts_view(args@) =~= texts_view(old(args)@).push(arg@));
}

} // verus!
