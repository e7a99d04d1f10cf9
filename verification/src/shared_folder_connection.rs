use vstd::prelude::*;

use crate::app_info::{AppInfo, AppInfoView};
use crate::command::{push_arg, ShellCommand, ShellCommandView};
use crate::text::{join3, text_equals};

verus! {

/// What to do with one entry met while listing a folder of installers.
#[derive(Debug, PartialEq, Eq)]
pub enum EntryStep {
    /// The entry is an installer: offer it.
    Take(AppInfo),
    /// The entry is a folder: list it too.
    Descend,
    /// Anything else: leave it.
    Skip,
}

/// The text of an `EntryStep`.
pub ghost enum EntryStepView {
    Take(AppInfoView),
    Descend,
    Skip,
}

impl View for EntryStep {
    type V = EntryStepView;

    open spec fn view(&self) -> EntryStepView {
        match self {
            EntryStep::Take(app) => EntryStepView::Take(app@),
            EntryStep::Descend => EntryStepView::Descend,
            EntryStep::Skip => EntryStepView::Skip,
        }
    }
}

/// The step for an entry named `name` at `path`: a file whose extension is
/// `exe` or `msi` is offered, not yet picked, with its extension as its kind;
/// a folder is listed in turn; anything else is left.
pub open spec fn entry_step_of(
    name: Seq<char>,
    path: Seq<char>,
    is_file: bool,
    is_dir: bool,
    extension: Option<Seq<char>>,
) -> EntryStepView {
    if is_file {
        match extension {
            Some(ext) => if ext == "exe"@ || ext == "msi"@ {
                EntryStepView::Take(AppInfoView { name, install: false, path, ins_type: ext })
            } else {
                EntryStepView::Skip
            },
            None => EntryStepView::Skip,
        }
    } else if is_dir {
        EntryStepView::Descend
    } else {
        EntryStepView::Skip
    }
}

/// The command that maps the shared folder `path` to the drive `X:`.
pub open spec fn connect_command_of(path: Seq<char>) -> ShellCommandView {
    ShellCommandView {
        program: "cmd"@,
        args: seq!["/C"@, "net use X: "@ + path + " /user:Unattended User1"@],
    }
}

/// The shared network folder that holds the installers.
pub struct SHFConnection {}

impl SHFConnection {
    /// The command that connects the shared folder `path` as drive `X:`.
    pub fn connect_command(path: &str) -> (c: ShellCommand)
        ensures
            c@ == connect_command_of(path@),
    {
        let mut args: Vec<String> = Vec::new();
        push_arg(&mut args, "/C");
        let line = join3("net use X: ", path, " /user:Unattended User1");
        push_arg(&mut args, line.as_str());
        assert(crate::text::texts_view(args@) =~= connect_command_of(path@).args);
        ShellCommand { program: String::from_str("cmd"), args }
    }

    /// What to do with a folder entry named `name` at `path`, of which
    /// `is_file` and `is_dir` tell the kind and `extension` the extension of
    /// its name.
    pub fn entry_step(
        name: &str,
        path: &str,
        is_file: bool,
        is_dir: bool,
        extension: Option<&str>,
    ) -> (step: EntryStep)
        ensures
            step@ == entry_step_of(
                name@,
                path@,
                is_file,
                is_dir,
                match extension {
                    Some(e) => Some(e@),
                    None => None,
                },
            ),
    {
        if is_file {
            match extension {
                Some(ext) => {
                    if text_equals(ext, "exe") || text_equals(ext, "msi") {
                        EntryStep::Take(
                            AppInfo {
                                name: String::from_str(name),
                                install: false,
                                path: String::from_str(path),
                                ins_type: String::from_str(ext),
                            },
                        )
                    } else {
                        EntryStep::Skip
                    }
                },
                None => EntryStep::Skip,
            }
        } else if is_dir {
            EntryStep::Descend
        } else {
            EntryStep::Skip
        }
    }
}

} // verus!
