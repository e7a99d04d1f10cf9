use vstd::prelude::*;

use crate::command::{push_arg, ShellCommand, ShellCommandView};
use crate::text::texts_view;

verus! {

/// The commands that create the local user `name` with password `pass` and
/// make it an administrator, or `None` where a field is empty.
pub open spec fn admin_commands_of(name: Seq<char>, pass: Seq<char>) -> Option<
    Seq<ShellCommandView>,
> {
    if name.len() == 0 || pass.len() == 0 {
        None
    } else {
        Some(
            seq![
                ShellCommandView { program: "net"@, args: seq!["user"@, "/add"@, name, pass] },
                ShellCommandView {
                    program: "net"@,
                    args: seq!["localgroup"@, "Administradores"@, name, "/add"@],
                },
            ],
        )
    }
}

/// The views of a sequence of commands.
pub open spec fn commands_view(v: Seq<ShellCommand>) -> Seq<ShellCommandView> {
    v.map_values(|c: ShellCommand| c@)
}

/// The answer shown for a request that names no user or no password.
pub open spec fn empty_fields_reply() -> Seq<char> {
    "Campos vacíos"@
}

/// The answer shown once both commands have run: whether each succeeded.
pub open spec fn admin_reply_of(user_added: bool, joined_group: bool) -> Seq<char> {
    if user_added && joined_group {
        "Creado"@
    } else {
        "Fallo"@
    }
}

/// The commands to run to create the local administrator `name` with password
/// `pass`, in order; the answer to show instead where a field is empty.
pub fn admin_commands(name: &str, pass: &str) -> (r: Result<Vec<ShellCommand>, String>)
    ensures
        match admin_commands_of(name@, pass@) {
            Some(cmds) => r matches Ok(v) && commands_view(v@) == cmds,
            None => r matches Err(reply) && reply@ == empty_fields_reply(),
        },
{
    if name.is_empty() || pass.is_empty() {
        return Err(String::from_str("Campos vacíos"));
    }
    let mut add: Vec<String> = Vec::new();
    push_arg(&mut add, "user");
    push_arg(&mut add, "/add");
    push_arg(&mut add, name);
    push_arg(&mut add, pass);
    let mut group: Vec<String> = Vec::new();
    push_arg(&mut group, "localgroup");
    push_arg(&mut group, "Administradores");
    push_arg(&mut group, name);
    push_arg(&mut group, "/add");
    let first = ShellCommand { program: String::from_str("net"), args: add };
    let second = ShellCommand { program: String::from_str("net"), args: group };
    assert(texts_view(first.args@) =~= seq!["user"@, "/add"@, name@, pass@]);
    assert(texts_view(second.args@) =~= seq!["localgroup"@, "Administradores"@, name@, "/add"@]);
    let mut cmds: Vec<ShellCommand> = Vec::new();
    cmds.push(first);
    cmds.push(second);
    assert(commands_view(cmds@) =~= admin_commands_of(name@, pass@).unwrap());
    Ok(cmds)
}

/// The answer to show once the commands ran: `Creado` where both succeeded,
/// `Fallo` otherwise.
pub fn admin_reply(user_added: bool, joined_group: bool) -> (reply: String)
    ensures
        reply@ == admin_reply_of(user_added, joined_group),
{
    if user_added && joined_group {
        String::from_str("Creado")
    } else {
        String::from_str("Fallo")
    }
}

} // verus!
