use app_installer::admin::{admin_commands, admin_reply};
use app_installer::app_info::AppInfo;
use app_installer::command::ShellCommand;
use app_installer::connection_error::ConnectionError;
use app_installer::shared_folder_connection::{EntryStep, SHFConnection};

fn args(v: &[&str]) -> Vec<String> {
    v.iter().map(|s| s.to_string()).collect()
}

#[test]
fn connect_command_maps_drive_x() {
    let c = SHFConnection::connect_command("\\\\192.168.1.69\\Software\\Instaladores");
    assert_eq!(c.program, "cmd");
    assert_eq!(
        c.args,
        args(&["/C", "net use X: \\\\192.168.1.69\\Software\\Instaladores /user:Unattended User1"])
    );
}

#[test]
fn entry_step_takes_installers() {
    let step = SHFConnection::entry_step("a.msi", "/s/a.msi", true, false, Some("msi"));
    assert_eq!(
        step,
        EntryStep::Take(AppInfo {
            name: "a.msi".to_string(),
            install: false,
            path: "/s/a.msi".to_string(),
            ins_type: "msi".to_string(),
        })
    );
    let step = SHFConnection::entry_step("b.exe", "/s/b.exe", true, false, Some("exe"));
    assert!(matches!(step, EntryStep::Take(ref a) if a.ins_type == "exe"));
}

#[test]
fn entry_step_skips_other_files() {
    assert_eq!(SHFConnection::entry_step("r.txt", "/s/r.txt", true, false, Some("txt")), EntryStep::Skip);
    assert_eq!(SHFConnection::entry_step("a.MSI", "/s/a.MSI", true, false, Some("MSI")), EntryStep::Skip);
    assert_eq!(SHFConnection::entry_step("README", "/s/README", true, false, None), EntryStep::Skip);
    assert_eq!(SHFConnection::entry_step("link", "/s/link", false, false, None), EntryStep::Skip);
}

#[test]
fn entry_step_descends_into_folders() {
    assert_eq!(SHFConnection::entry_step("sub", "/s/sub", false, true, None), EntryStep::Descend);
    assert_eq!(SHFConnection::entry_step("sub.msi", "/s/sub.msi", false, true, Some("msi")), EntryStep::Descend);
}

#[test]
fn read_dir_error_message() {
    let e = ConnectionError::read_dir_failed("X:/share", "access denied");
    assert_eq!(e.message(), "Error: On read dir X:/share: access denied");
    assert_eq!(e.describe(), "¡Error personalizado: Error: On read dir X:/share: access denied");
}

#[test]
fn connection_error_keeps_its_message() {
    let e = ConnectionError::new("down".to_string());
    assert_eq!(e.clone().message(), "down");
    assert_eq!(e.describe(), "¡Error personalizado: down");
}

#[test]
fn admin_commands_for_a_filled_request() {
    let cmds = admin_commands("ana", "s3cret").unwrap();
    assert_eq!(
        cmds,
        vec![
            ShellCommand { program: "net".to_string(), args: args(&["user", "/add", "ana", "s3cret"]) },
            ShellCommand {
                program: "net".to_string(),
                args: args(&["localgroup", "Administradores", "ana", "/add"]),
            },
        ]
    );
}

#[test]
fn admin_commands_refuse_empty_fields() {
    assert_eq!(admin_commands("", "x"), Err("Campos vacíos".to_string()));
    assert_eq!(admin_commands("ana", ""), Err("Campos vacíos".to_string()));
    assert_eq!(admin_commands("", ""), Err("Campos vacíos".to_string()));
}

#[test]
fn admin_reply_needs_both_commands() {
    assert_eq!(admin_reply(true, true), "Creado");
    assert_eq!(admin_reply(true, false), "Fallo");
    assert_eq!(admin_reply(false, true), "Fallo");
    assert_eq!(admin_reply(false, false), "Fallo");
}
