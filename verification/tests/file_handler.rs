use std::io::Write;

use app_installer::app_info::AppInfo;
use app_installer::connection_error::ConnectionError;
use app_installer::file_handler::{ArchiveError, FileHandler};
use app_installer::installer_types::InstallerType;

fn app(name: &str, install: bool) -> AppInfo {
    AppInfo {
        name: name.to_string(),
        install,
        path: format!("X:/{}", name),
        ins_type: "exe".to_string(),
    }
}

fn joined(base: &str, name: &str) -> String {
    std::path::Path::new(base).join(name).to_string_lossy().into_owned()
}

fn args(v: &[&str]) -> Vec<String> {
    v.iter().map(|s| s.to_string()).collect()
}

#[test]
fn collect_keeps_only_picked_programs_in_order() {
    let apps = vec![app("a.exe", true), app("b.exe", false), app("c.exe", true)];
    let picked = FileHandler::collect(&apps);
    assert_eq!(picked, vec![app("a.exe", true), app("c.exe", true)]);
}

#[test]
fn collect_of_nothing_picked_is_empty() {
    let apps = vec![app("a.exe", false), app("b.exe", false)];
    assert!(FileHandler::collect(&apps).is_empty());
    assert!(FileHandler::collect(&Vec::new()).is_empty());
}

#[test]
fn collect_twice_changes_nothing() {
    let apps = vec![app("a.exe", true), app("b.exe", false), app("c.exe", true)];
    let once = FileHandler::collect(&apps);
    assert_eq!(FileHandler::collect(&once), once);
}

#[test]
fn search_local_lists_the_shipped_programs() {
    let apps = FileHandler::search_local("/data", '/');
    let expected = [
        ("Chrome Setup.msi", "msi"),
        ("LibreOffice 7.4.1 x64.msi", "exe"),
        ("Adobe Reader x64.exe", "msi"),
        ("7z2404-x64.msi", "msi"),
    ];
    assert_eq!(apps.len(), 4);
    for (a, (name, kind)) in apps.iter().zip(expected.iter()) {
        assert_eq!(a.name, *name);
        assert_eq!(a.ins_type, *kind);
        assert!(!a.install);
        assert_eq!(a.path, joined("/data", name));
    }
    assert_eq!(apps[0].path, "/data/Chrome Setup.msi");
}

#[test]
fn search_local_with_trailing_separator_adds_none() {
    let apps = FileHandler::search_local("/data/", '/');
    assert_eq!(apps[3].path, "/data/7z2404-x64.msi");
}

#[test]
fn search_local_in_empty_folder_is_the_bare_name() {
    let apps = FileHandler::search_local("", '/');
    assert_eq!(apps[1].path, "LibreOffice 7.4.1 x64.msi");
}

#[test]
fn search_online_keeps_the_listing() {
    let files = vec![app("remote.exe", false)];
    assert_eq!(FileHandler::search_online(Ok(files.clone()), "/data", '/'), files);
}

#[test]
fn search_online_falls_back_to_shipped_programs() {
    let err = ConnectionError::new("down".to_string());
    let apps = FileHandler::search_online(Err(err), "/data", '/');
    assert_eq!(apps, FileHandler::search_local("/data", '/'));
}

#[test]
fn installer_type_is_msi_only_for_msi_extension() {
    assert_eq!(FileHandler::installer_type(Some("msi")), InstallerType::MSI);
    assert_eq!(FileHandler::installer_type(Some("exe")), InstallerType::EXE);
    assert_eq!(FileHandler::installer_type(Some("MSI")), InstallerType::EXE);
    assert_eq!(FileHandler::installer_type(Some("msix")), InstallerType::EXE);
    assert_eq!(FileHandler::installer_type(None), InstallerType::EXE);
}

#[test]
fn msi_command_starts_a_quiet_installation() {
    let c = FileHandler::installer_command(InstallerType::MSI, "C:\\apps\\Chrome Setup.msi");
    assert_eq!(c.program, "powershell");
    assert_eq!(
        c.args,
        args(&[
            "-Command",
            "Start-Process 'C:\\apps\\Chrome Setup.msi' -ArgumentList '/quiet', '/passive'"
        ])
    );
}

#[test]
fn exe_command_for_libreoffice() {
    let c = FileHandler::installer_command(InstallerType::EXE, "C:\\apps\\libreoffice.exe");
    assert_eq!(c.program, "cmd");
    assert_eq!(c.args, args(&["/C", "C:\\apps\\libreoffice.exe", "/passive"]));
}

#[test]
fn exe_command_for_chrome() {
    let c = FileHandler::installer_command(InstallerType::EXE, "C:\\apps\\chrome_installer.exe");
    assert_eq!(c.args, args(&["/C", "C:\\apps\\chrome_installer.exe", "/install"]));
}

#[test]
fn exe_command_for_adobe_reader() {
    let c = FileHandler::installer_command(InstallerType::EXE, "C:\\apps\\Adobe Reader x64.exe");
    assert_eq!(
        c.args,
        args(&["/C", "C:\\apps\\Adobe Reader x64.exe", "/sAll", "/rs", "/msi", "EULA_ACCEPT=YES"])
    );
}

#[test]
fn exe_command_for_7zip() {
    let c = FileHandler::installer_command(InstallerType::EXE, "C:\\apps\\7z2404-x64.exe");
    assert_eq!(c.args, args(&["/C", "C:\\apps\\7z2404-x64.exe", "/S"]));
}

#[test]
fn exe_command_for_unknown_program_has_no_arguments() {
    let c = FileHandler::installer_command(InstallerType::EXE, "C:\\apps\\other.exe");
    assert_eq!(c.program, "cmd");
    assert!(c.args.is_empty());
}

#[test]
fn libreoffice_rule_comes_before_chrome_rule() {
    let c = FileHandler::installer_command(InstallerType::EXE, "Libreoffice for Chrome.exe");
    assert_eq!(c.args, args(&["/C", "Libreoffice for Chrome.exe", "/passive"]));
}

#[test]
fn bundle_path_is_in_appdata() {
    assert_eq!(FileHandler::bundle_path("/data", '/'), "/data/programs.tar");
}

fn gzip(bytes: &[u8]) -> Vec<u8> {
    let mut enc = flate2::write::GzEncoder::new(Vec::new(), flate2::Compression::default());
    enc.write_all(bytes).unwrap();
    enc.finish().unwrap()
}

fn tar_image(entries: &[(&str, &[u8])]) -> Vec<u8> {
    let mut builder = tar::Builder::new(Vec::new());
    for (path, data) in entries {
        let mut header = tar::Header::new_gnu();
        header.set_size(data.len() as u64);
        header.set_mode(0o644);
        header.set_cksum();
        builder.append_data(&mut header, path, *data).unwrap();
    }
    builder.into_inner().unwrap()
}

#[test]
fn decompress_locals_gives_back_the_packed_bytes() {
    let payload = b"tar image bytes".to_vec();
    let packed = gzip(&payload);
    assert_eq!(FileHandler::decompress_locals(&packed).unwrap(), payload);
}

#[test]
fn decompress_locals_refuses_non_gzip_bytes() {
    assert!(matches!(FileHandler::decompress_locals(b"not gzip at all"), Err(ArchiveError::Gzip(_))));
}

#[test]
fn settle_decoded_maps_each_outcome() {
    assert_eq!(FileHandler::settle_decoded(Ok(vec![1, 2])).unwrap(), vec![1, 2]);
    let err = std::io::Error::new(std::io::ErrorKind::InvalidData, "bad");
    assert!(matches!(FileHandler::settle_decoded(Err(err)), Err(ArchiveError::Gzip(_))));
}

#[test]
fn unpack_plan_flattens_entries_into_appdata_in_order() {
    let image = tar_image(&[
        ("Setups/Chrome Setup.msi", b"chrome"),
        ("7z2404-x64.msi", b"7zip"),
        ("Setups/more/Chrome Setup.msi", b"newer"),
    ]);
    let (plan, err) = FileHandler::unpack_plan(&gzip(&image), "/data", '/');
    assert!(err.is_none());
    assert_eq!(
        plan,
        vec![
            ("/data/Chrome Setup.msi".to_string(), b"chrome".to_vec()),
            ("/data/7z2404-x64.msi".to_string(), b"7zip".to_vec()),
            ("/data/Chrome Setup.msi".to_string(), b"newer".to_vec()),
        ]
    );
}

#[test]
fn unpack_plan_places_directory_entries_as_files() {
    let mut builder = tar::Builder::new(Vec::new());
    let mut header = tar::Header::new_gnu();
    header.set_entry_type(tar::EntryType::Directory);
    header.set_size(0);
    header.set_mode(0o755);
    header.set_cksum();
    builder.append_data(&mut header, "Setups/", &[][..]).unwrap();
    let image = builder.into_inner().unwrap();
    let (plan, err) = FileHandler::plan_image(&image, "/data", '/');
    assert!(err.is_none());
    assert_eq!(plan, vec![("/data/Setups".to_string(), Vec::new())]);
}

#[test]
fn unpack_plan_of_an_empty_archive_is_empty() {
    let image = tar_image(&[]);
    let (plan, err) = FileHandler::unpack_plan(&gzip(&image), "/data", '/');
    assert!(plan.is_empty());
    assert!(err.is_none());
}

#[test]
fn unpack_plan_reports_bad_gzip() {
    let (plan, err) = FileHandler::unpack_plan(b"plain bytes", "/data", '/');
    assert!(plan.is_empty());
    assert!(matches!(err, Some(ArchiveError::Gzip(_))));
}

#[test]
fn unpack_plan_reports_bad_tar() {
    let not_tar = vec![7u8; 700];
    let (plan, err) = FileHandler::unpack_plan(&gzip(&not_tar), "/data", '/');
    assert!(plan.is_empty());
    assert!(matches!(err, Some(ArchiveError::Tar(_))));
}

#[test]
fn plan_image_keeps_entries_read_before_a_corrupt_header() {
    let mut image = tar_image(&[("a.msi", b"first"), ("b.msi", b"second")]);
    // Corrupt the checksum of the second header, which starts after the
    // first header block and the first entry's padded data block.
    image[512 + 512 + 148] ^= 0x55;
    let (plan, err) = FileHandler::plan_image(&image, "/data", '/');
    assert_eq!(plan, vec![("/data/a.msi".to_string(), b"first".to_vec())]);
    assert!(matches!(err, Some(ArchiveError::Tar(_))));
}

#[test]
fn place_entry_needs_a_file_name() {
    let placed = FileHandler::place_entry("/data", Some("a.msi".to_string()), vec![1], '/').unwrap();
    assert_eq!(placed, ("/data/a.msi".to_string(), vec![1]));
    assert!(matches!(FileHandler::place_entry("/data", None, vec![1], '/'), Err(ArchiveError::NoFileName)));
}

#[test]
fn install_step_joins_and_classifies() {
    let (path, kind, command) = FileHandler::install_step("/data", "Chrome Setup.msi", '/');
    assert_eq!(path, "/data/Chrome Setup.msi");
    assert_eq!(kind, InstallerType::MSI);
    assert_eq!(command, FileHandler::installer_command(InstallerType::MSI, "/data/Chrome Setup.msi"));
    let (path, kind, command) = FileHandler::install_step("/data", "7z2404-x64.exe", '/');
    assert_eq!(path, "/data/7z2404-x64.exe");
    assert_eq!(kind, InstallerType::EXE);
    assert_eq!(command.args, args(&["/C", "/data/7z2404-x64.exe", "/S"]));
    let (_, kind, _) = FileHandler::install_step("/data", ".msi", '/');
    assert_eq!(kind, InstallerType::EXE);
}

#[test]
fn install_plan_fetches_picked_programs_only_when_online() {
    let apps = vec![app("a.msi", true), app("b.exe", false)];
    let (fetch, steps) = FileHandler::install_plan(&apps, "/data", '/', true);
    assert_eq!(fetch, vec![app("a.msi", true)]);
    assert_eq!(steps.len(), 2);
    assert_eq!(steps[0].0, "/data/a.msi");
    assert_eq!(steps[0].1, InstallerType::MSI);
    assert_eq!(steps[1].0, "/data/b.exe");
    assert_eq!(steps[1].1, InstallerType::EXE);
    let (fetch, steps) = FileHandler::install_plan(&apps, "/data", '/', false);
    assert!(fetch.is_empty());
    assert_eq!(steps.len(), 2);
}

#[test]
fn copy_plan_targets_the_file_name_in_appdata() {
    let mut a = app("a.msi", true);
    a.path = "/share/sub/a.msi".to_string();
    let mut b = app("b", true);
    b.path = "/share/..".to_string();
    let plan = FileHandler::copy_plan(&vec![a, b], "/data", '/');
    assert_eq!(
        plan,
        vec![Some(("/share/sub/a.msi".to_string(), "/data/a.msi".to_string())), None]
    );
}
