use vstd::prelude::*;

use crate::app_info::{infos_view, AppInfo, AppInfoView};
use crate::connection_error::ConnectionError;
use crate::command::{push_arg, ShellCommand, ShellCommandView};
use crate::installer_types::InstallerType;
use crate::paths::{
    known_file_name, path_join, place_in, plain_file_name, platform_separator,
    verbatim_base, file_name_of, double_lead, plain_after_slash, trim_tail, name_extension,
    is_verbatim_base, is_plain_file_name, extension_of_name, std_extension, named_everywhere,
    named_everywhere_check, has_slash, has_slash_check, last_segment, lemma_named_segment_plain,
    is_any_separator,
};
use crate::text::{contains_text, has_infix, join3, text_equals};

verus! {

/// The programs of `s` that were picked for installation, in their order in `s`.
pub open spec fn selected(s: Seq<AppInfoView>) -> Seq<AppInfoView>
    decreases s.len(),
{
    if s.len() == 0 {
        Seq::empty()
    } else {
        let rest = selected(s.drop_last());
        if s.last().install {
            rest.push(s.last())
        } else {
            rest
        }
    }
}

/// The switches that make a known `.exe` installer run unattended, chosen by
/// what its path mentions; `None` for an installer that is not known.
pub open spec fn exe_switches(path: Seq<char>) -> Option<Seq<Seq<char>>> {
    if has_infix(path, "libreoffice"@) || has_infix(path, "Libreoffice"@) {
        Some(seq!["/passive"@])
    } else if has_infix(path, "Chrome"@) || has_infix(path, "chrome"@) {
        Some(seq!["/install"@])
    } else if has_infix(path, "Adobe Reader"@) || has_infix(path, "adobe Reader"@) || has_infix(
        path,
        "Adobe reader"@,
    ) {
        Some(seq!["/sAll"@, "/rs"@, "/msi"@, "EULA_ACCEPT=YES"@])
    } else if has_infix(path, "7z"@) || has_infix(path, "7Z"@) || has_infix(path, "7zip"@)
        || has_infix(path, "7Zip"@) {
        Some(seq!["/S"@])
    } else {
        None
    }
}

/// The command that runs the installer at `path`.
pub open spec fn install_command_of(kind: InstallerType, path: Seq<char>) -> ShellCommandView {
    match kind {
        InstallerType::MSI => ShellCommandView {
            program: "powershell"@,
            args: seq![
                "-Command"@,
                "Start-Process '"@ + path + "' -ArgumentList '/quiet', '/passive'"@,
            ],
        },
        InstallerType::EXE => ShellCommandView {
            program: "cmd"@,
            args: match exe_switches(path) {
                Some(switches) => seq!["/C"@, path] + switches,
                None => Seq::empty(),
            },
        },
    }
}

/// The kind of installer that a file with extension `extension` is.
pub open spec fn installer_type_of(extension: Option<Seq<char>>) -> InstallerType {
    if extension == Some("msi"@) {
        InstallerType::MSI
    } else {
        InstallerType::EXE
    }
}

/// The programs shipped with the installer, by file name and installer kind,
/// in the order they are offered.
pub open spec fn local_programs() -> Seq<(Seq<char>, Seq<char>)> {
    seq![
        ("Chrome Setup.msi"@, "msi"@),
        ("LibreOffice 7.4.1 x64.msi"@, "exe"@),
        ("Adobe Reader x64.exe"@, "msi"@),
        ("7z2404-x64.msi"@, "msi"@),
    ]
}

/// `apps` is the shipped catalogue, not yet picked, each installer placed in
/// the folder `appdata` on the platform whose main separator is `sep` (where
/// `appdata` carries a verbatim prefix, the placement is the standard
/// library's and is not stated).
pub open spec fn is_local_catalog(apps: Seq<AppInfoView>, appdata: Seq<char>, sep: char) -> bool {
    &&& apps.len() == local_programs().len()
    &&& forall|i: int|
        0 <= i < apps.len() ==> {
            &&& (#[trigger] apps[i]).name == local_programs()[i].0
            &&& apps[i].ins_type == local_programs()[i].1
            &&& !apps[i].install
            &&& !verbatim_base(appdata, sep) ==> apps[i].path == path_join(appdata, apps[i].name, sep)
        }
}

/// The names of the shipped programs, and that of the unpacked bundle, are
/// plain file names.
proof fn lemma_fixed_names_plain()
    ensures
        plain_file_name("Chrome Setup.msi"@),
        plain_file_name("LibreOffice 7.4.1 x64.msi"@),
        plain_file_name("Adobe Reader x64.exe"@),
        plain_file_name("7z2404-x64.msi"@),
        plain_file_name("programs.tar"@),
{
    reveal_strlit("Chrome Setup.msi");
    reveal_strlit("LibreOffice 7.4.1 x64.msi");
    reveal_strlit("Adobe Reader x64.exe");
    reveal_strlit("7z2404-x64.msi");
    reveal_strlit("programs.tar");
    lemma_plain_when_no_separator("Chrome Setup.msi"@);
    lemma_plain_when_no_separator("LibreOffice 7.4.1 x64.msi"@);
    lemma_plain_when_no_separator("Adobe Reader x64.exe"@);
    lemma_plain_when_no_separator("7z2404-x64.msi"@);
    lemma_plain_when_no_separator("programs.tar"@);
}

/// A text of three or more characters, none of them `/`, `\` or `:`, is a
/// plain file name.
proof fn lemma_plain_when_no_separator(name: Seq<char>)
    requires
        name.len() >= 3,
        forall|i: int| 0 <= i < name.len() ==> #[trigger] name[i] != '/' && name[i] != '\\' && name[i] != ':',
    ensures
        plain_file_name(name),
{
    assert(name != seq!['.']);
    assert(name != seq!['.', '.']);
}

/// The standard library's I/O error, which the gzip decoder and the tar
/// reader report; carried through unchanged.
#[verifier::external_type_specification]
#[verifier::external_body]
pub struct ExIoError(std::io::Error);

/// What flate2's gzip decoder gives back for the bytes `data`: the bytes of
/// the first gzip member, or `None` where it reports an error.
pub uninterp spec fn gunzip_result(data: Seq<u8>) -> Option<Seq<u8>>;

/// Decodes `data` with `flate2::read::GzDecoder` and `read_to_end`. Claimed:
/// whether it fails, and the bytes it gives back, depend on `data` alone and
/// are `gunzip_result(data)`.
#[verifier::external_body]
fn gunzip(data: &[u8]) -> (decoded: Result<Vec<u8>, std::io::Error>)
    ensures
        match decoded {
            Ok(v) => gunzip_result(data@) == Some(v@),
            Err(_) => gunzip_result(data@) is None,
        },
{
    let mut out: Vec<u8> = Vec::new();
    match std::io::Read::read_to_end(&mut flate2::read::GzDecoder::new(data), &mut out) {
        Ok(_) => Ok(out),
        Err(e) => Err(e),
    }
}

/// The entries of a tar image as text and bytes: each entry's path and its
/// content, in the order stored.
pub open spec fn entries_view(v: Seq<(String, Vec<u8>)>) -> Seq<(Seq<char>, Seq<u8>)> {
    v.map_values(|e: (String, Vec<u8>)| (e.0@, e.1@))
}

/// What the tar crate reads from the image `data`: the entries read, in
/// order, each as its stored path (raw bytes taken as lossy UTF-8 text) and
/// content, up to the first error; and whether reading stopped at an error.
pub uninterp spec fn tar_read_result(data: Seq<u8>) -> (Seq<(Seq<char>, Seq<u8>)>, bool);

/// Reads the entries of the tar image `data` with `tar::Archive::entries`,
/// `Entry::path_bytes` and `read_to_end`, up to the first error. Claimed:
/// the outcome depends on `data` alone (the path is taken from the raw
/// header bytes, which does not depend on the platform) and is
/// `tar_read_result(data)`.
#[verifier::external_body]
fn tar_entries(data: &[u8]) -> (r: (Vec<(String, Vec<u8>)>, Option<std::io::Error>))
    ensures
        entries_view(r.0@) == tar_read_result(data@).0,
        r.1 is Some <==> tar_read_result(data@).1,
{
    let mut read: Vec<(String, Vec<u8>)> = Vec::new();
    let mut archive = tar::Archive::new(data);
    let entries = match archive.entries() { Ok(es) => es, Err(e) => return (read, Some(e)) };
    for entry in entries {
        let mut entry = match entry { Ok(en) => en, Err(e) => return (read, Some(e)) };
        let mut bytes: Vec<u8> = Vec::new();
        if let Err(e) = std::io::Read::read_to_end(&mut entry, &mut bytes) {
            return (read, Some(e));
        }
        read.push((String::from_utf8_lossy(&entry.path_bytes()).into_owned(), bytes));
    }
    (read, None)
}

/// The shipped installers could not be unpacked.
#[derive(Debug)]
pub enum ArchiveError {
    /// The gzip decoder reported this error (bad header, checksum,
    /// truncated data, ...).
    Gzip(std::io::Error),
    /// The tar reader reported this error.
    Tar(std::io::Error),
    /// An entry's path has no file name (it ends in `..`, say).
    NoFileName,
}

/// `e` is a gzip error.
pub open spec fn is_gzip_error(e: Option<ArchiveError>) -> bool {
    match e {
        Some(ArchiveError::Gzip(_)) => true,
        _ => false,
    }
}

/// `e` is a tar error.
pub open spec fn is_tar_error(e: Option<ArchiveError>) -> bool {
    match e {
        Some(ArchiveError::Tar(_)) => true,
        _ => false,
    }
}

/// `e` is the error of an entry without a file name.
pub open spec fn is_name_error(e: Option<ArchiveError>) -> bool {
    match e {
        Some(ArchiveError::NoFileName) => true,
        _ => false,
    }
}

/// `placed` is the entry `entry` put into `appdata`: its bytes, at `appdata`
/// joined with its file name wherever that name is known and `appdata` has
/// no verbatim prefix, on the platform whose main separator is `sep`.
pub open spec fn entry_placed(
    entry: (Seq<char>, Seq<u8>),
    appdata: Seq<char>,
    placed: (Seq<char>, Seq<u8>),
    sep: char,
) -> bool {
    &&& placed.1 == entry.1
    &&& (known_file_name(entry.0) is Some && !verbatim_base(appdata, sep)) ==> placed.0 == path_join(
        appdata,
        known_file_name(entry.0).unwrap(),
        sep,
    )
}

/// `plan` places, in order, the first entries of `entries` into `appdata`.
pub open spec fn places_prefix(
    entries: Seq<(Seq<char>, Seq<u8>)>,
    appdata: Seq<char>,
    plan: Seq<(Seq<char>, Seq<u8>)>,
    sep: char,
) -> bool {
    &&& plan.len() <= entries.len()
    &&& forall|i: int| 0 <= i < plan.len() ==> #[trigger] entry_placed(entries[i], appdata, plan[i], sep)
}

/// Every entry of `entries` has a file name known on every platform.
pub open spec fn all_names_known(entries: Seq<(Seq<char>, Seq<u8>)>) -> bool {
    forall|i: int| 0 <= i < entries.len() ==> (#[trigger] known_file_name(entries[i].0)) is Some
}

/// `plan` and `err` are the outcome of unpacking the tar image `image` into
/// `appdata`: the entries the tar reader gave are placed in order until an
/// entry without a file name (which stops with `NoFileName`); after the last
/// entry read, an error of the reader stops with `Tar`; otherwise all entries
/// are placed and nothing failed.
pub open spec fn image_outcome(
    image: Seq<u8>,
    appdata: Seq<char>,
    plan: Seq<(Seq<char>, Seq<u8>)>,
    err: Option<ArchiveError>,
    sep: char,
) -> bool {
    let entries = tar_read_result(image).0;
    let failed = tar_read_result(image).1;
    &&& places_prefix(entries, appdata, plan, sep)
    &&& err is None <==> (plan.len() == entries.len() && !failed)
    &&& is_tar_error(err) <==> (plan.len() == entries.len() && failed)
    &&& is_name_error(err) <==> plan.len() < entries.len()
    &&& plan.len() < entries.len() ==> known_file_name(entries[plan.len() as int].0) is None
    &&& all_names_known(entries) ==> plan.len() == entries.len()
}

/// A file name known on every platform is a plain file name.
proof fn lemma_known_name_plain(p: Seq<char>)
    ensures
        known_file_name(p) is Some ==> plain_file_name(known_file_name(p).unwrap()),
{
    let t = trim_tail(p);
    if !plain_file_name(t) && !double_lead(t) && exists|k: int| plain_after_slash(t, k) {
        let k = choose|k: int| plain_after_slash(t, k);
        assert(plain_after_slash(t, k));
    }
}

/// `path` is where the unpacked bundle lies in `appdata` on the platform
/// whose main separator is `sep`: `appdata` joined with `programs.tar`
/// (where `appdata` carries a verbatim prefix, the placement is the standard
/// library's and is not stated).
pub open spec fn is_bundle_path(appdata: Seq<char>, path: Seq<char>, sep: char) -> bool {
    !verbatim_base(appdata, sep) ==> path == path_join(appdata, "programs.tar"@, sep)
}

/// `path`, `kind` and `command` are the installer of the program `name` to
/// run from `appdata`: the command runs `path` as an installer of `kind`;
/// where `name` is a plain file name and `appdata` has no verbatim prefix,
/// `path` is `appdata` joined with `name` and `kind` follows its extension.
pub open spec fn install_step_of(
    appdata: Seq<char>,
    name: Seq<char>,
    sep: char,
    path: Seq<char>,
    kind: InstallerType,
    command: ShellCommandView,
) -> bool {
    &&& command == install_command_of(kind, path)
    &&& (!verbatim_base(appdata, sep) && plain_file_name(name)) ==> {
        &&& path == path_join(appdata, name, sep)
        &&& kind == installer_type_of(name_extension(name))
    }
}

/// `entry` is the copy to make of the installer at `source` into `appdata`:
/// the source itself and its target in `appdata` under its file name; where
/// that file name is known there is a copy, and the target is `appdata`
/// joined with it unless `appdata` has a verbatim prefix.
pub open spec fn copy_entry_of(
    source: Seq<char>,
    appdata: Seq<char>,
    sep: char,
    entry: Option<(Seq<char>, Seq<char>)>,
) -> bool {
    &&& known_file_name(source) is Some ==> entry is Some
    &&& entry is Some ==> entry.unwrap().0 == source
    &&& (entry is Some && known_file_name(source) is Some && !verbatim_base(appdata, sep))
        ==> entry.unwrap().1 == path_join(appdata, known_file_name(source).unwrap(), sep)
}

/// `entry` is the copy of an installer at `source` that is named on every
/// platform: there is a copy, from `source`; and where `source` has no `/`
/// on Windows (main separator `\`), its target is `appdata` joined with the
/// last segment of `source`, as for the UNC paths of the share.
pub open spec fn copy_entry_named(
    source: Seq<char>,
    appdata: Seq<char>,
    sep: char,
    entry: Option<(Seq<char>, Seq<char>)>,
) -> bool {
    named_everywhere(source) ==> {
        &&& entry is Some
        &&& entry.unwrap().0 == source
        &&& (!has_slash(source) && sep == '\\' && !verbatim_base(appdata, sep)) ==> entry.unwrap().1
            == path_join(appdata, last_segment(source), sep)
    }
}

/// The text of a planned copy.
pub open spec fn copy_view(entry: Option<(String, String)>) -> Option<(Seq<char>, Seq<char>)> {
    match entry {
        Some(e) => Some((e.0@, e.1@)),
        None => None,
    }
}

/// The installers and the file system around them.
pub struct FileHandler {}

impl FileHandler {
    /// The programs shipped with the installer, each with its installer placed
    /// in the folder `appdata` of the platform whose main separator is `sep`.
    pub fn search_local(appdata: &str, sep: char) -> (apps: Vec<AppInfo>)
        requires
            platform_separator(sep),
        ensures
            is_local_catalog(infos_view(apps@), appdata@, sep),
    {
        proof {
            lemma_fixed_names_plain();
        }
        let mut apps: Vec<AppInfo> = Vec::new();
        apps.push(Self::local_entry(appdata, "Chrome Setup.msi", "msi", sep));
        apps.push(Self::local_entry(appdata, "LibreOffice 7.4.1 x64.msi", "exe", sep));
        apps.push(Self::local_entry(appdata, "Adobe Reader x64.exe", "msi", sep));
        apps.push(Self::local_entry(appdata, "7z2404-x64.msi", "msi", sep));
        assert(is_local_catalog(infos_view(apps@), appdata@, sep));
        apps
    }

    /// A shipped program not yet picked, whose installer lies in `appdata`.
    fn local_entry(appdata: &str, name: &str, ins_type: &str, sep: char) -> (app: AppInfo)
        requires
            plain_file_name(name@),
            platform_separator(sep),
        ensures
            app@.name == name@,
            app@.ins_type == ins_type@,
            !app@.install,
            !verbatim_base(appdata@, sep) ==> app@.path == path_join(appdata@, name@, sep),
    {
        AppInfo {
            name: String::from_str(name),
            install: false,
            path: place_in(appdata, name, sep),
            ins_type: String::from_str(ins_type),
        }
    }

    /// The catalogue to offer: the programs found in the shared folder, or,
    /// where it could not be read, the shipped ones placed in `appdata`.
    pub fn search_online(listing: Result<Vec<AppInfo>, ConnectionError>, appdata: &str, sep: char) -> (apps: Vec<AppInfo>)
        requires
            platform_separator(sep),
        ensures
            match listing {
                Ok(files) => infos_view(apps@) == infos_view(files@),
                Err(_) => is_local_catalog(infos_view(apps@), appdata@, sep),
            },
    {
        match listing {
            Ok(files) => files,
            Err(_) => Self::search_local(appdata, sep),
        }
    }

    /// Where the unpacked bundle of shipped installers is kept in `appdata`.
    pub fn bundle_path(appdata: &str, sep: char) -> (path: String)
        requires
            platform_separator(sep),
        ensures
            is_bundle_path(appdata@, path@, sep),
    {
        proof {
            lemma_fixed_names_plain();
        }
        place_in(appdata, "programs.tar", sep)
    }

    /// The outcome of decoding the shipped bundle, from what the gzip decoder
    /// gave back.
    pub fn settle_decoded(decoded: Result<Vec<u8>, std::io::Error>) -> (r: Result<Vec<u8>, ArchiveError>)
        ensures
            decoded is Ok <==> r is Ok,
            decoded is Ok ==> r.unwrap()@ == decoded.unwrap()@,
            r is Err ==> r->Err_0 is Gzip,
    {
        match decoded {
            Ok(v) => Ok(v),
            Err(e) => Err(ArchiveError::Gzip(e)),
        }
    }

    /// The tar image held in the gzip bundle `x` of shipped installers.
    pub fn decompress_locals(x: &[u8]) -> (r: Result<Vec<u8>, ArchiveError>)
        ensures
            gunzip_result(x@) is Some <==> r is Ok,
            r is Ok ==> Some(r.unwrap()@) == gunzip_result(x@),
            r is Err ==> r->Err_0 is Gzip,
    {
        Self::settle_decoded(gunzip(x))
    }

    /// The target and bytes of one unpacked entry: its content placed in
    /// `appdata` under `file_name`, the file name that the standard library
    /// found in its path; no file name is an error.
    pub fn place_entry(appdata: &str, file_name: Option<String>, content: Vec<u8>, sep: char) -> (r: Result<(String, Vec<u8>), ArchiveError>)
        requires
            platform_separator(sep),
        ensures
            file_name is None <==> r is Err,
            r is Err ==> r->Err_0 is NoFileName,
            r is Ok ==> r.unwrap().1@ == content@,
            r is Ok && !verbatim_base(appdata@, sep) && plain_file_name(file_name.unwrap()@) ==> r.unwrap().0@
                == path_join(appdata@, file_name.unwrap()@, sep),
    {
        match file_name {
            Some(n) => Ok((place_in(appdata, n.as_str(), sep), content)),
            None => Err(ArchiveError::NoFileName),
        }
    }

    /// What to write where, in order, when the tar image `image` of shipped
    /// installers is unpacked into `appdata`: each entry at `appdata` joined
    /// with its file name, until an entry without a file name or an error of
    /// the tar reader, which is given back beside the entries placed before
    /// it. A later entry with the same file name overwrites an earlier one
    /// when the plan is carried out in order.
    pub fn plan_image(image: &[u8], appdata: &str, sep: char) -> (r: (Vec<(String, Vec<u8>)>, Option<ArchiveError>))
        requires
            platform_separator(sep),
        ensures
            image_outcome(image@, appdata@, entries_view(r.0@), r.1, sep),
    {
        let (entries, failure) = tar_entries(image);
        let ghost es = entries_view(entries@);
        let mut plan: Vec<(String, Vec<u8>)> = Vec::new();
        let mut rest = entries;
        while rest.len() > 0
            invariant
                platform_separator(sep),
                tar_read_result(image@).0 == es,
                plan@.len() <= es.len(),
                entries_view(rest@) == es.skip(plan@.len() as int),
                places_prefix(es, appdata@, entries_view(plan@), sep),
            decreases rest@.len(),
        {
            let ghost k = plan@.len() as int;
            let ghost before = rest@;
            assert(entries_view(before).len() == before.len());
            assert(entries_view(before)[0] == es[k]);
            let (path, content) = rest.remove(0);
            assert(entries_view(rest@) =~= es.skip(k + 1)) by {
                assert forall|j: int| 0 <= j < rest@.len() implies #[trigger] entries_view(rest@)[j]
                    == es.skip(k + 1)[j] by {
                    assert(rest@[j] == before[j + 1]);
                    assert(entries_view(before)[j + 1] == es.skip(k)[j + 1]);
                }
            }
            let name = file_name_of(path.as_str());
            proof {
                lemma_known_name_plain(path@);
            }
            match Self::place_entry(appdata, name, content, sep) {
                Ok(placed) => {
                    let ghost prior = entries_view(plan@);
                    plan.push(placed);
                    assert(entry_placed(es[k], appdata@, entries_view(plan@)[k], sep));
                    assert forall|i: int| 0 <= i < plan@.len() implies #[trigger] entry_placed(
                        es[i],
                        appdata@,
                        entries_view(plan@)[i],
                        sep,
                    ) by {
                        if i < k {
                            assert(entries_view(plan@)[i] == prior[i]);
                        }
                    }
                },
                Err(e) => {
                    assert(known_file_name(es[k].0) is None);
                    assert(!all_names_known(es));
                    let r = (plan, Some(e));
                    assert(is_name_error(r.1));
                    return r;
                },
            }
        }
        assert(entries_view(rest@).len() == 0);
        assert(plan@.len() == es.len());
        match failure {
            Some(e) => (plan, Some(ArchiveError::Tar(e))),
            None => (plan, None),
        }
    }

    /// What to write where, in order, when the gzip'd tar bundle `x` of
    /// shipped installers is unpacked into `appdata`: nothing and the gzip
    /// error where `x` cannot be decoded, else the plan of the tar image that
    /// `x` holds.
    pub fn unpack_plan(x: &[u8], appdata: &str, sep: char) -> (r: (Vec<(String, Vec<u8>)>, Option<ArchiveError>))
        requires
            platform_separator(sep),
        ensures
            gunzip_result(x@) is None ==> r.0@.len() == 0 && is_gzip_error(r.1),
            gunzip_result(x@) is Some ==> image_outcome(
                gunzip_result(x@).unwrap(),
                appdata@,
                entries_view(r.0@),
                r.1,
                sep,
            ),
    {
        match Self::decompress_locals(x) {
            Ok(image) => Self::plan_image(image.as_slice(), appdata, sep),
            Err(e) => (Vec::new(), Some(e)),
        }
    }

    /// The installer of the program `name` to run from `appdata`: its path,
    /// its kind and the command that runs it.
    pub fn install_step(appdata: &str, name: &str, sep: char) -> (r: (String, InstallerType, ShellCommand))
        requires
            platform_separator(sep),
        ensures
            install_step_of(appdata@, name@, sep, r.0@, r.1, r.2@),
    {
        let path = place_in(appdata, name, sep);
        let ext = if !is_verbatim_base(appdata, sep) && is_plain_file_name(name) {
            extension_of_name(name)
        } else {
            std_extension(path.as_str())
        };
        let kind = match &ext {
            Some(e) => Self::installer_type(Some(e.as_str())),
            None => Self::installer_type(None),
        };
        let command = Self::installer_command(kind, path.as_str());
        (path, kind, command)
    }

    /// The plan of installing `to_execute` from `appdata`: the programs to
    /// fetch first (those picked, where the share is online; none otherwise)
    /// and, for every program of `to_execute` in order, its installer step.
    pub fn install_plan(to_execute: &Vec<AppInfo>, appdata: &str, sep: char, online: bool) -> (r: (
        Vec<AppInfo>,
        Vec<(String, InstallerType, ShellCommand)>,
    ))
        requires
            platform_separator(sep),
        ensures
            online ==> infos_view(r.0@) == selected(infos_view(to_execute@)),
            !online ==> r.0@.len() == 0,
            r.1@.len() == to_execute@.len(),
            forall|i: int|
                0 <= i < to_execute@.len() ==> install_step_of(
                    appdata@,
                    to_execute@[i].name@,
                    sep,
                    (#[trigger] r.1@[i]).0@,
                    r.1@[i].1,
                    r.1@[i].2@,
                ),
    {
        let to_download = if online {
            Self::collect(to_execute)
        } else {
            Vec::new()
        };
        let mut steps: Vec<(String, InstallerType, ShellCommand)> = Vec::new();
        for i in 0..to_execute.len()
            invariant
                platform_separator(sep),
                steps@.len() == i,
                i <= to_execute@.len(),
                forall|j: int|
                    0 <= j < i ==> install_step_of(
                        appdata@,
                        to_execute@[j].name@,
                        sep,
                        (#[trigger] steps@[j]).0@,
                        steps@[j].1,
                        steps@[j].2@,
                    ),
        {
            let step = Self::install_step(appdata, to_execute[i].name.as_str(), sep);
            steps.push(step);
        }
        (to_download, steps)
    }

    /// The copies to make of the installers of `to_copy` into `appdata`, one
    /// per program in order: the installer's path and its target in
    /// `appdata` under its file name, or `None` where the path has no file
    /// name.
    pub fn copy_plan(to_copy: &Vec<AppInfo>, appdata: &str, sep: char) -> (r: Vec<Option<(String, String)>>)
        requires
            platform_separator(sep),
        ensures
            r@.len() == to_copy@.len(),
            forall|i: int|
                0 <= i < to_copy@.len() ==> copy_entry_of(
                    to_copy@[i].path@,
                    appdata@,
                    sep,
                    copy_view(#[trigger] r@[i]),
                ),
            forall|i: int|
                0 <= i < to_copy@.len() ==> copy_entry_named(
                    to_copy@[i].path@,
                    appdata@,
                    sep,
                    copy_view(#[trigger] r@[i]),
                ),
    {
        let mut r: Vec<Option<(String, String)>> = Vec::new();
        for i in 0..to_copy.len()
            invariant
                platform_separator(sep),
                r@.len() == i,
                i <= to_copy@.len(),
                forall|j: int|
                    0 <= j < i ==> copy_entry_of(
                        to_copy@[j].path@,
                        appdata@,
                        sep,
                        copy_view(#[trigger] r@[j]),
                    ),
                forall|j: int|
                    0 <= j < i ==> copy_entry_named(
                        to_copy@[j].path@,
                        appdata@,
                        sep,
                        copy_view(#[trigger] r@[j]),
                    ),
        {
            let source = to_copy[i].path.as_str();
            proof {
                lemma_known_name_plain(source@);
                lemma_named_segment_plain(source@);
            }
            let (named, segment) = named_everywhere_check(source);
            let name = if sep == '\\' && named && !has_slash_check(source) {
                proof {
                    if known_file_name(source@) is Some {
                        assert(trim_tail(source@) == source@);
                        assert(!exists|k: int| plain_after_slash(source@, k));
                        assert(plain_file_name(source@));
                        assert(forall|m: int| 0 <= m < source@.len() ==> !is_any_separator(#[trigger] source@[m]));
                    }
                }
                Some(segment)
            } else {
                file_name_of(source)
            };
            let entry = match name {
                Some(name) => Some((String::from_str(source), place_in(appdata, name.as_str(), sep))),
                None => None,
            };
            r.push(entry);
        }
        r
    }

    /// Copies of the programs of `to_install` that were picked for installation.
    pub fn collect(to_install: &Vec<AppInfo>) -> (apps: Vec<AppInfo>)
        ensures
            infos_view(apps@) == selected(infos_view(to_install@)),
    {
        let mut apps: Vec<AppInfo> = Vec::new();
        let ghost all = infos_view(to_install@);
        for i in 0..to_install.len()
            invariant
                all == infos_view(to_install@),
                i <= all.len(),
                infos_view(apps@) == selected(all.take(i as int)),
        {
            assert(all.take(i + 1).drop_last() =~= all.take(i as int));
            if to_install[i].install {
                let copy = to_install[i].clone();
                apps.push(copy);
                assert(infos_view(apps@) =~= selected(all.take(i as int)).push(all[i as int]));
            }
        }
        assert(all.take(all.len() as int) =~= all);
        apps
    }

    /// The kind of installer that a file is, by its extension: `msi` files are
    /// started through PowerShell `Start-Process`, all others through `cmd /C`.
    pub fn installer_type(extension: Option<&str>) -> (kind: InstallerType)
        ensures
            kind == installer_type_of(
                match extension {
                    Some(e) => Some(e@),
                    None => None,
                },
            ),
    {
        match extension {
            Some(e) => {
                if text_equals(e, "msi") {
                    InstallerType::MSI
                } else {
                    InstallerType::EXE
                }
            },
            None => InstallerType::EXE,
        }
    }

    /// The command that runs the installer at `command`, of kind
    /// `installer_type`, without asking the user.
    pub fn installer_command(installer_type: InstallerType, command: &str) -> (c: ShellCommand)
        ensures
            c@ == install_command_of(installer_type, command@),
    {
        let mut args: Vec<String> = Vec::new();
        match installer_type {
            InstallerType::MSI => {
                push_arg(&mut args, "-Command");
                let start = join3("Start-Process '", command, "' -ArgumentList '/quiet', '/passive'");
                push_arg(&mut args, start.as_str());
                assert(crate::text::texts_view(args@) =~= install_command_of(installer_type, command@).args);
                ShellCommand { program: String::from_str("powershell"), args }
            },
            InstallerType::EXE => {
                if contains_text(command, "libreoffice") || contains_text(command, "Libreoffice") {
                    push_arg(&mut args, "/C");
                    push_arg(&mut args, command);
                    push_arg(&mut args, "/passive");
                } else if contains_text(command, "Chrome") || contains_text(command, "chrome") {
                    push_arg(&mut args, "/C");
                    push_arg(&mut args, command);
                    push_arg(&mut args, "/install");
                } else if contains_text(command, "Adobe Reader") || contains_text(
                    command,
                    "adobe Reader",
                ) || contains_text(command, "Adobe reader") {
                    push_arg(&mut args, "/C");
                    push_arg(&mut args, command);
                    push_arg(&mut args, "/sAll");
                    push_arg(&mut args, "/rs");
                    push_arg(&mut args, "/msi");
                    push_arg(&mut args, "EULA_ACCEPT=YES");
                } else if contains_text(command, "7z") || contains_text(command, "7Z")
                    || contains_text(command, "7zip") || contains_text(command, "7Zip") {
                    push_arg(&mut args, "/C");
                    push_arg(&mut args, command);
                    push_arg(&mut args, "/S");
                }
                ShellCommand { program: String::from_str("cmd"), args }
            },
        }
    }
}

} // verus!
