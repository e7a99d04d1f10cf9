use vstd::prelude::*;

use crate::app_info::AppInfoView;
use crate::deposit::{matching, pushed_all};
use crate::admin::admin_commands_of;
use crate::command::ShellCommandView;
use crate::file_handler::{copy_entry_named, install_command_of, is_local_catalog, selected};
use crate::paths::{
    count_backslashes, double_lead, has_slash, is_any_separator, last_segment, last_separator_index,
    named_everywhere, path_join, plain_file_name, verbatim_base,
};
use crate::shared_folder_connection::{entry_step_of, EntryStepView};
use crate::installer_types::InstallerType;
use crate::text::has_infix;

verus! {

/// The empty text occurs in every text.
pub proof fn law_empty_infix(hay: Seq<char>)
    ensures
        has_infix(hay, Seq::empty()),
{
    let needle = Seq::<char>::empty();
    assert(hay.subrange(0int, 0int + needle.len()) =~= needle);
}

/// A text occurs in itself.
pub proof fn law_infix_reflexive(hay: Seq<char>)
    ensures
        has_infix(hay, hay),
{
    assert(hay.subrange(0int, 0int + hay.len()) =~= hay);
}

/// What occurs in a part of a text occurs in the text.
pub proof fn law_infix_transitive(hay: Seq<char>, mid: Seq<char>, needle: Seq<char>)
    requires
        has_infix(hay, mid),
        has_infix(mid, needle),
    ensures
        has_infix(hay, needle),
{
    let i = choose|i: int|
        0 <= i && i + mid.len() <= hay.len() && #[trigger] hay.subrange(i, i + mid.len()) == mid;
    let j = choose|j: int|
        0 <= j && j + needle.len() <= mid.len() && #[trigger] mid.subrange(j, j + needle.len())
            == needle;
    assert(hay.subrange(i + j, i + j + needle.len()) =~= needle) by {
        assert forall|k: int| 0 <= k < needle.len() implies hay.subrange(
            i + j,
            i + j + needle.len(),
        )[k] == needle[k] by {
            assert(hay.subrange(i, i + mid.len())[j + k] == mid[j + k]);
            assert(mid.subrange(j, j + needle.len())[k] == needle[k]);
        }
    }
}

/// Searching a deposit that got one more program finds what the search found
/// before, and the new program after it where its name matches.
pub proof fn law_search_after_push(s: Seq<AppInfoView>, x: AppInfoView, needle: Seq<char>)
    ensures
        matching(s.push(x), needle) == (if has_infix(x.name, needle) {
            matching(s, needle).push(x)
        } else {
            matching(s, needle)
        }),
{
    assert(s.push(x).drop_last() =~= s);
}

/// Searching the programs of two lists one after the other finds the
/// programs that each search finds, in the same order.
pub proof fn law_search_concat(a: Seq<AppInfoView>, b: Seq<AppInfoView>, needle: Seq<char>)
    ensures
        matching(a + b, needle) == matching(a, needle) + matching(b, needle),
    decreases b.len(),
{
    if b.len() == 0 {
        assert(a + b =~= a);
        assert(matching(a, needle) + matching(b, needle) =~= matching(a, needle));
    } else {
        assert((a + b).drop_last() =~= a + b.drop_last());
        law_search_concat(a, b.drop_last(), needle);
        assert(matching(a + b, needle) =~= matching(a, needle) + matching(b, needle));
    }
}

/// A search for the empty text finds every program.
pub proof fn law_search_empty_finds_all(s: Seq<AppInfoView>)
    ensures
        matching(s, Seq::empty()) == s,
    decreases s.len(),
{
    if s.len() > 0 {
        law_search_empty_finds_all(s.drop_last());
        law_empty_infix(s.last().name);
        assert(s.drop_last().push(s.last()) =~= s);
    }
}

/// A search finds only held programs whose name contains the text, and no
/// more programs than are held.
pub proof fn law_search_sound(s: Seq<AppInfoView>, needle: Seq<char>)
    ensures
        matching(s, needle).len() <= s.len(),
        forall|i: int|
            0 <= i < matching(s, needle).len() ==> has_infix(
                (#[trigger] matching(s, needle)[i]).name,
                needle,
            ) && s.contains(matching(s, needle)[i]),
    decreases s.len(),
{
    if s.len() > 0 {
        let rest = s.drop_last();
        law_search_sound(rest, needle);
        assert forall|i: int| 0 <= i < matching(s, needle).len() implies has_infix(
            (#[trigger] matching(s, needle)[i]).name,
            needle,
        ) && s.contains(matching(s, needle)[i]) by {
            if i < matching(rest, needle).len() {
                assert(matching(s, needle)[i] == matching(rest, needle)[i]);
                let k = choose|k: int| 0 <= k < rest.len() && rest[k] == matching(rest, needle)[i];
                assert(s[k] == rest[k]);
            } else {
                assert(s[s.len() - 1] == s.last());
            }
        }
    }
}

/// A search finds every held program whose name contains the text.
pub proof fn law_search_complete(s: Seq<AppInfoView>, needle: Seq<char>)
    ensures
        forall|i: int|
            0 <= i < s.len() && has_infix(s[i].name, needle) ==> matching(s, needle).contains(
                #[trigger] s[i],
            ),
    decreases s.len(),
{
    if s.len() > 0 {
        let rest = s.drop_last();
        law_search_complete(rest, needle);
        assert forall|i: int|
            0 <= i < s.len() && has_infix(s[i].name, needle) implies matching(
            s,
            needle,
        ).contains(#[trigger] s[i]) by {
            if i < s.len() - 1 {
                assert(rest[i] == s[i]);
                let k = choose|k: int|
                    0 <= k < matching(rest, needle).len() && matching(rest, needle)[k] == rest[i];
                assert(matching(s, needle)[k] == matching(rest, needle)[k]);
            } else {
                let m = matching(s, needle);
                assert(m[m.len() - 1] == s[i]);
            }
        }
    }
}

/// Searching the result of a search again, for the same text, changes nothing.
pub proof fn law_search_idempotent(s: Seq<AppInfoView>, needle: Seq<char>)
    ensures
        matching(matching(s, needle), needle) == matching(s, needle),
    decreases s.len(),
{
    if s.len() > 0 {
        law_search_idempotent(s.drop_last(), needle);
        let rest = matching(s.drop_last(), needle);
        if has_infix(s.last().name, needle) {
            law_search_after_push(rest, s.last(), needle);
        }
    }
}

/// Narrowing a search: searching the result of a search for `wide` for a text
/// `narrow` that contains `wide` finds what a search for `narrow` finds.
pub proof fn law_search_narrowing(s: Seq<AppInfoView>, wide: Seq<char>, narrow: Seq<char>)
    requires
        has_infix(narrow, wide),
    ensures
        matching(matching(s, wide), narrow) == matching(s, narrow),
    decreases s.len(),
{
    if s.len() > 0 {
        law_search_narrowing(s.drop_last(), wide, narrow);
        let x = s.last();
        let rest = matching(s.drop_last(), wide);
        if has_infix(x.name, narrow) {
            law_infix_transitive(x.name, narrow, wide);
        }
        if has_infix(x.name, wide) {
            law_search_after_push(rest, x, narrow);
        }
    }
}

/// Collecting the picked programs of two lists one after the other gives the
/// picked programs of each, in the same order.
pub proof fn law_collect_concat(a: Seq<AppInfoView>, b: Seq<AppInfoView>)
    ensures
        selected(a + b) == selected(a) + selected(b),
    decreases b.len(),
{
    if b.len() == 0 {
        assert(a + b =~= a);
        assert(selected(a) + selected(b) =~= selected(a));
    } else {
        assert((a + b).drop_last() =~= a + b.drop_last());
        law_collect_concat(a, b.drop_last());
        assert(selected(a + b) =~= selected(a) + selected(b));
    }
}

/// Collecting keeps exactly the picked programs: everything collected is
/// picked and held, and every held program that is picked is collected.
pub proof fn law_collect_exact(s: Seq<AppInfoView>)
    ensures
        selected(s).len() <= s.len(),
        forall|i: int|
            0 <= i < selected(s).len() ==> (#[trigger] selected(s)[i]).install && s.contains(
                selected(s)[i],
            ),
        forall|i: int| 0 <= i < s.len() && s[i].install ==> selected(s).contains(#[trigger] s[i]),
    decreases s.len(),
{
    if s.len() > 0 {
        let rest = s.drop_last();
        law_collect_exact(rest);
        assert forall|i: int| 0 <= i < selected(s).len() implies (
        #[trigger] selected(s)[i]).install && s.contains(selected(s)[i]) by {
            if i < selected(rest).len() {
                assert(selected(s)[i] == selected(rest)[i]);
                let k = choose|k: int| 0 <= k < rest.len() && rest[k] == selected(rest)[i];
                assert(s[k] == rest[k]);
            } else {
                assert(s[s.len() - 1] == s.last());
            }
        }
        assert forall|i: int| 0 <= i < s.len() && s[i].install implies selected(s).contains(
            #[trigger] s[i],
        ) by {
            if i < s.len() - 1 {
                assert(rest[i] == s[i]);
                let k = choose|k: int| 0 <= k < selected(rest).len() && selected(rest)[k] == rest[i];
                assert(selected(s)[k] == selected(rest)[k]);
            } else {
                let m = selected(s);
                assert(m[m.len() - 1] == s[i]);
            }
        }
    }
}

/// Collecting the collected programs again changes nothing.
pub proof fn law_collect_idempotent(s: Seq<AppInfoView>)
    ensures
        selected(selected(s)) == selected(s),
    decreases s.len(),
{
    if s.len() > 0 {
        law_collect_idempotent(s.drop_last());
        let rest = selected(s.drop_last());
        assert(rest.push(s.last()).drop_last() =~= rest);
    }
}

/// Every installer command runs the file it is given: an `.msi` package is
/// started by a PowerShell line that names its path, and a known program is
/// run by `cmd /C` with its path as the program to run.
pub proof fn law_installer_command_runs_the_path(kind: InstallerType, path: Seq<char>)
    ensures
        kind == InstallerType::MSI ==> {
            let args = install_command_of(kind, path).args;
            args.len() == 2 && has_infix(args[1], path)
        },
        kind == InstallerType::EXE && install_command_of(kind, path).args.len() > 0 ==> {
            let args = install_command_of(kind, path).args;
            args.len() >= 3 && args[0] == "/C"@ && args[1] == path
        },
{
    if kind == InstallerType::MSI {
        let line = install_command_of(kind, path).args[1];
        let prefix = "Start-Process '"@;
        let suffix = "' -ArgumentList '/quiet', '/passive'"@;
        assert(line == prefix + path + suffix);
        let i: int = prefix.len() as int;
        assert(line.subrange(i, i + path.len()) =~= path);
    }
}

/// Reading a deposit back: after it was filled (by `from` or `replace`) with
/// `base` and then got the programs `items` pushed one by one, it holds
/// `base` followed by `items`.
pub proof fn law_pushes_append(base: Seq<AppInfoView>, items: Seq<AppInfoView>)
    ensures
        pushed_all(base, items) == base + items,
    decreases items.len(),
{
    if items.len() > 0 {
        law_pushes_append(base, items.drop_last());
        assert(base + items.drop_last() + seq![items.last()] =~= base + items);
        assert((base + items.drop_last()).push(items.last()) =~= base + items);
    } else {
        assert(base + items =~= base);
    }
}

/// The shipped catalogue is one value: on a given platform, two catalogues
/// for the same folder (without verbatim prefix) are equal, so the fallback
/// of the online search is exactly what the local search gives.
pub proof fn law_local_catalog_determined(
    a: Seq<AppInfoView>,
    b: Seq<AppInfoView>,
    appdata: Seq<char>,
    sep: char,
)
    requires
        is_local_catalog(a, appdata, sep),
        is_local_catalog(b, appdata, sep),
        !verbatim_base(appdata, sep),
    ensures
        a == b,
{
    assert forall|i: int| 0 <= i < a.len() implies a[i] == b[i] by {
        assert(a[i].name == b[i].name);
        assert(a[i].path == b[i].path);
    }
    assert(a =~= b);
}

/// The unattended command of every `.exe` installer, by what its path
/// mentions (LibreOffice first, then Chrome, then Adobe Reader, then 7-Zip,
/// each in the spellings handled): `cmd /C <path>` followed by that
/// program's silent switches; `cmd` with no arguments for any other program.
pub proof fn law_exe_installer_commands(path: Seq<char>)
    ensures
        install_command_of(InstallerType::EXE, path).program == "cmd"@,
        ({
            let libre = has_infix(path, "libreoffice"@) || has_infix(path, "Libreoffice"@);
            let chrome = has_infix(path, "Chrome"@) || has_infix(path, "chrome"@);
            let adobe = has_infix(path, "Adobe Reader"@) || has_infix(path, "adobe Reader"@)
                || has_infix(path, "Adobe reader"@);
            let zip = has_infix(path, "7z"@) || has_infix(path, "7Z"@) || has_infix(path, "7zip"@)
                || has_infix(path, "7Zip"@);
            let args = install_command_of(InstallerType::EXE, path).args;
            &&& libre ==> args == seq!["/C"@, path, "/passive"@]
            &&& (!libre && chrome) ==> args == seq!["/C"@, path, "/install"@]
            &&& (!libre && !chrome && adobe) ==> args == seq![
                "/C"@,
                path,
                "/sAll"@,
                "/rs"@,
                "/msi"@,
                "EULA_ACCEPT=YES"@,
            ]
            &&& (!libre && !chrome && !adobe && zip) ==> args == seq!["/C"@, path, "/S"@]
            &&& (libre || chrome || adobe || zip) <==> args.len() > 0
            &&& (!libre && !chrome && !adobe && !zip) ==> args == Seq::<Seq<char>>::empty()
        }),
{
    let args = install_command_of(InstallerType::EXE, path).args;
    assert(seq!["/C"@, path] + seq!["/passive"@] =~= seq!["/C"@, path, "/passive"@]);
    assert(seq!["/C"@, path] + seq!["/install"@] =~= seq!["/C"@, path, "/install"@]);
    assert(seq!["/C"@, path] + seq!["/sAll"@, "/rs"@, "/msi"@, "EULA_ACCEPT=YES"@] =~= seq![
        "/C"@,
        path,
        "/sAll"@,
        "/rs"@,
        "/msi"@,
        "EULA_ACCEPT=YES"@,
    ]);
    assert(seq!["/C"@, path] + seq!["/S"@] =~= seq!["/C"@, path, "/S"@]);
}

/// The unattended command of every `.msi` package: PowerShell starting the
/// package quietly, with its path quoted in the `Start-Process` line.
pub proof fn law_msi_installer_command(path: Seq<char>)
    ensures
        install_command_of(InstallerType::MSI, path) == (ShellCommandView {
            program: "powershell"@,
            args: seq![
                "-Command"@,
                "Start-Process '"@ + path + "' -ArgumentList '/quiet', '/passive'"@,
            ],
        }),
{
}

/// Listing the share offers exactly the `.exe` and `.msi` files, each as the
/// entry itself (its name, its path, its extension as kind) and not yet
/// picked; it descends into folders and leaves everything else.
pub proof fn law_listing_offers_entries_unpicked(
    name: Seq<char>,
    path: Seq<char>,
    is_file: bool,
    is_dir: bool,
    extension: Option<Seq<char>>,
)
    ensures
        match entry_step_of(name, path, is_file, is_dir, extension) {
            EntryStepView::Take(app) => {
                &&& is_file
                &&& app.install == false
                &&& app.name == name
                &&& app.path == path
                &&& extension == Some(app.ins_type)
                &&& (app.ins_type == "exe"@ || app.ins_type == "msi"@)
            },
            EntryStepView::Descend => !is_file && is_dir,
            EntryStepView::Skip => !(is_file && (extension == Some("exe"@) || extension == Some(
                "msi"@,
            ))) && !(!is_file && is_dir),
        },
        (is_file && (extension == Some("exe"@) || extension == Some("msi"@))) ==> entry_step_of(
            name,
            path,
            is_file,
            is_dir,
            extension,
        ) is Take,
{
}

/// Creating a local administrator runs, for every non-empty user name and
/// password, exactly `net user /add <name> <pass>` and then `net localgroup
/// Administradores <name> /add`, the name and password passed unchanged as
/// single arguments; an empty field runs nothing.
pub proof fn law_admin_commands_pass_fields_through(name: Seq<char>, pass: Seq<char>)
    ensures
        (name.len() == 0 || pass.len() == 0) <==> admin_commands_of(name, pass) is None,
        (name.len() > 0 && pass.len() > 0) ==> admin_commands_of(name, pass) == Some(
            seq![
                ShellCommandView { program: "net"@, args: seq!["user"@, "/add"@, name, pass] },
                ShellCommandView {
                    program: "net"@,
                    args: seq!["localgroup"@, "Administradores"@, name, "/add"@],
                },
            ],
        ),
        (name.len() > 0 && pass.len() > 0) ==> {
            let cmds = admin_commands_of(name, pass).unwrap();
            &&& cmds.len() == 2
            &&& cmds[0].args[2] == name
            &&& cmds[0].args[3] == pass
            &&& cmds[1].args[2] == name
        },
{
}

/// The last separator of a path that ends in a separator followed by a name
/// without separators is that separator.
proof fn lemma_last_separator_before_name(x: Seq<char>, name: Seq<char>)
    requires
        x.len() > 0,
        is_any_separator(x.last()),
        forall|i: int| 0 <= i < name.len() ==> !is_any_separator(#[trigger] name[i]),
    ensures
        last_separator_index(x + name) == x.len() - 1,
    decreases name.len(),
{
    if name.len() == 0 {
        assert(x + name =~= x);
    } else {
        assert((x + name).drop_last() =~= x + name.drop_last());
        assert((x + name).last() == name.last());
        lemma_last_separator_before_name(x, name.drop_last());
    }
}

/// Backslashes add up over concatenation.
proof fn lemma_count_backslashes_concat(a: Seq<char>, b: Seq<char>)
    ensures
        count_backslashes(a + b) == count_backslashes(a) + count_backslashes(b),
    decreases b.len(),
{
    if b.len() == 0 {
        assert(a + b =~= a);
    } else {
        assert((a + b).drop_last() =~= a + b.drop_last());
        lemma_count_backslashes_concat(a, b.drop_last());
    }
}

/// Every installer on a Windows share path `\\server\share\<dirs>\name` has a
/// file name on every platform, and is copied: from that path, to `appdata`
/// joined with `name` where the main separator is `\`.
pub proof fn law_share_installers_are_copied(
    server: Seq<char>,
    share: Seq<char>,
    dirs: Seq<char>,
    name: Seq<char>,
    appdata: Seq<char>,
    entry: Option<(Seq<char>, Seq<char>)>,
)
    requires
        server.len() > 0,
        server[0] != '?',
        forall|i: int| 0 <= i < server.len() ==> !is_any_separator(#[trigger] server[i]),
        forall|i: int| 0 <= i < share.len() ==> !is_any_separator(#[trigger] share[i]),
        forall|i: int| 0 <= i < dirs.len() ==> #[trigger] dirs[i] != '/',
        dirs.len() == 0 || dirs.last() == '\\',
        plain_file_name(name),
        !verbatim_base(appdata, '\\'),
        copy_entry_named(
            seq!['\\', '\\'] + server + seq!['\\'] + share + seq!['\\'] + dirs + name,
            appdata,
            '\\',
            entry,
        ),
    ensures
        named_everywhere(seq!['\\', '\\'] + server + seq!['\\'] + share + seq!['\\'] + dirs + name),
        last_segment(seq!['\\', '\\'] + server + seq!['\\'] + share + seq!['\\'] + dirs + name) == name,
        entry == Some(
            (
                seq!['\\', '\\'] + server + seq!['\\'] + share + seq!['\\'] + dirs + name,
                path_join(appdata, name, '\\'),
            ),
        ),
{
    let head = seq!['\\', '\\'] + server + seq!['\\'] + share + seq!['\\'] + dirs;
    let p = head + name;
    assert(p =~= seq!['\\', '\\'] + server + seq!['\\'] + share + seq!['\\'] + dirs + name);
    assert(head.len() > 0 && is_any_separator(head.last())) by {
        if dirs.len() > 0 {
            assert(head.last() == dirs.last());
        } else {
            assert(head.last() == '\\');
        }
    }
    assert(forall|i: int| 0 <= i < name.len() ==> !is_any_separator(#[trigger] name[i]));
    lemma_last_separator_before_name(head, name);
    assert(last_segment(p) =~= name);
    let tail = server + seq!['\\'] + share + seq!['\\'] + dirs + name;
    assert(p.skip(2) =~= tail);
    lemma_count_backslashes_concat(server, seq!['\\']);
    lemma_count_backslashes_concat(server + seq!['\\'], share);
    lemma_count_backslashes_concat(server + seq!['\\'] + share, seq!['\\']);
    lemma_count_backslashes_concat(server + seq!['\\'] + share + seq!['\\'], dirs + name);
    assert(server + seq!['\\'] + share + seq!['\\'] + (dirs + name) =~= tail);
    assert(count_backslashes(seq!['\\']) == 1) by {
        let one = seq!['\\'];
        assert(one.len() == 1);
        assert(one.last() == '\\');
        assert(one.drop_last() =~= Seq::<char>::empty());
        assert(count_backslashes(Seq::<char>::empty()) == 0);
        assert(count_backslashes(one) == count_backslashes(one.drop_last()) + 1);
    }
    assert(p[2] == server[0]);
    assert(forall|i: int| 0 <= i < name.len() ==> #[trigger] name[i] != ':');
    assert(named_everywhere(p));
    assert(!has_slash(p)) by {
        assert forall|i: int| 0 <= i < p.len() implies p[i] != '/' by {
            let a = 2 + server.len();
            let b = a + 1 + share.len();
            let c = b + 1 + dirs.len();
            if i < 2 {
            } else if i < a {
                assert(p[i] == server[i - 2]);
            } else if i == a {
            } else if i < b {
                assert(p[i] == share[i - a - 1]);
            } else if i == b {
            } else if i < c {
                assert(p[i] == dirs[i - b - 1]);
            } else {
                assert(p[i] == name[i - c]);
            }
        }
    }
}

} // verus!
