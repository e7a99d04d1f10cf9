use vstd::prelude::*;

use crate::text::{chars_of, join2};

verus! {

/// `sep` is the main path separator of some platform: `/` or `\`.
pub open spec fn platform_separator(sep: char) -> bool {
    sep == '/' || sep == '\\'
}

/// `c` separates path components on the platform whose main separator is
/// `sep`: `/` always, and `\` where it is the main one.
pub open spec fn is_path_separator(c: char, sep: char) -> bool {
    c == '/' || c == sep
}

/// `name` is one plain file name: not empty, without a path separator or a
/// drive colon, and neither `.` nor `..`.
pub open spec fn plain_file_name(name: Seq<char>) -> bool {
    &&& name.len() > 0
    &&& forall|i: int|
        0 <= i < name.len() ==> #[trigger] name[i] != '/' && name[i] != '\\' && name[i] != ':'
    &&& name != seq!['.']
    &&& name != seq!['.', '.']
}

/// `base` is a bare drive such as `C:`, which is a prefix of its own on the
/// platform whose main separator is `\`.
pub open spec fn bare_drive(base: Seq<char>, sep: char) -> bool {
    &&& sep == '\\'
    &&& base.len() == 2
    &&& (('a' <= base[0] && base[0] <= 'z') || ('A' <= base[0] && base[0] <= 'Z'))
    &&& base[1] == ':'
}

/// `base` starts with the verbatim prefix `\\?\` on the platform whose main
/// separator is `\`; joining onto such a folder normalizes it.
pub open spec fn verbatim_base(base: Seq<char>, sep: char) -> bool {
    &&& sep == '\\'
    &&& base.len() >= 4
    &&& base[0] == '\\'
    &&& base[1] == '\\'
    &&& base[2] == '?'
    &&& base[3] == '\\'
}

/// The folder `base` with the plain file name `name` pushed onto it: no
/// separator where `base` is empty, ends in a separator or is a bare drive,
/// else the platform's main separator `sep` between them.
pub open spec fn path_join(base: Seq<char>, name: Seq<char>, sep: char) -> Seq<char> {
    if base.len() == 0 || is_path_separator(base.last(), sep) || bare_drive(base, sep) {
        base + name
    } else {
        base + seq![sep] + name
    }
}

/// `p` starts with two separator characters, as the UNC, device and verbatim
/// prefixes of Windows do.
pub open spec fn double_lead(p: Seq<char>) -> bool {
    p.len() >= 2 && (p[0] == '/' || p[0] == '\\') && (p[1] == '/' || p[1] == '\\')
}

/// `p` has a `/` at `k` and a plain file name after it.
pub open spec fn plain_after_slash(p: Seq<char>, k: int) -> bool {
    0 <= k < p.len() && p[k] == '/' && plain_file_name(p.skip(k + 1))
}

/// `p` without its trailing `/` separators and trailing `.` components
/// after a `/`, which a path's file name ignores: `foo.txt/.//` becomes
/// `foo.txt`.
pub open spec fn trim_tail(p: Seq<char>) -> Seq<char>
    decreases p.len(),
{
    if p.len() > 0 && p.last() == '/' {
        trim_tail(p.drop_last())
    } else if p.len() >= 2 && p.last() == '.' && p[p.len() - 2] == '/' {
        trim_tail(p.drop_last())
    } else {
        p
    }
}

/// The file name of `p` once its tail is trimmed, where it is known on every
/// platform: the trimmed path itself when it is a plain file name, or the
/// plain file name after its last `/` when it starts with no two separators.
pub open spec fn known_core_name(p: Seq<char>) -> Option<Seq<char>> {
    if plain_file_name(p) {
        Some(p)
    } else if !double_lead(p) && exists|k: int| plain_after_slash(p, k) {
        Some(p.skip((choose|k: int| plain_after_slash(p, k)) + 1))
    } else {
        None
    }
}

/// The file name of the path `p` (as `std::path::Path::file_name` gives it)
/// where it is known on every platform; `None` where it is not known here.
pub open spec fn known_file_name(p: Seq<char>) -> Option<Seq<char>> {
    known_core_name(trim_tail(p))
}

/// `name` has its last `.` at `k`.
pub open spec fn last_dot_at(name: Seq<char>, k: int) -> bool {
    0 <= k < name.len() && name[k] == '.' && forall|j: int| k < j < name.len() ==> name[j] != '.'
}

/// The extension of the plain file name `name`, as `Path::extension` gives
/// it: what follows the last `.`, unless there is none or the only one
/// starts the name.
pub open spec fn name_extension(name: Seq<char>) -> Option<Seq<char>> {
    if exists|k: int| last_dot_at(name, k) {
        let k = choose|k: int| last_dot_at(name, k);
        if k == 0 {
            None
        } else {
            Some(name.skip(k + 1))
        }
    } else {
        None
    }
}

/// `std::path::MAIN_SEPARATOR`, the separator that this platform puts
/// between the components of a path. Claimed: it is `/` or `\`.
#[verifier::external_body]
pub fn main_separator() -> (sep: char)
    ensures
        platform_separator(sep),
{
    std::path::MAIN_SEPARATOR
}

/// `std::path::Path::join` of `base` and `name`, as text. Nothing is claimed
/// of the result; it is used only where the folder carries a verbatim prefix
/// (which `PathBuf::push` normalizes) or the name is no plain file name.
#[verifier::external_body]
fn std_join(base: &str, name: &str) -> (path: String) {
    std::path::Path::new(base).join(name).to_string_lossy().into_owned()
}

/// `c` is `/` or `\`, a separator on at least one platform.
pub open spec fn is_any_separator(c: char) -> bool {
    c == '/' || c == '\\'
}

/// The index of the last `/` or `\` of `p`, or -1 where it has none.
pub open spec fn last_separator_index(p: Seq<char>) -> int
    decreases p.len(),
{
    if p.len() == 0 {
        -1
    } else if is_any_separator(p.last()) {
        p.len() - 1
    } else {
        last_separator_index(p.drop_last())
    }
}

/// What follows the last `/` or `\` of `p` (all of `p` where it has none).
pub open spec fn last_segment(p: Seq<char>) -> Seq<char> {
    p.skip(last_separator_index(p) + 1)
}

/// The number of `\` in `s`.
pub open spec fn count_backslashes(s: Seq<char>) -> nat
    decreases s.len(),
{
    if s.len() == 0 {
        0
    } else {
        count_backslashes(s.drop_last()) + if s.last() == '\\' {
            1nat
        } else {
            0nat
        }
    }
}

/// `p` contains a `/`.
pub open spec fn has_slash(p: Seq<char>) -> bool {
    exists|i: int| 0 <= i < p.len() && p[i] == '/'
}

/// `p` has a file name on every platform: its last segment (after its last
/// `/` or `\`) is not empty, holds no `:` and is neither `.` nor `..`; and
/// where it starts with two separators (as Windows' UNC, device and verbatim
/// prefixes do), enough `\` follow for the last segment to lie beyond any
/// such prefix (two, or four after `\\?`).
pub open spec fn named_everywhere(p: Seq<char>) -> bool {
    let seg = last_segment(p);
    &&& seg.len() > 0
    &&& forall|i: int| 0 <= i < seg.len() ==> #[trigger] seg[i] != ':'
    &&& seg != seq!['.']
    &&& seg != seq!['.', '.']
    &&& double_lead(p) ==> count_backslashes(p.skip(2)) >= (if p.len() > 2 && p[2] == '?' {
        4nat
    } else {
        2nat
    })
}

/// Nothing after the last separator of `p` is a separator.
pub proof fn lemma_last_segment_has_no_separator(p: Seq<char>)
    ensures
        -1 <= last_separator_index(p) < p.len(),
        last_separator_index(p) >= 0 ==> is_any_separator(p[last_separator_index(p)]),
        forall|i: int| last_separator_index(p) < i < p.len() ==> !is_any_separator(#[trigger] p[i]),
    decreases p.len(),
{
    if p.len() > 0 && !is_any_separator(p.last()) {
        lemma_last_segment_has_no_separator(p.drop_last());
        assert forall|i: int| last_separator_index(p) < i < p.len() implies !is_any_separator(#[trigger] p[i]) by {
            if i < p.len() - 1 {
                assert(p[i] == p.drop_last()[i]);
            }
        }
    }
}

/// The last segment of a path named on every platform is a plain file name;
/// a path without separators is its own last segment.
pub proof fn lemma_named_segment_plain(p: Seq<char>)
    ensures
        named_everywhere(p) ==> plain_file_name(last_segment(p)),
        (forall|i: int| 0 <= i < p.len() ==> !is_any_separator(#[trigger] p[i])) ==> last_segment(p) == p,
{
    lemma_last_segment_has_no_separator(p);
    let k = last_separator_index(p);
    let seg = last_segment(p);
    assert forall|i: int| 0 <= i < seg.len() implies !is_any_separator(#[trigger] seg[i]) by {
        assert(seg[i] == p[k + 1 + i]);
    }
    if forall|i: int| 0 <= i < p.len() ==> !is_any_separator(#[trigger] p[i]) {
        if k >= 0 {
            assert(is_any_separator(p[k]));
        }
        assert(seg =~= p);
    }
}

/// `std::path::Path::file_name` of `path`, as text. Claimed, from its
/// documentation and the parsing of components on Unix and on Windows:
/// where `known_file_name` gives a name, the call returns that name; where
/// the path is `named_everywhere`, the call returns a name; and where such a
/// path has no `/`, that name is the whole path (Unix, where `\` separates
/// nothing) or its last segment (Windows).
#[verifier::external_body]
pub(crate) fn file_name_of(path: &str) -> (name: Option<String>)
    ensures
        known_file_name(path@) is Some ==> (name is Some && name.unwrap()@ == known_file_name(
            path@,
        ).unwrap()),
        named_everywhere(path@) ==> name is Some,
        named_everywhere(path@) && !has_slash(path@) ==> (name is Some && (name.unwrap()@ == path@
            || name.unwrap()@ == last_segment(path@))),
{
    std::path::Path::new(path).file_name().map(|n| n.to_string_lossy().into_owned())
}

/// The index of the last `/` or `\` of `cs`, or `None` where it has none.
fn last_separator_in(cs: &Vec<char>) -> (k: Option<usize>)
    ensures
        match k {
            Some(i) => i == last_separator_index(cs@) && i < cs@.len(),
            None => last_separator_index(cs@) == -1,
        },
{
    let n = cs.len();
    let mut i = n;
    assert(cs@.take(n as int) =~= cs@);
    while i > 0
        invariant
            i <= n,
            n == cs@.len(),
            last_separator_index(cs@) == last_separator_index(cs@.take(i as int)),
        decreases i,
    {
        assert(cs@.take(i as int).drop_last() =~= cs@.take(i - 1));
        if cs[i - 1] == '/' || cs[i - 1] == '\\' {
            return Some(i - 1);
        }
        i = i - 1;
    }
    assert(cs@.take(0) =~= Seq::<char>::empty());
    None
}

/// The number of `\` in `cs` from index `from` on.
fn backslashes_from(cs: &Vec<char>, from: usize) -> (c: usize)
    requires
        from <= cs@.len(),
    ensures
        c == count_backslashes(cs@.skip(from as int)),
{
    let n = cs.len();
    let mut c: usize = 0;
    let mut j = from;
    while j < n
        invariant
            from <= j <= n,
            n == cs@.len(),
            c <= j - from,
            c == count_backslashes(cs@.skip(from as int).take(j - from)),
        decreases n - j,
    {
        assert(cs@.skip(from as int).take(j + 1 - from).drop_last() =~= cs@.skip(from as int).take(j - from));
        if cs[j] == '\\' {
            c = c + 1;
        }
        j = j + 1;
    }
    assert(cs@.skip(from as int).take(n - from) =~= cs@.skip(from as int));
    c
}

/// Whether `p` has a file name on every platform (`named_everywhere`), and
/// its last segment.
pub fn named_everywhere_check(p: &str) -> (r: (bool, String))
    ensures
        r.0 == named_everywhere(p@),
        r.1@ == last_segment(p@),
{
    let cs = chars_of(p);
    let n = cs.len();
    let start: usize = match last_separator_in(&cs) {
        Some(k) => k + 1,
        None => 0,
    };
    assert(start == last_separator_index(p@) + 1);
    let seg = String::from_str(p.substring_char(start, n));
    assert(seg@ =~= last_segment(p@));
    let ghost sg = last_segment(p@);
    if start >= n {
        return (false, seg);
    }
    let mut j = start;
    while j < n
        invariant
            start <= j <= n,
            n == cs@.len(),
            cs@ == p@,
            sg == p@.skip(start as int),
            sg == last_segment(p@),
            seg@ == sg,
            sg.len() == n - start,
            forall|i: int| 0 <= i < j - start ==> #[trigger] sg[i] != ':',
        decreases n - j,
    {
        if cs[j] == ':' {
            assert(sg[j - start] == ':');
            return (false, seg);
        }
        j = j + 1;
    }
    if n - start == 1 && cs[start] == '.' {
        assert(sg =~= seq!['.']);
        return (false, seg);
    }
    if n - start == 2 && cs[start] == '.' && cs[start + 1] == '.' {
        assert(sg =~= seq!['.', '.']);
        return (false, seg);
    }
    assert(forall|i: int| 0 <= i < sg.len() ==> #[trigger] sg[i] != ':');
    assert(sg[0] == cs@[start as int]);
    assert(sg.len() >= 2 ==> sg[1] == cs@[start + 1]);
    assert(sg != seq!['.']) by {
        if sg.len() == 1 {
            assert(cs@[start as int] != '.');
            assert(seq!['.'][0] == '.');
        }
    }
    assert(sg != seq!['.', '.']) by {
        if sg.len() == 2 {
            assert(cs@[start as int] != '.' || cs@[start + 1] != '.');
            assert(seq!['.', '.'][0] == '.');
            assert(seq!['.', '.'][1] == '.');
        }
    }
    if n >= 2 && (cs[0] == '/' || cs[0] == '\\') && (cs[1] == '/' || cs[1] == '\\') {
        let need: usize = if n > 2 && cs[2] == '?' { 4 } else { 2 };
        let count = backslashes_from(&cs, 2);
        if count < need {
            assert(double_lead(p@));
            return (false, seg);
        }
        assert(count_backslashes(p@.skip(2)) >= (if p@.len() > 2 && p@[2] == '?' { 4nat } else { 2nat }));
    } else {
        assert(!double_lead(p@));
    }
    (true, seg)
}

/// Whether `p` contains a `/`.
pub fn has_slash_check(p: &str) -> (r: bool)
    ensures
        r == has_slash(p@),
{
    let cs = chars_of(p);
    for j in 0..cs.len()
        invariant
            cs@ == p@,
            forall|i: int| 0 <= i < j ==> cs@[i] != '/',
    {
        if cs[j] == '/' {
            return true;
        }
    }
    false
}

/// `std::path::Path::extension` of `path`, as text. Nothing is claimed of
/// the result; it is used only for names whose file name is not known here.
#[verifier::external_body]
pub(crate) fn std_extension(path: &str) -> (ext: Option<String>) {
    std::path::Path::new(path).extension().map(|e| e.to_string_lossy().into_owned())
}

/// The extension of the file name `name`, by the rule of `name_extension`.
pub fn extension_of_name(name: &str) -> (ext: Option<String>)
    ensures
        match ext {
            Some(e) => name_extension(name@) == Some(e@),
            None => name_extension(name@) is None,
        },
{
    let cs = chars_of(name);
    let n = cs.len();
    let mut i = n;
    while i > 0
        invariant
            cs@ == name@,
            n == cs@.len(),
            i <= n,
            forall|j: int| i <= j < n ==> cs@[j] != '.',
        decreases i,
    {
        if cs[i - 1] == '.' {
            let k = i - 1;
            assert(last_dot_at(name@, k as int));
            proof {
                assert forall|m: int| last_dot_at(name@, m) implies m == k by {
                    if m < k {
                        assert(name@[k as int] == '.');
                    }
                }
            }
            if k == 0 {
                return None;
            }
            let e = String::from_str(name.substring_char(k + 1, n));
            assert(e@ =~= name@.skip(k + 1));
            return Some(e);
        }
        i = i - 1;
    }
    assert(!exists|k: int| last_dot_at(name@, k));
    None
}

/// Whether `base` starts with a verbatim prefix on the platform whose main
/// separator is `sep`.
pub fn is_verbatim_base(base: &str, sep: char) -> (verbatim: bool)
    ensures
        verbatim == verbatim_base(base@, sep),
{
    let bs = chars_of(base);
    sep == '\\' && bs.len() >= 4 && bs[0] == '\\' && bs[1] == '\\' && bs[2] == '?' && bs[3] == '\\'
}

/// Whether `name` is a plain file name.
pub fn is_plain_file_name(name: &str) -> (plain: bool)
    ensures
        plain == plain_file_name(name@),
{
    let cs = chars_of(name);
    let n = cs.len();
    if n == 0 {
        return false;
    }
    for i in 0..n
        invariant
            cs@ == name@,
            n == cs@.len(),
            forall|k: int| 0 <= k < i ==> #[trigger] cs@[k] != '/' && cs@[k] != '\\' && cs@[k] != ':',
    {
        let c = cs[i];
        if c == '/' || c == '\\' || c == ':' {
            assert(name@[i as int] == c);
            return false;
        }
    }
    if n == 1 && cs[0] == '.' {
        assert(name@ =~= seq!['.']);
        return false;
    }
    if n == 2 && cs[0] == '.' && cs[1] == '.' {
        assert(name@ =~= seq!['.', '.']);
        return false;
    }
    true
}

/// `name` pushed onto the folder `base` on the platform whose main separator
/// is `sep`, by the rule of `path_join`.
pub fn join_with(base: &str, name: &str, sep: char) -> (path: String)
    requires
        platform_separator(sep),
    ensures
        path@ == path_join(base@, name@, sep),
{
    let cs = chars_of(base);
    let n = cs.len();
    let mut bare = false;
    if n == 0 {
        return join2(base, name);
    }
    let last = cs[n - 1];
    if sep == '\\' && n == 2 && cs[1] == ':' {
        let d = cs[0];
        bare = ('a' <= d && d <= 'z') || ('A' <= d && d <= 'Z');
    }
    if last == '/' || last == sep || bare {
        join2(base, name)
    } else {
        let mut s = String::new();
        s.append(base);
        if sep == '/' {
            proof {
                reveal_strlit("/");
            }
            s.append("/");
        } else {
            proof {
                reveal_strlit("\\");
            }
            s.append("\\");
        }
        s.append(name);
        s
    }
}

/// `name` placed in the folder `base` as `PathBuf::push` places it on the
/// platform whose main separator is `sep`: by `path_join` where `name` is a
/// plain file name and `base` has no verbatim prefix; otherwise by the
/// standard library.
pub fn place_in(base: &str, name: &str, sep: char) -> (path: String)
    requires
        platform_separator(sep),
    ensures
        !verbatim_base(base@, sep) && plain_file_name(name@) ==> path@ == path_join(
            base@,
            name@,
            sep,
        ),
{
    if !is_verbatim_base(base, sep) && is_plain_file_name(name) {
        join_with(base, name, sep)
    } else {
        std_join(base, name)
    }
}

} // verus!
