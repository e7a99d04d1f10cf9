use vstd::prelude::*;

verus! {

/// What the library knows of an installable program, as plain text.
#[verifier::ext_equal]
pub ghost struct AppInfoView {
    pub name: Seq<char>,
    pub install: bool,
    pub path: Seq<char>,
    pub ins_type: Seq<char>,
}

/// An installable program: its file name, whether the user picked it for
/// installation, where its installer lies and the installer's kind
/// (`msi` or `exe`).
#[derive(Debug, PartialEq, Eq)]
pub struct AppInfo {
    pub name: String,
    pub install: bool,
    pub path: String,
    pub ins_type: String,
}

impl View for AppInfo {
    type V = AppInfoView;

    open spec fn view(&self) -> AppInfoView {
        AppInfoView { name: self.name@, install: self.install, path: self.path@, ins_type: self.ins_type@ }
    }
}

/// The views of a sequence of programs.
pub open spec fn infos_view(s: Seq<AppInfo>) -> Seq<AppInfoView> {
    s.map_values(|a: AppInfo| a@)
}

impl Clone for AppInfo {
    fn clone(&self) -> (r: Self)
        ensures
            r@ == self@,
    {
        AppInfo {
            name: self.name.clone(),
            install: self.install,
            path: self.path.clone(),
            ins_type: self.ins_type.clone(),
        }
    }
}

/// A copy of every program of `v`, in the same order.
pub fn clone_all(v: &Vec<AppInfo>) -> (r: Vec<AppInfo>)
    ensures
        infos_view(r@) == infos_view(v@),
{
    let mut r: Vec<AppInfo> = Vec::new();
    for i in 0..v.len()
        invariant
            r@.len() == i,
            i <= v@.len(),
            forall|k: int| 0 <= k < i ==> #[trigger] r@[k]@ == v@[k]@,
    {
        r.push(v[i].clone());
    }
    assert(infos_view(r@) =~= infos_view(v@));
    r
}

} // verus!
