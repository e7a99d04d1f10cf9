use vstd::prelude::*;

use crate::app_info::{clone_all, infos_view, AppInfo, AppInfoView};
use crate::text::{contains_text, has_infix};

verus! {

/// The programs of `s` whose name contains `needle`, in their order in `s`.
pub open spec fn matching(s: Seq<AppInfoView>, needle: Seq<char>) -> Seq<AppInfoView>
    decreases s.len(),
{
    if s.len() == 0 {
        Seq::empty()
    } else {
        let rest = matching(s.drop_last(), needle);
        if has_infix(s.last().name, needle) {
            rest.push(s.last())
        } else {
            rest
        }
    }
}

/// `s` after each program of `items` was pushed onto it, in order.
pub open spec fn pushed_all(s: Seq<AppInfoView>, items: Seq<AppInfoView>) -> Seq<AppInfoView>
    decreases items.len(),
{
    if items.len() == 0 {
        s
    } else {
        pushed_all(s, items.drop_last()).push(items.last())
    }
}

/// A store of the programs that can be offered for installation.
pub struct Deposit {
    content: Vec<AppInfo>,
}

impl View for Deposit {
    type V = Seq<AppInfoView>;

    closed spec fn view(&self) -> Seq<AppInfoView> {
        infos_view(self.content@)
    }
}

impl Deposit {
    /// A deposit that holds `content`.
    pub fn from(content: Vec<AppInfo>) -> (d: Deposit)
        ensures
            d@ == infos_view(content@),
    {
        Deposit { content }
    }

    /// Adds `object` after the programs already held.
    pub fn push(&mut self, object: AppInfo)
        ensures
            final(self)@ == old(self)@.push(object@),
    {
        self.content.push(object);
        assert(infos_view(self.content@) =~= old(self)@.push(object@));
    }

    /// Copies of the held programs whose name contains `name`, in the order held.
    pub fn search(&self, name: &str) -> (found: Vec<AppInfo>)
        ensures
            infos_view(found@) == matching(self@, name@),
    {
        let mut found: Vec<AppInfo> = Vec::new();
        let ghost all = self@;
        for i in 0..self.content.len()
            invariant
                all == infos_view(self.content@),
                i <= all.len(),
                infos_view(found@) == matching(all.take(i as int), name@),
        {
            assert(all.take(i + 1).drop_last() =~= all.take(i as int));
            if contains_text(self.content[i].name.as_str(), name) {
                let copy = self.content[i].clone();
                found.push(copy);
                assert(infos_view(found@) =~= matching(all.take(i as int), name@).push(all[i as int]));
            }
        }
        assert(all.take(all.len() as int) =~= all);
        found
    }

    /// Copies of all held programs, in the order held.
    pub fn get_all(&self) -> (all: Vec<AppInfo>)
        ensures
            infos_view(all@) == self@,
    {
        clone_all(&self.content)
    }

    /// Drops the held programs and holds `new_content` instead.
    pub fn replace(&mut self, new_content: Vec<AppInfo>)
        ensures
            final(self)@ == infos_view(new_content@),
    {
        self.content = new_content;
    }
}

/// The programs to show: those of `online` where the internet can be reached,
/// else those of `local`.
pub fn get_programs(online: &Deposit, local: &Deposit, internet_available: bool) -> (apps: Vec<
    AppInfo,
>)
    ensures
        infos_view(apps@) == (if internet_available {
            online@
        } else {
            local@
        }),
{
    if internet_available {
        online.get_all()
    } else {
        local.get_all()
    }
}

} // verus!
