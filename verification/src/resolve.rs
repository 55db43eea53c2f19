//! Choosing among candidate locations that were probed in a fixed order: the
//! first one that exists wins.

use crate::text;
use vstd::prelude::*;

verus! {

/// A candidate location and whether something exists there.
#[derive(Debug, Clone, PartialEq, Eq)]
pub struct Probe {
    pub path: String,
    pub exists: bool,
}

/// The mathematical content of a [`Probe`].
pub struct ProbeModel {
    pub path: Seq<char>,
    pub exists: bool,
}

impl View for Probe {
    type V = ProbeModel;

    open spec fn view(&self) -> ProbeModel {
        ProbeModel { path: self.path@, exists: self.exists }
    }
}

/// The probes of a list, each by its content.
pub open spec fn probes(list: Seq<Probe>) -> Seq<ProbeModel> {
    list.map_values(|p: Probe| p@)
}

/// `at` is the index of the first probe that found something.
pub open spec fn is_first_hit(list: Seq<ProbeModel>, at: int) -> bool {
    &&& 0 <= at < list.len()
    &&& list[at].exists
    &&& forall|j: int| 0 <= j < at ==> !(#[trigger] list[j]).exists
}

/// No probe found anything.
pub open spec fn all_missed(list: Seq<ProbeModel>) -> bool {
    forall|j: int| 0 <= j < list.len() ==> !(#[trigger] list[j]).exists
}

/// The location that the probes settle on: the path of the first probe that
/// found something.
pub open spec fn first_existing(list: Seq<ProbeModel>) -> Option<Seq<char>>
    decreases list.len(),
{
    if list.len() == 0 {
        None
    } else if list[0].exists {
        Some(list[0].path)
    } else {
        first_existing(list.drop_first())
    }
}

/// `first_existing` is the path of the first hit, and `None` exactly where
/// every probe missed.
pub proof fn lemma_first_existing(list: Seq<ProbeModel>)
    ensures
        match first_existing(list) {
            Some(path) => exists|at: int| is_first_hit(list, at) && list[at].path == path,
            None => all_missed(list),
        },
    decreases list.len(),
{
    if list.len() > 0 {
        if list[0].exists {
            assert(is_first_hit(list, 0));
        } else {
            let rest = list.drop_first();
            lemma_first_existing(rest);
            match first_existing(rest) {
                Some(path) => {
                    let at = choose|at: int| is_first_hit(rest, at) && rest[at].path == path;
                    assert forall|j: int| 0 <= j < at + 1 implies !(#[trigger] list[j]).exists by {
                        if j > 0 {
                            assert(list[j] == rest[j - 1]);
                        }
                    }
                    assert(is_first_hit(list, at + 1));
                },
                None => {
                    assert forall|j: int| 0 <= j < list.len() implies !(#[trigger] list[j]).exists
                    by {
                        if j > 0 {
                            assert(list[j] == rest[j - 1]);
                        }
                    }
                },
            }
        }
    }
}

/// The index of the first probe that found something.
pub fn first_hit(list: &Vec<Probe>) -> (r: Option<usize>)
    ensures
        match r {
            Some(at) => is_first_hit(probes(list@), at as int) && first_existing(probes(list@))
                == Some(list@[at as int].path@),
            None => all_missed(probes(list@)) && first_existing(probes(list@)).is_none(),
        },
{
    let ghost all = probes(list@);
    let mut i: usize = 0;
    proof {
        assert(all.skip(0) =~= all);
    }
    while i < list.len()
        invariant
            i <= list.len(),
            all == probes(list@),
            forall|j: int| 0 <= j < i ==> !(#[trigger] all[j]).exists,
            first_existing(all) == first_existing(all.skip(i as int)),
        decreases list.len() - i,
    {
        proof {
            assert(all.skip(i as int).drop_first() =~= all.skip(i + 1));
        }
        if list[i].exists {
            return Some(i);
        }
        i += 1;
    }
    None
}

/// The location that the probes settle on.
pub fn choose_existing(list: &Vec<Probe>) -> (r: Option<String>)
    ensures
        match r {
            Some(path) => first_existing(probes(list@)) == Some(path@),
            None => first_existing(probes(list@)).is_none(),
        },
{
    match first_hit(list) {
        Some(at) => Some(list[at].path.clone()),
        None => None,
    }
}

/// What separates the places in a list of places tried.
pub const BULLET: &'static str = "\n  - ";

/// The paths of the probes, in order, each on a line of its own behind a
/// bullet, the first without the line break.
pub open spec fn listed(list: Seq<ProbeModel>) -> Seq<char>
    decreases list.len(),
{
    if list.len() == 0 {
        Seq::empty()
    } else if list.len() == 1 {
        list[0].path
    } else {
        listed(list.drop_last()) + BULLET@ + list.last().path
    }
}

/// The list of places tried holds the path of every probe.
pub proof fn lemma_listed_holds_each_path(list: Seq<ProbeModel>, i: int)
    requires
        0 <= i < list.len(),
    ensures
        text::contains(listed(list), list[i].path),
    decreases list.len(),
{
    let path = list[i].path;
    assert(path.subrange(0, path.len() as int) =~= path);
    assert(text::occurs_at(path, path, 0));
    if list.len() > 1 {
        let front = list.drop_last();
        if i < front.len() {
            lemma_listed_holds_each_path(front, i);
            text::lemma_contains_in_front(listed(front), BULLET@ + list.last().path, path);
            assert(listed(list) =~= listed(front) + (BULLET@ + list.last().path));
        } else {
            text::lemma_contains_behind(listed(front) + BULLET@, path, path);
        }
    }
}

/// Appends the list of the places tried to a text.
pub fn push_listed(out: &mut String, list: &Vec<Probe>)
    ensures
        final(out)@ == old(out)@ + listed(probes(list@)),
{
    let ghost all = probes(list@);
    let mut i: usize = 0;
    assert(all.take(0).len() == 0);
    assert(out@ =~= old(out)@ + listed(all.take(0)));
    while i < list.len()
        invariant
            i <= list.len(),
            all == probes(list@),
            out@ == old(out)@ + listed(all.take(i as int)),
        decreases list.len() - i,
    {
        proof {
            assert(all[i as int] == list@[i as int]@);
            assert(all.take(i + 1).drop_last() =~= all.take(i as int));
            assert(all.take(i + 1).last() == all[i as int]);
        }
        if i > 0 {
            out.append(BULLET);
        }
        out.append(list[i].path.as_str());
        assert(out@ =~= old(out)@ + listed(all.take(i + 1)));
        i += 1;
    }
    assert(all.take(i as int) =~= all);
}

} // verus!
