//! The deployment targets that are installed as plugin executables.

use crate::text;
use vstd::prelude::*;

verus! {

/// The end of the file name of a target's executable.
pub const TARGET_SUFFIX: &'static str = "-x86_64-pc-windows-msvc.exe";

/// An installed target.
#[derive(Debug, Clone, PartialEq, Eq)]
pub struct TargetEntry {
    pub file_name: String,
    pub target_name: String,
    pub size: u64,
    pub path: String,
}

/// The mathematical content of a [`TargetEntry`].
pub struct TargetModel {
    pub file_name: Seq<char>,
    pub target_name: Seq<char>,
    pub size: u64,
    pub path: Seq<char>,
}

impl View for TargetEntry {
    type V = TargetModel;

    open spec fn view(&self) -> TargetModel {
        TargetModel {
            file_name: self.file_name@,
            target_name: self.target_name@,
            size: self.size,
            path: self.path@,
        }
    }
}

/// What a directory holds under one name.
#[derive(Debug, Clone, PartialEq, Eq)]
pub struct DirItem {
    pub file_name: String,
    pub path: String,
    pub size: u64,
    pub is_file: bool,
}

/// The mathematical content of a [`DirItem`].
pub struct DirItemModel {
    pub file_name: Seq<char>,
    pub path: Seq<char>,
    pub size: u64,
    pub is_file: bool,
}

impl View for DirItem {
    type V = DirItemModel;

    open spec fn view(&self) -> DirItemModel {
        DirItemModel {
            file_name: self.file_name@,
            path: self.path@,
            size: self.size,
            is_file: self.is_file,
        }
    }
}

/// A file name without the target suffix, if it ends with the suffix.
pub open spec fn stem(file_name: Seq<char>) -> Option<Seq<char>> {
    if text::has_suffix(file_name, TARGET_SUFFIX@) {
        Some(file_name.subrange(0, file_name.len() - TARGET_SUFFIX@.len()))
    } else {
        None
    }
}

/// The file name without the target suffix, if it ends with the suffix.
pub fn strip_suffix(file_name: &str) -> (r: Option<&str>)
    ensures
        match r {
            Some(s) => stem(file_name@) == Some(s@),
            None => stem(file_name@).is_none(),
        },
{
    if text::ends_with(file_name, TARGET_SUFFIX) {
        let len = file_name.unicode_len();
        let cut = TARGET_SUFFIX.unicode_len();
        Some(file_name.substring_char(0, len - cut))
    } else {
        None
    }
}

/// A directory item is a target when it is a file whose name ends with the
/// target suffix.
pub open spec fn is_target(item: DirItemModel) -> bool {
    item.is_file && text::has_suffix(item.file_name, TARGET_SUFFIX@)
}

/// The target that a directory item stands for.
pub open spec fn target_of(item: DirItemModel) -> TargetModel {
    TargetModel {
        file_name: item.file_name,
        target_name: match stem(item.file_name) {
            Some(s) => s,
            None => Seq::empty(),
        },
        size: item.size,
        path: item.path,
    }
}

/// The items of a directory, each by its content.
pub open spec fn items(list: Seq<DirItem>) -> Seq<DirItemModel> {
    list.map_values(|i: DirItem| i@)
}

/// The targets of a list, each by its content.
pub open spec fn targets(list: Seq<TargetEntry>) -> Seq<TargetModel> {
    list.map_values(|t: TargetEntry| t@)
}

/// The targets among the items of a directory, in the order of the items.
pub open spec fn targets_among(dir: Seq<DirItemModel>) -> Seq<TargetModel> {
    dir.filter(|i: DirItemModel| is_target(i)).map_values(|i: DirItemModel| target_of(i))
}

/// The targets among the items of the plugin directory.
pub fn list_targets(dir: Vec<DirItem>) -> (r: Vec<TargetEntry>)
    ensures
        targets(r@) == targets_among(items(dir@)),
{
    let mut out: Vec<TargetEntry> = Vec::new();
    let mut dir = dir;
    let ghost all = items(dir@);
    let ghost pred = |i: DirItemModel| is_target(i);
    let ghost conv = |i: DirItemModel| target_of(i);
    let mut seen: Ghost<int> = Ghost(0);
    proof {
        assert(items(dir@) =~= all.skip(0));
    }
    while dir.len() > 0
        invariant
            0 <= seen@ <= all.len(),
            dir@.len() == all.len() - seen@,
            items(dir@) == all.skip(seen@),
            pred == |i: DirItemModel| is_target(i),
            conv == |i: DirItemModel| target_of(i),
            targets(out@) == all.take(seen@).filter(pred).map_values(conv),
        decreases dir.len(),
    {
        proof {
            assert(items(dir@)[0] == dir@[0]@);
        }
        let item = dir.remove(0);
        proof {
            assert(items(dir@) =~= all.skip(seen@).drop_first());
            assert(all.take(seen@ + 1) =~= all.take(seen@).push(item@));
            all.take(seen@).lemma_filter_push(item@, pred);
        }
        let ghost before = targets(out@);
        if item.is_file {
            let found = match strip_suffix(item.file_name.as_str()) {
                Some(s) => Some(text::owned(s)),
                None => None,
            };
            match found {
                Some(target_name) => {
                    out.push(
                        TargetEntry {
                            file_name: item.file_name,
                            target_name,
                            size: item.size,
                            path: item.path,
                        },
                    );
                    assert(targets(out@) =~= before.push(target_of(item@)));
                },
                None => {},
            }
        }
        proof {
            seen@ = seen@ + 1;
        }
    }
    out
}

} // verus!
