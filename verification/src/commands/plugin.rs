//! Running a plugin executable: where it lies, what it is started with, and
//! what its run amounts to.

use crate::commands::plugin_check::items;
use crate::commands::plugin_check::DirItem;
use crate::commands::plugin_check::DirItemModel;
use crate::json;
use crate::json::JsonModel;
use crate::resolve;
use crate::text;
use vstd::prelude::*;

verus! {

pub const FLAG_CONFIG: &'static str = "--config";

pub const FLAG_OUTPUT: &'static str = "--output";

pub const FIELD_OUTPUT: &'static str = "output";

pub const MSG_EXIT: &'static str = "exit ";

pub const MSG_SEPARATOR: &'static str = ": ";

pub const MSG_SILENT: &'static str = "(no stderr / no stdout)";

pub const MSG_SPAWN_HEAD: &'static str = "spawn failed (";

pub const MSG_SPAWN_MID: &'static str = "): ";

pub const MSG_NOT_FOUND_HEAD: &'static str = "Plugin executable not found for '";

pub const MSG_NOT_FOUND_MID: &'static str = "'. Tried:\n  - ";

pub const MSG_BULLET: &'static str = "\n  - ";

/// How a plugin is to be run.
#[derive(Debug, Clone, PartialEq)]
pub enum PluginRunArgs {
    /// With these command-line arguments.
    Cli { args: Vec<String> },
    /// With a configuration file and, optionally, an output file.
    Config { config_path: String, output: Option<String> },
    /// With a JSON document on its standard input.
    Stdin { json: serde_json::Value },
}

/// The mathematical content of a [`PluginRunArgs`].
pub enum RunArgsModel {
    Cli { args: Seq<Seq<char>> },
    Config { config_path: Seq<char>, output: Option<Seq<char>> },
    Stdin { json: JsonModel },
}

impl View for PluginRunArgs {
    type V = RunArgsModel;

    open spec fn view(&self) -> RunArgsModel {
        match self {
            PluginRunArgs::Cli { args } => RunArgsModel::Cli { args: text::texts(args@) },
            PluginRunArgs::Config { config_path, output } => RunArgsModel::Config {
                config_path: config_path@,
                output: match output {
                    Some(o) => Some(o@),
                    None => None,
                },
            },
            PluginRunArgs::Stdin { json } => RunArgsModel::Stdin { json: json::json_model(*json) },
        }
    }
}

/// The command-line arguments that a way of running a plugin asks for.
pub open spec fn arguments(params: RunArgsModel) -> Seq<Seq<char>> {
    match params {
        RunArgsModel::Cli { args } => args,
        RunArgsModel::Config { config_path, output } => match output {
            Some(out) => seq![FLAG_CONFIG@, config_path, FLAG_OUTPUT@, out],
            None => seq![FLAG_CONFIG@, config_path],
        },
        RunArgsModel::Stdin { json } => match json::text_member(json, FIELD_OUTPUT@) {
            Some(out) => seq![FLAG_OUTPUT@, out],
            None => seq![],
        },
    }
}

/// Whether the plugin is fed a document on its standard input.
pub open spec fn feeds_stdin(params: RunArgsModel) -> bool {
    params is Stdin
}

fn copy_texts(list: &Vec<String>) -> (r: Vec<String>)
    ensures
        text::texts(r@) == text::texts(list@),
{
    let mut out: Vec<String> = Vec::new();
    let mut i: usize = 0;
    while i < list.len()
        invariant
            i <= list.len(),
            text::texts(out@) == text::texts(list@).take(i as int),
        decreases list.len() - i,
    {
        let ghost before = text::texts(out@);
        let item = list[i].clone();
        out.push(item);
        assert(text::texts(out@) =~= before.push(item@));
        i += 1;
    }
    out
}

/// The command-line arguments with which to start a plugin.
pub fn plugin_arguments(params: &PluginRunArgs) -> (r: Vec<String>)
    ensures
        text::texts(r@) == arguments(params@),
{
    match params {
        PluginRunArgs::Cli { args } => copy_texts(args),
        PluginRunArgs::Config { config_path, output } => {
            let mut out: Vec<String> = Vec::new();
            out.push(text::owned(FLAG_CONFIG));
            out.push(config_path.clone());
            match output {
                Some(file) => {
                    out.push(text::owned(FLAG_OUTPUT));
                    out.push(file.clone());
                },
                None => {},
            }
            out
        },
        PluginRunArgs::Stdin { json } => {
            let mut out: Vec<String> = Vec::new();
            match json::member_text(json, FIELD_OUTPUT) {
                Some(file) => {
                    out.push(text::owned(FLAG_OUTPUT));
                    out.push(file);
                },
                None => {},
            }
            out
        },
    }
}

/// What a plugin's run amounts to: its trimmed output on success; otherwise
/// the exit code, shown as -1 where there is none, with the trimmed error
/// output, or the trimmed output where that is empty, or a note that the
/// plugin said nothing.
pub open spec fn collected(
    success: bool,
    code: Option<i32>,
    stdout: Seq<char>,
    stderr: Seq<char>,
) -> Result<Seq<char>, Seq<char>> {
    let out = text::trimmed(stdout);
    let err = text::trimmed(stderr);
    if success {
        Ok(out)
    } else {
        let shown = match code {
            Some(c) => c as int,
            None => -1,
        };
        let detail = if err.len() > 0 {
            err
        } else if out.len() > 0 {
            out
        } else {
            MSG_SILENT@
        };
        Err(MSG_EXIT@ + text::decimal(shown) + MSG_SEPARATOR@ + detail)
    }
}

/// Sums up the run of a plugin from its exit status and its output.
pub fn collect_output(success: bool, code: Option<i32>, stdout: &str, stderr: &str) -> (r: Result<
    String,
    String,
>)
    ensures
        text::result_text(r) == collected(success, code, stdout@, stderr@),
{
    let out = text::trim(stdout);
    let err = text::trim(stderr);
    if success {
        return Ok(text::owned(out));
    }
    let shown: i32 = match code {
        Some(c) => c,
        None => -1,
    };
    let mut message = text::owned(MSG_EXIT);
    text::push_decimal(&mut message, shown as i64);
    message.append(MSG_SEPARATOR);
    if err.unicode_len() > 0 {
        message.append(err);
    } else if out.unicode_len() > 0 {
        message.append(out);
    } else {
        message.append(MSG_SILENT);
    }
    Err(message)
}

/// What is reported when a plugin could not be started.
pub fn spawn_failure(what: &str, reason: &str) -> (r: String)
    ensures
        r@ == MSG_SPAWN_HEAD@ + what@ + MSG_SPAWN_MID@ + reason@,
{
    let mut message = text::join(MSG_SPAWN_HEAD, what);
    message.append(MSG_SPAWN_MID);
    message.append(reason);
    message
}

/// The file name has the extension `exe`, in any letter case: it ends with a
/// dot and the three letters, and something stands before the dot.
pub open spec fn is_exe_name(name: Seq<char>) -> bool {
    let n = name.len() as int;
    &&& n > 4
    &&& name[n - 4] == '.'
    &&& (name[n - 3] == 'e' || name[n - 3] == 'E')
    &&& (name[n - 2] == 'x' || name[n - 2] == 'X')
    &&& (name[n - 1] == 'e' || name[n - 1] == 'E')
}

/// Whether the file name has the extension `exe`, in any letter case.
pub fn is_exe_file_name(file_name: &str) -> (r: bool)
    ensures
        r == is_exe_name(file_name@),
{
    let name = text::chars_of(file_name);
    let n = name.len();
    n > 4 && name[n - 4] == '.' && (name[n - 3] == 'e' || name[n - 3] == 'E') && (name[n - 2] == 'x'
        || name[n - 2] == 'X') && (name[n - 1] == 'e' || name[n - 1] == 'E')
}

/// A directory item is a candidate executable when it is a regular file
/// whose name has the extension `exe`.
pub open spec fn is_executable(item: DirItemModel) -> bool {
    item.is_file && is_exe_name(item.file_name)
}

/// The paths of the candidate executables among the items of a directory, in
/// the order of the items.
pub open spec fn executables_among(dir: Seq<DirItemModel>) -> Seq<Seq<char>> {
    dir.filter(|i: DirItemModel| is_executable(i)).map_values(|i: DirItemModel| i.path)
}

/// The paths of the candidate executables among the items of a plugin's
/// directory.
pub fn executables_in(dir: Vec<DirItem>) -> (r: Vec<String>)
    ensures
        text::texts(r@) == executables_among(items(dir@)),
{
    let ghost all = items(dir@);
    let ghost pred = |i: DirItemModel| is_executable(i);
    let ghost conv = |i: DirItemModel| i.path;
    let mut dir = dir;
    let mut out: Vec<String> = Vec::new();
    let mut seen: Ghost<int> = Ghost(0);
    proof {
        assert(items(dir@) =~= all.skip(0));
        assert(all.take(0) =~= Seq::<DirItemModel>::empty());
        reveal(Seq::filter);
        assert(text::texts(out@) =~= all.take(0).filter(pred).map_values(conv));
    }
    while dir.len() > 0
        invariant
            0 <= seen@ <= all.len(),
            dir@.len() == all.len() - seen@,
            items(dir@) == all.skip(seen@),
            pred == |i: DirItemModel| is_executable(i),
            conv == |i: DirItemModel| i.path,
            text::texts(out@) == all.take(seen@).filter(pred).map_values(conv),
        decreases dir.len(),
    {
        proof {
            assert(items(dir@)[0] == dir@[0]@);
        }
        let item = dir.remove(0);
        proof {
            assert(items(dir@) =~= all.skip(seen@).drop_first());
            assert(all.take(seen@ + 1) =~= all.take(seen@).push(item@));
            all.take(seen@).lemma_filter_push(item@, pred);
        }
        let ghost before = text::texts(out@);
        if item.is_file && is_exe_file_name(item.file_name.as_str()) {
            out.push(item.path);
            assert(text::texts(out@) =~= before.push(item@.path));
        }
        proof {
            seen@ = seen@ + 1;
        }
    }
    out
}

/// The executable to run among those found in a plugin's directory: the only
/// one where there is just one; among several, the one named after the
/// plugin, if it exists.
pub open spec fn picked(found: Seq<Seq<char>>, wanted: resolve::ProbeModel) -> Option<Seq<char>> {
    if found.len() == 0 {
        None
    } else if found.len() == 1 {
        Some(found[0])
    } else if wanted.exists {
        Some(wanted.path)
    } else {
        None
    }
}

/// Picks the executable to run among those found in a plugin's directory.
/// `wanted` is the file named after the plugin and whether it exists.
pub fn pick_exe_in_dir(found: Vec<String>, wanted: resolve::Probe) -> (r: Option<String>)
    ensures
        text::optional_text(r) == picked(text::texts(found@), wanted@),
{
    let mut found = found;
    if found.len() == 0 {
        return None;
    }
    if found.len() == 1 {
        return found.pop();
    }
    if wanted.exists {
        Some(wanted.path)
    } else {
        None
    }
}

/// A place at which a plugin's executable was looked for: how the place is
/// described to the user, and the executable found there, if any.
#[derive(Debug, Clone, PartialEq, Eq)]
pub struct Attempt {
    pub label: String,
    pub found: Option<String>,
}

/// The mathematical content of an [`Attempt`].
pub struct AttemptModel {
    pub label: Seq<char>,
    pub found: Option<Seq<char>>,
}

impl View for Attempt {
    type V = AttemptModel;

    open spec fn view(&self) -> AttemptModel {
        AttemptModel { label: self.label@, found: text::optional_text(self.found) }
    }
}

/// The attempts of a list, each by its content.
pub open spec fn attempts(list: Seq<Attempt>) -> Seq<AttemptModel> {
    list.map_values(|a: Attempt| a@)
}

/// The executable of the first attempt that found one.
pub open spec fn first_found(list: Seq<AttemptModel>) -> Option<Seq<char>>
    decreases list.len(),
{
    if list.len() == 0 {
        None
    } else if list[0].found is Some {
        list[0].found
    } else {
        first_found(list.drop_first())
    }
}

/// The descriptions of the attempts, each on a line of its own behind a
/// bullet, the first without the line break.
pub open spec fn tried_list(list: Seq<AttemptModel>) -> Seq<char>
    decreases list.len(),
{
    if list.len() == 0 {
        Seq::empty()
    } else if list.len() == 1 {
        list[0].label
    } else {
        tried_list(list.drop_last()) + MSG_BULLET@ + list.last().label
    }
}

/// What is reported when no attempt found the plugin's executable.
pub open spec fn plugin_missing(plugin: Seq<char>, list: Seq<AttemptModel>) -> Seq<char> {
    MSG_NOT_FOUND_HEAD@ + plugin + MSG_NOT_FOUND_MID@ + tried_list(list)
}

/// Settles where a plugin's executable lies. The attempts stand in the order
/// in which the places were tried; the first that found an executable wins.
/// Where none did, all places tried are reported.
pub fn resolve_plugin_exe(plugin: &str, tried: &Vec<Attempt>) -> (r: Result<String, String>)
    ensures
        match r {
            Ok(path) => first_found(attempts(tried@)) == Some(path@),
            Err(reason) => first_found(attempts(tried@)).is_none() && reason@ == plugin_missing(
                plugin@,
                attempts(tried@),
            ),
        },
{
    let ghost all = attempts(tried@);
    let mut message = text::join(MSG_NOT_FOUND_HEAD, plugin);
    message.append(MSG_NOT_FOUND_MID);
    let ghost head = message@;
    let mut i: usize = 0;
    proof {
        assert(all.skip(0) =~= all);
    }
    while i < tried.len()
        invariant
            i <= tried.len(),
            all == attempts(tried@),
            head == MSG_NOT_FOUND_HEAD@ + plugin@ + MSG_NOT_FOUND_MID@,
            first_found(all) == first_found(all.skip(i as int)),
            message@ == head + tried_list(all.take(i as int)),
        decreases tried.len() - i,
    {
        proof {
            assert(all.skip(i as int).drop_first() =~= all.skip(i + 1));
            assert(all.take(i + 1).drop_last() =~= all.take(i as int));
        }
        match &tried[i].found {
            Some(path) => {
                return Ok(path.clone());
            },
            None => {},
        }
        if i > 0 {
            message.append(MSG_BULLET);
        }
        message.append(tried[i].label.as_str());
        i += 1;
    }
    Err(message)
}

} // verus!
