//! The log: whether it is on, where it goes and what its lines look like.

use crate::paths;
use crate::paths::{path_eq, path_from, path_join};
use crate::text;
use std::path::PathBuf;
use vstd::prelude::*;
use vstd::string::*;

verus! {

/// The environment variable that turns the log on.
pub const DEBUG_ENV_VAR_NAME: &'static str = "CHUNIRICHPRESENCE_DEBUG";

/// The file of the log.
pub const LOG_FILE_NAME: &'static str = "chunirichpresence.log";

/// The file of the crash log.
pub const CRASH_LOG_FILE_NAME: &'static str = "chunirichpresence_crash.log";

/// Whether `value` is one of the words that turn the log on.
pub open spec fn turns_debug_on(value: Seq<char>) -> bool {
    let word = text::ascii_lowered(text::trimmed(value));
    word == "1"@ || word == "true"@ || word == "yes"@ || word == "on"@
}

/// Whether `value` is one of the words that turn the log on.
pub fn parse_debug_env(value: &str) -> (r: bool)
    ensures
        r == turns_debug_on(value@),
{
    let word = text::trim(value);
    text::lowered_is(word, "1") || text::lowered_is(word, "true") || text::lowered_is(word, "yes")
        || text::lowered_is(word, "on")
}

/// Whether the log is on, from the value of the environment variable.
pub fn debug_logging_enabled(value: Option<&str>) -> (r: bool)
    ensures
        r == match value {
            Some(value) => turns_debug_on(value@),
            None => false,
        },
{
    match value {
        Some(value) => parse_debug_env(value),
        None => false,
    }
}

/// The handle of the library's own module, if it was set.
pub fn dll_module_handle(module: isize) -> (r: Option<isize>)
    ensures
        r == if module == 0 {
            None
        } else {
            Some(module)
        },
{
    if module == 0 {
        None
    } else {
        Some(module)
    }
}

/// What to do after the path of a module was asked for with a buffer of some length.
#[derive(Copy, Clone, Debug, PartialEq, Eq, Structural)]
pub enum ModulePathStep {
    /// The path is not to be had.
    Unknown,
    /// The path is the first `len` units of the buffer.
    Found { len: usize },
    /// Ask again with a buffer of this length.
    Grow { buffer_len: usize },
}

/// The length of the buffer that a module's path is first asked for with.
pub const MODULE_PATH_BUFFER_LEN: usize = 260;

/// The length from which on the buffer is not grown any more.
pub const MODULE_PATH_BUFFER_LIMIT: usize = 32768;

/// What follows from the length that came back for a buffer of `buffer_len` units.
pub open spec fn path_step(len: usize, buffer_len: usize) -> ModulePathStep {
    if len == 0 {
        ModulePathStep::Unknown
    } else if len < buffer_len - 1 {
        ModulePathStep::Found { len }
    } else if buffer_len >= MODULE_PATH_BUFFER_LIMIT {
        ModulePathStep::Unknown
    } else {
        ModulePathStep::Grow { buffer_len: (buffer_len * 2) as usize }
    }
}

/// What follows from the length that came back for a buffer of `buffer_len` units: no path for zero,
/// the path if it was surely not cut off, else a buffer twice as long, up to the limit.
pub fn module_path_step(len: usize, buffer_len: usize) -> (r: ModulePathStep)
    requires
        buffer_len >= 1,
    ensures
        r == path_step(len, buffer_len),
{
    if len == 0 {
        ModulePathStep::Unknown
    } else if len < buffer_len - 1 {
        ModulePathStep::Found { len }
    } else if buffer_len >= MODULE_PATH_BUFFER_LIMIT {
        ModulePathStep::Unknown
    } else {
        ModulePathStep::Grow { buffer_len: buffer_len * 2 }
    }
}

/// The directory that the program's files are in: that of its own module, else that of the process,
/// else the current one, as far as they are known.
pub open spec fn base_dir(
    dll_dir: Option<PathBuf>,
    process_dir: Option<PathBuf>,
    current_dir: Option<PathBuf>,
) -> Option<PathBuf> {
    match (dll_dir, process_dir, current_dir) {
        (Some(dir), _, _) => Some(dir),
        (None, Some(dir), _) => Some(dir),
        (None, None, current_dir) => current_dir,
    }
}

/// The directory that the program's files are in; without any that is known, `.`.
pub fn runtime_base_dir(
    dll_dir: Option<PathBuf>,
    process_dir: Option<PathBuf>,
    current_dir: Option<PathBuf>,
) -> (r: PathBuf)
    ensures
        match base_dir(dll_dir, process_dir, current_dir) {
            Some(dir) => r == dir,
            None => paths::path_components(r) == seq![paths::name_component("."@)],
        },
{
    match (dll_dir, process_dir, current_dir) {
        (Some(dir), _, _) => dir,
        (None, Some(dir), _) => dir,
        (None, None, Some(dir)) => dir,
        (None, None, None) => path_from("."),
    }
}

/// The file in the base directory, unless a file was already selected.
pub open spec fn selected_or_default(
    selected: Option<PathBuf>,
    base_dir: PathBuf,
    file_name: Seq<char>,
) -> Seq<Seq<u8>> {
    match selected {
        Some(path) => paths::path_components(path),
        None => paths::joined_components(base_dir, file_name),
    }
}

/// Where the log is: the file that was selected, else the one in the base directory.
pub fn log_file_path(selected: Option<PathBuf>, base_dir: &PathBuf) -> (r: PathBuf)
    ensures
        selected matches Some(path) ==> r == path,
        paths::path_components(r) == selected_or_default(selected, *base_dir, LOG_FILE_NAME@),
{
    match selected {
        Some(path) => path,
        None => path_join(base_dir, LOG_FILE_NAME),
    }
}

/// Where the crash log is: the file that was selected, else the one in the base directory.
pub fn crash_log_path(selected: Option<PathBuf>, base_dir: &PathBuf) -> (r: PathBuf)
    ensures
        selected matches Some(path) ==> r == path,
        paths::path_components(r) == selected_or_default(selected, *base_dir, CRASH_LOG_FILE_NAME@),
{
    match selected {
        Some(path) => path,
        None => path_join(base_dir, CRASH_LOG_FILE_NAME),
    }
}

/// The components of each of several paths.
pub open spec fn components_of(list: Seq<PathBuf>) -> Seq<Seq<Seq<u8>>> {
    list.map_values(|path: PathBuf| paths::path_components(path))
}

/// The file in each of the directories that are there, in order, each path once.
pub open spec fn distinct_files(dirs: Seq<Option<PathBuf>>, file_name: Seq<char>) -> Seq<
    Seq<Seq<u8>>,
>
    decreases dirs.len(),
{
    if dirs.len() == 0 {
        Seq::empty()
    } else {
        let earlier = distinct_files(dirs.drop_last(), file_name);
        match dirs.last() {
            Some(dir) => {
                let path = paths::joined_components(dir, file_name);
                if earlier.contains(path) {
                    earlier
                } else {
                    earlier.push(path)
                }
            },
            None => earlier,
        }
    }
}

/// The places to try for the file: in the directories that are there, or, without any, by its bare
/// name.
pub open spec fn candidate_files(dirs: Seq<Option<PathBuf>>, file_name: Seq<char>) -> Seq<
    Seq<Seq<u8>>,
> {
    let files = distinct_files(dirs, file_name);
    if files.len() == 0 {
        seq![paths::parsed_components(file_name)]
    } else {
        files
    }
}

proof fn lemma_no_files_without_directories(dirs: Seq<Option<PathBuf>>, file_name: Seq<char>)
    requires
        forall|i: int| 0 <= i < dirs.len() ==> (#[trigger] dirs[i]) is None,
    ensures
        distinct_files(dirs, file_name).len() == 0,
    decreases dirs.len(),
{
    if dirs.len() > 0 {
        assert(dirs[dirs.len() - 1] is None);
        lemma_no_files_without_directories(dirs.drop_last(), file_name);
    }
}

/// Whether `list` has a path with the components of `path`.
fn contains_path(list: &Vec<PathBuf>, path: &PathBuf) -> (r: bool)
    ensures
        r == components_of(list@).contains(paths::path_components(*path)),
{
    let mut i: usize = 0;
    while i < list.len()
        invariant
            i <= list.len(),
            forall|j: int|
                0 <= j < i ==> paths::path_components(#[trigger] list@[j])
                    != paths::path_components(*path),
        decreases list.len() - i,
    {
        if path_eq(&list[i], path) {
            assert(components_of(list@)[i as int] == paths::path_components(*path));
            return true;
        }
        i += 1;
    }
    proof {
        let all = components_of(list@);
        if all.contains(paths::path_components(*path)) {
            let j = choose|j: int|
                0 <= j < all.len() && all[j] == paths::path_components(*path);
            assert(paths::path_components(list@[j]) == all[j]);
        }
    }
    false
}

/// The places to try for the file.
pub fn candidate_log_paths(dirs: Vec<Option<PathBuf>>, file_name: &str) -> (r: Vec<PathBuf>)
    ensures
        components_of(r@) == candidate_files(dirs@, file_name@),
        paths::is_file_name(file_name@) && (forall|i: int|
            0 <= i < dirs@.len() ==> (#[trigger] dirs@[i]) is None) ==> components_of(r@) == seq![
            seq![paths::name_component(file_name@)],
        ],
{
    let mut list: Vec<PathBuf> = Vec::new();
    assert(components_of(list@) =~= distinct_files(dirs@.take(0), file_name@));
    let ghost all = dirs@;
    for dir in it: dirs.into_iter()
        invariant
            it.seq() == all,
            components_of(list@) == distinct_files(all.take(it.index()), file_name@),
    {
        proof {
            assert(all.take(it.index() + 1).drop_last() =~= all.take(it.index()));
            assert(all.take(it.index() + 1).last() == dir);
        }
        if let Some(dir) = dir {
            let path = path_join(&dir, file_name);
            if !contains_path(&list, &path) {
                let ghost before = list@;
                list.push(path);
                assert(components_of(list@) =~= components_of(before).push(
                    paths::path_components(path),
                ));
            }
        }
    }
    assert(all.take(all.len() as int) =~= all);
    proof {
        if forall|i: int| 0 <= i < all.len() ==> (#[trigger] all[i]) is None {
            lemma_no_files_without_directories(all, file_name@);
        }
    }
    if list.len() == 0 {
        let path = path_from(file_name);
        list.push(path);
        assert(components_of(list@) =~= seq![paths::path_components(path)]);
    }
    list
}

/// The path to try next after `failures` paths could not be opened: the selected one and no other, or,
/// without a selected one, the candidates in order.
pub open spec fn path_to_try<'a>(
    selected: Option<&'a PathBuf>,
    candidates: Seq<PathBuf>,
    failures: int,
) -> Option<PathBuf> {
    match selected {
        Some(path) => if failures == 0 {
            Some(*path)
        } else {
            None
        },
        None => if failures < candidates.len() {
            Some(candidates[failures])
        } else {
            None
        },
    }
}

/// The path to try next after `failures` paths could not be opened: the selected one and no other, or,
/// without a selected one, the candidates in order.
pub fn open_append_file_with_fallback<'a>(
    selected: Option<&'a PathBuf>,
    candidates: &'a Vec<PathBuf>,
    failures: usize,
) -> (r: Option<&'a PathBuf>)
    ensures
        match r {
            Some(path) => path_to_try(selected, candidates@, failures as int) == Some(*path),
            None => path_to_try(selected, candidates@, failures as int) is None,
        },
{
    match selected {
        Some(path) => if failures == 0 {
            Some(path)
        } else {
            None
        },
        None => if failures < candidates.len() {
            Some(&candidates[failures])
        } else {
            None
        },
    }
}

/// The selected file after `opened` could be opened: the first file that is opened is selected, and
/// stays so.
pub open spec fn selected_after(selected: Option<PathBuf>, opened: PathBuf) -> Option<PathBuf> {
    match selected {
        Some(path) => Some(path),
        None => Some(opened),
    }
}

/// The selected file after `opened` could be opened.
pub fn select_opened_path(selected: Option<PathBuf>, opened: PathBuf) -> (r: Option<PathBuf>)
    ensures
        r == selected_after(selected, opened),
{
    match selected {
        Some(path) => Some(path),
        None => Some(opened),
    }
}

/// The selected file after several attempts to open one, each with the file that could be opened, if
/// any.
pub open spec fn selected_by(attempts: Seq<Option<PathBuf>>) -> Option<PathBuf>
    decreases attempts.len(),
{
    if attempts.len() == 0 {
        None
    } else {
        let earlier = selected_by(attempts.drop_last());
        match attempts.last() {
            Some(opened) => selected_after(earlier, opened),
            None => earlier,
        }
    }
}

/// The first file that could be opened is where the log is from then on, whatever is opened later and
/// whatever the base directory is then; before that the log is in the base directory.
pub proof fn law_the_first_opened_file_stays_selected(
    attempts: Seq<Option<PathBuf>>,
    base_dir: PathBuf,
    file_name: Seq<char>,
)
    ensures
        forall|i: int|
            0 <= i < attempts.len() && (#[trigger] attempts[i]) is Some && (forall|j: int|
                0 <= j < i ==> (#[trigger] attempts[j]) is None) ==> {
                &&& selected_by(attempts) == attempts[i]
                &&& selected_or_default(selected_by(attempts), base_dir, file_name)
                    == paths::path_components(attempts[i]->0)
            },
        (forall|j: int| 0 <= j < attempts.len() ==> (#[trigger] attempts[j]) is None) ==> {
            &&& selected_by(attempts) is None
            &&& selected_or_default(selected_by(attempts), base_dir, file_name)
                == paths::joined_components(base_dir, file_name)
        },
    decreases attempts.len(),
{
    if attempts.len() > 0 {
        let earlier = attempts.drop_last();
        law_the_first_opened_file_stays_selected(earlier, base_dir, file_name);
        assert(forall|j: int| 0 <= j < earlier.len() ==> #[trigger] attempts[j] == earlier[j]);
        assert(forall|j: int| 0 <= j < earlier.len() ==> #[trigger] earlier[j] == attempts[j]);
        assert(attempts.last() == attempts[attempts.len() - 1]);
    }
}

/// As long as no file is selected, the log is the file in the directory of the program's own module;
/// where that is not known, in the directory of the process, and else in the current one.
pub proof fn law_the_log_starts_in_the_first_known_directory(
    dll_dir: Option<PathBuf>,
    process_dir: Option<PathBuf>,
    current_dir: Option<PathBuf>,
    file_name: Seq<char>,
)
    ensures
        dll_dir is Some ==> base_dir(dll_dir, process_dir, current_dir) == dll_dir,
        dll_dir is None && process_dir is Some ==> base_dir(dll_dir, process_dir, current_dir)
            == process_dir,
        dll_dir is None && process_dir is None ==> base_dir(dll_dir, process_dir, current_dir)
            == current_dir,
        base_dir(dll_dir, process_dir, current_dir) matches Some(dir) ==> selected_or_default(
            None,
            dir,
            file_name,
        ) == paths::joined_components(dir, file_name),
{
}

/// A local time.
#[derive(Copy, Clone, Debug)]
pub struct LocalTime {
    pub year: u16,
    pub month: u16,
    pub day: u16,
    pub hour: u16,
    pub minute: u16,
    pub second: u16,
    pub milliseconds: u16,
}

/// `n` in decimal with at least `width` digits.
pub open spec fn padded_decimal(n: u16, width: nat) -> Seq<char> {
    text::zero_padded(text::decimal(n as int), width)
}

/// A time as `YYYY-MM-DD hh:mm:ss.mmm`.
pub open spec fn time_text(time: LocalTime) -> Seq<char> {
    padded_decimal(time.year, 4) + "-"@ + padded_decimal(time.month, 2) + "-"@ + padded_decimal(
        time.day,
        2,
    ) + " "@ + padded_decimal(time.hour, 2) + ":"@ + padded_decimal(time.minute, 2) + ":"@
        + padded_decimal(time.second, 2) + "."@ + padded_decimal(time.milliseconds, 3)
}

/// A time as `YYYY-MM-DD hh:mm:ss.mmm`.
pub fn timestamp_string(time: &LocalTime) -> (r: String)
    ensures
        r@ == time_text(*time),
{
    let mut out = String::new();
    text::append_number(&mut out, time.year as u64, 10, 4);
    out.append("-");
    text::append_number(&mut out, time.month as u64, 10, 2);
    out.append("-");
    text::append_number(&mut out, time.day as u64, 10, 2);
    out.append(" ");
    text::append_number(&mut out, time.hour as u64, 10, 2);
    out.append(":");
    text::append_number(&mut out, time.minute as u64, 10, 2);
    out.append(":");
    text::append_number(&mut out, time.second as u64, 10, 2);
    out.append(".");
    text::append_number(&mut out, time.milliseconds as u64, 10, 3);
    assert(out@ =~= time_text(*time));
    out
}

/// A line of the log.
pub open spec fn log_line(time: LocalTime, message: Seq<char>) -> Seq<char> {
    "["@ + time_text(time) + "][ChuniRichPresence] "@ + message
}

fn build_log_line(time: &LocalTime, message: &str) -> (r: String)
    ensures
        r@ == log_line(*time, message@),
{
    "[".to_owned().concat(timestamp_string(time).as_str()).concat("][ChuniRichPresence] ").concat(
        message,
    )
}

/// The line to append to the log for a message; none while the log is off.
pub fn log_message(enabled: bool, time: &LocalTime, message: &str) -> (r: Option<String>)
    ensures
        r is Some <==> enabled,
        r is Some ==> r->0@ == log_line(*time, message@),
{
    if !enabled {
        return None;
    }
    Some(build_log_line(time, message))
}

/// The line to append to the crash log for a message; none while the log is off.
pub fn write_crash_log(enabled: bool, time: &LocalTime, message: &str) -> (r: Option<String>)
    ensures
        r is Some <==> enabled,
        r is Some ==> r->0@ == log_line(*time, message@),
{
    if !enabled {
        return None;
    }
    Some(build_log_line(time, message))
}

proof fn lemma_distinct_files(dirs: Seq<Option<PathBuf>>, file_name: Seq<char>)
    ensures
        distinct_files(dirs, file_name).no_duplicates(),
        forall|i: int|
            0 <= i < dirs.len() && (#[trigger] dirs[i]) is Some ==> distinct_files(
                dirs,
                file_name,
            ).contains(paths::joined_components(dirs[i]->0, file_name)),
    decreases dirs.len(),
{
    if dirs.len() > 0 {
        let earlier = distinct_files(dirs.drop_last(), file_name);
        let all = distinct_files(dirs, file_name);
        lemma_distinct_files(dirs.drop_last(), file_name);
        assert forall|x: Seq<Seq<u8>>| earlier.contains(x) implies all.contains(x) by {
            let k = choose|k: int| 0 <= k < earlier.len() && earlier[k] == x;
            assert(all[k] == x);
        }
        assert forall|i: int|
            0 <= i < dirs.len() && (#[trigger] dirs[i]) is Some implies all.contains(
            paths::joined_components(dirs[i]->0, file_name),
        ) by {
            if i < dirs.len() - 1 {
                assert(dirs.drop_last()[i] == dirs[i]);
            } else {
                let path = paths::joined_components(dirs[i]->0, file_name);
                if !earlier.contains(path) {
                    assert(all[all.len() - 1] == path);
                }
            }
        }
    }
}

/// There is always a place to try for the log; no place is tried twice, and the file in each
/// directory that is there is among them.
pub proof fn law_log_candidates_cover_the_directories_once(
    dirs: Seq<Option<PathBuf>>,
    file_name: Seq<char>,
)
    ensures
        candidate_files(dirs, file_name).len() > 0,
        candidate_files(dirs, file_name).no_duplicates(),
        forall|i: int|
            0 <= i < dirs.len() && (#[trigger] dirs[i]) is Some ==> candidate_files(
                dirs,
                file_name,
            ).contains(paths::joined_components(dirs[i]->0, file_name)),
{
    lemma_distinct_files(dirs, file_name);
}

/// The words `1`, `true`, `yes` and `on` turn the log on, in upper or lower case and with white space
/// round them.
pub proof fn law_words_turn_the_log_on(front: Seq<char>, word: Seq<char>, back: Seq<char>)
    requires
        text::all_white_space(front),
        text::all_white_space(back),
        word.len() > 0 ==> !text::is_white_space(word.first()) && !text::is_white_space(
            word.last(),
        ),
    ensures
        turns_debug_on(front + word + back) <==> {
            let lower = text::ascii_lowered(word);
            ||| lower =~= seq!['1']
            ||| lower =~= seq!['t', 'r', 'u', 'e']
            ||| lower =~= seq!['y', 'e', 's']
            ||| lower =~= seq!['o', 'n']
        },
{
    text::law_trimming_leaves_what_the_space_surrounds(front, word, back);
    reveal_strlit("1");
    reveal_strlit("true");
    reveal_strlit("yes");
    reveal_strlit("on");
    assert("1"@ =~= seq!['1']);
    assert("true"@ =~= seq!['t', 'r', 'u', 'e']);
    assert("yes"@ =~= seq!['y', 'e', 's']);
    assert("on"@ =~= seq!['o', 'n']);
}

/// A path is taken only if the buffer has room for at least two units more than it; a buffer that is
/// too short is doubled, up to 32768 units, so that the search ends.
pub proof fn law_a_module_path_is_not_cut_off(len: usize, buffer_len: usize)
    requires
        buffer_len >= 2,
    ensures
        match path_step(len, buffer_len) {
            ModulePathStep::Found { len: found } => found == len && 0 < len && len + 2
                <= buffer_len,
            ModulePathStep::Grow { buffer_len: next } => {
                &&& next == 2 * buffer_len
                &&& buffer_len < 32768
                &&& len > 0 && len + 2 > buffer_len
            },
            ModulePathStep::Unknown => len == 0 || (len + 2 > buffer_len && buffer_len >= 32768),
        },
        0 < len && len + 2 <= buffer_len ==> path_step(len, buffer_len) is Found,
        MODULE_PATH_BUFFER_LEN == 260,
{
}

/// With a selected file that file is tried, once, and no other; without one the candidates are tried
/// in their order until one is opened or none is left.
pub proof fn law_files_are_tried_in_order(
    selected: PathBuf,
    candidates: Seq<PathBuf>,
    failures: int,
)
    requires
        failures >= 0,
    ensures
        path_to_try(Some(&selected), candidates, 0) == Some(selected),
        failures > 0 ==> path_to_try(Some(&selected), candidates, failures) is None,
        failures < candidates.len() ==> path_to_try(None, candidates, failures) == Some(
            candidates[failures],
        ),
        failures >= candidates.len() ==> path_to_try(None, candidates, failures) is None,
{
}

proof fn lemma_every_file_is_in_a_directory(
    dirs: Seq<Option<PathBuf>>,
    file_name: Seq<char>,
    path: Seq<Seq<u8>>,
)
    requires
        distinct_files(dirs, file_name).contains(path),
    ensures
        exists|i: int|
            0 <= i < dirs.len() && (#[trigger] dirs[i]) is Some && path
                == paths::joined_components(dirs[i]->0, file_name),
    decreases dirs.len(),
{
    if dirs.len() > 0 {
        let earlier = distinct_files(dirs.drop_last(), file_name);
        if earlier.contains(path) {
            lemma_every_file_is_in_a_directory(dirs.drop_last(), file_name, path);
            let i = choose|i: int|
                0 <= i < dirs.drop_last().len() && (#[trigger] dirs.drop_last()[i]) is Some && path
                    == paths::joined_components(dirs.drop_last()[i]->0, file_name);
            assert(dirs[i] == dirs.drop_last()[i]);
        } else {
            let all = distinct_files(dirs, file_name);
            let k = choose|k: int| 0 <= k < all.len() && all[k] == path;
            if k < earlier.len() {
                assert(all[k] == earlier[k]);
                assert(earlier.contains(path));
            }
            assert(dirs[dirs.len() - 1] == dirs.last());
        }
    }
}

/// Only the file in one of the directories is a candidate, or, without any directory, the bare name;
/// a further directory adds its file behind the others, if at all.
pub proof fn law_candidates_come_from_the_directories_in_order(
    dirs: Seq<Option<PathBuf>>,
    last: Option<PathBuf>,
    file_name: Seq<char>,
    path: Seq<Seq<u8>>,
)
    ensures
        candidate_files(dirs, file_name).contains(path) ==> {
            ||| path == paths::parsed_components(file_name)
            ||| exists|i: int|
                0 <= i < dirs.len() && (#[trigger] dirs[i]) is Some && path
                    == paths::joined_components(dirs[i]->0, file_name)
        },
        distinct_files(dirs, file_name).is_prefix_of(distinct_files(dirs.push(last), file_name)),
        candidate_files(Seq::empty(), file_name) == seq![paths::parsed_components(file_name)],
{
    if distinct_files(dirs, file_name).contains(path) {
        lemma_every_file_is_in_a_directory(dirs, file_name, path);
    } else if candidate_files(dirs, file_name).contains(path) {
        let all = candidate_files(dirs, file_name);
        let k = choose|k: int| 0 <= k < all.len() && all[k] == path;
        assert(distinct_files(dirs, file_name).len() == 0);
    }
    assert(dirs.push(last).drop_last() =~= dirs);
    assert(distinct_files(dirs, file_name) =~= distinct_files(dirs.push(last), file_name).take(
        distinct_files(dirs, file_name).len() as int,
    ));
}

/// Whether `part` is made of digits, at least `width` of them, that write `n`.
pub open spec fn writes(part: Seq<char>, n: u16, width: nat) -> bool {
    &&& part.len() >= width
    &&& text::number_in_base(part, 10) == n
    &&& forall|i: int| 0 <= i < part.len() ==> '0' <= #[trigger] part[i] <= '9'
}

proof fn lemma_padded_decimal_writes(n: u16, width: nat)
    ensures
        writes(padded_decimal(n, width), n, width),
{
    let part = padded_decimal(n, width);
    text::law_padded_digits_write_the_number(n as nat, 10, width);
    assert forall|i: int| 0 <= i < part.len() implies '0' <= #[trigger] part[i] <= '9' by {
        assert(text::digit_value(part[i]) < 10);
    }
}

/// Whether `written` is the time with these parts between its marks.
pub open spec fn time_with_parts(written: Seq<char>, parts: Seq<Seq<char>>) -> bool {
    parts.len() == 7 && written == parts[0] + "-"@ + parts[1] + "-"@ + parts[2] + " "@ + parts[3]
        + ":"@ + parts[4] + ":"@ + parts[5] + "."@ + parts[6]
}

/// A time is written from the year down to the milliseconds, each part in digits that write it: four
/// for the year, three for the milliseconds, two for the others, or as many more as it takes.
pub proof fn law_the_time_reads_back(time: LocalTime)
    ensures
        exists|parts: Seq<Seq<char>>|
            {
                &&& #[trigger] time_with_parts(time_text(time), parts)
                &&& writes(parts[0], time.year, 4)
                &&& writes(parts[1], time.month, 2)
                &&& writes(parts[2], time.day, 2)
                &&& writes(parts[3], time.hour, 2)
                &&& writes(parts[4], time.minute, 2)
                &&& writes(parts[5], time.second, 2)
                &&& writes(parts[6], time.milliseconds, 3)
            },
{
    let parts = seq![
        padded_decimal(time.year, 4),
        padded_decimal(time.month, 2),
        padded_decimal(time.day, 2),
        padded_decimal(time.hour, 2),
        padded_decimal(time.minute, 2),
        padded_decimal(time.second, 2),
        padded_decimal(time.milliseconds, 3),
    ];
    lemma_padded_decimal_writes(time.year, 4);
    lemma_padded_decimal_writes(time.month, 2);
    lemma_padded_decimal_writes(time.day, 2);
    lemma_padded_decimal_writes(time.hour, 2);
    lemma_padded_decimal_writes(time.minute, 2);
    lemma_padded_decimal_writes(time.second, 2);
    lemma_padded_decimal_writes(time.milliseconds, 3);
    assert(time_with_parts(time_text(time), parts));
}

/// A line of the log is the time and the name of the program, each in square brackets, a space and the
/// message as it is.
pub proof fn law_log_lines_carry_time_and_message(time: LocalTime, message: Seq<char>)
    ensures
        log_line(time, message) == "["@ + time_text(time) + "][ChuniRichPresence] "@ + message,
        LOG_FILE_NAME@ == "chunirichpresence.log"@,
        CRASH_LOG_FILE_NAME@ == "chunirichpresence_crash.log"@,
        DEBUG_ENV_VAR_NAME@ == "CHUNIRICHPRESENCE_DEBUG"@,
{
}

} // verus!
