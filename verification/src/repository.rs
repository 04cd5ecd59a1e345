//! The decisions around cloning a repository: where the clone goes, how the
//! version-control tool is called, which files of the clone are listed, and
//! what is reported back.

use vstd::prelude::*;

verus! {

/// What a clone reports back: whether it succeeded, a message, the files of
/// interest in the clone, and the directory it went to.
#[derive(Debug)]
pub struct CloneResult {
    pub success: bool,
    pub message: String,
    pub files: Vec<String>,
    pub path: String,
}

/// Where the last segment of `s` begins, segments being parted by `/`: just
/// behind the last `/`, or at the start where there is none.
pub open spec fn last_segment_start(s: Seq<char>) -> int
    decreases s.len(),
{
    if s.len() == 0 {
        0
    } else if s.last() == '/' {
        s.len() as int
    } else {
        last_segment_start(s.drop_last())
    }
}

/// The suffix that marks a repository in an address.
pub open spec fn repository_suffix() -> Seq<char> {
    seq!['.', 'g', 'i', 't']
}

/// The name under which a clone is put when no other is chosen.
pub open spec fn default_repository_name() -> Seq<char> {
    "repository"@
}

/// The directory name for the clone of `url`: the last segment of the address
/// without its `.git` suffix. Where the last segment has no such suffix, the
/// default name stands in.
pub open spec fn repository_name_of(url: Seq<char>) -> Seq<char> {
    let segment = url.skip(last_segment_start(url));
    if segment.len() >= 4 && segment.skip(segment.len() - 4) == repository_suffix() {
        segment.take(segment.len() - 4)
    } else {
        default_repository_name()
    }
}

proof fn lemma_last_segment_start_bounds(s: Seq<char>)
    ensures
        0 <= last_segment_start(s) <= s.len(),
    decreases s.len(),
{
    if s.len() > 0 && s.last() != '/' {
        lemma_last_segment_start_bounds(s.drop_last());
    }
}

/// Finds where the last segment of an address begins.
fn find_last_segment_start(url: &str, len: usize) -> (start: usize)
    requires
        len == url@.len(),
    ensures
        start == last_segment_start(url@),
        start <= len,
{
    let mut end: usize = len;
    proof {
        assert(url@.take(len as int) =~= url@);
        lemma_last_segment_start_bounds(url@);
    }
    while end > 0
        invariant
            end <= len,
            len == url@.len(),
            last_segment_start(url@) == last_segment_start(url@.take(end as int)),
        decreases end,
    {
        let c = url.get_char(end - 1);
        proof {
            assert(url@.take(end as int).last() == url@[end - 1]);
            assert(url@.take(end as int).drop_last() =~= url@.take(end - 1));
        }
        if c == '/' {
            return end;
        }
        end -= 1;
    }
    0
}

/// Derives the directory name for the clone of `url`.
pub fn repository_name(url: &str) -> (name: String)
    ensures
        name@ == repository_name_of(url@),
{
    let len: usize = url.unicode_len();
    let start: usize = find_last_segment_start(url, len);
    let ghost segment = url@.skip(start as int);
    if len - start >= 4 {
        let cut: usize = len - 4;
        if url.get_char(cut) == '.' && url.get_char(cut + 1) == 'g' && url.get_char(cut + 2) == 'i'
            && url.get_char(cut + 3) == 't' {
            proof {
                assert(segment.skip(segment.len() - 4) =~= repository_suffix());
                assert(segment.take(segment.len() - 4) =~= url@.subrange(start as int, cut as int));
            }
            return url.substring_char(start, cut).to_owned();
        }
        proof {
            let tail = segment.skip(segment.len() - 4);
            assert(tail[0] == url@[cut as int] && tail[1] == url@[cut + 1] && tail[2] == url@[cut
                + 2] && tail[3] == url@[cut + 3]);
            assert(repository_suffix()[0] == '.' && repository_suffix()[1] == 'g'
                && repository_suffix()[2] == 'i' && repository_suffix()[3] == 't');
        }
    }
    "repository".to_owned()
}

/// The arguments with which the version-control tool makes the clone: a
/// shallow clone of `url` into `path`, of the branch `branch` where one is
/// named.
pub open spec fn clone_arguments_of(url: Seq<char>, branch: Option<Seq<char>>, path: Seq<char>) -> Seq<
    Seq<char>,
> {
    let head = seq!["clone"@, "--depth"@, "1"@];
    let middle = match branch {
        Some(name) => seq!["-b"@, name],
        None => Seq::<Seq<char>>::empty(),
    };
    head + middle + seq![url, path]
}

/// The texts of a list of strings.
pub open spec fn texts(list: Seq<String>) -> Seq<Seq<char>> {
    list.map_values(|s: String| s@)
}

/// Builds the argument list for the clone.
pub fn clone_arguments(url: &str, branch: Option<&str>, path: &str) -> (args: Vec<String>)
    ensures
        texts(args@) == clone_arguments_of(
            url@,
            match branch {
                Some(name) => Some(name@),
                None => None,
            },
            path@,
        ),
{
    let mut args: Vec<String> = Vec::new();
    args.push("clone".to_owned());
    args.push("--depth".to_owned());
    args.push("1".to_owned());
    if let Some(name) = branch {
        args.push("-b".to_owned());
        args.push(name.to_owned());
    }
    args.push(url.to_owned());
    args.push(path.to_owned());
    proof {
        let want = clone_arguments_of(
            url@,
            match branch {
                Some(name) => Some(name@),
                None => None,
            },
            path@,
        );
        assert(texts(args@).len() == want.len());
        assert forall|i: int| 0 <= i < want.len() implies texts(args@)[i] == want[i] by {}
        assert(texts(args@) =~= want);
    }
    args
}

/// What an entry of a directory is.
#[derive(Clone, Copy, Debug, PartialEq, Eq, Structural)]
pub enum EntryKind {
    File,
    Directory,
    Other,
}

/// What the listing does with an entry.
#[derive(Clone, Copy, Debug, PartialEq, Eq, Structural)]
pub enum EntryAction {
    /// The entry is a file of interest: its path goes into the list.
    Collect,
    /// The entry is a directory that is listed in turn.
    Descend,
    /// The entry is passed over.
    Skip,
}

/// The rule of the listing: files with the extension `py` whose path can be
/// written as text are collected, directories other than `.git` are
/// descended into, and everything else is passed over.
pub open spec fn entry_action_of(
    kind: EntryKind,
    extension: Option<Seq<char>>,
    name: Option<Seq<char>>,
    path_is_text: bool,
) -> EntryAction {
    match kind {
        EntryKind::File => if extension == Some("py"@) && path_is_text {
            EntryAction::Collect
        } else {
            EntryAction::Skip
        },
        EntryKind::Directory => if name == Some(".git"@) {
            EntryAction::Skip
        } else {
            EntryAction::Descend
        },
        EntryKind::Other => EntryAction::Skip,
    }
}

/// Compares two texts.
fn same_text(a: &str, b: &str) -> (r: bool)
    ensures
        r == (a@ == b@),
{
    a.to_owned() == b.to_owned()
}

/// Decides what the listing does with an entry, from its kind, its
/// extension and its name where it has them as text, and from whether its
/// whole path can be written as text.
pub fn entry_action(
    kind: EntryKind,
    extension: Option<&str>,
    name: Option<&str>,
    path_is_text: bool,
) -> (action: EntryAction)
    ensures
        action == entry_action_of(
            kind,
            match extension {
                Some(e) => Some(e@),
                None => None,
            },
            match name {
                Some(n) => Some(n@),
                None => None,
            },
            path_is_text,
        ),
{
    match kind {
        EntryKind::File => {
            let wanted = match extension {
                Some(e) => same_text(e, "py"),
                None => false,
            };
            if wanted && path_is_text {
                EntryAction::Collect
            } else {
                EntryAction::Skip
            }
        },
        EntryKind::Directory => {
            let hidden = match name {
                Some(n) => same_text(n, ".git"),
                None => false,
            };
            if hidden {
                EntryAction::Skip
            } else {
                EntryAction::Descend
            }
        },
        EntryKind::Other => EntryAction::Skip,
    }
}

impl CloneResult {
    /// The report for a clone that was given up because no directory was
    /// chosen for it.
    pub fn no_directory_selected() -> (r: Self)
        ensures
            !r.success,
            r.message@ == "No directory selected"@,
            r.files@.len() == 0,
            r.path@.len() == 0,
    {
        CloneResult {
            success: false,
            message: "No directory selected".to_owned(),
            files: Vec::new(),
            path: String::new(),
        }
    }

    /// The report for a clone that was not made because its directory
    /// exists already.
    pub fn already_exists(path: &str) -> (r: Self)
        ensures
            !r.success,
            r.message@ == "Directory "@ + path@ + " already exists"@,
            r.files@.len() == 0,
            r.path@ == path@,
    {
        let message = "Directory ".to_owned().concat(path).concat(" already exists");
        CloneResult { success: false, message, files: Vec::new(), path: path.to_owned() }
    }

    /// The report for a clone that the version-control tool could not make;
    /// the message is what the tool said.
    pub fn failed(tool_message: &str, path: &str) -> (r: Self)
        ensures
            !r.success,
            r.message@ == tool_message@,
            r.files@.len() == 0,
            r.path@ == path@,
    {
        CloneResult {
            success: false,
            message: tool_message.to_owned(),
            files: Vec::new(),
            path: path.to_owned(),
        }
    }

    /// The report for a clone that was made, with the files listed in it.
    pub fn cloned(files: Vec<String>, path: &str) -> (r: Self)
        ensures
            r.success,
            r.message@ == "Repository cloned successfully to "@ + path@,
            r.files == files,
            r.path@ == path@,
    {
        let message = "Repository cloned successfully to ".to_owned().concat(path);
        CloneResult { success: true, message, files, path: path.to_owned() }
    }
}

} // verus!
