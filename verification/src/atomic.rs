//! The atomic-replace protocol: its temporary-path rule, and a model
//! of the write sequence with the crash-safety laws proved over it.
//!
//! A save never touches the destination file directly. It writes the
//! complete content to a temporary sibling path, and only then
//! replaces the destination with a single rename. The model below
//! captures the state of those two paths through the protocol;
//! `lemma_interrupted_save_preserves_dest` states the guarantee that
//! a crash anywhere before the rename leaves the destination exactly
//! as it was. `SimFs` is an executable double of the model, so the
//! interruption can also be driven concretely.

use vstd::prelude::*;
use vstd::string::{StrSliceExecFns, StringExecFns};

verus! {

/// The marker suffix of every temporary sibling path.
pub open spec fn tmp_suffix() -> Seq<char> {
    ".__tmp"@
}

/// What is appended instead where the destination's file name has no
/// extension: the assumed extension `tmp`, then the marker.
pub open spec fn fallback_suffix() -> Seq<char> {
    ".tmp.__tmp"@
}

/// Whether `c` separates path components: `'/'` everywhere, and
/// `'\'` on Windows.
pub open spec fn is_separator(c: char) -> bool {
    c == '/' || c == '\\'
}

/// Whether position `i` of `path` holds the dot beginning the file
/// name's extension: a `'.'` that is not the first character of the
/// name component and has no path separator after it.
pub open spec fn extension_dot_within(path: Seq<char>, end: int, i: int) -> bool {
    &&& 1 <= i < end <= path.len()
    &&& path[i] == '.'
    &&& !is_separator(path[i - 1])
    &&& forall|j: int| i < j < end ==> !is_separator(#[trigger] path[j])
}

/// Whether the file name component of `path` has an extension.
pub open spec fn name_has_extension(path: Seq<char>) -> bool {
    exists|i: int| extension_dot_within(path, path.len() as int, i)
}

/// The temporary sibling path for destination `path`: the path with
/// `.__tmp` appended after its extension, assuming extension `tmp`
/// where the file name has none. So `out.td6` becomes
/// `out.td6.__tmp`, and `data` becomes `data.tmp.__tmp`.
pub open spec fn temp_path_of(path: Seq<char>) -> Seq<char> {
    if name_has_extension(path) {
        path + tmp_suffix()
    } else {
        path + fallback_suffix()
    }
}

/// A separator at position `i` cuts off every candidate extension
/// dot seen so far in the scan.
proof fn lemma_scan_separator(path: Seq<char>, i: int, next: int)
    requires
        0 <= i < path.len(),
        next == i + 1,
        is_separator(path[i]),
    ensures
        forall|k: int| !(#[trigger] extension_dot_within(path, next, k)),
{
    assert forall|k: int| !(#[trigger] extension_dot_within(path, next, k)) by {
        if extension_dot_within(path, next, k) {
            if k == i {
                assert(path[k] == '.');
            } else {
                assert(!is_separator(path[i]));
            }
        }
    }
}

/// A character that is neither a separator nor a qualifying extension
/// dot leaves the scan's candidate set unchanged.
proof fn lemma_scan_other(path: Seq<char>, i: int, next: int)
    requires
        0 <= i < path.len(),
        next == i + 1,
        !is_separator(path[i]),
        !(path[i] == '.' && i >= 1 && !is_separator(path[i - 1])),
    ensures
        (exists|k: int| extension_dot_within(path, i, k)) == (exists|k: int|
        extension_dot_within(path, next, k)),
{
    if exists|k: int| extension_dot_within(path, i, k) {
        let k = choose|k: int| extension_dot_within(path, i, k);
        assert(extension_dot_within(path, next, k));
    }
    if exists|k: int| extension_dot_within(path, next, k) {
        let k = choose|k: int| extension_dot_within(path, next, k);
        assert(k < i);
        assert(extension_dot_within(path, i, k));
    }
}

/// Compute the temporary sibling path for `path`.
pub fn temp_path_for(path: &str) -> (r: String)
    ensures
        r@ == temp_path_of(path@),
{
    let n: usize = path.unicode_len();
    let mut has_ext = false;
    let mut i: usize = 0;
    while i < n
        invariant
            i <= n,
            n == path@.len(),
            has_ext == exists|k: int| extension_dot_within(path@, i as int, k),
        decreases n - i,
    {
        let c = path.get_char(i);
        if c == '/' || c == '\\' {
            proof {
                lemma_scan_separator(path@, i as int, i as int + 1);
            }
            has_ext = false;
        } else if c == '.' && i >= 1 {
            let prev = path.get_char(i - 1);
            if prev != '/' && prev != '\\' {
                proof {
                    assert(extension_dot_within(path@, i as int + 1, i as int));
                }
                has_ext = true;
            } else {
                proof {
                    lemma_scan_other(path@, i as int, i as int + 1);
                }
            }
        } else {
            proof {
                lemma_scan_other(path@, i as int, i as int + 1);
            }
        }
        i = i + 1;
    }
    let mut r: String = path.to_owned();
    if has_ext {
        r.append(".__tmp");
    } else {
        r.append(".tmp.__tmp");
    }
    r
}

/// Law: the temporary path is strictly longer than the destination
/// path, so the two never name the same file.
pub proof fn lemma_temp_path_distinct(path: Seq<char>)
    ensures
        temp_path_of(path).len() > path.len(),
        temp_path_of(path) != path,
{
    reveal_strlit(".__tmp");
    reveal_strlit(".tmp.__tmp");
}

/// Law: every temporary path ends in the `.__tmp` marker, so stray
/// temporaries left behind by a failed save can be recognized.
pub proof fn lemma_temp_path_marked(path: Seq<char>)
    ensures
        temp_path_of(path).len() >= tmp_suffix().len(),
        temp_path_of(path).skip(temp_path_of(path).len() - tmp_suffix().len())
            == tmp_suffix(),
{
    reveal_strlit(".__tmp");
    reveal_strlit(".tmp.__tmp");
    if name_has_extension(path) {
        assert((path + tmp_suffix()).skip(path.len() as int) =~= tmp_suffix());
    } else {
        assert((path + fallback_suffix()).skip(path.len() as int + 4) =~= tmp_suffix());
    }
}

/// Model of the two paths a save touches: what the destination holds
/// (`None`: no file) and what the temporary sibling holds.
pub struct FsModel {
    /// Content of the destination file, if it exists.
    pub dest: Option<Seq<u8>>,
    /// Content of the temporary sibling file, if it exists.
    pub temp: Option<Seq<u8>>,
}

/// One step of the save protocol.
pub enum SaveStep {
    /// Create, or truncate, the temporary file.
    CreateTemp,
    /// Append bytes to the temporary file; nothing happens if it does
    /// not exist.
    AppendTemp(Seq<u8>),
    /// Atomically rename the temporary file over the destination;
    /// nothing happens if it does not exist. The single step
    /// idealizes the replace: on platforms whose rename does not
    /// overwrite, the I/O layer removes the destination just before
    /// the rename, a window in which it is briefly absent rather
    /// than stale, which this model does not capture.
    Commit,
}

/// The state after one protocol step.
pub open spec fn apply_step(fs: FsModel, step: SaveStep) -> FsModel {
    match step {
        SaveStep::CreateTemp => FsModel { dest: fs.dest, temp: Some(Seq::empty()) },
        SaveStep::AppendTemp(chunk) => match fs.temp {
            Some(t) => FsModel { dest: fs.dest, temp: Some(t + chunk) },
            None => fs,
        },
        SaveStep::Commit => match fs.temp {
            Some(t) => FsModel { dest: Some(t), temp: None },
            None => fs,
        },
    }
}

/// The state after a sequence of protocol steps.
pub open spec fn apply_steps(fs: FsModel, steps: Seq<SaveStep>) -> FsModel
    decreases steps.len(),
{
    if steps.len() == 0 {
        fs
    } else {
        apply_steps(apply_step(fs, steps[0]), steps.skip(1))
    }
}

/// The full protocol for writing `content`: create the temporary
/// file, write the whole content into it, rename it over the
/// destination.
pub open spec fn save_steps(content: Seq<u8>) -> Seq<SaveStep> {
    seq![SaveStep::CreateTemp, SaveStep::AppendTemp(content), SaveStep::Commit]
}

/// Law: steps that never commit leave the destination exactly as it
/// was, whatever they do to the temporary file.
pub proof fn lemma_no_commit_preserves_dest(fs: FsModel, steps: Seq<SaveStep>)
    requires
        forall|i: int| 0 <= i < steps.len() ==> !(#[trigger] steps[i] is Commit),
    ensures
        apply_steps(fs, steps).dest == fs.dest,
    decreases steps.len(),
{
    if steps.len() > 0 {
        let fs1 = apply_step(fs, steps[0]);
        assert(fs1.dest == fs.dest);
        assert forall|i: int| 0 <= i < steps.skip(1).len() implies !(#[trigger] steps.skip(
            1,
        )[i] is Commit) by {
            assert(steps.skip(1)[i] == steps[i + 1]);
        }
        lemma_no_commit_preserves_dest(fs1, steps.skip(1));
    }
}

/// Law (crash safety): a save of `content` interrupted after any
/// number of completed steps short of the final rename leaves the
/// destination unchanged — still its old content, or still absent.
pub proof fn lemma_interrupted_save_preserves_dest(fs: FsModel, content: Seq<u8>, completed: int)
    requires
        0 <= completed < save_steps(content).len(),
    ensures
        apply_steps(fs, save_steps(content).take(completed)).dest == fs.dest,
{
    let steps = save_steps(content).take(completed);
    assert forall|i: int| 0 <= i < steps.len() implies !(#[trigger] steps[i] is Commit) by {
        assert(steps[i] == save_steps(content)[i]);
    }
    lemma_no_commit_preserves_dest(fs, steps);
}

/// Law: the completed protocol installs exactly the new content at
/// the destination and leaves no temporary file behind.
/// The protocol's step sequence, unfolded: the three steps applied
/// in order.
proof fn lemma_save_steps_unfold(fs: FsModel, content: Seq<u8>)
    ensures
        apply_steps(fs, save_steps(content)) == apply_step(
            apply_step(apply_step(fs, SaveStep::CreateTemp), SaveStep::AppendTemp(content)),
            SaveStep::Commit,
        ),
{
    let s = save_steps(content);
    let s1 = s.skip(1);
    let s2 = s1.skip(1);
    let s3 = s2.skip(1);
    assert(s1[0] == s[1] && s2[0] == s[2] && s3.len() == 0);
    let fs1 = apply_step(fs, s[0]);
    let fs2 = apply_step(fs1, s1[0]);
    let fs3 = apply_step(fs2, s2[0]);
    assert(apply_steps(fs, s) == apply_steps(fs1, s1));
    assert(apply_steps(fs1, s1) == apply_steps(fs2, s2));
    assert(apply_steps(fs2, s2) == apply_steps(fs3, s3));
    assert(apply_steps(fs3, s3) == fs3);
}

pub proof fn lemma_completed_save_installs(fs: FsModel, content: Seq<u8>)
    ensures
        apply_steps(fs, save_steps(content)).dest == Some(content),
        apply_steps(fs, save_steps(content)).temp is None,
{
    lemma_save_steps_unfold(fs, content);
    assert(Seq::<u8>::empty() + content =~= content);
}

/// Executable double of `FsModel`: an in-memory stand-in for the two
/// paths, driven one protocol step at a time so that an interrupted
/// save can be observed concretely.
pub struct SimFs {
    dest_present: bool,
    dest_data: Vec<u8>,
    temp_present: bool,
    temp_data: Vec<u8>,
}

impl View for SimFs {
    type V = FsModel;

    closed spec fn view(&self) -> FsModel {
        FsModel {
            dest: if self.dest_present {
                Some(self.dest_data@)
            } else {
                None
            },
            temp: if self.temp_present {
                Some(self.temp_data@)
            } else {
                None
            },
        }
    }
}

impl SimFs {
    /// A filesystem where the destination does not exist yet.
    pub fn new_absent() -> (r: SimFs)
        ensures
            r@ == (FsModel { dest: None, temp: None }),
    {
        SimFs { dest_present: false, dest_data: Vec::new(), temp_present: false, temp_data: Vec::new() }
    }

    /// A filesystem where the destination already holds `data`.
    pub fn new_with_dest(data: Vec<u8>) -> (r: SimFs)
        ensures
            r@ == (FsModel { dest: Some(data@), temp: None }),
    {
        SimFs { dest_present: true, dest_data: data, temp_present: false, temp_data: Vec::new() }
    }

    /// Create, or truncate, the temporary file.
    pub fn create_temp(&mut self)
        ensures
            final(self)@ == apply_step(old(self)@, SaveStep::CreateTemp),
    {
        self.temp_present = true;
        self.temp_data = Vec::new();
    }

    /// Append `chunk` to the temporary file, if it exists.
    pub fn append_temp(&mut self, chunk: &[u8])
        ensures
            final(self)@ == apply_step(old(self)@, SaveStep::AppendTemp(chunk@)),
    {
        if self.temp_present {
            self.temp_data.extend_from_slice(chunk);
            proof {
                assert(self.temp_data@ =~= old(self).temp_data@ + chunk@);
            }
        }
    }

    /// Rename the temporary file over the destination, if it exists.
    pub fn commit(&mut self)
        ensures
            final(self)@ == apply_step(old(self)@, SaveStep::Commit),
    {
        if self.temp_present {
            core::mem::swap(&mut self.dest_data, &mut self.temp_data);
            self.dest_present = true;
            self.temp_present = false;
        }
    }

    /// Run the whole save protocol for `content`.
    pub fn save_to(&mut self, content: &[u8])
        ensures
            final(self)@ == apply_steps(old(self)@, save_steps(content@)),
            final(self)@.dest == Some(content@),
            final(self)@.temp is None,
    {
        self.create_temp();
        self.append_temp(content);
        self.commit();
        proof {
            lemma_save_steps_unfold(old(self)@, content@);
            lemma_completed_save_installs(old(self)@, content@);
        }
    }

    /// The destination's content, or `None` where no destination file
    /// exists.
    pub fn dest(&self) -> (r: Option<&Vec<u8>>)
        ensures
            match r {
                Some(v) => self@.dest == Some(v@),
                None => self@.dest is None,
            },
    {
        if self.dest_present {
            Some(&self.dest_data)
        } else {
            None
        }
    }

    /// The temporary file's content, or `None` where it does not
    /// exist.
    pub fn temp(&self) -> (r: Option<&Vec<u8>>)
        ensures
            match r {
                Some(v) => self@.temp == Some(v@),
                None => self@.temp is None,
            },
    {
        if self.temp_present {
            Some(&self.temp_data)
        } else {
            None
        }
    }
}

} // verus!
