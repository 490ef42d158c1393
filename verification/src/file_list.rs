//! A list of files, newest first, with one selected entry that the keys
//! move. The list is handed the files as plain values; it reads no
//! directory itself.

use vstd::prelude::*;
use vstd::multiset::Multiset;
use crate::input::KeyInput;
use crate::text::str_eq;

verus! {

/// What the list knows of a file.
#[derive(Debug)]
pub struct FileInfo {
    /// The bare file name, without any leading path component.
    pub file_name: String,
    /// The full path to the file.
    pub path: String,
    /// The size of the file, in bytes.
    pub len: u64,
    /// The time of the last modification, in nanoseconds since the start of
    /// 1970; negative before that.
    pub modified: i128,
}

/// Whether a file with the extension `extension` passes the filter: an
/// empty filter and "*" let every file pass, any other filter the files
/// with exactly that extension.
pub open spec fn passes(filter: Seq<char>, extension: Option<Seq<char>>) -> bool {
    filter.len() == 0 || filter == "*"@ || extension == Some(filter)
}

/// Whether a file with the extension `extension` passes the filter
/// `ext_filter`.
pub fn ext_filter_accepts(ext_filter: &str, extension: Option<&str>) -> (r: bool)
    ensures
        r == passes(
            ext_filter@,
            match extension {
                Some(e) => Some(e@),
                None => None,
            },
        ),
{
    if ext_filter.is_empty() || str_eq(ext_filter, "*") {
        true
    } else {
        match extension {
            Some(e) => str_eq(e, ext_filter),
            None => false,
        }
    }
}

/// No file stands before a newer one.
pub open spec fn newest_first(files: Seq<FileInfo>) -> bool {
    forall|i: int, j: int| 0 <= i < j < files.len() ==> files[i].modified >= files[j].modified
}

/// Inserting a file adds it to the files that a list holds, and nothing
/// else.
pub proof fn lemma_insert_adds_one(files: Seq<FileInfo>, at: int, file: FileInfo)
    requires
        0 <= at <= files.len(),
    ensures
        files.insert(at, file).to_multiset() == files.to_multiset().insert(file),
{
    let longer = files.insert(at, file);
    assert(longer.remove(at) =~= files);
    longer.to_multiset_ensures();
    assert(longer[at] == file);
    assert(longer.contains(file));
    assert(longer.to_multiset() =~= files.to_multiset().insert(file));
}

/// The same files, newest first. Files of the same time may come in any
/// order.
pub fn sort_newest_first(files: Vec<FileInfo>) -> (r: Vec<FileInfo>)
    ensures
        newest_first(r@),
        r@.to_multiset() == files@.to_multiset(),
{
    let mut rest = files;
    let mut out: Vec<FileInfo> = Vec::new();
    proof {
        assert(rest@ + out@ =~= files@);
        assert(out@.to_multiset() =~= Multiset::<FileInfo>::empty()) by {
            out@.to_multiset_ensures();
        }
    }
    while rest.len() > 0
        invariant
            newest_first(out@),
            rest@.to_multiset().add(out@.to_multiset()) == files@.to_multiset(),
        decreases rest.len(),
    {
        let ghost before = rest@;
        let ghost last = rest@.len() - 1;
        let file = rest.pop().unwrap();
        proof {
            before.to_multiset_ensures();
            assert(before.remove(last) =~= rest@);
            assert(before.to_multiset() =~= rest@.to_multiset().insert(file));
        }
        let mut at: usize = 0;
        while at < out.len() && out[at].modified >= file.modified
            invariant
                at <= out.len(),
                forall|k: int| 0 <= k < at ==> out@[k].modified >= file.modified,
            decreases out.len() - at,
        {
            at += 1;
        }
        proof {
            lemma_insert_adds_one(out@, at as int, file);
        }
        out.insert(at, file);
        assert(rest@.to_multiset().add(out@.to_multiset()) =~= files@.to_multiset());
    }
    proof {
        rest@.to_multiset_ensures();
        assert(rest@.to_multiset().len() == 0);
        assert(rest@.to_multiset() =~= Multiset::<FileInfo>::empty());
        assert(out@.to_multiset() =~= files@.to_multiset());
    }
    out
}

/// A file list as plain values.
pub struct FileListView {
    /// The directory that the files come from.
    pub path: Seq<char>,
    /// The filter that the files passed.
    pub ext_filter: Seq<char>,
    /// The files, newest first.
    pub files: Seq<FileInfo>,
    /// The position of the selected file.
    pub selected: nat,
}

/// A list of disk files.
#[derive(Debug)]
pub struct FileList {
    path: String,
    ext_filter: String,
    files: Vec<FileInfo>,
    selected: usize,
}

impl View for FileList {
    type V = FileListView;

    closed spec fn view(&self) -> FileListView {
        FileListView {
            path: self.path@,
            ext_filter: self.ext_filter@,
            files: self.files@,
            selected: self.selected as nat,
        }
    }
}

/// The selection after a move towards the front of `len` files.
pub open spec fn moved_back(selected: nat, len: nat, wrapped: bool) -> nat {
    if selected > 0 {
        (selected - 1) as nat
    } else if wrapped && len > 0 {
        (len - 1) as nat
    } else {
        selected
    }
}

/// The selection after a move towards the end of `len` files.
pub open spec fn moved_on(selected: nat, len: nat, wrapped: bool) -> nat {
    if selected + 1 < len {
        selected + 1
    } else if wrapped {
        0
    } else {
        selected
    }
}

impl FileList {
    /// The files are newest first, and the selection stands on a file, or
    /// at zero where there is none.
    #[verifier::type_invariant]
    pub closed spec fn well_formed(&self) -> bool {
        &&& newest_first(self.files@)
        &&& self.selected == 0 || self.selected < self.files@.len()
    }

    /// The list of `files` found under `path` with the filter `ext_filter`:
    /// the files are put newest first and the first one is selected.
    pub fn new(path: &str, ext_filter: &str, files: Vec<FileInfo>) -> (r: Self)
        ensures
            r@.path == path@,
            r@.ext_filter == ext_filter@,
            r@.selected == 0,
            newest_first(r@.files),
            r@.files.to_multiset() == files@.to_multiset(),
    {
        FileList {
            path: path.to_owned(),
            ext_filter: ext_filter.to_owned(),
            files: sort_newest_first(files),
            selected: 0,
        }
    }

    /// The directory that the files come from.
    pub fn path(&self) -> (r: &str)
        ensures
            r@ == self@.path,
    {
        self.path.as_str()
    }

    /// The filter that the files passed.
    pub fn ext_filter(&self) -> (r: &str)
        ensures
            r@ == self@.ext_filter,
    {
        self.ext_filter.as_str()
    }

    /// Returns true if the list holds no files.
    pub fn is_empty(&self) -> (r: bool)
        ensures
            r == (self@.files.len() == 0),
    {
        self.files.len() == 0
    }

    /// Returns the number of files in the list.
    pub fn len(&self) -> (r: usize)
        ensures
            r == self@.files.len(),
    {
        self.files.len()
    }

    /// The file at `index`, if there is one.
    pub fn get(&self, index: usize) -> (r: Option<&FileInfo>)
        ensures
            r == (if index < self@.files.len() {
                Some(&self@.files[index as int])
            } else {
                None
            }),
    {
        if index < self.files.len() {
            Some(&self.files[index])
        } else {
            None
        }
    }

    /// All files, newest first.
    pub fn iter(&self) -> (r: &[FileInfo])
        ensures
            r@ == self@.files,
            newest_first(r@),
    {
        proof {
            use_type_invariant(self);
        }
        self.files.as_slice()
    }

    /// Moves the selection one file towards the front; at the front it
    /// stays.
    pub fn select_prev(&mut self)
        ensures
            final(self)@ == (FileListView {
                selected: moved_back(old(self)@.selected, old(self)@.files.len(), false),
                ..old(self)@
            }),
    {
        proof {
            use_type_invariant(&*self);
        }
        if self.selected > 0 {
            self.selected -= 1;
        }
    }

    /// Moves the selection one file towards the front; from the front it
    /// goes to the last file.
    pub fn select_prev_wrapped(&mut self)
        ensures
            final(self)@ == (FileListView {
                selected: moved_back(old(self)@.selected, old(self)@.files.len(), true),
                ..old(self)@
            }),
    {
        proof {
            use_type_invariant(&*self);
        }
        if self.selected == 0 {
            if self.files.len() > 0 {
                self.selected = self.files.len() - 1;
            }
        } else {
            self.selected -= 1;
        }
    }

    /// Moves the selection one file towards the end; at the end it stays.
    pub fn select_next(&mut self)
        ensures
            final(self)@ == (FileListView {
                selected: moved_on(old(self)@.selected, old(self)@.files.len(), false),
                ..old(self)@
            }),
    {
        proof {
            use_type_invariant(&*self);
        }
        if self.files.len() > 0 && self.selected < self.files.len() - 1 {
            self.selected += 1;
        }
    }

    /// Moves the selection one file towards the end; from the end it goes
    /// to the first file.
    pub fn select_next_wrapped(&mut self)
        ensures
            final(self)@ == (FileListView {
                selected: moved_on(old(self)@.selected, old(self)@.files.len(), true),
                ..old(self)@
            }),
    {
        proof {
            use_type_invariant(&*self);
        }
        if self.files.len() > 0 && self.selected < self.files.len() - 1 {
            self.selected += 1;
        } else {
            self.selected = 0;
        }
    }

    /// The position of the selected file; zero in an empty list.
    pub fn selected(&self) -> (r: usize)
        ensures
            r == self@.selected,
            r == 0 || r < self@.files.len(),
    {
        proof {
            use_type_invariant(self);
        }
        self.selected
    }

    /// The selected file; `None` in an empty list.
    pub fn selected_file(&self) -> (r: Option<&FileInfo>)
        ensures
            r == (if self@.files.len() == 0 {
                None
            } else {
                Some(&self@.files[self@.selected as int])
            }),
    {
        proof {
            use_type_invariant(self);
        }
        if self.is_empty() {
            None
        } else {
            self.get(self.selected)
        }
    }

    /// Replaces the files by `files`, found anew under the same path with
    /// the same filter: they are put newest first and the first one is
    /// selected.
    pub fn refresh(&mut self, files: Vec<FileInfo>)
        ensures
            final(self)@.path == old(self)@.path,
            final(self)@.ext_filter == old(self)@.ext_filter,
            final(self)@.selected == 0,
            newest_first(final(self)@.files),
            final(self)@.files.to_multiset() == files@.to_multiset(),
    {
        proof {
            use_type_invariant(&*self);
        }
        let sorted = sort_newest_first(files);
        self.selected = 0;
        self.files = sorted;
    }
}

/// Turns key presses into moves of the selection of a file list.
#[derive(Debug)]
pub struct FileListInputCtrl;

impl Default for FileListInputCtrl {
    fn default() -> Self {
        Self::new()
    }
}

/// The selection after one frame: `up` moves it towards the front, then
/// `down` towards the end, both wrapping.
pub open spec fn selection_after(selected: nat, len: nat, keys: KeyInput) -> nat {
    let a = if keys.up {
        moved_back(selected, len, true)
    } else {
        selected
    };
    if keys.down {
        moved_on(a, len, true)
    } else {
        a
    }
}

impl FileListInputCtrl {
    /// A controller.
    pub fn new() -> Self {
        FileListInputCtrl {  }
    }

    /// Applies the keys of one frame to `fb`: `up` and `down` move the
    /// selection, wrapping at the ends. The other keys do nothing.
    pub fn process(self, keys: &KeyInput, fb: &mut FileList)
        ensures
            final(fb)@ == (FileListView {
                selected: selection_after(old(fb)@.selected, old(fb)@.files.len(), *keys),
                ..old(fb)@
            }),
    {
        if keys.up {
            fb.select_prev_wrapped();
        }
        if keys.down {
            fb.select_next_wrapped();
        }
    }
}

} // verus!
