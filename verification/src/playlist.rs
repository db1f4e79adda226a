//! The playlist: an ordered list of file paths and a cursor into it.

use vstd::prelude::*;

verus! {

/// One entry of a directory listing, as the file system reported it.
#[derive(Debug)]
pub enum DirEntry {
    /// A regular file and its full path.
    File { path: String },
    /// A subdirectory and what it holds, in the order of enumeration.
    Directory { entries: Vec<DirEntry> },
    /// Anything else: a dangling link, a socket, a device.
    Other,
}

/// How far a directory is read.
#[derive(Clone, Copy, Debug, PartialEq, Eq, Structural)]
pub enum PlaylistReadMode {
    /// Only the files directly in the directory.
    FLAT,
    /// The files of the directory and of everything below it.
    RECURSIVE,
}

/// The paths that one entry contributes to a playlist.
pub open spec fn entry_files(entry: DirEntry, mode: PlaylistReadMode) -> Seq<Seq<char>>
    decreases entry, 0nat,
{
    match entry {
        DirEntry::File { path } => seq![path@],
        DirEntry::Directory { entries } => if mode == PlaylistReadMode::RECURSIVE {
            listing_files(entries, entries.len() as nat, mode)
        } else {
            Seq::empty()
        },
        DirEntry::Other => Seq::empty(),
    }
}

/// The paths that the first `n` entries of a listing contribute: depth first,
/// each subdirectory's files at the place where the subdirectory stands.
pub open spec fn listing_files(entries: Vec<DirEntry>, n: nat, mode: PlaylistReadMode) -> Seq<
    Seq<char>,
>
    decreases entries, n,
{
    if n == 0 || n > entries.len() {
        Seq::empty()
    } else {
        listing_files(entries, (n - 1) as nat, mode) + entry_files(entries[n - 1], mode)
    }
}

/// The paths held by a vector of strings.
pub open spec fn paths_of(files: Seq<String>) -> Seq<Seq<char>> {
    Seq::new(files.len(), |i: int| files[i]@)
}

/// What a playlist is: its paths in order, and the index of the current one.
pub struct PlaylistView {
    pub files: Seq<Seq<char>>,
    pub cursor: nat,
}

impl PlaylistView {
    /// The cursor points at an entry, or rests at 0 while there is none.
    pub open spec fn wf(self) -> bool {
        if self.files.len() == 0 {
            self.cursor == 0
        } else {
            self.cursor < self.files.len()
        }
    }

    /// The path under the cursor, if the playlist has any entry.
    pub open spec fn candidate(self) -> Option<Seq<char>> {
        if self.cursor < self.files.len() {
            Some(self.files[self.cursor as int])
        } else {
            None
        }
    }

    /// An entry follows the current one.
    pub open spec fn has_next(self) -> bool {
        self.cursor + 1 < self.files.len()
    }

    /// An entry precedes the current one.
    pub open spec fn has_previous(self) -> bool {
        0 < self.cursor <= self.files.len()
    }

    /// The same paths with the cursor at `cursor`.
    pub open spec fn at(self, cursor: nat) -> PlaylistView {
        PlaylistView { files: self.files, cursor }
    }

    /// The playlist after one step forward; unchanged at the last entry.
    pub open spec fn forward(self) -> PlaylistView {
        if self.has_next() {
            self.at(self.cursor + 1)
        } else {
            self
        }
    }

    /// The playlist after one step backward; unchanged at the first entry.
    pub open spec fn backward(self) -> PlaylistView {
        if self.has_previous() {
            self.at((self.cursor - 1) as nat)
        } else {
            self
        }
    }
}

/// An ordered list of file paths with a cursor on the current entry.
pub struct Playlist {
    files: Vec<String>,
    current_index: usize,
}

impl View for Playlist {
    type V = PlaylistView;

    closed spec fn view(&self) -> PlaylistView {
        PlaylistView { files: paths_of(self.files@), cursor: self.current_index as nat }
    }
}

impl Default for Playlist {
    /// The empty playlist.
    fn default() -> (playlist: Playlist)
        ensures
            playlist@.files.len() == 0,
            playlist@.cursor == 0,
            playlist.wf(),
    {
        Playlist { files: Vec::new(), current_index: 0 }
    }
}

impl Playlist {
    /// The invariant of a playlist: see [`PlaylistView::wf`].
    pub open spec fn wf(&self) -> bool {
        self@.wf()
    }

    /// The playlist of a directory's files, with the cursor on the first.
    pub fn from_directory(listing: &Vec<DirEntry>, mode: PlaylistReadMode) -> (playlist: Playlist)
        ensures
            playlist@.files == listing_files(*listing, listing.len() as nat, mode),
            playlist@.cursor == 0,
            playlist.wf(),
    {
        let files = Self::read_directory(listing, mode);
        Playlist { files, current_index: 0 }
    }

    /// Replaces the whole playlist by a directory's files and puts the cursor
    /// back on the first.
    pub fn load_directory(&mut self, listing: &Vec<DirEntry>, mode: PlaylistReadMode)
        ensures
            final(self)@.files == listing_files(*listing, listing.len() as nat, mode),
            final(self)@.cursor == 0,
            final(self).wf(),
    {
        self.files = Self::read_directory(listing, mode);
        self.current_index = 0;
    }

    /// The files of a listing in traversal order. Subdirectories are entered
    /// only in recursive mode; what is neither file nor directory is left out.
    pub fn read_directory(listing: &Vec<DirEntry>, mode: PlaylistReadMode) -> (files: Vec<String>)
        ensures
            paths_of(files@) == listing_files(*listing, listing.len() as nat, mode),
        decreases listing,
    {
        let mut files: Vec<String> = Vec::new();
        let mut i: usize = 0;
        while i < listing.len()
            invariant
                i <= listing.len(),
                paths_of(files@) =~= listing_files(*listing, i as nat, mode),
            decreases listing.len() - i,
        {
            let ghost before = files@;
            assert(listing_files(*listing, (i + 1) as nat, mode) == listing_files(
                *listing,
                i as nat,
                mode,
            ) + entry_files(listing[i as int], mode));
            match &listing[i] {
                DirEntry::File { path } => {
                    files.push(path.clone());
                    assert(paths_of(files@) =~= paths_of(before) + seq![path@]);
                    assert(entry_files(listing[i as int], mode) == seq![path@]);
                },
                DirEntry::Directory { entries } => {
                    assert(entry_files(listing[i as int], mode) == if mode
                        == PlaylistReadMode::RECURSIVE {
                        listing_files(*entries, entries.len() as nat, mode)
                    } else {
                        Seq::empty()
                    });
                    if mode == PlaylistReadMode::RECURSIVE {
                        let mut inner = Self::read_directory(entries, mode);
                        let ghost found = inner@;
                        files.append(&mut inner);
                        assert(paths_of(files@) =~= paths_of(before) + paths_of(found));
                    }
                },
                DirEntry::Other => {
                    assert(entry_files(listing[i as int], mode) == Seq::<Seq<char>>::empty());
                },
            }
            i += 1;
        }
        files
    }

    /// How many entries the playlist has.
    pub fn len(&self) -> (n: usize)
        ensures
            n == self@.files.len(),
    {
        self.files.len()
    }

    /// The paths of the playlist, in order.
    pub fn files(&self) -> (files: &Vec<String>)
        ensures
            paths_of(files@) == self@.files,
    {
        &self.files
    }

    /// The index of the current entry.
    pub fn current_index(&self) -> (index: usize)
        ensures
            index == self@.cursor,
    {
        self.current_index
    }

    /// The path of the current entry, which a caller tries to open first.
    /// `None` on an empty playlist.
    pub fn current(&self) -> (candidate: Option<String>)
        requires
            self.wf(),
        ensures
            option_path(candidate) == self@.candidate(),
    {
        if self.current_index < self.files.len() {
            Some(self.files[self.current_index].clone())
        } else {
            None
        }
    }

    /// Moves the cursor one entry forward and returns that entry's path, the
    /// next candidate to open. At the last entry the cursor stays and the
    /// result is `None`: no more files.
    pub fn next(&mut self) -> (candidate: Option<String>)
        requires
            old(self).wf(),
        ensures
            final(self).wf(),
            final(self)@ == old(self)@.forward(),
            option_path(candidate) == if old(self)@.has_next() {
                final(self)@.candidate()
            } else {
                None
            },
    {
        if self.current_index < self.files.len() && self.current_index + 1 < self.files.len() {
            self.current_index += 1;
            Some(self.files[self.current_index].clone())
        } else {
            None
        }
    }

    /// Moves the cursor one entry backward and returns that entry's path, the
    /// next candidate to open. At the first entry the cursor stays and the
    /// result is `None`.
    pub fn previous(&mut self) -> (candidate: Option<String>)
        requires
            old(self).wf(),
        ensures
            final(self).wf(),
            final(self)@ == old(self)@.backward(),
            option_path(candidate) == if old(self)@.has_previous() {
                final(self)@.candidate()
            } else {
                None
            },
    {
        if self.current_index > 0 && self.current_index - 1 < self.files.len() {
            self.current_index -= 1;
            Some(self.files[self.current_index].clone())
        } else {
            None
        }
    }
}

/// The characters of an optional path.
pub open spec fn option_path(path: Option<String>) -> Option<Seq<char>> {
    match path {
        Some(p) => Some(p@),
        None => None,
    }
}

} // verus!
