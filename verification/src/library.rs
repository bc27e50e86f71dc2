//! The track library: the names of the audio files found in the track
//! directory, behind an entry that stands for silence.

use vstd::prelude::*;
use vstd::string::*;

verus! {

/// Index of an entry of the track library. Entry 0 stands for silence.
pub type TrackId = usize;

/// The name of the entry that stands for silence.
pub open spec fn silent_entry() -> Seq<char> {
    "None"@
}

/// The prefix that turns a track's name into its path.
pub open spec fn track_directory_prefix() -> Seq<char> {
    "./bgm/"@
}

/// The file extension of the tracks that the library lists.
pub open spec fn audio_extension() -> Seq<char> {
    seq!['.', 'm', 'p', '3']
}

/// Whether a file name ends with the audio extension.
pub open spec fn is_audio_name(name: Seq<char>) -> bool {
    name.len() >= 4 && name.subrange(name.len() - 4, name.len() as int) == audio_extension()
}

/// The texts of a sequence of strings.
pub open spec fn texts(names: Seq<String>) -> Seq<Seq<char>> {
    names.map_values(|name: String| name@)
}

/// The entries of the library for a directory that holds `files`: the silent
/// entry first, then the audio files in the order in which they were found.
pub open spec fn listing(files: Seq<Seq<char>>) -> Seq<Seq<char>> {
    seq![silent_entry()] + files.filter(|name: Seq<char>| is_audio_name(name))
}

/// What holds of every library: the silent entry comes first, and every
/// other entry is the name of an audio file.
pub open spec fn listing_wf(entries: Seq<Seq<char>>) -> bool {
    &&& entries.len() >= 1
    &&& entries[0] == silent_entry()
    &&& forall|i: int| 1 <= i < entries.len() ==> is_audio_name(#[trigger] entries[i])
}

/// The path under which a track is opened, if the entry is a track: `None`
/// for the silent entry and for an index past the end.
pub open spec fn track_path(entries: Seq<Seq<char>>, track: int) -> Option<Seq<char>> {
    if 1 <= track < entries.len() {
        Some(track_directory_prefix() + entries[track])
    } else {
        None
    }
}

/// Whether `name` ends with the audio extension.
pub fn has_audio_extension(name: &str) -> (found: bool)
    ensures
        found == is_audio_name(name@),
{
    let n: usize = name.unicode_len();
    if n < 4 {
        return false;
    }
    let found: bool = name.get_char(n - 4) == '.' && name.get_char(n - 3) == 'm' && name.get_char(
        n - 2,
    ) == 'p' && name.get_char(n - 1) == '3';
    proof {
        let tail = name@.subrange(n - 4, n as int);
        if found {
            assert(tail =~= audio_extension());
        } else {
            assert(tail[0] == name@[n - 4]);
            assert(tail[1] == name@[n - 3]);
            assert(tail[2] == name@[n - 2]);
            assert(tail[3] == name@[n - 1]);
        }
    }
    found
}

/// A copy of a list of names.
fn copy_names(names: &Vec<String>) -> (copy: Vec<String>)
    ensures
        copy@ == names@,
{
    let copy: Vec<String> = names.clone();
    assert(copy@ =~= names@);
    copy
}

/// The names that can be chosen as background track.
#[derive(Debug, PartialEq, Eq)]
pub struct TrackLibrary {
    entries: Vec<String>,
}

impl View for TrackLibrary {
    type V = Seq<Seq<char>>;

    closed spec fn view(&self) -> Seq<Seq<char>> {
        texts(self.entries@)
    }
}

impl Clone for TrackLibrary {
    fn clone(&self) -> (copy: TrackLibrary)
        ensures
            copy@ == self@,
    {
        proof {
            use_type_invariant(self);
        }
        TrackLibrary { entries: copy_names(&self.entries) }
    }
}

impl TrackLibrary {
    /// Every value of this type has a well-formed view.
    #[verifier::type_invariant]
    pub open spec fn inv(self) -> bool {
        listing_wf(self@)
    }

    /// The library of an empty directory: the silent entry alone.
    pub fn new() -> (library: TrackLibrary)
        ensures
            library@ == seq![silent_entry()],
            listing_wf(library@),
    {
        let mut entries: Vec<String> = Vec::new();
        entries.push(String::from_str("None"));
        assert(texts(entries@) =~= seq![silent_entry()]);
        TrackLibrary { entries }
    }

    /// The library of a directory that holds the files `file_names`: the
    /// silent entry, then every name that ends with the audio extension, in
    /// the order given.
    pub fn scan(file_names: &Vec<String>) -> (library: TrackLibrary)
        ensures
            library@ == listing(texts(file_names@)),
            listing_wf(library@),
    {
        let mut entries: Vec<String> = Vec::new();
        entries.push(String::from_str("None"));
        let ghost keep = |name: Seq<char>| is_audio_name(name);
        let ghost files = texts(file_names@);
        proof {
            reveal(Seq::filter);
            assert(files.take(0) =~= Seq::<Seq<char>>::empty());
            assert(texts(entries@) =~= seq![silent_entry()] + files.take(0).filter(keep));
        }
        let mut i: usize = 0;
        while i < file_names.len()
            invariant
                i <= file_names.len(),
                files == texts(file_names@),
                keep == (|name: Seq<char>| is_audio_name(name)),
                texts(entries@) == seq![silent_entry()] + files.take(i as int).filter(keep),
                listing_wf(texts(entries@)),
            decreases file_names.len() - i,
        {
            let ghost before = texts(entries@);
            let name: &String = &file_names[i];
            proof {
                reveal(Seq::filter);
                assert(files.take(i + 1).drop_last() =~= files.take(i as int));
                assert(files.take(i + 1).last() == name@);
            }
            if has_audio_extension(name.as_str()) {
                entries.push(name.clone());
                assert(texts(entries@) =~= before.push(name@));
                assert(texts(entries@) =~= seq![silent_entry()] + files.take(i + 1).filter(keep));
            }
            i = i + 1;
        }
        assert(files.take(i as int) =~= files);
        TrackLibrary { entries }
    }

    /// The number of entries, the silent one included.
    pub fn len(&self) -> (n: usize)
        ensures
            n == self@.len(),
            n >= 1,
    {
        proof {
            use_type_invariant(self);
        }
        self.entries.len()
    }

    /// The names of all entries, in order.
    pub fn names(&self) -> (names: Vec<String>)
        ensures
            texts(names@) == self@,
            listing_wf(self@),
    {
        proof {
            use_type_invariant(self);
        }
        copy_names(&self.entries)
    }

    /// The name of an entry, or `None` past the end.
    pub fn name(&self, track: TrackId) -> (name: Option<String>)
        ensures
            match name {
                Some(text) => track < self@.len() && text@ == self@[track as int],
                None => track >= self@.len(),
            },
    {
        if track < self.entries.len() {
            Some(self.entries[track].clone())
        } else {
            None
        }
    }

    /// The path under which a track is opened: the track directory and the
    /// entry's name. `None` for the silent entry and past the end.
    pub fn path(&self, track: TrackId) -> (path: Option<String>)
        ensures
            match path {
                Some(text) => track_path(self@, track as int) == Some(text@),
                None => track_path(self@, track as int).is_none(),
            },
    {
        if 1 <= track && track < self.entries.len() {
            let mut path: String = String::from_str("./bgm/");
            path.append(self.entries[track].as_str());
            Some(path)
        } else {
            None
        }
    }
}

} // verus!
