use vstd::prelude::*;

verus! {

/// Identifier handed out to directories and songs, in the order the scan meets them.
#[derive(Clone, Copy, Debug, PartialEq, Eq, Structural)]
pub struct Id(pub usize);

impl Id {
    /// Advance the Id by one and return the previous value.
    pub fn adv(&mut self) -> (r: Id)
        requires
            old(self).0 < usize::MAX,
        ensures
            r == *old(self),
            final(self).0 == old(self).0 + 1,
    {
        let prev = *self;
        self.0 = self.0 + 1;
        prev
    }
}

/// One playable track: where it lives and what its tag says.
#[derive(Debug)]
pub struct Song {
    pub id: Id,
    pub path: String,
    pub title: String,
    pub artist: String,
    pub album_title: String,
    pub disc_number: u16,
    pub track_number: u16,
}

impl Clone for Song {
    fn clone(&self) -> (r: Self)
        ensures
            r == *self,
    {
        Song {
            id: self.id,
            path: self.path.clone(),
            title: self.title.clone(),
            artist: self.artist.clone(),
            album_title: self.album_title.clone(),
            disc_number: self.disc_number,
            track_number: self.track_number,
        }
    }
}

/// A song with its text fields seen as character sequences.
pub struct SongView {
    pub id: usize,
    pub path: Seq<char>,
    pub title: Seq<char>,
    pub artist: Seq<char>,
    pub album_title: Seq<char>,
    pub disc_number: u16,
    pub track_number: u16,
}

impl View for Song {
    type V = SongView;

    open spec fn view(&self) -> SongView {
        SongView {
            id: self.id.0,
            path: self.path@,
            title: self.title@,
            artist: self.artist@,
            album_title: self.album_title@,
            disc_number: self.disc_number,
            track_number: self.track_number,
        }
    }
}

/// What the tag of an MP3 file holds. Only the artist is mandatory.
#[derive(Debug)]
pub struct SongTags {
    pub title: Option<String>,
    pub artist: String,
    pub album_title: Option<String>,
    pub disc_number: Option<u16>,
    pub track_number: Option<u16>,
}

/// One step of a depth-first walk over a directory tree.
#[derive(Debug)]
pub enum ScanEntry {
    /// A directory is entered; its contents follow until the matching `Leave`.
    Enter(String),
    /// An MP3 file whose tag could be read.
    Song(String, SongTags),
    /// The directory entered last is done.
    Leave,
}

/// The song that a tagged file at `path` becomes under identifier `id`.
pub open spec fn song_of(path: Seq<char>, tags: SongTags, id: nat) -> SongView {
    SongView {
        id: id as usize,
        path,
        title: match tags.title {
            Some(t) => t@,
            None => "untitled"@,
        },
        artist: tags.artist@,
        album_title: match tags.album_title {
            Some(a) => a@,
            None => Seq::empty(),
        },
        disc_number: match tags.disc_number {
            Some(d) => d,
            None => 1,
        },
        track_number: match tags.track_number {
            Some(t) => t,
            None => 0,
        },
    }
}

/// Directories and songs each take one identifier; leaving a directory takes none.
pub open spec fn takes_id(e: ScanEntry) -> bool {
    !(e is Leave)
}

/// How many identifiers a walk hands out.
pub open spec fn ids_taken(es: Seq<ScanEntry>) -> nat
    decreases es.len(),
{
    if es.len() == 0 {
        0
    } else {
        ids_taken(es.drop_last()) + if takes_id(es.last()) {
            1nat
        } else {
            0nat
        }
    }
}

/// The songs a walk yields, in the order it meets them.
pub open spec fn scanned_songs(es: Seq<ScanEntry>) -> Seq<SongView>
    decreases es.len(),
{
    if es.len() == 0 {
        Seq::empty()
    } else {
        let prev = scanned_songs(es.drop_last());
        match es.last() {
            ScanEntry::Song(p, t) => prev.push(song_of(p@, t, ids_taken(es.drop_last()))),
            _ => prev,
        }
    }
}

proof fn lemma_ids_taken_bounded(es: Seq<ScanEntry>)
    ensures
        ids_taken(es) <= es.len(),
    decreases es.len(),
{
    if es.len() > 0 {
        lemma_ids_taken_bounded(es.drop_last());
    }
}

struct Directory {
    id: Id,
    path: String,
    directories: Vec<Id>,
    songs: Vec<Id>,
}

/// The songs found under one root directory, and the directory tree they sit in.
pub struct Library {
    nextid: Id,
    directories: Vec<Directory>,
    songs: Vec<Song>,
}

impl Library {
    /// The songs, in scan order.
    pub closed spec fn song_list(&self) -> Seq<Song> {
        self.songs@
    }

    /// The identifier the next directory or song would take.
    pub closed spec fn next_id(&self) -> nat {
        self.nextid.0 as nat
    }

    /// Builds the library from a depth-first walk. Directories left open at the end
    /// of the walk are closed as if it had left them.
    pub fn scan(entries: &Vec<ScanEntry>) -> (r: Library)
        requires
            entries@.len() < usize::MAX,
        ensures
            r.song_list().map_values(|s: Song| s@) == scanned_songs(entries@),
            r.next_id() == ids_taken(entries@),
    {
        let mut this = Library { nextid: Id(0), directories: Vec::new(), songs: Vec::new() };
        let mut open: Vec<Directory> = Vec::new();
        let mut i: usize = 0;
        assert(entries@.take(0) =~= Seq::<ScanEntry>::empty());
        assert(this.songs@.map_values(|s: Song| s@) =~= Seq::<SongView>::empty());
        while i < entries.len()
            invariant
                i <= entries@.len(),
                entries@.len() < usize::MAX,
                this.nextid.0 == ids_taken(entries@.take(i as int)),
                this.songs@.map_values(|s: Song| s@) == scanned_songs(entries@.take(i as int)),
            decreases entries@.len() - i,
        {
            let ghost pre = entries@.take(i as int);
            let ghost next = entries@.take(i + 1);
            assert(next.drop_last() =~= pre);
            assert(next.last() == entries@[i as int]);
            proof {
                lemma_ids_taken_bounded(pre);
            }
            match &entries[i] {
                ScanEntry::Enter(p) => {
                    let id = this.nextid.adv();
                    open.push(
                        Directory { id, path: p.clone(), directories: Vec::new(), songs: Vec::new() },
                    );
                },
                ScanEntry::Song(p, t) => {
                    let id = this.read_song(p, t);
                    assert(this.songs@.map_values(|s: Song| s@) =~= scanned_songs(next));
                    if let Some(mut dir) = open.pop() {
                        dir.songs.push(id);
                        open.push(dir);
                    }
                },
                ScanEntry::Leave => {
                    close_dir(&mut open, &mut this.directories);
                },
            }
            i = i + 1;
        }
        assert(entries@.take(i as int) =~= entries@);
        while open.len() > 0
            invariant
                this.nextid.0 == ids_taken(entries@),
                this.songs@.map_values(|s: Song| s@) == scanned_songs(entries@),
            decreases open@.len(),
        {
            close_dir(&mut open, &mut this.directories);
        }
        this
    }

    /// The songs, in scan order.
    pub fn songs(&self) -> (r: &[Song])
        ensures
            r@ == self.song_list(),
    {
        self.songs.as_slice()
    }

    fn read_song(&mut self, path: &String, tags: &SongTags) -> (r: Id)
        requires
            old(self).nextid.0 < usize::MAX,
        ensures
            r == old(self).nextid,
            final(self).nextid.0 == old(self).nextid.0 + 1,
            final(self).directories == old(self).directories,
            final(self).songs@ == old(self).songs@.push(final(self).songs@.last()),
            final(self).songs@.last()@ == song_of(path@, *tags, r.0 as nat),
    {
        let title = match &tags.title {
            Some(t) => t.clone(),
            None => "untitled".to_owned(),
        };
        let album_title = match &tags.album_title {
            Some(a) => a.clone(),
            None => String::new(),
        };
        let disc_number: u16 = match tags.disc_number {
            Some(d) => d,
            None => 1,
        };
        let track_number: u16 = match tags.track_number {
            Some(t) => t,
            None => 0,
        };
        let id = self.nextid.adv();
        self.songs.push(
            Song {
                id,
                title,
                artist: tags.artist.clone(),
                album_title,
                disc_number,
                track_number,
                path: path.clone(),
            },
        );
        id
    }
}

/// Pops the innermost open directory, files it, and records it in its parent.
fn close_dir(open: &mut Vec<Directory>, done: &mut Vec<Directory>)
    ensures
        final(open)@.len() == if old(open)@.len() > 0 {
            old(open)@.len() - 1
        } else {
            0
        },
{
    if let Some(dir) = open.pop() {
        let id = dir.id;
        done.push(dir);
        if let Some(mut parent) = open.pop() {
            parent.directories.push(id);
            open.push(parent);
        }
    }
}

} // verus!
