//! Static metadata of a torrent, as found in its torrent file.

use vstd::prelude::*;

use crate::bitfield::copy_strings;

verus! {

/// One file of a torrent.
#[derive(Debug)]
pub struct FileEntry {
    pub file_path: String,
    pub file_name: String,
    pub file_size: u64,
}

/// The information found in a torrent file: the file list, trackers, piece
/// geometry and identity of the torrent.
#[derive(Debug)]
pub struct TorrentInfo {
    /// The files of the torrent, in torrent order.
    pub files: Vec<FileEntry>,
    /// Tracker URLs.
    pub trackers: Vec<String>,
    /// Similar torrents, by info-hash.
    pub similar_torrents: Vec<String>,
    /// Collection names this torrent belongs to.
    pub collections: Vec<String>,
    /// Web seed URLs.
    pub web_seeds: Vec<String>,
    /// DHT nodes carried in the torrent file, as host:port.
    pub nodes: Vec<String>,
    /// The total number of bytes the torrent represents.
    pub total_size: u64,
    /// Bytes per piece, except possibly the last piece.
    pub piece_length: u32,
    /// The number of pieces.
    pub num_pieces: u32,
    /// Blocks in a typical piece; the last piece may have fewer.
    pub blocks_per_piece: u32,
    /// The torrent's info-hash, in hexadecimal.
    pub info_hash: String,
    /// The number of files.
    pub num_files: u32,
    /// The display name of the torrent.
    pub name: String,
    /// The creation date as posix time, or 0.
    pub creation_date: i64,
    /// The creator string, possibly empty.
    pub creator: String,
    /// The comment, possibly empty.
    pub comment: String,
    /// The SSL certificate, empty when this is no SSL torrent.
    pub ssl_cert: String,
    /// True for a private torrent.
    pub is_private: bool,
    /// True for an i2p torrent.
    pub is_i2p: bool,
}


/// The byte offset where file `f` starts: the sizes of the files before it,
/// summed.
pub open spec fn files_size_upto(files: Seq<FileEntry>, f: int) -> int
    decreases f,
{
    if f <= 0 {
        0
    } else {
        files_size_upto(files, f - 1) + files[f - 1].file_size as int
    }
}

/// Prefix sums of file sizes grow monotonically.
pub proof fn lemma_files_size_upto_mono(files: Seq<FileEntry>, a: int, b: int)
    requires
        0 <= a <= b,
    ensures
        0 <= files_size_upto(files, a) <= files_size_upto(files, b),
    decreases b,
{
    if b > 0 {
        if a == b {
            lemma_files_size_upto_mono(files, a - 1, b - 1);
        } else {
            lemma_files_size_upto_mono(files, a, b - 1);
        }
    }
}

/// A sound metadata record: the file count matches the file list, the file
/// sizes sum to the torrent's total size, and the piece geometry covers that
/// total with only the last piece possibly short.
pub open spec fn torrent_info_wf(info: TorrentInfo) -> bool {
    &&& info.num_files as int == info.files@.len()
    &&& files_size_upto(info.files@, info.files@.len() as int) == info.total_size as int
    &&& (info.num_pieces > 0 ==> info.piece_length > 0)
    &&& (info.num_pieces > 0 ==> info.blocks_per_piece > 0)
    &&& (info.num_pieces > 0 ==> info.total_size as int <= info.num_pieces as int
        * info.piece_length as int)
    &&& (info.num_pieces > 0 ==> info.total_size as int > (info.num_pieces as int - 1)
        * info.piece_length as int)
    &&& (info.num_pieces == 0 ==> info.total_size == 0)
}

/// Equal prefixes of equal-content file lists sum alike.
pub proof fn lemma_files_size_upto_like(a: Seq<FileEntry>, b: Seq<FileEntry>, f: int)
    requires
        a.len() == b.len(),
        forall|i: int| 0 <= i < a.len() ==> file_entry_like(#[trigger] a[i], b[i]),
        f <= a.len(),
    ensures
        files_size_upto(a, f) == files_size_upto(b, f),
    decreases f,
{
    if f > 0 {
        lemma_files_size_upto_like(a, b, f - 1);
    }
}

/// A copy carrying the same content is sound whenever its source is.
pub proof fn lemma_info_like_preserves_wf(a: TorrentInfo, b: TorrentInfo)
    requires
        torrent_info_like(a, b),
        torrent_info_wf(b),
    ensures
        torrent_info_wf(a),
{
    lemma_files_size_upto_like(a.files@, b.files@, a.files@.len() as int);
}

/// The two file entries carry the same content.
pub open spec fn file_entry_like(a: FileEntry, b: FileEntry) -> bool {
    &&& a.file_path@ == b.file_path@
    &&& a.file_name@ == b.file_name@
    &&& a.file_size == b.file_size
}

/// The two metadata records carry the same content.
pub open spec fn torrent_info_like(a: TorrentInfo, b: TorrentInfo) -> bool {
    &&& a.files@.len() == b.files@.len()
    &&& forall|i: int| 0 <= i < a.files@.len()
        ==> file_entry_like(#[trigger] a.files@[i], b.files@[i])
    &&& a.trackers@ == b.trackers@
    &&& a.similar_torrents@ == b.similar_torrents@
    &&& a.collections@ == b.collections@
    &&& a.web_seeds@ == b.web_seeds@
    &&& a.nodes@ == b.nodes@
    &&& a.total_size == b.total_size
    &&& a.piece_length == b.piece_length
    &&& a.num_pieces == b.num_pieces
    &&& a.blocks_per_piece == b.blocks_per_piece
    &&& a.info_hash@ == b.info_hash@
    &&& a.num_files == b.num_files
    &&& a.name@ == b.name@
    &&& a.creation_date == b.creation_date
    &&& a.creator@ == b.creator@
    &&& a.comment@ == b.comment@
    &&& a.ssl_cert@ == b.ssl_cert@
    &&& a.is_private == b.is_private
    &&& a.is_i2p == b.is_i2p
}

/// A fresh copy of one file entry, carrying the same content.
pub fn copy_file_entry(e: &FileEntry) -> (r: FileEntry)
    ensures
        file_entry_like(r, *e),
{
    FileEntry {
        file_path: e.file_path.clone(),
        file_name: e.file_name.clone(),
        file_size: e.file_size,
    }
}

/// A fresh copy of a metadata record, carrying the same content.
pub fn copy_torrent_info(t: &TorrentInfo) -> (r: TorrentInfo)
    ensures
        torrent_info_like(r, *t),
{
    let mut files: Vec<FileEntry> = Vec::new();
    let mut i: usize = 0;
    while i < t.files.len()
        invariant
            i <= t.files@.len(),
            files@.len() == i,
            forall|j: int| 0 <= j < i
                ==> file_entry_like(#[trigger] files@[j], t.files@[j]),
        decreases t.files@.len() - i,
    {
        files.push(copy_file_entry(&t.files[i]));
        i = i + 1;
    }
    TorrentInfo {
        files,
        trackers: copy_strings(&t.trackers),
        similar_torrents: copy_strings(&t.similar_torrents),
        collections: copy_strings(&t.collections),
        web_seeds: copy_strings(&t.web_seeds),
        nodes: copy_strings(&t.nodes),
        total_size: t.total_size,
        piece_length: t.piece_length,
        num_pieces: t.num_pieces,
        blocks_per_piece: t.blocks_per_piece,
        info_hash: t.info_hash.clone(),
        num_files: t.num_files,
        name: t.name.clone(),
        creation_date: t.creation_date,
        creator: t.creator.clone(),
        comment: t.comment.clone(),
        ssl_cert: t.ssl_cert.clone(),
        is_private: t.is_private,
        is_i2p: t.is_i2p,
    }
}

impl TorrentInfo {
    /// Metadata-less information, as known right after adding a magnet link:
    /// only the info-hash and the display name are known.
    pub fn from_magnet(info_hash: String, name: String) -> (r: TorrentInfo)
        ensures
            r.info_hash@ == info_hash@,
            r.name@ == name@,
            r.files@.len() == 0,
            r.trackers@.len() == 0,
            r.num_pieces == 0,
            r.piece_length == 0,
            r.blocks_per_piece == 0,
            r.total_size == 0,
            r.num_files == 0,
            !r.is_private,
            !r.is_i2p,
    {
        TorrentInfo {
            files: Vec::new(),
            trackers: Vec::new(),
            similar_torrents: Vec::new(),
            collections: Vec::new(),
            web_seeds: Vec::new(),
            nodes: Vec::new(),
            total_size: 0,
            piece_length: 0,
            num_pieces: 0,
            blocks_per_piece: 0,
            info_hash,
            num_files: 0,
            name,
            creation_date: 0,
            creator: String::new(),
            comment: String::new(),
            ssl_cert: String::new(),
            is_private: false,
            is_i2p: false,
        }
    }
}

} // verus!
