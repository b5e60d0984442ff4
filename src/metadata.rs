//! The metadata of a media file, read from the file's bytes: the `INFO`
//! list of a RIFF/WAVE file, or the text frames of an ID3v2 tag.
use vstd::prelude::*;
use crate::media::{
    be_u32, decoded_text, frame_encoding, le_u32, read_frame_text, read_info_text, sync_safe_u32,
    trim_nuls, RIFFChunkHeader, RIFFFileHeader, RIFFListInfoEntry, TextEncoding, ID3v2Section,
};

verus! {

/// Why the metadata of a file could not be read.
#[derive(Debug, PartialEq, Eq, Structural)]
pub enum MediaError {
    /// The file ends inside a structure that had to be read.
    Truncated,
    /// A length field does not fit the structure around it.
    Malformed,
    /// An ID3v1 tag, which is not read.
    Unsupported,
}

/// The metadata found in a file; a later occurrence of a property replaces
/// an earlier one.
pub struct MediaMetadata {
    pub title: Option<String>,
    pub artist: Option<String>,
    pub genre: Option<String>,
}

pub struct MetadataModel {
    pub title: Option<Seq<char>>,
    pub artist: Option<Seq<char>>,
    pub genre: Option<Seq<char>>,
}

impl View for MediaMetadata {
    type V = MetadataModel;

    open spec fn view(&self) -> MetadataModel {
        MetadataModel {
            title: crate::claims::opt_view(self.title),
            artist: crate::claims::opt_view(self.artist),
            genre: crate::claims::opt_view(self.genre),
        }
    }
}

pub open spec fn le_at(b: Seq<u8>, p: int) -> nat {
    le_u32(b[p], b[p + 1], b[p + 2], b[p + 3])
}

pub open spec fn fourcc_at(b: Seq<u8>, p: int, c: Seq<u8>) -> bool {
    b.subrange(p, p + 4) == c
}

pub open spec fn INAM() -> Seq<u8> {
    seq![0x49u8, 0x4eu8, 0x41u8, 0x4du8]
}

pub open spec fn IGNR() -> Seq<u8> {
    seq![0x49u8, 0x47u8, 0x4eu8, 0x52u8]
}

pub open spec fn IART() -> Seq<u8> {
    seq![0x49u8, 0x41u8, 0x52u8, 0x54u8]
}

pub open spec fn LIST() -> Seq<u8> {
    seq![0x4cu8, 0x49u8, 0x53u8, 0x54u8]
}

pub open spec fn INFO() -> Seq<u8> {
    seq![0x49u8, 0x4eu8, 0x46u8, 0x4fu8]
}

/// The entries of an `INFO` list at position `pos` of `b`, with `remaining`
/// bytes of the list left: each entry is an id, a length padded to a word,
/// and a value; names, genres and artists are read as Shift_JIS text.
/// Yields the position after the list and the metadata.
pub open spec fn info_entries(b: Seq<u8>, pos: int, remaining: int, m: MetadataModel) -> Result<
    (int, MetadataModel),
    MediaError,
>
    decreases remaining,
{
    if remaining <= 0 {
        Ok((pos, m))
    } else if pos + 8 > b.len() {
        Err(MediaError::Truncated)
    } else {
        let raw = le_at(b, pos + 4);
        let len = raw + raw % 2;
        let total = len + 8;
        let value = pos + 8;
        if raw == u32::MAX || total > u32::MAX || total > remaining {
            Err(MediaError::Malformed)
        } else {
            let known = fourcc_at(b, pos, INAM()) || fourcc_at(b, pos, IGNR()) || fourcc_at(b, pos, IART());
            if known && value + len > b.len() {
                Err(MediaError::Truncated)
            } else {
                let text = trim_nuls(decoded_text(TextEncoding::ShiftJis, b.subrange(value, value + len)));
                let m2 = if fourcc_at(b, pos, INAM()) {
                    MetadataModel { title: Some(text), ..m }
                } else if fourcc_at(b, pos, IGNR()) {
                    MetadataModel { genre: Some(text), ..m }
                } else if fourcc_at(b, pos, IART()) {
                    MetadataModel { artist: Some(text), ..m }
                } else {
                    m
                };
                info_entries(b, value + len, remaining - total, m2)
            }
        }
    }
}

/// The chunks of a RIFF file from position `pos` on; the walk ends where no
/// whole chunk header is left.
pub open spec fn riff_chunks(b: Seq<u8>, pos: int, m: MetadataModel) -> Result<MetadataModel, MediaError>
    decreases b.len() - pos,
{
    if pos < 0 || pos + 8 > b.len() {
        Ok(m)
    } else {
        let len = le_at(b, pos + 4);
        let body = pos + 8;
        if fourcc_at(b, pos, LIST()) {
            if body + 4 > b.len() {
                Err(MediaError::Truncated)
            } else if len < 4 {
                Err(MediaError::Malformed)
            } else if fourcc_at(b, body, INFO()) {
                match info_entries(b, body + 4, len - 4, m) {
                    Err(e) => Err(e),
                    Ok((p, m2)) => if pos < p < b.len() {
                        riff_chunks(b, p, m2)
                    } else {
                        Ok(m2)
                    },
                }
            } else if body + len < b.len() {
                riff_chunks(b, body + len, m)
            } else {
                Ok(m)
            }
        } else if body + len < b.len() {
            riff_chunks(b, body + len, m)
        } else {
            Ok(m)
        }
    }
}

fn header_at(b: &[u8], p: u64) -> (r: [u8; 8])
    requires
        p + 8 <= b@.len(),
    ensures
        r@ == b@.subrange(p as int, p + 8),
{
    let i = p as usize;
    let r = [b[i], b[i + 1], b[i + 2], b[i + 3], b[i + 4], b[i + 5], b[i + 6], b[i + 7]];
    assert(r@ =~= b@.subrange(p as int, p + 8));
    r
}

fn read_info_entries(b: &[u8], pos: u64, remaining: u64, m: MediaMetadata) -> (r: Result<
    (u64, MediaMetadata),
    MediaError,
>)
    requires
        b@.len() <= u32::MAX,
        pos <= 2 * (u32::MAX as int),
        remaining <= u32::MAX,
    ensures
        match (r, info_entries(b@, pos as int, remaining as int, m@)) {
            (Ok((p, mm)), Ok((sp, sm))) => p == sp && mm@ == sm,
            (Err(e), Err(f)) => e == f,
            _ => false,
        },
{
    let ghost target = info_entries(b@, pos as int, remaining as int, m@);
    let mut at = pos;
    let mut left = remaining;
    let mut meta = m;
    let ghost start = at + left;
    while left > 0
        invariant
            b@.len() <= u32::MAX,
            left <= u32::MAX,
            at + left <= start,
            start <= 3 * (u32::MAX as int),
            target == info_entries(b@, pos as int, remaining as int, m@),
            target == info_entries(b@, at as int, left as int, meta@),
        decreases left,
    {
        if at + 8 > b.len() as u64 {
            return Err(MediaError::Truncated);
        }
        let head = header_at(b, at);
        assert(head@[4] == b@[at + 4] && head@[5] == b@[at + 5] && head@[6] == b@[at + 6] && head@[7] == b@[at + 7]);
        let entry = match RIFFListInfoEntry::parse_header(&head) {
            Some(e) => e,
            None => return Err(MediaError::Malformed),
        };
        let len = entry.byte_length as u64;
        let total = len + 8;
        if total > 0xffff_ffff || total > left {
            return Err(MediaError::Malformed);
        }
        let value = at + 8;
        let kind = entry.kind();
        assert(entry.id@ == b@.subrange(at as int, at + 4)) by {
            assert(head@.subrange(0, 4) =~= b@.subrange(at as int, at + 4));
        }
        if kind != crate::media::InfoEntryKind::Unknown {
            if value + len > b.len() as u64 {
                return Err(MediaError::Truncated);
            }
            let bytes = vstd::slice::slice_subrange(b, value as usize, (value + len) as usize);
            let text = read_info_text(bytes);
            match kind {
                crate::media::InfoEntryKind::Name => meta.title = Some(text),
                crate::media::InfoEntryKind::Genre => meta.genre = Some(text),
                crate::media::InfoEntryKind::Artist => meta.artist = Some(text),
                crate::media::InfoEntryKind::Unknown => {},
            }
        }
        at = value + len;
        left = left - total;
    }
    Ok((at, meta))
}

fn read_riff_chunks(b: &[u8], pos: u64, m: MediaMetadata) -> (r: Result<MediaMetadata, MediaError>)
    requires
        b@.len() <= u32::MAX,
        pos <= u32::MAX,
    ensures
        match (r, riff_chunks(b@, pos as int, m@)) {
            (Ok(mm), Ok(sm)) => mm@ == sm,
            (Err(e), Err(f)) => e == f,
            _ => false,
        },
{
    let ghost target = riff_chunks(b@, pos as int, m@);
    let mut at = pos;
    let mut meta = m;
    let n = b.len() as u64;
    loop
        invariant
            b@.len() <= u32::MAX,
            n == b@.len(),
            at <= u32::MAX,
            target == riff_chunks(b@, pos as int, m@),
            target == riff_chunks(b@, at as int, meta@),
        decreases n - at,
    {
        if at + 8 > n {
            return Ok(meta);
        }
        let head = header_at(b, at);
        assert(head@[4] == b@[at + 4] && head@[5] == b@[at + 5] && head@[6] == b@[at + 6] && head@[7] == b@[at + 7]);
        let chunk = RIFFChunkHeader::parse(&head);
        assert(chunk.id@ == b@.subrange(at as int, at + 4)) by {
            assert(head@.subrange(0, 4) =~= b@.subrange(at as int, at + 4));
        }
        let len = chunk.byte_length as u64;
        let body = at + 8;
        let next: u64;
        if chunk.is_list() {
            if body + 4 > n {
                return Err(MediaError::Truncated);
            }
            if len < 4 {
                return Err(MediaError::Malformed);
            }
            let i = body as usize;
            let is_info = b[i] == 0x49u8 && b[i + 1] == 0x4eu8 && b[i + 2] == 0x46u8 && b[i + 3] == 0x4fu8;
            assert(is_info == fourcc_at(b@, body as int, INFO())) by {
                if is_info {
                    assert(b@.subrange(body as int, body + 4) =~= INFO());
                }
            }
            if is_info {
                let (p, m2) = read_info_entries(b, body + 4, len - 4, meta)?;
                if !(at < p && p < n) {
                    return Ok(m2);
                }
                meta = m2;
                next = p;
            } else {
                if !(body + len < n) {
                    return Ok(meta);
                }
                next = body + len;
            }
        } else {
            if !(body + len < n) {
                return Ok(meta);
            }
            next = body + len;
        }
        at = next;
    }
}

pub open spec fn TIT2() -> Seq<u8> {
    seq![0x54u8, 0x49u8, 0x54u8, 0x32u8]
}

pub open spec fn TPE1() -> Seq<u8> {
    seq![0x54u8, 0x50u8, 0x45u8, 0x31u8]
}

pub open spec fn TCON() -> Seq<u8> {
    seq![0x54u8, 0x43u8, 0x4fu8, 0x4eu8]
}

/// The frames of an ID3v2 tag of `size` bytes, at position `pos` of `b`
/// with `offset` bytes of the tag read: each frame is an id, a size (sync-safe
/// from version 2.4 on), flags, and a value; titles, artists and genres are
/// text whose first byte names its encoding.
pub open spec fn id3_frames(
    b: Seq<u8>,
    pos: int,
    offset: int,
    size: int,
    sync_safe: bool,
    m: MetadataModel,
) -> Result<MetadataModel, MediaError>
    decreases size - offset,
{
    if offset >= size {
        Ok(m)
    } else if pos + 10 > b.len() {
        Err(MediaError::Truncated)
    } else {
        let fsize = if sync_safe {
            sync_safe_u32(b[pos + 4], b[pos + 5], b[pos + 6], b[pos + 7])
        } else {
            be_u32(b[pos + 4], b[pos + 5], b[pos + 6], b[pos + 7])
        };
        let value = pos + 10;
        let known = fourcc_at(b, pos, TIT2()) || fourcc_at(b, pos, TPE1()) || fourcc_at(b, pos, TCON());
        if known && fsize == 0 {
            Err(MediaError::Malformed)
        } else if known && value + fsize > b.len() {
            Err(MediaError::Truncated)
        } else if offset + fsize + 10 > u32::MAX {
            Err(MediaError::Malformed)
        } else {
            let text = decoded_text(frame_encoding(b[value]), b.subrange(value + 1, value + fsize));
            let m2 = if fourcc_at(b, pos, TIT2()) {
                MetadataModel { title: Some(text), ..m }
            } else if fourcc_at(b, pos, TPE1()) {
                MetadataModel { artist: Some(text), ..m }
            } else if fourcc_at(b, pos, TCON()) {
                MetadataModel { genre: Some(text), ..m }
            } else {
                m
            };
            if offset + fsize + 10 >= size {
                Ok(m2)
            } else {
                id3_frames(b, value + fsize, offset + fsize + 10, size, sync_safe, m2)
            }
        }
    }
}

fn frame_header_at(b: &[u8], p: u64) -> (r: [u8; 10])
    requires
        p + 10 <= b@.len(),
    ensures
        r@ == b@.subrange(p as int, p + 10),
{
    let i = p as usize;
    let r = [b[i], b[i + 1], b[i + 2], b[i + 3], b[i + 4], b[i + 5], b[i + 6], b[i + 7], b[i + 8], b[i + 9]];
    assert(r@ =~= b@.subrange(p as int, p + 10));
    r
}

fn read_id3_frames(b: &[u8], section: &ID3v2Section, m: MediaMetadata) -> (r: Result<MediaMetadata, MediaError>)
    requires
        b@.len() <= u32::MAX,
    ensures
        match (r, id3_frames(b@, 10, 0, section.size as int, section.minor_version >= 4, m@)) {
            (Ok(mm), Ok(sm)) => mm@ == sm,
            (Err(e), Err(f)) => e == f,
            _ => false,
        },
{
    let ghost sync_safe = section.minor_version >= 4;
    let ghost target = id3_frames(b@, 10, 0, section.size as int, sync_safe, m@);
    let mut at: u64 = 10;
    let mut offset: u64 = 0;
    let mut meta = m;
    let n = b.len() as u64;
    while offset < section.size as u64
        invariant
            b@.len() <= u32::MAX,
            n == b@.len(),
            offset <= u32::MAX,
            at <= n + 0xffff_ffff,
            sync_safe == (section.minor_version >= 4),
            target == id3_frames(b@, 10, 0, section.size as int, sync_safe, m@),
            target == id3_frames(b@, at as int, offset as int, section.size as int, sync_safe, meta@),
        decreases section.size - offset,
    {
        if at + 10 > n {
            return Err(MediaError::Truncated);
        }
        let head = frame_header_at(b, at);
        let frame = section.parse_frame_header(&head);
        assert(frame.id@ == b@.subrange(at as int, at + 4)) by {
            assert(head@.subrange(0, 4) =~= b@.subrange(at as int, at + 4));
        }
        assert(head@[4] == b@[at + 4] && head@[5] == b@[at + 5] && head@[6] == b@[at + 6] && head@[7] == b@[at + 7]);
        let fsize = frame.size as u64;
        let value = at + 10;
        let i = at as usize;
        let is_title = b[i] == 0x54u8 && b[i + 1] == 0x49u8 && b[i + 2] == 0x54u8 && b[i + 3] == 0x32u8;
        let is_artist = b[i] == 0x54u8 && b[i + 1] == 0x50u8 && b[i + 2] == 0x45u8 && b[i + 3] == 0x31u8;
        let is_genre = b[i] == 0x54u8 && b[i + 1] == 0x43u8 && b[i + 2] == 0x4fu8 && b[i + 3] == 0x4eu8;
        assert(is_title == fourcc_at(b@, at as int, TIT2())) by {
            if is_title {
                assert(b@.subrange(at as int, at + 4) =~= TIT2());
            }
        }
        assert(is_artist == fourcc_at(b@, at as int, TPE1())) by {
            if is_artist {
                assert(b@.subrange(at as int, at + 4) =~= TPE1());
            }
        }
        assert(is_genre == fourcc_at(b@, at as int, TCON())) by {
            if is_genre {
                assert(b@.subrange(at as int, at + 4) =~= TCON());
            }
        }
        if is_title || is_artist || is_genre {
            if fsize == 0 {
                return Err(MediaError::Malformed);
            }
            if value + fsize > n {
                return Err(MediaError::Truncated);
            }
        }
        if offset + fsize + 10 > 0xffff_ffff {
            return Err(MediaError::Malformed);
        }
        if is_title || is_artist || is_genre {
            let bytes = vstd::slice::slice_subrange(b, value as usize, (value + fsize) as usize);
            let text = read_frame_text(bytes);
            assert(bytes@.subrange(1, bytes@.len() as int) =~= b@.subrange(value + 1, value + fsize));
            if is_title {
                meta.title = Some(text);
            } else if is_artist {
                meta.artist = Some(text);
            } else {
                meta.genre = Some(text);
            }
        }
        if offset + fsize + 10 >= section.size as u64 {
            return Ok(meta);
        }
        at = value + fsize;
        offset = offset + fsize + 10;
    }
    Ok(meta)
}

pub open spec fn empty_metadata() -> MetadataModel {
    MetadataModel { title: None, artist: None, genre: None }
}

/// The metadata of an ID3v2-tagged file, after the check for an ID3v1 tag
/// in the last 128 bytes.
pub open spec fn id3_metadata_of(b: Seq<u8>) -> Result<MetadataModel, MediaError> {
    if b.len() < 128 {
        Err(MediaError::Truncated)
    } else if b.subrange(b.len() - 128, b.len() - 125) == seq![0x54u8, 0x41u8, 0x47u8] {
        Err(MediaError::Unsupported)
    } else if !(b[0] == 0x49 && b[1] == 0x44 && b[2] == 0x33) {
        Ok(empty_metadata())
    } else {
        id3_frames(
            b,
            10,
            0,
            sync_safe_u32(b[6], b[7], b[8], b[9]) as int,
            b[3] >= 4,
            empty_metadata(),
        )
    }
}

/// The metadata of the file whose bytes are `b`: a RIFF/WAVE file is read
/// through its `INFO` lists; any other file through its ID3v2 tag, if any.
pub open spec fn metadata_of(b: Seq<u8>) -> Result<MetadataModel, MediaError> {
    if b.len() < 4 {
        Err(MediaError::Truncated)
    } else if b.subrange(0, 4) == seq![0x52u8, 0x49u8, 0x46u8, 0x46u8] {
        if b.len() < 12 {
            Err(MediaError::Truncated)
        } else if b.subrange(8, 12) == seq![0x57u8, 0x41u8, 0x56u8, 0x45u8] {
            riff_chunks(b, 12, empty_metadata())
        } else {
            id3_metadata_of(b)
        }
    } else {
        id3_metadata_of(b)
    }
}

fn read_id3_metadata(b: &[u8]) -> (r: Result<MediaMetadata, MediaError>)
    requires
        b@.len() <= u32::MAX,
    ensures
        match (r, id3_metadata_of(b@)) {
            (Ok(mm), Ok(sm)) => mm@ == sm,
            (Err(e), Err(f)) => e == f,
            _ => false,
        },
{
    let n = b.len();
    if n < 128 {
        return Err(MediaError::Truncated);
    }
    let t = n - 128;
    if b[t] == 0x54u8 && b[t + 1] == 0x41u8 && b[t + 2] == 0x47u8 {
        assert(b@.subrange(n - 128, n - 125) =~= seq![0x54u8, 0x41u8, 0x47u8]);
        return Err(MediaError::Unsupported);
    }
    assert(b@.subrange(n - 128, n - 125) != seq![0x54u8, 0x41u8, 0x47u8]) by {
        if b@.subrange(n - 128, n - 125) == seq![0x54u8, 0x41u8, 0x47u8] {
            assert(b@.subrange(n - 128, n - 125)[0] == b@[t as int]);
            assert(b@.subrange(n - 128, n - 125)[1] == b@[t + 1]);
            assert(b@.subrange(n - 128, n - 125)[2] == b@[t + 2]);
        }
    }
    let head = frame_header_at(b, 0);
    let section = match ID3v2Section::parse(&head) {
        Some(s) => s,
        None => {
            return Ok(MediaMetadata { title: None, artist: None, genre: None });
        },
    };
    let empty = MediaMetadata { title: None, artist: None, genre: None };
    read_id3_frames(b, &section, empty)
}

/// Reads the metadata of the file whose bytes are `bytes`.
pub fn media_metadata(bytes: &[u8]) -> (r: Result<MediaMetadata, MediaError>)
    requires
        bytes@.len() <= u32::MAX,
    ensures
        match (r, metadata_of(bytes@)) {
            (Ok(mm), Ok(sm)) => mm@ == sm,
            (Err(e), Err(f)) => e == f,
            _ => false,
        },
{
    let n = bytes.len();
    if n < 4 {
        return Err(MediaError::Truncated);
    }
    let riff = bytes[0] == 0x52u8 && bytes[1] == 0x49u8 && bytes[2] == 0x46u8 && bytes[3] == 0x46u8;
    assert(riff == (bytes@.subrange(0, 4) == seq![0x52u8, 0x49u8, 0x46u8, 0x46u8])) by {
        if riff {
            assert(bytes@.subrange(0, 4) =~= seq![0x52u8, 0x49u8, 0x46u8, 0x46u8]);
        } else if bytes@.subrange(0, 4) == seq![0x52u8, 0x49u8, 0x46u8, 0x46u8] {
            assert(bytes@.subrange(0, 4)[0] == bytes@[0]);
            assert(bytes@.subrange(0, 4)[1] == bytes@[1]);
            assert(bytes@.subrange(0, 4)[2] == bytes@[2]);
            assert(bytes@.subrange(0, 4)[3] == bytes@[3]);
        }
    }
    if riff {
        if n < 12 {
            return Err(MediaError::Truncated);
        }
        let head = [
            bytes[0], bytes[1], bytes[2], bytes[3], bytes[4], bytes[5], bytes[6], bytes[7],
            bytes[8], bytes[9], bytes[10], bytes[11],
        ];
        assert(head@.subrange(8, 12) =~= bytes@.subrange(8, 12));
        let header = match RIFFFileHeader::parse(&head) {
            Some(h) => h,
            None => return Err(MediaError::Truncated),
        };
        if header.is_wave() {
            let empty = MediaMetadata { title: None, artist: None, genre: None };
            return read_riff_chunks(bytes, 12, empty);
        }
    }
    read_id3_metadata(bytes)
}

} // verus!
