use jwt_validator::metadata::{media_metadata, MediaError};

fn le(n: u32) -> [u8; 4] {
    n.to_le_bytes()
}

fn info_entry(id: &[u8; 4], value: &[u8]) -> Vec<u8> {
    let mut out = id.to_vec();
    out.extend(le(value.len() as u32));
    out.extend(value);
    if value.len() % 2 == 1 {
        out.push(0);
    }
    out
}

fn wave(chunks: &[Vec<u8>]) -> Vec<u8> {
    let body: Vec<u8> = chunks.concat();
    let mut out = b"RIFF".to_vec();
    out.extend(le(body.len() as u32 + 4));
    out.extend(b"WAVE");
    out.extend(body);
    out
}

fn chunk(id: &[u8; 4], body: &[u8]) -> Vec<u8> {
    let mut out = id.to_vec();
    out.extend(le(body.len() as u32));
    out.extend(body);
    out
}

#[test]
fn wave_info_list_is_read() {
    let mut info = b"INFO".to_vec();
    info.extend(info_entry(b"INAM", b"Song\0"));
    info.extend(info_entry(b"ICMT", b"skip me"));
    info.extend(info_entry(b"IART", b"\x82\xa0"));
    info.extend(info_entry(b"IGNR", b"Rock"));
    let file = wave(&[chunk(b"fmt ", &[0; 16]), chunk(b"LIST", &info), chunk(b"data", &[1, 2, 3, 4])]);
    let m = media_metadata(&file).ok().unwrap();
    assert_eq!(m.title.as_deref(), Some("Song"));
    assert_eq!(m.artist.as_deref(), Some("あ"));
    assert_eq!(m.genre.as_deref(), Some("Rock"));
}

#[test]
fn later_entries_replace_earlier_ones() {
    let mut info = b"INFO".to_vec();
    info.extend(info_entry(b"INAM", b"one"));
    info.extend(info_entry(b"INAM", b"two"));
    let file = wave(&[chunk(b"LIST", &info)]);
    assert_eq!(media_metadata(&file).ok().unwrap().title.as_deref(), Some("two"));
}

#[test]
fn non_info_lists_are_skipped() {
    let file = wave(&[chunk(b"LIST", b"adtlxxxx"), chunk(b"data", &[])]);
    let m = media_metadata(&file).ok().unwrap();
    assert!(m.title.is_none() && m.artist.is_none() && m.genre.is_none());
}

#[test]
fn broken_wave_files() {
    let mut info = b"INFO".to_vec();
    info.extend(info_entry(b"INAM", b"Song"));
    let mut file = wave(&[chunk(b"LIST", &info)]);
    file.truncate(file.len() - 2);
    assert_eq!(media_metadata(&file).err(), Some(MediaError::Truncated));
    let short_list = wave(&[chunk(b"LIST", b"IN")]);
    assert_eq!(media_metadata(&short_list).err(), Some(MediaError::Truncated));
    let tiny = wave(&[chunk(b"LIST", b"")]);
    assert_eq!(media_metadata(&[&tiny[..], b"INFO"].concat()).err(), Some(MediaError::Malformed));
    assert_eq!(media_metadata(b"RI").err(), Some(MediaError::Truncated));
    assert_eq!(media_metadata(b"RIFF\0\0").err(), Some(MediaError::Truncated));
}

fn id3_file(version: u8, frames: &[u8], tag_size: u32) -> Vec<u8> {
    let mut out = b"ID3".to_vec();
    out.extend([version, 0, 0]);
    out.extend([
        ((tag_size >> 21) & 0x7f) as u8,
        ((tag_size >> 14) & 0x7f) as u8,
        ((tag_size >> 7) & 0x7f) as u8,
        (tag_size & 0x7f) as u8,
    ]);
    out.extend(frames);
    out.resize(out.len().max(200), 0);
    out
}

fn frame(id: &[u8; 4], value: &[u8]) -> Vec<u8> {
    let mut out = id.to_vec();
    out.extend((value.len() as u32).to_be_bytes());
    out.extend([0, 0]);
    out.extend(value);
    out
}

#[test]
fn id3_text_frames_are_read() {
    let frames = [
        frame(b"TIT2", b"\x03Title"),
        frame(b"TXXX", b"\x03ignored"),
        frame(b"TPE1", b"\x01A\x00r\x00"),
        frame(b"TCON", b"\x00Jazz"),
    ]
    .concat();
    let file = id3_file(3, &frames, frames.len() as u32);
    let m = media_metadata(&file).ok().unwrap();
    assert_eq!(m.title.as_deref(), Some("Title"));
    assert_eq!(m.artist.as_deref(), Some("Ar"));
    assert_eq!(m.genre.as_deref(), Some("Jazz"));
}

#[test]
fn id3_v4_sizes_are_sync_safe() {
    let value = [b"\x03".to_vec(), vec![b'x'; 200]].concat();
    let mut f = b"TIT2".to_vec();
    f.extend([0, 0, 0x01, 0x49]);
    f.extend([0, 0]);
    f.extend(&value);
    let file = id3_file(4, &f, f.len() as u32);
    assert_eq!(media_metadata(&file).ok().unwrap().title.map(|t| t.len()), Some(200));
}

#[test]
fn other_files() {
    let plain = vec![0u8; 300];
    let m = media_metadata(&plain).ok().unwrap();
    assert!(m.title.is_none());
    let mut v1 = vec![0u8; 300];
    v1[172..175].copy_from_slice(b"TAG");
    assert_eq!(media_metadata(&v1).err(), Some(MediaError::Unsupported));
    assert_eq!(media_metadata(b"ID3\x03").err(), Some(MediaError::Truncated));
    let empty_title = frame(b"TIT2", b"");
    let file = id3_file(3, &empty_title, empty_title.len() as u32);
    assert_eq!(media_metadata(&file).err(), Some(MediaError::Malformed));
}
