//! The fixed-size headers of RIFF/WAVE and ID3v2 media files, decoded from
//! bytes that the caller has read.
use vstd::prelude::*;

verus! {

/// A four-character code.
pub type Fourcc = [u8; 4];

/// The unsigned integer that four bytes hold, least significant first.
pub open spec fn le_u32(b0: u8, b1: u8, b2: u8, b3: u8) -> nat {
    b0 as nat + 256 * b1 as nat + 65536 * b2 as nat + 16777216 * b3 as nat
}

/// The unsigned integer that four bytes hold, most significant first.
pub open spec fn be_u32(b0: u8, b1: u8, b2: u8, b3: u8) -> nat {
    le_u32(b3, b2, b1, b0)
}

/// The integer that four sync-safe bytes hold: seven bits of each, most
/// significant first; the top bit of each byte is ignored.
pub open spec fn sync_safe_u32(b0: u8, b1: u8, b2: u8, b3: u8) -> nat {
    (b0 % 128) as nat * 2097152 + (b1 % 128) as nat * 16384 + (b2 % 128) as nat * 128 + (b3
        % 128) as nat
}

fn read_le_u32(b0: u8, b1: u8, b2: u8, b3: u8) -> (r: u32)
    ensures
        r as nat == le_u32(b0, b1, b2, b3),
{
    let r = (b0 as u32) | (b1 as u32) << 8u32 | (b2 as u32) << 16u32 | (b3 as u32) << 24u32;
    assert(r == (b0 as u32) + 256 * (b1 as u32) + 65536 * (b2 as u32) + 16777216 * (b3 as u32))
        by (bit_vector)
        requires
            r == (b0 as u32) | (b1 as u32) << 8u32 | (b2 as u32) << 16u32 | (b3 as u32) << 24u32,
    ;
    r
}

/// Reads a sync-safe integer from four bytes.
pub fn read_sync_safe_integer(raw: [u8; 4]) -> (r: u32)
    ensures
        r as nat == sync_safe_u32(raw[0], raw[1], raw[2], raw[3]),
{
    let (r0, r1, r2, r3) = (raw[0], raw[1], raw[2], raw[3]);
    let b0 = r0 & 0x7f;
    let b1 = r1 & 0x7f;
    let b2 = r2 & 0x7f;
    let b3 = r3 & 0x7f;
    assert(b0 == r0 % 128 && b1 == r1 % 128 && b2 == r2 % 128 && b3 == r3 % 128) by (bit_vector)
        requires
            b0 == r0 & 0x7f,
            b1 == r1 & 0x7f,
            b2 == r2 & 0x7f,
            b3 == r3 & 0x7f,
    ;
    let r = (b0 as u32) << 21u32 | (b1 as u32) << 14u32 | (b2 as u32) << 7u32 | b3 as u32;
    assert(r == (b0 as u32) * 2097152 + (b1 as u32) * 16384 + (b2 as u32) * 128 + (b3 as u32))
        by (bit_vector)
        requires
            b0 < 128,
            b1 < 128,
            b2 < 128,
            b3 < 128,
            r == (b0 as u32) << 21u32 | (b1 as u32) << 14u32 | (b2 as u32) << 7u32 | b3 as u32,
    ;
    r
}

/// The header of a RIFF file.
pub struct RIFFFileHeader {
    pub signature: Fourcc,
    pub chunk_size: u32,
    pub format: Fourcc,
}

impl RIFFFileHeader {
    /// Decodes the first twelve bytes of a file: `None` unless they start
    /// with `RIFF`.
    pub fn parse(head: &[u8; 12]) -> (r: Option<Self>)
        ensures
            r is Some <==> (head[0] == 0x52 && head[1] == 0x49 && head[2] == 0x46 && head[3] == 0x46),
            r is Some ==> ({
                let h = r->Some_0;
                &&& h.signature@ == head@.subrange(0, 4)
                &&& h.chunk_size as nat == le_u32(head[4], head[5], head[6], head[7])
                &&& h.format@ == head@.subrange(8, 12)
            }),
    {
        if !(head[0] == 0x52u8 && head[1] == 0x49u8 && head[2] == 0x46u8 && head[3] == 0x46u8) {
            return None;
        }
        let signature = [head[0], head[1], head[2], head[3]];
        let format = [head[8], head[9], head[10], head[11]];
        assert(signature@ =~= head@.subrange(0, 4));
        assert(format@ =~= head@.subrange(8, 12));
        Some(RIFFFileHeader {
            signature,
            chunk_size: read_le_u32(head[4], head[5], head[6], head[7]),
            format,
        })
    }

    /// Whether the file holds WAVE audio.
    pub fn is_wave(&self) -> (r: bool)
        ensures
            r == (self.format@ == seq![0x57u8, 0x41u8, 0x56u8, 0x45u8]),
    {
        let r = self.format[0] == 0x57u8 && self.format[1] == 0x41u8 && self.format[2] == 0x56u8
            && self.format[3] == 0x45u8;
        assert(r ==> self.format@ =~= seq![0x57u8, 0x41u8, 0x56u8, 0x45u8]);
        r
    }
}

/// The header of a chunk inside a RIFF file.
pub struct RIFFChunkHeader {
    pub id: Fourcc,
    pub byte_length: u32,
}

impl RIFFChunkHeader {
    /// Decodes the eight header bytes of a chunk.
    pub fn parse(bytes: &[u8; 8]) -> (r: Self)
        ensures
            r.id@ == bytes@.subrange(0, 4),
            r.byte_length as nat == le_u32(bytes[4], bytes[5], bytes[6], bytes[7]),
    {
        let id = [bytes[0], bytes[1], bytes[2], bytes[3]];
        assert(id@ =~= bytes@.subrange(0, 4));
        RIFFChunkHeader { id, byte_length: read_le_u32(bytes[4], bytes[5], bytes[6], bytes[7]) }
    }

    /// Whether the chunk is a `LIST` chunk.
    pub fn is_list(&self) -> (r: bool)
        ensures
            r == (self.id@ == seq![0x4cu8, 0x49u8, 0x53u8, 0x54u8]),
    {
        let r = self.id[0] == 0x4cu8 && self.id[1] == 0x49u8 && self.id[2] == 0x53u8 && self.id[3]
            == 0x54u8;
        assert(r ==> self.id@ =~= seq![0x4cu8, 0x49u8, 0x53u8, 0x54u8]);
        r
    }
}

/// `x` rounded up to an even number.
pub fn round_up_to_word_boundary(x: u32) -> (r: u32)
    requires
        x < u32::MAX,
    ensures
        r as nat == x as nat + x as nat % 2,
{
    let y = x + 1;
    let r = y & !1u32;
    assert(r == x + x % 2) by (bit_vector)
        requires
            x < 0xffff_ffffu32,
            y == x + 1,
            r == y & !1u32,
    ;
    r
}

/// The header of one entry of an `INFO` list; its length is rounded up to
/// an even number, as entries are padded to words.
pub struct RIFFListInfoEntry {
    pub id: Fourcc,
    pub byte_length: u32,
}

/// What an `INFO` entry holds.
#[derive(Debug, PartialEq, Eq, Structural)]
pub enum InfoEntryKind {
    Name,
    Genre,
    Artist,
    Unknown,
}

impl RIFFListInfoEntry {
    /// Decodes the eight header bytes of an entry; `None` where the declared
    /// length cannot be padded within 32 bits.
    pub fn parse_header(bytes: &[u8; 8]) -> (r: Option<Self>)
        ensures
            r is Some <==> le_u32(bytes[4], bytes[5], bytes[6], bytes[7]) < u32::MAX,
            r is Some ==> r->Some_0.id@ == bytes@.subrange(0, 4) && r->Some_0.byte_length as nat
                == le_u32(bytes[4], bytes[5], bytes[6], bytes[7]) + le_u32(
                bytes[4],
                bytes[5],
                bytes[6],
                bytes[7],
            ) % 2,
    {
        let id = [bytes[0], bytes[1], bytes[2], bytes[3]];
        assert(id@ =~= bytes@.subrange(0, 4));
        let len = read_le_u32(bytes[4], bytes[5], bytes[6], bytes[7]);
        if len == u32::MAX {
            return None;
        }
        Some(RIFFListInfoEntry { id, byte_length: round_up_to_word_boundary(len) })
    }

    /// The bytes that the entry takes, header included.
    pub fn total_bytes(&self) -> (r: u32)
        requires
            self.byte_length <= u32::MAX - 8,
        ensures
            r == self.byte_length + 8,
    {
        self.byte_length + 8
    }

    /// What the entry holds, by its id: `INAM`, `IGNR`, `IART`, or another.
    pub fn kind(&self) -> (r: InfoEntryKind)
        ensures
            r == InfoEntryKind::Name <==> self.id@ == seq![0x49u8, 0x4eu8, 0x41u8, 0x4du8],
            r == InfoEntryKind::Genre <==> self.id@ == seq![0x49u8, 0x47u8, 0x4eu8, 0x52u8],
            r == InfoEntryKind::Artist <==> self.id@ == seq![0x49u8, 0x41u8, 0x52u8, 0x54u8],
    {
        let id = self.id;
        if id[0] == 0x49u8 && id[1] == 0x4eu8 && id[2] == 0x41u8 && id[3] == 0x4du8 {
            assert(id@ =~= seq![0x49u8, 0x4eu8, 0x41u8, 0x4du8]);
            InfoEntryKind::Name
        } else if id[0] == 0x49u8 && id[1] == 0x47u8 && id[2] == 0x4eu8 && id[3] == 0x52u8 {
            assert(id@ =~= seq![0x49u8, 0x47u8, 0x4eu8, 0x52u8]);
            InfoEntryKind::Genre
        } else if id[0] == 0x49u8 && id[1] == 0x41u8 && id[2] == 0x52u8 && id[3] == 0x54u8 {
            assert(id@ =~= seq![0x49u8, 0x41u8, 0x52u8, 0x54u8]);
            InfoEntryKind::Artist
        } else {
            InfoEntryKind::Unknown
        }
    }
}

/// The header of an ID3v2 tag.
pub struct ID3v2Section {
    pub minor_version: u8,
    pub patch_version: u8,
    pub flags: u8,
    pub size: u32,
}

/// The header of one ID3v2 frame.
pub struct ID3v2FrameHeader {
    pub id: Fourcc,
    pub size: u32,
    pub flags: u16,
}

impl ID3v2Section {
    /// Decodes the ten header bytes of a tag: `None` unless they start with
    /// `ID3`.
    pub fn parse(head: &[u8; 10]) -> (r: Option<Self>)
        ensures
            r is Some <==> (head[0] == 0x49 && head[1] == 0x44 && head[2] == 0x33),
            r is Some ==> ({
                let s = r->Some_0;
                &&& s.minor_version == head[3]
                &&& s.patch_version == head[4]
                &&& s.flags == head[5]
                &&& s.size as nat == sync_safe_u32(head[6], head[7], head[8], head[9])
            }),
    {
        if !(head[0] == 0x49u8 && head[1] == 0x44u8 && head[2] == 0x33u8) {
            return None;
        }
        Some(ID3v2Section {
            minor_version: head[3],
            patch_version: head[4],
            flags: head[5],
            size: read_sync_safe_integer([head[6], head[7], head[8], head[9]]),
        })
    }

    /// Whether frame sizes are sync-safe: from version 2.4 on.
    pub fn use_sync_safe_integer(&self) -> (r: bool)
        ensures
            r == (self.minor_version >= 4),
    {
        self.minor_version >= 4
    }

    /// Decodes the ten header bytes of a frame of this tag.
    pub fn parse_frame_header(&self, bytes: &[u8; 10]) -> (r: ID3v2FrameHeader)
        ensures
            r.id@ == bytes@.subrange(0, 4),
            r.size as nat == if self.minor_version >= 4 {
                sync_safe_u32(bytes[4], bytes[5], bytes[6], bytes[7])
            } else {
                be_u32(bytes[4], bytes[5], bytes[6], bytes[7])
            },
            r.flags as nat == bytes[8] as nat + 256 * bytes[9] as nat,
    {
        let id = [bytes[0], bytes[1], bytes[2], bytes[3]];
        assert(id@ =~= bytes@.subrange(0, 4));
        let size = if self.use_sync_safe_integer() {
            read_sync_safe_integer([bytes[4], bytes[5], bytes[6], bytes[7]])
        } else {
            read_le_u32(bytes[7], bytes[6], bytes[5], bytes[4])
        };
        let flags = (bytes[8] as u16) + 256 * (bytes[9] as u16);
        ID3v2FrameHeader { id, size, flags }
    }
}

/// The text encodings that tags are read in.
#[derive(Debug, Clone, Copy, PartialEq, Eq, Structural)]
pub enum TextEncoding {
    Utf16Le,
    Utf16Be,
    Utf8,
    ShiftJis,
}

/// The text that decoding `bytes` in `encoding` gives, malformed sequences
/// replaced and a byte order mark honoured.
pub uninterp spec fn decoded_text(encoding: TextEncoding, bytes: Seq<u8>) -> Seq<char>;

/// Relies on `encoding_rs::Encoding::decode` with the encoding's static: the
/// text depends on the encoding and the bytes alone; it panics only where
/// its buffer size overflows, which the bound on the length rules out.
#[verifier::external_body]
fn decode_text(encoding: TextEncoding, bytes: &[u8]) -> (r: String)
    requires
        bytes@.len() <= u32::MAX,
    ensures
        r@ == decoded_text(encoding, bytes@),
{
    let e = match encoding {
        TextEncoding::Utf16Le => encoding_rs::UTF_16LE,
        TextEncoding::Utf16Be => encoding_rs::UTF_16BE,
        TextEncoding::Utf8 => encoding_rs::UTF_8,
        TextEncoding::ShiftJis => encoding_rs::SHIFT_JIS,
    };
    e.decode(bytes).0.into_owned()
}

/// The encoding that an ID3v2 text frame declares in its first byte; the
/// legacy code 0 and unknown codes are read as Shift_JIS, as the files at
/// hand write them.
pub open spec fn frame_encoding(code: u8) -> TextEncoding {
    if code == 1 {
        TextEncoding::Utf16Le
    } else if code == 2 {
        TextEncoding::Utf16Be
    } else if code == 3 {
        TextEncoding::Utf8
    } else {
        TextEncoding::ShiftJis
    }
}

/// The text of an ID3v2 text frame: its first byte names the encoding of
/// the rest.
pub fn read_frame_text(value: &[u8]) -> (r: String)
    requires
        1 <= value@.len() <= u32::MAX,
    ensures
        r@ == decoded_text(frame_encoding(value[0]), value@.subrange(1, value@.len() as int)),
{
    let code = value[0];
    let encoding = if code == 1 {
        TextEncoding::Utf16Le
    } else if code == 2 {
        TextEncoding::Utf16Be
    } else if code == 3 {
        TextEncoding::Utf8
    } else {
        TextEncoding::ShiftJis
    };
    let rest = vstd::slice::slice_subrange(value, 1, value.len());
    decode_text(encoding, rest)
}

/// `s` without its trailing NUL characters.
pub open spec fn trim_nuls(s: Seq<char>) -> Seq<char>
    decreases s.len(),
{
    if s.len() > 0 && s.last() == '\0' {
        trim_nuls(s.drop_last())
    } else {
        s
    }
}

/// The text of a RIFF `INFO` entry value: Shift_JIS, without trailing NULs.
pub fn read_info_text(value: &[u8]) -> (r: String)
    requires
        value@.len() <= u32::MAX,
    ensures
        r@ == trim_nuls(decoded_text(TextEncoding::ShiftJis, value@)),
{
    let text = decode_text(TextEncoding::ShiftJis, value);
    let t = text.as_str();
    let mut end = t.unicode_len();
    assert(t@.subrange(0, end as int) =~= t@);
    while end > 0 && t.get_char(end - 1) == '\0'
        invariant
            end <= t@.len(),
            trim_nuls(t@) == trim_nuls(t@.subrange(0, end as int)),
        decreases end,
    {
        assert(t@.subrange(0, end as int).drop_last() =~= t@.subrange(0, end - 1));
        end = end - 1;
    }
    String::from_str(t.substring_char(0, end))
}

} // verus!
