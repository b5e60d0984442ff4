//! The content catalog as the admin console serves it: listed entries, and
//! the credentials that requests carry.
use vstd::prelude::*;
use crate::claims::opt_view;
use crate::decimal::{parse_unsigned, parse_unsigned_text, IntErrorKind};
use crate::json::str_eq;
use crate::license::{license_named, stored_display_text, type_code, License};
use crate::obfuscator::{skip32_encoded, ContentIDObfuscator};

verus! {

/// A stored catalog entry.
pub struct DetailsRecord {
    pub id: u32,
    pub title: String,
    pub artist: String,
    pub genre: String,
    pub year: u32,
    pub month: u32,
    pub day: u32,
    pub license_type: u32,
    pub license_text: Option<String>,
    pub download_count: u32,
}

/// A catalog entry as listed: under its public id, with its license shown
/// by name.
pub struct ListItem {
    pub id: u32,
    pub internal_id: u32,
    pub title: String,
    pub artist: String,
    pub genre: String,
    pub created_year: u16,
    pub created_month: u8,
    pub created_day: u8,
    pub license_str: String,
    pub download_count: u32,
}

impl ListItem {
    /// The listing of a stored entry: the public id obfuscates the stored
    /// one, the date fields are narrowed to their types, and the license is
    /// shown by name.
    pub fn from_record(record: DetailsRecord, id_obfuscator: &ContentIDObfuscator) -> (r: ListItem)
        ensures
            r.id == skip32_encoded(id_obfuscator.0@, record.id),
            r.internal_id == record.id,
            r.title == record.title,
            r.artist == record.artist,
            r.genre == record.genre,
            r.created_year == record.year as u16,
            r.created_month == record.month as u8,
            r.created_day == record.day as u8,
            r.download_count == record.download_count,
            r.license_str@ == stored_display_text(record.license_type, opt_view(record.license_text)),
    {
        let license_str = {
            let text = match &record.license_text {
                Some(t) => Some(t.as_str()),
                None => None,
            };
            License::from_db_values(record.license_type, text).display_name()
        };
        ListItem {
            id: id_obfuscator.obfuscate(record.id),
            internal_id: record.id,
            title: record.title,
            artist: record.artist,
            genre: record.genre,
            created_year: record.year as u16,
            created_month: record.month as u8,
            created_day: record.day as u8,
            license_str,
            download_count: record.download_count,
        }
    }
}

/// The credential of an `Authorization` header value of the form
/// `Token <credential>`.
pub open spec fn token_credential(header: Seq<char>) -> Option<Seq<char>> {
    if header.len() >= 6 && header.subrange(0, 6) == "Token "@ {
        Some(header.subrange(6, header.len() as int))
    } else {
        None
    }
}

/// The credential that an `Authorization` header value carries, if it has
/// the form `Token <credential>`.
pub fn bearer_credential(header: &str) -> (r: Option<&str>)
    ensures
        match (r, token_credential(header@)) {
            (Some(c), Some(t)) => c@ == t,
            (None, None) => true,
            _ => false,
        },
{
    proof {
        reveal_strlit("Token ");
    }
    let len = header.unicode_len();
    if len < 6 {
        return None;
    }
    let prefix = header.substring_char(0, 6);
    if !crate::json::str_eq(prefix, "Token ") {
        return None;
    }
    Some(header.substring_char(6, len))
}

#[verifier::external_type_specification]
#[verifier::external_body]
pub struct ExFromUtf8Error(std::string::FromUtf8Error);

/// The text that percent-decoding `text` gives, or `None` where the decoded
/// bytes are no UTF-8.
pub uninterp spec fn percent_decoded(text: Seq<char>) -> Option<Seq<char>>;

/// Relies on `urlencoding::decode`: it decodes `%` escapes, keeps `+`, and
/// fails exactly where the decoded bytes are no UTF-8; the result depends on
/// the text alone.
#[verifier::external_body]
fn percent_decode(text: &str) -> (r: Result<String, std::string::FromUtf8Error>)
    ensures
        r is Ok <==> percent_decoded(text@) is Some,
        r is Ok ==> r->Ok_0@ == percent_decoded(text@)->Some_0,
{
    urlencoding::decode(text).map(std::borrow::Cow::into_owned)
}

/// Why a request to add content was refused.
#[derive(Debug, PartialEq, Eq, Structural)]
pub enum PutRequestError {
    InvalidYear,
    InvalidMonth,
    InvalidDay,
    InvalidArtist,
    InvalidTitle,
    InvalidGenre,
    InvalidLicense,
    MissingGenre,
}

/// A request to add content: where it is filed, and under which license.
pub struct PutRequest {
    pub year: u16,
    pub month: u8,
    pub day: u8,
    pub artist: String,
    pub title: String,
    pub genre: String,
    pub license: License<'static>,
}

/// The genre and license name that the query pairs `q` give from position
/// `i` on, after `genre` and `license` so far: a later pair overrides an
/// earlier one, and the first value that does not decode ends the scan.
pub open spec fn scan_query(
    q: Seq<(Seq<char>, Seq<char>)>,
    i: int,
    genre: Option<Seq<char>>,
    license: Option<Seq<char>>,
) -> Result<(Option<Seq<char>>, Option<Seq<char>>), PutRequestError>
    decreases q.len() - i,
{
    if i >= q.len() || i < 0 {
        Ok((genre, license))
    } else {
        let (k, v) = q[i];
        if k == "genre"@ {
            match percent_decoded(v) {
                None => Err(PutRequestError::InvalidGenre),
                Some(g) => scan_query(q, i + 1, Some(g), license),
            }
        } else if k == "lic"@ {
            match percent_decoded(v) {
                None => Err(PutRequestError::InvalidLicense),
                Some(l) => scan_query(q, i + 1, genre, Some(l)),
            }
        } else {
            scan_query(q, i + 1, genre, license)
        }
    }
}

/// What a request to add content asks for, with the license as its short
/// name (`None` where the request names none).
pub struct PutModel {
    pub year: u16,
    pub month: u8,
    pub day: u8,
    pub artist: Seq<char>,
    pub title: Seq<char>,
    pub genre: Seq<char>,
    pub license: Option<Seq<char>>,
}

/// The request that the path parameters and the query pairs `q` make.
pub open spec fn put_request_of(
    year: Seq<char>,
    month: Seq<char>,
    day: Seq<char>,
    artist: Seq<char>,
    title: Seq<char>,
    q: Seq<(Seq<char>, Seq<char>)>,
) -> Result<PutModel, PutRequestError> {
    match (
        parse_unsigned(year, u16::MAX as nat),
        parse_unsigned(month, u8::MAX as nat),
        parse_unsigned(day, u8::MAX as nat),
    ) {
        (Err(_), _, _) => Err(PutRequestError::InvalidYear),
        (_, Err(_), _) => Err(PutRequestError::InvalidMonth),
        (_, _, Err(_)) => Err(PutRequestError::InvalidDay),
        (Ok(y), Ok(m), Ok(d)) => match (percent_decoded(artist), percent_decoded(title)) {
            (None, _) => Err(PutRequestError::InvalidArtist),
            (_, None) => Err(PutRequestError::InvalidTitle),
            (Some(a), Some(t)) => match scan_query(q, 0, None, None) {
                Err(e) => Err(e),
                Ok((None, _)) => Err(PutRequestError::MissingGenre),
                Ok((Some(g), l)) => Ok(
                    PutModel {
                        year: y as u16,
                        month: m as u8,
                        day: d as u8,
                        artist: a,
                        title: t,
                        genre: g,
                        license: l,
                    },
                ),
            },
        },
    }
}

pub open spec fn pairs_view(q: Seq<(String, String)>) -> Seq<(Seq<char>, Seq<char>)> {
    q.map_values(|p: (String, String)| (p.0@, p.1@))
}

/// Whether `r` is the request that `m` describes; without a license name,
/// the content is all rights reserved.
pub open spec fn matches_model(r: PutRequest, m: PutModel) -> bool {
    &&& r.year == m.year
    &&& r.month == m.month
    &&& r.day == m.day
    &&& r.artist@ == m.artist
    &&& r.title@ == m.title
    &&& r.genre@ == m.genre
    &&& match m.license {
        None => r.license matches License::Custom(t) && t@ == "All rights reserved"@,
        Some(n) => match license_named(n) {
            Some(code) => type_code(r.license) == code,
            None => r.license matches License::CustomOwned(t) && t@ == n,
        },
    }
}

impl PutRequest {
    /// Reads a request to add content from its path parameters, which are
    /// numerals for the date and percent-encoded text for artist and title,
    /// and its query pairs, where `genre` is required and `lic` names the
    /// license.
    pub fn parse(
        year: &str,
        month: &str,
        day: &str,
        artist: &str,
        title: &str,
        query: &Vec<(String, String)>,
    ) -> (r: Result<PutRequest, PutRequestError>)
        ensures
            match (r, put_request_of(year@, month@, day@, artist@, title@, pairs_view(query@))) {
                (Ok(req), Ok(m)) => matches_model(req, m),
                (Err(e), Err(f)) => e == f,
                _ => false,
            },
    {
        let y = match parse_unsigned_text(year, 65535) {
            Ok(v) => v as u16,
            Err(_) => return Err(PutRequestError::InvalidYear),
        };
        let m = match parse_unsigned_text(month, 255) {
            Ok(v) => v as u8,
            Err(_) => return Err(PutRequestError::InvalidMonth),
        };
        let d = match parse_unsigned_text(day, 255) {
            Ok(v) => v as u8,
            Err(_) => return Err(PutRequestError::InvalidDay),
        };
        let artist_text = match percent_decode(artist) {
            Ok(a) => a,
            Err(_) => return Err(PutRequestError::InvalidArtist),
        };
        let title_text = match percent_decode(title) {
            Ok(t) => t,
            Err(_) => return Err(PutRequestError::InvalidTitle),
        };
        let ghost q = pairs_view(query@);
        let mut genre: Option<String> = None;
        let mut license_name: Option<String> = None;
        let mut i: usize = 0;
        while i < query.len()
            invariant
                i <= query@.len(),
                q == pairs_view(query@),
                q.len() == query@.len(),
                parse_unsigned(year@, u16::MAX as nat) == Ok::<nat, IntErrorKind>(y as nat),
                parse_unsigned(month@, u8::MAX as nat) == Ok::<nat, IntErrorKind>(m as nat),
                parse_unsigned(day@, u8::MAX as nat) == Ok::<nat, IntErrorKind>(d as nat),
                percent_decoded(artist@) == Some(artist_text@),
                percent_decoded(title@) == Some(title_text@),
                scan_query(q, 0, None, None) == scan_query(
                    q,
                    i as int,
                    crate::claims::opt_view(genre),
                    crate::claims::opt_view(license_name),
                ),
            decreases query@.len() - i,
        {
            let (k, v) = (&query[i].0, &query[i].1);
            assert(q[i as int] == (k@, v@));
            if str_eq(k.as_str(), "genre") {
                match percent_decode(v.as_str()) {
                    Ok(g) => genre = Some(g),
                    Err(_) => return Err(PutRequestError::InvalidGenre),
                }
            } else if str_eq(k.as_str(), "lic") {
                match percent_decode(v.as_str()) {
                    Ok(l) => license_name = Some(l),
                    Err(_) => return Err(PutRequestError::InvalidLicense),
                }
            }
            i = i + 1;
        }
        let genre = match genre {
            Some(g) => g,
            None => return Err(PutRequestError::MissingGenre),
        };
        let license = match license_name {
            Some(n) => License::from_short_name(n),
            None => License::Custom("All rights reserved"),
        };
        Ok(PutRequest { year: y, month: m, day: d, artist: artist_text, title: title_text, genre, license })
    }
}

} // verus!
