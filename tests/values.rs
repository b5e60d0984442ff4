use std::borrow::Cow;

use jwt_validator::claim_validator::{ClaimValidator, ErrorableExtension, TimeAvailabilityValidator};
use jwt_validator::catalog::{bearer_credential, DetailsRecord, ListItem, PutRequest, PutRequestError};
use jwt_validator::claims::{Claim, JOSEHeader};
use jwt_validator::codec::Base64String;
use jwt_validator::creation_date::{CreationDate, CreationDateParseError};
use jwt_validator::decimal::{parse_unsigned_text, IntErrorKind};
use jwt_validator::json::JsonItem;
use jwt_validator::keys::JWKContent;
use jwt_validator::license::License;
use jwt_validator::media::{
    read_frame_text, read_info_text, read_sync_safe_integer, round_up_to_word_boundary, ID3v2Section, InfoEntryKind, RIFFChunkHeader,
    RIFFFileHeader, RIFFListInfoEntry,
};
use jwt_validator::obfuscator::ContentIDObfuscator;
use jwt_validator::claim_validator::OutOfDateError;
use jwt_validator::tenancy::{APIClaimValidationError, APIClientApplication, APIServerApplication};
use jwt_validator::tenancy::Tenancy;
use jwt_validator::token::{split, TokenType};
use jwt_validator::upload::{MediaPropertyCollector, UploadArgs};
use jwt_validator::validation::prepare;

fn timed(iat: Option<u64>, exp: Option<u64>, nbf: Option<u64>) -> Claim {
    Claim { iss: None, sub: None, aud: None, exp, nbf, iat, jti: None, extras: vec![] }
}

#[test]
fn availability_window_is_half_open() {
    let c = timed(Some(100), Some(200), None);
    assert!(c.is_available(150));
    assert!(!c.is_available(99));
    assert!(!c.is_available(200));
    assert!(c.is_available(100));
    assert!(c.is_available(199));
}

#[test]
fn availability_without_bounds() {
    let c = timed(None, None, None);
    assert!(c.is_available(0));
    assert!(c.is_available(u64::MAX));
    assert!(timed(None, Some(5), None).is_available(4));
    assert!(!timed(Some(5), None, None).is_available(4));
}

#[test]
fn nbf_is_enforced_only_on_request() {
    let c = timed(Some(100), Some(200), Some(160));
    assert!(TimeAvailabilityValidator::new(150).validate(&c).is_ok());
    assert!(TimeAvailabilityValidator::new(150).with_nbf(true).validate(&c).is_err());
    assert!(TimeAvailabilityValidator::new(160).with_nbf(true).validate(&c).is_ok());
    assert!(TimeAvailabilityValidator::new(200).validate(&c).is_err());
}

#[test]
fn for_now_admits_a_current_window() {
    let v = TimeAvailabilityValidator::for_now();
    assert!(!v.enforce_nbf);
    assert!(v.now > 1_600_000_000);
}

#[test]
fn or_err_gives_the_error_on_false() {
    assert_eq!(true.or_err(7), Ok(()));
    assert_eq!(false.or_err(7), Err(7));
}

#[test]
fn split_classifies_by_segment_count() {
    match split("h.c.s") {
        Some(TokenType::JWS { header, claim, signature }) => {
            assert_eq!(header, b"h".to_vec());
            assert_eq!(claim, b"c".to_vec());
            assert_eq!(signature, b"s".to_vec());
        }
        _ => panic!("expected a signed token"),
    }
    match split("a..c.d.e") {
        Some(TokenType::JWE { header, encrypted_key, authentication_tag, .. }) => {
            assert_eq!(header, b"a".to_vec());
            assert!(encrypted_key.is_empty());
            assert_eq!(authentication_tag, b"e".to_vec());
        }
        _ => panic!("expected an encrypted token"),
    }
    assert!(matches!(split(".."), Some(TokenType::JWS { .. })));
    assert!(split("a.b").is_none());
    assert!(split("a.b.c.d").is_none());
    assert!(split("a.b.c.d.e.f").is_none());
    assert!(split("").is_none());
}

#[test]
fn base64_round_trip() {
    let text = Base64String::encode(b"any carnal pleas");
    assert_eq!(text.0, "YW55IGNhcm5hbCBwbGVhcw");
    assert_eq!(text.decode().unwrap(), b"any carnal pleas".to_vec());
    assert!(Base64String("YW55=".to_string()).decode().is_err());
    assert_eq!(Base64String::encode(&[0xfb, 0xff]).0, "-_8");
}

#[test]
fn rsa_components_are_decoded() {
    let k = JWKContent::RSA { n: Base64String("AQID".to_string()), e: Base64String("AQAB".to_string()) };
    assert_eq!(k.try_generate_rsa_pubkey().unwrap(), Some((vec![1, 2, 3], vec![1, 0, 1])));
    let bad = JWKContent::RSA { n: Base64String("A".to_string()), e: Base64String("AQAB".to_string()) };
    assert!(bad.try_generate_rsa_pubkey().is_err());
}

#[test]
fn prepare_decodes_header_and_claims() {
    let h = Base64String::encode(br#"{"alg":"RS256","typ":"JWT","kid":"k1","cty":null}"#).0;
    let c = Base64String::encode(
        br#"{"iss":"me","sub":"you","exp":200,"iat":100,"nbf":null,"role":"admin","n":[1,2],"x":1.5}"#,
    )
    .0;
    let token = format!("{h}.{c}.AQID");
    let p = prepare::<(), (), ()>(&token).ok().unwrap();
    let JOSEHeader { alg, typ, kid, cty } = &p.header;
    assert_eq!((alg.as_str(), typ.as_str(), kid.as_deref(), cty.as_deref()), ("RS256", "JWT", Some("k1"), None));
    assert_eq!(p.claim.iss.as_deref(), Some("me"));
    assert_eq!(p.claim.sub.as_deref(), Some("you"));
    assert_eq!(p.claim.aud, None);
    assert_eq!((p.claim.iat, p.claim.exp, p.claim.nbf), (Some(100), Some(200), None));
    let names: Vec<&str> = p.claim.extras.iter().map(|(k, _)| k.as_str()).collect();
    assert_eq!(names.len(), 3);
    assert!(names.contains(&"role") && names.contains(&"n") && names.contains(&"x"));
    for (k, v) in &p.claim.extras {
        match (k.as_str(), v) {
            ("role", JsonItem::Str(s)) => assert_eq!(s, "admin"),
            ("n", JsonItem::Other(t)) => assert_eq!(t, "[1,2]"),
            ("x", JsonItem::Number(t)) => assert_eq!(t, "1.5"),
            _ => panic!("unexpected member {k}"),
        }
    }
    assert_eq!(p.signature, vec![1, 2, 3]);
    assert_eq!(p.message, format!("{h}.{c}").into_bytes());
}

#[test]
fn numerals_read_like_std() {
    assert_eq!(parse_unsigned_text("2024", 65535), Ok(2024));
    assert_eq!(parse_unsigned_text("+7", 255), Ok(7));
    assert_eq!(parse_unsigned_text("", 255), Err(IntErrorKind::Empty));
    assert_eq!(parse_unsigned_text("+", 255), Err(IntErrorKind::InvalidDigit));
    assert_eq!(parse_unsigned_text("-1", 255), Err(IntErrorKind::InvalidDigit));
    assert_eq!(parse_unsigned_text("256", 255), Err(IntErrorKind::PosOverflow));
    assert_eq!(parse_unsigned_text("12a", 255), Err(IntErrorKind::InvalidDigit));
    assert_eq!(parse_unsigned_text("18446744073709551615", u64::MAX), Ok(u64::MAX));
    assert_eq!(parse_unsigned_text("18446744073709551616", u64::MAX), Err(IntErrorKind::PosOverflow));
}

#[test]
fn creation_date_parses() {
    let d: CreationDate = "2024-03-09".parse().unwrap();
    assert_eq!((d.year(), d.month(), d.day()), (2024, 3, 9));
    assert_eq!(CreationDate::parse("2024-03"), Err(CreationDateParseError::MissingElement));
    assert_eq!(CreationDate::parse("2024"), Err(CreationDateParseError::MissingElement));
    assert_eq!(CreationDate::parse("2024-03-09-1"), Err(CreationDateParseError::TooManyElements));
    assert_eq!(
        CreationDate::parse("2024-300-09"),
        Err(CreationDateParseError::ParseIntError(IntErrorKind::PosOverflow))
    );
    assert_eq!(CreationDate::parse("x-1-1"), Err(CreationDateParseError::ParseIntError(IntErrorKind::InvalidDigit)));
    assert_eq!(CreationDate::parse("--"), Err(CreationDateParseError::ParseIntError(IntErrorKind::Empty)));
}

#[test]
fn license_codes() {
    assert!(matches!(License::from_db_values(0, None), License::PublicDomain));
    assert!(matches!(License::from_db_values(6, Some("x")), License::CreativeCommonsBY_NC_ND));
    assert!(matches!(License::from_db_values(999, Some("mine")), License::Custom("mine")));
    assert!(matches!(License::from_db_values(7, None), License::Custom("")));
    assert_eq!(License::CreativeCommonsBY_SA.into_db_values(), (2, None));
    assert_eq!(License::Custom("mine").into_db_values(), (999, Some(Cow::Borrowed("mine"))));
    assert_eq!(License::CustomOwned("own".to_string()).into_db_values(), (999, Some(Cow::Borrowed("own"))));
    assert_eq!(License::PublicDomain.display_name(), "CC0 (Public Domain)");
    assert_eq!(License::CreativeCommonsBY_NC_SA.display_name(), "Creative Commons BY-NC-SA");
    assert_eq!(License::Custom("mine").display_name(), "mine");
}

#[test]
fn riff_headers() {
    let mut head = *b"RIFF\x24\x08\x00\x00WAVE";
    let h = RIFFFileHeader::parse(&head).unwrap();
    assert_eq!(h.chunk_size, 0x824);
    assert!(h.is_wave());
    head[8] = b'A';
    assert!(!RIFFFileHeader::parse(&head).unwrap().is_wave());
    head[0] = b'X';
    assert!(RIFFFileHeader::parse(&head).is_none());
    let c = RIFFChunkHeader::parse(b"LIST\x01\x02\x03\x04");
    assert!(c.is_list());
    assert_eq!(c.byte_length, 0x04030201);
    assert!(!RIFFChunkHeader::parse(b"data\x00\x00\x00\x00").is_list());
}

#[test]
fn info_entries_are_padded_to_words() {
    assert_eq!(round_up_to_word_boundary(5), 6);
    assert_eq!(round_up_to_word_boundary(6), 6);
    assert_eq!(round_up_to_word_boundary(0), 0);
    let e = RIFFListInfoEntry::parse_header(b"INAM\x05\x00\x00\x00").unwrap();
    assert_eq!(e.byte_length, 6);
    assert_eq!(e.total_bytes(), 14);
    assert_eq!(e.kind(), InfoEntryKind::Name);
    assert_eq!(RIFFListInfoEntry::parse_header(b"IART\x00\x00\x00\x00").unwrap().kind(), InfoEntryKind::Artist);
    assert_eq!(RIFFListInfoEntry::parse_header(b"IGNR\x00\x00\x00\x00").unwrap().kind(), InfoEntryKind::Genre);
    assert_eq!(RIFFListInfoEntry::parse_header(b"ICMT\x00\x00\x00\x00").unwrap().kind(), InfoEntryKind::Unknown);
    assert!(RIFFListInfoEntry::parse_header(b"INAM\xff\xff\xff\xff").is_none());
}

#[test]
fn id3_headers() {
    assert_eq!(read_sync_safe_integer([0x00, 0x00, 0x02, 0x01]), 257);
    assert_eq!(read_sync_safe_integer([0xff, 0xff, 0xff, 0xff]), 0x0fff_ffff);
    let s = ID3v2Section::parse(b"ID3\x04\x00\x40\x00\x00\x01\x7f").unwrap();
    assert_eq!((s.minor_version, s.patch_version, s.flags, s.size), (4, 0, 0x40, 255));
    assert!(s.use_sync_safe_integer());
    let f = s.parse_frame_header(b"TIT2\x00\x00\x01\x00\x01\x02");
    assert_eq!((&f.id, f.size, f.flags), (b"TIT2", 128, 0x0201));
    let old = ID3v2Section::parse(b"ID3\x03\x00\x00\x00\x00\x00\x00").unwrap();
    assert!(!old.use_sync_safe_integer());
    assert_eq!(old.parse_frame_header(b"TPE1\x00\x00\x01\x00\x00\x00").size, 256);
    assert!(ID3v2Section::parse(b"ID2\x03\x00\x00\x00\x00\x00\x00").is_none());
}

#[test]
fn obfuscation_round_trips() {
    let o = ContentIDObfuscator::from_hex_string("00112233445566778899").unwrap();
    assert_eq!(o.0, [0x00, 0x11, 0x22, 0x33, 0x44, 0x55, 0x66, 0x77, 0x88, 0x99]);
    for id in [0u32, 1, 42, 123_456, u32::MAX] {
        let public = o.obfuscate(id);
        assert_eq!(o.deobfuscate(public), id);
    }
    assert_ne!(o.obfuscate(1), 1);
    assert_eq!(ContentIDObfuscator::from_hex_string("AABBCCDDEEFFaabbccdd").unwrap().0[0], 0xaa);
    assert!(ContentIDObfuscator::from_hex_string("0011").is_err());
    assert!(ContentIDObfuscator::from_hex_string("0011223344556677889g").is_err());
    assert_eq!(ContentIDObfuscator::new([7; 10]).0, [7; 10]);
}

#[test]
fn tenancy_and_client_forms() {
    let t = Tenancy::from_domain("ct2.jp.auth0.com").unwrap();
    assert_eq!(t.issuer_name(), "https://ct2.jp.auth0.com/");
    assert!(Tenancy::from_domain("bad domain").is_err());
    let app = APIClientApplication { tenancy: &t, client_id: "id", client_secret: "secret", audience: "aud" };
    let p = app.token_request_params();
    assert_eq!((p.grant_type, p.client_id, p.client_secret, p.audience), ("client_credentials", "id", "secret", "aud"));
}

#[test]
fn upload_autofill_keeps_given_values() {
    let mut args = UploadArgs {
        media_path: "a.wav".to_string(),
        no_dry_run: false,
        title: Some("given".to_string()),
        artist: None,
        genre: None,
        created_at: None,
        license: "cc0".to_string(),
    };
    assert!(args.needs_autofill());
    let mut found = MediaPropertyCollector::new();
    found.on_title("found".to_string());
    found.on_artist("someone".to_string());
    found.on_created_at(CreationDate(2020, 1, 2));
    args.autofill(found);
    assert_eq!(args.title.as_deref(), Some("given"));
    assert_eq!(args.artist.as_deref(), Some("someone"));
    assert_eq!(args.genre, None);
    assert_eq!(args.created_at, Some(CreationDate(2020, 1, 2)));
    assert!(args.needs_autofill());
    let mut more = MediaPropertyCollector::new();
    more.on_genre("ambient".to_string());
    args.autofill(more);
    assert!(!args.needs_autofill());
}

#[test]
fn license_short_names() {
    assert!(matches!(License::from_short_name("cc0".to_string()), License::PublicDomain));
    assert!(matches!(License::from_short_name("cc-by-nc-sa".to_string()), License::CreativeCommonsBY_NC_SA));
    assert!(matches!(License::from_short_name("cc-by-nd".to_string()), License::CreativeCommonsBY_ND));
    match License::from_short_name("All rights reserved".to_string()) {
        License::CustomOwned(t) => assert_eq!(t, "All rights reserved"),
        _ => panic!("expected a custom license"),
    }
}

#[test]
fn authorization_header_credentials() {
    assert_eq!(bearer_credential("Token abc.def"), Some("abc.def"));
    assert_eq!(bearer_credential("Token "), Some(""));
    assert_eq!(bearer_credential("Bearer abc"), None);
    assert_eq!(bearer_credential("Token"), None);
    assert_eq!(bearer_credential("token abc"), None);
}

#[test]
fn listing_of_a_record() {
    let o = ContentIDObfuscator::new([1, 2, 3, 4, 5, 6, 7, 8, 9, 10]);
    let record = DetailsRecord {
        id: 42,
        title: "t".to_string(),
        artist: "a".to_string(),
        genre: "g".to_string(),
        year: 2024,
        month: 5,
        day: 6,
        license_type: 3,
        license_text: None,
        download_count: 9,
    };
    let item = ListItem::from_record(record, &o);
    assert_eq!(item.id, o.obfuscate(42));
    assert_ne!(item.id, 42);
    assert_eq!(o.deobfuscate(item.id), 42);
    assert_eq!(item.internal_id, 42);
    assert_eq!((item.created_year, item.created_month, item.created_day), (2024, 5, 6));
    assert_eq!(item.license_str, "Creative Commons BY-NC");
    assert_eq!(item.download_count, 9);
    let custom = DetailsRecord {
        id: 1,
        title: String::new(),
        artist: String::new(),
        genre: String::new(),
        year: 70000,
        month: 1,
        day: 1,
        license_type: 999,
        license_text: Some("mine".to_string()),
        download_count: 0,
    };
    let item = ListItem::from_record(custom, &o);
    assert_eq!(item.license_str, "mine");
    assert_eq!(item.created_year, 70000u32 as u16);
}

fn pairs(items: &[(&str, &str)]) -> Vec<(String, String)> {
    items.iter().map(|(k, v)| (k.to_string(), v.to_string())).collect()
}

#[test]
fn put_request_parses() {
    let q = pairs(&[("genre", "pop"), ("lic", "cc-by"), ("genre", "j%2Dpop")]);
    let r = PutRequest::parse("2024", "3", "9", "A%20B", "Hello+World", &q).ok().unwrap();
    assert_eq!((r.year, r.month, r.day), (2024, 3, 9));
    assert_eq!(r.artist, "A B");
    assert_eq!(r.title, "Hello+World");
    assert_eq!(r.genre, "j-pop");
    assert!(matches!(r.license, License::CreativeCommonsBY));
    let plain = PutRequest::parse("2024", "3", "9", "a", "t", &pairs(&[("genre", "x")])).ok().unwrap();
    assert!(matches!(plain.license, License::Custom("All rights reserved")));
    let custom = PutRequest::parse("2024", "3", "9", "a", "t", &pairs(&[("genre", "x"), ("lic", "mine")])).ok().unwrap();
    match custom.license {
        License::CustomOwned(t) => assert_eq!(t, "mine"),
        _ => panic!("expected a custom license"),
    }
}

#[test]
fn put_request_errors() {
    let q = pairs(&[("genre", "pop")]);
    assert_eq!(PutRequest::parse("70000", "3", "9", "a", "t", &q).err(), Some(PutRequestError::InvalidYear));
    assert_eq!(PutRequest::parse("2024", "x", "9", "a", "t", &q).err(), Some(PutRequestError::InvalidMonth));
    assert_eq!(PutRequest::parse("2024", "3", "256", "a", "t", &q).err(), Some(PutRequestError::InvalidDay));
    assert_eq!(PutRequest::parse("2024", "3", "9", "%FF", "t", &q).err(), Some(PutRequestError::InvalidArtist));
    assert_eq!(PutRequest::parse("2024", "3", "9", "a", "%C3", &q).err(), Some(PutRequestError::InvalidTitle));
    assert_eq!(
        PutRequest::parse("2024", "3", "9", "a", "t", &pairs(&[("genre", "%FF")])).err(),
        Some(PutRequestError::InvalidGenre)
    );
    assert_eq!(
        PutRequest::parse("2024", "3", "9", "a", "t", &pairs(&[("genre", "x"), ("lic", "%FE")])).err(),
        Some(PutRequestError::InvalidLicense)
    );
    assert_eq!(
        PutRequest::parse("2024", "3", "9", "a", "t", &pairs(&[("lic", "cc0")])).err(),
        Some(PutRequestError::MissingGenre)
    );
}

#[test]
fn tag_text_decoding() {
    assert_eq!(read_frame_text(b"\x03caf\xc3\xa9"), "café");
    assert_eq!(read_frame_text(b"\x01h\x00i\x00"), "hi");
    assert_eq!(read_frame_text(b"\x02\x00h\x00i"), "hi");
    assert_eq!(read_frame_text(b"\x00\x82\xa0"), "あ");
    assert_eq!(read_frame_text(b"\x03"), "");
    assert_eq!(read_info_text(b"name\x00\x00"), "name");
    assert_eq!(read_info_text(b"\x82\xa0\x00"), "あ");
    assert_eq!(read_info_text(b"\x00\x00"), "");
    assert_eq!(read_info_text(b"a\x00b"), "a\u{0}b");
}

#[test]
fn api_policy_reports_issuer_before_audience() {
    let t = Tenancy::from_domain("issuer.example").unwrap();
    let api = APIServerApplication { tenancy: &t, audience: "aud1" };
    let mut c = Claim { iss: Some("https://elsewhere/".to_string()), sub: None, aud: None, exp: None, nbf: None, iat: None, jti: None, extras: vec![] };
    let e = api.validate(&c).unwrap_err();
    assert_eq!(e, APIClaimValidationError::InvalidIssuer);
    assert_eq!(e.message(), "invalid issuer");
    c.iss = None;
    let e = api.validate(&c).unwrap_err();
    assert_eq!(e, APIClaimValidationError::InvalidAudience);
    assert_eq!(e.message(), "invalid audience");
    c.aud = Some("aud1".to_string());
    assert!(api.validate(&c).is_ok());
    c.iss = Some("https://elsewhere/".to_string());
    assert_eq!(t.validate(&c).unwrap_err().message(), "invalid issuer");
    assert_eq!(OutOfDateError.message(), "token is out of date");
}
