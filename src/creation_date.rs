//! Creation dates written as `YYYY-MM-DD`.
use vstd::prelude::*;
use crate::decimal::{parse_unsigned, parse_unsigned_text, IntErrorKind};

verus! {

/// Why a creation date was refused.
#[derive(Debug, PartialEq, Eq, Structural)]
pub enum CreationDateParseError {
    /// An element is no numeral of its type.
    ParseIntError(IntErrorKind),
    MissingElement,
    TooManyElements,
}

/// A calendar date as year, month and day, as written; not checked against
/// the calendar.
#[derive(Clone, Copy, Debug, PartialEq, Eq, Structural)]
pub struct CreationDate(pub u16, pub u8, pub u8);

/// The `-`-separated elements of `s`, in order; empty elements included.
pub open spec fn elements(s: Seq<char>) -> Seq<Seq<char>>
    decreases s.len(),
{
    if s.len() == 0 {
        seq![Seq::<char>::empty()]
    } else {
        let prev = elements(s.drop_last());
        if s.last() == '-' {
            prev.push(Seq::<char>::empty())
        } else {
            prev.update(prev.len() - 1, prev.last().push(s.last()))
        }
    }
}

pub proof fn lemma_elements_nonempty(s: Seq<char>)
    ensures
        elements(s).len() >= 1,
    decreases s.len(),
{
    if s.len() > 0 {
        lemma_elements_nonempty(s.drop_last());
    }
}

/// The date that `s` denotes: year, month and day read in turn, each as a
/// numeral of its type, then no element more.
pub open spec fn date_of(s: Seq<char>) -> Result<CreationDate, CreationDateParseError> {
    let parts = elements(s);
    match parse_unsigned(parts[0], u16::MAX as nat) {
        Err(k) => Err(CreationDateParseError::ParseIntError(k)),
        Ok(y) => if parts.len() < 2 {
            Err(CreationDateParseError::MissingElement)
        } else {
            match parse_unsigned(parts[1], u8::MAX as nat) {
                Err(k) => Err(CreationDateParseError::ParseIntError(k)),
                Ok(m) => if parts.len() < 3 {
                    Err(CreationDateParseError::MissingElement)
                } else {
                    match parse_unsigned(parts[2], u8::MAX as nat) {
                        Err(k) => Err(CreationDateParseError::ParseIntError(k)),
                        Ok(d) => if parts.len() > 3 {
                            Err(CreationDateParseError::TooManyElements)
                        } else {
                            Ok(CreationDate(y as u16, m as u8, d as u8))
                        },
                    }
                },
            }
        },
    }
}

/// Splits `s` on `-`.
fn split_elements<'a>(s: &'a str) -> (r: Vec<&'a str>)
    ensures
        r@.map_values(|e: &str| e@) == elements(s@),
{
    let len = s.unicode_len();
    let mut out: Vec<&'a str> = Vec::new();
    let mut start: usize = 0;
    let mut i: usize = 0;
    assert(s@.subrange(0, 0) =~= Seq::<char>::empty());
    assert(out@.map_values(|e: &str| e@).push(s@.subrange(0, 0)) =~~= seq![Seq::<char>::empty()]);
    while i < len
        invariant
            len == s@.len(),
            start <= i <= len,
            out@.map_values(|e: &str| e@).push(s@.subrange(start as int, i as int)) == elements(
                s@.subrange(0, i as int),
            ),
        decreases len - i,
    {
        let ghost before = s@.subrange(0, i as int);
        assert(s@.subrange(0, i + 1).drop_last() == before);
        let c = s.get_char(i);
        if c == '-' {
            let piece = s.substring_char(start, i);
            out.push(piece);
            start = i + 1;
            assert(s@.subrange(start as int, i + 1) =~= Seq::<char>::empty());
            assert(out@.map_values(|e: &str| e@).push(s@.subrange(start as int, i + 1)) =~= elements(
                before,
            ).push(Seq::<char>::empty()));
        } else {
            assert(s@.subrange(start as int, i + 1) =~= s@.subrange(start as int, i as int).push(c));
            assert(out@.map_values(|e: &str| e@).push(s@.subrange(start as int, i + 1)) =~= elements(
                before,
            ).update(elements(before).len() - 1, elements(before).last().push(c)));
        }
        i = i + 1;
    }
    let last = s.substring_char(start, len);
    out.push(last);
    assert(s@.subrange(0, len as int) == s@);
    assert(out@.map_values(|e: &str| e@) =~= elements(s@));
    out
}

impl CreationDate {
    pub fn year(&self) -> (r: u16)
        ensures
            r == self.0,
    {
        self.0
    }

    pub fn month(&self) -> (r: u8)
        ensures
            r == self.1,
    {
        self.1
    }

    pub fn day(&self) -> (r: u8)
        ensures
            r == self.2,
    {
        self.2
    }

    /// Reads a date written as `YYYY-MM-DD`.
    pub fn parse(s: &str) -> (r: Result<CreationDate, CreationDateParseError>)
        ensures
            r == date_of(s@),
    {
        let parts = split_elements(s);
        proof {
            lemma_elements_nonempty(s@);
        }
        let ghost pv = parts@.map_values(|e: &str| e@);
        assert(pv[0] == parts@[0]@);
        let y = match parse_unsigned_text(parts[0], 65535) {
            Ok(v) => v as u16,
            Err(k) => return Err(CreationDateParseError::ParseIntError(k)),
        };
        if parts.len() < 2 {
            return Err(CreationDateParseError::MissingElement);
        }
        assert(pv[1] == parts@[1]@);
        let m = match parse_unsigned_text(parts[1], 255) {
            Ok(v) => v as u8,
            Err(k) => return Err(CreationDateParseError::ParseIntError(k)),
        };
        if parts.len() < 3 {
            return Err(CreationDateParseError::MissingElement);
        }
        assert(pv[2] == parts@[2]@);
        let d = match parse_unsigned_text(parts[2], 255) {
            Ok(v) => v as u8,
            Err(k) => return Err(CreationDateParseError::ParseIntError(k)),
        };
        if parts.len() > 3 {
            return Err(CreationDateParseError::TooManyElements);
        }
        Ok(CreationDate(y, m, d))
    }
}

impl std::str::FromStr for CreationDate {
    type Err = CreationDateParseError;

    fn from_str(s: &str) -> Result<Self, Self::Err> {
        CreationDate::parse(s)
    }
}

} // verus!
