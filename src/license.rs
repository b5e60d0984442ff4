//! The licenses that published content can carry, and their stored form.
use vstd::prelude::*;
use std::borrow::Cow;

verus! {

/// A content license: one of the Creative Commons family, or free text.
#[allow(non_camel_case_types)]
pub enum License<'s> {
    PublicDomain,
    CreativeCommonsBY,
    CreativeCommonsBY_SA,
    CreativeCommonsBY_NC,
    CreativeCommonsBY_NC_SA,
    CreativeCommonsBY_ND,
    CreativeCommonsBY_NC_ND,
    Custom(&'s str),
    CustomOwned(String),
}

/// The stored type code of a license; every custom license has code 999.
pub open spec fn type_code(l: License) -> u32 {
    match l {
        License::PublicDomain => 0,
        License::CreativeCommonsBY => 1,
        License::CreativeCommonsBY_SA => 2,
        License::CreativeCommonsBY_NC => 3,
        License::CreativeCommonsBY_NC_SA => 4,
        License::CreativeCommonsBY_ND => 5,
        License::CreativeCommonsBY_NC_ND => 6,
        License::Custom(_) => 999,
        License::CustomOwned(_) => 999,
    }
}

/// The free text of a custom license.
pub open spec fn custom_text(l: License) -> Option<Seq<char>> {
    match l {
        License::Custom(s) => Some(s@),
        License::CustomOwned(s) => Some(s@),
        _ => None,
    }
}

/// The name under which the license stored as type code `ty` with text
/// `text` is shown.
pub open spec fn stored_display_text(ty: u32, text: Option<Seq<char>>) -> Seq<char> {
    if ty == 0 {
        "CC0 (Public Domain)"@
    } else if ty == 1 {
        "Creative Commons BY"@
    } else if ty == 2 {
        "Creative Commons BY-SA"@
    } else if ty == 3 {
        "Creative Commons BY-NC"@
    } else if ty == 4 {
        "Creative Commons BY-NC-SA"@
    } else if ty == 5 {
        "Creative Commons BY-ND"@
    } else if ty == 6 {
        "Creative Commons BY-NC-ND"@
    } else {
        match text {
            Some(t) => t,
            None => ""@,
        }
    }
}

/// The name under which a license is shown.
pub open spec fn display_text(l: License) -> Seq<char> {
    match l {
        License::PublicDomain => "CC0 (Public Domain)"@,
        License::CreativeCommonsBY => "Creative Commons BY"@,
        License::CreativeCommonsBY_SA => "Creative Commons BY-SA"@,
        License::CreativeCommonsBY_NC => "Creative Commons BY-NC"@,
        License::CreativeCommonsBY_NC_SA => "Creative Commons BY-NC-SA"@,
        License::CreativeCommonsBY_ND => "Creative Commons BY-ND"@,
        License::CreativeCommonsBY_NC_ND => "Creative Commons BY-NC-ND"@,
        License::Custom(s) => s@,
        License::CustomOwned(s) => s@,
    }
}

impl<'s> License<'s> {
    /// The license stored as type code `ty` with text `str`: codes 0 to 6
    /// name the Creative Commons family, any other code a custom license
    /// with the text (empty where there is none).
    pub fn from_db_values(ty: u32, str: Option<&'s str>) -> (r: Self)
        ensures
            ty <= 6 ==> type_code(r) == ty,
            ty > 6 ==> (r matches License::Custom(s) && s@ == match str {
                Some(t) => t@,
                None => ""@,
            }),
    {
        match ty {
            0 => License::PublicDomain,
            1 => License::CreativeCommonsBY,
            2 => License::CreativeCommonsBY_SA,
            3 => License::CreativeCommonsBY_NC,
            4 => License::CreativeCommonsBY_NC_SA,
            5 => License::CreativeCommonsBY_ND,
            6 => License::CreativeCommonsBY_NC_ND,
            _ => License::Custom(
                match str {
                    Some(t) => t,
                    None => "",
                },
            ),
        }
    }

    /// The stored form: the type code, and the text of a custom license.
    pub fn into_db_values(self) -> (r: (u32, Option<Cow<'s, str>>))
        ensures
            r.0 == type_code(self),
            match (r.1, custom_text(self)) {
                (None, None) => true,
                (Some(c), Some(t)) => c@ == t,
                _ => false,
            },
    {
        match self {
            License::PublicDomain => (0, None),
            License::CreativeCommonsBY => (1, None),
            License::CreativeCommonsBY_SA => (2, None),
            License::CreativeCommonsBY_NC => (3, None),
            License::CreativeCommonsBY_NC_SA => (4, None),
            License::CreativeCommonsBY_ND => (5, None),
            License::CreativeCommonsBY_NC_ND => (6, None),
            License::Custom(s) => (999, Some(Cow::Borrowed(s))),
            License::CustomOwned(s) => (999, Some(Cow::Owned(s))),
        }
    }

    /// The name under which the license is shown.
    pub fn display_name(&self) -> (r: String)
        ensures
            r@ == display_text(*self),
    {
        match self {
            License::PublicDomain => String::from_str("CC0 (Public Domain)"),
            License::CreativeCommonsBY => String::from_str("Creative Commons BY"),
            License::CreativeCommonsBY_SA => String::from_str("Creative Commons BY-SA"),
            License::CreativeCommonsBY_NC => String::from_str("Creative Commons BY-NC"),
            License::CreativeCommonsBY_NC_SA => String::from_str("Creative Commons BY-NC-SA"),
            License::CreativeCommonsBY_ND => String::from_str("Creative Commons BY-ND"),
            License::CreativeCommonsBY_NC_ND => String::from_str("Creative Commons BY-NC-ND"),
            License::Custom(s) => String::from_str(s),
            License::CustomOwned(s) => s.clone(),
        }
    }
}

/// The license that a short name selects: `cc0` and the `cc-by` family name
/// the Creative Commons licenses; any other text is a custom license.
pub open spec fn license_named(name: Seq<char>) -> Option<u32> {
    if name == "cc0"@ {
        Some(0)
    } else if name == "cc-by"@ {
        Some(1)
    } else if name == "cc-by-sa"@ {
        Some(2)
    } else if name == "cc-by-nc"@ {
        Some(3)
    } else if name == "cc-by-nc-sa"@ {
        Some(4)
    } else if name == "cc-by-nd"@ {
        Some(5)
    } else if name == "cc-by-nc-nd"@ {
        Some(6)
    } else {
        None
    }
}

impl License<'static> {
    /// The license that `name` selects.
    pub fn from_short_name(name: String) -> (r: License<'static>)
        ensures
            match license_named(name@) {
                Some(code) => type_code(r) == code,
                None => r matches License::CustomOwned(t) && t@ == name@,
            },
    {
        let n = name.as_str();
        if crate::json::str_eq(n, "cc0") {
            License::PublicDomain
        } else if crate::json::str_eq(n, "cc-by") {
            License::CreativeCommonsBY
        } else if crate::json::str_eq(n, "cc-by-sa") {
            License::CreativeCommonsBY_SA
        } else if crate::json::str_eq(n, "cc-by-nc") {
            License::CreativeCommonsBY_NC
        } else if crate::json::str_eq(n, "cc-by-nc-sa") {
            License::CreativeCommonsBY_NC_SA
        } else if crate::json::str_eq(n, "cc-by-nd") {
            License::CreativeCommonsBY_ND
        } else if crate::json::str_eq(n, "cc-by-nc-nd") {
            License::CreativeCommonsBY_NC_ND
        } else {
            License::CustomOwned(name)
        }
    }
}

} // verus!
