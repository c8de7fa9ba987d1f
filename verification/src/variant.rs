use vstd::prelude::*;
use vstd::string::StringExecFns;
use crate::error::BError;
use crate::strutil::str_eq;

verus! {

/// Build flavor, passed through to child environments. Its canonical text
/// is the lowercase literal; any other string is a parse error, never a
/// silent default.
#[derive(Clone, Copy, PartialEq, Eq, Structural, Debug)]
pub enum Variant {
    USER,
    USERDEBUG,
    ENG,
}

/// The canonical lowercase text of a variant.
pub open spec fn variant_chars(v: Variant) -> Seq<char> {
    match v {
        Variant::USER => "user"@,
        Variant::USERDEBUG => "userdebug"@,
        Variant::ENG => "eng"@,
    }
}

/// The variant a string denotes, if any.
pub open spec fn variant_of(s: Seq<char>) -> Option<Variant> {
    if s == "user"@ {
        Some(Variant::USER)
    } else if s == "userdebug"@ {
        Some(Variant::USERDEBUG)
    } else if s == "eng"@ {
        Some(Variant::ENG)
    } else {
        None
    }
}

impl Variant {
    /// Parses the lowercase literal of a variant; anything else fails.
    pub fn from_str(s: &str) -> (r: Result<Variant, BError>)
        ensures
            match r {
                Ok(v) => variant_of(s@) == Some(v),
                Err(e) => variant_of(s@) is None && e is InvalidEnumValue,
            },
    {
        if str_eq(s, "user") {
            Ok(Variant::USER)
        } else if str_eq(s, "userdebug") {
            Ok(Variant::USERDEBUG)
        } else if str_eq(s, "eng") {
            Ok(Variant::ENG)
        } else {
            Err(BError::InvalidEnumValue(s.to_owned()))
        }
    }

    /// The canonical lowercase text of this variant.
    pub fn to_str(&self) -> (r: String)
        ensures
            r@ == variant_chars(*self),
    {
        match self {
            Variant::USER => String::from_str("user"),
            Variant::USERDEBUG => String::from_str("userdebug"),
            Variant::ENG => String::from_str("eng"),
        }
    }
}

/// Printing a variant and parsing the text back yields the same variant,
/// and a string that parses is exactly the canonical text of its variant.
pub proof fn lemma_variant_round_trip(v: Variant, s: Seq<char>)
    ensures
        variant_of(variant_chars(v)) == Some(v),
        variant_of(s) == Some(v) ==> s == variant_chars(v),
{
    reveal_strlit("user");
    reveal_strlit("userdebug");
    reveal_strlit("eng");
    assert("user"@.len() == 4);
    assert("userdebug"@.len() == 9);
    assert("eng"@.len() == 3);
}

/// Environment type of a shell session's toolchain setup. Its canonical
/// text is the lowercase literal; any other string is a parse error.
#[derive(Clone, Copy, PartialEq, Eq, Structural, Debug)]
pub enum TType {
    NONHLOS,
    HLOS,
    AOSP,
    KERNEL,
    VENDOR,
    QSSI,
}

/// The canonical lowercase text of an environment type.
pub open spec fn ttype_chars(t: TType) -> Seq<char> {
    match t {
        TType::NONHLOS => "non-hlos"@,
        TType::HLOS => "hlos"@,
        TType::AOSP => "aosp"@,
        TType::KERNEL => "kernel"@,
        TType::VENDOR => "vendor"@,
        TType::QSSI => "qssi"@,
    }
}

/// The environment type a string denotes, if any.
pub open spec fn ttype_of(s: Seq<char>) -> Option<TType> {
    if s == "non-hlos"@ {
        Some(TType::NONHLOS)
    } else if s == "hlos"@ {
        Some(TType::HLOS)
    } else if s == "aosp"@ {
        Some(TType::AOSP)
    } else if s == "kernel"@ {
        Some(TType::KERNEL)
    } else if s == "vendor"@ {
        Some(TType::VENDOR)
    } else if s == "qssi"@ {
        Some(TType::QSSI)
    } else {
        None
    }
}

impl TType {
    /// Parses the lowercase literal of an environment type.
    pub fn from_str(s: &str) -> (r: Result<TType, BError>)
        ensures
            match r {
                Ok(t) => ttype_of(s@) == Some(t),
                Err(e) => ttype_of(s@) is None && e is InvalidEnumValue,
            },
    {
        if str_eq(s, "non-hlos") {
            Ok(TType::NONHLOS)
        } else if str_eq(s, "hlos") {
            Ok(TType::HLOS)
        } else if str_eq(s, "aosp") {
            Ok(TType::AOSP)
        } else if str_eq(s, "kernel") {
            Ok(TType::KERNEL)
        } else if str_eq(s, "vendor") {
            Ok(TType::VENDOR)
        } else if str_eq(s, "qssi") {
            Ok(TType::QSSI)
        } else {
            Err(BError::InvalidEnumValue(s.to_owned()))
        }
    }

    /// The canonical lowercase text of this environment type.
    pub fn to_str(&self) -> (r: String)
        ensures
            r@ == ttype_chars(*self),
    {
        match self {
            TType::NONHLOS => String::from_str("non-hlos"),
            TType::HLOS => String::from_str("hlos"),
            TType::AOSP => String::from_str("aosp"),
            TType::KERNEL => String::from_str("kernel"),
            TType::VENDOR => String::from_str("vendor"),
            TType::QSSI => String::from_str("qssi"),
        }
    }
}

/// Printing an environment type and parsing the text back yields the same
/// type, and a string that parses is exactly the canonical text of its type.
pub proof fn lemma_ttype_round_trip(t: TType, s: Seq<char>)
    ensures
        ttype_of(ttype_chars(t)) == Some(t),
        ttype_of(s) == Some(t) ==> s == ttype_chars(t),
{
    reveal_strlit("non-hlos");
    reveal_strlit("hlos");
    reveal_strlit("aosp");
    reveal_strlit("kernel");
    reveal_strlit("vendor");
    reveal_strlit("qssi");
    assert("non-hlos"@.len() == 8);
    assert("hlos"@.len() == 4);
    assert("aosp"@.len() == 4);
    assert("kernel"@.len() == 6);
    assert("vendor"@.len() == 6);
    assert("qssi"@.len() == 4);
    assert("hlos"@ != "aosp"@) by {
        assert("hlos"@[0] == 'h' && "aosp"@[0] == 'a');
    }
    assert("hlos"@ != "qssi"@) by {
        assert("hlos"@[0] == 'h' && "qssi"@[0] == 'q');
    }
    assert("aosp"@ != "qssi"@) by {
        assert("aosp"@[0] == 'a' && "qssi"@[0] == 'q');
    }
    assert("kernel"@ != "vendor"@) by {
        assert("kernel"@[0] == 'k' && "vendor"@[0] == 'v');
    }
}

} // verus!
