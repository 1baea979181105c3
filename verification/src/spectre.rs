//! The Spectre algorithm's enumerations: versions, result types, output formats and
//! identicon colours, with the numeric codes that the algorithm's interface uses and
//! the names that the user interface shows.
use vstd::prelude::*;

use crate::text::str_equals;

verus! {

/// The versions of the Spectre algorithm.
#[derive(Clone, Copy, Debug, PartialEq, Eq, Structural)]
pub enum AlgorithmVersion {
    /// V0 did math with chars whose signedness was platform-dependent.
    V0,
    /// V1 miscounted the byte-length of multi-byte site names.
    V1,
    /// V2 miscounted the byte-length of multi-byte user names.
    V2,
    /// V3 is the current version.
    V3,
}

/// The version used when none is chosen.
pub const ALGORITHM_VERSION_DEFAULT: AlgorithmVersion = AlgorithmVersion::V3;

/// The newest version.
pub const ALGORITHM_VERSION_LATEST: AlgorithmVersion = AlgorithmVersion::V3;

impl AlgorithmVersion {
    /// The numeric code of the version in the algorithm's interface.
    pub open spec fn code(self) -> u32 {
        match self {
            AlgorithmVersion::V0 => 0,
            AlgorithmVersion::V1 => 1,
            AlgorithmVersion::V2 => 2,
            AlgorithmVersion::V3 => 3,
        }
    }

    /// The version with numeric code `code`, if there is one.
    pub open spec fn from_code(code: u32) -> Option<AlgorithmVersion> {
        if code == 0 {
            Some(AlgorithmVersion::V0)
        } else if code == 1 {
            Some(AlgorithmVersion::V1)
        } else if code == 2 {
            Some(AlgorithmVersion::V2)
        } else if code == 3 {
            Some(AlgorithmVersion::V3)
        } else {
            None
        }
    }

    /// The name shown for the version.
    pub open spec fn name(self) -> Seq<char> {
        match self {
            AlgorithmVersion::V0 => "V0"@,
            AlgorithmVersion::V1 => "V1"@,
            AlgorithmVersion::V2 => "V2"@,
            AlgorithmVersion::V3 => "V3"@,
        }
    }

    /// The numeric code of the version.
    pub fn to_u32(&self) -> (r: u32)
        ensures
            r == self.code(),
    {
        match self {
            AlgorithmVersion::V0 => 0,
            AlgorithmVersion::V1 => 1,
            AlgorithmVersion::V2 => 2,
            AlgorithmVersion::V3 => 3,
        }
    }

    /// The version with the given numeric code; `None` for a code that names no version.
    pub fn from_u32(code: u32) -> (r: Option<AlgorithmVersion>)
        ensures
            r == AlgorithmVersion::from_code(code),
    {
        if code == 0 {
            Some(AlgorithmVersion::V0)
        } else if code == 1 {
            Some(AlgorithmVersion::V1)
        } else if code == 2 {
            Some(AlgorithmVersion::V2)
        } else if code == 3 {
            Some(AlgorithmVersion::V3)
        } else {
            None
        }
    }

    /// The name of the version: "V0" to "V3".
    pub fn to_string(&self) -> (r: String)
        ensures
            r@ == self.name(),
    {
        match self {
            AlgorithmVersion::V0 => String::from_str("V0"),
            AlgorithmVersion::V1 => String::from_str("V1"),
            AlgorithmVersion::V2 => String::from_str("V2"),
            AlgorithmVersion::V3 => String::from_str("V3"),
        }
    }
}

/// The kinds of result the algorithm produces for a site.
#[derive(Clone, Copy, Debug, PartialEq, Eq, Structural)]
pub enum ResultType {
    /// 16: pg^VMAUBk5x3p%HP%i4=
    TemplateMaximum,
    /// 17: BiroYena8:Kixa
    TemplateLong,
    /// 18: BirSuj0-
    TemplateMedium,
    /// 19: Bir8
    TemplateShort,
    /// 20: pO98MoD0
    TemplateBasic,
    /// 21: 2798
    TemplatePIN,
    /// 30: birsujano
    TemplateName,
    /// 31: bir yennoquce fefi
    TemplatePhrase,
    /// 1056: Custom saved password.
    StatefulPersonal,
    /// 2081: Custom saved password that should not be exported from the device.
    StatefulDevice,
    /// 4160: Derive a unique binary key.
    DeriveKey,
}

/// The result type used when none is chosen.
#[allow(non_upper_case_globals)]
pub const ResultTypeDefault: ResultType = ResultType::TemplateLong;

impl ResultType {
    /// The numeric code of the result type in the algorithm's interface.
    pub open spec fn code(self) -> u32 {
        match self {
            ResultType::TemplateMaximum => 16,
            ResultType::TemplateLong => 17,
            ResultType::TemplateMedium => 18,
            ResultType::TemplateShort => 19,
            ResultType::TemplateBasic => 20,
            ResultType::TemplatePIN => 21,
            ResultType::TemplateName => 30,
            ResultType::TemplatePhrase => 31,
            ResultType::StatefulPersonal => 1056,
            ResultType::StatefulDevice => 2081,
            ResultType::DeriveKey => 4160,
        }
    }

    /// The result type with numeric code `code`, if there is one.
    pub open spec fn from_code(code: u32) -> Option<ResultType> {
        if code == 16 {
            Some(ResultType::TemplateMaximum)
        } else if code == 17 {
            Some(ResultType::TemplateLong)
        } else if code == 18 {
            Some(ResultType::TemplateMedium)
        } else if code == 19 {
            Some(ResultType::TemplateShort)
        } else if code == 20 {
            Some(ResultType::TemplateBasic)
        } else if code == 21 {
            Some(ResultType::TemplatePIN)
        } else if code == 30 {
            Some(ResultType::TemplateName)
        } else if code == 31 {
            Some(ResultType::TemplatePhrase)
        } else if code == 1056 {
            Some(ResultType::StatefulPersonal)
        } else if code == 2081 {
            Some(ResultType::StatefulDevice)
        } else if code == 4160 {
            Some(ResultType::DeriveKey)
        } else {
            None
        }
    }

    /// Whether the result type is one of the eight password templates.
    pub open spec fn is_template(self) -> bool {
        !(self is StatefulPersonal || self is StatefulDevice || self is DeriveKey)
    }

    /// The name shown for the result type; the empty string for one that is no template.
    pub open spec fn name(self) -> Seq<char> {
        match self {
            ResultType::TemplateMaximum => "Maximum"@,
            ResultType::TemplateLong => "Long"@,
            ResultType::TemplateMedium => "Medium"@,
            ResultType::TemplateShort => "Short"@,
            ResultType::TemplateBasic => "Basic"@,
            ResultType::TemplatePIN => "PIN"@,
            ResultType::TemplateName => "Name"@,
            ResultType::TemplatePhrase => "Phrase"@,
            _ => Seq::<char>::empty(),
        }
    }

    /// The result type that a name stands for; every other text stands for the default.
    pub open spec fn parse(s: Seq<char>) -> ResultType {
        if s == "Maximum"@ {
            ResultType::TemplateMaximum
        } else if s == "Long"@ {
            ResultType::TemplateLong
        } else if s == "Medium"@ {
            ResultType::TemplateMedium
        } else if s == "Short"@ {
            ResultType::TemplateShort
        } else if s == "Basic"@ {
            ResultType::TemplateBasic
        } else if s == "PIN"@ {
            ResultType::TemplatePIN
        } else if s == "Name"@ {
            ResultType::TemplateName
        } else if s == "Phrase"@ {
            ResultType::TemplatePhrase
        } else {
            ResultTypeDefault
        }
    }

    /// The eight password templates, in the order in which the user interface lists them.
    pub open spec fn templates() -> Seq<ResultType> {
        seq![
            ResultType::TemplateMaximum,
            ResultType::TemplateLong,
            ResultType::TemplateMedium,
            ResultType::TemplateShort,
            ResultType::TemplateBasic,
            ResultType::TemplatePIN,
            ResultType::TemplateName,
            ResultType::TemplatePhrase,
        ]
    }

    /// The numeric code of the result type.
    pub fn to_u32(&self) -> (r: u32)
        ensures
            r == self.code(),
    {
        match self {
            ResultType::TemplateMaximum => 16,
            ResultType::TemplateLong => 17,
            ResultType::TemplateMedium => 18,
            ResultType::TemplateShort => 19,
            ResultType::TemplateBasic => 20,
            ResultType::TemplatePIN => 21,
            ResultType::TemplateName => 30,
            ResultType::TemplatePhrase => 31,
            ResultType::StatefulPersonal => 1056,
            ResultType::StatefulDevice => 2081,
            ResultType::DeriveKey => 4160,
        }
    }

    /// The result type with the given numeric code; `None` for a code that names none.
    pub fn from_u32(code: u32) -> (r: Option<ResultType>)
        ensures
            r == ResultType::from_code(code),
    {
        if code == 16 {
            Some(ResultType::TemplateMaximum)
        } else if code == 17 {
            Some(ResultType::TemplateLong)
        } else if code == 18 {
            Some(ResultType::TemplateMedium)
        } else if code == 19 {
            Some(ResultType::TemplateShort)
        } else if code == 20 {
            Some(ResultType::TemplateBasic)
        } else if code == 21 {
            Some(ResultType::TemplatePIN)
        } else if code == 30 {
            Some(ResultType::TemplateName)
        } else if code == 31 {
            Some(ResultType::TemplatePhrase)
        } else if code == 1056 {
            Some(ResultType::StatefulPersonal)
        } else if code == 2081 {
            Some(ResultType::StatefulDevice)
        } else if code == 4160 {
            Some(ResultType::DeriveKey)
        } else {
            None
        }
    }

    /// The password templates that the user can choose from.
    pub fn iterable() -> (r: Vec<ResultType>)
        ensures
            r@ == ResultType::templates(),
    {
        let r = vec![
            ResultType::TemplateMaximum,
            ResultType::TemplateLong,
            ResultType::TemplateMedium,
            ResultType::TemplateShort,
            ResultType::TemplateBasic,
            ResultType::TemplatePIN,
            ResultType::TemplateName,
            ResultType::TemplatePhrase,
        ];
        assert(r@ =~= ResultType::templates());
        r
    }

    /// The result type named by `s`: "Maximum", "Long", "Medium", "Short", "Basic", "PIN",
    /// "Name" or "Phrase"; any other text gives the default, `TemplateLong`.
    pub fn from_str(s: &str) -> (r: ResultType)
        ensures
            r == ResultType::parse(s@),
    {
        if str_equals(s, "Maximum") {
            ResultType::TemplateMaximum
        } else if str_equals(s, "Long") {
            ResultType::TemplateLong
        } else if str_equals(s, "Medium") {
            ResultType::TemplateMedium
        } else if str_equals(s, "Short") {
            ResultType::TemplateShort
        } else if str_equals(s, "Basic") {
            ResultType::TemplateBasic
        } else if str_equals(s, "PIN") {
            ResultType::TemplatePIN
        } else if str_equals(s, "Name") {
            ResultType::TemplateName
        } else if str_equals(s, "Phrase") {
            ResultType::TemplatePhrase
        } else {
            ResultTypeDefault
        }
    }

    /// The name of a template, such as "Long"; the empty string for the other result types.
    pub fn to_string(&self) -> (r: String)
        ensures
            r@ == self.name(),
    {
        match self {
            ResultType::TemplateMaximum => String::from_str("Maximum"),
            ResultType::TemplateLong => String::from_str("Long"),
            ResultType::TemplateMedium => String::from_str("Medium"),
            ResultType::TemplateShort => String::from_str("Short"),
            ResultType::TemplateBasic => String::from_str("Basic"),
            ResultType::TemplatePIN => String::from_str("PIN"),
            ResultType::TemplateName => String::from_str("Name"),
            ResultType::TemplatePhrase => String::from_str("Phrase"),
            _ => String::new(),
        }
    }
}

/// Every version's numeric code gives that version back, and no two versions share a code.
pub proof fn law_algorithm_version_code_roundtrip(v: AlgorithmVersion, w: AlgorithmVersion)
    ensures
        AlgorithmVersion::from_code(v.code()) == Some(v),
        v.code() == w.code() ==> v == w,
{
}

/// A code that `from_u32` accepts names a version whose code it is.
pub proof fn law_algorithm_version_code_inverse(code: u32)
    ensures
        AlgorithmVersion::from_code(code) matches Some(v) ==> v.code() == code,
        AlgorithmVersion::from_code(code) is Some <==> code <= 3,
{
}

/// Every result type's numeric code gives that result type back, and no two result
/// types share a code.
pub proof fn law_result_type_code_roundtrip(t: ResultType, u: ResultType)
    ensures
        ResultType::from_code(t.code()) == Some(t),
        t.code() == u.code() ==> t == u,
{
}

/// A code that `ResultType::from_u32` accepts names a result type whose code it is.
pub proof fn law_result_type_code_inverse(code: u32)
    ensures
        ResultType::from_code(code) matches Some(t) ==> t.code() == code,
{
}

/// Reading back the name of a password template gives that template; the name of any
/// other result type is empty and reads back as the default template.
pub proof fn law_result_type_name_roundtrip(t: ResultType)
    ensures
        t.is_template() ==> ResultType::parse(t.name()) == t,
        !t.is_template() ==> t.name().len() == 0 && ResultType::parse(t.name()) == ResultTypeDefault,
{
    reveal_strlit("Maximum");
    reveal_strlit("Long");
    reveal_strlit("Medium");
    reveal_strlit("Short");
    reveal_strlit("Basic");
    reveal_strlit("PIN");
    reveal_strlit("Name");
    reveal_strlit("Phrase");
    let n = t.name();
    match t {
        ResultType::TemplateMaximum => assert(n.len() == 7 && n[0] == 'M'),
        ResultType::TemplateLong => assert(n.len() == 4 && n[0] == 'L'),
        ResultType::TemplateMedium => assert(n.len() == 6 && n[0] == 'M'),
        ResultType::TemplateShort => assert(n.len() == 5 && n[0] == 'S'),
        ResultType::TemplateBasic => assert(n.len() == 5 && n[0] == 'B'),
        ResultType::TemplatePIN => assert(n.len() == 3 && n[0] == 'P'),
        ResultType::TemplateName => assert(n.len() == 4 && n[0] == 'N'),
        ResultType::TemplatePhrase => assert(n.len() == 6 && n[0] == 'P'),
        _ => assert(n.len() == 0),
    }
    assert("Maximum"@.len() == 7 && "Maximum"@[0] == 'M');
    assert("Long"@.len() == 4 && "Long"@[0] == 'L');
    assert("Medium"@.len() == 6 && "Medium"@[0] == 'M');
    assert("Short"@.len() == 5 && "Short"@[0] == 'S');
    assert("Basic"@.len() == 5 && "Basic"@[0] == 'B');
    assert("PIN"@.len() == 3 && "PIN"@[0] == 'P');
    assert("Name"@.len() == 4 && "Name"@[0] == 'N');
    assert("Phrase"@.len() == 6 && "Phrase"@[0] == 'P');
}

/// The templates that the user can choose from are exactly the result types that are
/// templates, each listed once, each with a name that is not empty.
pub proof fn law_templates_are_listed_once(t: ResultType)
    ensures
        t.is_template() <==> ResultType::templates().contains(t),
        ResultType::templates().len() == 8,
        forall|i: int, j: int|
            0 <= i < j < 8 ==> ResultType::templates()[i] != ResultType::templates()[j],
        t.is_template() ==> t.name().len() > 0,
{
    reveal_strlit("Maximum");
    reveal_strlit("Long");
    reveal_strlit("Medium");
    reveal_strlit("Short");
    reveal_strlit("Basic");
    reveal_strlit("PIN");
    reveal_strlit("Name");
    reveal_strlit("Phrase");
    let ts = ResultType::templates();
    if t.is_template() {
        assert(ts.contains(t)) by {
            match t {
                ResultType::TemplateMaximum => assert(ts[0] == t),
                ResultType::TemplateLong => assert(ts[1] == t),
                ResultType::TemplateMedium => assert(ts[2] == t),
                ResultType::TemplateShort => assert(ts[3] == t),
                ResultType::TemplateBasic => assert(ts[4] == t),
                ResultType::TemplatePIN => assert(ts[5] == t),
                ResultType::TemplateName => assert(ts[6] == t),
                ResultType::TemplatePhrase => assert(ts[7] == t),
                _ => {},
            }
        }
    }
}

/// The templates are named "Maximum", "Long", "Medium", "Short", "Basic", "PIN", "Name" and
/// "Phrase", in the order in which the user interface lists them, and each of these names
/// reads back as its template.
pub proof fn law_template_names(i: int)
    requires
        0 <= i < 8,
    ensures
        ResultType::templates().map_values(|t: ResultType| t.name()) == seq![
            "Maximum"@,
            "Long"@,
            "Medium"@,
            "Short"@,
            "Basic"@,
            "PIN"@,
            "Name"@,
            "Phrase"@,
        ],
        ResultType::parse(
            seq!["Maximum"@, "Long"@, "Medium"@, "Short"@, "Basic"@, "PIN"@, "Name"@, "Phrase"@][i],
        ) == ResultType::templates()[i],
{
    let names = seq!["Maximum"@, "Long"@, "Medium"@, "Short"@, "Basic"@, "PIN"@, "Name"@, "Phrase"@];
    assert(ResultType::templates().map_values(|t: ResultType| t.name()) =~= names);
    law_result_type_name_roundtrip(ResultType::templates()[i]);
}

/// The names of the versions are distinct.
pub proof fn law_algorithm_version_names_distinct(v: AlgorithmVersion, w: AlgorithmVersion)
    ensures
        v.name() == w.name() ==> v == w,
{
    reveal_strlit("V0");
    reveal_strlit("V1");
    reveal_strlit("V2");
    reveal_strlit("V3");
    if v != w {
        assert(v.name()[1] != w.name()[1]);
    }
}

} // verus!
