use vstd::prelude::*;

use crate::model::{
    NativeActionTriggerModel, NativeBlockPropertyModel, PropertyView,
};
use crate::text::{ascii_char, join2, str_equal, string_from_ascii};

verus! {

/// The property of a script trigger that holds its source.
pub const SCRIPT_PROPERTY: &'static str = "script";

/// The placeholder of a script that stands for the list item index.
pub const INDEX_PLACEHOLDER: &'static str = "{{index}}";

/// The decimal digit character of a value below 10.
pub open spec fn digit_char(d: nat) -> char {
    ascii_char((48 + d) as u8)
}

/// The decimal digits of a natural number, most significant first.
pub open spec fn decimal_digits(n: nat) -> Seq<char>
    decreases n,
{
    if n < 10 {
        seq![digit_char(n)]
    } else {
        decimal_digits(n / 10).push(digit_char(n % 10))
    }
}

/// The decimal text of an integer, with a leading `-` when it is negative.
pub open spec fn decimal(n: int) -> Seq<char> {
    if n < 0 {
        seq!['-'] + decimal_digits((-n) as nat)
    } else {
        decimal_digits(n as nat)
    }
}

fn digit_bytes(n: u64) -> (r: Vec<u8>)
    ensures
        r@.map_values(|b: u8| ascii_char(b)) == decimal_digits(n as nat),
        forall|i: int| 0 <= i < r@.len() ==> r@[i] < 128,
    decreases n,
{
    if n < 10 {
        let mut v: Vec<u8> = Vec::new();
        v.push(48 + n as u8);
        assert(v@.map_values(|b: u8| ascii_char(b)) =~= seq![digit_char(n as nat)]);
        v
    } else {
        let mut v = digit_bytes(n / 10);
        let ghost before = v@;
        v.push(48 + (n % 10) as u8);
        assert(v@.map_values(|b: u8| ascii_char(b)) =~= before.map_values(|b: u8| ascii_char(b)).push(
            digit_char((n % 10) as nat),
        ));
        v
    }
}

/// Writes a count in decimal.
pub fn count_text(n: usize) -> (r: String)
    ensures
        r@ == decimal(n as int),
{
    string_from_ascii(digit_bytes(n as u64))
}

/// Writes an integer in decimal.
pub fn decimal_text(n: i64) -> (r: String)
    ensures
        r@ == decimal(n as int),
{
    if n < 0 {
        let magnitude: u64 = if n == i64::MIN {
            9223372036854775808u64
        } else {
            (-n) as u64
        };
        let digits = string_from_ascii(digit_bytes(magnitude));
        let r = join2("-", digits.as_str());
        proof {
            reveal_strlit("-");
            assert("-"@ =~= seq!['-']);
        }
        r
    } else {
        string_from_ascii(digit_bytes(n as u64))
    }
}

/// The text after replacing, from left to right, each occurrence of a
/// non-empty pattern that does not overlap an earlier one.
pub open spec fn replace_all(s: Seq<char>, pat: Seq<char>, rep: Seq<char>) -> Seq<char>
    decreases s.len(),
{
    if pat.len() == 0 || s.len() < pat.len() {
        s
    } else if s.take(pat.len() as int) == pat {
        rep + replace_all(s.skip(pat.len() as int), pat, rep)
    } else {
        seq![s[0]] + replace_all(s.skip(1), pat, rep)
    }
}

/// Replaces every occurrence of a pattern.
///
/// Trusted: calls `str::replace`, which replaces all matches of a non-empty
/// pattern, found from the left without overlapping.
#[verifier::external_body]
fn replace_text(s: &str, pat: &str, rep: &str) -> (r: String)
    requires
        pat@.len() > 0,
    ensures
        r@ == replace_all(s@, pat@, rep@),
{
    s.replace(pat, rep)
}

/// The upper-case form of a text, as `str::to_uppercase` computes it.
pub uninterp spec fn upper_text(s: Seq<char>) -> Seq<char>;

/// Upper-cases a text.
///
/// Trusted: calls `str::to_uppercase`; the Unicode case mapping it applies is
/// named, not stated.
#[verifier::external_body]
fn uppercase(s: &str) -> (r: String)
    ensures
        r@ == upper_text(s@),
{
    s.to_uppercase()
}

/// Whether a character is an ASCII decimal digit.
pub open spec fn is_digit(c: char) -> bool {
    '0' <= c <= '9'
}

/// The value of a string of decimal digits.
pub open spec fn digits_value(s: Seq<char>) -> int
    decreases s.len(),
{
    if s.len() == 0 {
        0
    } else {
        digits_value(s.drop_last()) * 10 + (s.last() as int - 48)
    }
}

/// A text without its leading sign, if it has one.
pub open spec fn unsigned_part(s: Seq<char>) -> Seq<char> {
    if s.len() > 0 && (s[0] == '-' || s[0] == '+') {
        s.drop_first()
    } else {
        s
    }
}

/// Whether a text is one or more ASCII digits.
pub open spec fn all_digits(s: Seq<char>) -> bool {
    s.len() > 0 && forall|i: int| 0 <= i < s.len() ==> is_digit(#[trigger] s[i])
}

/// The integer a text reads as, as `str::parse` reads integers: an optional
/// `+` or `-`, then one or more ASCII digits and nothing else; a value outside
/// `min..=max` does not read.
pub open spec fn parsed_int(s: Seq<char>, min: int, max: int) -> Option<int> {
    let body = unsigned_part(s);
    let v = if s.len() > 0 && s[0] == '-' {
        -digits_value(body)
    } else {
        digits_value(body)
    };
    if !all_digits(body) || v < min || v > max {
        None
    } else {
        Some(v)
    }
}

/// The value `str::parse::<i32>` reads from a text, if it reads one.
pub open spec fn parsed_i32(s: Seq<char>) -> Option<i32> {
    match parsed_int(s, i32::MIN as int, i32::MAX as int) {
        Some(v) => Some(v as i32),
        None => None,
    }
}

/// The value `str::parse::<i64>` reads from a text, if it reads one.
pub open spec fn parsed_i64(s: Seq<char>) -> Option<i64> {
    match parsed_int(s, i64::MIN as int, i64::MAX as int) {
        Some(v) => Some(v as i64),
        None => None,
    }
}

/// Reads a 32-bit integer.
///
/// Trusted: calls `str::parse::<i32>`, whose documentation gives the form it
/// accepts (an optional sign, then decimal digits, within the type's range).
#[verifier::external_body]
fn parse_i32(s: &str) -> (r: Option<i32>)
    ensures
        r == parsed_i32(s@),
{
    s.parse::<i32>().ok()
}

/// Reads a 64-bit integer.
///
/// Trusted: calls `str::parse::<i64>`, whose documentation gives the form it
/// accepts (an optional sign, then decimal digits, within the type's range).
#[verifier::external_body]
fn parse_i64(s: &str) -> (r: Option<i64>)
    ensures
        r == parsed_i64(s@),
{
    s.parse::<i64>().ok()
}

/// How a script's value is converted to a variable's type.
#[derive(Debug, Clone, Copy, PartialEq, Eq, Structural)]
pub enum CastKind {
    Int,
    Double,
    Long,
    Float,
    Boolean,
    Text,
}

pub open spec fn spec_cast_kind(value_type: Seq<char>) -> CastKind {
    let t = upper_text(value_type);
    if t == "INT"@ {
        CastKind::Int
    } else if t == "DOUBLE"@ {
        CastKind::Double
    } else if t == "LONG"@ {
        CastKind::Long
    } else if t == "FLOAT"@ {
        CastKind::Float
    } else if t == "BOOLEAN"@ {
        CastKind::Boolean
    } else {
        CastKind::Text
    }
}

/// The conversion a variable type calls for, by the type's upper-case name:
/// INT reads a 32-bit integer, LONG a 64-bit one, DOUBLE and FLOAT a decimal,
/// BOOLEAN a boolean, and any other type keeps the text.
pub proof fn law_cast_kind_table(value_type: Seq<char>)
    ensures
        upper_text(value_type) == "INT"@ ==> spec_cast_kind(value_type) == CastKind::Int,
        upper_text(value_type) == "DOUBLE"@ ==> spec_cast_kind(value_type) == CastKind::Double,
        upper_text(value_type) == "LONG"@ ==> spec_cast_kind(value_type) == CastKind::Long,
        upper_text(value_type) == "FLOAT"@ ==> spec_cast_kind(value_type) == CastKind::Float,
        upper_text(value_type) == "BOOLEAN"@ ==> spec_cast_kind(value_type) == CastKind::Boolean,
        upper_text(value_type) != "INT"@ && upper_text(value_type) != "DOUBLE"@ && upper_text(
            value_type,
        ) != "LONG"@ && upper_text(value_type) != "FLOAT"@ && upper_text(value_type)
            != "BOOLEAN"@ ==> spec_cast_kind(value_type) == CastKind::Text,
{
    reveal_strlit("INT");
    reveal_strlit("DOUBLE");
    reveal_strlit("LONG");
    reveal_strlit("FLOAT");
    reveal_strlit("BOOLEAN");
    assert("INT"@.len() == 3 && "LONG"@.len() == 4 && "FLOAT"@.len() == 5 && "DOUBLE"@.len() == 6
        && "BOOLEAN"@.len() == 7);
}

/// The conversion a variable type calls for, compared case-insensitively.
pub fn cast_kind(value_type: &str) -> (r: CastKind)
    ensures
        r == spec_cast_kind(value_type@),
        upper_text(value_type@) == "INT"@ ==> r == CastKind::Int,
        upper_text(value_type@) == "DOUBLE"@ ==> r == CastKind::Double,
        upper_text(value_type@) == "LONG"@ ==> r == CastKind::Long,
        upper_text(value_type@) == "FLOAT"@ ==> r == CastKind::Float,
        upper_text(value_type@) == "BOOLEAN"@ ==> r == CastKind::Boolean,
        upper_text(value_type@) != "INT"@ && upper_text(value_type@) != "DOUBLE"@ && upper_text(
            value_type@,
        ) != "LONG"@ && upper_text(value_type@) != "FLOAT"@ && upper_text(value_type@)
            != "BOOLEAN"@ ==> r == CastKind::Text,
{
    proof {
        law_cast_kind_table(value_type@);
    }
    let t = uppercase(value_type);
    let t = t.as_str();
    if str_equal(t, "INT") {
        CastKind::Int
    } else if str_equal(t, "DOUBLE") {
        CastKind::Double
    } else if str_equal(t, "LONG") {
        CastKind::Long
    } else if str_equal(t, "FLOAT") {
        CastKind::Float
    } else if str_equal(t, "BOOLEAN") {
        CastKind::Boolean
    } else {
        CastKind::Text
    }
}

/// The text a script value becomes for an integer, boolean or text variable:
/// an integer in canonical decimal (empty when it does not read as one), a
/// boolean as `true` or `false` (empty otherwise), a text as it is. Decimal
/// kinds are converted by the script host and give `None` here.
pub open spec fn spec_cast(value: Seq<char>, kind: CastKind) -> Option<Seq<char>> {
    match kind {
        CastKind::Int => Some(
            match parsed_i32(value) {
                Some(n) => decimal(n as int),
                None => Seq::empty(),
            },
        ),
        CastKind::Long => Some(
            match parsed_i64(value) {
                Some(n) => decimal(n as int),
                None => Seq::empty(),
            },
        ),
        CastKind::Boolean => Some(
            if value == "true"@ {
                "true"@
            } else if value == "false"@ {
                "false"@
            } else {
                Seq::empty()
            },
        ),
        CastKind::Text => Some(value),
        CastKind::Double => None,
        CastKind::Float => None,
    }
}

proof fn lemma_digit_char(d: nat)
    requires
        d < 10,
    ensures
        is_digit(digit_char(d)),
        digit_char(d) as int == 48 + d,
{
    let b = (48 + d) as u8;
    assert(b as u32 == 48 + d);
}

proof fn lemma_decimal_digits_read_back(n: nat)
    ensures
        decimal_digits(n).len() > 0,
        forall|i: int| 0 <= i < decimal_digits(n).len() ==> is_digit(#[trigger] decimal_digits(n)[i]),
        digits_value(decimal_digits(n)) == n,
    decreases n,
{
    if n < 10 {
        lemma_digit_char(n);
        let s = decimal_digits(n);
        assert(s.drop_last() =~= Seq::<char>::empty());
        assert(s.last() == digit_char(n));
        assert(digits_value(s) == digits_value(s.drop_last()) * 10 + (s.last() as int - 48));
    } else {
        lemma_decimal_digits_read_back(n / 10);
        lemma_digit_char(n % 10);
        let s = decimal_digits(n);
        let front = decimal_digits(n / 10);
        assert(s.drop_last() =~= front);
        assert(s.last() == digit_char(n % 10));
        assert(digits_value(s) == digits_value(front) * 10 + (s.last() as int - 48));
        assert(n == (n / 10) * 10 + n % 10);
        assert forall|i: int| 0 <= i < s.len() implies is_digit(#[trigger] s[i]) by {
            if i < front.len() {
                assert(s[i] == front[i]);
            }
        }
    }
}

/// The decimal text of an integer reads back as that integer wherever it
/// fits: `str::parse` undoes `decimal`.
pub proof fn law_decimal_reads_back(n: int, min: int, max: int)
    requires
        min <= n <= max,
    ensures
        parsed_int(decimal(n), min, max) == Some(n),
{
    if n < 0 {
        let m = (-n) as nat;
        lemma_decimal_digits_read_back(m);
        let s = decimal(n);
        assert(s[0] == '-');
        assert(unsigned_part(s) =~= decimal_digits(m));
    } else {
        lemma_decimal_digits_read_back(n as nat);
        let s = decimal(n);
        assert(is_digit(s[0]));
        assert(unsigned_part(s) == s);
    }
}

/// A script value already written as its variable's type is kept as it is:
/// the decimal text of a 32-bit integer for an INT variable, of a 64-bit one
/// for a LONG variable, `true` or `false` for a BOOLEAN one, any text for a
/// text variable.
pub proof fn law_cast_keeps_canonical_values(n32: i32, n64: i64, text: Seq<char>)
    ensures
        spec_cast(decimal(n32 as int), CastKind::Int) == Some(decimal(n32 as int)),
        spec_cast(decimal(n64 as int), CastKind::Long) == Some(decimal(n64 as int)),
        spec_cast("true"@, CastKind::Boolean) == Some("true"@),
        spec_cast("false"@, CastKind::Boolean) == Some("false"@),
        spec_cast(text, CastKind::Text) == Some(text),
{
    law_decimal_reads_back(n32 as int, i32::MIN as int, i32::MAX as int);
    law_decimal_reads_back(n64 as int, i64::MIN as int, i64::MAX as int);
}

pub fn cast(value: &str, kind: CastKind) -> (r: Option<String>)
    ensures
        r.deep_view() == spec_cast(value@, kind),
{
    match kind {
        CastKind::Int => Some(
            match parse_i32(value) {
                Some(n) => decimal_text(n as i64),
                None => String::new(),
            },
        ),
        CastKind::Long => Some(
            match parse_i64(value) {
                Some(n) => decimal_text(n),
                None => String::new(),
            },
        ),
        CastKind::Boolean => Some(
            if str_equal(value, "true") {
                String::from_str("true")
            } else if str_equal(value, "false") {
                String::from_str("false")
            } else {
                String::new()
            },
        ),
        CastKind::Text => Some(String::from_str(value)),
        CastKind::Double => None,
        CastKind::Float => None,
    }
}

/// The script a trigger runs for a list item: its `script` property with the
/// index placeholder replaced by the index; none when the property is missing
/// or empty.
pub open spec fn spec_script_source(
    properties: Map<Seq<char>, crate::model::TypedValueView>,
    index: i32,
) -> Option<Seq<char>> {
    if !properties.contains_key(SCRIPT_PROPERTY@) || properties[SCRIPT_PROPERTY@].value.len() == 0 {
        None
    } else {
        Some(
            replace_all(
                properties[SCRIPT_PROPERTY@].value,
                INDEX_PLACEHOLDER@,
                decimal(index as int),
            ),
        )
    }
}

pub fn script_source(trigger: &NativeActionTriggerModel, index: i32) -> (r: Option<String>)
    ensures
        r.deep_view() == spec_script_source(trigger.properties@, index),
{
    let script = match trigger.properties.get(SCRIPT_PROPERTY) {
        Some(p) => p.value.as_str(),
        None => {
            return None;
        },
    };
    if script.is_empty() {
        return None;
    }
    let index_text = decimal_text(index as i64);
    proof {
        reveal_strlit("{{index}}");
    }
    Some(replace_text(script, INDEX_PLACEHOLDER, index_text.as_str()))
}

/// A property with the values a script gave for some devices; the other
/// devices keep their values.
pub open spec fn spec_override_property(
    current: PropertyView,
    mobile: Option<Seq<char>>,
    tablet: Option<Seq<char>>,
    desktop: Option<Seq<char>>,
) -> PropertyView {
    PropertyView {
        key: current.key,
        value_mobile: match mobile {
            Some(v) => v,
            None => current.value_mobile,
        },
        value_tablet: match tablet {
            Some(v) => v,
            None => current.value_tablet,
        },
        value_desktop: match desktop {
            Some(v) => v,
            None => current.value_desktop,
        },
        value_type: current.value_type,
    }
}

/// A script's override sets exactly the device values it gives, each on its
/// own device, and keeps the property's key, type and other device values.
pub proof fn law_override_sets_given_devices(
    current: PropertyView,
    mobile: Option<Seq<char>>,
    tablet: Option<Seq<char>>,
    desktop: Option<Seq<char>>,
)
    ensures
        ({
            let p = spec_override_property(current, mobile, tablet, desktop);
            &&& p.key == current.key
            &&& p.value_type == current.value_type
            &&& p.value_mobile == (if mobile is Some { mobile->0 } else { current.value_mobile })
            &&& p.value_tablet == (if tablet is Some { tablet->0 } else { current.value_tablet })
            &&& p.value_desktop == (if desktop is Some { desktop->0 } else { current.value_desktop })
        }),
{
}

pub fn override_property(
    current: &NativeBlockPropertyModel,
    mobile: Option<String>,
    tablet: Option<String>,
    desktop: Option<String>,
) -> (r: NativeBlockPropertyModel)
    ensures
        r.deep_view() == spec_override_property(
            current.deep_view(),
            mobile.deep_view(),
            tablet.deep_view(),
            desktop.deep_view(),
        ),
{
    NativeBlockPropertyModel {
        key: current.key.clone(),
        value_mobile: match mobile {
            Some(v) => v,
            None => current.value_mobile.clone(),
        },
        value_tablet: match tablet {
            Some(v) => v,
            None => current.value_tablet.clone(),
        },
        value_desktop: match desktop {
            Some(v) => v,
            None => current.value_desktop.clone(),
        },
        value_type: current.value_type.clone(),
    }
}

/// The log message of a variable change: it names the previous value only
/// when there was one and it differs.
pub open spec fn spec_variable_change_message(
    key: Seq<char>,
    previous: Option<Seq<char>>,
    value: Seq<char>,
) -> Seq<char> {
    if previous is Some && previous->0 != value {
        "Variable changed: "@ + key + " changed from '"@ + previous->0 + "' to '"@ + value + "'"@
    } else {
        "Variable changed: "@ + key + " set to '"@ + value + "'"@
    }
}

pub fn variable_change_message(key: &str, previous: &Option<String>, value: &str) -> (r: String)
    ensures
        r@ == spec_variable_change_message(key@, previous.deep_view(), value@),
{
    let mut m = join2("Variable changed: ", key);
    let changed = match previous {
        Some(p) => !str_equal(p.as_str(), value),
        None => false,
    };
    if changed {
        let p = previous.as_ref().unwrap();
        m.append(" changed from '");
        m.append(p.as_str());
        m.append("' to '");
        m.append(value);
        m.append("'");
    } else {
        m.append(" set to '");
        m.append(value);
        m.append("'");
    }
    m
}

} // verus!
