use vstd::prelude::*;
use vstd::string::StringExecFns;

verus! {

/// Mathematical model of a parsed JSON document. Numbers that are integral
/// are kept as unbounded integers; any other number is kept as its decimal
/// text. An object is the sequence of its key/value pairs in document order.
#[verifier::ext_equal]
pub enum JsonSpec {
    Null,
    Bool(bool),
    Int(int),
    Num(Seq<char>),
    Str(Seq<char>),
    Arr(Seq<JsonSpec>),
    Obj(Seq<(Seq<char>, JsonSpec)>),
}

/// A parsed JSON document. `Int` holds every number that fits a 128-bit
/// signed integer (which covers the 64-bit signed and unsigned values the
/// services use); `Num` holds the decimal text of any other number.
#[derive(Debug, PartialEq, Eq)]
pub enum JsonValue {
    Null,
    Bool(bool),
    Int(i128),
    Num(String),
    Str(String),
    Arr(Vec<JsonValue>),
    Obj(Vec<(String, JsonValue)>),
}

pub open spec fn jv_view(v: JsonValue) -> JsonSpec
    decreases v,
{
    match v {
        JsonValue::Null => JsonSpec::Null,
        JsonValue::Bool(b) => JsonSpec::Bool(b),
        JsonValue::Int(i) => JsonSpec::Int(i as int),
        JsonValue::Num(s) => JsonSpec::Num(s@),
        JsonValue::Str(s) => JsonSpec::Str(s@),
        JsonValue::Arr(a) => JsonSpec::Arr(arr_view(a@)),
        JsonValue::Obj(fs) => JsonSpec::Obj(fields_view(fs@)),
    }
}

pub open spec fn arr_view(s: Seq<JsonValue>) -> Seq<JsonSpec>
    decreases s,
{
    if s.len() == 0 {
        Seq::empty()
    } else {
        seq![jv_view(s[0])] + arr_view(s.drop_first())
    }
}

pub open spec fn fields_view(s: Seq<(String, JsonValue)>) -> Seq<(Seq<char>, JsonSpec)>
    decreases s,
{
    if s.len() == 0 {
        Seq::empty()
    } else {
        seq![(s[0].0@, jv_view(s[0].1))] + fields_view(s.drop_first())
    }
}

impl View for JsonValue {
    type V = JsonSpec;

    open spec fn view(&self) -> JsonSpec {
        jv_view(*self)
    }
}

pub proof fn lemma_arr_view(s: Seq<JsonValue>)
    ensures
        arr_view(s).len() == s.len(),
        forall|i: int| 0 <= i < s.len() ==> arr_view(s)[i] == jv_view(s[i]),
    decreases s.len(),
{
    if s.len() > 0 {
        lemma_arr_view(s.drop_first());
        assert forall|i: int| 0 <= i < s.len() implies arr_view(s)[i] == jv_view(s[i]) by {
            if i > 0 {
                assert(arr_view(s)[i] == arr_view(s.drop_first())[i - 1]);
                assert(s.drop_first()[i - 1] == s[i]);
            }
        }
    }
}

pub proof fn lemma_fields_view(s: Seq<(String, JsonValue)>)
    ensures
        fields_view(s).len() == s.len(),
        forall|i: int| 0 <= i < s.len() ==> fields_view(s)[i] == (s[i].0@, jv_view(s[i].1)),
    decreases s.len(),
{
    if s.len() > 0 {
        lemma_fields_view(s.drop_first());
        assert forall|i: int| 0 <= i < s.len() implies fields_view(s)[i] == (
            s[i].0@,
            jv_view(s[i].1),
        ) by {
            if i > 0 {
                assert(fields_view(s)[i] == fields_view(s.drop_first())[i - 1]);
                assert(s.drop_first()[i - 1] == s[i]);
            }
        }
    }
}

/// First value bound to key `k`, scanning the object's fields from index `i`.
pub open spec fn fget_from(fs: Seq<(Seq<char>, JsonSpec)>, k: Seq<char>, i: int) -> Option<
    JsonSpec,
>
    decreases fs.len() - i,
{
    if i < 0 || i >= fs.len() {
        None
    } else if fs[i].0 == k {
        Some(fs[i].1)
    } else {
        fget_from(fs, k, i + 1)
    }
}

/// The value an object binds to key `k`: the first binding, as a reader of
/// the document would take it.
pub open spec fn fget(fs: Seq<(Seq<char>, JsonSpec)>, k: Seq<char>) -> Option<JsonSpec> {
    fget_from(fs, k, 0)
}

pub open spec fn opt_i64_view(o: Option<i64>) -> Option<int> {
    match o {
        Some(c) => Some(c as int),
        None => None,
    }
}

pub open spec fn opt_u64_view(o: Option<u64>) -> Option<int> {
    match o {
        Some(c) => Some(c as int),
        None => None,
    }
}

pub open spec fn opt_str_view(o: Option<String>) -> Option<Seq<char>> {
    match o {
        Some(c) => Some(c@),
        None => None,
    }
}

/// Errors a document can be rejected with: the text is not JSON at all, or
/// it is JSON that does not match the expected schema.
#[derive(Debug, Clone, Copy, PartialEq, Eq, Structural)]
pub enum JsonError {
    NotJson,
    Schema,
}

// ------------------------------------------------------------------
// Decimal rendering of integers, used for URLs and for numeric fields
// that are carried as text.
// ------------------------------------------------------------------

pub open spec fn dec_digit(d: int) -> char {
    ((48 + d) as u8) as char
}

pub open spec fn dec_nat(n: int) -> Seq<char>
    recommends
        n >= 0,
    decreases n,
{
    if n < 10 {
        seq![dec_digit(n)]
    } else {
        dec_nat(n / 10) + seq![dec_digit(n % 10)]
    }
}

pub open spec fn dec_int(n: int) -> Seq<char> {
    if n >= 0 {
        dec_nat(n)
    } else {
        seq!['-'] + dec_nat(-n)
    }
}

fn digit_str(d: u128) -> (s: &'static str)
    requires
        d < 10,
    ensures
        s@ == seq![dec_digit(d as int)],
{
    let s: &'static str = match d {
        0 => "0",
        1 => "1",
        2 => "2",
        3 => "3",
        4 => "4",
        5 => "5",
        6 => "6",
        7 => "7",
        8 => "8",
        _ => "9",
    };
    proof {
        reveal_strlit("0");
        reveal_strlit("1");
        reveal_strlit("2");
        reveal_strlit("3");
        reveal_strlit("4");
        reveal_strlit("5");
        reveal_strlit("6");
        reveal_strlit("7");
        reveal_strlit("8");
        reveal_strlit("9");
        assert(s@ =~= seq![dec_digit(d as int)]);
    }
    s
}

pub fn dec_u128(n: u128) -> (s: String)
    ensures
        s@ == dec_nat(n as int),
    decreases n,
{
    if n < 10 {
        String::from_str(digit_str(n))
    } else {
        let mut s = dec_u128(n / 10);
        s.append(digit_str(n % 10));
        s
    }
}

pub fn dec_i128(n: i128) -> (s: String)
    ensures
        s@ == dec_int(n as int),
{
    if n >= 0 {
        dec_u128(n as u128)
    } else {
        let m: u128 = if n == i128::MIN {
            (i128::MAX as u128) + 1
        } else {
            (-n) as u128
        };
        let mut s = String::from_str("-");
        let digits = dec_u128(m);
        s.append(digits.as_str());
        proof {
            reveal_strlit("-");
            assert(s@ =~= seq!['-'] + dec_nat(-(n as int)));
        }
        s
    }
}

// ------------------------------------------------------------------
// Typed access to the fields of a JSON object.
// ------------------------------------------------------------------

/// Reference to the first value bound to `k`, or `None` where the object has
/// no such key.
pub fn lookup<'a>(fields: &'a Vec<(String, JsonValue)>, k: &str) -> (r: Option<&'a JsonValue>)
    ensures
        match r {
            Some(v) => fget(fields_view(fields@), k@) == Some(jv_view(*v)),
            None => fget(fields_view(fields@), k@) is None,
        },
{
    let needle = String::from_str(k);
    let ghost fv = fields_view(fields@);
    proof {
        lemma_fields_view(fields@);
    }
    let n = fields.len();
    let mut i: usize = 0;
    while i < n
        invariant
            n == fields.len(),
            needle@ == k@,
            fv == fields_view(fields@),
            fv.len() == fields@.len(),
            forall|j: int| 0 <= j < fields@.len() ==> fv[j] == (fields@[j].0@, jv_view(
                fields@[j].1,
            )),
            0 <= i <= n,
            fget(fv, k@) == fget_from(fv, k@, i as int),
        decreases n - i,
    {
        if fields[i].0 == needle {
            return Some(&fields[i].1);
        }
        i += 1;
    }
    None
}

pub open spec fn fis_i64(fs: Seq<(Seq<char>, JsonSpec)>, k: Seq<char>) -> bool {
    match fget(fs, k) {
        Some(JsonSpec::Int(n)) => i64::MIN <= n <= i64::MAX,
        _ => false,
    }
}

pub open spec fn fi64(fs: Seq<(Seq<char>, JsonSpec)>, k: Seq<char>) -> int {
    match fget(fs, k) {
        Some(JsonSpec::Int(n)) => n,
        _ => 0,
    }
}

pub open spec fn fis_u64(fs: Seq<(Seq<char>, JsonSpec)>, k: Seq<char>) -> bool {
    match fget(fs, k) {
        Some(JsonSpec::Int(n)) => 0 <= n <= u64::MAX,
        _ => false,
    }
}

pub open spec fn fis_str(fs: Seq<(Seq<char>, JsonSpec)>, k: Seq<char>) -> bool {
    fget(fs, k) matches Some(JsonSpec::Str(_))
}

pub open spec fn fstr(fs: Seq<(Seq<char>, JsonSpec)>, k: Seq<char>) -> Seq<char> {
    match fget(fs, k) {
        Some(JsonSpec::Str(s)) => s,
        _ => Seq::empty(),
    }
}

pub open spec fn fis_bool(fs: Seq<(Seq<char>, JsonSpec)>, k: Seq<char>) -> bool {
    fget(fs, k) matches Some(JsonSpec::Bool(_))
}

pub open spec fn fbool(fs: Seq<(Seq<char>, JsonSpec)>, k: Seq<char>) -> bool {
    match fget(fs, k) {
        Some(JsonSpec::Bool(b)) => b,
        _ => false,
    }
}

pub open spec fn fis_arr(fs: Seq<(Seq<char>, JsonSpec)>, k: Seq<char>) -> bool {
    fget(fs, k) matches Some(JsonSpec::Arr(_))
}

pub open spec fn farr(fs: Seq<(Seq<char>, JsonSpec)>, k: Seq<char>) -> Seq<JsonSpec> {
    match fget(fs, k) {
        Some(JsonSpec::Arr(a)) => a,
        _ => Seq::empty(),
    }
}

/// A JSON number, taken as its decimal text whichever form it was carried in.
pub open spec fn fis_num(fs: Seq<(Seq<char>, JsonSpec)>, k: Seq<char>) -> bool {
    match fget(fs, k) {
        Some(JsonSpec::Int(_)) => true,
        Some(JsonSpec::Num(_)) => true,
        _ => false,
    }
}

pub open spec fn fnum(fs: Seq<(Seq<char>, JsonSpec)>, k: Seq<char>) -> Seq<char> {
    match fget(fs, k) {
        Some(JsonSpec::Int(n)) => dec_int(n),
        Some(JsonSpec::Num(s)) => s,
        _ => Seq::empty(),
    }
}

/// An optional signed field: absent or `null` is `None`; an integer in range
/// is `Some`; anything else does not match the schema.
pub open spec fn fopt_i64_ok(fs: Seq<(Seq<char>, JsonSpec)>, k: Seq<char>) -> bool {
    match fget(fs, k) {
        None => true,
        Some(JsonSpec::Null) => true,
        Some(JsonSpec::Int(n)) => i64::MIN <= n <= i64::MAX,
        _ => false,
    }
}

pub open spec fn fopt_i64(fs: Seq<(Seq<char>, JsonSpec)>, k: Seq<char>) -> Option<int> {
    match fget(fs, k) {
        Some(JsonSpec::Int(n)) => Some(n),
        _ => None,
    }
}

pub open spec fn fopt_u64_ok(fs: Seq<(Seq<char>, JsonSpec)>, k: Seq<char>) -> bool {
    match fget(fs, k) {
        None => true,
        Some(JsonSpec::Null) => true,
        Some(JsonSpec::Int(n)) => 0 <= n <= u64::MAX,
        _ => false,
    }
}

pub open spec fn fopt_u64(fs: Seq<(Seq<char>, JsonSpec)>, k: Seq<char>) -> Option<int> {
    match fget(fs, k) {
        Some(JsonSpec::Int(n)) => Some(n),
        _ => None,
    }
}

pub open spec fn fopt_str_ok(fs: Seq<(Seq<char>, JsonSpec)>, k: Seq<char>) -> bool {
    match fget(fs, k) {
        None => true,
        Some(JsonSpec::Null) => true,
        Some(JsonSpec::Str(_)) => true,
        _ => false,
    }
}

pub open spec fn fopt_str(fs: Seq<(Seq<char>, JsonSpec)>, k: Seq<char>) -> Option<Seq<char>> {
    match fget(fs, k) {
        Some(JsonSpec::Str(s)) => Some(s),
        _ => None,
    }
}

pub fn req_i64(fields: &Vec<(String, JsonValue)>, k: &str) -> (r: Result<i64, JsonError>)
    ensures
        match r {
            Ok(n) => fis_i64(fields_view(fields@), k@) && n == fi64(fields_view(fields@), k@),
            Err(e) => !fis_i64(fields_view(fields@), k@) && e == JsonError::Schema,
        },
{
    match lookup(fields, k) {
        Some(JsonValue::Int(i)) => {
            if i64::MIN as i128 <= *i && *i <= i64::MAX as i128 {
                Ok(*i as i64)
            } else {
                Err(JsonError::Schema)
            }
        },
        _ => Err(JsonError::Schema),
    }
}

pub fn req_u64(fields: &Vec<(String, JsonValue)>, k: &str) -> (r: Result<u64, JsonError>)
    ensures
        match r {
            Ok(n) => fis_u64(fields_view(fields@), k@) && n == fi64(fields_view(fields@), k@),
            Err(e) => !fis_u64(fields_view(fields@), k@) && e == JsonError::Schema,
        },
{
    match lookup(fields, k) {
        Some(JsonValue::Int(i)) => {
            if 0 <= *i && *i <= u64::MAX as i128 {
                Ok(*i as u64)
            } else {
                Err(JsonError::Schema)
            }
        },
        _ => Err(JsonError::Schema),
    }
}

pub fn req_str(fields: &Vec<(String, JsonValue)>, k: &str) -> (r: Result<String, JsonError>)
    ensures
        match r {
            Ok(s) => fis_str(fields_view(fields@), k@) && s@ == fstr(fields_view(fields@), k@),
            Err(e) => !fis_str(fields_view(fields@), k@) && e == JsonError::Schema,
        },
{
    match lookup(fields, k) {
        Some(JsonValue::Str(s)) => Ok(s.clone()),
        _ => Err(JsonError::Schema),
    }
}

pub fn req_bool(fields: &Vec<(String, JsonValue)>, k: &str) -> (r: Result<bool, JsonError>)
    ensures
        match r {
            Ok(b) => fis_bool(fields_view(fields@), k@) && b == fbool(fields_view(fields@), k@),
            Err(e) => !fis_bool(fields_view(fields@), k@) && e == JsonError::Schema,
        },
{
    match lookup(fields, k) {
        Some(JsonValue::Bool(b)) => Ok(*b),
        _ => Err(JsonError::Schema),
    }
}

pub fn req_arr<'a>(fields: &'a Vec<(String, JsonValue)>, k: &str) -> (r: Result<
    &'a Vec<JsonValue>,
    JsonError,
>)
    ensures
        match r {
            Ok(a) => fis_arr(fields_view(fields@), k@) && arr_view(a@) == farr(
                fields_view(fields@),
                k@,
            ),
            Err(e) => !fis_arr(fields_view(fields@), k@) && e == JsonError::Schema,
        },
{
    match lookup(fields, k) {
        Some(JsonValue::Arr(a)) => Ok(a),
        _ => Err(JsonError::Schema),
    }
}

pub fn req_num(fields: &Vec<(String, JsonValue)>, k: &str) -> (r: Result<String, JsonError>)
    ensures
        match r {
            Ok(s) => fis_num(fields_view(fields@), k@) && s@ == fnum(fields_view(fields@), k@),
            Err(e) => !fis_num(fields_view(fields@), k@) && e == JsonError::Schema,
        },
{
    match lookup(fields, k) {
        Some(JsonValue::Int(i)) => Ok(dec_i128(*i)),
        Some(JsonValue::Num(t)) => Ok(t.clone()),
        _ => Err(JsonError::Schema),
    }
}

pub fn opt_i64(fields: &Vec<(String, JsonValue)>, k: &str) -> (r: Result<Option<i64>, JsonError>)
    ensures
        match r {
            Ok(n) => fopt_i64_ok(fields_view(fields@), k@) && (match (n, fopt_i64(
                fields_view(fields@),
                k@,
            )) {
                (Some(a), Some(b)) => a == b,
                (None, None) => true,
                _ => false,
            }),
            Err(e) => !fopt_i64_ok(fields_view(fields@), k@) && e == JsonError::Schema,
        },
{
    match lookup(fields, k) {
        None => Ok(None),
        Some(JsonValue::Null) => Ok(None),
        Some(JsonValue::Int(i)) => {
            if i64::MIN as i128 <= *i && *i <= i64::MAX as i128 {
                Ok(Some(*i as i64))
            } else {
                Err(JsonError::Schema)
            }
        },
        _ => Err(JsonError::Schema),
    }
}

pub fn opt_u64(fields: &Vec<(String, JsonValue)>, k: &str) -> (r: Result<Option<u64>, JsonError>)
    ensures
        match r {
            Ok(n) => fopt_u64_ok(fields_view(fields@), k@) && (match (n, fopt_u64(
                fields_view(fields@),
                k@,
            )) {
                (Some(a), Some(b)) => a == b,
                (None, None) => true,
                _ => false,
            }),
            Err(e) => !fopt_u64_ok(fields_view(fields@), k@) && e == JsonError::Schema,
        },
{
    match lookup(fields, k) {
        None => Ok(None),
        Some(JsonValue::Null) => Ok(None),
        Some(JsonValue::Int(i)) => {
            if 0 <= *i && *i <= u64::MAX as i128 {
                Ok(Some(*i as u64))
            } else {
                Err(JsonError::Schema)
            }
        },
        _ => Err(JsonError::Schema),
    }
}

pub fn opt_str(fields: &Vec<(String, JsonValue)>, k: &str) -> (r: Result<
    Option<String>,
    JsonError,
>)
    ensures
        match r {
            Ok(n) => fopt_str_ok(fields_view(fields@), k@) && (match (n, fopt_str(
                fields_view(fields@),
                k@,
            )) {
                (Some(a), Some(b)) => a@ == b,
                (None, None) => true,
                _ => false,
            }),
            Err(e) => !fopt_str_ok(fields_view(fields@), k@) && e == JsonError::Schema,
        },
{
    match lookup(fields, k) {
        None => Ok(None),
        Some(JsonValue::Null) => Ok(None),
        Some(JsonValue::Str(s)) => Ok(Some(s.clone())),
        _ => Err(JsonError::Schema),
    }
}

// ------------------------------------------------------------------
// The one outside call: turning response text into a document.
// ------------------------------------------------------------------

#[verifier::external_type_specification]
#[verifier::external_body]
pub struct ExSerdeValue(serde_json::Value);

/// What a given text parses to, or `None` where the text is not JSON.
/// The document a text parses to depends on the text alone.
pub uninterp spec fn json_parse(s: Seq<char>) -> Option<JsonSpec>;

/// Relies on serde_json::Value: carries each variant of a parsed document
/// over into the library's own representation, moving the fields.
#[verifier::external_body]
fn json_of_value(v: serde_json::Value) -> JsonValue {
    match v {
        serde_json::Value::Null => JsonValue::Null,
        serde_json::Value::Bool(b) => JsonValue::Bool(b),
        serde_json::Value::Number(n) => match (n.as_i64(), n.as_u64()) {
            (Some(i), _) => JsonValue::Int(i as i128),
            (_, Some(u)) => JsonValue::Int(u as i128),
            _ => JsonValue::Num(n.to_string()),
        },
        serde_json::Value::String(s) => JsonValue::Str(s),
        serde_json::Value::Array(a) => JsonValue::Arr(a.into_iter().map(json_of_value).collect()),
        serde_json::Value::Object(m) => JsonValue::Obj(
            m.into_iter().map(|(k, x)| (k, json_of_value(x))).collect(),
        ),
    }
}

/// Relies on serde_json::from_str: a text either is rejected as malformed or
/// parses to one JSON document, and which of the two happens, and the
/// document itself, depend on the text alone.
#[verifier::external_body]
pub(crate) fn parse_json(s: &str) -> (r: Option<JsonValue>)
    ensures
        match r {
            Some(v) => json_parse(s@) == Some(jv_view(v)),
            None => json_parse(s@) is None,
        },
{
    serde_json::from_str::<serde_json::Value>(s).ok().map(json_of_value)
}

/// A short fingerprint of a text: its length and a few of its characters.
/// Two texts whose fingerprints differ are different, which is how the
/// round-trip proofs tell one object key from another.
pub open spec fn key_sig(s: Seq<char>) -> (int, char, char, char) {
    (
        s.len() as int,
        if s.len() > 0 { s[0] } else { ' ' },
        if s.len() > 1 { s[1] } else { ' ' },
        if s.len() > 5 { s[5] } else { ' ' },
    )
}

} // verus!
