use crate::json::{
    arr_view, farr, fbool, fget, fi64, fields_view, fis_arr, fis_bool, fis_i64, fis_num, fis_str,
    fis_u64, fnum, fopt_i64, fopt_i64_ok, fopt_str, fopt_str_ok, fopt_u64, fopt_u64_ok, fstr,
    jv_view, key_sig, lemma_arr_view, lemma_fields_view, lookup, opt_i64, opt_i64_view, opt_str,
    opt_str_view, opt_u64, opt_u64_view, req_arr, req_bool, req_i64, req_num, req_str, req_u64,
    JsonError, JsonSpec, JsonValue,
};
use vstd::prelude::*;
use vstd::string::StringExecFns;

verus! {

/// Prices of a paid post in two currencies. The wire carries each price as a
/// JSON number; the library carries it as that number's decimal text.
#[derive(Debug, Clone, PartialEq, Eq)]
pub struct CurrencyPrices {
    /// Price in russian rubles, as decimal text
    pub rub: String,
    /// Price in american dollars, as decimal text
    pub usd: String,
}

/// Mathematical model of `CurrencyPrices`.
#[verifier::ext_equal]
pub struct CurrencyPricesSpec {
    pub rub: Seq<char>,
    pub usd: Seq<char>,
}

impl View for CurrencyPrices {
    type V = CurrencyPricesSpec;

    open spec fn view(&self) -> CurrencyPricesSpec {
        CurrencyPricesSpec { rub: self.rub@, usd: self.usd@ }
    }
}

pub open spec fn currency_prices_json_ok(j: JsonSpec) -> bool {
    match j {
        JsonSpec::Obj(fs) => {
            &&& fis_num(fs, "RUB"@)
            &&& fis_num(fs, "USD"@)
        },
        _ => false,
    }
}

pub open spec fn currency_prices_of_json(j: JsonSpec) -> CurrencyPricesSpec
    recommends
        currency_prices_json_ok(j),
{
    let fs = (match j {
        JsonSpec::Obj(fs) => fs,
        _ => Seq::empty(),
    });
    CurrencyPricesSpec { rub: fnum(fs, "RUB"@), usd: fnum(fs, "USD"@) }
}

pub open spec fn currency_prices_to_json(c: CurrencyPricesSpec) -> JsonSpec {
    JsonSpec::Obj(
        seq![("RUB"@, JsonSpec::Num(c.rub)), ("USD"@, JsonSpec::Num(c.usd))],
    )
}

impl CurrencyPrices {
    /// The prices a document denotes, or a schema error.
    pub fn from_json(v: &JsonValue) -> (r: Result<CurrencyPrices, JsonError>)
        ensures
            match r {
                Ok(c) => currency_prices_json_ok(v@) && c@ == currency_prices_of_json(v@),
                Err(e) => !currency_prices_json_ok(v@) && e == JsonError::Schema,
            },
    {
        match v {
            JsonValue::Obj(fields) => {
                let rub = match req_num(fields, "RUB") {
                    Ok(x) => x,
                    Err(e) => { return Err(e); },
                };
                let usd = match req_num(fields, "USD") {
                    Ok(x) => x,
                    Err(e) => { return Err(e); },
                };
                let c = CurrencyPrices { rub, usd };
                proof {
                    assert(c@ =~= currency_prices_of_json(v@));
                }
                Ok(c)
            },
            _ => Err(JsonError::Schema),
        }
    }

    /// The document these prices serialize to.
    pub fn to_json(&self) -> (r: JsonValue)
        ensures
            r@ == currency_prices_to_json(self@),
    {
        let mut fields: Vec<(String, JsonValue)> = Vec::new();
        fields.push((String::from_str("RUB"), JsonValue::Num(self.rub.clone())));
        fields.push((String::from_str("USD"), JsonValue::Num(self.usd.clone())));
        let r = JsonValue::Obj(fields);
        proof {
            lemma_fields_view(fields@);
            let target = (match currency_prices_to_json(self@) {
                JsonSpec::Obj(fs) => fs,
                _ => Seq::empty(),
            });
            assert(fields_view(fields@) =~= target);
        }
        r
    }
}

/// Paid post teaser
#[derive(Debug, Clone, PartialEq, Eq)]
pub struct Teaser {
    /// Type of teaser; the wire carries it under the key `type`
    pub content_type: String,
    /// Width of content
    pub width: Option<i64>,
    /// Height of content
    pub height: Option<i64>,
    /// Rendition of content
    pub rendition: Option<String>,
    /// URL of content
    pub url: Option<String>,
    /// Teaser ID
    pub id: Option<String>,
}

/// Mathematical model of a `Teaser`.
#[verifier::ext_equal]
pub struct TeaserSpec {
    pub content_type: Seq<char>,
    pub width: Option<int>,
    pub height: Option<int>,
    pub rendition: Option<Seq<char>>,
    pub url: Option<Seq<char>>,
    pub id: Option<Seq<char>>,
}

impl TeaserSpec {
    pub open spec fn wf(self) -> bool {
        &&& (match self.width {
            Some(w) => i64::MIN <= w <= i64::MAX,
            None => true,
        })
        &&& (match self.height {
            Some(h) => i64::MIN <= h <= i64::MAX,
            None => true,
        })
    }
}

impl View for Teaser {
    type V = TeaserSpec;

    open spec fn view(&self) -> TeaserSpec {
        TeaserSpec {
            content_type: self.content_type@,
            width: opt_i64_view(self.width),
            height: opt_i64_view(self.height),
            rendition: opt_str_view(self.rendition),
            url: opt_str_view(self.url),
            id: opt_str_view(self.id),
        }
    }
}

pub open spec fn teaser_json_ok(j: JsonSpec) -> bool {
    match j {
        JsonSpec::Obj(fs) => {
            &&& fis_str(fs, "type"@)
            &&& fopt_i64_ok(fs, "width"@)
            &&& fopt_i64_ok(fs, "height"@)
            &&& fopt_str_ok(fs, "rendition"@)
            &&& fopt_str_ok(fs, "url"@)
            &&& fopt_str_ok(fs, "id"@)
        },
        _ => false,
    }
}

pub open spec fn teaser_of_json(j: JsonSpec) -> TeaserSpec
    recommends
        teaser_json_ok(j),
{
    let fs = (match j {
        JsonSpec::Obj(fs) => fs,
        _ => Seq::empty(),
    });
    TeaserSpec {
        content_type: fstr(fs, "type"@),
        width: fopt_i64(fs, "width"@),
        height: fopt_i64(fs, "height"@),
        rendition: fopt_str(fs, "rendition"@),
        url: fopt_str(fs, "url"@),
        id: fopt_str(fs, "id"@),
    }
}

pub open spec fn opt_int_json(o: Option<int>) -> JsonSpec {
    match o {
        Some(n) => JsonSpec::Int(n),
        None => JsonSpec::Null,
    }
}

pub open spec fn opt_str_json(o: Option<Seq<char>>) -> JsonSpec {
    match o {
        Some(s) => JsonSpec::Str(s),
        None => JsonSpec::Null,
    }
}

pub open spec fn teaser_to_json(t: TeaserSpec) -> JsonSpec {
    JsonSpec::Obj(
        seq![
            ("type"@, JsonSpec::Str(t.content_type)),
            ("width"@, opt_int_json(t.width)),
            ("height"@, opt_int_json(t.height)),
            ("rendition"@, opt_str_json(t.rendition)),
            ("url"@, opt_str_json(t.url)),
            ("id"@, opt_str_json(t.id)),
        ],
    )
}

/// Turns an optional count into the node its field carries: the number, or
/// `null` where it is absent.
fn opt_i64_node(o: &Option<i64>) -> (r: JsonValue)
    ensures
        r@ == opt_int_json(opt_i64_view(*o)),
{
    match o {
        Some(n) => JsonValue::Int(*n as i128),
        None => JsonValue::Null,
    }
}

/// Turns an optional text into the node its field carries.
fn opt_str_node(o: &Option<String>) -> (r: JsonValue)
    ensures
        r@ == opt_str_json(opt_str_view(*o)),
{
    match o {
        Some(s) => JsonValue::Str(s.clone()),
        None => JsonValue::Null,
    }
}

impl Teaser {
    /// The teaser a document denotes, or a schema error.
    pub fn from_json(v: &JsonValue) -> (r: Result<Teaser, JsonError>)
        ensures
            match r {
                Ok(t) => teaser_json_ok(v@) && t@ == teaser_of_json(v@),
                Err(e) => !teaser_json_ok(v@) && e == JsonError::Schema,
            },
    {
        match v {
            JsonValue::Obj(fields) => {
                let content_type = match req_str(fields, "type") {
                    Ok(x) => x,
                    Err(e) => { return Err(e); },
                };
                let width = match opt_i64(fields, "width") {
                    Ok(x) => x,
                    Err(e) => { return Err(e); },
                };
                let height = match opt_i64(fields, "height") {
                    Ok(x) => x,
                    Err(e) => { return Err(e); },
                };
                let rendition = match opt_str(fields, "rendition") {
                    Ok(x) => x,
                    Err(e) => { return Err(e); },
                };
                let url = match opt_str(fields, "url") {
                    Ok(x) => x,
                    Err(e) => { return Err(e); },
                };
                let id = match opt_str(fields, "id") {
                    Ok(x) => x,
                    Err(e) => { return Err(e); },
                };
                let t = Teaser { content_type, width, height, rendition, url, id };
                proof {
                    assert(t@ =~= teaser_of_json(v@));
                }
                Ok(t)
            },
            _ => Err(JsonError::Schema),
        }
    }

    /// The document this teaser serializes to.
    pub fn to_json(&self) -> (r: JsonValue)
        ensures
            r@ == teaser_to_json(self@),
    {
        let mut fields: Vec<(String, JsonValue)> = Vec::new();
        fields.push((String::from_str("type"), JsonValue::Str(self.content_type.clone())));
        fields.push((String::from_str("width"), opt_i64_node(&self.width)));
        fields.push((String::from_str("height"), opt_i64_node(&self.height)));
        fields.push((String::from_str("rendition"), opt_str_node(&self.rendition)));
        fields.push((String::from_str("url"), opt_str_node(&self.url)));
        fields.push((String::from_str("id"), opt_str_node(&self.id)));
        let r = JsonValue::Obj(fields);
        proof {
            lemma_fields_view(fields@);
            let target = (match teaser_to_json(self@) {
                JsonSpec::Obj(fs) => fs,
                _ => Seq::empty(),
            });
            assert(fields_view(fields@) =~= target);
        }
        r
    }
}

/// Uploaded to Boosty video URLs
#[derive(Debug, Clone, PartialEq, Eq)]
pub struct PlayerUrls {
    /// Type of URL; the wire carries it under the key `type`
    pub content_type: String,
    /// URL itself
    pub url: String,
}

/// Mathematical model of `PlayerUrls`.
#[verifier::ext_equal]
pub struct PlayerUrlsSpec {
    pub content_type: Seq<char>,
    pub url: Seq<char>,
}

impl View for PlayerUrls {
    type V = PlayerUrlsSpec;

    open spec fn view(&self) -> PlayerUrlsSpec {
        PlayerUrlsSpec { content_type: self.content_type@, url: self.url@ }
    }
}

pub open spec fn player_urls_json_ok(j: JsonSpec) -> bool {
    match j {
        JsonSpec::Obj(fs) => {
            &&& fis_str(fs, "type"@)
            &&& fis_str(fs, "url"@)
        },
        _ => false,
    }
}

pub open spec fn player_urls_of_json(j: JsonSpec) -> PlayerUrlsSpec
    recommends
        player_urls_json_ok(j),
{
    let fs = (match j {
        JsonSpec::Obj(fs) => fs,
        _ => Seq::empty(),
    });
    PlayerUrlsSpec { content_type: fstr(fs, "type"@), url: fstr(fs, "url"@) }
}

pub open spec fn player_urls_to_json(p: PlayerUrlsSpec) -> JsonSpec {
    JsonSpec::Obj(
        seq![("type"@, JsonSpec::Str(p.content_type)), ("url"@, JsonSpec::Str(p.url))],
    )
}

impl PlayerUrls {
    /// The video-URL entry a document denotes, or a schema error.
    pub fn from_json(v: &JsonValue) -> (r: Result<PlayerUrls, JsonError>)
        ensures
            match r {
                Ok(p) => player_urls_json_ok(v@) && p@ == player_urls_of_json(v@),
                Err(e) => !player_urls_json_ok(v@) && e == JsonError::Schema,
            },
    {
        match v {
            JsonValue::Obj(fields) => {
                let content_type = match req_str(fields, "type") {
                    Ok(x) => x,
                    Err(e) => { return Err(e); },
                };
                let url = match req_str(fields, "url") {
                    Ok(x) => x,
                    Err(e) => { return Err(e); },
                };
                let p = PlayerUrls { content_type, url };
                proof {
                    assert(p@ =~= player_urls_of_json(v@));
                }
                Ok(p)
            },
            _ => Err(JsonError::Schema),
        }
    }

    /// The document this entry serializes to.
    pub fn to_json(&self) -> (r: JsonValue)
        ensures
            r@ == player_urls_to_json(self@),
    {
        let mut fields: Vec<(String, JsonValue)> = Vec::new();
        fields.push((String::from_str("type"), JsonValue::Str(self.content_type.clone())));
        fields.push((String::from_str("url"), JsonValue::Str(self.url.clone())));
        let r = JsonValue::Obj(fields);
        proof {
            lemma_fields_view(fields@);
            let target = (match player_urls_to_json(self@) {
                JsonSpec::Obj(fs) => fs,
                _ => Seq::empty(),
            });
            assert(fields_view(fields@) =~= target);
        }
        r
    }
}

pub open spec fn player_urls_list_view(s: Seq<PlayerUrls>) -> Seq<PlayerUrlsSpec> {
    s.map_values(|x: PlayerUrls| x@)
}

pub open spec fn player_urls_list_json_ok(s: Seq<JsonSpec>) -> bool {
    forall|i: int| 0 <= i < s.len() ==> player_urls_json_ok(s[i])
}

pub open spec fn player_urls_list_of_json(s: Seq<JsonSpec>) -> Seq<PlayerUrlsSpec> {
    s.map_values(|x: JsonSpec| player_urls_of_json(x))
}

pub open spec fn player_urls_list_to_json(s: Seq<PlayerUrlsSpec>) -> Seq<JsonSpec> {
    s.map_values(|x: PlayerUrlsSpec| player_urls_to_json(x))
}

/// The entries an array of documents denotes, or a schema error where any
/// entry does not match.
pub fn player_urls_list_from_json(items: &Vec<JsonValue>) -> (r: Result<Vec<PlayerUrls>, JsonError>)
    ensures
        match r {
            Ok(out) => player_urls_list_json_ok(arr_view(items@)) && player_urls_list_view(out@) == player_urls_list_of_json(
                arr_view(items@),
            ),
            Err(e) => !player_urls_list_json_ok(arr_view(items@)) && e == JsonError::Schema,
        },
{
    let ghost iv = arr_view(items@);
    proof {
        lemma_arr_view(items@);
    }
    let n = items.len();
    let mut out: Vec<PlayerUrls> = Vec::new();
    let mut i: usize = 0;
    while i < n
        invariant
            n == items.len(),
            iv == arr_view(items@),
            iv.len() == n,
            forall|j: int| 0 <= j < n ==> iv[j] == jv_view(items@[j]),
            0 <= i <= n,
            out@.len() == i,
            forall|j: int| 0 <= j < i ==> player_urls_json_ok(iv[j]),
            forall|j: int| 0 <= j < i ==> out@[j]@ == player_urls_of_json(iv[j]),
        decreases n - i,
    {
        let x = match PlayerUrls::from_json(&items[i]) {
            Ok(x) => x,
            Err(_) => {
                proof {
                    assert(!player_urls_json_ok(iv[i as int]));
                    assert(!player_urls_list_json_ok(iv));
                }
                return Err(JsonError::Schema);
            },
        };
        out.push(x);
        i += 1;
    }
    proof {
        assert(player_urls_list_view(out@) =~= player_urls_list_of_json(iv));
    }
    Ok(out)
}

/// The array of documents these entries serialize to.
pub fn player_urls_list_to_json_vec(xs: &Vec<PlayerUrls>) -> (r: Vec<JsonValue>)
    ensures
        arr_view(r@) == player_urls_list_to_json(player_urls_list_view(xs@)),
{
    let n = xs.len();
    let mut out: Vec<JsonValue> = Vec::new();
    let mut i: usize = 0;
    while i < n
        invariant
            n == xs.len(),
            0 <= i <= n,
            out@.len() == i,
            forall|j: int| 0 <= j < i ==> jv_view(out@[j]) == player_urls_to_json(xs@[j]@),
        decreases n - i,
    {
        out.push(xs[i].to_json());
        i += 1;
    }
    proof {
        lemma_arr_view(out@);
        assert(arr_view(out@) =~= player_urls_list_to_json(player_urls_list_view(xs@)));
    }
    out
}

pub open spec fn teasers_view(s: Seq<Teaser>) -> Seq<TeaserSpec> {
    s.map_values(|x: Teaser| x@)
}

pub open spec fn teasers_json_ok(s: Seq<JsonSpec>) -> bool {
    forall|i: int| 0 <= i < s.len() ==> teaser_json_ok(s[i])
}

pub open spec fn teasers_of_json(s: Seq<JsonSpec>) -> Seq<TeaserSpec> {
    s.map_values(|x: JsonSpec| teaser_of_json(x))
}

pub open spec fn teasers_to_json(s: Seq<TeaserSpec>) -> Seq<JsonSpec> {
    s.map_values(|x: TeaserSpec| teaser_to_json(x))
}

/// The entries an array of documents denotes, or a schema error where any
/// entry does not match.
pub fn teasers_from_json(items: &Vec<JsonValue>) -> (r: Result<Vec<Teaser>, JsonError>)
    ensures
        match r {
            Ok(out) => teasers_json_ok(arr_view(items@)) && teasers_view(out@) == teasers_of_json(
                arr_view(items@),
            ),
            Err(e) => !teasers_json_ok(arr_view(items@)) && e == JsonError::Schema,
        },
{
    let ghost iv = arr_view(items@);
    proof {
        lemma_arr_view(items@);
    }
    let n = items.len();
    let mut out: Vec<Teaser> = Vec::new();
    let mut i: usize = 0;
    while i < n
        invariant
            n == items.len(),
            iv == arr_view(items@),
            iv.len() == n,
            forall|j: int| 0 <= j < n ==> iv[j] == jv_view(items@[j]),
            0 <= i <= n,
            out@.len() == i,
            forall|j: int| 0 <= j < i ==> teaser_json_ok(iv[j]),
            forall|j: int| 0 <= j < i ==> out@[j]@ == teaser_of_json(iv[j]),
        decreases n - i,
    {
        let x = match Teaser::from_json(&items[i]) {
            Ok(x) => x,
            Err(_) => {
                proof {
                    assert(!teaser_json_ok(iv[i as int]));
                    assert(!teasers_json_ok(iv));
                }
                return Err(JsonError::Schema);
            },
        };
        out.push(x);
        i += 1;
    }
    proof {
        assert(teasers_view(out@) =~= teasers_of_json(iv));
    }
    Ok(out)
}

/// The array of documents these entries serialize to.
pub fn teasers_to_json_vec(xs: &Vec<Teaser>) -> (r: Vec<JsonValue>)
    ensures
        arr_view(r@) == teasers_to_json(teasers_view(xs@)),
{
    let n = xs.len();
    let mut out: Vec<JsonValue> = Vec::new();
    let mut i: usize = 0;
    while i < n
        invariant
            n == xs.len(),
            0 <= i <= n,
            out@.len() == i,
            forall|j: int| 0 <= j < i ==> jv_view(out@[j]) == teaser_to_json(xs@[j]@),
        decreases n - i,
    {
        out.push(xs[i].to_json());
        i += 1;
    }
    proof {
        lemma_arr_view(out@);
        assert(arr_view(out@) =~= teasers_to_json(teasers_view(xs@)));
    }
    out
}

/// Attached content to post
#[derive(Debug, Clone, PartialEq, Eq)]
pub struct Data {
    /// Type of content; the wire carries it under the key `type`
    pub content_type: String,
    /// Width of content
    pub width: Option<i64>,
    /// Height of content
    pub height: Option<i64>,
    /// Rendition of content
    pub rendition: Option<String>,
    /// URL of content
    pub url: Option<String>,
    /// Teaser ID
    pub id: Option<String>,
    /// Player URLs (for uploaded videos to Boosty); the wire carries them
    /// under the key `playerUrls`
    pub player_urls: Option<Vec<PlayerUrls>>,
    /// Content itself (for example text)
    pub content: Option<String>,
}

/// Mathematical model of a `Data` block.
#[verifier::ext_equal]
pub struct DataSpec {
    pub content_type: Seq<char>,
    pub width: Option<int>,
    pub height: Option<int>,
    pub rendition: Option<Seq<char>>,
    pub url: Option<Seq<char>>,
    pub id: Option<Seq<char>>,
    pub player_urls: Option<Seq<PlayerUrlsSpec>>,
    pub content: Option<Seq<char>>,
}

impl DataSpec {
    pub open spec fn wf(self) -> bool {
        &&& (match self.width {
            Some(w) => i64::MIN <= w <= i64::MAX,
            None => true,
        })
        &&& (match self.height {
            Some(h) => i64::MIN <= h <= i64::MAX,
            None => true,
        })
    }
}

pub open spec fn opt_player_urls_view(o: Option<Vec<PlayerUrls>>) -> Option<Seq<PlayerUrlsSpec>> {
    match o {
        Some(v) => Some(player_urls_list_view(v@)),
        None => None,
    }
}

impl View for Data {
    type V = DataSpec;

    open spec fn view(&self) -> DataSpec {
        DataSpec {
            content_type: self.content_type@,
            width: opt_i64_view(self.width),
            height: opt_i64_view(self.height),
            rendition: opt_str_view(self.rendition),
            url: opt_str_view(self.url),
            id: opt_str_view(self.id),
            player_urls: opt_player_urls_view(self.player_urls),
            content: opt_str_view(self.content),
        }
    }
}

/// An optional member that, when present and not `null`, must be an array
/// whose entries all match the player-URL schema.
pub open spec fn data_player_urls_ok(fs: Seq<(Seq<char>, JsonSpec)>) -> bool {
    match fget(fs, "playerUrls"@) {
        None => true,
        Some(JsonSpec::Null) => true,
        Some(JsonSpec::Arr(items)) => player_urls_list_json_ok(items),
        _ => false,
    }
}

pub open spec fn data_player_urls_of(fs: Seq<(Seq<char>, JsonSpec)>) -> Option<
    Seq<PlayerUrlsSpec>,
> {
    match fget(fs, "playerUrls"@) {
        Some(JsonSpec::Arr(items)) => Some(player_urls_list_of_json(items)),
        _ => None,
    }
}

pub open spec fn data_json_ok(j: JsonSpec) -> bool {
    match j {
        JsonSpec::Obj(fs) => {
            &&& fis_str(fs, "type"@)
            &&& fopt_i64_ok(fs, "width"@)
            &&& fopt_i64_ok(fs, "height"@)
            &&& fopt_str_ok(fs, "rendition"@)
            &&& fopt_str_ok(fs, "url"@)
            &&& fopt_str_ok(fs, "id"@)
            &&& data_player_urls_ok(fs)
            &&& fopt_str_ok(fs, "content"@)
        },
        _ => false,
    }
}

pub open spec fn data_of_json(j: JsonSpec) -> DataSpec
    recommends
        data_json_ok(j),
{
    let fs = (match j {
        JsonSpec::Obj(fs) => fs,
        _ => Seq::empty(),
    });
    DataSpec {
        content_type: fstr(fs, "type"@),
        width: fopt_i64(fs, "width"@),
        height: fopt_i64(fs, "height"@),
        rendition: fopt_str(fs, "rendition"@),
        url: fopt_str(fs, "url"@),
        id: fopt_str(fs, "id"@),
        player_urls: data_player_urls_of(fs),
        content: fopt_str(fs, "content"@),
    }
}

pub open spec fn opt_player_urls_json(o: Option<Seq<PlayerUrlsSpec>>) -> JsonSpec {
    match o {
        Some(ps) => JsonSpec::Arr(player_urls_list_to_json(ps)),
        None => JsonSpec::Null,
    }
}

pub open spec fn data_to_json(d: DataSpec) -> JsonSpec {
    JsonSpec::Obj(
        seq![
            ("type"@, JsonSpec::Str(d.content_type)),
            ("width"@, opt_int_json(d.width)),
            ("height"@, opt_int_json(d.height)),
            ("rendition"@, opt_str_json(d.rendition)),
            ("url"@, opt_str_json(d.url)),
            ("id"@, opt_str_json(d.id)),
            ("playerUrls"@, opt_player_urls_json(d.player_urls)),
            ("content"@, opt_str_json(d.content)),
        ],
    )
}

impl Data {
    /// The content block a document denotes, or a schema error.
    pub fn from_json(v: &JsonValue) -> (r: Result<Data, JsonError>)
        ensures
            match r {
                Ok(d) => data_json_ok(v@) && d@ == data_of_json(v@),
                Err(e) => !data_json_ok(v@) && e == JsonError::Schema,
            },
    {
        match v {
            JsonValue::Obj(fields) => {
                let content_type = match req_str(fields, "type") {
                    Ok(x) => x,
                    Err(e) => { return Err(e); },
                };
                let width = match opt_i64(fields, "width") {
                    Ok(x) => x,
                    Err(e) => { return Err(e); },
                };
                let height = match opt_i64(fields, "height") {
                    Ok(x) => x,
                    Err(e) => { return Err(e); },
                };
                let rendition = match opt_str(fields, "rendition") {
                    Ok(x) => x,
                    Err(e) => { return Err(e); },
                };
                let url = match opt_str(fields, "url") {
                    Ok(x) => x,
                    Err(e) => { return Err(e); },
                };
                let id = match opt_str(fields, "id") {
                    Ok(x) => x,
                    Err(e) => { return Err(e); },
                };
                let player_urls = match lookup(fields, "playerUrls") {
                    None => None,
                    Some(JsonValue::Null) => None,
                    Some(JsonValue::Arr(items)) => match player_urls_list_from_json(items) {
                        Ok(ps) => Some(ps),
                        Err(e) => { return Err(e); },
                    },
                    Some(_) => { return Err(JsonError::Schema); },
                };
                let content = match opt_str(fields, "content") {
                    Ok(x) => x,
                    Err(e) => { return Err(e); },
                };
                let d = Data {
                    content_type,
                    width,
                    height,
                    rendition,
                    url,
                    id,
                    player_urls,
                    content,
                };
                proof {
                    assert(d@ =~= data_of_json(v@));
                }
                Ok(d)
            },
            _ => Err(JsonError::Schema),
        }
    }

    /// The document this content block serializes to.
    pub fn to_json(&self) -> (r: JsonValue)
        ensures
            r@ == data_to_json(self@),
    {
        let player_urls_node = match &self.player_urls {
            Some(ps) => JsonValue::Arr(player_urls_list_to_json_vec(ps)),
            None => JsonValue::Null,
        };
        let mut fields: Vec<(String, JsonValue)> = Vec::new();
        fields.push((String::from_str("type"), JsonValue::Str(self.content_type.clone())));
        fields.push((String::from_str("width"), opt_i64_node(&self.width)));
        fields.push((String::from_str("height"), opt_i64_node(&self.height)));
        fields.push((String::from_str("rendition"), opt_str_node(&self.rendition)));
        fields.push((String::from_str("url"), opt_str_node(&self.url)));
        fields.push((String::from_str("id"), opt_str_node(&self.id)));
        fields.push((String::from_str("playerUrls"), player_urls_node));
        fields.push((String::from_str("content"), opt_str_node(&self.content)));
        let r = JsonValue::Obj(fields);
        proof {
            lemma_fields_view(fields@);
            let target = (match data_to_json(self@) {
                JsonSpec::Obj(fs) => fs,
                _ => Seq::empty(),
            });
            assert(fields_view(fields@) =~= target);
        }
        r
    }
}

pub open spec fn datas_view(s: Seq<Data>) -> Seq<DataSpec> {
    s.map_values(|x: Data| x@)
}

pub open spec fn datas_json_ok(s: Seq<JsonSpec>) -> bool {
    forall|i: int| 0 <= i < s.len() ==> data_json_ok(s[i])
}

pub open spec fn datas_of_json(s: Seq<JsonSpec>) -> Seq<DataSpec> {
    s.map_values(|x: JsonSpec| data_of_json(x))
}

pub open spec fn datas_to_json(s: Seq<DataSpec>) -> Seq<JsonSpec> {
    s.map_values(|x: DataSpec| data_to_json(x))
}

/// The entries an array of documents denotes, or a schema error where any
/// entry does not match.
pub fn datas_from_json(items: &Vec<JsonValue>) -> (r: Result<Vec<Data>, JsonError>)
    ensures
        match r {
            Ok(out) => datas_json_ok(arr_view(items@)) && datas_view(out@) == datas_of_json(
                arr_view(items@),
            ),
            Err(e) => !datas_json_ok(arr_view(items@)) && e == JsonError::Schema,
        },
{
    let ghost iv = arr_view(items@);
    proof {
        lemma_arr_view(items@);
    }
    let n = items.len();
    let mut out: Vec<Data> = Vec::new();
    let mut i: usize = 0;
    while i < n
        invariant
            n == items.len(),
            iv == arr_view(items@),
            iv.len() == n,
            forall|j: int| 0 <= j < n ==> iv[j] == jv_view(items@[j]),
            0 <= i <= n,
            out@.len() == i,
            forall|j: int| 0 <= j < i ==> data_json_ok(iv[j]),
            forall|j: int| 0 <= j < i ==> out@[j]@ == data_of_json(iv[j]),
        decreases n - i,
    {
        let x = match Data::from_json(&items[i]) {
            Ok(x) => x,
            Err(_) => {
                proof {
                    assert(!data_json_ok(iv[i as int]));
                    assert(!datas_json_ok(iv));
                }
                return Err(JsonError::Schema);
            },
        };
        out.push(x);
        i += 1;
    }
    proof {
        assert(datas_view(out@) =~= datas_of_json(iv));
    }
    Ok(out)
}

/// The array of documents these entries serialize to.
pub fn datas_to_json_vec(xs: &Vec<Data>) -> (r: Vec<JsonValue>)
    ensures
        arr_view(r@) == datas_to_json(datas_view(xs@)),
{
    let n = xs.len();
    let mut out: Vec<JsonValue> = Vec::new();
    let mut i: usize = 0;
    while i < n
        invariant
            n == xs.len(),
            0 <= i <= n,
            out@.len() == i,
            forall|j: int| 0 <= j < i ==> jv_view(out@[j]) == data_to_json(xs@[j]@),
        decreases n - i,
    {
        out.push(xs[i].to_json());
        i += 1;
    }
    proof {
        lemma_arr_view(out@);
        assert(arr_view(out@) =~= datas_to_json(datas_view(xs@)));
    }
    out
}

/// Post reactions count
#[derive(Debug, Clone, PartialEq, Eq)]
pub struct Reactions {
    /// Angry reactions count
    pub angry: i64,
    /// Heart (likes) reaction count
    pub heart: i64,
    /// Fire reaction count
    pub fire: i64,
    /// Like reaction count (not the same as heart)
    pub like: i64,
    /// Dislike reaction count
    pub dislike: i64,
    /// Wonder reaction count
    pub wonder: i64,
    /// Laught reaction count
    pub laught: i64,
    /// Sad reaction count
    pub sad: i64,
}

/// Mathematical model of `Reactions`.
#[verifier::ext_equal]
pub struct ReactionsSpec {
    pub angry: int,
    pub heart: int,
    pub fire: int,
    pub like: int,
    pub dislike: int,
    pub wonder: int,
    pub laught: int,
    pub sad: int,
}

impl ReactionsSpec {
    pub open spec fn wf(self) -> bool {
        &&& i64::MIN <= self.angry <= i64::MAX
        &&& i64::MIN <= self.heart <= i64::MAX
        &&& i64::MIN <= self.fire <= i64::MAX
        &&& i64::MIN <= self.like <= i64::MAX
        &&& i64::MIN <= self.dislike <= i64::MAX
        &&& i64::MIN <= self.wonder <= i64::MAX
        &&& i64::MIN <= self.laught <= i64::MAX
        &&& i64::MIN <= self.sad <= i64::MAX
    }
}

impl View for Reactions {
    type V = ReactionsSpec;

    open spec fn view(&self) -> ReactionsSpec {
        ReactionsSpec {
            angry: self.angry as int,
            heart: self.heart as int,
            fire: self.fire as int,
            like: self.like as int,
            dislike: self.dislike as int,
            wonder: self.wonder as int,
            laught: self.laught as int,
            sad: self.sad as int,
        }
    }
}

pub open spec fn reactions_json_ok(j: JsonSpec) -> bool {
    match j {
        JsonSpec::Obj(fs) => {
            &&& fis_i64(fs, "angry"@)
            &&& fis_i64(fs, "heart"@)
            &&& fis_i64(fs, "fire"@)
            &&& fis_i64(fs, "like"@)
            &&& fis_i64(fs, "dislike"@)
            &&& fis_i64(fs, "wonder"@)
            &&& fis_i64(fs, "laught"@)
            &&& fis_i64(fs, "sad"@)
        },
        _ => false,
    }
}

pub open spec fn reactions_of_json(j: JsonSpec) -> ReactionsSpec
    recommends
        reactions_json_ok(j),
{
    let fs = (match j {
        JsonSpec::Obj(fs) => fs,
        _ => Seq::empty(),
    });
    ReactionsSpec {
        angry: fi64(fs, "angry"@),
        heart: fi64(fs, "heart"@),
        fire: fi64(fs, "fire"@),
        like: fi64(fs, "like"@),
        dislike: fi64(fs, "dislike"@),
        wonder: fi64(fs, "wonder"@),
        laught: fi64(fs, "laught"@),
        sad: fi64(fs, "sad"@),
    }
}

pub open spec fn reactions_to_json(r: ReactionsSpec) -> JsonSpec {
    JsonSpec::Obj(
        seq![
            ("angry"@, JsonSpec::Int(r.angry)),
            ("heart"@, JsonSpec::Int(r.heart)),
            ("fire"@, JsonSpec::Int(r.fire)),
            ("like"@, JsonSpec::Int(r.like)),
            ("dislike"@, JsonSpec::Int(r.dislike)),
            ("wonder"@, JsonSpec::Int(r.wonder)),
            ("laught"@, JsonSpec::Int(r.laught)),
            ("sad"@, JsonSpec::Int(r.sad)),
        ],
    )
}

impl Reactions {
    /// The reaction counts a document denotes, or a schema error.
    pub fn from_json(v: &JsonValue) -> (r: Result<Reactions, JsonError>)
        ensures
            match r {
                Ok(x) => reactions_json_ok(v@) && x@ == reactions_of_json(v@),
                Err(e) => !reactions_json_ok(v@) && e == JsonError::Schema,
            },
    {
        match v {
            JsonValue::Obj(fields) => {
                let angry = match req_i64(fields, "angry") {
                    Ok(x) => x,
                    Err(e) => { return Err(e); },
                };
                let heart = match req_i64(fields, "heart") {
                    Ok(x) => x,
                    Err(e) => { return Err(e); },
                };
                let fire = match req_i64(fields, "fire") {
                    Ok(x) => x,
                    Err(e) => { return Err(e); },
                };
                let like = match req_i64(fields, "like") {
                    Ok(x) => x,
                    Err(e) => { return Err(e); },
                };
                let dislike = match req_i64(fields, "dislike") {
                    Ok(x) => x,
                    Err(e) => { return Err(e); },
                };
                let wonder = match req_i64(fields, "wonder") {
                    Ok(x) => x,
                    Err(e) => { return Err(e); },
                };
                let laught = match req_i64(fields, "laught") {
                    Ok(x) => x,
                    Err(e) => { return Err(e); },
                };
                let sad = match req_i64(fields, "sad") {
                    Ok(x) => x,
                    Err(e) => { return Err(e); },
                };
                let x = Reactions { angry, heart, fire, like, dislike, wonder, laught, sad };
                proof {
                    assert(x@ =~= reactions_of_json(v@));
                }
                Ok(x)
            },
            _ => Err(JsonError::Schema),
        }
    }

    /// The document these counts serialize to.
    pub fn to_json(&self) -> (r: JsonValue)
        ensures
            r@ == reactions_to_json(self@),
    {
        let mut fields: Vec<(String, JsonValue)> = Vec::new();
        fields.push((String::from_str("angry"), JsonValue::Int(self.angry as i128)));
        fields.push((String::from_str("heart"), JsonValue::Int(self.heart as i128)));
        fields.push((String::from_str("fire"), JsonValue::Int(self.fire as i128)));
        fields.push((String::from_str("like"), JsonValue::Int(self.like as i128)));
        fields.push((String::from_str("dislike"), JsonValue::Int(self.dislike as i128)));
        fields.push((String::from_str("wonder"), JsonValue::Int(self.wonder as i128)));
        fields.push((String::from_str("laught"), JsonValue::Int(self.laught as i128)));
        fields.push((String::from_str("sad"), JsonValue::Int(self.sad as i128)));
        let r = JsonValue::Obj(fields);
        proof {
            lemma_fields_view(fields@);
            let target = (match reactions_to_json(self@) {
                JsonSpec::Obj(fs) => fs,
                _ => Seq::empty(),
            });
            assert(fields_view(fields@) =~= target);
        }
        r
    }
}

/// Post reactions and comments count
#[derive(Debug, Clone, PartialEq, Eq)]
pub struct Count {
    /// Likes count
    pub likes: i64,
    /// Reactions count
    pub reactions: Reactions,
    /// Comments count
    pub comments: i64,
}

/// Mathematical model of a `Count`.
#[verifier::ext_equal]
pub struct CountSpec {
    pub likes: int,
    pub reactions: ReactionsSpec,
    pub comments: int,
}

impl CountSpec {
    pub open spec fn wf(self) -> bool {
        &&& i64::MIN <= self.likes <= i64::MAX
        &&& self.reactions.wf()
        &&& i64::MIN <= self.comments <= i64::MAX
    }
}

impl View for Count {
    type V = CountSpec;

    open spec fn view(&self) -> CountSpec {
        CountSpec {
            likes: self.likes as int,
            reactions: self.reactions@,
            comments: self.comments as int,
        }
    }
}

pub open spec fn count_json_ok(j: JsonSpec) -> bool {
    match j {
        JsonSpec::Obj(fs) => {
            &&& fis_i64(fs, "likes"@)
            &&& (fget(fs, "reactions"@) matches Some(rj) && reactions_json_ok(rj))
            &&& fis_i64(fs, "comments"@)
        },
        _ => false,
    }
}

pub open spec fn count_of_json(j: JsonSpec) -> CountSpec
    recommends
        count_json_ok(j),
{
    let fs = (match j {
        JsonSpec::Obj(fs) => fs,
        _ => Seq::empty(),
    });
    let rj = (match fget(fs, "reactions"@) {
        Some(rj) => rj,
        None => JsonSpec::Null,
    });
    CountSpec {
        likes: fi64(fs, "likes"@),
        reactions: reactions_of_json(rj),
        comments: fi64(fs, "comments"@),
    }
}

pub open spec fn count_to_json(c: CountSpec) -> JsonSpec {
    JsonSpec::Obj(
        seq![
            ("likes"@, JsonSpec::Int(c.likes)),
            ("reactions"@, reactions_to_json(c.reactions)),
            ("comments"@, JsonSpec::Int(c.comments)),
        ],
    )
}

impl Count {
    /// The counters a document denotes, or a schema error.
    pub fn from_json(v: &JsonValue) -> (r: Result<Count, JsonError>)
        ensures
            match r {
                Ok(c) => count_json_ok(v@) && c@ == count_of_json(v@),
                Err(e) => !count_json_ok(v@) && e == JsonError::Schema,
            },
    {
        match v {
            JsonValue::Obj(fields) => {
                let likes = match req_i64(fields, "likes") {
                    Ok(x) => x,
                    Err(e) => { return Err(e); },
                };
                let rref = match lookup(fields, "reactions") {
                    Some(x) => x,
                    None => { return Err(JsonError::Schema); },
                };
                let reactions = match Reactions::from_json(rref) {
                    Ok(x) => x,
                    Err(e) => { return Err(e); },
                };
                let comments = match req_i64(fields, "comments") {
                    Ok(x) => x,
                    Err(e) => { return Err(e); },
                };
                let c = Count { likes, reactions, comments };
                proof {
                    assert(c@ =~= count_of_json(v@));
                }
                Ok(c)
            },
            _ => Err(JsonError::Schema),
        }
    }

    /// The document these counters serialize to.
    pub fn to_json(&self) -> (r: JsonValue)
        ensures
            r@ == count_to_json(self@),
    {
        let reactions_node = self.reactions.to_json();
        let mut fields: Vec<(String, JsonValue)> = Vec::new();
        fields.push((String::from_str("likes"), JsonValue::Int(self.likes as i128)));
        fields.push((String::from_str("reactions"), reactions_node));
        fields.push((String::from_str("comments"), JsonValue::Int(self.comments as i128)));
        let r = JsonValue::Obj(fields);
        proof {
            lemma_fields_view(fields@);
            let target = (match count_to_json(self@) {
                JsonSpec::Obj(fs) => fs,
                _ => Seq::empty(),
            });
            assert(fields_view(fields@) =~= target);
        }
        r
    }
}

/// Boosty post on a blog
#[derive(Debug, Clone, PartialEq, Eq)]
pub struct Post {
    /// Creation time in Unix format; the wire key is `createdAt`
    pub created_at: u64,
    /// Update time in Unix format; the wire key is `updatedAt`
    pub updated_at: Option<u64>,
    /// Publish time in Unix format; the wire key is `publishTime`
    pub publish_time: u64,
    /// Reactions and comments count
    pub count: Count,
    /// Paid post data
    pub data: Option<Vec<Data>>,
    /// Paid post price in two currencies; the wire key is `currencyPrices`
    pub currency_prices: CurrencyPrices,
    /// Teaser of paid post
    pub teaser: Vec<Teaser>,
    /// Is post views counter visible; the wire key is `showViewsCounter`
    pub show_views_counter: bool,
    /// Price of a paid post (0 if free)
    pub price: i64,
    /// Post ID
    pub id: String,
    /// Donations count
    pub donations: i64,
    /// Post title
    pub title: String,
}

pub open spec fn opt_datas_view(o: Option<Vec<Data>>) -> Option<Seq<DataSpec>> {
    match o {
        Some(v) => Some(datas_view(v@)),
        None => None,
    }
}

/// Mathematical model of a `Post`.
#[verifier::ext_equal]
pub struct PostSpec {
    pub created_at: int,
    pub updated_at: Option<int>,
    pub publish_time: int,
    pub count: CountSpec,
    pub data: Option<Seq<DataSpec>>,
    pub currency_prices: CurrencyPricesSpec,
    pub teaser: Seq<TeaserSpec>,
    pub show_views_counter: bool,
    pub price: int,
    pub id: Seq<char>,
    pub donations: int,
    pub title: Seq<char>,
}

impl PostSpec {
    /// Every numeric field fits the machine type that carries it, down
    /// through the nested blocks.
    pub open spec fn wf(self) -> bool {
        &&& 0 <= self.created_at <= u64::MAX
        &&& (match self.updated_at {
            Some(u) => 0 <= u <= u64::MAX,
            None => true,
        })
        &&& 0 <= self.publish_time <= u64::MAX
        &&& self.count.wf()
        &&& (match self.data {
            Some(ds) => forall|i: int| 0 <= i < ds.len() ==> ds[i].wf(),
            None => true,
        })
        &&& (forall|i: int| 0 <= i < self.teaser.len() ==> self.teaser[i].wf())
        &&& i64::MIN <= self.price <= i64::MAX
        &&& i64::MIN <= self.donations <= i64::MAX
    }
}

impl View for Post {
    type V = PostSpec;

    open spec fn view(&self) -> PostSpec {
        PostSpec {
            created_at: self.created_at as int,
            updated_at: opt_u64_view(self.updated_at),
            publish_time: self.publish_time as int,
            count: self.count@,
            data: opt_datas_view(self.data),
            currency_prices: self.currency_prices@,
            teaser: teasers_view(self.teaser@),
            show_views_counter: self.show_views_counter,
            price: self.price as int,
            id: self.id@,
            donations: self.donations as int,
            title: self.title@,
        }
    }
}

/// An optional member that, when present and not `null`, must be an array
/// whose entries all match the content-block schema.
pub open spec fn post_data_ok(fs: Seq<(Seq<char>, JsonSpec)>) -> bool {
    match fget(fs, "data"@) {
        None => true,
        Some(JsonSpec::Null) => true,
        Some(JsonSpec::Arr(items)) => datas_json_ok(items),
        _ => false,
    }
}

pub open spec fn post_data_of(fs: Seq<(Seq<char>, JsonSpec)>) -> Option<Seq<DataSpec>> {
    match fget(fs, "data"@) {
        Some(JsonSpec::Arr(items)) => Some(datas_of_json(items)),
        _ => None,
    }
}

pub open spec fn post_json_ok(j: JsonSpec) -> bool {
    match j {
        JsonSpec::Obj(fs) => {
            &&& fis_u64(fs, "createdAt"@)
            &&& fopt_u64_ok(fs, "updatedAt"@)
            &&& fis_u64(fs, "publishTime"@)
            &&& (fget(fs, "count"@) matches Some(cj) && count_json_ok(cj))
            &&& post_data_ok(fs)
            &&& (fget(fs, "currencyPrices"@) matches Some(pj) && currency_prices_json_ok(pj))
            &&& fis_arr(fs, "teaser"@)
            &&& teasers_json_ok(farr(fs, "teaser"@))
            &&& fis_bool(fs, "showViewsCounter"@)
            &&& fis_i64(fs, "price"@)
            &&& fis_str(fs, "id"@)
            &&& fis_i64(fs, "donations"@)
            &&& fis_str(fs, "title"@)
        },
        _ => false,
    }
}

pub open spec fn post_of_json(j: JsonSpec) -> PostSpec
    recommends
        post_json_ok(j),
{
    let fs = (match j {
        JsonSpec::Obj(fs) => fs,
        _ => Seq::empty(),
    });
    let cj = (match fget(fs, "count"@) {
        Some(cj) => cj,
        None => JsonSpec::Null,
    });
    let pj = (match fget(fs, "currencyPrices"@) {
        Some(pj) => pj,
        None => JsonSpec::Null,
    });
    PostSpec {
        created_at: fi64(fs, "createdAt"@),
        updated_at: fopt_u64(fs, "updatedAt"@),
        publish_time: fi64(fs, "publishTime"@),
        count: count_of_json(cj),
        data: post_data_of(fs),
        currency_prices: currency_prices_of_json(pj),
        teaser: teasers_of_json(farr(fs, "teaser"@)),
        show_views_counter: fbool(fs, "showViewsCounter"@),
        price: fi64(fs, "price"@),
        id: fstr(fs, "id"@),
        donations: fi64(fs, "donations"@),
        title: fstr(fs, "title"@),
    }
}

pub open spec fn opt_datas_json(o: Option<Seq<DataSpec>>) -> JsonSpec {
    match o {
        Some(ds) => JsonSpec::Arr(datas_to_json(ds)),
        None => JsonSpec::Null,
    }
}

pub open spec fn post_to_json(p: PostSpec) -> JsonSpec {
    JsonSpec::Obj(
        seq![
            ("createdAt"@, JsonSpec::Int(p.created_at)),
            ("updatedAt"@, opt_int_json(p.updated_at)),
            ("publishTime"@, JsonSpec::Int(p.publish_time)),
            ("count"@, count_to_json(p.count)),
            ("data"@, opt_datas_json(p.data)),
            ("currencyPrices"@, currency_prices_to_json(p.currency_prices)),
            ("teaser"@, JsonSpec::Arr(teasers_to_json(p.teaser))),
            ("showViewsCounter"@, JsonSpec::Bool(p.show_views_counter)),
            ("price"@, JsonSpec::Int(p.price)),
            ("id"@, JsonSpec::Str(p.id)),
            ("donations"@, JsonSpec::Int(p.donations)),
            ("title"@, JsonSpec::Str(p.title)),
        ],
    )
}

impl Post {
    /// The post a document denotes, or a schema error where any part of it,
    /// down through the nested blocks, does not match.
    pub fn from_json(v: &JsonValue) -> (r: Result<Post, JsonError>)
        ensures
            match r {
                Ok(p) => post_json_ok(v@) && p@ == post_of_json(v@),
                Err(e) => !post_json_ok(v@) && e == JsonError::Schema,
            },
    {
        match v {
            JsonValue::Obj(fields) => {
                let created_at = match req_u64(fields, "createdAt") {
                    Ok(x) => x,
                    Err(e) => { return Err(e); },
                };
                let updated_at = match opt_u64(fields, "updatedAt") {
                    Ok(x) => x,
                    Err(e) => { return Err(e); },
                };
                let publish_time = match req_u64(fields, "publishTime") {
                    Ok(x) => x,
                    Err(e) => { return Err(e); },
                };
                let cref = match lookup(fields, "count") {
                    Some(x) => x,
                    None => { return Err(JsonError::Schema); },
                };
                let count = match Count::from_json(cref) {
                    Ok(x) => x,
                    Err(e) => { return Err(e); },
                };
                let data = match lookup(fields, "data") {
                    None => None,
                    Some(JsonValue::Null) => None,
                    Some(JsonValue::Arr(items)) => match datas_from_json(items) {
                        Ok(ds) => Some(ds),
                        Err(e) => { return Err(e); },
                    },
                    Some(_) => { return Err(JsonError::Schema); },
                };
                let pref = match lookup(fields, "currencyPrices") {
                    Some(x) => x,
                    None => { return Err(JsonError::Schema); },
                };
                let currency_prices = match CurrencyPrices::from_json(pref) {
                    Ok(x) => x,
                    Err(e) => { return Err(e); },
                };
                let titems = match req_arr(fields, "teaser") {
                    Ok(x) => x,
                    Err(e) => { return Err(e); },
                };
                let teaser = match teasers_from_json(titems) {
                    Ok(x) => x,
                    Err(e) => { return Err(e); },
                };
                let show_views_counter = match req_bool(fields, "showViewsCounter") {
                    Ok(x) => x,
                    Err(e) => { return Err(e); },
                };
                let price = match req_i64(fields, "price") {
                    Ok(x) => x,
                    Err(e) => { return Err(e); },
                };
                let id = match req_str(fields, "id") {
                    Ok(x) => x,
                    Err(e) => { return Err(e); },
                };
                let donations = match req_i64(fields, "donations") {
                    Ok(x) => x,
                    Err(e) => { return Err(e); },
                };
                let title = match req_str(fields, "title") {
                    Ok(x) => x,
                    Err(e) => { return Err(e); },
                };
                let p = Post {
                    created_at,
                    updated_at,
                    publish_time,
                    count,
                    data,
                    currency_prices,
                    teaser,
                    show_views_counter,
                    price,
                    id,
                    donations,
                    title,
                };
                proof {
                    assert(p@ =~= post_of_json(v@));
                }
                Ok(p)
            },
            _ => Err(JsonError::Schema),
        }
    }

    /// The document this post serializes to.
    pub fn to_json(&self) -> (r: JsonValue)
        ensures
            r@ == post_to_json(self@),
    {
        let count_node = self.count.to_json();
        let data_node = match &self.data {
            Some(ds) => JsonValue::Arr(datas_to_json_vec(ds)),
            None => JsonValue::Null,
        };
        let prices_node = self.currency_prices.to_json();
        let teaser_node = JsonValue::Arr(teasers_to_json_vec(&self.teaser));
        let updated_node = match self.updated_at {
            Some(u) => JsonValue::Int(u as i128),
            None => JsonValue::Null,
        };
        let mut fields: Vec<(String, JsonValue)> = Vec::new();
        fields.push((String::from_str("createdAt"), JsonValue::Int(self.created_at as i128)));
        fields.push((String::from_str("updatedAt"), updated_node));
        fields.push(
            (String::from_str("publishTime"), JsonValue::Int(self.publish_time as i128)),
        );
        fields.push((String::from_str("count"), count_node));
        fields.push((String::from_str("data"), data_node));
        fields.push((String::from_str("currencyPrices"), prices_node));
        fields.push((String::from_str("teaser"), teaser_node));
        fields.push(
            (String::from_str("showViewsCounter"), JsonValue::Bool(self.show_views_counter)),
        );
        fields.push((String::from_str("price"), JsonValue::Int(self.price as i128)));
        fields.push((String::from_str("id"), JsonValue::Str(self.id.clone())));
        fields.push((String::from_str("donations"), JsonValue::Int(self.donations as i128)));
        fields.push((String::from_str("title"), JsonValue::Str(self.title.clone())));
        let r = JsonValue::Obj(fields);
        proof {
            lemma_fields_view(fields@);
            let target = (match post_to_json(self@) {
                JsonSpec::Obj(fs) => fs,
                _ => Seq::empty(),
            });
            assert(fields_view(fields@) =~= target);
        }
        r
    }
}

pub open spec fn posts_view(s: Seq<Post>) -> Seq<PostSpec> {
    s.map_values(|x: Post| x@)
}

pub open spec fn posts_json_ok(s: Seq<JsonSpec>) -> bool {
    forall|i: int| 0 <= i < s.len() ==> post_json_ok(s[i])
}

pub open spec fn posts_of_json(s: Seq<JsonSpec>) -> Seq<PostSpec> {
    s.map_values(|x: JsonSpec| post_of_json(x))
}

pub open spec fn posts_to_json(s: Seq<PostSpec>) -> Seq<JsonSpec> {
    s.map_values(|x: PostSpec| post_to_json(x))
}

/// Boosty response
#[derive(Debug, Clone, PartialEq, Eq)]
pub struct Response {
    /// Vector of `Post`
    pub data: Vec<Post>,
}

/// Mathematical model of a `Response`.
#[verifier::ext_equal]
pub struct ResponseSpec {
    pub data: Seq<PostSpec>,
}

impl ResponseSpec {
    pub open spec fn wf(self) -> bool {
        forall|i: int| 0 <= i < self.data.len() ==> self.data[i].wf()
    }
}

impl View for Response {
    type V = ResponseSpec;

    open spec fn view(&self) -> ResponseSpec {
        ResponseSpec { data: posts_view(self.data@) }
    }
}

/// Whether a document matches the response schema: an object whose `data`
/// member is an array of matching posts.
pub open spec fn response_json_ok(j: JsonSpec) -> bool {
    match j {
        JsonSpec::Obj(fs) => {
            &&& fis_arr(fs, "data"@)
            &&& posts_json_ok(farr(fs, "data"@))
        },
        _ => false,
    }
}

pub open spec fn response_of_json(j: JsonSpec) -> ResponseSpec
    recommends
        response_json_ok(j),
{
    let fs = (match j {
        JsonSpec::Obj(fs) => fs,
        _ => Seq::empty(),
    });
    ResponseSpec { data: posts_of_json(farr(fs, "data"@)) }
}

pub open spec fn response_to_json(r: ResponseSpec) -> JsonSpec {
    JsonSpec::Obj(seq![("data"@, JsonSpec::Arr(posts_to_json(r.data)))])
}

impl Response {
    /// The response a document denotes, or a schema error where any part of
    /// it does not match.
    pub fn from_json(v: &JsonValue) -> (r: Result<Response, JsonError>)
        ensures
            match r {
                Ok(resp) => response_json_ok(v@) && resp@ == response_of_json(v@),
                Err(e) => !response_json_ok(v@) && e == JsonError::Schema,
            },
    {
        match v {
            JsonValue::Obj(fields) => {
                let items = match req_arr(fields, "data") {
                    Ok(a) => a,
                    Err(e) => { return Err(e); },
                };
                let ghost iv = arr_view(items@);
                proof {
                    lemma_arr_view(items@);
                }
                let n = items.len();
                let mut posts: Vec<Post> = Vec::new();
                let mut i: usize = 0;
                while i < n
                    invariant
                        n == items.len(),
                        iv == arr_view(items@),
                        iv.len() == n,
                        forall|j: int| 0 <= j < n ==> iv[j] == jv_view(items@[j]),
                        0 <= i <= n,
                        posts@.len() == i,
                        forall|j: int| 0 <= j < i ==> post_json_ok(iv[j]),
                        forall|j: int| 0 <= j < i ==> posts@[j]@ == post_of_json(iv[j]),
                        v@ == JsonSpec::Obj(fields_view(fields@)),
                        fis_arr(fields_view(fields@), "data"@),
                        iv == farr(fields_view(fields@), "data"@),
                    decreases n - i,
                {
                    let p = match Post::from_json(&items[i]) {
                        Ok(p) => p,
                        Err(_) => {
                            proof {
                                assert(!post_json_ok(iv[i as int]));
                                assert(!posts_json_ok(iv));
                            }
                            return Err(JsonError::Schema);
                        },
                    };
                    posts.push(p);
                    i += 1;
                }
                let resp = Response { data: posts };
                proof {
                    assert(posts_view(posts@) =~= posts_of_json(iv));
                    assert(resp@ =~= response_of_json(v@));
                }
                Ok(resp)
            },
            _ => Err(JsonError::Schema),
        }
    }

    /// The document this response serializes to.
    pub fn to_json(&self) -> (r: JsonValue)
        ensures
            r@ == response_to_json(self@),
    {
        let n = self.data.len();
        let mut arr: Vec<JsonValue> = Vec::new();
        let mut i: usize = 0;
        while i < n
            invariant
                n == self.data.len(),
                0 <= i <= n,
                arr@.len() == i,
                forall|j: int| 0 <= j < i ==> jv_view(arr@[j]) == post_to_json(self.data@[j]@),
            decreases n - i,
        {
            arr.push(self.data[i].to_json());
            i += 1;
        }
        proof {
            lemma_arr_view(arr@);
            assert(arr_view(arr@) =~= posts_to_json(posts_view(self.data@)));
        }
        let mut fields: Vec<(String, JsonValue)> = Vec::new();
        fields.push((String::from_str("data"), JsonValue::Arr(arr)));
        let r = JsonValue::Obj(fields);
        proof {
            lemma_fields_view(fields@);
            let target = (match response_to_json(self@) {
                JsonSpec::Obj(fs) => fs,
                _ => Seq::empty(),
            });
            assert(fields_view(fields@) =~= target);
        }
        r
    }
}

/// Serializing prices and parsing them back recovers them exactly.
pub proof fn lemma_currency_prices_round_trip(c: CurrencyPricesSpec)
    ensures
        currency_prices_json_ok(currency_prices_to_json(c)),
        currency_prices_of_json(currency_prices_to_json(c)) == c,
{
    reveal_strlit("RUB");
    reveal_strlit("USD");
    assert(key_sig("RUB"@) == (3int, 'R', 'U', ' '));
    assert(key_sig("USD"@) == (3int, 'U', 'S', ' '));
    reveal_with_fuel(crate::json::fget_from, 4);
    let fs = (match currency_prices_to_json(c) {
        JsonSpec::Obj(fs) => fs,
        _ => Seq::empty(),
    });
    assert(fget(fs, "RUB"@) == Some(JsonSpec::Num(c.rub)));
    assert(fget(fs, "USD"@) == Some(JsonSpec::Num(c.usd)));
    assert(currency_prices_of_json(currency_prices_to_json(c)) =~= c);
}

/// Serializing a teaser and parsing it back recovers it exactly.
pub proof fn lemma_teaser_round_trip(t: TeaserSpec)
    requires
        t.wf(),
    ensures
        teaser_json_ok(teaser_to_json(t)),
        teaser_of_json(teaser_to_json(t)) == t,
{
    reveal_strlit("type");
    reveal_strlit("width");
    reveal_strlit("height");
    reveal_strlit("rendition");
    reveal_strlit("url");
    reveal_strlit("id");
    assert(key_sig("type"@) == (4int, 't', 'y', ' '));
    assert(key_sig("width"@) == (5int, 'w', 'i', ' '));
    assert(key_sig("height"@) == (6int, 'h', 'e', 't'));
    assert(key_sig("rendition"@) == (9int, 'r', 'e', 't'));
    assert(key_sig("url"@) == (3int, 'u', 'r', ' '));
    assert(key_sig("id"@) == (2int, 'i', 'd', ' '));
    reveal_with_fuel(crate::json::fget_from, 8);
    let fs = (match teaser_to_json(t) {
        JsonSpec::Obj(fs) => fs,
        _ => Seq::empty(),
    });
    assert(fget(fs, "type"@) == Some(JsonSpec::Str(t.content_type)));
    assert(fget(fs, "width"@) == Some(opt_int_json(t.width)));
    assert(fget(fs, "height"@) == Some(opt_int_json(t.height)));
    assert(fget(fs, "rendition"@) == Some(opt_str_json(t.rendition)));
    assert(fget(fs, "url"@) == Some(opt_str_json(t.url)));
    assert(fget(fs, "id"@) == Some(opt_str_json(t.id)));
    assert(teaser_of_json(teaser_to_json(t)) =~= t);
}

/// Serializing a video-URL entry and parsing it back recovers it exactly.
pub proof fn lemma_player_urls_round_trip(u: PlayerUrlsSpec)
    ensures
        player_urls_json_ok(player_urls_to_json(u)),
        player_urls_of_json(player_urls_to_json(u)) == u,
{
    reveal_strlit("type");
    reveal_strlit("url");
    assert(key_sig("type"@) == (4int, 't', 'y', ' '));
    assert(key_sig("url"@) == (3int, 'u', 'r', ' '));
    reveal_with_fuel(crate::json::fget_from, 4);
    let fs = (match player_urls_to_json(u) {
        JsonSpec::Obj(fs) => fs,
        _ => Seq::empty(),
    });
    assert(fget(fs, "type"@) == Some(JsonSpec::Str(u.content_type)));
    assert(fget(fs, "url"@) == Some(JsonSpec::Str(u.url)));
    assert(player_urls_of_json(player_urls_to_json(u)) =~= u);
}

/// Serializing a content block and parsing it back recovers it exactly,
/// its list of video URLs included.
pub proof fn lemma_data_round_trip(d: DataSpec)
    requires
        d.wf(),
    ensures
        data_json_ok(data_to_json(d)),
        data_of_json(data_to_json(d)) == d,
{
    reveal_strlit("type");
    reveal_strlit("width");
    reveal_strlit("height");
    reveal_strlit("rendition");
    reveal_strlit("url");
    reveal_strlit("id");
    reveal_strlit("playerUrls");
    reveal_strlit("content");
    assert(key_sig("type"@) == (4int, 't', 'y', ' '));
    assert(key_sig("width"@) == (5int, 'w', 'i', ' '));
    assert(key_sig("height"@) == (6int, 'h', 'e', 't'));
    assert(key_sig("rendition"@) == (9int, 'r', 'e', 't'));
    assert(key_sig("url"@) == (3int, 'u', 'r', ' '));
    assert(key_sig("id"@) == (2int, 'i', 'd', ' '));
    assert(key_sig("playerUrls"@) == (10int, 'p', 'l', 'r'));
    assert(key_sig("content"@) == (7int, 'c', 'o', 'n'));
    reveal_with_fuel(crate::json::fget_from, 10);
    let fs = (match data_to_json(d) {
        JsonSpec::Obj(fs) => fs,
        _ => Seq::empty(),
    });
    assert(fget(fs, "type"@) == Some(JsonSpec::Str(d.content_type)));
    assert(fget(fs, "width"@) == Some(opt_int_json(d.width)));
    assert(fget(fs, "height"@) == Some(opt_int_json(d.height)));
    assert(fget(fs, "rendition"@) == Some(opt_str_json(d.rendition)));
    assert(fget(fs, "url"@) == Some(opt_str_json(d.url)));
    assert(fget(fs, "id"@) == Some(opt_str_json(d.id)));
    assert(fget(fs, "playerUrls"@) == Some(opt_player_urls_json(d.player_urls)));
    assert(fget(fs, "content"@) == Some(opt_str_json(d.content)));
    match d.player_urls {
        Some(ps) => {
            assert forall|i: int| 0 <= i < ps.len() implies player_urls_json_ok(
                player_urls_to_json(ps[i]),
            ) && player_urls_of_json(player_urls_to_json(ps[i])) == ps[i] by {
                lemma_player_urls_round_trip(ps[i]);
            }
            assert(player_urls_list_of_json(player_urls_list_to_json(ps)) =~= ps);
        },
        None => {},
    }
    assert(data_of_json(data_to_json(d)) =~= d);
}

/// Serializing reaction counts and parsing them back recovers them exactly.
pub proof fn lemma_reactions_round_trip(r: ReactionsSpec)
    requires
        r.wf(),
    ensures
        reactions_json_ok(reactions_to_json(r)),
        reactions_of_json(reactions_to_json(r)) == r,
{
    reveal_strlit("angry");
    reveal_strlit("heart");
    reveal_strlit("fire");
    reveal_strlit("like");
    reveal_strlit("dislike");
    reveal_strlit("wonder");
    reveal_strlit("laught");
    reveal_strlit("sad");
    assert(key_sig("angry"@) == (5int, 'a', 'n', ' '));
    assert(key_sig("heart"@) == (5int, 'h', 'e', ' '));
    assert(key_sig("fire"@) == (4int, 'f', 'i', ' '));
    assert(key_sig("like"@) == (4int, 'l', 'i', ' '));
    assert(key_sig("dislike"@) == (7int, 'd', 'i', 'k'));
    assert(key_sig("wonder"@) == (6int, 'w', 'o', 'r'));
    assert(key_sig("laught"@) == (6int, 'l', 'a', 't'));
    assert(key_sig("sad"@) == (3int, 's', 'a', ' '));
    reveal_with_fuel(crate::json::fget_from, 10);
    let fs = (match reactions_to_json(r) {
        JsonSpec::Obj(fs) => fs,
        _ => Seq::empty(),
    });
    assert(fget(fs, "angry"@) == Some(JsonSpec::Int(r.angry)));
    assert(fget(fs, "heart"@) == Some(JsonSpec::Int(r.heart)));
    assert(fget(fs, "fire"@) == Some(JsonSpec::Int(r.fire)));
    assert(fget(fs, "like"@) == Some(JsonSpec::Int(r.like)));
    assert(fget(fs, "dislike"@) == Some(JsonSpec::Int(r.dislike)));
    assert(fget(fs, "wonder"@) == Some(JsonSpec::Int(r.wonder)));
    assert(fget(fs, "laught"@) == Some(JsonSpec::Int(r.laught)));
    assert(fget(fs, "sad"@) == Some(JsonSpec::Int(r.sad)));
    assert(reactions_of_json(reactions_to_json(r)) =~= r);
}

/// Serializing counters and parsing them back recovers them exactly.
pub proof fn lemma_count_round_trip(c: CountSpec)
    requires
        c.wf(),
    ensures
        count_json_ok(count_to_json(c)),
        count_of_json(count_to_json(c)) == c,
{
    reveal_strlit("likes");
    reveal_strlit("reactions");
    reveal_strlit("comments");
    assert(key_sig("likes"@) == (5int, 'l', 'i', ' '));
    assert(key_sig("reactions"@) == (9int, 'r', 'e', 'i'));
    assert(key_sig("comments"@) == (8int, 'c', 'o', 'n'));
    reveal_with_fuel(crate::json::fget_from, 5);
    lemma_reactions_round_trip(c.reactions);
    let fs = (match count_to_json(c) {
        JsonSpec::Obj(fs) => fs,
        _ => Seq::empty(),
    });
    assert(fget(fs, "likes"@) == Some(JsonSpec::Int(c.likes)));
    assert(fget(fs, "reactions"@) == Some(reactions_to_json(c.reactions)));
    assert(fget(fs, "comments"@) == Some(JsonSpec::Int(c.comments)));
    assert(count_of_json(count_to_json(c)) =~= c);
}

/// Serializing a post and parsing it back recovers the post exactly, down
/// through its counters, prices, teasers and content blocks.
#[verifier::rlimit(100)]
pub proof fn lemma_post_round_trip(p: PostSpec)
    requires
        p.wf(),
    ensures
        post_json_ok(post_to_json(p)),
        post_of_json(post_to_json(p)) == p,
{
    reveal_strlit("createdAt");
    reveal_strlit("updatedAt");
    reveal_strlit("publishTime");
    reveal_strlit("count");
    reveal_strlit("data");
    reveal_strlit("currencyPrices");
    reveal_strlit("teaser");
    reveal_strlit("showViewsCounter");
    reveal_strlit("price");
    reveal_strlit("id");
    reveal_strlit("donations");
    reveal_strlit("title");
    assert(key_sig("createdAt"@) == (9int, 'c', 'r', 'e'));
    assert(key_sig("updatedAt"@) == (9int, 'u', 'p', 'e'));
    assert(key_sig("publishTime"@) == (11int, 'p', 'u', 's'));
    assert(key_sig("count"@) == (5int, 'c', 'o', ' '));
    assert(key_sig("data"@) == (4int, 'd', 'a', ' '));
    assert(key_sig("currencyPrices"@) == (14int, 'c', 'u', 'n'));
    assert(key_sig("teaser"@) == (6int, 't', 'e', 'r'));
    assert(key_sig("showViewsCounter"@) == (16int, 's', 'h', 'i'));
    assert(key_sig("price"@) == (5int, 'p', 'r', ' '));
    assert(key_sig("id"@) == (2int, 'i', 'd', ' '));
    assert(key_sig("donations"@) == (9int, 'd', 'o', 'i'));
    assert(key_sig("title"@) == (5int, 't', 'i', ' '));
    reveal_with_fuel(crate::json::fget_from, 14);
    lemma_count_round_trip(p.count);
    lemma_currency_prices_round_trip(p.currency_prices);
    let fs = (match post_to_json(p) {
        JsonSpec::Obj(fs) => fs,
        _ => Seq::empty(),
    });
    assert(fget(fs, "createdAt"@) == Some(JsonSpec::Int(p.created_at)));
    assert(fget(fs, "updatedAt"@) == Some(opt_int_json(p.updated_at)));
    assert(fget(fs, "publishTime"@) == Some(JsonSpec::Int(p.publish_time)));
    assert(fget(fs, "count"@) == Some(count_to_json(p.count)));
    assert(fget(fs, "data"@) == Some(opt_datas_json(p.data)));
    assert(fget(fs, "currencyPrices"@) == Some(currency_prices_to_json(p.currency_prices)));
    assert(fget(fs, "teaser"@) == Some(JsonSpec::Arr(teasers_to_json(p.teaser))));
    assert(fget(fs, "showViewsCounter"@) == Some(JsonSpec::Bool(p.show_views_counter)));
    assert(fget(fs, "price"@) == Some(JsonSpec::Int(p.price)));
    assert(fget(fs, "id"@) == Some(JsonSpec::Str(p.id)));
    assert(fget(fs, "donations"@) == Some(JsonSpec::Int(p.donations)));
    assert(fget(fs, "title"@) == Some(JsonSpec::Str(p.title)));
    match p.data {
        Some(ds) => {
            assert forall|i: int| 0 <= i < ds.len() implies data_json_ok(data_to_json(ds[i]))
                && data_of_json(data_to_json(ds[i])) == ds[i] by {
                lemma_data_round_trip(ds[i]);
            }
            assert(datas_of_json(datas_to_json(ds)) =~= ds);
        },
        None => {},
    }
    assert forall|i: int| 0 <= i < p.teaser.len() implies teaser_json_ok(
        teaser_to_json(p.teaser[i]),
    ) && teaser_of_json(teaser_to_json(p.teaser[i])) == p.teaser[i] by {
        lemma_teaser_round_trip(p.teaser[i]);
    }
    assert(teasers_of_json(teasers_to_json(p.teaser)) =~= p.teaser);
    assert(post_of_json(post_to_json(p)) =~= p);
}

/// Serializing a whole response and parsing it back recovers it exactly:
/// every post, in order, field for field.
pub proof fn lemma_response_round_trip(r: ResponseSpec)
    requires
        r.wf(),
    ensures
        response_json_ok(response_to_json(r)),
        response_of_json(response_to_json(r)) == r,
{
    reveal_strlit("data");
    assert(key_sig("data"@) == (4int, 'd', 'a', ' '));
    reveal_with_fuel(crate::json::fget_from, 3);
    let fs = (match response_to_json(r) {
        JsonSpec::Obj(fs) => fs,
        _ => Seq::empty(),
    });
    assert(fget(fs, "data"@) == Some(JsonSpec::Arr(posts_to_json(r.data))));
    assert forall|i: int| 0 <= i < r.data.len() implies post_json_ok(post_to_json(r.data[i]))
        && post_of_json(post_to_json(r.data[i])) == r.data[i] by {
        lemma_post_round_trip(r.data[i]);
    }
    assert(posts_of_json(posts_to_json(r.data)) =~= r.data);
    assert(response_of_json(response_to_json(r)) =~= r);
}

/// A teaser parsed from any matching document is well formed.
pub proof fn lemma_teaser_of_json_wf(j: JsonSpec)
    requires
        teaser_json_ok(j),
    ensures
        teaser_of_json(j).wf(),
{
}

/// A content block parsed from any matching document is well formed.
pub proof fn lemma_data_of_json_wf(j: JsonSpec)
    requires
        data_json_ok(j),
    ensures
        data_of_json(j).wf(),
{
}

/// Counters parsed from any matching document are well formed.
pub proof fn lemma_count_of_json_wf(j: JsonSpec)
    requires
        count_json_ok(j),
    ensures
        count_of_json(j).wf(),
{
}

/// A post parsed from any matching document is well formed, down through
/// its nested blocks.
pub proof fn lemma_post_of_json_wf(j: JsonSpec)
    requires
        post_json_ok(j),
    ensures
        post_of_json(j).wf(),
{
    let fs = (match j {
        JsonSpec::Obj(fs) => fs,
        _ => Seq::empty(),
    });
    let cj = (match fget(fs, "count"@) {
        Some(cj) => cj,
        None => JsonSpec::Null,
    });
    lemma_count_of_json_wf(cj);
    match fget(fs, "data"@) {
        Some(JsonSpec::Arr(items)) => {
            assert forall|i: int| 0 <= i < items.len() implies datas_of_json(items)[i].wf() by {
                lemma_data_of_json_wf(items[i]);
            }
        },
        _ => {},
    }
    let titems = farr(fs, "teaser"@);
    assert forall|i: int| 0 <= i < titems.len() implies teasers_of_json(titems)[i].wf() by {
        lemma_teaser_of_json_wf(titems[i]);
    }
}

/// A response parsed from any matching document is well formed.
pub proof fn lemma_response_of_json_wf(j: JsonSpec)
    requires
        response_json_ok(j),
    ensures
        response_of_json(j).wf(),
{
    let fs = (match j {
        JsonSpec::Obj(fs) => fs,
        _ => Seq::empty(),
    });
    let items = farr(fs, "data"@);
    assert forall|i: int| 0 <= i < items.len() implies posts_of_json(items)[i].wf() by {
        lemma_post_of_json_wf(items[i]);
    }
}

/// Parsing any body that matches the response schema and re-serializing the
/// result loses nothing: the serialized document matches the schema again
/// and parses back to the very same response, field for field.
pub proof fn lemma_parse_then_serialize_round_trip(j: JsonSpec)
    requires
        response_json_ok(j),
    ensures
        response_json_ok(response_to_json(response_of_json(j))),
        response_of_json(response_to_json(response_of_json(j))) == response_of_json(j),
{
    lemma_response_of_json_wf(j);
    lemma_response_round_trip(response_of_json(j));
}

} // verus!
