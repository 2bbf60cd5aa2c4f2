/// Error taxonomy of the image-board client
pub mod error;

use crate::http::client::{Headers, HttpClient, Query};
use crate::json::{
    arr_view, dec_i128, dec_int, farr, fget, fi64, fields_view, fis_arr, fis_i64, fis_str, fopt_i64,
    fopt_i64_ok, fstr, json_parse, jv_view, key_sig, opt_i64_view, lemma_arr_view, lemma_fields_view, lookup, opt_i64,
    parse_json, req_arr, req_i64, req_str, JsonError, JsonSpec, JsonValue,
};
use error::GelbooruError;
use std::collections::HashMap;
use vstd::prelude::*;
use vstd::string::StringExecFns;

verus! {

/// Post rating, like `Explicit` is totally NSFW, `Sensitive` is near NSFW
/// and `General` is SFW. On the wire it is the lower-case name; any other
/// value is a deserialization failure, never a default.
#[derive(Debug, Clone, Copy, PartialEq, Eq, Structural)]
pub enum Rating {
    /// General rating (SFW)
    General,
    /// Sensitive rating (Almost NSFW)
    Sensitive,
    /// Explicit rating (NSFW)
    Explicit,
    /// Questionable
    Questionable,
}

/// The wire text of a rating.
pub open spec fn rating_str(r: Rating) -> Seq<char> {
    match r {
        Rating::General => "general"@,
        Rating::Sensitive => "sensitive"@,
        Rating::Explicit => "explicit"@,
        Rating::Questionable => "questionable"@,
    }
}

/// The rating a wire text denotes, or `None` for an unknown value.
pub open spec fn rating_of_str(s: Seq<char>) -> Option<Rating> {
    if s == "general"@ {
        Some(Rating::General)
    } else if s == "sensitive"@ {
        Some(Rating::Sensitive)
    } else if s == "explicit"@ {
        Some(Rating::Explicit)
    } else if s == "questionable"@ {
        Some(Rating::Questionable)
    } else {
        None
    }
}

impl Rating {
    /// The rating named by `s`, or `None` for any unknown value.
    pub fn parse(s: &String) -> (r: Option<Rating>)
        ensures
            r == rating_of_str(s@),
    {
        if *s == String::from_str("general") {
            Some(Rating::General)
        } else if *s == String::from_str("sensitive") {
            Some(Rating::Sensitive)
        } else if *s == String::from_str("explicit") {
            Some(Rating::Explicit)
        } else if *s == String::from_str("questionable") {
            Some(Rating::Questionable)
        } else {
            None
        }
    }

    /// The wire text of this rating.
    pub fn as_str(self) -> (s: &'static str)
        ensures
            s@ == rating_str(self),
    {
        match self {
            Rating::General => "general",
            Rating::Sensitive => "sensitive",
            Rating::Explicit => "explicit",
            Rating::Questionable => "questionable",
        }
    }
}

/// Gelbooru post struct
#[derive(Debug, Clone, PartialEq, Eq)]
pub struct Post {
    /// Post ID
    pub id: i64,
    /// Post creation date, for example "Sat Dec 14 04:00:44 -0600 2024"
    pub created_at: String,
    /// Post score
    pub score: i64,
    /// Width of image in `file_url`
    pub width: i64,
    /// Height of image in `file_url`
    pub height: i64,
    /// MD5 hash of post
    pub md5: String,
    /// Gelbooru directory where image is stored
    pub directory: String,
    /// Image filename
    pub image: String,
    /// Image rating
    pub rating: Rating,
    /// Image source (link to original post, author)
    pub source: String,
    /// Post edit UNIX date
    pub change: Option<i64>,
    /// Post owner on Gelbooru
    pub owner: String,
    /// Post creator ID on Gelbooru
    pub creator_id: i64,
    /// Post parent ID, 0 if no parent post
    pub parent_id: i64,
    /// Does this post have sample image
    pub sample: i64,
    /// Preview image height
    pub preview_height: i64,
    /// Preview image width
    pub preview_width: i64,
    /// Post tags
    pub tags: String,
    /// Post title
    pub title: String,
    /// Does the post has notes (true/false but in String)
    pub has_notes: String,
    /// Does the post has comments (true/false but in String)
    pub has_comments: String,
    /// Original, full-size image url
    pub file_url: String,
    /// Preview url
    pub preview_url: String,
    /// Sample url
    pub sample_url: String,
    /// Sample image height
    pub sample_height: i64,
    /// Sample image width
    pub sample_width: i64,
    /// Post status
    pub status: String,
    /// Is the post locked
    pub post_locked: i64,
    /// Does the post has children
    pub has_children: String,
}

/// Mathematical model of a `Post`.
#[verifier::ext_equal]
pub struct PostSpec {
    pub id: int,
    pub created_at: Seq<char>,
    pub score: int,
    pub width: int,
    pub height: int,
    pub md5: Seq<char>,
    pub directory: Seq<char>,
    pub image: Seq<char>,
    pub rating: Rating,
    pub source: Seq<char>,
    pub change: Option<int>,
    pub owner: Seq<char>,
    pub creator_id: int,
    pub parent_id: int,
    pub sample: int,
    pub preview_height: int,
    pub preview_width: int,
    pub tags: Seq<char>,
    pub title: Seq<char>,
    pub has_notes: Seq<char>,
    pub has_comments: Seq<char>,
    pub file_url: Seq<char>,
    pub preview_url: Seq<char>,
    pub sample_url: Seq<char>,
    pub sample_height: int,
    pub sample_width: int,
    pub status: Seq<char>,
    pub post_locked: int,
    pub has_children: Seq<char>,
}

impl PostSpec {
    /// Every numeric field fits the machine type that carries it.
    pub open spec fn wf(self) -> bool {
        &&& i64::MIN <= self.id <= i64::MAX
        &&& i64::MIN <= self.score <= i64::MAX
        &&& i64::MIN <= self.width <= i64::MAX
        &&& i64::MIN <= self.height <= i64::MAX
        &&& (match self.change {
            Some(c) => i64::MIN <= c <= i64::MAX,
            None => true,
        })
        &&& i64::MIN <= self.creator_id <= i64::MAX
        &&& i64::MIN <= self.parent_id <= i64::MAX
        &&& i64::MIN <= self.sample <= i64::MAX
        &&& i64::MIN <= self.preview_height <= i64::MAX
        &&& i64::MIN <= self.preview_width <= i64::MAX
        &&& i64::MIN <= self.sample_height <= i64::MAX
        &&& i64::MIN <= self.sample_width <= i64::MAX
        &&& i64::MIN <= self.post_locked <= i64::MAX
    }
}

impl View for Post {
    type V = PostSpec;

    open spec fn view(&self) -> PostSpec {
        PostSpec {
            id: self.id as int,
            created_at: self.created_at@,
            score: self.score as int,
            width: self.width as int,
            height: self.height as int,
            md5: self.md5@,
            directory: self.directory@,
            image: self.image@,
            rating: self.rating,
            source: self.source@,
            change: opt_i64_view(self.change),
            owner: self.owner@,
            creator_id: self.creator_id as int,
            parent_id: self.parent_id as int,
            sample: self.sample as int,
            preview_height: self.preview_height as int,
            preview_width: self.preview_width as int,
            tags: self.tags@,
            title: self.title@,
            has_notes: self.has_notes@,
            has_comments: self.has_comments@,
            file_url: self.file_url@,
            preview_url: self.preview_url@,
            sample_url: self.sample_url@,
            sample_height: self.sample_height as int,
            sample_width: self.sample_width as int,
            status: self.status@,
            post_locked: self.post_locked as int,
            has_children: self.has_children@,
        }
    }
}

/// Whether a document matches the post schema: an object with every required
/// field present and of the right type, and a known rating value.
pub open spec fn post_json_ok(j: JsonSpec) -> bool {
    match j {
        JsonSpec::Obj(fs) => {
            &&& fis_i64(fs, "id"@)
            &&& fis_str(fs, "created_at"@)
            &&& fis_i64(fs, "score"@)
            &&& fis_i64(fs, "width"@)
            &&& fis_i64(fs, "height"@)
            &&& fis_str(fs, "md5"@)
            &&& fis_str(fs, "directory"@)
            &&& fis_str(fs, "image"@)
            &&& fis_str(fs, "rating"@)
            &&& rating_of_str(fstr(fs, "rating"@)) is Some
            &&& fis_str(fs, "source"@)
            &&& fopt_i64_ok(fs, "change"@)
            &&& fis_str(fs, "owner"@)
            &&& fis_i64(fs, "creator_id"@)
            &&& fis_i64(fs, "parent_id"@)
            &&& fis_i64(fs, "sample"@)
            &&& fis_i64(fs, "preview_height"@)
            &&& fis_i64(fs, "preview_width"@)
            &&& fis_str(fs, "tags"@)
            &&& fis_str(fs, "title"@)
            &&& fis_str(fs, "has_notes"@)
            &&& fis_str(fs, "has_comments"@)
            &&& fis_str(fs, "file_url"@)
            &&& fis_str(fs, "preview_url"@)
            &&& fis_str(fs, "sample_url"@)
            &&& fis_i64(fs, "sample_height"@)
            &&& fis_i64(fs, "sample_width"@)
            &&& fis_str(fs, "status"@)
            &&& fis_i64(fs, "post_locked"@)
            &&& fis_str(fs, "has_children"@)
        },
        _ => false,
    }
}

/// The post a matching document denotes.
pub open spec fn post_of_json(j: JsonSpec) -> PostSpec
    recommends
        post_json_ok(j),
{
    let fs = (match j {
        JsonSpec::Obj(fs) => fs,
        _ => Seq::empty(),
    });
    PostSpec {
        id: fi64(fs, "id"@),
        created_at: fstr(fs, "created_at"@),
        score: fi64(fs, "score"@),
        width: fi64(fs, "width"@),
        height: fi64(fs, "height"@),
        md5: fstr(fs, "md5"@),
        directory: fstr(fs, "directory"@),
        image: fstr(fs, "image"@),
        rating: (match rating_of_str(fstr(fs, "rating"@)) {
            Some(r) => r,
            None => Rating::General,
        }),
        source: fstr(fs, "source"@),
        change: fopt_i64(fs, "change"@),
        owner: fstr(fs, "owner"@),
        creator_id: fi64(fs, "creator_id"@),
        parent_id: fi64(fs, "parent_id"@),
        sample: fi64(fs, "sample"@),
        preview_height: fi64(fs, "preview_height"@),
        preview_width: fi64(fs, "preview_width"@),
        tags: fstr(fs, "tags"@),
        title: fstr(fs, "title"@),
        has_notes: fstr(fs, "has_notes"@),
        has_comments: fstr(fs, "has_comments"@),
        file_url: fstr(fs, "file_url"@),
        preview_url: fstr(fs, "preview_url"@),
        sample_url: fstr(fs, "sample_url"@),
        sample_height: fi64(fs, "sample_height"@),
        sample_width: fi64(fs, "sample_width"@),
        status: fstr(fs, "status"@),
        post_locked: fi64(fs, "post_locked"@),
        has_children: fstr(fs, "has_children"@),
    }
}

/// The document a post serializes to.
pub open spec fn post_to_json(p: PostSpec) -> JsonSpec {
    JsonSpec::Obj(
        seq![
            ("id"@, JsonSpec::Int(p.id)),
            ("created_at"@, JsonSpec::Str(p.created_at)),
            ("score"@, JsonSpec::Int(p.score)),
            ("width"@, JsonSpec::Int(p.width)),
            ("height"@, JsonSpec::Int(p.height)),
            ("md5"@, JsonSpec::Str(p.md5)),
            ("directory"@, JsonSpec::Str(p.directory)),
            ("image"@, JsonSpec::Str(p.image)),
            ("rating"@, JsonSpec::Str(rating_str(p.rating))),
            ("source"@, JsonSpec::Str(p.source)),
            (
                "change"@,
                match p.change {
                    Some(c) => JsonSpec::Int(c),
                    None => JsonSpec::Null,
                },
            ),
            ("owner"@, JsonSpec::Str(p.owner)),
            ("creator_id"@, JsonSpec::Int(p.creator_id)),
            ("parent_id"@, JsonSpec::Int(p.parent_id)),
            ("sample"@, JsonSpec::Int(p.sample)),
            ("preview_height"@, JsonSpec::Int(p.preview_height)),
            ("preview_width"@, JsonSpec::Int(p.preview_width)),
            ("tags"@, JsonSpec::Str(p.tags)),
            ("title"@, JsonSpec::Str(p.title)),
            ("has_notes"@, JsonSpec::Str(p.has_notes)),
            ("has_comments"@, JsonSpec::Str(p.has_comments)),
            ("file_url"@, JsonSpec::Str(p.file_url)),
            ("preview_url"@, JsonSpec::Str(p.preview_url)),
            ("sample_url"@, JsonSpec::Str(p.sample_url)),
            ("sample_height"@, JsonSpec::Int(p.sample_height)),
            ("sample_width"@, JsonSpec::Int(p.sample_width)),
            ("status"@, JsonSpec::Str(p.status)),
            ("post_locked"@, JsonSpec::Int(p.post_locked)),
            ("has_children"@, JsonSpec::Str(p.has_children)),
        ],
    )
}

impl Post {
    /// The post a document denotes, or a schema error where it matches no
    /// post: a missing or mistyped field, or an unknown rating value.
    pub fn from_json(v: &JsonValue) -> (r: Result<Post, JsonError>)
        ensures
            match r {
                Ok(p) => post_json_ok(v@) && p@ == post_of_json(v@),
                Err(e) => !post_json_ok(v@) && e == JsonError::Schema,
            },
    {
        match v {
            JsonValue::Obj(fields) => {
                let id = match req_i64(fields, "id") {
                    Ok(x) => x,
                    Err(e) => { return Err(e); },
                };
                let created_at = match req_str(fields, "created_at") {
                    Ok(x) => x,
                    Err(e) => { return Err(e); },
                };
                let score = match req_i64(fields, "score") {
                    Ok(x) => x,
                    Err(e) => { return Err(e); },
                };
                let width = match req_i64(fields, "width") {
                    Ok(x) => x,
                    Err(e) => { return Err(e); },
                };
                let height = match req_i64(fields, "height") {
                    Ok(x) => x,
                    Err(e) => { return Err(e); },
                };
                let md5 = match req_str(fields, "md5") {
                    Ok(x) => x,
                    Err(e) => { return Err(e); },
                };
                let directory = match req_str(fields, "directory") {
                    Ok(x) => x,
                    Err(e) => { return Err(e); },
                };
                let image = match req_str(fields, "image") {
                    Ok(x) => x,
                    Err(e) => { return Err(e); },
                };
                let rating_text = match req_str(fields, "rating") {
                    Ok(x) => x,
                    Err(e) => { return Err(e); },
                };
                let rating = match Rating::parse(&rating_text) {
                    Some(r) => r,
                    None => { return Err(JsonError::Schema); },
                };
                let source = match req_str(fields, "source") {
                    Ok(x) => x,
                    Err(e) => { return Err(e); },
                };
                let change = match opt_i64(fields, "change") {
                    Ok(x) => x,
                    Err(e) => { return Err(e); },
                };
                let owner = match req_str(fields, "owner") {
                    Ok(x) => x,
                    Err(e) => { return Err(e); },
                };
                let creator_id = match req_i64(fields, "creator_id") {
                    Ok(x) => x,
                    Err(e) => { return Err(e); },
                };
                let parent_id = match req_i64(fields, "parent_id") {
                    Ok(x) => x,
                    Err(e) => { return Err(e); },
                };
                let sample = match req_i64(fields, "sample") {
                    Ok(x) => x,
                    Err(e) => { return Err(e); },
                };
                let preview_height = match req_i64(fields, "preview_height") {
                    Ok(x) => x,
                    Err(e) => { return Err(e); },
                };
                let preview_width = match req_i64(fields, "preview_width") {
                    Ok(x) => x,
                    Err(e) => { return Err(e); },
                };
                let tags = match req_str(fields, "tags") {
                    Ok(x) => x,
                    Err(e) => { return Err(e); },
                };
                let title = match req_str(fields, "title") {
                    Ok(x) => x,
                    Err(e) => { return Err(e); },
                };
                let has_notes = match req_str(fields, "has_notes") {
                    Ok(x) => x,
                    Err(e) => { return Err(e); },
                };
                let has_comments = match req_str(fields, "has_comments") {
                    Ok(x) => x,
                    Err(e) => { return Err(e); },
                };
                let file_url = match req_str(fields, "file_url") {
                    Ok(x) => x,
                    Err(e) => { return Err(e); },
                };
                let preview_url = match req_str(fields, "preview_url") {
                    Ok(x) => x,
                    Err(e) => { return Err(e); },
                };
                let sample_url = match req_str(fields, "sample_url") {
                    Ok(x) => x,
                    Err(e) => { return Err(e); },
                };
                let sample_height = match req_i64(fields, "sample_height") {
                    Ok(x) => x,
                    Err(e) => { return Err(e); },
                };
                let sample_width = match req_i64(fields, "sample_width") {
                    Ok(x) => x,
                    Err(e) => { return Err(e); },
                };
                let status = match req_str(fields, "status") {
                    Ok(x) => x,
                    Err(e) => { return Err(e); },
                };
                let post_locked = match req_i64(fields, "post_locked") {
                    Ok(x) => x,
                    Err(e) => { return Err(e); },
                };
                let has_children = match req_str(fields, "has_children") {
                    Ok(x) => x,
                    Err(e) => { return Err(e); },
                };
                let p = Post {
                    id,
                    created_at,
                    score,
                    width,
                    height,
                    md5,
                    directory,
                    image,
                    rating,
                    source,
                    change,
                    owner,
                    creator_id,
                    parent_id,
                    sample,
                    preview_height,
                    preview_width,
                    tags,
                    title,
                    has_notes,
                    has_comments,
                    file_url,
                    preview_url,
                    sample_url,
                    sample_height,
                    sample_width,
                    status,
                    post_locked,
                    has_children,
                };
                proof {
                    assert(p@ =~= post_of_json(v@));
                }
                Ok(p)
            },
            _ => Err(JsonError::Schema),
        }
    }

    /// The document this post serializes to.
    #[verifier::rlimit(60)]
    pub fn to_json(&self) -> (r: JsonValue)
        ensures
            r@ == post_to_json(self@),
    {
        let mut fields: Vec<(String, JsonValue)> = Vec::new();
        fields.push((String::from_str("id"), JsonValue::Int(self.id as i128)));
        fields.push((String::from_str("created_at"), JsonValue::Str(self.created_at.clone())));
        fields.push((String::from_str("score"), JsonValue::Int(self.score as i128)));
        fields.push((String::from_str("width"), JsonValue::Int(self.width as i128)));
        fields.push((String::from_str("height"), JsonValue::Int(self.height as i128)));
        fields.push((String::from_str("md5"), JsonValue::Str(self.md5.clone())));
        fields.push((String::from_str("directory"), JsonValue::Str(self.directory.clone())));
        fields.push((String::from_str("image"), JsonValue::Str(self.image.clone())));
        fields.push(
            (String::from_str("rating"), JsonValue::Str(String::from_str(self.rating.as_str()))),
        );
        fields.push((String::from_str("source"), JsonValue::Str(self.source.clone())));
        let change_v = match self.change {
            Some(c) => JsonValue::Int(c as i128),
            None => JsonValue::Null,
        };
        fields.push((String::from_str("change"), change_v));
        fields.push((String::from_str("owner"), JsonValue::Str(self.owner.clone())));
        fields.push((String::from_str("creator_id"), JsonValue::Int(self.creator_id as i128)));
        fields.push((String::from_str("parent_id"), JsonValue::Int(self.parent_id as i128)));
        fields.push((String::from_str("sample"), JsonValue::Int(self.sample as i128)));
        fields.push(
            (String::from_str("preview_height"), JsonValue::Int(self.preview_height as i128)),
        );
        fields.push(
            (String::from_str("preview_width"), JsonValue::Int(self.preview_width as i128)),
        );
        fields.push((String::from_str("tags"), JsonValue::Str(self.tags.clone())));
        fields.push((String::from_str("title"), JsonValue::Str(self.title.clone())));
        fields.push((String::from_str("has_notes"), JsonValue::Str(self.has_notes.clone())));
        fields.push(
            (String::from_str("has_comments"), JsonValue::Str(self.has_comments.clone())),
        );
        fields.push((String::from_str("file_url"), JsonValue::Str(self.file_url.clone())));
        fields.push((String::from_str("preview_url"), JsonValue::Str(self.preview_url.clone())));
        fields.push((String::from_str("sample_url"), JsonValue::Str(self.sample_url.clone())));
        fields.push(
            (String::from_str("sample_height"), JsonValue::Int(self.sample_height as i128)),
        );
        fields.push(
            (String::from_str("sample_width"), JsonValue::Int(self.sample_width as i128)),
        );
        fields.push((String::from_str("status"), JsonValue::Str(self.status.clone())));
        fields.push((String::from_str("post_locked"), JsonValue::Int(self.post_locked as i128)));
        fields.push(
            (String::from_str("has_children"), JsonValue::Str(self.has_children.clone())),
        );
        let r = JsonValue::Obj(fields);
        proof {
            lemma_fields_view(fields@);
            let target = (match post_to_json(self@) {
                JsonSpec::Obj(fs) => fs,
                _ => Seq::empty(),
            });
            assert(fields_view(fields@) =~= target);
            assert(r@ == post_to_json(self@));
        }
        r
    }
}

/// Gelbooru post attributes
#[derive(Debug, Clone, PartialEq, Eq)]
pub struct Attributes {
    /// Count of posts on this page (in this response)
    pub limit: i64,
    /// Post offset
    pub offset: i64,
    /// Count of posts to return
    pub count: i64,
}

/// Mathematical model of `Attributes`.
#[verifier::ext_equal]
pub struct AttributesSpec {
    pub limit: int,
    pub offset: int,
    pub count: int,
}

impl AttributesSpec {
    /// Every field fits the machine type that carries it.
    pub open spec fn wf(self) -> bool {
        &&& i64::MIN <= self.limit <= i64::MAX
        &&& i64::MIN <= self.offset <= i64::MAX
        &&& i64::MIN <= self.count <= i64::MAX
    }
}

impl View for Attributes {
    type V = AttributesSpec;

    open spec fn view(&self) -> AttributesSpec {
        AttributesSpec {
            limit: self.limit as int,
            offset: self.offset as int,
            count: self.count as int,
        }
    }
}

/// Whether a document matches the attributes schema.
pub open spec fn attributes_json_ok(j: JsonSpec) -> bool {
    match j {
        JsonSpec::Obj(fs) => {
            &&& fis_i64(fs, "limit"@)
            &&& fis_i64(fs, "offset"@)
            &&& fis_i64(fs, "count"@)
        },
        _ => false,
    }
}

/// The attributes a matching document denotes.
pub open spec fn attributes_of_json(j: JsonSpec) -> AttributesSpec
    recommends
        attributes_json_ok(j),
{
    let fs = (match j {
        JsonSpec::Obj(fs) => fs,
        _ => Seq::empty(),
    });
    AttributesSpec {
        limit: fi64(fs, "limit"@),
        offset: fi64(fs, "offset"@),
        count: fi64(fs, "count"@),
    }
}

/// The document attributes serialize to.
pub open spec fn attributes_to_json(a: AttributesSpec) -> JsonSpec {
    JsonSpec::Obj(
        seq![
            ("limit"@, JsonSpec::Int(a.limit)),
            ("offset"@, JsonSpec::Int(a.offset)),
            ("count"@, JsonSpec::Int(a.count)),
        ],
    )
}

impl Attributes {
    /// The attributes a document denotes, or a schema error.
    pub fn from_json(v: &JsonValue) -> (r: Result<Attributes, JsonError>)
        ensures
            match r {
                Ok(a) => attributes_json_ok(v@) && a@ == attributes_of_json(v@),
                Err(e) => !attributes_json_ok(v@) && e == JsonError::Schema,
            },
    {
        match v {
            JsonValue::Obj(fields) => {
                let limit = match req_i64(fields, "limit") {
                    Ok(x) => x,
                    Err(e) => { return Err(e); },
                };
                let offset = match req_i64(fields, "offset") {
                    Ok(x) => x,
                    Err(e) => { return Err(e); },
                };
                let count = match req_i64(fields, "count") {
                    Ok(x) => x,
                    Err(e) => { return Err(e); },
                };
                let a = Attributes { limit, offset, count };
                proof {
                    assert(a@ =~= attributes_of_json(v@));
                }
                Ok(a)
            },
            _ => Err(JsonError::Schema),
        }
    }

    /// The document these attributes serialize to.
    pub fn to_json(&self) -> (r: JsonValue)
        ensures
            r@ == attributes_to_json(self@),
    {
        let mut fields: Vec<(String, JsonValue)> = Vec::new();
        fields.push((String::from_str("limit"), JsonValue::Int(self.limit as i128)));
        fields.push((String::from_str("offset"), JsonValue::Int(self.offset as i128)));
        fields.push((String::from_str("count"), JsonValue::Int(self.count as i128)));
        let r = JsonValue::Obj(fields);
        proof {
            lemma_fields_view(fields@);
            let target = (match attributes_to_json(self@) {
                JsonSpec::Obj(fs) => fs,
                _ => Seq::empty(),
            });
            assert(fields_view(fields@) =~= target);
        }
        r
    }
}

/// Gelbooru response
#[derive(Debug, Clone, PartialEq, Eq)]
pub struct Response {
    /// Response attributes, like `limit`, `offset` and `count`; the wire
    /// carries them under the key `@attributes`
    pub attributes: Attributes,
    /// Vector of `Post`
    pub post: Vec<Post>,
}

pub open spec fn posts_view(s: Seq<Post>) -> Seq<PostSpec> {
    s.map_values(|p: Post| p@)
}

/// Mathematical model of a `Response`.
#[verifier::ext_equal]
pub struct ResponseSpec {
    pub attributes: AttributesSpec,
    pub post: Seq<PostSpec>,
}

impl ResponseSpec {
    pub open spec fn wf(self) -> bool {
        &&& self.attributes.wf()
        &&& forall|i: int| 0 <= i < self.post.len() ==> self.post[i].wf()
    }
}

impl View for Response {
    type V = ResponseSpec;

    open spec fn view(&self) -> ResponseSpec {
        ResponseSpec { attributes: self.attributes@, post: posts_view(self.post@) }
    }
}

pub open spec fn posts_json_ok(items: Seq<JsonSpec>) -> bool {
    forall|i: int| 0 <= i < items.len() ==> post_json_ok(items[i])
}

pub open spec fn posts_of_json(items: Seq<JsonSpec>) -> Seq<PostSpec> {
    items.map_values(|x: JsonSpec| post_of_json(x))
}

pub open spec fn posts_to_json(ps: Seq<PostSpec>) -> Seq<JsonSpec> {
    ps.map_values(|p: PostSpec| post_to_json(p))
}

/// Whether a document matches the response schema: an object whose
/// `@attributes` member matches the attributes schema and whose `post`
/// member is an array of matching posts.
pub open spec fn response_json_ok(j: JsonSpec) -> bool {
    match j {
        JsonSpec::Obj(fs) => {
            &&& (fget(fs, "@attributes"@) matches Some(aj) && attributes_json_ok(aj))
            &&& fis_arr(fs, "post"@)
            &&& posts_json_ok(farr(fs, "post"@))
        },
        _ => false,
    }
}

/// The response a matching document denotes.
pub open spec fn response_of_json(j: JsonSpec) -> ResponseSpec
    recommends
        response_json_ok(j),
{
    let fs = (match j {
        JsonSpec::Obj(fs) => fs,
        _ => Seq::empty(),
    });
    let aj = (match fget(fs, "@attributes"@) {
        Some(aj) => aj,
        None => JsonSpec::Null,
    });
    ResponseSpec {
        attributes: attributes_of_json(aj),
        post: posts_of_json(farr(fs, "post"@)),
    }
}

/// The document a response serializes to.
pub open spec fn response_to_json(r: ResponseSpec) -> JsonSpec {
    JsonSpec::Obj(
        seq![
            ("@attributes"@, attributes_to_json(r.attributes)),
            ("post"@, JsonSpec::Arr(posts_to_json(r.post))),
        ],
    )
}

impl Response {
    /// The response a document denotes, or a schema error where any part of
    /// it does not match.
    pub fn from_json(v: &JsonValue) -> (r: Result<Response, JsonError>)
        ensures
            match r {
                Ok(resp) => response_json_ok(v@) && resp@ == response_of_json(v@),
                Err(e) => !response_json_ok(v@) && e == JsonError::Schema,
            },
    {
        match v {
            JsonValue::Obj(fields) => {
                let aref = match lookup(fields, "@attributes") {
                    Some(a) => a,
                    None => { return Err(JsonError::Schema); },
                };
                let attributes = match Attributes::from_json(aref) {
                    Ok(a) => a,
                    Err(e) => { return Err(e); },
                };
                let items = match req_arr(fields, "post") {
                    Ok(a) => a,
                    Err(e) => { return Err(e); },
                };
                let ghost iv = arr_view(items@);
                proof {
                    lemma_arr_view(items@);
                }
                let n = items.len();
                let mut posts: Vec<Post> = Vec::new();
                let mut i: usize = 0;
                while i < n
                    invariant
                        n == items.len(),
                        iv == arr_view(items@),
                        iv.len() == n,
                        forall|j: int| 0 <= j < n ==> iv[j] == jv_view(items@[j]),
                        0 <= i <= n,
                        posts@.len() == i,
                        forall|j: int| 0 <= j < i ==> post_json_ok(iv[j]),
                        forall|j: int| 0 <= j < i ==> posts@[j]@ == post_of_json(iv[j]),
                        v@ == JsonSpec::Obj(fields_view(fields@)),
                        fis_arr(fields_view(fields@), "post"@),
                        iv == farr(fields_view(fields@), "post"@),
                        (fget(fields_view(fields@), "@attributes"@) matches Some(aj)
                            && attributes_json_ok(aj) && attributes@ == attributes_of_json(aj)),
                    decreases n - i,
                {
                    let p = match Post::from_json(&items[i]) {
                        Ok(p) => p,
                        Err(_) => {
                            proof {
                                assert(!post_json_ok(iv[i as int]));
                                assert(!posts_json_ok(iv));
                            }
                            return Err(JsonError::Schema);
                        },
                    };
                    posts.push(p);
                    i += 1;
                }
                let resp = Response { attributes, post: posts };
                proof {
                    assert(posts_view(posts@) =~= posts_of_json(iv));
                    assert(resp@ =~= response_of_json(v@));
                }
                Ok(resp)
            },
            _ => Err(JsonError::Schema),
        }
    }

    /// The document this response serializes to.
    pub fn to_json(&self) -> (r: JsonValue)
        ensures
            r@ == response_to_json(self@),
    {
        let attributes_json = self.attributes.to_json();
        let n = self.post.len();
        let mut arr: Vec<JsonValue> = Vec::new();
        let mut i: usize = 0;
        while i < n
            invariant
                n == self.post.len(),
                0 <= i <= n,
                arr@.len() == i,
                forall|j: int| 0 <= j < i ==> jv_view(arr@[j]) == post_to_json(self.post@[j]@),
            decreases n - i,
        {
            arr.push(self.post[i].to_json());
            i += 1;
        }
        proof {
            lemma_arr_view(arr@);
            assert(arr_view(arr@) =~= posts_to_json(posts_view(self.post@)));
        }
        let mut fields: Vec<(String, JsonValue)> = Vec::new();
        fields.push((String::from_str("@attributes"), attributes_json));
        fields.push((String::from_str("post"), JsonValue::Arr(arr)));
        let r = JsonValue::Obj(fields);
        proof {
            lemma_fields_view(fields@);
            let target = (match response_to_json(self@) {
                JsonSpec::Obj(fs) => fs,
                _ => Seq::empty(),
            });
            assert(fields_view(fields@) =~= target);
        }
        r
    }
}

/// Serializing attributes and parsing them back recovers them exactly.
pub proof fn lemma_attributes_round_trip(a: AttributesSpec)
    requires
        a.wf(),
    ensures
        attributes_json_ok(attributes_to_json(a)),
        attributes_of_json(attributes_to_json(a)) == a,
{
    reveal_strlit("limit");
    reveal_strlit("offset");
    reveal_strlit("count");
    assert(key_sig("limit"@) == (5int, 'l', 'i', ' '));
    assert(key_sig("offset"@) == (6int, 'o', 'f', 't'));
    assert(key_sig("count"@) == (5int, 'c', 'o', ' '));
    reveal_with_fuel(crate::json::fget_from, 5);
    let fs = (match attributes_to_json(a) {
        JsonSpec::Obj(fs) => fs,
        _ => Seq::empty(),
    });
    assert(fget(fs, "limit"@) == Some(JsonSpec::Int(a.limit)));
    assert(fget(fs, "offset"@) == Some(JsonSpec::Int(a.offset)));
    assert(fget(fs, "count"@) == Some(JsonSpec::Int(a.count)));
    assert(attributes_of_json(attributes_to_json(a)) =~= a);
}

/// Serializing a post and parsing it back recovers the post exactly,
/// field for field; in particular the rating text written for a post is
/// always one of the four known values, so the document always parses.
#[verifier::rlimit(100)]
pub proof fn lemma_post_round_trip(p: PostSpec)
    requires
        p.wf(),
    ensures
        post_json_ok(post_to_json(p)),
        post_of_json(post_to_json(p)) == p,
{
    reveal_strlit("general");
    reveal_strlit("sensitive");
    reveal_strlit("explicit");
    reveal_strlit("questionable");
    reveal_strlit("id");
    reveal_strlit("created_at");
    reveal_strlit("score");
    reveal_strlit("width");
    reveal_strlit("height");
    reveal_strlit("md5");
    reveal_strlit("directory");
    reveal_strlit("image");
    reveal_strlit("rating");
    reveal_strlit("source");
    reveal_strlit("change");
    reveal_strlit("owner");
    reveal_strlit("creator_id");
    reveal_strlit("parent_id");
    reveal_strlit("sample");
    reveal_strlit("preview_height");
    reveal_strlit("preview_width");
    reveal_strlit("tags");
    reveal_strlit("title");
    reveal_strlit("has_notes");
    reveal_strlit("has_comments");
    reveal_strlit("file_url");
    reveal_strlit("preview_url");
    reveal_strlit("sample_url");
    reveal_strlit("sample_height");
    reveal_strlit("sample_width");
    reveal_strlit("status");
    reveal_strlit("post_locked");
    reveal_strlit("has_children");
    assert(key_sig("id"@) == (2int, 'i', 'd', ' '));
    assert(key_sig("created_at"@) == (10int, 'c', 'r', 'e'));
    assert(key_sig("score"@) == (5int, 's', 'c', ' '));
    assert(key_sig("width"@) == (5int, 'w', 'i', ' '));
    assert(key_sig("height"@) == (6int, 'h', 'e', 't'));
    assert(key_sig("md5"@) == (3int, 'm', 'd', ' '));
    assert(key_sig("directory"@) == (9int, 'd', 'i', 't'));
    assert(key_sig("image"@) == (5int, 'i', 'm', ' '));
    assert(key_sig("rating"@) == (6int, 'r', 'a', 'g'));
    assert(key_sig("source"@) == (6int, 's', 'o', 'e'));
    assert(key_sig("change"@) == (6int, 'c', 'h', 'e'));
    assert(key_sig("owner"@) == (5int, 'o', 'w', ' '));
    assert(key_sig("creator_id"@) == (10int, 'c', 'r', 'o'));
    assert(key_sig("parent_id"@) == (9int, 'p', 'a', 't'));
    assert(key_sig("sample"@) == (6int, 's', 'a', 'e'));
    assert(key_sig("preview_height"@) == (14int, 'p', 'r', 'e'));
    assert(key_sig("preview_width"@) == (13int, 'p', 'r', 'e'));
    assert(key_sig("tags"@) == (4int, 't', 'a', ' '));
    assert(key_sig("title"@) == (5int, 't', 'i', ' '));
    assert(key_sig("has_notes"@) == (9int, 'h', 'a', 'o'));
    assert(key_sig("has_comments"@) == (12int, 'h', 'a', 'o'));
    assert(key_sig("file_url"@) == (8int, 'f', 'i', 'u'));
    assert(key_sig("preview_url"@) == (11int, 'p', 'r', 'e'));
    assert(key_sig("sample_url"@) == (10int, 's', 'a', 'e'));
    assert(key_sig("sample_height"@) == (13int, 's', 'a', 'e'));
    assert(key_sig("sample_width"@) == (12int, 's', 'a', 'e'));
    assert(key_sig("status"@) == (6int, 's', 't', 's'));
    assert(key_sig("post_locked"@) == (11int, 'p', 'o', 'l'));
    assert(key_sig("has_children"@) == (12int, 'h', 'a', 'h'));
    assert(key_sig("general"@) == (7int, 'g', 'e', 'a'));
    assert(key_sig("sensitive"@) == (9int, 's', 'e', 't'));
    assert(key_sig("explicit"@) == (8int, 'e', 'x', 'c'));
    assert(key_sig("questionable"@) == (12int, 'q', 'u', 'i'));
    reveal_with_fuel(crate::json::fget_from, 31);
    let fs = (match post_to_json(p) {
        JsonSpec::Obj(fs) => fs,
        _ => Seq::empty(),
    });
    assert(fget(fs, "id"@) == Some(JsonSpec::Int(p.id)));
    assert(fget(fs, "created_at"@) == Some(JsonSpec::Str(p.created_at)));
    assert(fget(fs, "score"@) == Some(JsonSpec::Int(p.score)));
    assert(fget(fs, "width"@) == Some(JsonSpec::Int(p.width)));
    assert(fget(fs, "height"@) == Some(JsonSpec::Int(p.height)));
    assert(fget(fs, "md5"@) == Some(JsonSpec::Str(p.md5)));
    assert(fget(fs, "directory"@) == Some(JsonSpec::Str(p.directory)));
    assert(fget(fs, "image"@) == Some(JsonSpec::Str(p.image)));
    assert(fget(fs, "rating"@) == Some(JsonSpec::Str(rating_str(p.rating))));
    assert(rating_of_str(rating_str(p.rating)) == Some(p.rating));
    assert(fget(fs, "source"@) == Some(JsonSpec::Str(p.source)));
    assert(fget(fs, "change"@) == Some(
        match p.change {
            Some(c) => JsonSpec::Int(c),
            None => JsonSpec::Null,
        },
    ));
    assert(fget(fs, "owner"@) == Some(JsonSpec::Str(p.owner)));
    assert(fget(fs, "creator_id"@) == Some(JsonSpec::Int(p.creator_id)));
    assert(fget(fs, "parent_id"@) == Some(JsonSpec::Int(p.parent_id)));
    assert(fget(fs, "sample"@) == Some(JsonSpec::Int(p.sample)));
    assert(fget(fs, "preview_height"@) == Some(JsonSpec::Int(p.preview_height)));
    assert(fget(fs, "preview_width"@) == Some(JsonSpec::Int(p.preview_width)));
    assert(fget(fs, "tags"@) == Some(JsonSpec::Str(p.tags)));
    assert(fget(fs, "title"@) == Some(JsonSpec::Str(p.title)));
    assert(fget(fs, "has_notes"@) == Some(JsonSpec::Str(p.has_notes)));
    assert(fget(fs, "has_comments"@) == Some(JsonSpec::Str(p.has_comments)));
    assert(fget(fs, "file_url"@) == Some(JsonSpec::Str(p.file_url)));
    assert(fget(fs, "preview_url"@) == Some(JsonSpec::Str(p.preview_url)));
    assert(fget(fs, "sample_url"@) == Some(JsonSpec::Str(p.sample_url)));
    assert(fget(fs, "sample_height"@) == Some(JsonSpec::Int(p.sample_height)));
    assert(fget(fs, "sample_width"@) == Some(JsonSpec::Int(p.sample_width)));
    assert(fget(fs, "status"@) == Some(JsonSpec::Str(p.status)));
    assert(fget(fs, "post_locked"@) == Some(JsonSpec::Int(p.post_locked)));
    assert(fget(fs, "has_children"@) == Some(JsonSpec::Str(p.has_children)));
    assert(post_of_json(post_to_json(p)) =~= p);
}

/// Serializing a whole response and parsing it back recovers it exactly:
/// the attributes and every post, in order, field for field.
pub proof fn lemma_response_round_trip(r: ResponseSpec)
    requires
        r.wf(),
    ensures
        response_json_ok(response_to_json(r)),
        response_of_json(response_to_json(r)) == r,
{
    reveal_strlit("@attributes");
    reveal_strlit("post");
    assert(key_sig("@attributes"@) == (11int, '@', 'a', 'i'));
    assert(key_sig("post"@) == (4int, 'p', 'o', ' '));
    reveal_with_fuel(crate::json::fget_from, 4);
    lemma_attributes_round_trip(r.attributes);
    let fs = (match response_to_json(r) {
        JsonSpec::Obj(fs) => fs,
        _ => Seq::empty(),
    });
    assert(fget(fs, "@attributes"@) == Some(attributes_to_json(r.attributes)));
    assert(fget(fs, "post"@) == Some(JsonSpec::Arr(posts_to_json(r.post))));
    assert forall|i: int| 0 <= i < r.post.len() implies post_json_ok(posts_to_json(r.post)[i])
        && post_of_json(posts_to_json(r.post)[i]) == r.post[i] by {
        lemma_post_round_trip(r.post[i]);
    }
    assert(posts_of_json(posts_to_json(r.post)) =~= r.post);
    assert(response_of_json(response_to_json(r)) =~= r);
}

/// A post parsed from any matching document is well formed: every numeric
/// field fits the machine type that carries it.
pub proof fn lemma_post_of_json_wf(j: JsonSpec)
    requires
        post_json_ok(j),
    ensures
        post_of_json(j).wf(),
{
}

/// A response parsed from any matching document is well formed.
pub proof fn lemma_response_of_json_wf(j: JsonSpec)
    requires
        response_json_ok(j),
    ensures
        response_of_json(j).wf(),
{
    let fs = (match j {
        JsonSpec::Obj(fs) => fs,
        _ => Seq::empty(),
    });
    let items = farr(fs, "post"@);
    assert forall|i: int| 0 <= i < items.len() implies posts_of_json(items)[i].wf() by {
        lemma_post_of_json_wf(items[i]);
    }
}

/// Parsing any body that matches the response schema and re-serializing the
/// result loses nothing: the serialized document matches the schema again
/// and parses back to the very same response, field for field.
pub proof fn lemma_parse_then_serialize_round_trip(j: JsonSpec)
    requires
        response_json_ok(j),
    ensures
        response_json_ok(response_to_json(response_of_json(j))),
        response_of_json(response_to_json(response_of_json(j))) == response_of_json(j),
{
    lemma_response_of_json_wf(j);
    lemma_response_round_trip(response_of_json(j));
}

/// The exact URL a fetch with the given parameters requests.
pub open spec fn gelbooru_url(tags: Seq<char>, limit: int, pid: int, cid: int) -> Seq<char> {
    "https://gelbooru.com/index.php?page=dapi&s=post&q=index&tags="@ + tags + "&limit="@ + dec_int(
        limit,
    ) + "&pid="@ + dec_int(pid) + "&cid="@ + dec_int(cid) + "&json=1"@
}

/// Builds the fixed-path query URL embedding all four parameters.
pub fn gelbooru_request_url(tags: &str, limit: i8, pid: i64, cid: i64) -> (u: String)
    ensures
        u@ == gelbooru_url(tags@, limit as int, pid as int, cid as int),
{
    let mut u = String::from_str(
        "https://gelbooru.com/index.php?page=dapi&s=post&q=index&tags=",
    );
    u.append(tags);
    u.append("&limit=");
    let limit_text = dec_i128(limit as i128);
    u.append(limit_text.as_str());
    u.append("&pid=");
    let pid_text = dec_i128(pid as i128);
    u.append(pid_text.as_str());
    u.append("&cid=");
    let cid_text = dec_i128(cid as i128);
    u.append(cid_text.as_str());
    u.append("&json=1");
    proof {
        assert(u@ =~= gelbooru_url(tags@, limit as int, pid as int, cid as int));
    }
    u
}

/// Gelbooru client struct: a facade owning one transport, stateless
/// otherwise.
#[derive(Debug, Clone, Copy)]
pub struct Gelbooru<Http: HttpClient> {
    /// HTTP client to use
    pub http: Http,
}

/// What a finished fetch must look like, given what the transport answered
/// to the one GET the fetch issues: a transport failure is surfaced verbatim
/// as the transport-error variant; a body that is not JSON, or is JSON that
/// does not match the response schema, is a deserialization error; and a
/// matching body yields exactly the response it denotes.
pub open spec fn fetch_result_ok(
    r: Result<Response, GelbooruError>,
    model: Result<Seq<char>, Seq<char>>,
) -> bool {
    match model {
        Err(m) => r matches Err(GelbooruError::HttpError(e)) && e@ == m,
        Ok(body) => match json_parse(body) {
            None => r == Err::<Response, GelbooruError>(GelbooruError::SerdeError(
                JsonError::NotJson,
            )),
            Some(j) => if response_json_ok(j) {
                r matches Ok(resp) && resp@ == response_of_json(j)
            } else {
                r == Err::<Response, GelbooruError>(GelbooruError::SerdeError(JsonError::Schema))
            },
        },
    }
}

/// Gelbooru API client
impl<Http: HttpClient> Gelbooru<Http> {
    /// Returns a Gelbooru client that issues its requests through `http`.
    pub fn new(http: Http) -> (c: Gelbooru<Http>)
        ensures
            c.http == http,
    {
        Gelbooru { http }
    }

    /// Fetches post(s) from Gelbooru.
    ///
    /// # Arguments
    /// `tags` - tags to find post(s) by, meta tags such as `rating` are allowed
    /// `limit` - how much posts to return, from 1 to 100; out-of-range values
    /// are passed through verbatim and the remote service governs the result
    /// `pid` - page number
    /// `cid` - change ID of the post
    /// If not sure, set `limit` to 100 and `cid` to 0
    pub fn fetch(&self, tags: &str, limit: i8, pid: i64, cid: i64) -> (r: Result<
        Response,
        GelbooruError,
    >)
        ensures
            fetch_result_ok(
                r,
                self.http.get_model(
                    gelbooru_url(tags@, limit as int, pid as int, cid as int),
                    Map::empty(),
                    Map::empty(),
                ),
            ),
    {
        let headers: Headers = HashMap::new();
        let payload: Query = HashMap::new();
        let url = gelbooru_request_url(tags, limit, pid, cid);
        match self.http.get(url, &headers, &payload) {
            Err(e) => Err(GelbooruError::HttpError(e)),
            Ok(body) => match parse_json(body.as_str()) {
                None => Err(GelbooruError::SerdeError(JsonError::NotJson)),
                Some(doc) => match Response::from_json(&doc) {
                    Ok(response) => Ok(response),
                    Err(_) => Err(GelbooruError::SerdeError(JsonError::Schema)),
                },
            },
        }
    }

    /// Fetches post(s) from Gelbooru just by tags and page: it requests
    /// exactly what `fetch` with `limit` 100 and `cid` 0 requests, whatever
    /// the tags and page are.
    ///
    /// # Arguments
    /// `tags` - tags to find post(s) by, meta tags such as `rating` are allowed
    /// `pid` - page number
    pub fn fetch_by_tag(&self, tags: &str, pid: i64) -> (r: Result<Response, GelbooruError>)
        ensures
            fetch_result_ok(
                r,
                self.http.get_model(gelbooru_url(tags@, 100, pid as int, 0), Map::empty(), Map::empty()),
            ),
    {
        self.fetch(tags, 100, pid, 0)
    }
}


} // verus!
