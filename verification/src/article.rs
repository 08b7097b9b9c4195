//! The typed records that API responses decode to.
//!
//! A user response is shaped `{ "user": { ... } }` and an article response
//! `{ "article": { ... } }`. Every string leaf may be `null` and decodes to
//! the empty string; string arrays are decoded element-wise the same way.
//! A record is produced only when every field is present and of the right
//! shape — decoding rejects malformed documents, it does not invent fields.

use vstd::prelude::*;

use crate::json::JsonValue;
use crate::json::json_get;
use crate::json::spec_arr_elems;
use crate::json::spec_field;
use crate::parse_utils::parse_null_string;
use crate::parse_utils::parse_null_string_vec;
use crate::parse_utils::spec_all_nullable_strings;
use crate::parse_utils::spec_decoded_strings;
use crate::parse_utils::spec_string_or_empty;

verus! {

/// The fields of a user record; every one tolerates `null`.
#[derive(Debug)]
pub struct UserFields {
    pub email: String,
    pub username: String,
    pub bio: String,
    pub image: String,
    pub token: String,
}

/// The author sub-record of an article; every field tolerates `null`.
#[derive(Debug)]
pub struct ArticleUser {
    pub username: String,
    pub bio: String,
    pub image: String,
}

/// An article response: the fields nested under the `article` key.
#[derive(Debug)]
pub struct Article {
    pub article: ArticleFields,
}

/// The fields of an article record. String fields and string-array fields
/// tolerate `null`; the count and the flag must be of their exact shape.
#[derive(Debug)]
pub struct ArticleFields {
    pub slug: String,
    pub title: String,
    pub description: String,
    pub body: String,
    pub created_at: String,
    pub updated_at: String,
    pub tag_list: Vec<String>,
    pub author: ArticleUser,
    pub favorited_by: Vec<String>,
    pub favorites_count: usize,
    pub favorited: bool,
}

/// The decoding of the null-tolerant string field `key` of object `v`, if
/// the field is present and is `null` or a string.
pub open spec fn spec_nullable_string_field(v: JsonValue, key: Seq<char>) -> Option<Seq<char>> {
    match spec_field(v, key) {
        Some(f) => spec_string_or_empty(f),
        None => None,
    }
}

/// Field `key` of object `v` is an array whose elements all decode as
/// null-tolerant strings.
pub open spec fn spec_list_field_ok(v: JsonValue, key: Seq<char>) -> bool {
    &&& spec_field(v, key) is Some
    &&& spec_field(v, key)->0 is Arr
    &&& spec_all_nullable_strings(spec_arr_elems(spec_field(v, key)->0))
}

/// The element-wise decoding of the string-array field `key` of object `v`;
/// meaningful when `spec_list_field_ok` holds.
pub open spec fn spec_list_field(v: JsonValue, key: Seq<char>) -> Seq<Seq<char>> {
    spec_decoded_strings(spec_arr_elems(spec_field(v, key)->0))
}

/// The value of a number field that fits in a `u64`.
pub open spec fn spec_uint_of(v: JsonValue) -> u64 {
    match v {
        JsonValue::UInt(u) => u,
        _ => 0,
    }
}

/// The value of a boolean field.
pub open spec fn spec_bool_of(v: JsonValue) -> bool {
    match v {
        JsonValue::Bool(b) => b,
        _ => false,
    }
}

/// Every field of a user record is present and decodes.
pub open spec fn spec_user_fields_ok(v: JsonValue) -> bool {
    &&& spec_nullable_string_field(v, "email"@) is Some
    &&& spec_nullable_string_field(v, "username"@) is Some
    &&& spec_nullable_string_field(v, "bio"@) is Some
    &&& spec_nullable_string_field(v, "image"@) is Some
    &&& spec_nullable_string_field(v, "token"@) is Some
}

/// Every field of an author sub-record is present and decodes.
pub open spec fn spec_article_user_ok(v: JsonValue) -> bool {
    &&& spec_nullable_string_field(v, "username"@) is Some
    &&& spec_nullable_string_field(v, "bio"@) is Some
    &&& spec_nullable_string_field(v, "image"@) is Some
}

/// Every field of an article record is present and decodes.
pub open spec fn spec_article_fields_ok(v: JsonValue) -> bool {
    &&& spec_nullable_string_field(v, "slug"@) is Some
    &&& spec_nullable_string_field(v, "title"@) is Some
    &&& spec_nullable_string_field(v, "description"@) is Some
    &&& spec_nullable_string_field(v, "body"@) is Some
    &&& spec_nullable_string_field(v, "createdAt"@) is Some
    &&& spec_nullable_string_field(v, "updatedAt"@) is Some
    &&& spec_list_field_ok(v, "tagList"@)
    &&& spec_field(v, "author"@) is Some
    &&& spec_article_user_ok(spec_field(v, "author"@)->0)
    &&& spec_list_field_ok(v, "favoritedBy"@)
    &&& spec_field(v, "favoritesCount"@) is Some
    &&& spec_field(v, "favoritesCount"@)->0 is UInt
    &&& spec_uint_of(spec_field(v, "favoritesCount"@)->0) <= usize::MAX as u64
    &&& spec_field(v, "favorited"@) is Some
    &&& spec_field(v, "favorited"@)->0 is Bool
}

/// Decodes the null-tolerant string field `key` of object `v`.
fn get_nullable_string(v: &JsonValue, key: &str) -> (r: Option<String>)
    ensures
        r is Some <==> spec_nullable_string_field(*v, key@) is Some,
        r is Some ==> r->0@ == spec_nullable_string_field(*v, key@)->0,
{
    match json_get(v, key) {
        Some(f) => parse_null_string(f),
        None => None,
    }
}

/// Decodes the string-array field `key` of object `v` element-wise.
fn get_nullable_string_vec(v: &JsonValue, key: &str) -> (r: Option<Vec<String>>)
    ensures
        r is Some <==> spec_list_field_ok(*v, key@),
        r is Some ==> r->0.deep_view() == spec_list_field(*v, key@),
{
    match json_get(v, key) {
        Some(f) => parse_null_string_vec(f),
        None => None,
    }
}

/// Decodes a user record from the object holding its fields.
pub fn decode_user_fields(v: &JsonValue) -> (r: Option<UserFields>)
    ensures
        r is Some <==> spec_user_fields_ok(*v),
        r is Some ==> {
            &&& r->0.email@ == spec_nullable_string_field(*v, "email"@)->0
            &&& r->0.username@ == spec_nullable_string_field(*v, "username"@)->0
            &&& r->0.bio@ == spec_nullable_string_field(*v, "bio"@)->0
            &&& r->0.image@ == spec_nullable_string_field(*v, "image"@)->0
            &&& r->0.token@ == spec_nullable_string_field(*v, "token"@)->0
        },
{
    let email = match get_nullable_string(v, "email") {
        Some(s) => s,
        None => {
            return None;
        },
    };
    let username = match get_nullable_string(v, "username") {
        Some(s) => s,
        None => {
            return None;
        },
    };
    let bio = match get_nullable_string(v, "bio") {
        Some(s) => s,
        None => {
            return None;
        },
    };
    let image = match get_nullable_string(v, "image") {
        Some(s) => s,
        None => {
            return None;
        },
    };
    let token = match get_nullable_string(v, "token") {
        Some(s) => s,
        None => {
            return None;
        },
    };
    Some(UserFields { email, username, bio, image, token })
}

/// Decodes the author sub-record of an article.
fn decode_article_user(v: &JsonValue) -> (r: Option<ArticleUser>)
    ensures
        r is Some <==> spec_article_user_ok(*v),
        r is Some ==> {
            &&& r->0.username@ == spec_nullable_string_field(*v, "username"@)->0
            &&& r->0.bio@ == spec_nullable_string_field(*v, "bio"@)->0
            &&& r->0.image@ == spec_nullable_string_field(*v, "image"@)->0
        },
{
    let username = match get_nullable_string(v, "username") {
        Some(s) => s,
        None => {
            return None;
        },
    };
    let bio = match get_nullable_string(v, "bio") {
        Some(s) => s,
        None => {
            return None;
        },
    };
    let image = match get_nullable_string(v, "image") {
        Some(s) => s,
        None => {
            return None;
        },
    };
    Some(ArticleUser { username, bio, image })
}

/// Decodes an article record from the object holding its fields.
pub fn decode_article_fields(v: &JsonValue) -> (r: Option<ArticleFields>)
    ensures
        r is Some <==> spec_article_fields_ok(*v),
        r is Some ==> {
            &&& r->0.slug@ == spec_nullable_string_field(*v, "slug"@)->0
            &&& r->0.title@ == spec_nullable_string_field(*v, "title"@)->0
            &&& r->0.description@ == spec_nullable_string_field(*v, "description"@)->0
            &&& r->0.body@ == spec_nullable_string_field(*v, "body"@)->0
            &&& r->0.created_at@ == spec_nullable_string_field(*v, "createdAt"@)->0
            &&& r->0.updated_at@ == spec_nullable_string_field(*v, "updatedAt"@)->0
            &&& r->0.tag_list.deep_view() == spec_list_field(*v, "tagList"@)
            &&& r->0.favorited_by.deep_view() == spec_list_field(*v, "favoritedBy"@)
            &&& r->0.favorites_count as u64 == spec_uint_of(
                spec_field(*v, "favoritesCount"@)->0,
            )
            &&& r->0.favorited == spec_bool_of(spec_field(*v, "favorited"@)->0)
        },
{
    let slug = match get_nullable_string(v, "slug") {
        Some(s) => s,
        None => {
            return None;
        },
    };
    let title = match get_nullable_string(v, "title") {
        Some(s) => s,
        None => {
            return None;
        },
    };
    let description = match get_nullable_string(v, "description") {
        Some(s) => s,
        None => {
            return None;
        },
    };
    let body = match get_nullable_string(v, "body") {
        Some(s) => s,
        None => {
            return None;
        },
    };
    let created_at = match get_nullable_string(v, "createdAt") {
        Some(s) => s,
        None => {
            return None;
        },
    };
    let updated_at = match get_nullable_string(v, "updatedAt") {
        Some(s) => s,
        None => {
            return None;
        },
    };
    let tag_list = match get_nullable_string_vec(v, "tagList") {
        Some(l) => l,
        None => {
            return None;
        },
    };
    let author = match json_get(v, "author") {
        Some(a) => match decode_article_user(a) {
            Some(a) => a,
            None => {
                return None;
            },
        },
        None => {
            return None;
        },
    };
    let favorited_by = match get_nullable_string_vec(v, "favoritedBy") {
        Some(l) => l,
        None => {
            return None;
        },
    };
    let favorites_count = match json_get(v, "favoritesCount") {
        Some(f) => match f {
            JsonValue::UInt(u) => {
                if *u <= usize::MAX as u64 {
                    *u as usize
                } else {
                    return None;
                }
            },
            _ => {
                return None;
            },
        },
        None => {
            return None;
        },
    };
    let favorited = match json_get(v, "favorited") {
        Some(f) => match f {
            JsonValue::Bool(b) => *b,
            _ => {
                return None;
            },
        },
        None => {
            return None;
        },
    };
    Some(
        ArticleFields {
            slug,
            title,
            description,
            body,
            created_at,
            updated_at,
            tag_list,
            author,
            favorited_by,
            favorites_count,
            favorited,
        },
    )
}

} // verus!
