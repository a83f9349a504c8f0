//! Response resolution: decides whether a completed HTTP call succeeded
//! and classifies failures.
//!
//! The body's shape is determined by the status class, never by content
//! sniffing: a 2xx status demands the success payload schema, every other
//! status the error envelope. A body that fails to decode for its status
//! class is a deserialization error; an envelope with code 429 is the
//! rate limit; every other envelope is a remote error with its code,
//! message and first listed reason. The schema decoders are verified
//! against exact spec functions over the parsed JSON tree, so the
//! resolver's contract pins the returned payload to the body's fields.

use vstd::prelude::*;

use crate::errors::AppError;
use crate::is_success_status;
use crate::json::parse_json;
use crate::json::spec_as_array;
use crate::json::spec_as_int;
use crate::json::spec_as_text;
use crate::json::spec_get;
use crate::json::spec_parse_json;
use crate::json::tree_as_array;
use crate::json::tree_as_int;
use crate::json::tree_as_string;
use crate::json::tree_get;
use crate::json::tree_is_null;
use crate::json::utf8_lossy;
use crate::json::JsonValue;
use crate::models::Book;
use crate::models::BookV;
use crate::models::GoogleApiError;
use crate::models::GoogleApiErrorDetail;
use crate::models::GoogleApiErrorDetailV;
use crate::models::GoogleApiErrorItem;
use crate::models::GoogleApiErrorItemV;
use crate::models::GoogleApiErrorV;
use crate::models::ImageLink;
use crate::models::ImageLinkV;
use crate::models::IndustryIdentifiers;
use crate::models::IndustryIdentifiersV;
use crate::models::VolumeInfo;
use crate::models::VolumeInfoV;
use crate::models::VolumeResponse;
use crate::models::VolumeResponseV;
use crate::spec_is_success_status;

verus! {

// ---------------------------------------------------------------------
// What each schema means over the parsed JSON tree.
// ---------------------------------------------------------------------
/// A required string field: its text, or nothing when the field is
/// absent or not a string.
pub open spec fn spec_req_text(v: JsonValue, key: Seq<char>) -> Option<Seq<char>> {
    match spec_get(v, key) {
        Some(f) => spec_as_text(f),
        None => None,
    }
}

/// An optional string field: an absent key or a null is no value, a
/// string is a value, anything else fails the decode (the outer option).
pub open spec fn spec_opt_text(v: JsonValue, key: Seq<char>) -> Option<Option<Seq<char>>> {
    match spec_get(v, key) {
        None => Some(None),
        Some(f) => if f is Null {
            Some(None)
        } else {
            match spec_as_text(f) {
                Some(s) => Some(Some(s)),
                None => None,
            }
        },
    }
}

/// The texts of the array elements from position `i` on; nothing when
/// any element is not a string.
pub open spec fn spec_text_items(items: Seq<JsonValue>, i: int) -> Option<Seq<Seq<char>>>
    decreases items.len() - i,
{
    if i >= items.len() {
        Some(Seq::empty())
    } else {
        match spec_as_text(items[i]) {
            Some(s) => match spec_text_items(items, i + 1) {
                Some(rest) => Some(seq![s] + rest),
                None => None,
            },
            None => None,
        }
    }
}

/// An optional list-of-strings field, decoded strictly.
pub open spec fn spec_opt_text_list(v: JsonValue, key: Seq<char>) -> Option<
    Option<Seq<Seq<char>>>,
> {
    match spec_get(v, key) {
        None => Some(None),
        Some(f) => if f is Null {
            Some(None)
        } else {
            match spec_as_array(f) {
                Some(items) => match spec_text_items(items, 0) {
                    Some(texts) => Some(Some(texts)),
                    None => None,
                },
                None => None,
            }
        },
    }
}

/// An optional unsigned 16-bit field: absent or null is no value, an
/// integer in range is a value, anything else fails the decode.
pub open spec fn spec_opt_u16(v: JsonValue, key: Seq<char>) -> Option<Option<u16>> {
    match spec_get(v, key) {
        None => Some(None),
        Some(f) => if f is Null {
            Some(None)
        } else {
            match spec_as_int(f) {
                Some(n) => if 0 <= n <= 0xFFFF {
                    Some(Some(n as u16))
                } else {
                    None
                },
                None => None,
            }
        },
    }
}

/// The print type: the empty-string default when the field is absent,
/// its text when it is a string, a failed decode otherwise.
pub open spec fn spec_print_type(v: JsonValue) -> Option<Seq<char>> {
    match spec_get(v, "printType"@) {
        None => Some(Seq::empty()),
        Some(f) => spec_as_text(f),
    }
}

/// The cover-image links object: both fields optional strings.
pub open spec fn spec_decode_image_link(v: JsonValue) -> Option<ImageLinkV> {
    match spec_opt_text(v, "smallThumbnail"@) {
        Some(small_thumbnail) => match spec_opt_text(v, "thumbnail"@) {
            Some(thumbnail) => Some(ImageLinkV { small_thumbnail, thumbnail }),
            None => None,
        },
        None => None,
    }
}

/// The optional `imageLinks` field.
pub open spec fn spec_opt_image_links(v: JsonValue) -> Option<Option<ImageLinkV>> {
    match spec_get(v, "imageLinks"@) {
        None => Some(None),
        Some(f) => if f is Null {
            Some(None)
        } else {
            match spec_decode_image_link(f) {
                Some(links) => Some(Some(links)),
                None => None,
            }
        },
    }
}

/// One industry identifier: both fields required strings.
pub open spec fn spec_decode_industry_identifier(v: JsonValue) -> Option<IndustryIdentifiersV> {
    match spec_req_text(v, "identifier"@) {
        Some(identifier) => match spec_req_text(v, "type"@) {
            Some(identifier_type) => Some(IndustryIdentifiersV { identifier, identifier_type }),
            None => None,
        },
        None => None,
    }
}

/// The identifiers of the array elements from position `i` on.
pub open spec fn spec_id_items(items: Seq<JsonValue>, i: int) -> Option<Seq<IndustryIdentifiersV>>
    decreases items.len() - i,
{
    if i >= items.len() {
        Some(Seq::empty())
    } else {
        match spec_decode_industry_identifier(items[i]) {
            Some(id) => match spec_id_items(items, i + 1) {
                Some(rest) => Some(seq![id] + rest),
                None => None,
            },
            None => None,
        }
    }
}

/// The optional `industryIdentifiers` field, decoded strictly.
pub open spec fn spec_opt_id_list(v: JsonValue) -> Option<Option<Seq<IndustryIdentifiersV>>> {
    match spec_get(v, "industryIdentifiers"@) {
        None => Some(None),
        Some(f) => if f is Null {
            Some(None)
        } else {
            match spec_as_array(f) {
                Some(items) => match spec_id_items(items, 0) {
                    Some(ids) => Some(Some(ids)),
                    None => None,
                },
                None => None,
            }
        },
    }
}

/// The volume information object: the title is required, the print type
/// defaults to the empty string when absent, every other field optional.
pub open spec fn spec_decode_volume_info(v: JsonValue) -> Option<VolumeInfoV> {
    match spec_req_text(v, "title"@) {
        None => None,
        Some(title) => match spec_opt_text(v, "subtitle"@) {
            None => None,
            Some(subtitle) => match spec_opt_text_list(v, "authors"@) {
                None => None,
                Some(authors) => match spec_opt_text(v, "publisher"@) {
                    None => None,
                    Some(publisher) => match spec_opt_text(v, "publishedDate"@) {
                        None => None,
                        Some(published_date) => match spec_opt_text(v, "description"@) {
                            None => None,
                            Some(description) => match spec_opt_id_list(v) {
                                None => None,
                                Some(industry_identifiers) => match spec_opt_u16(v, "pageCount"@) {
                                    None => None,
                                    Some(page_count) => match spec_print_type(v) {
                                        None => None,
                                        Some(print_type) => match spec_opt_text_list(
                                            v,
                                            "categories"@,
                                        ) {
                                            None => None,
                                            Some(categories) => match spec_opt_image_links(v) {
                                                None => None,
                                                Some(image_links) => Some(
                                                    VolumeInfoV {
                                                        title,
                                                        subtitle,
                                                        authors,
                                                        publisher,
                                                        published_date,
                                                        description,
                                                        industry_identifiers,
                                                        page_count,
                                                        print_type,
                                                        categories,
                                                        image_links,
                                                    },
                                                ),
                                            },
                                        },
                                    },
                                },
                            },
                        },
                    },
                },
            },
        },
    }
}

/// One catalog entry: identifier, entity tag and volume information are
/// required; kind and self link optional.
pub open spec fn spec_decode_book(v: JsonValue) -> Option<BookV> {
    match spec_req_text(v, "id"@) {
        None => None,
        Some(id) => match spec_req_text(v, "etag"@) {
            None => None,
            Some(etag) => match spec_opt_text(v, "kind"@) {
                None => None,
                Some(kind) => match spec_opt_text(v, "selfLink"@) {
                    None => None,
                    Some(self_link) => match spec_get(v, "volumeInfo"@) {
                        None => None,
                        Some(f) => match spec_decode_volume_info(f) {
                            None => None,
                            Some(volume_info) => Some(
                                BookV { id, etag, kind, self_link, volume_info },
                            ),
                        },
                    },
                },
            },
        },
    }
}

/// The catalog entries of the array elements from position `i` on.
pub open spec fn spec_book_items(items: Seq<JsonValue>, i: int) -> Option<Seq<BookV>>
    decreases items.len() - i,
{
    if i >= items.len() {
        Some(Seq::empty())
    } else {
        match spec_decode_book(items[i]) {
            Some(book) => match spec_book_items(items, i + 1) {
                Some(rest) => Some(seq![book] + rest),
                None => None,
            },
            None => None,
        }
    }
}

/// The optional `items` field of the success payload, decoded strictly.
pub open spec fn spec_opt_books(v: JsonValue) -> Option<Option<Seq<BookV>>> {
    match spec_get(v, "items"@) {
        None => Some(None),
        Some(f) => if f is Null {
            Some(None)
        } else {
            match spec_as_array(f) {
                Some(items) => match spec_book_items(items, 0) {
                    Some(books) => Some(Some(books)),
                    None => None,
                },
                None => None,
            }
        },
    }
}

/// The required `totalItems` field: an integer that fits a signed
/// 32-bit integer.
pub open spec fn spec_total_items(v: JsonValue) -> Option<i32> {
    match spec_get(v, "totalItems"@) {
        Some(f) => match spec_as_int(f) {
            Some(n) => if -0x8000_0000 <= n <= 0x7FFF_FFFF {
                Some(n as i32)
            } else {
                None
            },
            None => None,
        },
        None => None,
    }
}

/// The success payload schema over the parsed tree.
pub open spec fn spec_decode_volume_response(v: JsonValue) -> Option<VolumeResponseV> {
    match spec_req_text(v, "kind"@) {
        None => None,
        Some(kind) => match spec_total_items(v) {
            None => None,
            Some(total_items) => match spec_opt_books(v) {
                None => None,
                Some(items) => Some(VolumeResponseV { kind, total_items, items }),
            },
        },
    }
}

/// One listed cause of the error envelope: all fields required strings.
pub open spec fn spec_decode_error_item(v: JsonValue) -> Option<GoogleApiErrorItemV> {
    match spec_req_text(v, "message"@) {
        None => None,
        Some(message) => match spec_req_text(v, "domain"@) {
            None => None,
            Some(domain) => match spec_req_text(v, "reason"@) {
                None => None,
                Some(reason) => Some(GoogleApiErrorItemV { message, domain, reason }),
            },
        },
    }
}

/// The listed causes of the array elements from position `i` on.
pub open spec fn spec_err_items(items: Seq<JsonValue>, i: int) -> Option<Seq<GoogleApiErrorItemV>>
    decreases items.len() - i,
{
    if i >= items.len() {
        Some(Seq::empty())
    } else {
        match spec_decode_error_item(items[i]) {
            Some(item) => match spec_err_items(items, i + 1) {
                Some(rest) => Some(seq![item] + rest),
                None => None,
            },
            None => None,
        }
    }
}

/// The optional `errors` list of the envelope, decoded strictly.
pub open spec fn spec_opt_err_list(v: JsonValue) -> Option<Option<Seq<GoogleApiErrorItemV>>> {
    match spec_get(v, "errors"@) {
        None => Some(None),
        Some(f) => if f is Null {
            Some(None)
        } else {
            match spec_as_array(f) {
                Some(items) => match spec_err_items(items, 0) {
                    Some(list) => Some(Some(list)),
                    None => None,
                },
                None => None,
            }
        },
    }
}

/// The required `code` field of the envelope: an integer that fits an
/// unsigned 16-bit integer.
pub open spec fn spec_code(v: JsonValue) -> Option<u16> {
    match spec_get(v, "code"@) {
        Some(f) => match spec_as_int(f) {
            Some(n) => if 0 <= n <= 0xFFFF {
                Some(n as u16)
            } else {
                None
            },
            None => None,
        },
        None => None,
    }
}

/// The error envelope schema `{ error: { code, message, status?,
/// errors? } }` over the parsed tree.
pub open spec fn spec_decode_error_envelope(v: JsonValue) -> Option<GoogleApiErrorV> {
    match spec_get(v, "error"@) {
        None => None,
        Some(detail) => match spec_code(detail) {
            None => None,
            Some(code) => match spec_req_text(detail, "message"@) {
                None => None,
                Some(message) => match spec_opt_text(detail, "status"@) {
                    None => None,
                    Some(status) => match spec_opt_err_list(detail) {
                        None => None,
                        Some(errors) => Some(
                            GoogleApiErrorV {
                                error: GoogleApiErrorDetailV { code, message, status, errors },
                            },
                        ),
                    },
                },
            },
        },
    }
}

/// The machine-readable reason of the first listed cause, when the
/// envelope lists any.
pub open spec fn spec_first_reason(errors: Option<Vec<GoogleApiErrorItem>>) -> Option<String> {
    match errors {
        Some(items) => if items@.len() > 0 {
            Some(items@[0].reason)
        } else {
            None
        },
        None => None,
    }
}

/// The same, over the mathematical mirror of the envelope.
pub open spec fn spec_first_reason_v(errors: Option<Seq<GoogleApiErrorItemV>>) -> Option<
    Seq<char>,
> {
    match errors {
        Some(items) => if items.len() > 0 {
            Some(items[0].reason)
        } else {
            None
        },
        None => None,
    }
}

/// The two readings of the first reason agree through the mirror.
proof fn lemma_first_reason_view(errors: Option<Vec<GoogleApiErrorItem>>)
    ensures
        spec_first_reason(errors).deep_view() == spec_first_reason_v(errors.deep_view()),
{
    match errors {
        Some(items) => {
            if items@.len() > 0 {
                assert(items.deep_view()[0] == items@[0].deep_view());
            }
        },
        None => {},
    }
}

// ---------------------------------------------------------------------
// The resolver.
// ---------------------------------------------------------------------
/// Maps a decoded error envelope detail to the error taxonomy: code 429
/// is the rate limit, every other code a remote error carrying the code,
/// the message, and the first listed reason if one is present.
pub fn classify_error(detail: GoogleApiErrorDetail) -> (e: AppError)
    ensures
        detail.code == 429 ==> e == (AppError::RateLimitExceeded { message: detail.message }),
        detail.code != 429 ==> e == (AppError::GoogleApi {
            code: detail.code,
            message: detail.message,
            reason: spec_first_reason(detail.errors),
        }),
{
    if detail.code == 429 {
        AppError::RateLimitExceeded { message: detail.message }
    } else {
        let reason: Option<String> = match detail.errors {
            Some(items) => {
                if items.len() > 0 {
                    let mut items = items;
                    let first = items.remove(0);
                    Some(first.reason)
                } else {
                    None
                }
            },
            None => None,
        };
        AppError::GoogleApi { code: detail.code, message: detail.message, reason }
    }
}

/// Resolution over already-decoded bodies. On a success status the
/// decoded payload passes through and a failed decode is a
/// deserialization error; on any other status the decoded envelope is
/// classified and a failed decode is a deserialization error. The
/// diagnostic is the raw body rendered as text.
pub fn resolve_decoded(
    status: u16,
    payload: Option<VolumeResponse>,
    envelope: Option<GoogleApiError>,
    diagnostic: String,
) -> (r: Result<VolumeResponse, AppError>)
    ensures
        spec_is_success_status(status) ==> (match payload {
            Some(p) => r == Result::<VolumeResponse, AppError>::Ok(p),
            None => r == Result::<VolumeResponse, AppError>::Err(
                AppError::DeserializeJson { message: diagnostic },
            ),
        }),
        !spec_is_success_status(status) ==> (match envelope {
            Some(env) => if env.error.code == 429 {
                r == Result::<VolumeResponse, AppError>::Err(
                    AppError::RateLimitExceeded { message: env.error.message },
                )
            } else {
                r == Result::<VolumeResponse, AppError>::Err(
                    AppError::GoogleApi {
                        code: env.error.code,
                        message: env.error.message,
                        reason: spec_first_reason(env.error.errors),
                    },
                )
            },
            None => r == Result::<VolumeResponse, AppError>::Err(
                AppError::DeserializeJson { message: diagnostic },
            ),
        }),
{
    if is_success_status(status) {
        match payload {
            Some(p) => Ok(p),
            None => Err(AppError::DeserializeJson { message: diagnostic }),
        }
    } else {
        match envelope {
            Some(env) => Err(classify_error(env.error)),
            None => Err(AppError::DeserializeJson { message: diagnostic }),
        }
    }
}

/// Resolves a completed HTTP exchange from its raw status and body: the
/// body is parsed as JSON, decoded as the schema its status class
/// demands, and the outcome classified.
///
/// On a success status, a body that parses and decodes under the
/// success schema yields `Ok` of exactly the decoded payload, its fields
/// mirroring the JSON fields; anything else yields a deserialization
/// error. On any other status, an envelope with code 429 yields the
/// rate-limit error, any other envelope the remote error fixed by its
/// code, message and first reason, and a body that does not decode a
/// deserialization error.
pub fn resolve(status: u16, body: &[u8]) -> (r: Result<VolumeResponse, AppError>)
    ensures
        spec_is_success_status(status) ==> (match spec_parse_json(body@) {
            Some(tree) => match spec_decode_volume_response(tree) {
                Some(payload) => (r matches Ok(resp) && resp.deep_view() == payload),
                None => (r matches Err(AppError::DeserializeJson { .. })),
            },
            None => (r matches Err(AppError::DeserializeJson { .. })),
        }),
        !spec_is_success_status(status) ==> (match spec_parse_json(body@) {
            Some(tree) => match spec_decode_error_envelope(tree) {
                Some(env) => if env.error.code == 429 {
                    r matches Err(AppError::RateLimitExceeded { message }) && message@
                        == env.error.message
                } else {
                    r matches Err(AppError::GoogleApi { code, message, reason }) && code
                        == env.error.code && message@ == env.error.message && reason.deep_view()
                        == spec_first_reason_v(env.error.errors)
                },
                None => (r matches Err(AppError::DeserializeJson { .. })),
            },
            None => (r matches Err(AppError::DeserializeJson { .. })),
        }),
        spec_is_success_status(status) ==> (r is Ok || (r matches Err(
            AppError::DeserializeJson { .. },
        ))),
        !spec_is_success_status(status) ==> r is Err,
        r matches Err(e) ==> ((e matches AppError::DeserializeJson { .. }) || (
        !spec_is_success_status(status) && (e matches AppError::RateLimitExceeded { .. })) || (
        !spec_is_success_status(status) && (e matches AppError::GoogleApi { code, .. } && code
            != 429))),
{
    let diagnostic = utf8_lossy(body);
    let parsed = parse_json(body);
    if is_success_status(status) {
        let payload = match &parsed {
            Some(tree) => decode_volume_response(tree),
            None => None,
        };
        resolve_decoded(status, payload, None, diagnostic)
    } else {
        let envelope = match &parsed {
            Some(tree) => decode_error_envelope(tree),
            None => None,
        };
        proof {
            match &envelope {
                Some(env) => {
                    lemma_first_reason_view(env.error.errors);
                },
                None => {},
            }
        }
        resolve_decoded(status, None, envelope, diagnostic)
    }
}

// ---------------------------------------------------------------------
// Verified schema decoders over the parsed tree.
// ---------------------------------------------------------------------
/// A required string field, exactly as `spec_req_text` states.
fn field_string(v: &JsonValue, key: &str) -> (r: Option<String>)
    ensures
        r.deep_view() == spec_req_text(*v, key@),
{
    match tree_get(v, key) {
        Some(f) => tree_as_string(f),
        None => None,
    }
}

/// An optional string field, exactly as `spec_opt_text` states.
fn opt_field_string(v: &JsonValue, key: &str) -> (r: Option<Option<String>>)
    ensures
        r.deep_view() == spec_opt_text(*v, key@),
{
    match tree_get(v, key) {
        None => Some(None),
        Some(f) => {
            if tree_is_null(f) {
                Some(None)
            } else {
                match tree_as_string(f) {
                    Some(s) => Some(Some(s)),
                    None => None,
                }
            }
        },
    }
}

/// Stepping one accepted element extends the decoded text list.
proof fn lemma_text_items_step(items: Seq<JsonValue>, i: int)
    requires
        0 <= i < items.len(),
    ensures
        match spec_as_text(items[i]) {
            Some(s) => (match spec_text_items(items, i + 1) {
                Some(rest) => spec_text_items(items, i) == Some(seq![s] + rest),
                None => spec_text_items(items, i) is None,
            }),
            None => spec_text_items(items, i) is None,
        },
{
}

/// Decodes every element of an array as a string.
fn decode_string_items(items: &Vec<JsonValue>) -> (r: Option<Vec<String>>)
    ensures
        r.deep_view() == spec_text_items(items@, 0),
{
    let mut out: Vec<String> = Vec::new();
    let mut i: usize = 0;
    proof {
        assert(out.deep_view() =~= Seq::<Seq<char>>::empty());
    }
    while i < items.len()
        invariant
            i <= items@.len(),
            match spec_text_items(items@, i as int) {
                Some(rest) => spec_text_items(items@, 0) == Some(out.deep_view() + rest),
                None => spec_text_items(items@, 0) is None,
            },
        decreases items@.len() - i,
    {
        let ghost prev = out.deep_view();
        proof {
            lemma_text_items_step(items@, i as int);
        }
        match tree_as_string(&items[i]) {
            Some(s) => {
                let ghost sv = s@;
                out.push(s);
                proof {
                    assert(out.deep_view() =~= prev + seq![sv]);
                    match spec_text_items(items@, i + 1 as int) {
                        Some(rest) => {
                            assert((prev + seq![sv]) + rest =~= prev + (seq![sv] + rest));
                        },
                        None => {},
                    }
                }
            },
            None => {
                return None;
            },
        }
        i = i + 1;
    }
    proof {
        assert(out.deep_view() + Seq::<Seq<char>>::empty() =~= out.deep_view());
    }
    Some(out)
}

/// An optional list-of-strings field, exactly as `spec_opt_text_list` states.
fn opt_field_string_list(v: &JsonValue, key: &str) -> (r: Option<Option<Vec<String>>>)
    ensures
        r.deep_view() == spec_opt_text_list(*v, key@),
{
    match tree_get(v, key) {
        None => Some(None),
        Some(f) => {
            if tree_is_null(f) {
                Some(None)
            } else {
                match tree_as_array(f) {
                    Some(items) => match decode_string_items(items) {
                        Some(texts) => Some(Some(texts)),
                        None => None,
                    },
                    None => None,
                }
            }
        },
    }
}

/// Decodes the cover-image links object, exactly as
/// `spec_decode_image_link` states.
fn decode_image_link(v: &JsonValue) -> (r: Option<ImageLink>)
    ensures
        r.deep_view() == spec_decode_image_link(*v),
{
    let small_thumbnail = match opt_field_string(v, "smallThumbnail") {
        Some(s) => s,
        None => {
            return None;
        },
    };
    let thumbnail = match opt_field_string(v, "thumbnail") {
        Some(s) => s,
        None => {
            return None;
        },
    };
    Some(ImageLink { small_thumbnail, thumbnail })
}

/// Decodes one industry identifier, exactly as
/// `spec_decode_industry_identifier` states.
fn decode_industry_identifier(v: &JsonValue) -> (r: Option<IndustryIdentifiers>)
    ensures
        r.deep_view() == spec_decode_industry_identifier(*v),
{
    let identifier = match field_string(v, "identifier") {
        Some(s) => s,
        None => {
            return None;
        },
    };
    let identifier_type = match field_string(v, "type") {
        Some(s) => s,
        None => {
            return None;
        },
    };
    Some(IndustryIdentifiers { identifier, identifier_type })
}

/// Stepping one accepted element extends the decoded identifier list.
proof fn lemma_id_items_step(items: Seq<JsonValue>, i: int)
    requires
        0 <= i < items.len(),
    ensures
        match spec_decode_industry_identifier(items[i]) {
            Some(id) => (match spec_id_items(items, i + 1) {
                Some(rest) => spec_id_items(items, i) == Some(seq![id] + rest),
                None => spec_id_items(items, i) is None,
            }),
            None => spec_id_items(items, i) is None,
        },
{
}

/// Decodes every element of an array as an industry identifier.
fn decode_id_items(items: &Vec<JsonValue>) -> (r: Option<Vec<IndustryIdentifiers>>)
    ensures
        r.deep_view() == spec_id_items(items@, 0),
{
    let mut out: Vec<IndustryIdentifiers> = Vec::new();
    let mut i: usize = 0;
    proof {
        assert(out.deep_view() =~= Seq::<IndustryIdentifiersV>::empty());
    }
    while i < items.len()
        invariant
            i <= items@.len(),
            match spec_id_items(items@, i as int) {
                Some(rest) => spec_id_items(items@, 0) == Some(out.deep_view() + rest),
                None => spec_id_items(items@, 0) is None,
            },
        decreases items@.len() - i,
    {
        let ghost prev = out.deep_view();
        proof {
            lemma_id_items_step(items@, i as int);
        }
        match decode_industry_identifier(&items[i]) {
            Some(id) => {
                let ghost idv = id.deep_view();
                out.push(id);
                proof {
                    assert(out.deep_view() =~= prev + seq![idv]);
                    match spec_id_items(items@, i + 1 as int) {
                        Some(rest) => {
                            assert((prev + seq![idv]) + rest =~= prev + (seq![idv] + rest));
                        },
                        None => {},
                    }
                }
            },
            None => {
                return None;
            },
        }
        i = i + 1;
    }
    proof {
        assert(out.deep_view() + Seq::<IndustryIdentifiersV>::empty() =~= out.deep_view());
    }
    Some(out)
}

/// Decodes the volume information object, exactly as
/// `spec_decode_volume_info` states.
#[verifier::rlimit(100)]
fn decode_volume_info(v: &JsonValue) -> (r: Option<VolumeInfo>)
    ensures
        r.deep_view() == spec_decode_volume_info(*v),
{
    let title = match field_string(v, "title") {
        Some(s) => s,
        None => {
            return None;
        },
    };
    let subtitle = match opt_field_string(v, "subtitle") {
        Some(s) => s,
        None => {
            return None;
        },
    };
    let authors = match opt_field_string_list(v, "authors") {
        Some(a) => a,
        None => {
            return None;
        },
    };
    let publisher = match opt_field_string(v, "publisher") {
        Some(s) => s,
        None => {
            return None;
        },
    };
    let published_date = match opt_field_string(v, "publishedDate") {
        Some(s) => s,
        None => {
            return None;
        },
    };
    let description = match opt_field_string(v, "description") {
        Some(s) => s,
        None => {
            return None;
        },
    };
    let industry_identifiers: Option<Vec<IndustryIdentifiers>> = match tree_get(
        v,
        "industryIdentifiers",
    ) {
        None => None,
        Some(f) => {
            if tree_is_null(f) {
                None
            } else {
                match tree_as_array(f) {
                    Some(items) => match decode_id_items(items) {
                        Some(ids) => Some(ids),
                        None => {
                            return None;
                        },
                    },
                    None => {
                        return None;
                    },
                }
            }
        },
    };
    let page_count: Option<u16> = match tree_get(v, "pageCount") {
        None => None,
        Some(f) => {
            if tree_is_null(f) {
                None
            } else {
                match tree_as_int(f) {
                    Some(n) => {
                        if 0 <= n && n <= 0xFFFF {
                            Some(n as u16)
                        } else {
                            return None;
                        }
                    },
                    None => {
                        return None;
                    },
                }
            }
        },
    };
    let print_type = match tree_get(v, "printType") {
        None => VolumeInfo::default_print_type(),
        Some(f) => match tree_as_string(f) {
            Some(s) => s,
            None => {
                return None;
            },
        },
    };
    let categories = match opt_field_string_list(v, "categories") {
        Some(c) => c,
        None => {
            return None;
        },
    };
    let image_links: Option<ImageLink> = match tree_get(v, "imageLinks") {
        None => None,
        Some(f) => {
            if tree_is_null(f) {
                None
            } else {
                match decode_image_link(f) {
                    Some(links) => Some(links),
                    None => {
                        return None;
                    },
                }
            }
        },
    };
    Some(
        VolumeInfo {
            title,
            subtitle,
            authors,
            publisher,
            published_date,
            description,
            industry_identifiers,
            page_count,
            print_type,
            categories,
            image_links,
        },
    )
}

/// Decodes one catalog entry, exactly as `spec_decode_book` states.
fn decode_book(v: &JsonValue) -> (r: Option<Book>)
    ensures
        r.deep_view() == spec_decode_book(*v),
{
    let id = match field_string(v, "id") {
        Some(s) => s,
        None => {
            return None;
        },
    };
    let etag = match field_string(v, "etag") {
        Some(s) => s,
        None => {
            return None;
        },
    };
    let kind = match opt_field_string(v, "kind") {
        Some(s) => s,
        None => {
            return None;
        },
    };
    let self_link = match opt_field_string(v, "selfLink") {
        Some(s) => s,
        None => {
            return None;
        },
    };
    let volume_info = match tree_get(v, "volumeInfo") {
        Some(f) => match decode_volume_info(f) {
            Some(info) => info,
            None => {
                return None;
            },
        },
        None => {
            return None;
        },
    };
    Some(Book { id, etag, kind, self_link, volume_info })
}

/// Stepping one accepted element extends the decoded entry list.
proof fn lemma_book_items_step(items: Seq<JsonValue>, i: int)
    requires
        0 <= i < items.len(),
    ensures
        match spec_decode_book(items[i]) {
            Some(book) => (match spec_book_items(items, i + 1) {
                Some(rest) => spec_book_items(items, i) == Some(seq![book] + rest),
                None => spec_book_items(items, i) is None,
            }),
            None => spec_book_items(items, i) is None,
        },
{
}

/// Decodes every element of an array as a catalog entry.
fn decode_book_items(items: &Vec<JsonValue>) -> (r: Option<Vec<Book>>)
    ensures
        r.deep_view() == spec_book_items(items@, 0),
{
    let mut out: Vec<Book> = Vec::new();
    let mut i: usize = 0;
    proof {
        assert(out.deep_view() =~= Seq::<BookV>::empty());
    }
    while i < items.len()
        invariant
            i <= items@.len(),
            match spec_book_items(items@, i as int) {
                Some(rest) => spec_book_items(items@, 0) == Some(out.deep_view() + rest),
                None => spec_book_items(items@, 0) is None,
            },
        decreases items@.len() - i,
    {
        let ghost prev = out.deep_view();
        proof {
            lemma_book_items_step(items@, i as int);
        }
        match decode_book(&items[i]) {
            Some(book) => {
                let ghost bookv = book.deep_view();
                out.push(book);
                proof {
                    assert(out.deep_view() =~= prev + seq![bookv]);
                    match spec_book_items(items@, i + 1 as int) {
                        Some(rest) => {
                            assert((prev + seq![bookv]) + rest =~= prev + (seq![bookv] + rest));
                        },
                        None => {},
                    }
                }
            },
            None => {
                return None;
            },
        }
        i = i + 1;
    }
    proof {
        assert(out.deep_view() + Seq::<BookV>::empty() =~= out.deep_view());
    }
    Some(out)
}

/// Decodes the success payload schema, exactly as
/// `spec_decode_volume_response` states.
pub(crate) fn decode_volume_response(v: &JsonValue) -> (r: Option<VolumeResponse>)
    ensures
        r.deep_view() == spec_decode_volume_response(*v),
{
    let kind = match field_string(v, "kind") {
        Some(s) => s,
        None => {
            return None;
        },
    };
    let total_items: i32 = match tree_get(v, "totalItems") {
        Some(f) => match tree_as_int(f) {
            Some(n) => {
                if -0x8000_0000i64 <= n && n <= 0x7FFF_FFFFi64 {
                    n as i32
                } else {
                    return None;
                }
            },
            None => {
                return None;
            },
        },
        None => {
            return None;
        },
    };
    let items: Option<Vec<Book>> = match tree_get(v, "items") {
        None => None,
        Some(f) => {
            if tree_is_null(f) {
                None
            } else {
                match tree_as_array(f) {
                    Some(elements) => match decode_book_items(elements) {
                        Some(books) => Some(books),
                        None => {
                            return None;
                        },
                    },
                    None => {
                        return None;
                    },
                }
            }
        },
    };
    Some(VolumeResponse { kind, total_items, items })
}

/// Decodes one listed cause, exactly as `spec_decode_error_item` states.
fn decode_error_item(v: &JsonValue) -> (r: Option<GoogleApiErrorItem>)
    ensures
        r.deep_view() == spec_decode_error_item(*v),
{
    let message = match field_string(v, "message") {
        Some(s) => s,
        None => {
            return None;
        },
    };
    let domain = match field_string(v, "domain") {
        Some(s) => s,
        None => {
            return None;
        },
    };
    let reason = match field_string(v, "reason") {
        Some(s) => s,
        None => {
            return None;
        },
    };
    Some(GoogleApiErrorItem { message, domain, reason })
}

/// Stepping one accepted element extends the decoded cause list.
proof fn lemma_err_items_step(items: Seq<JsonValue>, i: int)
    requires
        0 <= i < items.len(),
    ensures
        match spec_decode_error_item(items[i]) {
            Some(item) => (match spec_err_items(items, i + 1) {
                Some(rest) => spec_err_items(items, i) == Some(seq![item] + rest),
                None => spec_err_items(items, i) is None,
            }),
            None => spec_err_items(items, i) is None,
        },
{
}

/// Decodes every element of an array as a listed cause.
fn decode_err_items(items: &Vec<JsonValue>) -> (r: Option<Vec<GoogleApiErrorItem>>)
    ensures
        r.deep_view() == spec_err_items(items@, 0),
{
    let mut out: Vec<GoogleApiErrorItem> = Vec::new();
    let mut i: usize = 0;
    proof {
        assert(out.deep_view() =~= Seq::<GoogleApiErrorItemV>::empty());
    }
    while i < items.len()
        invariant
            i <= items@.len(),
            match spec_err_items(items@, i as int) {
                Some(rest) => spec_err_items(items@, 0) == Some(out.deep_view() + rest),
                None => spec_err_items(items@, 0) is None,
            },
        decreases items@.len() - i,
    {
        let ghost prev = out.deep_view();
        proof {
            lemma_err_items_step(items@, i as int);
        }
        match decode_error_item(&items[i]) {
            Some(item) => {
                let ghost itemv = item.deep_view();
                out.push(item);
                proof {
                    assert(out.deep_view() =~= prev + seq![itemv]);
                    match spec_err_items(items@, i + 1 as int) {
                        Some(rest) => {
                            assert((prev + seq![itemv]) + rest =~= prev + (seq![itemv] + rest));
                        },
                        None => {},
                    }
                }
            },
            None => {
                return None;
            },
        }
        i = i + 1;
    }
    proof {
        assert(out.deep_view() + Seq::<GoogleApiErrorItemV>::empty() =~= out.deep_view());
    }
    Some(out)
}

/// Decodes the error envelope schema, exactly as
/// `spec_decode_error_envelope` states.
pub(crate) fn decode_error_envelope(v: &JsonValue) -> (r: Option<GoogleApiError>)
    ensures
        r.deep_view() == spec_decode_error_envelope(*v),
{
    let detail = match tree_get(v, "error") {
        Some(d) => d,
        None => {
            return None;
        },
    };
    let code: u16 = match tree_get(detail, "code") {
        Some(f) => match tree_as_int(f) {
            Some(n) => {
                if 0 <= n && n <= 0xFFFF {
                    n as u16
                } else {
                    return None;
                }
            },
            None => {
                return None;
            },
        },
        None => {
            return None;
        },
    };
    let message = match field_string(detail, "message") {
        Some(s) => s,
        None => {
            return None;
        },
    };
    let status = match opt_field_string(detail, "status") {
        Some(s) => s,
        None => {
            return None;
        },
    };
    let errors: Option<Vec<GoogleApiErrorItem>> = match tree_get(detail, "errors") {
        None => None,
        Some(f) => {
            if tree_is_null(f) {
                None
            } else {
                match tree_as_array(f) {
                    Some(elements) => match decode_err_items(elements) {
                        Some(list) => Some(list),
                        None => {
                            return None;
                        },
                    },
                    None => {
                        return None;
                    },
                }
            }
        },
    };
    Some(GoogleApiError { error: GoogleApiErrorDetail { code, message, status, errors } })
}

} // verus!
