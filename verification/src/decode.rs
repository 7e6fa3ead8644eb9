//! Structural decoders for the simple value objects.
//!
//! Every decoder takes a [`JsonValue`] and either produces the typed value or
//! reports that the tree does not have the required shape.  The contract of a
//! decoder is relational: on success the result satisfies the type's
//! `..._matches` predicate, which pins every field down; on failure no value
//! of the type satisfies it.

use crate::json::{
    get_i32, get_opt_str, get_str, get_time, lookup_field, opt_str, req_i32, req_str, req_time,
    slookup, JsonValue,
};
use crate::types::{Badge, CommunityRule, Image, ImageCopy, Link, ReportDetails, ReportReason};
use vstd::prelude::*;

verus! {

/// `out` is the [`Badge`] described by the object `v`.
pub open spec fn badge_matches(v: JsonValue, out: Badge) -> bool {
    match v {
        JsonValue::Obj(fields) => {
            let f = fields@;
            &&& req_i32(f, "id"@) == Some(out.id)
            &&& req_str(f, "badgeTitle"@) == Some(out.badge_type)
        },
        _ => false,
    }
}

/// Decodes a [`Badge`].
pub fn decode_badge(v: &JsonValue) -> (r: Option<Badge>)
    ensures
        match r {
            Some(out) => badge_matches(*v, out),
            None => forall|out: Badge| !badge_matches(*v, out),
        },
{
    match v {
        JsonValue::Obj(fields) => {
            let id = match get_i32(fields, "id") {
                Some(x) => x,
                None => {
                    return None;
                },
            };
            let badge_type = match get_str(fields, "badgeTitle") {
                Some(x) => x,
                None => {
                    return None;
                },
            };
            Some(Badge { id, badge_type })
        },
        _ => None,
    }
}

/// The elements of `a` describe the badges `out`, element by element.
pub open spec fn badge_list_matches(a: Seq<JsonValue>, out: Seq<Badge>) -> bool {
    &&& a.len() == out.len()
    &&& forall|i: int| 0 <= i < a.len() ==> badge_matches(a[i], #[trigger] out[i])
}

/// Decodes an array of badges.
pub fn decode_badge_list(arr: &Vec<JsonValue>) -> (r: Option<Vec<Badge>>)
    ensures
        match r {
            Some(out) => badge_list_matches(arr@, out@),
            None => forall|out: Seq<Badge>| !badge_list_matches(arr@, out),
        },
{
    let mut out: Vec<Badge> = Vec::new();
    let mut i: usize = 0;
    while i < arr.len()
        invariant
            i <= arr@.len(),
            out@.len() == i,
            forall|j: int| 0 <= j < i ==> badge_matches(arr@[j], #[trigger] out@[j]),
        decreases arr@.len() - i,
    {
        match decode_badge(&arr[i]) {
            Some(x) => {
                out.push(x);
            },
            None => {
                proof {
                    assert forall|o: Seq<Badge>| !badge_list_matches(arr@, o) by {
                        if badge_list_matches(arr@, o) {
                            assert(badge_matches(arr@[i as int], o[i as int]));
                        }
                    }
                }
                return None;
            },
        }
        i += 1;
    }
    Some(out)
}

/// `out` is the [`ReportReason`] described by the object `v`.
pub open spec fn report_reason_matches(v: JsonValue, out: ReportReason) -> bool {
    match v {
        JsonValue::Obj(fields) => {
            let f = fields@;
            &&& req_i32(f, "id"@) == Some(out.id)
            &&& req_str(f, "title"@) == Some(out.title)
            &&& opt_str(f, "description"@) == Some(out.description)
        },
        _ => false,
    }
}

/// Decodes a [`ReportReason`].
pub fn decode_report_reason(v: &JsonValue) -> (r: Option<ReportReason>)
    ensures
        match r {
            Some(out) => report_reason_matches(*v, out),
            None => forall|out: ReportReason| !report_reason_matches(*v, out),
        },
{
    match v {
        JsonValue::Obj(fields) => {
            let id = match get_i32(fields, "id") {
                Some(x) => x,
                None => {
                    return None;
                },
            };
            let title = match get_str(fields, "title") {
                Some(x) => x,
                None => {
                    return None;
                },
            };
            let description = match get_opt_str(fields, "description") {
                Some(x) => x,
                None => {
                    return None;
                },
            };
            Some(ReportReason { id, title, description })
        },
        _ => None,
    }
}

/// The elements of `a` describe the report reasons `out`.
pub open spec fn report_reason_list_matches(a: Seq<JsonValue>, out: Seq<ReportReason>) -> bool {
    &&& a.len() == out.len()
    &&& forall|i: int| 0 <= i < a.len() ==> report_reason_matches(a[i], #[trigger] out[i])
}

/// Decodes an array of report reasons.
pub fn decode_report_reason_list(arr: &Vec<JsonValue>) -> (r: Option<Vec<ReportReason>>)
    ensures
        match r {
            Some(out) => report_reason_list_matches(arr@, out@),
            None => forall|out: Seq<ReportReason>| !report_reason_list_matches(arr@, out),
        },
{
    let mut out: Vec<ReportReason> = Vec::new();
    let mut i: usize = 0;
    while i < arr.len()
        invariant
            i <= arr@.len(),
            out@.len() == i,
            forall|j: int| 0 <= j < i ==> report_reason_matches(arr@[j], #[trigger] out@[j]),
        decreases arr@.len() - i,
    {
        match decode_report_reason(&arr[i]) {
            Some(x) => {
                out.push(x);
            },
            None => {
                proof {
                    assert forall|o: Seq<ReportReason>| !report_reason_list_matches(arr@, o) by {
                        if report_reason_list_matches(arr@, o) {
                            assert(report_reason_matches(arr@[i as int], o[i as int]));
                        }
                    }
                }
                return None;
            },
        }
        i += 1;
    }
    Some(out)
}

/// `out` is the [`ReportDetails`] described by the object `v`.
pub open spec fn report_details_matches(v: JsonValue, out: ReportDetails) -> bool {
    match v {
        JsonValue::Obj(fields) => {
            let f = fields@;
            &&& req_i32(f, "noReports"@) == Some(out.no_reports)
            &&& req_i32(f, "noPostReports"@) == Some(out.no_post_reports)
            &&& req_i32(f, "noCommentReports"@) == Some(out.no_comment_reports)
        },
        _ => false,
    }
}

/// Decodes a [`ReportDetails`].
pub fn decode_report_details(v: &JsonValue) -> (r: Option<ReportDetails>)
    ensures
        match r {
            Some(out) => report_details_matches(*v, out),
            None => forall|out: ReportDetails| !report_details_matches(*v, out),
        },
{
    match v {
        JsonValue::Obj(fields) => {
            let no_reports = match get_i32(fields, "noReports") {
                Some(x) => x,
                None => {
                    return None;
                },
            };
            let no_post_reports = match get_i32(fields, "noPostReports") {
                Some(x) => x,
                None => {
                    return None;
                },
            };
            let no_comment_reports = match get_i32(fields, "noCommentReports") {
                Some(x) => x,
                None => {
                    return None;
                },
            };
            Some(ReportDetails { no_reports, no_post_reports, no_comment_reports })
        },
        _ => None,
    }
}

/// `out` is the [`CommunityRule`] described by the object `v`.
pub open spec fn community_rule_matches(v: JsonValue, out: CommunityRule) -> bool {
    match v {
        JsonValue::Obj(fields) => {
            let f = fields@;
            &&& req_i32(f, "id"@) == Some(out.id)
            &&& req_str(f, "rule"@) == Some(out.rule)
            &&& opt_str(f, "description"@) == Some(out.description)
            &&& req_str(f, "communityId"@) == Some(out.community_id)
            &&& req_i32(f, "zIndex"@) == Some(out.z_index)
            &&& req_str(f, "createdBy"@) == Some(out.created_by)
            &&& req_time(f, "createdAt"@) == Some(out.created_at)
        },
        _ => false,
    }
}

/// Decodes a [`CommunityRule`].
pub fn decode_community_rule(v: &JsonValue) -> (r: Option<CommunityRule>)
    ensures
        match r {
            Some(out) => community_rule_matches(*v, out),
            None => forall|out: CommunityRule| !community_rule_matches(*v, out),
        },
{
    match v {
        JsonValue::Obj(fields) => {
            let id = match get_i32(fields, "id") {
                Some(x) => x,
                None => {
                    return None;
                },
            };
            let rule = match get_str(fields, "rule") {
                Some(x) => x,
                None => {
                    return None;
                },
            };
            let description = match get_opt_str(fields, "description") {
                Some(x) => x,
                None => {
                    return None;
                },
            };
            let community_id = match get_str(fields, "communityId") {
                Some(x) => x,
                None => {
                    return None;
                },
            };
            let z_index = match get_i32(fields, "zIndex") {
                Some(x) => x,
                None => {
                    return None;
                },
            };
            let created_by = match get_str(fields, "createdBy") {
                Some(x) => x,
                None => {
                    return None;
                },
            };
            let created_at = match get_time(fields, "createdAt") {
                Some(x) => x,
                None => {
                    return None;
                },
            };
            Some(
                CommunityRule {
                    id,
                    rule,
                    description,
                    community_id,
                    z_index,
                    created_by,
                    created_at,
                },
            )
        },
        _ => None,
    }
}

/// The elements of `a` describe the community rules `out`.
pub open spec fn community_rule_list_matches(a: Seq<JsonValue>, out: Seq<CommunityRule>) -> bool {
    &&& a.len() == out.len()
    &&& forall|i: int| 0 <= i < a.len() ==> community_rule_matches(a[i], #[trigger] out[i])
}

/// Decodes an array of community rules.
pub fn decode_community_rule_list(arr: &Vec<JsonValue>) -> (r: Option<Vec<CommunityRule>>)
    ensures
        match r {
            Some(out) => community_rule_list_matches(arr@, out@),
            None => forall|out: Seq<CommunityRule>| !community_rule_list_matches(arr@, out),
        },
{
    let mut out: Vec<CommunityRule> = Vec::new();
    let mut i: usize = 0;
    while i < arr.len()
        invariant
            i <= arr@.len(),
            out@.len() == i,
            forall|j: int| 0 <= j < i ==> community_rule_matches(arr@[j], #[trigger] out@[j]),
        decreases arr@.len() - i,
    {
        match decode_community_rule(&arr[i]) {
            Some(x) => {
                out.push(x);
            },
            None => {
                proof {
                    assert forall|o: Seq<CommunityRule>| !community_rule_list_matches(arr@, o) by {
                        if community_rule_list_matches(arr@, o) {
                            assert(community_rule_matches(arr@[i as int], o[i as int]));
                        }
                    }
                }
                return None;
            },
        }
        i += 1;
    }
    Some(out)
}

/// `out` is the [`ImageCopy`] described by the object `v`.
pub open spec fn image_copy_matches(v: JsonValue, out: ImageCopy) -> bool {
    match v {
        JsonValue::Obj(fields) => {
            let f = fields@;
            &&& opt_str(f, "name"@) == Some(out.name)
            &&& req_i32(f, "width"@) == Some(out.width)
            &&& req_i32(f, "height"@) == Some(out.height)
            &&& req_i32(f, "boxWidth"@) == Some(out.box_width)
            &&& req_i32(f, "boxHeight"@) == Some(out.box_height)
            &&& req_str(f, "objectFit"@) == Some(out.object_fit)
            &&& req_str(f, "format"@) == Some(out.format)
            &&& req_str(f, "url"@) == Some(out.url)
        },
        _ => false,
    }
}

/// Decodes an [`ImageCopy`].
pub fn decode_image_copy(v: &JsonValue) -> (r: Option<ImageCopy>)
    ensures
        match r {
            Some(out) => image_copy_matches(*v, out),
            None => forall|out: ImageCopy| !image_copy_matches(*v, out),
        },
{
    match v {
        JsonValue::Obj(fields) => {
            let name = match get_opt_str(fields, "name") {
                Some(x) => x,
                None => {
                    return None;
                },
            };
            let width = match get_i32(fields, "width") {
                Some(x) => x,
                None => {
                    return None;
                },
            };
            let height = match get_i32(fields, "height") {
                Some(x) => x,
                None => {
                    return None;
                },
            };
            let box_width = match get_i32(fields, "boxWidth") {
                Some(x) => x,
                None => {
                    return None;
                },
            };
            let box_height = match get_i32(fields, "boxHeight") {
                Some(x) => x,
                None => {
                    return None;
                },
            };
            let object_fit = match get_str(fields, "objectFit") {
                Some(x) => x,
                None => {
                    return None;
                },
            };
            let format = match get_str(fields, "format") {
                Some(x) => x,
                None => {
                    return None;
                },
            };
            let url = match get_str(fields, "url") {
                Some(x) => x,
                None => {
                    return None;
                },
            };
            Some(
                ImageCopy {
                    name,
                    width,
                    height,
                    box_width,
                    box_height,
                    object_fit,
                    format,
                    url,
                },
            )
        },
        _ => None,
    }
}

/// The elements of `a` describe the image copies `out`.
pub open spec fn image_copy_list_matches(a: Seq<JsonValue>, out: Seq<ImageCopy>) -> bool {
    &&& a.len() == out.len()
    &&& forall|i: int| 0 <= i < a.len() ==> image_copy_matches(a[i], #[trigger] out[i])
}

/// Decodes an array of image copies.
pub fn decode_image_copy_list(arr: &Vec<JsonValue>) -> (r: Option<Vec<ImageCopy>>)
    ensures
        match r {
            Some(out) => image_copy_list_matches(arr@, out@),
            None => forall|out: Seq<ImageCopy>| !image_copy_list_matches(arr@, out),
        },
{
    let mut out: Vec<ImageCopy> = Vec::new();
    let mut i: usize = 0;
    while i < arr.len()
        invariant
            i <= arr@.len(),
            out@.len() == i,
            forall|j: int| 0 <= j < i ==> image_copy_matches(arr@[j], #[trigger] out@[j]),
        decreases arr@.len() - i,
    {
        match decode_image_copy(&arr[i]) {
            Some(x) => {
                out.push(x);
            },
            None => {
                proof {
                    assert forall|o: Seq<ImageCopy>| !image_copy_list_matches(arr@, o) by {
                        if image_copy_list_matches(arr@, o) {
                            assert(image_copy_matches(arr@[i as int], o[i as int]));
                        }
                    }
                }
                return None;
            },
        }
        i += 1;
    }
    Some(out)
}

/// `out` is the [`Image`] described by the object `v`.
pub open spec fn image_matches(v: JsonValue, out: Image) -> bool {
    match v {
        JsonValue::Obj(fields) => {
            let f = fields@;
            &&& req_str(f, "id"@) == Some(out.id)
            &&& req_str(f, "format"@) == Some(out.format)
            &&& req_str(f, "mimetype"@) == Some(out.mimetype)
            &&& req_i32(f, "width"@) == Some(out.width)
            &&& req_i32(f, "height"@) == Some(out.height)
            &&& req_i32(f, "size"@) == Some(out.size)
            &&& req_str(f, "averageColor"@) == Some(out.average_color)
            &&& req_str(f, "url"@) == Some(out.url)
            &&& match slookup(f, "copies"@) {
                Some(JsonValue::Arr(a)) => image_copy_list_matches(a@, out.copies@),
                _ => false,
            }
        },
        _ => false,
    }
}

/// Decodes an [`Image`].
pub fn decode_image(v: &JsonValue) -> (r: Option<Image>)
    ensures
        match r {
            Some(out) => image_matches(*v, out),
            None => forall|out: Image| !image_matches(*v, out),
        },
{
    match v {
        JsonValue::Obj(fields) => {
            let id = match get_str(fields, "id") {
                Some(x) => x,
                None => {
                    return None;
                },
            };
            let format = match get_str(fields, "format") {
                Some(x) => x,
                None => {
                    return None;
                },
            };
            let mimetype = match get_str(fields, "mimetype") {
                Some(x) => x,
                None => {
                    return None;
                },
            };
            let width = match get_i32(fields, "width") {
                Some(x) => x,
                None => {
                    return None;
                },
            };
            let height = match get_i32(fields, "height") {
                Some(x) => x,
                None => {
                    return None;
                },
            };
            let size = match get_i32(fields, "size") {
                Some(x) => x,
                None => {
                    return None;
                },
            };
            let average_color = match get_str(fields, "averageColor") {
                Some(x) => x,
                None => {
                    return None;
                },
            };
            let url = match get_str(fields, "url") {
                Some(x) => x,
                None => {
                    return None;
                },
            };
            let copies = match lookup_field(fields, "copies") {
                Some(w) => match w {
                    JsonValue::Arr(a) => match decode_image_copy_list(a) {
                        Some(xs) => xs,
                        None => {
                            return None;
                        },
                    },
                    _ => {
                        return None;
                    },
                },
                None => {
                    return None;
                },
            };
            Some(
                Image {
                    id,
                    format,
                    mimetype,
                    width,
                    height,
                    size,
                    average_color,
                    url,
                    copies,
                },
            )
        },
        _ => None,
    }
}

/// The member named `key`, missing or `null`, describes no image; otherwise
/// it is an object describing `out`.
pub open spec fn opt_image_matches(w: Option<JsonValue>, out: Option<Image>) -> bool {
    match w {
        None => out is None,
        Some(JsonValue::Null) => out is None,
        Some(x) => out is Some && image_matches(x, out->0),
    }
}

/// Decodes an optional image member of an object.
pub fn decode_opt_image(fields: &Vec<(String, JsonValue)>, key: &str) -> (r: Option<Option<Image>>)
    ensures
        match r {
            Some(out) => opt_image_matches(slookup(fields@, key@), out),
            None => forall|out: Option<Image>| !opt_image_matches(slookup(fields@, key@), out),
        },
{
    match lookup_field(fields, key) {
        None => Some(None),
        Some(w) => match w {
            JsonValue::Null => Some(None),
            _ => match decode_image(w) {
                Some(img) => Some(Some(img)),
                None => None,
            },
        },
    }
}

/// `out` is the [`Link`] described by the object `v`.
pub open spec fn link_matches(v: JsonValue, out: Link) -> bool {
    match v {
        JsonValue::Obj(fields) => {
            let f = fields@;
            &&& req_str(f, "url"@) == Some(out.url)
            &&& req_str(f, "hostname"@) == Some(out.hostname)
            &&& opt_image_matches(slookup(f, "image"@), out.image)
        },
        _ => false,
    }
}

/// Decodes a [`Link`].
pub fn decode_link(v: &JsonValue) -> (r: Option<Link>)
    ensures
        match r {
            Some(out) => link_matches(*v, out),
            None => forall|out: Link| !link_matches(*v, out),
        },
{
    match v {
        JsonValue::Obj(fields) => {
            let url = match get_str(fields, "url") {
                Some(x) => x,
                None => {
                    return None;
                },
            };
            let hostname = match get_str(fields, "hostname") {
                Some(x) => x,
                None => {
                    return None;
                },
            };
            let image = match decode_opt_image(fields, "image") {
                Some(x) => x,
                None => {
                    return None;
                },
            };
            Some(Link { url, hostname, image })
        },
        _ => None,
    }
}

/// The elements of `a` are the strings `out`.
pub open spec fn string_list_matches(a: Seq<JsonValue>, out: Seq<String>) -> bool {
    &&& a.len() == out.len()
    &&& forall|i: int| 0 <= i < a.len() ==> a[i] == JsonValue::Str(#[trigger] out[i])
}

/// Decodes an array of strings.
pub fn decode_string_list(arr: &Vec<JsonValue>) -> (r: Option<Vec<String>>)
    ensures
        match r {
            Some(out) => string_list_matches(arr@, out@),
            None => forall|out: Seq<String>| !string_list_matches(arr@, out),
        },
{
    let mut out: Vec<String> = Vec::new();
    let mut i: usize = 0;
    while i < arr.len()
        invariant
            i <= arr@.len(),
            out@.len() == i,
            forall|j: int| 0 <= j < i ==> arr@[j] == JsonValue::Str(#[trigger] out@[j]),
        decreases arr@.len() - i,
    {
        match &arr[i] {
            JsonValue::Str(s) => {
                out.push(s.clone());
            },
            _ => {
                proof {
                    assert forall|o: Seq<String>| !string_list_matches(arr@, o) by {
                        if string_list_matches(arr@, o) {
                            assert(arr@[i as int] == JsonValue::Str(o[i as int]));
                        }
                    }
                }
                return None;
            },
        }
        i += 1;
    }
    Some(out)
}

} // verus!
