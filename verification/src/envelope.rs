//! The envelope that wraps every answer of the controller's API, and how it
//! is read out of a JSON document.

use vstd::prelude::*;
use vstd::string::StringExecFns;
use crate::json::{
    find_member, lemma_items_view, lemma_members_view, lookup, Json, JsonValue, Member,
    MemberValue,
};
use crate::model::{ProtocolError, ProtocolErrorView, Site, SiteView};
use crate::text::same_text;

verus! {

/// An answer of the API: `{"meta": {"rc": .., "msg": ..}, "data": ..}`.
///
/// The payload counts only where the result code is `ok`.
#[derive(Debug, PartialEq, Eq)]
pub struct ApiEnvelope<T> {
    pub result_code: String,
    pub message: Option<String>,
    pub payload: Option<T>,
}

/// The mathematical value of an [`ApiEnvelope`].
pub struct ApiEnvelopeView<T> {
    pub result_code: Seq<char>,
    pub message: Option<Seq<char>>,
    pub payload: Option<T>,
}

impl<T: DeepView> View for ApiEnvelope<T> {
    type V = ApiEnvelopeView<T::V>;

    open spec fn view(&self) -> ApiEnvelopeView<T::V> {
        ApiEnvelopeView {
            result_code: self.result_code@,
            message: self.message.deep_view(),
            payload: self.payload.deep_view(),
        }
    }
}

impl<T: DeepView> DeepView for ApiEnvelope<T> {
    type V = ApiEnvelopeView<T::V>;

    open spec fn deep_view(&self) -> ApiEnvelopeView<T::V> {
        self@
    }
}

impl<T> ApiEnvelopeView<T> {
    /// The result code says `ok`.
    pub open spec fn accepted(self) -> bool {
        self.result_code == "ok"@
    }

    /// The diagnostic of a refused call: the controller's message, or a
    /// placeholder where it sent none.
    pub open spec fn diagnostic(self) -> Seq<char> {
        match self.message {
            Some(m) => m,
            None => "Unknown error"@,
        }
    }

    /// The payload where the result code is `ok`, the diagnostic otherwise.
    pub open spec fn outcome(self) -> Result<Option<T>, ProtocolErrorView> {
        if self.accepted() {
            Ok(self.payload)
        } else {
            Err(ProtocolErrorView::ApiError { message: self.diagnostic() })
        }
    }
}

impl<T: DeepView> ApiEnvelope<T> {
    /// Whether the result code says `ok`.
    pub fn accepted(&self) -> (r: bool)
        ensures
            r == self@.accepted(),
    {
        same_text(self.result_code.as_str(), "ok")
    }

    /// The payload of an accepted call, or the error of a refused one. The
    /// payload of a refused call is dropped unread.
    pub fn into_outcome(self) -> (r: Result<Option<T>, ProtocolError>)
        ensures
            r is Ok <==> self@.accepted(),
            r matches Ok(p) ==> p == self.payload,
            r matches Err(e) ==> Err::<Option<T::V>, _>(e@) == self@.outcome(),
    {
        if self.accepted() {
            Ok(self.payload)
        } else {
            let message = match self.message {
                Some(m) => m,
                None => String::from_str("Unknown error"),
            };
            Err(ProtocolError::ApiError { message })
        }
    }
}

/// A text that must be there: `None` where the member is missing or holds
/// anything but a text.
pub open spec fn required_text(members: Seq<MemberValue>, key: Seq<char>) -> Option<Seq<char>> {
    match lookup(members, key) {
        Some(JsonValue::Text(t)) => Some(t),
        _ => None,
    }
}

/// A text that may be left out. A missing member and `null` both read as no
/// text; anything else but a text is a fault, `None`.
pub open spec fn optional_text(members: Seq<MemberValue>, key: Seq<char>) -> Option<
    Option<Seq<char>>,
> {
    match lookup(members, key) {
        None => Some(None),
        Some(JsonValue::Null) => Some(None),
        Some(JsonValue::Text(t)) => Some(Some(t)),
        Some(_) => None,
    }
}

/// The `meta` part of an envelope.
pub struct Meta {
    pub result_code: Seq<char>,
    pub message: Option<Seq<char>>,
}

/// Reads `meta`: an object with a text `rc` and, where it has one, a text
/// `msg`.
pub open spec fn meta_of(doc: JsonValue) -> Option<Meta> {
    match doc.field("meta"@) {
        Some(JsonValue::Object(m)) => match (required_text(m, "rc"@), optional_text(m, "msg"@)) {
            (Some(rc), Some(msg)) => Some(Meta { result_code: rc, message: msg }),
            _ => None,
        },
        _ => None,
    }
}

/// Reads one site: an object with the texts `_id`, `name` and `desc`. Other
/// members are passed over.
pub open spec fn site_of(item: JsonValue) -> Option<SiteView> {
    match item {
        JsonValue::Object(m) => match (
            required_text(m, "_id"@),
            required_text(m, "name"@),
            required_text(m, "desc"@),
        ) {
            (Some(id), Some(name), Some(description)) => Some(SiteView { id, name, description }),
            _ => None,
        },
        _ => None,
    }
}

/// Reads a list of sites, item by item and in the order given; `None` where
/// any item is no site.
pub open spec fn sites_of(items: Seq<JsonValue>) -> Option<Seq<SiteView>> {
    if forall|i: int| 0 <= i < items.len() ==> (#[trigger] site_of(items[i])) is Some {
        Some(Seq::new(items.len(), |i: int| site_of(items[i])->0))
    } else {
        None
    }
}

/// Reads `data` as a list of sites. A missing member and `null` both read as
/// no payload; anything else but an array of sites is a fault, `None`.
pub open spec fn sites_payload(doc: JsonValue) -> Option<Option<Seq<SiteView>>> {
    match doc.field("data"@) {
        None => Some(None),
        Some(JsonValue::Null) => Some(None),
        Some(JsonValue::Array(items)) => match sites_of(items) {
            Some(sites) => Some(Some(sites)),
            None => None,
        },
        Some(_) => None,
    }
}

/// Reads `data` as it stands. A missing member and `null` both read as no
/// payload.
pub open spec fn any_payload(doc: JsonValue) -> Option<JsonValue> {
    match doc.field("data"@) {
        None => None,
        Some(JsonValue::Null) => None,
        Some(v) => Some(v),
    }
}

/// The envelope of a sites listing, `None` where the document is none.
pub open spec fn sites_envelope(doc: JsonValue) -> Option<ApiEnvelopeView<Seq<SiteView>>> {
    match (meta_of(doc), sites_payload(doc)) {
        (Some(meta), Some(payload)) => Some(
            ApiEnvelopeView { result_code: meta.result_code, message: meta.message, payload },
        ),
        _ => None,
    }
}

/// The envelope of a command's answer, whatever its payload, `None` where the
/// document is none.
pub open spec fn command_envelope(doc: JsonValue) -> Option<ApiEnvelopeView<JsonValue>> {
    match meta_of(doc) {
        Some(meta) => Some(
            ApiEnvelopeView {
                result_code: meta.result_code,
                message: meta.message,
                payload: any_payload(doc),
            },
        ),
        None => None,
    }
}

fn read_required_text(members: &Vec<Member>, key: &str) -> (r: Option<String>)
    ensures
        r.deep_view() == required_text(members.deep_view(), key@),
{
    match find_member(members, key) {
        Some(Json::Text(t)) => Some(t.clone()),
        _ => None,
    }
}

fn read_optional_text(members: &Vec<Member>, key: &str) -> (r: Option<Option<String>>)
    ensures
        r.deep_view() == optional_text(members.deep_view(), key@),
{
    match find_member(members, key) {
        None => Some(None),
        Some(Json::Null) => Some(None),
        Some(Json::Text(t)) => Some(Some(t.clone())),
        Some(_) => None,
    }
}

/// The `meta` part as it is read, before it joins a payload.
struct MetaParts {
    result_code: String,
    message: Option<String>,
}

fn read_meta(doc: &Json) -> (r: Option<MetaParts>)
    ensures
        r is Some <==> meta_of(doc@) is Some,
        r matches Some(m) ==> meta_of(doc@) == Some(
            Meta { result_code: m.result_code@, message: m.message.deep_view() },
        ),
{
    match doc.field("meta") {
        Some(Json::Object(members)) => {
            proof {
                lemma_members_view(*members);
            }
            let rc = read_required_text(members, "rc");
            let msg = read_optional_text(members, "msg");
            match (rc, msg) {
                (Some(result_code), Some(message)) => Some(MetaParts { result_code, message }),
                _ => None,
            }
        },
        _ => None,
    }
}

/// Reads one site out of a JSON value; see [`site_of`].
pub fn read_site(item: &Json) -> (r: Option<Site>)
    ensures
        r.deep_view() == site_of(item@),
{
    match item {
        Json::Object(members) => {
            proof {
                lemma_members_view(*members);
            }
            let id = read_required_text(members, "_id");
            let name = read_required_text(members, "name");
            let description = read_required_text(members, "desc");
            match (id, name, description) {
                (Some(id), Some(name), Some(description)) => Some(Site { id, name, description }),
                _ => None,
            }
        },
        _ => None,
    }
}

/// Reads a list of sites in the order given; see [`sites_of`].
pub fn read_sites(items: &Vec<Json>) -> (r: Option<Vec<Site>>)
    ensures
        r.deep_view() == sites_of(items.deep_view()),
{
    let ghost all = items.deep_view();
    let mut sites: Vec<Site> = Vec::new();
    let mut i: usize = 0;
    while i < items.len()
        invariant
            i <= items.len(),
            all == items.deep_view(),
            sites.len() == i,
            forall|k: int| 0 <= k < i ==> site_of(all[k]) == Some(#[trigger] sites[k]@),
        decreases items.len() - i,
    {
        match read_site(&items[i]) {
            Some(site) => {
                sites.push(site);
            },
            None => {
                assert(!(site_of(all[i as int]) is Some));
                return None;
            },
        }
        i += 1;
    }
    proof {
        assert forall|k: int| 0 <= k < all.len() implies (#[trigger] site_of(all[k])) is Some by {
            assert(site_of(all[k]) == Some(sites[k]@));
        }
    }
    Some(sites)
}

/// Reads the envelope of a sites listing; see [`sites_envelope`].
pub fn decode_sites_envelope(doc: &Json) -> (r: Option<ApiEnvelope<Vec<Site>>>)
    ensures
        r.deep_view() == sites_envelope(doc@),
{
    let meta = match read_meta(doc) {
        Some(meta) => meta,
        None => {
            return None;
        },
    };
    let payload = match doc.field("data") {
        None => None,
        Some(Json::Null) => None,
        Some(Json::Array(items)) => {
            proof {
                lemma_items_view(*items);
            }
            match read_sites(items) {
                Some(sites) => Some(sites),
                None => {
                    return None;
                },
            }
        },
        Some(_) => {
            return None;
        },
    };
    Some(ApiEnvelope { result_code: meta.result_code, message: meta.message, payload })
}

/// Reads the envelope of a command's answer; see [`command_envelope`].
pub fn decode_command_envelope(doc: &Json) -> (r: Option<ApiEnvelope<Json>>)
    ensures
        r.deep_view() == command_envelope(doc@),
{
    let meta = match read_meta(doc) {
        Some(meta) => meta,
        None => {
            return None;
        },
    };
    let payload = match doc.field("data") {
        None => None,
        Some(Json::Null) => None,
        Some(v) => Some(v.clone()),
    };
    Some(ApiEnvelope { result_code: meta.result_code, message: meta.message, payload })
}

} // verus!
