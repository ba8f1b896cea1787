//! Extraction of the CCA attestation token from a RATSD response: the JSON
//! envelope carries a base64 CMW collection, whose `configfs-tsm` item from
//! the `arm_cca_guest` provider holds the token as its `outblob`.
use vstd::prelude::*;
use vstd::utf8::{decode_utf8, encode_utf8, valid_utf8};
use base64::Engine;
use crate::attesters::ratsd::RatsdError;
use crate::text::{concat3, contains_text, decimal, owned, starts_with, str_contains, str_eq, trim, trim_string};
use super::utils::types::opt_text;

verus! {

#[verifier::external_type_specification]
#[verifier::external_body]
pub struct ExCmwCollection(cmw::collection::Collection);

/// The provider name of the Arm CCA guest TSM.
pub const CCA_PROVIDER: &'static str = "arm_cca_guest";

// ---------------------------------------------------------------------------
// Outside decoders
// ---------------------------------------------------------------------------

/// What parsing `doc` as JSON and reading the string member `key` gives:
/// `None` when `doc` is not JSON, `Some(None)` when there is no such string
/// member (not an object, no such key, or not a string).
pub uninterp spec fn json_string_member(doc: Seq<u8>, key: Seq<char>) -> Option<Option<Seq<char>>>;

/// `serde_json::from_slice::<Value>` then `get(key)` and `as_str`: the outcome
/// is [`json_string_member`]; the parse error comes back as its text.
#[verifier::external_body]
fn json_member(doc: &[u8], key: &str) -> (r: Result<Option<String>, String>)
    ensures
        match r {
            Err(_) => json_string_member(doc@, key@) is None,
            Ok(o) => json_string_member(doc@, key@) == Some(opt_text(o)),
        },
{
    serde_json::from_slice::<serde_json::Value>(doc).map(
        |v| v.get(key).and_then(|x| x.as_str()).map(|s| s.to_owned()),
    ).map_err(|e| e.to_string())
}

/// What the standard base64 alphabet (with padding) decodes `text` to;
/// `None` where the decoder reports an error.
pub uninterp spec fn base64_standard_decoding(text: Seq<char>) -> Option<Seq<u8>>;

/// What the URL-safe base64 alphabet without padding decodes `text` to;
/// `None` where the decoder reports an error.
pub uninterp spec fn base64_url_nopad_decoding(text: Seq<char>) -> Option<Seq<u8>>;

/// `general_purpose::STANDARD.decode`: the outcome is
/// [`base64_standard_decoding`]; the error comes back as its text.
#[verifier::external_body]
fn base64_standard_decode(text: &str) -> (r: Result<Vec<u8>, String>)
    ensures
        r is Ok <==> base64_standard_decoding(text@) is Some,
        r matches Ok(b) ==> b@ == base64_standard_decoding(text@)->Some_0,
{
    base64::engine::general_purpose::STANDARD.decode(text).map_err(|e| e.to_string())
}

/// `general_purpose::URL_SAFE_NO_PAD.decode`: the outcome is
/// [`base64_url_nopad_decoding`]; the error comes back as its text.
#[verifier::external_body]
fn base64_url_nopad_decode(text: &str) -> (r: Result<Vec<u8>, String>)
    ensures
        r is Ok <==> base64_url_nopad_decoding(text@) is Some,
        r matches Ok(b) ==> b@ == base64_url_nopad_decoding(text@)->Some_0,
{
    base64::engine::general_purpose::URL_SAFE_NO_PAD.decode(text).map_err(|e| e.to_string())
}

/// `std::str::from_utf8`, returned as an owned string: succeeds exactly for
/// valid UTF-8, with the decoded characters; the error comes back as its
/// text.
#[verifier::external_body]
fn utf8_text(bytes: &[u8]) -> (r: Result<String, String>)
    ensures
        r is Ok <==> valid_utf8(bytes@),
        r matches Ok(s) ==> s@ == decode_utf8(bytes@),
{
    std::str::from_utf8(bytes).map(|s| s.to_owned()).map_err(|e| e.to_string())
}

// ---------------------------------------------------------------------------
// CMW collections
// ---------------------------------------------------------------------------

/// A key of a CMW collection.
#[derive(Debug)]
pub enum CmwLabel {
    Str(String),
    Uint(u64),
}

/// The value of a [`CmwLabel`].
pub enum CmwLabelView {
    Str(Seq<char>),
    Uint(u64),
}

impl View for CmwLabel {
    type V = CmwLabelView;

    open spec fn view(&self) -> CmwLabelView {
        match self {
            CmwLabel::Str(s) => CmwLabelView::Str(s@),
            CmwLabel::Uint(u) => CmwLabelView::Uint(*u),
        }
    }
}

/// A CMW record: its media type (as `Monad::type_` renders it) and value.
#[derive(Debug)]
pub struct CmwMonad {
    pub typ: String,
    pub value: Vec<u8>,
}

/// The value of a [`CmwMonad`].
pub struct CmwMonadView {
    pub typ: Seq<char>,
    pub value: Seq<u8>,
}

impl View for CmwMonad {
    type V = CmwMonadView;

    open spec fn view(&self) -> CmwMonadView {
        CmwMonadView { typ: self.typ@, value: self.value@ }
    }
}

/// An item of a CMW collection: a record, or a nested collection.
pub enum CmwNode {
    Monad(CmwMonad),
    Collection,
}

/// The value of a [`CmwNode`].
pub enum CmwNodeView {
    Monad(CmwMonadView),
    Collection,
}

impl View for CmwNode {
    type V = CmwNodeView;

    open spec fn view(&self) -> CmwNodeView {
        match self {
            CmwNode::Monad(m) => CmwNodeView::Monad(m@),
            CmwNode::Collection => CmwNodeView::Collection,
        }
    }
}

/// The items a CMW collection holds, by key.
pub uninterp spec fn cmw_contents(c: cmw::collection::Collection) -> Map<CmwLabelView, CmwNodeView>;

/// The items of the CMW collection that `Collection::unmarshal_json` reads
/// from `json`; `None` where it reports an error.
pub uninterp spec fn cmw_json_collection(json: Seq<u8>) -> Option<Map<CmwLabelView, CmwNodeView>>;

/// `Collection::unmarshal_json`: the outcome is [`cmw_json_collection`],
/// and the collection holds those items; the error comes back as its text.
#[verifier::external_body]
fn cmw_unmarshal_json(json: &[u8]) -> (r: Result<cmw::collection::Collection, String>)
    ensures
        r is Ok <==> cmw_json_collection(json@) is Some,
        r matches Ok(c) ==> cmw_contents(c) == cmw_json_collection(json@)->Some_0,
{
    cmw::collection::Collection::unmarshal_json(json).map_err(|e| e.to_string())
}

/// The text by which `Collection::get_meta` orders a key: the string
/// itself, or `"##"` followed by the decimal digits of an integer key.
pub open spec fn label_text(l: CmwLabelView) -> Seq<char> {
    match l {
        CmwLabelView::Str(s) => s,
        CmwLabelView::Uint(u) => "##"@ + decimal(u as nat),
    }
}

/// Whether `a` comes no later than `b` in the order of `String::cmp`
/// (lexicographic on the UTF-8 bytes, which is lexicographic on the code
/// points).
pub open spec fn text_le(a: Seq<char>, b: Seq<char>) -> bool
    decreases a.len(),
{
    if a.len() == 0 {
        true
    } else if b.len() == 0 {
        false
    } else if a[0] == b[0] {
        text_le(a.drop_first(), b.drop_first())
    } else {
        (a[0] as u32) < (b[0] as u32)
    }
}

/// Whether the keys come in the order `get_meta` sorts them.
pub open spec fn labels_sorted(labels: Seq<CmwLabelView>) -> bool {
    forall|i: int, j: int|
        0 <= i < j < labels.len() ==> text_le(label_text(#[trigger] labels[i]), label_text(
            #[trigger] labels[j],
        ))
}

/// `Collection::get_meta`, keys only: every key of the collection, each
/// once, sorted by [`label_text`] as `String::cmp` orders it.
#[verifier::external_body]
fn cmw_meta_labels(c: &cmw::collection::Collection) -> (r: Vec<CmwLabel>)
    ensures
        r@.map_values(|l: CmwLabel| l@).no_duplicates(),
        labels_sorted(r@.map_values(|l: CmwLabel| l@)),
        forall|l: CmwLabelView|
            r@.map_values(|x: CmwLabel| x@).contains(l) <==> cmw_contents(*c).dom().contains(l),
{
    c.get_meta().into_iter().map(
        |m| match m.key {
            cmw::collection::Label::Str(s) => CmwLabel::Str(s),
            cmw::collection::Label::Uint(u) => CmwLabel::Uint(u),
        },
    ).collect()
}

/// `Collection::get_item`: the item under `key` (a record as its type and
/// value), as the collection holds it.
#[verifier::external_body]
fn cmw_get_item(c: &cmw::collection::Collection, key: &CmwLabel) -> (r: Option<CmwNode>)
    ensures
        match r {
            None => !cmw_contents(*c).dom().contains(key@),
            Some(n) => cmw_contents(*c).dom().contains(key@) && cmw_contents(*c)[key@] == n@,
        },
{
    let label = match key {
        CmwLabel::Str(s) => cmw::collection::Label::Str(s.clone()),
        CmwLabel::Uint(u) => cmw::collection::Label::Uint(*u),
    };
    c.get_item(&label).map(
        |n| match n {
            cmw::CMW::Monad(m) => CmwNode::Monad(CmwMonad { typ: m.type_(), value: m.value() }),
            cmw::CMW::Collection(_) => CmwNode::Collection,
        },
    )
}

/// The records among the items under `labels`, in that order, leaving out
/// the collection-type key `__cmwc_t`.
pub open spec fn monads_of(labels: Seq<CmwLabelView>, contents: Map<CmwLabelView, CmwNodeView>) -> Seq<
    CmwMonadView,
>
    decreases labels.len(),
{
    if labels.len() == 0 {
        seq![]
    } else {
        let rest = monads_of(labels.drop_last(), contents);
        let l = labels.last();
        if l != CmwLabelView::Str("__cmwc_t"@) && contents.dom().contains(l)
            && contents[l] is Monad {
            rest.push(contents[l]->Monad_0)
        } else {
            rest
        }
    }
}

/// Whether `labels` lists the keys of `contents`, each once, in the order
/// `get_meta` gives them.
pub open spec fn lists_keys(labels: Seq<CmwLabelView>, contents: Map<CmwLabelView, CmwNodeView>) -> bool {
    &&& labels.no_duplicates()
    &&& labels_sorted(labels)
    &&& forall|l: CmwLabelView| labels.contains(l) <==> contents.dom().contains(l)
}

/// The value of a list of records.
pub open spec fn monads_view(items: Seq<CmwMonad>) -> Seq<CmwMonadView> {
    items.map_values(|m: CmwMonad| m@)
}

/// The records of the CMW collection in `cmw_json`, in key order.
pub fn parse_cmw_items(cmw_json: &[u8]) -> (r: Result<Vec<CmwMonad>, RatsdError>)
    ensures
        r is Ok <==> cmw_json_collection(cmw_json@) is Some,
        r matches Ok(items) ==> exists|labels: Seq<CmwLabelView>|
            lists_keys(labels, cmw_json_collection(cmw_json@)->Some_0) && monads_view(items@)
                == monads_of(labels, cmw_json_collection(cmw_json@)->Some_0),
        r matches Err(e) ==> (e matches RatsdError::ResponseParse(m) && starts_with(
            m@,
            "CMW collection: "@,
        )),
{
    let collection = match cmw_unmarshal_json(cmw_json) {
        Ok(c) => c,
        Err(e) => {
            let m = concat3("CMW collection: ", e.as_str(), "");
            proof {
                reveal_strlit("CMW collection: ");
                reveal_strlit("");
                assert(m@.subrange(0, 16) =~= "CMW collection: "@);
            }
            return Err(RatsdError::ResponseParse(m));
        },
    };
    let ghost contents = cmw_contents(collection);
    let labels = cmw_meta_labels(&collection);
    let ghost lv = labels@.map_values(|l: CmwLabel| l@);
    let mut items: Vec<CmwMonad> = Vec::new();
    for i in 0..labels.len()
        invariant
            lv == labels@.map_values(|l: CmwLabel| l@),
            contents == cmw_contents(collection),
            monads_view(items@) == monads_of(lv.subrange(0, i as int), contents),
    {
        let key = &labels[i];
        let ghost prev = items@;
        let reserved = match key {
            CmwLabel::Str(s) => str_eq(s.as_str(), "__cmwc_t"),
            CmwLabel::Uint(_) => false,
        };
        proof {
            reveal_strlit("__cmwc_t");
            assert(lv.subrange(0, i + 1).drop_last() =~= lv.subrange(0, i as int));
            assert(lv.subrange(0, i + 1).last() == key@);
        }
        if !reserved {
            match cmw_get_item(&collection, key) {
                Some(CmwNode::Monad(m)) => {
                    let ghost mv = m@;
                    items.push(m);
                    assert(monads_view(items@) =~= monads_view(prev).push(mv));
                },
                _ => {},
            }
        }
        assert(monads_view(items@) == monads_of(lv.subrange(0, i + 1), contents));
    }
    assert(lv.subrange(0, labels@.len() as int) =~= lv);
    Ok(items)
}

// ---------------------------------------------------------------------------
// Finding the CCA token
// ---------------------------------------------------------------------------

/// Whether a record is the CCA guest's TSM report: its type names
/// `configfs-tsm`, and its value is JSON whose `provider` (absent or not a
/// string: empty), trimmed, is [`CCA_PROVIDER`].
pub open spec fn is_cca_report(m: CmwMonadView) -> bool {
    &&& contains_text(m.typ, "configfs-tsm"@)
    &&& json_string_member(m.value, "provider"@) matches Some(p)
    &&& trim(
        match p {
            Some(t) => t,
            None => Seq::empty(),
        },
    ) == "arm_cca_guest"@
}

/// The outcome of looking for the CCA token among records.
pub enum OutblobSearch {
    /// The first CCA report's decoded `outblob`.
    Found(Seq<u8>),
    /// The first CCA report has no `outblob` string.
    MissingOutblob,
    /// The first CCA report's `outblob` is not URL-safe unpadded base64.
    BadOutblob,
    /// No record is a CCA report.
    NotFound,
}

/// Looks at the records in order; the first CCA report decides.
pub open spec fn search_outblob(items: Seq<CmwMonadView>) -> OutblobSearch
    decreases items.len(),
{
    if items.len() == 0 {
        OutblobSearch::NotFound
    } else if is_cca_report(items[0]) {
        match json_string_member(items[0].value, "outblob"@) {
            Some(Some(b64)) => match base64_url_nopad_decoding(b64) {
                Some(b) => OutblobSearch::Found(b),
                None => OutblobSearch::BadOutblob,
            },
            _ => OutblobSearch::MissingOutblob,
        }
    } else {
        search_outblob(items.drop_first())
    }
}

/// The message of the error when no CCA token is found.
pub open spec fn not_found_text() -> Seq<char> {
    "CCA evidence not found in RATSD response"@
}

/// Whether `r` is what the search outcome `s` calls for.
pub open spec fn answers_search(r: Result<Vec<u8>, RatsdError>, s: OutblobSearch) -> bool {
    match s {
        OutblobSearch::Found(b) => r matches Ok(x) && x@ == b,
        OutblobSearch::BadOutblob => r matches Err(RatsdError::ResponseParse(m)) && starts_with(
            m@,
            "outblob decode: "@,
        ),
        _ => r matches Err(RatsdError::Custom(m)) && m@ == not_found_text(),
    }
}

/// Whether a record is the CCA guest's TSM report.
pub fn is_cca_report_item(item: &CmwMonad) -> (r: bool)
    ensures
        r == is_cca_report(item@),
{
    proof {
        reveal_strlit("configfs-tsm");
        reveal_strlit("provider");
        reveal_strlit("arm_cca_guest");
        reveal_strlit("");
    }
    if !str_contains(item.typ.as_str(), "configfs-tsm") {
        return false;
    }
    let provider = match json_member(item.value.as_slice(), "provider") {
        Ok(p) => p,
        Err(_) => return false,
    };
    let provider = match provider {
        Some(p) => p,
        None => owned(""),
    };
    let provider = trim_string(&provider);
    str_eq(provider.as_str(), CCA_PROVIDER)
}

/// The CCA token held by the first CCA guest TSM report among `items`.
pub fn find_cca_outblob(items: &Vec<CmwMonad>) -> (r: Result<Vec<u8>, RatsdError>)
    ensures
        answers_search(r, search_outblob(monads_view(items@))),
{
    let ghost all = monads_view(items@);
    assert(all.subrange(0, all.len() as int) =~= all);
    for i in 0..items.len()
        invariant
            all == monads_view(items@),
            search_outblob(all) == search_outblob(all.subrange(i as int, all.len() as int)),
    {
        let item = &items[i];
        proof {
            let sub = all.subrange(i as int, all.len() as int);
            assert(sub[0] == item@);
            assert(sub.drop_first() =~= all.subrange(i + 1, all.len() as int));
        }
        if is_cca_report_item(item) {
            proof {
                reveal_strlit("outblob");
                reveal_strlit("CCA evidence not found in RATSD response");
            }
            let outblob_b64 = match json_member(item.value.as_slice(), "outblob") {
                Ok(Some(b)) => b,
                _ => {
                    return Err(RatsdError::Custom(owned("CCA evidence not found in RATSD response")));
                },
            };
            return match base64_url_nopad_decode(outblob_b64.as_str()) {
                Ok(b) => Ok(b),
                Err(e) => {
                    let m = concat3("outblob decode: ", e.as_str(), "");
                    proof {
                        reveal_strlit("outblob decode: ");
                        reveal_strlit("");
                        assert(m@.subrange(0, 16) =~= "outblob decode: "@);
                    }
                    Err(RatsdError::ResponseParse(m))
                },
            };
        }
    }
    proof {
        assert(all.subrange(all.len() as int, all.len() as int) =~= Seq::<CmwMonadView>::empty());
    }
    Err(RatsdError::Custom(owned("CCA evidence not found in RATSD response")))
}

/// Whether `r` is what extracting the token from the CMW collection JSON
/// `cmw_json` calls for.
pub open spec fn answers_cmw(r: Result<Vec<u8>, RatsdError>, cmw_json: Seq<u8>) -> bool {
    match cmw_json_collection(cmw_json) {
        None => r matches Err(RatsdError::ResponseParse(m)) && starts_with(m@, "CMW collection: "@),
        Some(contents) => exists|labels: Seq<CmwLabelView>|
            lists_keys(labels, contents) && answers_search(
                r,
                search_outblob(monads_of(labels, contents)),
            ),
    }
}

/// Whether `r` is what extracting the CCA token from the response body
/// `body` (its UTF-8 bytes) calls for: the body's `cmw` member is the
/// standard base64 of a CMW collection in JSON, and the token is the
/// `outblob` of its CCA guest TSM report.
pub open spec fn answers_response(r: Result<Vec<u8>, RatsdError>, body: Seq<u8>) -> bool {
    match json_string_member(body, "cmw"@) {
        None => r matches Err(RatsdError::ResponseParse(m)) && starts_with(m@, "invalid JSON: "@),
        Some(None) => r matches Err(RatsdError::ResponseParse(m)) && m@ == "missing cmw field"@,
        Some(Some(b64)) => match base64_standard_decoding(b64) {
            None => r matches Err(RatsdError::ResponseParse(m)) && starts_with(
                m@,
                "cmw base64 decode: "@,
            ),
            Some(cmw_json) => answers_cmw(r, cmw_json),
        },
    }
}

/// Extract the CCA token from a RATSD response body: the body's `cmw`
/// member is the standard base64 of a CMW collection in JSON, and the token
/// is the `outblob` of its CCA guest TSM report.
pub fn extract_cca_token(resp_body: &str) -> (r: Result<Vec<u8>, RatsdError>)
    ensures
        answers_response(r, encode_utf8(resp_body@)),
{
    proof {
        reveal_strlit("cmw");
        reveal_strlit("");
        reveal_strlit("invalid JSON: ");
        reveal_strlit("cmw base64 decode: ");
        reveal_strlit("missing cmw field");
    }
    let cmw_b64 = match json_member(resp_body.as_bytes(), "cmw") {
        Err(e) => {
            let m = concat3("invalid JSON: ", e.as_str(), "");
            assert(m@.subrange(0, 14) =~= "invalid JSON: "@);
            return Err(RatsdError::ResponseParse(m));
        },
        Ok(None) => return Err(RatsdError::ResponseParse(owned("missing cmw field"))),
        Ok(Some(b)) => b,
    };
    let cmw_bytes = match base64_standard_decode(cmw_b64.as_str()) {
        Ok(b) => b,
        Err(e) => {
            let m = concat3("cmw base64 decode: ", e.as_str(), "");
            assert(m@.subrange(0, 19) =~= "cmw base64 decode: "@);
            return Err(RatsdError::ResponseParse(m));
        },
    };
    let items = match parse_cmw_items(cmw_bytes.as_slice()) {
        Ok(items) => items,
        Err(e) => return Err(e),
    };
    find_cca_outblob(&items)
}

/// The CCA token from the raw bytes of a RATSD response: the body must be
/// UTF-8 text, and the token is extracted as [`extract_cca_token`] does.
pub fn cca_evidence_from_response(resp_bytes: &[u8]) -> (r: Result<Vec<u8>, RatsdError>)
    ensures
        !valid_utf8(resp_bytes@) ==> (r matches Err(RatsdError::ResponseParse(m)) && starts_with(
            m@,
            "invalid UTF-8: "@,
        )),
        valid_utf8(resp_bytes@) ==> answers_response(r, resp_bytes@),
{
    match utf8_text(resp_bytes) {
        Ok(body) => {
            proof {
                vstd::utf8::decode_utf8_encode_utf8(resp_bytes@);
            }
            extract_cca_token(body.as_str())
        },
        Err(e) => {
            let m = concat3("invalid UTF-8: ", e.as_str(), "");
            proof {
                reveal_strlit("invalid UTF-8: ");
                reveal_strlit("");
                assert(m@.subrange(0, 15) =~= "invalid UTF-8: "@);
            }
            Err(RatsdError::ResponseParse(m))
        },
    }
}

} // verus!
