//! What Nix knows of a store path, as `nix path-info --json` reports it.

use vstd::prelude::*;
use vstd::string::*;
use crate::json;
use crate::json::Json;
use crate::text;

verus! {

/// What Nix knows of a store path.
#[derive(Debug)]
pub struct PathInfo {
    pub nar_hash: String,
    pub nar_size: u64,
    pub references: Vec<String>,
    pub deriver: Option<String>,
    pub signatures: Option<Vec<String>>,
}

/// The contents of a [`PathInfo`].
#[verifier::ext_equal]
pub struct PathInfoView {
    pub nar_hash: Seq<char>,
    pub nar_size: u64,
    pub references: Seq<Seq<char>>,
    pub deriver: Option<Seq<char>>,
    pub signatures: Option<Seq<Seq<char>>>,
}

impl View for PathInfo {
    type V = PathInfoView;

    open spec fn view(&self) -> PathInfoView {
        PathInfoView {
            nar_hash: self.nar_hash@,
            nar_size: self.nar_size,
            references: text::texts(self.references@),
            deriver: match self.deriver {
                Some(deriver) => Some(deriver@),
                None => None,
            },
            signatures: match self.signatures {
                Some(signatures) => Some(text::texts(signatures@)),
                None => None,
            },
        }
    }
}

/// The text that a JSON value is.
pub open spec fn text_of(json: Json) -> Option<Seq<char>> {
    match json {
        Json::Text(held) => Some(held),
        _ => None,
    }
}

/// The texts that a JSON value lists: it must be a list of texts alone.
pub open spec fn text_list_of(json: Json) -> Option<Seq<Seq<char>>> {
    match json {
        Json::List(items) => if forall|i: int| 0 <= i < items.len() ==> items[i] is Text {
            Some(items.map_values(|item: Json| item->Text_0))
        } else {
            None
        },
        _ => None,
    }
}

/// A value that may be missing, with `null` counted as missing.
pub open spec fn unless_null(value: Option<Json>) -> Option<Json> {
    match value {
        Some(Json::Null) => None,
        other => other,
    }
}

/// The path info that is made of these five values; `None` stands for a value that
/// is missing. The deriver and the signatures may be missing or `null`, the other
/// three must be there, and each one that is there must have its type.
pub open spec fn info_of_fields(
    nar_hash: Option<Json>,
    nar_size: Option<Json>,
    references: Option<Json>,
    deriver: Option<Json>,
    signatures: Option<Json>,
) -> Option<PathInfoView> {
    let drv = unless_null(deriver);
    let sigs = unless_null(signatures);
    match (nar_hash, nar_size, references) {
        (Some(Json::Text(hash)), Some(Json::Count(size)), Some(refs)) => if {
            &&& text_list_of(refs) is Some
            &&& drv is Some ==> text_of(drv->0) is Some
            &&& sigs is Some ==> text_list_of(sigs->0) is Some
        } {
            Some(
                PathInfoView {
                    nar_hash: hash,
                    nar_size: size,
                    references: text_list_of(refs)->0,
                    deriver: match drv {
                        Some(value) => text_of(value),
                        None => None,
                    },
                    signatures: match sigs {
                        Some(value) => text_list_of(value),
                        None => None,
                    },
                },
            )
        } else {
            None
        },
        _ => None,
    }
}

/// What an object holds under a key.
pub open spec fn held_under(members: Map<Seq<char>, Json>, key: Seq<char>) -> Option<Json> {
    if members.contains_key(key) {
        Some(members[key])
    } else {
        None
    }
}

/// The path info that a JSON value describes: an object with one member for each
/// field, whatever else it holds, or a list of the fields in their order, of which
/// only the signatures may be left out.
pub open spec fn info_of(json: Json) -> Option<PathInfoView> {
    match json {
        Json::Object(members) => info_of_fields(
            held_under(members, "narHash"@),
            held_under(members, "narSize"@),
            held_under(members, "references"@),
            held_under(members, "deriver"@),
            held_under(members, "signatures"@),
        ),
        Json::List(items) => if items.len() == 4 {
            info_of_fields(Some(items[0]), Some(items[1]), Some(items[2]), Some(items[3]), None)
        } else if items.len() == 5 {
            info_of_fields(
                Some(items[0]),
                Some(items[1]),
                Some(items[2]),
                Some(items[3]),
                Some(items[4]),
            )
        } else {
            None
        },
        _ => None,
    }
}

/// The report of `nix path-info --json` maps store paths to their details: the
/// path info that `report` gives for `store_path`.
pub open spec fn info_in(report: Json, store_path: Seq<char>) -> Option<PathInfoView> {
    match report {
        Json::Object(members) => if members.contains_key(store_path) {
            info_of(members[store_path])
        } else {
            None
        },
        _ => None,
    }
}

/// What a JSON value that may be missing holds.
pub open spec fn contents_of(value: Option<&serde_json::Value>) -> Option<Json> {
    match value {
        Some(value) => Some(json::contents(*value)),
        None => None,
    }
}

/// The view of texts that may be missing.
pub open spec fn texts_of(list: Option<Vec<String>>) -> Option<Seq<Seq<char>>> {
    match list {
        Some(list) => Some(text::texts(list@)),
        None => None,
    }
}

/// The texts that a JSON value lists.
fn read_text_list(value: &serde_json::Value) -> (list: Option<Vec<String>>)
    ensures
        texts_of(list) == text_list_of(json::contents(*value)),
{
    let items = match value.as_array() {
        Some(items) => items,
        None => {
            return None;
        },
    };
    let ghost held = json::contents(*value)->List_0;
    let mut list: Vec<String> = Vec::new();
    let mut i: usize = 0;
    while i < items.len()
        invariant
            i <= items@.len(),
            json::contents(*value) == Json::List(held),
            held == items@.map_values(|item: serde_json::Value| json::contents(item)),
            list@.len() == i,
            forall|j: int| 0 <= j < i ==> #[trigger] held[j] == Json::Text(list@[j]@),
        decreases items@.len() - i,
    {
        assert(held[i as int] == json::contents(items@[i as int]));
        match items[i].as_str() {
            Some(item) => {
                list.push(item.to_owned());
            },
            None => {
                return None;
            },
        }
        i += 1;
    }
    assert(text::texts(list@) =~= held.map_values(|item: Json| item->Text_0));
    Some(list)
}

/// The path info that is made of these five values.
fn read_fields(
    nar_hash: Option<&serde_json::Value>,
    nar_size: Option<&serde_json::Value>,
    references: Option<&serde_json::Value>,
    deriver: Option<&serde_json::Value>,
    signatures: Option<&serde_json::Value>,
) -> (info: Option<PathInfo>)
    ensures
        match info {
            Some(info) => info_of_fields(
                contents_of(nar_hash),
                contents_of(nar_size),
                contents_of(references),
                contents_of(deriver),
                contents_of(signatures),
            ) == Some(info@),
            None => info_of_fields(
                contents_of(nar_hash),
                contents_of(nar_size),
                contents_of(references),
                contents_of(deriver),
                contents_of(signatures),
            ) is None,
        },
{
    let (hash, size, refs) = match (nar_hash, nar_size, references) {
        (Some(hash), Some(size), Some(refs)) => (hash, size, refs),
        _ => {
            return None;
        },
    };
    let (nar_hash, nar_size, references) = match (
        hash.as_str(),
        size.as_u64(),
        read_text_list(refs),
    ) {
        (Some(nar_hash), Some(nar_size), Some(references)) => (nar_hash, nar_size, references),
        _ => {
            return None;
        },
    };
    let deriver = match deriver {
        Some(value) => if value.is_null() {
            None
        } else {
            match value.as_str() {
                Some(deriver) => Some(deriver.to_owned()),
                None => {
                    return None;
                },
            }
        },
        None => None,
    };
    let signatures = match signatures {
        Some(value) => if value.is_null() {
            None
        } else {
            match read_text_list(value) {
                Some(signatures) => Some(signatures),
                None => {
                    return None;
                },
            }
        },
        None => None,
    };
    Some(
        PathInfo { nar_hash: nar_hash.to_owned(), nar_size, references, deriver, signatures },
    )
}

impl PathInfo {
    /// The path info that a JSON value describes.
    pub fn from_value(value: &serde_json::Value) -> (info: Option<PathInfo>)
        ensures
            match info {
                Some(info) => info_of(json::contents(*value)) == Some(info@),
                None => info_of(json::contents(*value)) is None,
            },
    {
        match value.as_array() {
            Some(items) => {
                proof {
                    let held = json::contents(*value)->List_0;
                    assert forall|i: int| 0 <= i < items@.len() implies held[i] == json::contents(
                        items@[i],
                    ) by {}
                }
                if items.len() == 4 {
                    read_fields(
                        Some(&items[0]),
                        Some(&items[1]),
                        Some(&items[2]),
                        Some(&items[3]),
                        None,
                    )
                } else if items.len() == 5 {
                    read_fields(
                        Some(&items[0]),
                        Some(&items[1]),
                        Some(&items[2]),
                        Some(&items[3]),
                        Some(&items[4]),
                    )
                } else {
                    None
                }
            },
            None => read_fields(
                json::member(value, "narHash"),
                json::member(value, "narSize"),
                json::member(value, "references"),
                json::member(value, "deriver"),
                json::member(value, "signatures"),
            ),
        }
    }

    /// The path info that a report gives for a store path.
    pub fn in_report(report: &serde_json::Value, store_path: &str) -> (info: Option<PathInfo>)
        ensures
            match info {
                Some(info) => info_in(json::contents(*report), store_path@) == Some(info@),
                None => info_in(json::contents(*report), store_path@) is None,
            },
    {
        match json::member(report, store_path) {
            Some(entry) => PathInfo::from_value(entry),
            None => None,
        }
    }
}

} // verus!
