//! What holds of reading a report on store paths.

use vstd::prelude::*;
use crate::json::Json;
use crate::path_info;
use crate::path_info::{PathInfo, PathInfoView};

verus! {

/// A JSON list of texts is read as those texts: as many as there are items, each at the
/// place of its item. A list with any other item, and what is no list, is not read.
pub proof fn law_text_list_is_read_whole(json: Json, items: Seq<Json>)
    ensures
        path_info::text_list_of(Json::List(items)) is Some <==> (forall|i: int|
            0 <= i < items.len() ==> #[trigger] items[i] is Text),
        path_info::text_list_of(Json::List(items)) matches Some(texts) ==> {
            &&& texts.len() == items.len()
            &&& forall|i: int| 0 <= i < items.len() ==> items[i] == Json::Text(#[trigger] texts[i])
        },
        path_info::text_list_of(json) is Some ==> json is List,
{
}

/// The five fields of an entry, each on its own: an entry is read exactly where the
/// hash is a text, the size is a whole number that fits, the references are a list of
/// texts, the deriver is a text or `null` or missing, and the signatures are a list of
/// texts or `null` or missing; and then each field is what its member holds.
pub proof fn law_entry_is_read_field_by_field(members: Map<Seq<char>, Json>, info: PathInfoView)
    ensures
        path_info::info_of(Json::Object(members)) == Some(info) <==> {
            &&& members.contains_key("narHash"@) && members["narHash"@] == Json::Text(info.nar_hash)
            &&& members.contains_key("narSize"@) && members["narSize"@] == Json::Count(
                info.nar_size,
            )
            &&& members.contains_key("references"@) && members["references"@] == Json::List(
                info.references.map_values(|text: Seq<char>| Json::Text(text)),
            )
            &&& match info.deriver {
                Some(deriver) => members.contains_key("deriver"@) && members["deriver"@]
                    == Json::Text(deriver),
                None => !members.contains_key("deriver"@) || members["deriver"@] == Json::Null,
            }
            &&& match info.signatures {
                Some(signatures) => members.contains_key("signatures"@) && members["signatures"@]
                    == Json::List(signatures.map_values(|text: Seq<char>| Json::Text(text))),
                None => !members.contains_key("signatures"@) || members["signatures"@]
                    == Json::Null,
            }
        },
{
    if members.contains_key("references"@) {
        lemma_texts_and_list(members["references"@], info.references);
    }
    if members.contains_key("signatures"@) && info.signatures is Some {
        lemma_texts_and_list(members["signatures"@], info.signatures->0);
    }
}

/// Texts are read from the list of them and from nothing else.
pub proof fn lemma_texts_and_list(json: Json, texts: Seq<Seq<char>>)
    ensures
        path_info::text_list_of(json) == Some(texts) <==> json == Json::List(
            texts.map_values(|text: Seq<char>| Json::Text(text)),
        ),
{
    let items = texts.map_values(|text: Seq<char>| Json::Text(text));
    if path_info::text_list_of(json) == Some(texts) {
        assert(json->List_0 =~= items);
    }
    if json == Json::List(items) {
        assert forall|i: int| 0 <= i < items.len() implies items[i] is Text by {
            assert(items[i] == Json::Text(texts[i]));
        }
        assert(path_info::text_list_of(json)->0 =~= texts);
    }
}

/// An entry may also be a list of the five fields in their order, of which only the
/// signatures may be left out.
pub proof fn law_listed_entry_is_read_in_order(items: Seq<Json>, info: PathInfoView)
    ensures
        path_info::info_of(Json::List(items)) == Some(info) <==> {
            &&& items.len() == 4 || items.len() == 5
            &&& items[0] == Json::Text(info.nar_hash)
            &&& items[1] == Json::Count(info.nar_size)
            &&& items[2] == Json::List(
                info.references.map_values(|text: Seq<char>| Json::Text(text)),
            )
            &&& match info.deriver {
                Some(deriver) => items[3] == Json::Text(deriver),
                None => items[3] == Json::Null,
            }
            &&& match info.signatures {
                Some(signatures) => items.len() == 5 && items[4] == Json::List(
                    signatures.map_values(|text: Seq<char>| Json::Text(text)),
                ),
                None => items.len() == 4 || items[4] == Json::Null,
            }
        },
{
    if items.len() == 4 || items.len() == 5 {
        lemma_texts_and_list(items[2], info.references);
        if items.len() == 5 && info.signatures is Some {
            lemma_texts_and_list(items[4], info.signatures->0);
        }
    }
}

/// An entry is an object or a list: nothing else is read.
pub proof fn law_entry_is_object_or_list(json: Json)
    ensures
        path_info::info_of(json) is Some ==> json is Object || json is List,
{
}

/// A report is an object, and what it says of a store path is the entry under that
/// very path.
pub proof fn law_report_is_read_under_the_path(
    report: Json,
    store_path: Seq<char>,
    info: PathInfoView,
)
    ensures
        path_info::info_in(report, store_path) == Some(info) <==> {
            &&& report matches Json::Object(entries)
            &&& entries.contains_key(store_path)
            &&& path_info::info_of(entries[store_path]) == Some(info)
        },
{
}

/// What is shown of a path info is what it holds.
pub proof fn law_path_info_is_shown_whole(info: PathInfo)
    ensures
        info@.nar_hash == info.nar_hash@,
        info@.nar_size == info.nar_size,
        info@.references.len() == info.references@.len(),
        forall|i: int|
            0 <= i < info.references@.len() ==> #[trigger] info@.references[i]
                == info.references@[i]@,
        info@.deriver is Some <==> info.deriver is Some,
        info.deriver matches Some(deriver) ==> info@.deriver->0 == deriver@,
        info@.signatures is Some <==> info.signatures is Some,
        info.signatures matches Some(signatures) ==> {
            &&& info@.signatures->0.len() == signatures@.len()
            &&& forall|i: int|
                0 <= i < signatures@.len() ==> #[trigger] info@.signatures->0[i]
                    == signatures@[i]@
        },
{
}

} // verus!
