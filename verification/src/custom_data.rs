//! Reading custom data back out of the data of an event.
//!
//! An event carries its data as a JSON document. The custom data, if the
//! event has any, is the member `customData` of that document: an object
//! whose members are texts.

use crate::args::pairs_view;
use crate::string_map::{pairs_to_map, StringMap};
use vstd::prelude::*;

verus! {

/// A JSON value, told apart as far as reading custom data needs it.
#[derive(Debug)]
pub enum Json {
    /// A string.
    Text(String),
    /// An object: its members in the order they are written. Where a key
    /// repeats, the last member with that key counts.
    Object(Vec<(String, Json)>),
    /// Null, a boolean, a number or an array.
    Other,
}

/// The data of an event.
#[derive(Debug)]
pub enum EventData {
    /// A JSON document.
    Json(Json),
    /// Bytes or text that were not read as JSON.
    Raw,
}

/// Custom data that cannot be read as a mapping of texts: the member `key`
/// is not a text.
#[derive(Debug, PartialEq, Eq)]
pub struct NotText {
    pub key: String,
}

/// The key under which an event holds its custom data.
pub open spec fn custom_data_key() -> Seq<char> {
    "customData"@
}

/// The value of the last member of `members` with the key `key`.
pub open spec fn member(members: Seq<(String, Json)>, key: Seq<char>) -> Option<Json>
    decreases members.len(),
{
    if members.len() == 0 {
        None
    } else if members.last().0@ == key {
        Some(members.last().1)
    } else {
        member(members.drop_last(), key)
    }
}

/// Whether the member at `i` is the first one that is not a text.
pub open spec fn is_first_not_text(members: Seq<(String, Json)>, i: int) -> bool {
    &&& 0 <= i < members.len()
    &&& !(members[i].1 is Text)
    &&& forall|j: int| 0 <= j < i ==> (#[trigger] members[j]).1 is Text
}

/// The members of an object of texts, as pairs.
pub open spec fn text_pairs(members: Seq<(String, Json)>) -> Seq<(Seq<char>, Seq<char>)> {
    members.map_values(|m: (String, Json)| (m.0@, m.1->Text_0@))
}

/// The data behind an optional reference.
pub open spec fn data_of(data: Option<&EventData>) -> Option<EventData> {
    match data {
        Some(d) => Some(*d),
        None => None,
    }
}

/// What the data of an event says about custom data.
///
/// No data, data that is not JSON, an object without `customData` and a
/// `customData` that is not an object all mean that there is none. A document
/// that is not an object means empty custom data. Otherwise the custom data
/// is the mapping of the members of `customData`, all of which must be texts;
/// the key of the first that is not is reported.
pub open spec fn custom_data_of(data: Option<EventData>) -> Result<
    Option<Map<Seq<char>, Seq<char>>>,
    Seq<char>,
> {
    match data {
        Some(EventData::Json(Json::Object(members))) => match member(
            members@,
            custom_data_key(),
        ) {
            Some(Json::Object(custom)) => {
                if exists|i: int| is_first_not_text(custom@, i) {
                    Err(custom@[choose|i: int| is_first_not_text(custom@, i)].0@)
                } else {
                    Ok(Some(pairs_to_map(text_pairs(custom@))))
                }
            },
            _ => Ok(None),
        },
        Some(EventData::Json(_)) => Ok(Some(Map::empty())),
        _ => Ok(None),
    }
}

fn find_member<'a>(members: &'a Vec<(String, Json)>, key: &str) -> (r: Option<&'a Json>)
    ensures
        match r {
            Some(value) => member(members@, key@) == Some(*value),
            None => member(members@, key@) is None,
        },
{
    let wanted = key.to_owned();
    let mut i: usize = members.len();
    proof {
        assert(members@.subrange(0, i as int) =~= members@);
    }
    while i > 0
        invariant
            i <= members.len(),
            wanted@ == key@,
            member(members@, key@) == member(members@.subrange(0, i as int), key@),
        decreases i,
    {
        proof {
            let front = members@.subrange(0, i as int);
            assert(front.last() == members[i - 1]);
            assert(front.drop_last() =~= members@.subrange(0, i - 1));
        }
        if members[i - 1].0 == wanted {
            return Some(&members[i - 1].1);
        }
        i = i - 1;
    }
    None
}

/// Reads the custom data out of the data of an event.
pub fn get_custom_data(data: Option<&EventData>) -> (r: Result<Option<StringMap>, NotText>)
    ensures
        match r {
            Ok(Some(map)) => custom_data_of(data_of(data)) == Ok::<_, Seq<char>>(Some(map@)),
            Ok(None) => custom_data_of(data_of(data)) == Ok::<
                Option<Map<Seq<char>, Seq<char>>>,
                Seq<char>,
            >(None),
            Err(e) => custom_data_of(data_of(data)) == Err::<
                Option<Map<Seq<char>, Seq<char>>>,
                _,
            >(e.key@),
        },
{
    let members = match data {
        Some(EventData::Json(Json::Object(members))) => members,
        Some(EventData::Json(_)) => {
            return Ok(Some(StringMap::new()));
        },
        _ => {
            return Ok(None);
        },
    };
    let custom = match find_member(members, "customData") {
        Some(Json::Object(custom)) => custom,
        _ => {
            return Ok(None);
        },
    };
    let mut pairs: Vec<(String, String)> = Vec::new();
    let mut i: usize = 0;
    while i < custom.len()
        invariant
            i <= custom.len(),
            pairs.len() == i,
            data_of(data) == Some(EventData::Json(Json::Object(*members))),
            member(members@, custom_data_key()) == Some(Json::Object(*custom)),
            forall|j: int| 0 <= j < i ==> (#[trigger] custom[j]).1 is Text,
            forall|j: int|
                0 <= j < i ==> (#[trigger] pairs[j]).0@ == custom[j].0@ && pairs[j].1@
                    == custom[j].1->Text_0@,
        decreases custom.len() - i,
    {
        match &custom[i].1 {
            Json::Text(text) => {
                pairs.push((custom[i].0.clone(), text.clone()));
            },
            _ => {
                proof {
                    assert(is_first_not_text(custom@, i as int));
                    lemma_first_not_text_unique(
                        custom@,
                        i as int,
                        choose|k: int| is_first_not_text(custom@, k),
                    );
                }
                return Err(NotText { key: custom[i].0.clone() });
            },
        }
        i = i + 1;
    }
    proof {
        assert forall|k: int| !is_first_not_text(custom@, k) by {
            if 0 <= k < custom.len() {
                assert(custom[k].1 is Text);
            }
        }
        assert(pairs_view(pairs@) =~= text_pairs(custom@));
    }
    Ok(Some(StringMap::from_pairs(&pairs)))
}

/// At most one member is the first that is not a text.
proof fn lemma_first_not_text_unique(members: Seq<(String, Json)>, i: int, j: int)
    requires
        is_first_not_text(members, i),
        is_first_not_text(members, j),
    ensures
        i == j,
{
    if i < j {
        assert(members[i].1 is Text);
    } else if j < i {
        assert(members[j].1 is Text);
    }
}

} // verus!
