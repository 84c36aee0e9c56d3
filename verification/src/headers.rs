//! Response headers: from the JSON object that the app sends, over plain
//! name/value pairs, to the header map that the HTTP client hands on.
use std::collections::HashMap;

use reqwest::header::{HeaderMap, HeaderName, HeaderValue, MaxSizeReached};
use vstd::prelude::*;
use vstd::utf8::encode_utf8;

verus! {

/// A header map takes a new entry whenever it holds fewer names than this: it
/// has up to 32768 slots, and gives up on growing only where at least a fifth of
/// that many are taken.
pub const HEADER_ROOM: usize = 6554;

/// The longest header name, in bytes.
pub const MAX_NAME_LEN: usize = 65535;

/// Characters that may stand in a header name.
pub open spec fn is_name_char(c: char) -> bool {
    ||| 'a' <= c <= 'z'
    ||| 'A' <= c <= 'Z'
    ||| '0' <= c <= '9'
    ||| c == '!' || c == '#' || c == '$' || c == '%' || c == '&' || c == '\'' || c == '*'
    ||| c == '+' || c == '-' || c == '.' || c == '^' || c == '_' || c == '`' || c == '|'
    ||| c == '~'
}

/// `key` can be used as a header name.
pub open spec fn is_header_name(key: Seq<char>) -> bool {
    &&& 1 <= key.len() <= MAX_NAME_LEN
    &&& forall|i: int| 0 <= i < key.len() ==> is_name_char(#[trigger] key[i])
}

/// `c`, with an upper case ASCII letter brought to lower case.
pub open spec fn lower(c: char) -> char {
    if 'A' <= c <= 'Z' {
        (c as u32 + 32) as char
    } else {
        c
    }
}

/// The form in which a header map keeps the name `key`.
pub open spec fn canonical_name(key: Seq<char>) -> Seq<char> {
    key.map_values(|c: char| lower(c))
}

/// `bytes` can be used as a header value: no control characters but the tab.
pub open spec fn is_header_value(bytes: Seq<u8>) -> bool {
    forall|i: int|
        0 <= i < bytes.len() ==> #[trigger] bytes[i] == 9 || (bytes[i] >= 32 && bytes[i] != 127)
}

/// A header that survives: its name and its value are both well formed.
pub open spec fn is_usable(header: (Seq<char>, Seq<char>)) -> bool {
    is_header_name(header.0) && is_header_value(encode_utf8(header.1))
}

/// What a header map holds: to each canonical name its values, in order.
pub type HeaderContents = Map<Seq<char>, Seq<Seq<u8>>>;

/// What a header map holds once `headers` have been entered one after another:
/// those that are not usable are passed over, and a later value for a name takes
/// the place of an earlier one.
pub open spec fn collected(headers: Seq<(Seq<char>, Seq<char>)>) -> HeaderContents
    decreases headers.len(),
{
    if headers.len() == 0 {
        Map::empty()
    } else {
        let earlier = collected(headers.drop_last());
        let header = headers.last();
        if is_usable(header) {
            earlier.insert(canonical_name(header.0), seq![encode_utf8(header.1)])
        } else {
            earlier
        }
    }
}

/// `headers` lists every entry of `map` once, in some order.
pub open spec fn enumerates(
    headers: Seq<(Seq<char>, Seq<char>)>,
    map: Map<Seq<char>, Seq<char>>,
) -> bool {
    &&& headers.len() == map.len()
    &&& forall|i: int, j: int|
        0 <= i < j < headers.len() ==> (#[trigger] headers[i]).0 != (#[trigger] headers[j]).0
    &&& forall|i: int|
        0 <= i < headers.len() ==> map.contains_key((#[trigger] headers[i]).0)
            && map[headers[i].0] == headers[i].1
    &&& forall|key: Seq<char>| #[trigger]
        map.contains_key(key) ==> exists|i: int|
            0 <= i < headers.len() && (#[trigger] headers[i]).0 == key
}

/// The texts of a list of headers.
pub open spec fn header_texts(headers: Seq<(String, String)>) -> Seq<(Seq<char>, Seq<char>)> {
    headers.map_values(|header: (String, String)| (header.0@, header.1@))
}

/// The multimap of header names and values of the HTTP client.
#[verifier::external_type_specification]
#[verifier::external_body]
#[verifier::reject_recursive_types(T)]
pub struct ExHeaderMap<T>(HeaderMap<T>);

/// One value in a header map.
#[verifier::external_type_specification]
#[verifier::external_body]
pub struct ExHeaderValue(HeaderValue);

/// The refusal of a header map that is full.
#[verifier::external_type_specification]
#[verifier::external_body]
pub struct ExMaxSizeReached(MaxSizeReached);

/// What `map` holds.
pub uninterp spec fn header_contents(map: HeaderMap) -> Map<Seq<char>, Seq<Seq<u8>>>;

/// The object of strings that `text` denotes as JSON; `None` where `text` is
/// not the JSON of such an object.
pub uninterp spec fn json_object(text: Seq<char>) -> Option<Map<Seq<char>, Seq<char>>>;

/// `serde_json::from_str` into a map of strings: what it reads depends on the
/// text alone. Which texts it accepts is not said here.
#[verifier::external_body]
fn read_json_object(text: &str) -> (object: Option<HashMap<String, String>>)
    ensures
        match object {
            Some(map) => json_object(text@) == Some(map.deep_view()),
            None => json_object(text@) is None,
        },
{
    serde_json::from_str(text).ok()
}

/// `HeaderName::from_bytes` on the bytes of `key`: accepts one to
/// `MAX_NAME_LEN` name characters and gives the name in lower case.
#[verifier::external_body]
fn header_name(key: &str) -> (name: Option<String>)
    ensures
        match name {
            Some(text) => is_header_name(key@) && text@ == canonical_name(key@),
            None => !is_header_name(key@),
        },
{
    HeaderName::from_bytes(key.as_bytes()).ok().map(|name| name.as_str().to_string())
}

/// `HeaderValue::from_str`: accepts a text whose bytes are all at least 32 and
/// not 127, or a tab, and keeps those bytes.
#[verifier::external_body]
fn header_value(text: &str) -> (value: Option<Vec<u8>>)
    ensures
        match value {
            Some(bytes) => is_header_value(encode_utf8(text@)) && bytes@ == encode_utf8(text@),
            None => !is_header_value(encode_utf8(text@)),
        },
{
    HeaderValue::from_str(text).ok().map(|value| value.as_bytes().to_vec())
}

/// `HeaderMap::new`: holds nothing.
#[verifier::external_body]
fn header_map() -> (map: HeaderMap)
    ensures
        header_contents(map) == HeaderContents::empty(),
{
    HeaderMap::new()
}

/// `HeaderMap::try_insert`, with `HeaderName::from_bytes` and
/// `HeaderValue::from_bytes` to bring in the name and the value, which cannot
/// fail on well formed ones: the value takes the place of all that the name had.
/// A refusal leaves the contents as they were, and never comes while the map
/// holds fewer than `HEADER_ROOM` names. Above that it depends on how the names
/// hash, which is not said here.
#[verifier::external_body]
fn insert_header(
    map: &mut HeaderMap,
    name: &str,
    value: &[u8],
) -> (entered: Result<Option<HeaderValue>, MaxSizeReached>)
    requires
        is_header_name(name@),
        is_header_value(value@),
    ensures
        entered is Ok ==> header_contents(*final(map)) == header_contents(*old(map)).insert(
            canonical_name(name@),
            seq![value@],
        ),
        entered is Err ==> header_contents(*final(map)) == header_contents(*old(map)),
        header_contents(*old(map)).dom().len() < HEADER_ROOM ==> entered is Ok,
{
    let name = HeaderName::from_bytes(name.as_bytes()).unwrap();
    let value = HeaderValue::from_bytes(value).unwrap();
    map.try_insert(name, value)
}

/// `Vec::from_iter` on a map: every entry once, in whatever order the map is
/// walked. The order differs from one map to the next and is not said here.
#[verifier::external_body]
fn header_list(headers: HashMap<String, String>) -> (list: Vec<(String, String)>)
    ensures
        enumerates(header_texts(list@), headers.deep_view()),
{
    Vec::from_iter(headers)
}

/// Bringing a name to its canonical form changes neither that it is a name nor,
/// a second time, the name itself.
proof fn lemma_canonical_name(key: Seq<char>)
    requires
        is_header_name(key),
    ensures
        is_header_name(canonical_name(key)),
        canonical_name(canonical_name(key)) == canonical_name(key),
{
    let name = canonical_name(key);
    assert forall|i: int| 0 <= i < name.len() implies is_name_char(#[trigger] name[i]) && lower(
        name[i],
    ) == name[i] by {
        assert(is_name_char(key[i]));
    }
    assert(canonical_name(name) =~= name);
}

proof fn lemma_collected_size(headers: Seq<(Seq<char>, Seq<char>)>)
    ensures
        collected(headers).dom().finite(),
        collected(headers).dom().len() <= headers.len(),
    decreases headers.len(),
{
    if headers.len() > 0 {
        lemma_collected_size(headers.drop_last());
    }
}

/// What has been collected of the first headers is a part of what is collected
/// of all of them.
proof fn lemma_collected_grows(headers: Seq<(Seq<char>, Seq<char>)>, n: int)
    requires
        0 <= n <= headers.len(),
    ensures
        collected(headers.take(n)).dom().subset_of(collected(headers).dom()),
        collected(headers.take(n)).dom().len() <= collected(headers).dom().len(),
    decreases headers.len(),
{
    if n == headers.len() {
        assert(headers.take(n) =~= headers);
    } else {
        lemma_collected_grows(headers.drop_last(), n);
        assert(headers.drop_last().take(n) =~= headers.take(n));
    }
    lemma_collected_size(headers);
    vstd::set_lib::lemma_len_subset(
        collected(headers.take(n)).dom(),
        collected(headers).dom(),
    );
}

/// Enters `headers` into a header map, in order; `None` where the map has no
/// room for them, which takes more than `HEADER_ROOM` headers with at least that
/// many different usable names.
pub fn collect_headers(headers: &Vec<(String, String)>) -> (collection: Option<HeaderMap>)
    ensures
        collection matches Some(map) ==> header_contents(map) == collected(header_texts(headers@)),
        headers@.len() <= HEADER_ROOM ==> collection is Some,
        collected(header_texts(headers@)).dom().len() < HEADER_ROOM ==> collection is Some,
{
    let mut map = header_map();
    let ghost texts = header_texts(headers@);
    let mut entered: usize = 0;
    assert(texts.take(0) =~= Seq::empty());
    while entered < headers.len()
        invariant
            entered <= headers@.len(),
            texts == header_texts(headers@),
            header_contents(map) == collected(texts.take(entered as int)),
        decreases headers@.len() - entered,
    {
        proof {
            lemma_collected_size(texts.take(entered as int));
            lemma_collected_grows(texts, entered as int);
            assert(texts.take(entered + 1).drop_last() =~= texts.take(entered as int));
            assert(texts.take(entered + 1).last() == texts[entered as int]);
        }
        let header: &(String, String) = &headers[entered];
        let name = header_name(header.0.as_str());
        let value = header_value(header.1.as_str());
        if let (Some(name), Some(value)) = (name, value) {
            proof {
                lemma_canonical_name(header.0@);
            }
            match insert_header(&mut map, name.as_str(), value.as_slice()) {
                Ok(_) => {},
                Err(_) => {
                    return None;
                },
            }
        }
        entered += 1;
    }
    assert(texts.take(entered as int) =~= texts);
    Some(map)
}

/// The different names, in canonical form, of the usable headers in `map`.
pub open spec fn usable_names(map: Map<Seq<char>, Seq<char>>) -> Set<Seq<char>> {
    Set::new(
        |name: Seq<char>|
            exists|key: Seq<char>| #[trigger]
                map.contains_key(key) && is_usable((key, map[key])) && canonical_name(key) == name,
    )
}

/// A usable header of `map` leaves its name in the collection, in whatever order
/// the headers are walked, and nothing else leaves one.
pub proof fn law_usable_names_are_collected(
    order: Seq<(Seq<char>, Seq<char>)>,
    map: Map<Seq<char>, Seq<char>>,
)
    requires
        enumerates(order, map),
    ensures
        collected(order).dom() == usable_names(map),
{
    assert forall|name: Seq<char>| collected(order).contains_key(name) implies usable_names(
        map,
    ).contains(name) by {
        law_names_come_from_usable_headers(order, name);
        let i = choose|i: int|
            0 <= i < order.len() && is_usable(#[trigger] order[i]) && canonical_name(order[i].0)
                == name;
        assert(map.contains_key(order[i].0));
        assert(order[i] == (order[i].0, map[order[i].0]));
    }
    assert forall|name: Seq<char>| usable_names(map).contains(name) implies collected(
        order,
    ).contains_key(name) by {
        let key = choose|key: Seq<char>| #[trigger]
            map.contains_key(key) && is_usable((key, map[key])) && canonical_name(key) == name;
        let i = choose|i: int| 0 <= i < order.len() && (#[trigger] order[i]).0 == key;
        assert(order[i] == (key, map[key]));
        lemma_usable_name_stays(order, i);
    }
    assert(collected(order).dom() =~= usable_names(map));
}

proof fn lemma_usable_name_stays(headers: Seq<(Seq<char>, Seq<char>)>, i: int)
    requires
        0 <= i < headers.len(),
        is_usable(headers[i]),
    ensures
        collected(headers).contains_key(canonical_name(headers[i].0)),
    decreases headers.len(),
{
    if i < headers.len() - 1 {
        assert(headers.drop_last()[i] == headers[i]);
        lemma_usable_name_stays(headers.drop_last(), i);
    }
}

/// Enters every header of `headers` into a header map. Where two of them share
/// a canonical name, the order in which the map is walked decides which stays.
pub fn response_headers(headers: HashMap<String, String>) -> (collection: Option<HeaderMap>)
    ensures
        collection matches Some(map) ==> exists|order: Seq<(Seq<char>, Seq<char>)>| #[trigger]
            enumerates(order, headers.deep_view()) && header_contents(map) == collected(order),
        headers.deep_view().len() <= HEADER_ROOM ==> collection is Some,
        usable_names(headers.deep_view()).len() < HEADER_ROOM ==> collection is Some,
{
    let list = header_list(headers);
    proof {
        law_usable_names_are_collected(header_texts(list@), headers.deep_view());
    }
    collect_headers(&list)
}

/// The headers that a piece of JSON stands for: those of the object that it
/// denotes, and none where it denotes no object of strings.
pub open spec fn headers_of(object: Option<Map<Seq<char>, Seq<char>>>) -> Map<
    Seq<char>,
    Seq<char>,
> {
    match object {
        Some(map) => map,
        None => Map::empty(),
    }
}

/// The headers that were read, or none where nothing could be read.
pub fn headers_or_none(read: Option<HashMap<String, String>>) -> (headers: HashMap<String, String>)
    ensures
        headers.deep_view() == headers_of(
            match read {
                Some(map) => Some(map.deep_view()),
                None => None,
            },
        ),
        read matches Some(map) ==> headers.deep_view() == map.deep_view(),
        read is None ==> headers.deep_view().is_empty(),
{
    match read {
        Some(map) => map,
        None => {
            let empty: HashMap<String, String> = HashMap::new();
            proof {
                vstd::std_specs::hash::lemma_hashmap_deepview_dom(empty);
                assert(empty.deep_view() =~= Map::<Seq<char>, Seq<char>>::empty());
            }
            empty
        },
    }
}

/// Reads the headers that the app sends as a JSON object of strings. Anything
/// else than such an object counts as no headers at all.
pub fn parse_headers(text: &str) -> (headers: HashMap<String, String>)
    ensures
        headers.deep_view() == headers_of(json_object(text@)),
        json_object(text@) matches Some(object) ==> headers.deep_view() == object,
        json_object(text@) is None ==> headers.deep_view().is_empty(),
{
    headers_or_none(read_json_object(text))
}

/// The last usable header of a name decides the value that the name ends up
/// with, and it is the only one.
pub proof fn law_last_usable_header_stays(headers: Seq<(Seq<char>, Seq<char>)>, i: int)
    requires
        0 <= i < headers.len(),
        is_usable(headers[i]),
        forall|j: int|
            i < j < headers.len() && is_usable(#[trigger] headers[j]) ==> canonical_name(
                headers[j].0,
            ) != canonical_name(headers[i].0),
    ensures
        collected(headers).contains_key(canonical_name(headers[i].0)),
        collected(headers)[canonical_name(headers[i].0)] == seq![encode_utf8(headers[i].1)],
    decreases headers.len(),
{
    if i < headers.len() - 1 {
        let earlier = headers.drop_last();
        assert(headers[headers.len() - 1] == headers.last());
        assert forall|j: int| i < j < earlier.len() && is_usable(#[trigger] earlier[j]) implies
            canonical_name(earlier[j].0) != canonical_name(earlier[i].0) by {
            assert(earlier[j] == headers[j]);
        }
        law_last_usable_header_stays(earlier, i);
    }
}

/// Every name in the collection comes from a usable header, so that it is in
/// canonical form and well formed.
pub proof fn law_names_come_from_usable_headers(
    headers: Seq<(Seq<char>, Seq<char>)>,
    name: Seq<char>,
)
    requires
        collected(headers).contains_key(name),
    ensures
        exists|i: int|
            0 <= i < headers.len() && is_usable(#[trigger] headers[i]) && canonical_name(
                headers[i].0,
            ) == name,
        is_header_name(name),
        canonical_name(name) == name,
    decreases headers.len(),
{
    let earlier = headers.drop_last();
    if is_usable(headers.last()) && canonical_name(headers.last().0) == name {
        lemma_canonical_name(headers.last().0);
        assert(headers[headers.len() - 1] == headers.last());
    } else {
        law_names_come_from_usable_headers(earlier, name);
        let i = choose|i: int|
            0 <= i < earlier.len() && is_usable(#[trigger] earlier[i]) && canonical_name(
                earlier[i].0,
            ) == name;
        assert(headers[i] == earlier[i]);
    }
}

/// No two usable names in `map` differ in letter case alone.
pub open spec fn names_are_distinct(map: Map<Seq<char>, Seq<char>>) -> bool {
    forall|a: Seq<char>, b: Seq<char>|
        #![trigger map.contains_key(a), map.contains_key(b)]
        map.contains_key(a) && map.contains_key(b) && is_usable((a, map[a])) && is_usable(
            (b, map[b]),
        ) && canonical_name(a) == canonical_name(b) ==> a == b
}

/// Where no two usable names differ in letter case alone, every usable header is
/// collected with its own value.
pub proof fn law_distinct_headers_all_stay(
    order: Seq<(Seq<char>, Seq<char>)>,
    map: Map<Seq<char>, Seq<char>>,
    key: Seq<char>,
)
    requires
        enumerates(order, map),
        names_are_distinct(map),
        map.contains_key(key),
        is_usable((key, map[key])),
    ensures
        collected(order).contains_key(canonical_name(key)),
        collected(order)[canonical_name(key)] == seq![encode_utf8(map[key])],
{
    let i = choose|i: int| 0 <= i < order.len() && (#[trigger] order[i]).0 == key;
    assert forall|j: int| i < j < order.len() && is_usable(#[trigger] order[j]) implies
        canonical_name(order[j].0) != canonical_name(order[i].0) by {
        assert(map.contains_key(order[j].0) && map.contains_key(order[i].0));
        assert(order[i].0 != order[j].0);
        assert(order[j] == (order[j].0, map[order[j].0]));
    }
    assert(order[i] == (key, map[key]));
    law_last_usable_header_stays(order, i);
}

/// Where no two usable names differ in letter case alone, the order in which
/// the headers are walked makes no difference to what is collected.
pub proof fn law_order_is_irrelevant(
    one: Seq<(Seq<char>, Seq<char>)>,
    other: Seq<(Seq<char>, Seq<char>)>,
    map: Map<Seq<char>, Seq<char>>,
)
    requires
        enumerates(one, map),
        enumerates(other, map),
        names_are_distinct(map),
    ensures
        collected(one) == collected(other),
{
    lemma_same_collection(one, other, map);
    lemma_same_collection(other, one, map);
    assert(collected(one) =~= collected(other));
}

proof fn lemma_same_collection(
    one: Seq<(Seq<char>, Seq<char>)>,
    other: Seq<(Seq<char>, Seq<char>)>,
    map: Map<Seq<char>, Seq<char>>,
)
    requires
        enumerates(one, map),
        enumerates(other, map),
        names_are_distinct(map),
    ensures
        forall|name: Seq<char>| #[trigger]
            collected(one).contains_key(name) ==> collected(other).contains_key(name) && collected(
                other,
            )[name] == collected(one)[name],
{
    assert forall|name: Seq<char>| #[trigger] collected(one).contains_key(name) implies collected(
        other,
    ).contains_key(name) && collected(other)[name] == collected(one)[name] by {
        law_names_come_from_usable_headers(one, name);
        let i = choose|i: int|
            0 <= i < one.len() && is_usable(#[trigger] one[i]) && canonical_name(one[i].0) == name;
        let key = one[i].0;
        assert(map.contains_key(key) && one[i] == (key, map[key]));
        law_distinct_headers_all_stay(one, map, key);
        law_distinct_headers_all_stay(other, map, key);
    }
}

/// The characters of a name are the printable ones of ASCII, but for the blank
/// and the delimiters.
pub proof fn law_name_chars_are_tokens(c: char)
    ensures
        is_name_char(c) <==> {
            &&& 33 <= c as int <= 126
            &&& c != '"' && c != '(' && c != ')' && c != ',' && c != '/' && c != ':' && c != ';'
            &&& c != '<' && c != '=' && c != '>' && c != '?' && c != '@' && c != '['
            &&& c != '\\' && c != ']' && c != '{' && c != '}'
        },
{
}

/// A header is usable exactly where its name has at least one and at most 65535
/// characters, all of them name characters, and no byte of its value is a control
/// character other than the tab.
pub proof fn law_usable_headers_are_well_formed(header: (Seq<char>, Seq<char>))
    ensures
        is_usable(header) <==> {
            &&& 1 <= header.0.len() <= 65535
            &&& forall|i: int|
                0 <= i < header.0.len() ==> {
                    let c = #[trigger] header.0[i];
                    &&& 33 <= c as int <= 126
                    &&& c != '"' && c != '(' && c != ')' && c != ',' && c != '/' && c != ':'
                    &&& c != ';' && c != '<' && c != '=' && c != '>' && c != '?' && c != '@'
                    &&& c != '[' && c != '\\' && c != ']' && c != '{' && c != '}'
                }
            &&& forall|i: int|
                0 <= i < encode_utf8(header.1).len() ==> {
                    let byte = #[trigger] encode_utf8(header.1)[i];
                    byte == 9 || 32 <= byte <= 126 || byte >= 128
                }
        },
{
    let key = header.0;
    if is_usable(header) {
        assert forall|i: int| 0 <= i < key.len() implies {
            let c = #[trigger] key[i];
            &&& 33 <= c as int <= 126
            &&& c != '"' && c != '(' && c != ')' && c != ',' && c != '/' && c != ':'
            &&& c != ';' && c != '<' && c != '=' && c != '>' && c != '?' && c != '@'
            &&& c != '[' && c != '\\' && c != ']' && c != '{' && c != '}'
        } by {
            law_name_chars_are_tokens(key[i]);
        }
    }
}

/// The canonical form of a name has its letters in lower case and is otherwise
/// the name, character by character.
pub proof fn law_canonical_name_is_lower_case(key: Seq<char>)
    ensures
        canonical_name(key).len() == key.len(),
        forall|i: int|
            0 <= i < key.len() ==> {
                let c = #[trigger] canonical_name(key)[i];
                if 65 <= key[i] as int <= 90 {
                    c as int == key[i] as int + 32
                } else {
                    c == key[i]
                }
            },
{
}

/// One more header changes nothing where it is not usable; where it is, its
/// value, whole, becomes the only one of its name, and every other name keeps
/// what it had.
pub proof fn law_one_more_header(
    headers: Seq<(Seq<char>, Seq<char>)>,
    header: (Seq<char>, Seq<char>),
)
    ensures
        !is_usable(header) ==> collected(headers.push(header)) == collected(headers),
        is_usable(header) ==> collected(headers.push(header)) == collected(headers).insert(
            canonical_name(header.0),
            seq![encode_utf8(header.1)],
        ),
        collected(Seq::empty()) == Map::<Seq<char>, Seq<Seq<u8>>>::empty(),
{
    assert(headers.push(header).drop_last() =~= headers);
}

/// The texts of headers are those of each name and each value, in order.
pub proof fn law_header_texts_are_whole(headers: Seq<(String, String)>)
    ensures
        header_texts(headers).len() == headers.len(),
        forall|i: int|
            0 <= i < headers.len() ==> (#[trigger] header_texts(headers)[i]).0 == headers[i].0@
                && header_texts(headers)[i].1 == headers[i].1@,
{
}

/// An enumeration of a map has every entry of it, with its value, and nothing
/// else and nothing twice.
pub proof fn law_enumeration_is_complete(
    headers: Seq<(Seq<char>, Seq<char>)>,
    map: Map<Seq<char>, Seq<char>>,
)
    requires
        enumerates(headers, map),
    ensures
        headers.len() == map.len(),
        forall|i: int, j: int|
            0 <= i < j < headers.len() ==> (#[trigger] headers[i]).0 != (#[trigger] headers[j]).0,
        forall|i: int|
            0 <= i < headers.len() ==> map.contains_key((#[trigger] headers[i]).0)
                && map[headers[i].0] == headers[i].1,
        forall|key: Seq<char>| #[trigger]
            map.contains_key(key) ==> headers.contains((key, map[key])),
{
    assert forall|key: Seq<char>| #[trigger] map.contains_key(key) implies headers.contains(
        (key, map[key]),
    ) by {
        let i = choose|i: int| 0 <= i < headers.len() && (#[trigger] headers[i]).0 == key;
        assert(headers[i] == (key, map[key]));
    }
}

/// The usable names of a map are the canonical names of its usable headers.
pub proof fn law_usable_names_are_those_of_headers(
    map: Map<Seq<char>, Seq<char>>,
    name: Seq<char>,
)
    ensures
        usable_names(map).contains(name) <==> exists|key: Seq<char>| #[trigger]
            map.contains_key(key) && is_usable((key, map[key])) && canonical_name(key) == name,
{
}

/// The headers of a JSON object are all of it; where there is no object there
/// are none.
pub proof fn law_headers_are_the_object(object: Option<Map<Seq<char>, Seq<char>>>)
    ensures
        object matches Some(map) ==> headers_of(object) == map,
        object is None ==> headers_of(object).is_empty(),
{
}

/// Usable names are distinct exactly where no two different ones have the same
/// canonical form.
pub proof fn law_distinct_names_have_distinct_forms(map: Map<Seq<char>, Seq<char>>)
    ensures
        names_are_distinct(map) <==> forall|a: Seq<char>, b: Seq<char>|
            #![trigger map.contains_key(a), map.contains_key(b)]
            a != b && map.contains_key(a) && map.contains_key(b) && is_usable((a, map[a]))
                && is_usable((b, map[b])) ==> canonical_name(a) != canonical_name(b),
{
}

} // verus!
