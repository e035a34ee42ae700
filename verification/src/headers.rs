//! Message headers: decoding them to text and finding the two headers that
//! every delayed message must carry.

use vstd::prelude::*;
use vstd::utf8::{decode_utf8, valid_utf8};

verus! {

/// The header that carries the message's identifier.
pub const CHRONOS_ID: &'static str = "chronosMessageId";

/// The header that carries the instant at which the message is due.
pub const DEADLINE: &'static str = "chronosDeadline";

/// Calls `std::str::from_utf8`, which (as its documentation says) succeeds
/// exactly when the bytes are well-formed UTF-8 and then denotes the text they
/// encode.
#[verifier::external_body]
fn str_from_utf8<'a>(bytes: &'a [u8]) -> (r: Option<&'a str>)
    ensures
        r is Some <==> valid_utf8(bytes@),
        r matches Some(s) ==> s@ == decode_utf8(bytes@),
{
    match std::str::from_utf8(bytes) {
        Ok(s) => Some(s),
        Err(_) => None,
    }
}

/// The text that `bytes` encode, when they are well-formed UTF-8.
pub open spec fn spec_utf8_text(bytes: Seq<u8>) -> Option<Seq<char>> {
    if valid_utf8(bytes) {
        Some(decode_utf8(bytes))
    } else {
        None
    }
}

/// Decodes UTF-8 bytes to an owned string.
pub fn utf8_text(bytes: &[u8]) -> (r: Option<String>)
    ensures
        r is Some <==> valid_utf8(bytes@),
        r matches Some(s) ==> s@ == decode_utf8(bytes@),
        match r {
            Some(s) => spec_utf8_text(bytes@) == Some(s@),
            None => spec_utf8_text(bytes@) is None,
        },
{
    match str_from_utf8(bytes) {
        Some(s) => Some(String::from_str(s)),
        None => None,
    }
}

/// A header as the broker hands it over: a key and an optional raw value.
pub struct RawHeader {
    pub key: String,
    pub value: Option<Vec<u8>>,
}

/// The key of a header and the text of its value, when it has a UTF-8 value.
pub open spec fn decoded_header(h: RawHeader) -> Option<(Seq<char>, Seq<char>)> {
    match h.value {
        Some(v) => match spec_utf8_text(v@) {
            Some(t) => Some((h.key@, t)),
            None => None,
        },
        None => None,
    }
}

/// The map that entering key/value pairs in order gives: a later pair for a
/// key replaces an earlier one.
pub open spec fn pairs_map(s: Seq<(Seq<char>, Seq<char>)>) -> Map<Seq<char>, Seq<char>>
    decreases s.len(),
{
    if s.len() == 0 {
        Map::empty()
    } else {
        pairs_map(s.drop_last()).insert(s.last().0, s.last().1)
    }
}

/// The map from the keys of the headers whose value is UTF-8 text to that
/// text, a later header replacing an earlier one with the same key.
pub open spec fn spec_header_map(raw: Seq<RawHeader>) -> Map<Seq<char>, Seq<char>>
    decreases raw.len(),
{
    if raw.len() == 0 {
        Map::empty()
    } else {
        match decoded_header(raw.last()) {
            Some((k, v)) => spec_header_map(raw.drop_last()).insert(k, v),
            None => spec_header_map(raw.drop_last()),
        }
    }
}

/// Some header of `raw` has key `k` and a value that is well-formed UTF-8.
pub open spec fn has_text_header(raw: Seq<RawHeader>, k: Seq<char>) -> bool {
    exists|i: int|
        0 <= i < raw.len() && #[trigger] raw[i].key@ == k && (raw[i].value matches Some(v)
            && valid_utf8(v@))
}

/// A key is in the decoded header map exactly when some header carries it
/// with a UTF-8 value, wherever that header stands among the others.
pub proof fn lemma_header_map_keys(raw: Seq<RawHeader>, k: Seq<char>)
    ensures
        spec_header_map(raw).contains_key(k) <==> has_text_header(raw, k),
    decreases raw.len(),
{
    if raw.len() > 0 {
        let init = raw.drop_last();
        lemma_header_map_keys(init, k);
        if has_text_header(init, k) {
            let i = choose|i: int|
                0 <= i < init.len() && #[trigger] init[i].key@ == k && (init[i].value matches Some(
                    v,
                ) && valid_utf8(v@));
            assert(raw[i] == init[i]);
        }
        if has_text_header(raw, k) {
            let i = choose|i: int|
                0 <= i < raw.len() && #[trigger] raw[i].key@ == k && (raw[i].value matches Some(
                    v,
                ) && valid_utf8(v@));
            if i < raw.len() - 1 {
                assert(init[i] == raw[i]);
            }
        }
    }
}

/// The value of a key in the decoded header map is the text of the last
/// header that carries the key with a UTF-8 value.
pub proof fn lemma_header_map_last_wins(raw: Seq<RawHeader>, i: int)
    requires
        0 <= i < raw.len(),
        raw[i].value matches Some(v) && valid_utf8(v@),
        forall|j: int|
            i < j < raw.len() && #[trigger] raw[j].key@ == raw[i].key@ ==> !(raw[j].value matches Some(
                v,
            ) && valid_utf8(v@)),
    ensures
        spec_header_map(raw).contains_key(raw[i].key@),
        spec_header_map(raw)[raw[i].key@] == decode_utf8(raw[i].value.unwrap()@),
    decreases raw.len(),
{
    if i < raw.len() - 1 {
        let init = raw.drop_last();
        assert(init[i] == raw[i]);
        assert forall|j: int|
            i < j < init.len() && #[trigger] init[j].key@ == init[i].key@ implies !(init[j].value matches Some(
                v,
            ) && valid_utf8(v@)) by {
            assert(init[j] == raw[j]);
        }
        lemma_header_map_last_wins(init, i);
        assert(raw[raw.len() - 1].key@ == raw[i].key@ ==> !(raw[raw.len() - 1].value matches Some(
            v,
        ) && valid_utf8(v@)));
    }
}

/// Whether a message carries both required headers depends only on which
/// headers it carries, not on their order (nor on repeats).
pub proof fn lemma_required_headers_order_free(raw1: Seq<RawHeader>, raw2: Seq<RawHeader>)
    requires
        forall|h: RawHeader| raw1.contains(h) <==> raw2.contains(h),
    ensures
        spec_required_headers(raw1) is Some <==> spec_required_headers(raw2) is Some,
{
    lemma_header_map_keys(raw1, CHRONOS_ID@);
    lemma_header_map_keys(raw1, DEADLINE@);
    lemma_header_map_keys(raw2, CHRONOS_ID@);
    lemma_header_map_keys(raw2, DEADLINE@);
    assert forall|a: Seq<RawHeader>, b: Seq<RawHeader>, k: Seq<char>|
        (forall|h: RawHeader| a.contains(h) ==> b.contains(h)) && has_text_header(a, k)
            implies has_text_header(b, k) by {
        let i = choose|i: int|
            0 <= i < a.len() && #[trigger] a[i].key@ == k && (a[i].value matches Some(v)
                && valid_utf8(v@));
        assert(a.contains(a[i]));
        let j = choose|j: int| 0 <= j < b.len() && b[j] == a[i];
        assert(b[j].key@ == k);
    }
}

/// The decoded headers of a message that carries both the identifier and the
/// deadline header; `None` for a message that lacks either.
pub open spec fn spec_required_headers(raw: Seq<RawHeader>) -> Option<Map<Seq<char>, Seq<char>>> {
    let m = spec_header_map(raw);
    if m.contains_key(CHRONOS_ID@) && m.contains_key(DEADLINE@) {
        Some(m)
    } else {
        None
    }
}

/// Text headers keyed by name.
pub struct HeaderMap {
    entries: Vec<(String, String)>,
}

/// The characters of each key/value pair.
pub open spec fn pairs_view(s: Seq<(String, String)>) -> Seq<(Seq<char>, Seq<char>)> {
    s.map_values(|p: (String, String)| (p.0@, p.1@))
}

impl View for HeaderMap {
    type V = Map<Seq<char>, Seq<char>>;

    closed spec fn view(&self) -> Map<Seq<char>, Seq<char>> {
        pairs_map(pairs_view(self.entries@))
    }
}

proof fn lemma_pairs_map_lookup(s: Seq<(Seq<char>, Seq<char>)>, i: int)
    requires
        0 <= i < s.len(),
        forall|j: int| i < j < s.len() ==> #[trigger] s[j].0 != s[i].0,
    ensures
        pairs_map(s).contains_key(s[i].0),
        pairs_map(s)[s[i].0] == s[i].1,
    decreases s.len(),
{
    if i < s.len() - 1 {
        lemma_pairs_map_lookup(s.drop_last(), i);
        assert(s[s.len() - 1].0 != s[i].0);
    }
}

proof fn lemma_pairs_map_later_absent(s: Seq<(Seq<char>, Seq<char>)>, k: Seq<char>, i: int)
    requires
        0 <= i <= s.len(),
        forall|j: int| i <= j < s.len() ==> #[trigger] s[j].0 != k,
    ensures
        pairs_map(s).contains_key(k) == pairs_map(s.take(i)).contains_key(k),
        pairs_map(s).contains_key(k) ==> pairs_map(s)[k] == pairs_map(s.take(i))[k],
    decreases s.len() - i,
{
    if i < s.len() {
        lemma_pairs_map_later_absent(s.drop_last(), k, i);
        assert(s.drop_last().take(i) =~= s.take(i));
    } else {
        assert(s.take(i) =~= s);
    }
}

impl HeaderMap {
    /// The value of the header `key`, when there is one.
    pub fn get(&self, key: &String) -> (r: Option<&String>)
        ensures
            match r {
                Some(v) => self@.contains_key(key@) && self@[key@] == v@,
                None => !self@.contains_key(key@),
            },
    {
        let ghost s = pairs_view(self.entries@);
        let mut i: usize = self.entries.len();
        while i > 0
            invariant
                i <= self.entries@.len(),
                s == pairs_view(self.entries@),
                forall|j: int| i <= j < s.len() ==> #[trigger] s[j].0 != key@,
            decreases i,
        {
            i = i - 1;
            if self.entries[i].0 == *key {
                proof {
                    lemma_pairs_map_lookup(s, i as int);
                }
                return Some(&self.entries[i].1);
            }
            assert(s[i as int].0 == self.entries@[i as int].0@);
        }
        proof {
            lemma_pairs_map_later_absent(s, key@, 0);
            assert(s.take(0) =~= Seq::<(Seq<char>, Seq<char>)>::empty());
        }
        None
    }

    /// The headers as key/value pairs; entering them in order into a map
    /// gives this map.
    pub fn entries(&self) -> (r: &Vec<(String, String)>)
        ensures
            pairs_map(pairs_view(r@)) == self@,
    {
        &self.entries
    }
}

/// The headers of a message decoded to text, when the message carries both
/// the identifier and the deadline header. Headers without a UTF-8 value are
/// left out.
pub fn required_headers(raw: &Vec<RawHeader>) -> (r: Option<HeaderMap>)
    ensures
        match r {
            Some(m) => spec_required_headers(raw@) == Some(m@),
            None => spec_required_headers(raw@) is None,
        },
        r is Some <==> has_text_header(raw@, CHRONOS_ID@) && has_text_header(raw@, DEADLINE@),
        r matches Some(m) ==> m@ == spec_header_map(raw@),
{
    proof {
        lemma_header_map_keys(raw@, CHRONOS_ID@);
        lemma_header_map_keys(raw@, DEADLINE@);
    }
    let mut entries: Vec<(String, String)> = Vec::new();
    let mut i: usize = 0;
    while i < raw.len()
        invariant
            i <= raw@.len(),
            pairs_map(pairs_view(entries@)) == spec_header_map(raw@.take(i as int)),
        decreases raw@.len() - i,
    {
        let h = &raw[i];
        assert(raw@.take(i + 1).drop_last() =~= raw@.take(i as int));
        assert(raw@.take(i + 1).last() == raw@[i as int]);
        match &h.value {
            Some(v) => match utf8_text(v.as_slice()) {
                Some(t) => {
                    let ghost before = entries@;
                    entries.push((h.key.clone(), t));
                    assert(pairs_view(entries@).drop_last() =~= pairs_view(before));
                },
                None => {},
            },
            None => {},
        }
        i = i + 1;
    }
    assert(raw@.take(raw@.len() as int) =~= raw@);
    let m = HeaderMap { entries };
    let id_key = String::from_str(CHRONOS_ID);
    let deadline_key = String::from_str(DEADLINE);
    let has_id = m.get(&id_key).is_some();
    let has_deadline = m.get(&deadline_key).is_some();
    if has_id && has_deadline {
        Some(m)
    } else {
        None
    }
}

} // verus!
