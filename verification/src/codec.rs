//! The settings document and its JSON codec.
//!
//! A [`Document`] is the top-level JSON object of a settings file, held as a
//! vector of key/value entries with unique keys and viewed as a map from key
//! to `serde_json::Value`. Parsing and serialization are serde_json's work,
//! reached through trusted wrappers; what a piece of text parses to is named
//! by the uninterpreted `json_obj_of`, and every other contract of this
//! library speaks of that name.

use vstd::prelude::*;

verus! {

#[verifier::external_type_specification]
#[verifier::external_body]
pub struct ExValue(serde_json::Value);

/// What a piece of JSON text holds, as serde_json parses it:
/// `None` when the text is not valid JSON; `Some(None)` when it is valid JSON
/// whose top-level value is not an object; `Some(Some(m))` when its top-level
/// value is the object binding keys to values as `m` does.
pub uninterp spec fn json_obj_of(s: Seq<char>) -> Option<Option<Map<Seq<char>, serde_json::Value>>>;

/// The pretty-printed JSON text serde_json's encoder produces for an object:
/// a function of the object alone.
pub uninterp spec fn pretty_of(m: Map<Seq<char>, serde_json::Value>) -> Seq<char>;

/// `s` is valid JSON.
pub open spec fn is_json(s: Seq<char>) -> bool {
    json_obj_of(s) is Some
}

/// `s` is valid JSON whose top-level value is an object.
pub open spec fn is_json_object(s: Seq<char>) -> bool {
    json_obj_of(s) matches Some(Some(_))
}

/// The object `s` parses to.
pub open spec fn obj_of(s: Seq<char>) -> Map<Seq<char>, serde_json::Value>
    recommends
        is_json_object(s),
{
    json_obj_of(s)->Some_0->Some_0
}

/// The map bound by a sequence of key/value entries, later entries winning.
pub open spec fn entries_map(es: Seq<(String, serde_json::Value)>) -> Map<
    Seq<char>,
    serde_json::Value,
>
    decreases es.len(),
{
    if es.len() == 0 {
        Map::empty()
    } else {
        entries_map(es.drop_last()).insert(es.last().0@, es.last().1)
    }
}

/// No two entries share a key.
pub open spec fn unique_keys(es: Seq<(String, serde_json::Value)>) -> bool {
    forall|i: int, j: int| 0 <= i < j < es.len() ==> es[i].0@ != es[j].0@
}

/// The top-level JSON object of a settings file.
pub struct Document {
    entries: Vec<(String, serde_json::Value)>,
}

impl View for Document {
    type V = Map<Seq<char>, serde_json::Value>;

    /// A document is the map its entries bind.
    closed spec fn view(&self) -> Map<Seq<char>, serde_json::Value> {
        entries_map(self.entries@)
    }
}

/// Every key a map built from `es` holds stands in some entry of `es`.
proof fn lemma_entries_map_dom(es: Seq<(String, serde_json::Value)>, k: Seq<char>)
    requires
        entries_map(es).contains_key(k),
    ensures
        exists|i: int| 0 <= i < es.len() && es[i].0@ == k,
    decreases es.len(),
{
    if es.len() > 0 && es.last().0@ != k {
        lemma_entries_map_dom(es.drop_last(), k);
        let i = choose|i: int| 0 <= i < es.drop_last().len() && es.drop_last()[i].0@ == k;
        assert(es[i].0@ == k);
    }
}

/// With unique keys, the map built from `es` binds each entry's key to that
/// entry's value.
proof fn lemma_entries_map_index(es: Seq<(String, serde_json::Value)>, i: int)
    requires
        unique_keys(es),
        0 <= i < es.len(),
    ensures
        entries_map(es).contains_key(es[i].0@),
        entries_map(es)[es[i].0@] == es[i].1,
    decreases es.len(),
{
    if i < es.len() - 1 {
        assert(forall|a: int, b: int|
            0 <= a < b < es.drop_last().len() ==> es.drop_last()[a].0@ != es.drop_last()[b].0@);
        lemma_entries_map_index(es.drop_last(), i);
        assert(es.last().0@ != es[i].0@);
    }
}

/// With unique keys, removing the entry at `i` removes exactly its key from
/// the bound map.
proof fn lemma_entries_map_remove(es: Seq<(String, serde_json::Value)>, i: int)
    requires
        unique_keys(es),
        0 <= i < es.len(),
    ensures
        entries_map(es.remove(i)) == entries_map(es).remove(es[i].0@),
    decreases es.len(),
{
    let k = es[i].0@;
    if i == es.len() - 1 {
        assert(es.remove(i) =~= es.drop_last());
        if entries_map(es.drop_last()).contains_key(k) {
            lemma_entries_map_dom(es.drop_last(), k);
            let j = choose|j: int|
                0 <= j < es.drop_last().len() && es.drop_last()[j].0@ == k;
            assert(es[j].0@ == es[i].0@);
            assert(false);
        }
        assert(entries_map(es.drop_last()).insert(k, es[i].1).remove(k) =~= entries_map(
            es.drop_last(),
        ));
    } else {
        assert(forall|a: int, b: int|
            0 <= a < b < es.drop_last().len() ==> es.drop_last()[a].0@ != es.drop_last()[b].0@);
        lemma_entries_map_remove(es.drop_last(), i);
        assert(es.remove(i).drop_last() =~= es.drop_last().remove(i));
        assert(es.remove(i).last() == es.last());
        assert(es.last().0@ != k);
        assert(entries_map(es.drop_last()).remove(k).insert(es.last().0@, es.last().1)
            =~= entries_map(es.drop_last()).insert(es.last().0@, es.last().1).remove(k));
    }
}

impl Document {
    /// The entries' keys are unique, so the vector and the map agree.
    pub closed spec fn wf(&self) -> bool {
        unique_keys(self.entries@)
    }

    /// The empty document.
    pub fn empty() -> (r: Document)
        ensures
            r.wf(),
            r@ == Map::<Seq<char>, serde_json::Value>::empty(),
    {
        Document { entries: Vec::new() }
    }

    /// The value bound to `key`, if the document holds that key.
    pub fn get<'a>(&'a self, key: &str) -> (r: Option<&'a serde_json::Value>)
        requires
            self.wf(),
        ensures
            match r {
                Some(v) => self@.contains_key(key@) && *v == self@[key@],
                None => !self@.contains_key(key@),
            },
    {
        let k: String = key.to_owned();
        let n: usize = self.entries.len();
        let mut i: usize = 0;
        while i < n
            invariant
                i <= n,
                n == self.entries@.len(),
                k@ == key@,
                self.wf(),
                forall|j: int| 0 <= j < i ==> self.entries@[j].0@ != key@,
            decreases n - i,
        {
            if self.entries[i].0 == k {
                proof {
                    lemma_entries_map_index(self.entries@, i as int);
                }
                return Some(&self.entries[i].1);
            }
            i = i + 1;
        }
        proof {
            if self@.contains_key(key@) {
                lemma_entries_map_dom(self.entries@, key@);
            }
        }
        None
    }

    /// Bind `key` to `value`, overwriting any earlier binding.
    pub fn insert(&mut self, key: &str, value: serde_json::Value)
        requires
            old(self).wf(),
        ensures
            final(self).wf(),
            final(self)@ == old(self)@.insert(key@, value),
    {
        let k: String = key.to_owned();
        let n: usize = self.entries.len();
        let mut i: usize = 0;
        while i < n
            invariant
                i <= n,
                n == self.entries@.len(),
                k@ == key@,
                self.wf(),
                self.entries@ == old(self).entries@,
                forall|j: int| 0 <= j < i ==> self.entries@[j].0@ != key@,
            decreases n - i,
        {
            if self.entries[i].0 == k {
                proof {
                    lemma_entries_map_index(self.entries@, i as int);
                    lemma_entries_map_remove(self.entries@, i as int);
                }
                let ghost before = self.entries@;
                self.entries.remove(i);
                proof {
                    assert(forall|a: int| 0 <= a < self.entries@.len()
                        ==> self.entries@[a].0@ != key@) by {
                        assert(forall|a: int| 0 <= a < i ==> self.entries@[a] == before[a]);
                        assert(forall|a: int| i <= a < self.entries@.len()
                            ==> self.entries@[a] == before[a + 1]);
                    }
                    assert(unique_keys(self.entries@)) by {
                        assert(forall|a: int| 0 <= a < i ==> self.entries@[a] == before[a]);
                        assert(forall|a: int| i <= a < self.entries@.len()
                            ==> self.entries@[a] == before[a + 1]);
                    }
                }
                self.entries.push((k, value));
                proof {
                    assert(self.entries@.drop_last() =~= before.remove(i as int));
                    assert(entries_map(before).remove(key@).insert(key@, value) =~= entries_map(
                        before,
                    ).insert(key@, value));
                }
                return ;
            }
            i = i + 1;
        }
        self.entries.push((k, value));
        proof {
            assert(self.entries@.drop_last() =~= old(self).entries@);
        }
    }
}

/// What parsing a settings file's text yields.
pub(crate) enum ParseOutcome {
    /// The text is not valid JSON; the payload is a human-readable cause.
    NotJson(String),
    /// Valid JSON, but the top-level value is not an object.
    NotAnObject,
    /// The top-level object.
    Object(Document),
}

/// Relies on serde_json::from_str::<Value>: parses the text as one JSON
/// value, deterministically; and on serde_json::Map, whose keys are unique.
#[verifier::external_body]
pub(crate) fn parse_object(s: &str) -> (r: ParseOutcome)
    ensures
        (r is NotJson) <==> (json_obj_of(s@) is None),
        (r is NotAnObject) <==> (json_obj_of(s@) matches Some(None)),
        r matches ParseOutcome::Object(doc) ==> doc.wf() && json_obj_of(s@) == Some(Some(doc@)),
{
    match serde_json::from_str::<serde_json::Value>(s) {
        Err(e) => ParseOutcome::NotJson(format!("Failed to deserialize settings: {}", e)),
        Ok(serde_json::Value::Object(map)) => ParseOutcome::Object(
            Document { entries: map.into_iter().collect() },
        ),
        Ok(_) => ParseOutcome::NotAnObject,
    }
}

/// Relies on serde_json::to_string_pretty: on a top-level object it cannot
/// fail (it writes into memory, every key is a string, and a JSON number
/// holds no NaN or infinity), and its output depends on the object alone
/// (the backing map is ordered and the formatting is fixed), so the output
/// bears a name; and whatever of its output serde_json::from_str accepts at
/// all parses back to exactly the same object (floats exact under serde_json's
/// float_roundtrip feature, enabled in Cargo.toml). The parser enforces a
/// nesting-depth limit that the encoder does not, so the text printed from a
/// deeply nested document may parse to nothing: callers who need the text to
/// read back re-parse it and look.
#[verifier::external_body]
pub(crate) fn to_pretty_text(doc: &Document) -> (text: String)
    requires
        doc.wf(),
    ensures
        text@ == pretty_of(doc@),
        json_obj_of(text@) matches Some(v) ==> v == Some(doc@),
{
    let entries: serde_json::Map<String, serde_json::Value> = doc.entries.iter().cloned().collect();
    serde_json::to_string_pretty(&serde_json::Value::Object(entries))
        .expect("serializing a JSON object cannot fail")
}

/// Relies on serde_json::Value's Clone impl: the copy equals the original.
#[verifier::external_body]
pub(crate) fn clone_value(v: &serde_json::Value) -> (r: serde_json::Value)
    ensures
        r == *v,
{
    v.clone()
}

} // verus!
