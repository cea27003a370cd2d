//! Localised country names, read from a JSON table that maps a language
//! code to an object that maps a country code to that country's name in
//! that language.
use std::collections::BTreeMap;
use vstd::prelude::*;

use crate::text::str_eq;

verus! {

broadcast use vstd::string::group_string_axioms;

/// The error type of `serde_json`.
#[verifier::external_type_specification]
#[verifier::external_body]
pub struct ExJsonError(serde_json::Error);

/// A country table as plain values: for each language code, the pairs of
/// country code and country name.
pub type CountryTable = Vec<(String, Vec<(String, String)>)>;

/// What `serde_json` reads from `text` as an object of objects of strings,
/// each object's entries listed in the order of their keys; `None` where
/// the text is not such an object.
pub uninterp spec fn json_country_table(text: Seq<char>) -> Option<
    Seq<(Seq<char>, Seq<(Seq<char>, Seq<char>)>)>,
>;

/// Calls `serde_json::from_str` to read `text` into a `BTreeMap` of
/// `BTreeMap`s of strings and lists the entries of each map in key order.
/// The contract claims that the call succeeds exactly where the named table
/// `json_country_table(text)` exists, and then yields that table; it says
/// nothing of what the table is for a given text.
#[verifier::external_body]
fn read_country_json(text: &str) -> (table: Result<CountryTable, serde_json::Error>)
    ensures
        table is Ok <==> json_country_table(text@) is Some,
        table matches Ok(t) ==> t.deep_view() == json_country_table(text@).unwrap(),
{
    let maps: BTreeMap<String, BTreeMap<String, String>> = serde_json::from_str(text)?;
    Ok(maps.into_iter().map(|(lang, names)| (lang, names.into_iter().collect())).collect())
}

/// The map that a list of key/value pairs stands for; a later pair for a
/// key replaces an earlier one.
pub open spec fn assoc<V>(pairs: Seq<(Seq<char>, V)>) -> Map<Seq<char>, V>
    decreases pairs.len(),
{
    if pairs.len() == 0 {
        Map::empty()
    } else {
        assoc(pairs.drop_last()).insert(pairs.last().0, pairs.last().1)
    }
}

/// The map from language code to (country code to name) that a table
/// stands for.
pub open spec fn table_map(table: Seq<(Seq<char>, Seq<(Seq<char>, Seq<char>)>)>) -> Map<
    Seq<char>,
    Map<Seq<char>, Seq<char>>,
> {
    assoc(table).map_values(|names: Seq<(Seq<char>, Seq<char>)>| assoc(names))
}

/// A key that no pair holds is not in the map.
proof fn lemma_assoc_absent<V>(pairs: Seq<(Seq<char>, V)>, k: Seq<char>)
    requires
        forall|j: int| 0 <= j < pairs.len() ==> (#[trigger] pairs[j]).0 != k,
    ensures
        !assoc(pairs).contains_key(k),
    decreases pairs.len(),
{
    if pairs.len() > 0 {
        assert forall|j: int| 0 <= j < pairs.drop_last().len() implies (
        #[trigger] pairs.drop_last()[j]).0 != k by {
            assert(pairs.drop_last()[j] == pairs[j]);
        }
        lemma_assoc_absent(pairs.drop_last(), k);
        assert(pairs[pairs.len() - 1] == pairs.last());
    }
}

/// The map gives a key the value of the last pair that holds it.
proof fn lemma_assoc_last<V>(pairs: Seq<(Seq<char>, V)>, k: Seq<char>, i: int)
    requires
        0 <= i < pairs.len(),
        pairs[i].0 == k,
        forall|j: int| i < j < pairs.len() ==> (#[trigger] pairs[j]).0 != k,
    ensures
        assoc(pairs).contains_key(k),
        assoc(pairs)[k] == pairs[i].1,
    decreases pairs.len(),
{
    if i < pairs.len() - 1 {
        assert(pairs[pairs.len() - 1] == pairs.last());
        assert forall|j: int| i < j < pairs.drop_last().len() implies (
        #[trigger] pairs.drop_last()[j]).0 != k by {
            assert(pairs.drop_last()[j] == pairs[j]);
        }
        assert(pairs.drop_last()[i] == pairs[i]);
        lemma_assoc_last(pairs.drop_last(), k, i);
    }
}

/// A table answers for a language and a country the name that the last
/// entry for that language gives, in its last pair for that country.
pub proof fn law_table_gives_last_entry(
    table: Seq<(Seq<char>, Seq<(Seq<char>, Seq<char>)>)>,
    i: int,
    j: int,
)
    requires
        0 <= i < table.len(),
        forall|k: int| i < k < table.len() ==> (#[trigger] table[k]).0 != table[i].0,
        0 <= j < table[i].1.len(),
        forall|k: int| j < k < table[i].1.len() ==> (#[trigger] table[i].1[k]).0 != table[i].1[j].0,
    ensures
        table_map(table).contains_key(table[i].0),
        table_map(table)[table[i].0].contains_key(table[i].1[j].0),
        table_map(table)[table[i].0][table[i].1[j].0] == table[i].1[j].1,
{
    lemma_assoc_last(table, table[i].0, i);
    lemma_assoc_last(table[i].1, table[i].1[j].0, j);
}

/// A table has no entry for a language that no entry names.
pub proof fn law_table_without_language(
    table: Seq<(Seq<char>, Seq<(Seq<char>, Seq<char>)>)>,
    lang: Seq<char>,
)
    requires
        forall|k: int| 0 <= k < table.len() ==> (#[trigger] table[k]).0 != lang,
    ensures
        !table_map(table).contains_key(lang),
{
    lemma_assoc_absent(table, lang);
}

/// The index of the last pair of `pairs` whose key is `key`, if any.
fn last_index_of_key<V: DeepView>(pairs: &Vec<(String, V)>, key: &str) -> (pos: Option<usize>)
    ensures
        match pos {
            Some(i) => i < pairs@.len() && pairs.deep_view()[i as int].0 == key@ && forall|j: int|
                i < j < pairs@.len() ==> (#[trigger] pairs.deep_view()[j]).0 != key@,
            None => forall|j: int|
                0 <= j < pairs@.len() ==> (#[trigger] pairs.deep_view()[j]).0 != key@,
        },
{
    let mut i = pairs.len();
    while i > 0
        invariant
            i <= pairs@.len(),
            forall|j: int| i <= j < pairs@.len() ==> (#[trigger] pairs.deep_view()[j]).0 != key@,
        decreases i,
    {
        i = i - 1;
        assert(pairs.deep_view()[i as int].0 == pairs@[i as int].0@);
        if str_eq(pairs[i].0.as_str(), key) {
            return Some(i);
        }
    }
    None
}

/// What the reading of a country table can fail with.
#[derive(Debug, Clone, Copy, PartialEq, Eq)]
pub enum CountryDataError {
    /// The text is not a JSON object of objects of strings.
    InvalidJson,
}

/// Localised country names, by language code and country code.
pub struct CountryDb {
    data: CountryTable,
}

impl View for CountryDb {
    type V = Map<Seq<char>, Map<Seq<char>, Seq<char>>>;

    closed spec fn view(&self) -> Self::V {
        table_map(self.data.deep_view())
    }
}

impl CountryDb {
    /// The database that holds `table`.
    pub fn from_table(table: CountryTable) -> (db: CountryDb)
        ensures
            db@ == table_map(table.deep_view()),
    {
        CountryDb { data: table }
    }

    /// The database read from the JSON text `json`, which must be an object
    /// of objects of strings.
    pub fn new(json: &str) -> (db: CountryDb)
        requires
            json_country_table(json@) is Some,
        ensures
            db@ == table_map(json_country_table(json@).unwrap()),
    {
        match read_country_json(json) {
            Ok(table) => CountryDb::from_table(table),
            Err(_) => {
                proof {
                    assert(false);
                }
                CountryDb { data: Vec::new() }
            },
        }
    }

    /// The database read from `json`, or `InvalidJson` when `json` is not an
    /// object of objects of strings.
    pub fn parse(json: &str) -> (db: Result<CountryDb, CountryDataError>)
        ensures
            match db {
                Ok(db) => json_country_table(json@) is Some && db@ == table_map(
                    json_country_table(json@).unwrap(),
                ),
                Err(e) => json_country_table(json@) is None && e == CountryDataError::InvalidJson,
            },
    {
        match read_country_json(json) {
            Ok(table) => Ok(CountryDb::from_table(table)),
            Err(_) => Err(CountryDataError::InvalidJson),
        }
    }

    /// The name of the country `code` in the language `lang`, or `None`
    /// when the database has no such entry.
    pub fn lookup(&self, lang: &str, code: &str) -> (name: Option<&str>)
        ensures
            match name {
                Some(n) => self@.contains_key(lang@) && self@[lang@].contains_key(code@) && n@
                    == self@[lang@][code@],
                None => !(self@.contains_key(lang@) && self@[lang@].contains_key(code@)),
            },
    {
        let ghost outer = self.data.deep_view();
        match last_index_of_key(&self.data, lang) {
            Some(i) => {
                proof {
                    lemma_assoc_last(outer, lang@, i as int);
                }
                let countries = &self.data[i].1;
                assert(countries.deep_view() == outer[i as int].1);
                match last_index_of_key(countries, code) {
                    Some(j) => {
                        proof {
                            lemma_assoc_last(countries.deep_view(), code@, j as int);
                        }
                        assert(countries.deep_view()[j as int].1 == countries@[j as int].1@);
                        Some(countries[j].1.as_str())
                    },
                    None => {
                        proof {
                            lemma_assoc_absent(countries.deep_view(), code@);
                        }
                        None
                    },
                }
            },
            None => {
                proof {
                    lemma_assoc_absent(outer, lang@);
                }
                None
            },
        }
    }
}

} // verus!
