//! The configuration file as written: its TOML text parsed, and the values
//! the configuration is made of read from the document, with the addresses
//! still as text.

use vstd::prelude::*;
use vstd::string::StringExecFns;

use toml::Value;
use toml::value::Table;

verus! {

/// A service's table as written: each field the text the key holds, or
/// `None` where the key is missing or holds another kind of value;
/// `v4_servers` holds an entry per element of the array, `None` where the
/// element is not a string.
#[derive(Clone, Debug)]
pub struct ServiceText {
    pub bind: Option<String>,
    pub service_type: Option<String>,
    pub motd: Option<String>,
    pub random_balance: Option<bool>,
    pub v4_servers: Option<Vec<Option<String>>>,
}

/// The configuration file as written: the `idola` section, if there is
/// one, with its `data_path` string if it has one; the entries of the
/// `service` array, if there is one, each `None` where it is not a table.
#[derive(Clone, Debug)]
pub struct ConfigText {
    pub idola: Option<Option<String>>,
    pub services: Option<Vec<Option<ServiceText>>>,
}

/// A service's table as plain values.
pub struct ServiceTextView {
    pub bind: Option<Seq<char>>,
    pub service_type: Option<Seq<char>>,
    pub motd: Option<Seq<char>>,
    pub random_balance: Option<bool>,
    pub v4_servers: Option<Seq<Option<Seq<char>>>>,
}

/// The configuration file as plain values.
pub struct ConfigTextView {
    pub idola: Option<Option<Seq<char>>>,
    pub services: Option<Seq<Option<ServiceTextView>>>,
}

/// An optional text as plain values.
pub open spec fn opt_text(o: Option<String>) -> Option<Seq<char>> {
    match o {
        Some(s) => Some(s@),
        None => None,
    }
}

/// A service's table as plain values.
pub open spec fn service_text_view(t: ServiceText) -> ServiceTextView {
    ServiceTextView {
        bind: opt_text(t.bind),
        service_type: opt_text(t.service_type),
        motd: opt_text(t.motd),
        random_balance: t.random_balance,
        v4_servers: match t.v4_servers {
            Some(v) => Some(v@.map_values(|e: Option<String>| opt_text(e))),
            None => None,
        },
    }
}

/// The configuration file as plain values.
pub open spec fn config_text_view(c: ConfigText) -> ConfigTextView {
    ConfigTextView {
        idola: match c.idola {
            Some(d) => Some(opt_text(d)),
            None => None,
        },
        services: match c.services {
            Some(v) => Some(
                v@.map_values(
                    |e: Option<ServiceText>|
                        match e {
                            Some(t) => Some(service_text_view(t)),
                            None => None,
                        },
                ),
            ),
            None => None,
        },
    }
}

/// A value of a TOML table, as far as the configuration reads it: its
/// string, if it is one; its boolean, if it is one; its elements' strings,
/// if it is an array (`None` for an element that is not a string).
#[derive(Debug)]
pub struct TomlLeaf(pub Option<String>, pub Option<bool>, pub Option<Vec<Option<String>>>);

/// A value of the document's top-level table, as far as the configuration
/// reads it: its entries, if it is a table; its elements' entries, if it
/// is an array (`None` for an element that is not a table).
#[derive(Debug)]
pub struct TomlTop(pub Option<Vec<(String, TomlLeaf)>>, pub Option<Vec<Option<Vec<(String, TomlLeaf)>>>>);

/// A table value as plain values.
pub struct LeafView {
    pub text: Option<Seq<char>>,
    pub flag: Option<bool>,
    pub texts: Option<Seq<Option<Seq<char>>>>,
}

/// A top-level value as plain values.
pub struct TopView {
    pub table: Option<Seq<(Seq<char>, LeafView)>>,
    pub tables: Option<Seq<Option<Seq<(Seq<char>, LeafView)>>>>,
}

/// Optional strings as plain values.
pub open spec fn texts_view(a: Seq<Option<String>>) -> Seq<Option<Seq<char>>> {
    a.map_values(|e: Option<String>| opt_text(e))
}

/// A table value as plain values.
pub open spec fn leaf_view(l: TomlLeaf) -> LeafView {
    LeafView {
        text: opt_text(l.0),
        flag: l.1,
        texts: match l.2 {
            Some(a) => Some(texts_view(a@)),
            None => None,
        },
    }
}

/// A table's entries as plain values.
pub open spec fn entries_view(t: Seq<(String, TomlLeaf)>) -> Seq<(Seq<char>, LeafView)> {
    t.map_values(|e: (String, TomlLeaf)| (e.0@, leaf_view(e.1)))
}

/// The elements of a top-level array as plain values.
pub open spec fn top_array_view(a: Seq<Option<Vec<(String, TomlLeaf)>>>) -> Seq<Option<Seq<(Seq<char>, LeafView)>>> {
    a.map_values(
        |e: Option<Vec<(String, TomlLeaf)>>|
            match e {
                Some(t) => Some(entries_view(t@)),
                None => None,
            },
    )
}

/// A top-level value as plain values.
pub open spec fn top_view(x: TomlTop) -> TopView {
    TopView {
        table: match x.0 {
            Some(t) => Some(entries_view(t@)),
            None => None,
        },
        tables: match x.1 {
            Some(a) => Some(top_array_view(a@)),
            None => None,
        },
    }
}

/// The document's top-level entries as plain values.
pub open spec fn doc_view(d: Seq<(String, TomlTop)>) -> Seq<(Seq<char>, TopView)> {
    d.map_values(|e: (String, TomlTop)| (e.0@, top_view(e.1)))
}

/// What parsing `text` as a TOML document gives: its top-level entries,
/// or `None` where the text is not a TOML document; it depends on the text
/// alone.
pub uninterp spec fn toml_doc(text: Seq<char>) -> Option<Seq<(Seq<char>, TopView)>>;

/// `toml`'s `from_str` parse of a document into its top-level table, each
/// value read with `toml`'s `as_str`, `as_bool`, `as_array` and
/// `as_table` into the library's types, or the parser's error as its
/// debug text. The contract names the document: it depends on the text
/// alone; what the error text says is not stated.
#[verifier::external_body]
fn parse_toml(text: &str) -> (r: Result<Vec<(String, TomlTop)>, String>)
    ensures
        match r {
            Ok(d) => toml_doc(text@) == Some(doc_view(d@)),
            Err(_) => toml_doc(text@) is None,
        },
{
    let table = |v: &Value| v.as_table().map(|t| t.iter().map(|(k, x)| (k.clone(), TomlLeaf(x.as_str().map(String::from),
        x.as_bool(), x.as_array().map(|a| a.iter().map(|e| e.as_str().map(String::from)).collect())))).collect());
    Ok(toml::from_str::<Table>(text).map_err(|e| format!("{:?}", e))?.into_iter().map(|(k, x)| (k, TomlTop(table(&x),
        x.as_array().map(|a| a.iter().map(table).collect())))).collect())
}

/// The first index, from `k` on, whose key is `key`.
pub open spec fn key_index<V>(t: Seq<(Seq<char>, V)>, key: Seq<char>, k: int) -> Option<int>
    decreases t.len() - k,
{
    if k < 0 || k >= t.len() {
        None
    } else if t[k].0 == key {
        Some(k)
    } else {
        key_index(t, key, k + 1)
    }
}

/// The value of the first entry of `t` with key `key`, if there is one.
pub open spec fn lookup<V>(t: Seq<(Seq<char>, V)>, key: Seq<char>) -> Option<V> {
    match key_index(t, key, 0) {
        Some(i) => Some(t[i].1),
        None => None,
    }
}

/// A string value, if it is one.
pub open spec fn text_of(l: Option<LeafView>) -> Option<Seq<char>> {
    match l {
        Some(v) => v.text,
        None => None,
    }
}

/// What a service's table holds of the configuration: the strings under
/// `bind`, `type` and `motd`, the boolean under `random_balance` and the
/// array under `v4_servers`, each `None` where the key is missing or holds
/// another kind of value.
pub open spec fn service_text_of(t: Seq<(Seq<char>, LeafView)>) -> ServiceTextView {
    ServiceTextView {
        bind: text_of(lookup(t, "bind"@)),
        service_type: text_of(lookup(t, "type"@)),
        motd: text_of(lookup(t, "motd"@)),
        random_balance: match lookup(t, "random_balance"@) {
            Some(v) => v.flag,
            None => None,
        },
        v4_servers: match lookup(t, "v4_servers"@) {
            Some(v) => v.texts,
            None => None,
        },
    }
}

/// What the document holds of the configuration: the `idola` entry, if
/// there is one, with the string under its `data_path` if it is a table
/// that has one; the `service` array, if there is one, each element read
/// as a service's table, `None` where it is not a table.
pub open spec fn config_text_of(d: Seq<(Seq<char>, TopView)>) -> ConfigTextView {
    ConfigTextView {
        idola: match lookup(d, "idola"@) {
            Some(v) => Some(
                match v.table {
                    Some(t) => text_of(lookup(t, "data_path"@)),
                    None => None,
                },
            ),
            None => None,
        },
        services: match lookup(d, "service"@) {
            Some(TopView { tables: Some(a), .. }) => Some(
                a.map_values(
                    |e: Option<Seq<(Seq<char>, LeafView)>>|
                        match e {
                            Some(t) => Some(service_text_of(t)),
                            None => None,
                        },
                ),
            ),
            _ => None,
        },
    }
}

/// What reading the configuration text gives: the values of the
/// configuration read from the parsed document, or `None` where the text
/// is not a TOML document.
pub open spec fn config_text_result(text: Seq<char>) -> Option<ConfigTextView> {
    match toml_doc(text) {
        Some(d) => Some(config_text_of(d)),
        None => None,
    }
}

/// The index of the first entry of `t` with key `key`, if there is one.
fn find_leaf(t: &Vec<(String, TomlLeaf)>, key: &str) -> (r: Option<usize>)
    ensures
        r matches Some(i) ==> i < t@.len(),
        (match r {
            Some(i) => Some(i as int),
            None => None,
        }) == key_index(entries_view(t@), key@, 0),
{
    let k = String::from_str(key);
    let ghost v = entries_view(t@);
    let mut i: usize = 0;
    while i < t.len()
        invariant
            i <= t@.len(),
            v == entries_view(t@),
            k@ == key@,
            key_index(v, key@, 0) == key_index(v, key@, i as int),
        decreases t@.len() - i,
    {
        if t[i].0 == k {
            return Some(i);
        }
        i = i + 1;
    }
    None
}

/// The index of the first top-level entry of `d` with key `key`, if there
/// is one.
fn find_top(d: &Vec<(String, TomlTop)>, key: &str) -> (r: Option<usize>)
    ensures
        r matches Some(i) ==> i < d@.len(),
        (match r {
            Some(i) => Some(i as int),
            None => None,
        }) == key_index(doc_view(d@), key@, 0),
{
    let k = String::from_str(key);
    let ghost v = doc_view(d@);
    let mut i: usize = 0;
    while i < d.len()
        invariant
            i <= d@.len(),
            v == doc_view(d@),
            k@ == key@,
            key_index(v, key@, 0) == key_index(v, key@, i as int),
        decreases d@.len() - i,
    {
        if d[i].0 == k {
            return Some(i);
        }
        i = i + 1;
    }
    None
}

/// A copy of a list of optional strings.
fn copy_texts(a: &Vec<Option<String>>) -> (r: Vec<Option<String>>)
    ensures
        r@.map_values(|e: Option<String>| opt_text(e)) == a@.map_values(|e: Option<String>| opt_text(e)),
{
    let mut r: Vec<Option<String>> = Vec::new();
    let mut i: usize = 0;
    while i < a.len()
        invariant
            i <= a@.len(),
            r@.len() == i,
            forall|j: int| 0 <= j < i ==> opt_text(#[trigger] r@[j]) == opt_text(a@[j]),
        decreases a@.len() - i,
    {
        let e = match &a[i] {
            Some(s) => Some(s.clone()),
            None => None,
        };
        r.push(e);
        i = i + 1;
    }
    assert(r@.map_values(|e: Option<String>| opt_text(e)) =~= a@.map_values(|e: Option<String>| opt_text(e)));
    r
}

/// The string under `key` in `t`, if it is one.
fn text_at(t: &Vec<(String, TomlLeaf)>, key: &str) -> (r: Option<String>)
    ensures
        opt_text(r) == text_of(lookup(entries_view(t@), key@)),
{
    match find_leaf(t, key) {
        Some(i) => match &t[i].1.0 {
            Some(s) => Some(s.clone()),
            None => None,
        },
        None => None,
    }
}

impl ServiceText {
    /// Reads a service's table: see [`service_text_of`].
    pub fn from_entries(t: &Vec<(String, TomlLeaf)>) -> (r: ServiceText)
        ensures
            service_text_view(r) == service_text_of(entries_view(t@)),
    {
        let random_balance = match find_leaf(t, "random_balance") {
            Some(i) => t[i].1.1,
            None => None,
        };
        let v4_servers = match find_leaf(t, "v4_servers") {
            Some(i) => match &t[i].1.2 {
                Some(a) => Some(copy_texts(a)),
                None => None,
            },
            None => None,
        };
        ServiceText {
            bind: text_at(t, "bind"),
            service_type: text_at(t, "type"),
            motd: text_at(t, "motd"),
            random_balance,
            v4_servers,
        }
    }
}

impl ConfigText {
    /// Reads the parsed document: see [`config_text_of`].
    pub fn from_document(d: &Vec<(String, TomlTop)>) -> (r: ConfigText)
        ensures
            config_text_view(r) == config_text_of(doc_view(d@)),
    {
        let idola = match find_top(d, "idola") {
            Some(i) => match &d[i].1.0 {
                Some(t) => Some(text_at(t, "data_path")),
                None => Some(None),
            },
            None => None,
        };
        let services = match find_top(d, "service") {
            Some(i) => match &d[i].1.1 {
                Some(a) => {
                    let mut out: Vec<Option<ServiceText>> = Vec::new();
                    let mut j: usize = 0;
                    while j < a.len()
                        invariant
                            j <= a@.len(),
                            out@.len() == j,
                            forall|k: int|
                                0 <= k < j ==> (match #[trigger] out@[k] {
                                    Some(s) => Some(service_text_view(s)),
                                    None => None,
                                }) == (match a@[k] {
                                    Some(t) => Some(service_text_of(entries_view(t@))),
                                    None => None,
                                }),
                        decreases a@.len() - j,
                    {
                        let e = match &a[j] {
                            Some(t) => Some(ServiceText::from_entries(t)),
                            None => None,
                        };
                        out.push(e);
                        j = j + 1;
                    }
                    Some(out)
                },
                None => None,
            },
            None => None,
        };
        let r = ConfigText { idola, services };
        proof {
            let ghost rs = r.services;
            if let Some(v) = rs {
                let i = key_index(doc_view(d@), "service"@, 0)->0;
                if let Some(a) = d@[i].1.1 {
                    assert(v@.map_values(
                        |e: Option<ServiceText>|
                            match e {
                                Some(t) => Some(service_text_view(t)),
                                None => None,
                            },
                    ) =~= top_array_view(a@).map_values(
                        |e: Option<Seq<(Seq<char>, LeafView)>>|
                            match e {
                                Some(t) => Some(service_text_of(t)),
                                None => None,
                            },
                    ));
                }
            }
        }
        r
    }

    /// Reads the configuration file's text: parses it as TOML and reads the
    /// values of the configuration from the document; where the text is
    /// not a TOML document, the error is the parser's, as its debug text.
    pub fn from_toml_string(text: &str) -> (r: Result<ConfigText, String>)
        ensures
            match r {
                Ok(c) => config_text_result(text@) == Some(config_text_view(c)),
                Err(_) => config_text_result(text@) is None,
            },
    {
        match parse_toml(text) {
            Ok(d) => Ok(ConfigText::from_document(&d)),
            Err(e) => Err(e),
        }
    }
}

} // verus!
