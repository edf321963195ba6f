use vstd::prelude::*;

use crate::style::{paint, painted, ColorSupport, Stream, Style};
use crate::util::opt_view;

verus! {

#[verifier::external_type_specification]
#[verifier::external_body]
#[verifier::reject_recursive_types(K)]
#[verifier::reject_recursive_types(V)]
#[verifier::reject_recursive_types(S)]
pub struct ExIndexMap<K, V, S>(indexmap::IndexMap<K, V, S>);

#[verifier::external_type_specification]
#[verifier::external_body]
pub struct ExAHashRandomState(ahash::RandomState);

/// indexmap's `Clone` for `IndexMap`, which copies the entries and the hasher.
/// Nothing is claimed here of the copy.
pub assume_specification<K, V, S>[ <indexmap::IndexMap<K, V, S> as std::clone::Clone>::clone ](
    map: &indexmap::IndexMap<K, V, S>,
) -> indexmap::IndexMap<K, V, S>
    where
        K: std::clone::Clone,
        V: std::clone::Clone,
        S: std::clone::Clone,
;

/// An insertion-ordered map hashed with ahash.
pub type AIndexMap<K, V> = indexmap::IndexMap<K, V, ahash::RandomState>;

/// The entries of a script map, in insertion order: each script's name and command.
pub uninterp spec fn script_entries(m: AIndexMap<String, String>) -> Seq<(Seq<char>, Seq<char>)>;

/// The command of the first entry named `key`. (An index map holds each key once.)
pub open spec fn lookup(entries: Seq<(Seq<char>, Seq<char>)>, key: Seq<char>) -> Option<Seq<char>>
    decreases entries.len(),
{
    if entries.len() == 0 {
        None
    } else if entries[0].0 == key {
        Some(entries[0].1)
    } else {
        lookup(entries.drop_first(), key)
    }
}

/// indexmap's `IndexMap::len`: the number of entries.
#[verifier::external_body]
pub(crate) fn scripts_len(m: &AIndexMap<String, String>) -> (n: usize)
    ensures
        n == script_entries(*m).len(),
{
    m.len()
}

/// A borrowed entry of a script map: its name and its command.
pub type EntryRef<'a> = (&'a String, &'a String);

/// indexmap's `IndexMap::get_index`: the entry at position `i` in insertion
/// order, or `None` past the end.
#[verifier::external_body]
pub(crate) fn scripts_get_index<'a>(m: &'a AIndexMap<String, String>, i: usize) -> (r: Option<EntryRef<'a>>)
    ensures
        r is Some <==> i < script_entries(*m).len(),
        r matches Some(kv) ==> kv.0@ == script_entries(*m)[i as int].0 && kv.1@ == script_entries(
            *m,
        )[i as int].1,
{
    m.get_index(i)
}

/// indexmap's `IndexMap::get`: the value stored under `key`, if any.
#[verifier::external_body]
pub(crate) fn scripts_get<'a>(m: &'a AIndexMap<String, String>, key: &str) -> (r: Option<&'a String>)
    ensures
        match r {
            Some(v) => lookup(script_entries(*m), key@) == Some(v@),
            None => lookup(script_entries(*m), key@) is None,
        },
{
    m.get(key)
}

/// The metadata of a package manifest that the runner reads.
#[derive(Clone, Debug)]
pub struct PackageJson {
    pub name: Option<String>,
    pub version: Option<String>,
    pub scripts: AIndexMap<String, String>,
}

/// A package manifest as plain values.
pub struct PackageView {
    pub name: Option<Seq<char>>,
    pub version: Option<Seq<char>>,
    pub scripts: Seq<(Seq<char>, Seq<char>)>,
}

impl View for PackageJson {
    type V = PackageView;

    open spec fn view(&self) -> PackageView {
        PackageView {
            name: opt_view(self.name),
            version: opt_view(self.version),
            scripts: script_entries(self.scripts),
        }
    }
}

/// The heading printed above a package's output: the name, then `@version`
/// when there is one, then a space and the script when one is given, then a
/// newline; nothing at all for a package without a name.
pub open spec fn prefix_text(
    p: PackageView,
    script: Option<Seq<char>>,
    on: bool,
    script_on: bool,
) -> Seq<char> {
    match p.name {
        None => Seq::empty(),
        Some(name) => painted(Style::Magenta, on, name) + match p.version {
            Some(v) => painted(Style::Dimmed, on, painted(Style::Magenta, on, seq!['@'] + v)),
            None => Seq::empty(),
        } + match script {
            Some(s) => seq![' '] + painted(Style::Cyan, script_on, s),
            None => Seq::empty(),
        } + seq!['\n'],
    }
}

impl PackageJson {
    /// The command of the script called `name`, if the package has one.
    pub fn script(&self, name: &str) -> (r: Option<&String>)
        ensures
            match r {
                Some(v) => lookup(self@.scripts, name@) == Some(v@),
                None => lookup(self@.scripts, name@) is None,
            },
    {
        scripts_get(&self.scripts, name)
    }

    /// The heading for this package, written for `stream`; the script's name
    /// is always styled as for standard error.
    pub fn make_prefix(&self, script: Option<&str>, stream: Stream, colors: ColorSupport) -> (r: String)
        ensures
            r@ == prefix_text(
                self@,
                match script {
                    Some(s) => Some(s@),
                    None => None,
                },
                colors.enabled(stream),
                colors.stderr,
            ),
    {
        proof {
            reveal_strlit("@");
            reveal_strlit(" ");
            reveal_strlit("\n");
        }
        let on = colors.on(stream);
        let mut prefix = String::new();
        match &self.name {
            None => {},
            Some(name) => {
                let painted_name = paint(name.as_str(), Style::Magenta, on);
                prefix.append(painted_name.as_str());
                let ghost after_name = prefix@;
                match &self.version {
                    None => {},
                    Some(version) => {
                        let mut version_str = String::from_str("@");
                        version_str.append(version.as_str());
                        let magenta = paint(version_str.as_str(), Style::Magenta, on);
                        let dimmed = paint(magenta.as_str(), Style::Dimmed, on);
                        prefix.append(dimmed.as_str());
                    },
                }
                let ghost after_version = prefix@;
                match script {
                    None => {},
                    Some(s) => {
                        prefix.append(" ");
                        let cyan = paint(s, Style::Cyan, colors.stderr);
                        prefix.append(cyan.as_str());
                    },
                }
                prefix.append("\n");
            },
        }
        assert(prefix@ =~= prefix_text(
            self@,
            match script {
                Some(s) => Some(s@),
                None => None,
            },
            on,
            colors.stderr,
        ));
        prefix
    }
}

} // verus!
