use vstd::prelude::*;
use crate::text::{chars_of, decimal, push_decimal};

verus! {

/// A research source the lab keeps: a URL, or a file stored under `data/`.
#[derive(Debug, PartialEq)]
pub struct Source {
    pub id: String,
    /// "url" or "file".
    pub kind: String,
    pub title: Option<String>,
    pub url: Option<String>,
    /// Relative path under `data/`.
    pub path: Option<String>,
    pub added_at: u64,
}

/// The mathematical model of a source.
pub struct SourceModel {
    pub id: Seq<char>,
    pub kind: Seq<char>,
    pub title: Option<Seq<char>>,
    pub url: Option<Seq<char>>,
    pub path: Option<Seq<char>>,
    pub added_at: nat,
}

/// The text of an optional string.
pub open spec fn opt_text(o: Option<String>) -> Option<Seq<char>> {
    match o {
        Some(s) => Some(s@),
        None => None,
    }
}

fn copy_opt(o: &Option<String>) -> (r: Option<String>)
    ensures
        opt_text(r) == opt_text(*o),
{
    match o {
        Some(s) => Some(s.clone()),
        None => None,
    }
}

impl Source {
    /// The source this value stands for.
    pub open spec fn model(self) -> SourceModel {
        SourceModel {
            id: self.id@,
            kind: self.kind@,
            title: opt_text(self.title),
            url: opt_text(self.url),
            path: opt_text(self.path),
            added_at: self.added_at as nat,
        }
    }

    /// A copy of this source.
    pub fn duplicate(&self) -> (r: Source)
        ensures
            r.model() == self.model(),
    {
        Source {
            id: self.id.clone(),
            kind: self.kind.clone(),
            title: copy_opt(&self.title),
            url: copy_opt(&self.url),
            path: copy_opt(&self.path),
            added_at: self.added_at,
        }
    }
}

/// The models of a list of sources.
pub open spec fn sources_model(list: Seq<Source>) -> Seq<SourceModel> {
    list.map_values(|s: Source| s.model())
}

/// The identifier of a source added at `ts`: the kind, an underscore, the time.
pub open spec fn source_id(prefix: Seq<char>, ts: nat) -> Seq<char> {
    prefix + "_"@ + decimal(ts)
}

/// The record of a file kept under `data/`, added at `ts`.
pub open spec fn file_source(rel_path: Seq<char>, title: Option<Seq<char>>, ts: nat) -> SourceModel {
    SourceModel {
        id: source_id("file"@, ts),
        kind: "file"@,
        title,
        url: None,
        path: Some(rel_path),
        added_at: ts,
    }
}

/// The record of a URL, added at `ts`.
pub open spec fn url_source(url: Seq<char>, title: Option<Seq<char>>, ts: nat) -> SourceModel {
    SourceModel {
        id: source_id("url"@, ts),
        kind: "url"@,
        title,
        url: Some(url),
        path: None,
        added_at: ts,
    }
}

/// The list without the sources whose identifier is `id`.
pub open spec fn without_id(list: Seq<SourceModel>, id: Seq<char>) -> Seq<SourceModel> {
    list.filter(|s: SourceModel| s.id != id)
}

/// Removing by identifier keeps exactly the sources with another identifier, in
/// order: none with `id` remains, every other one stays, and the list shrinks
/// exactly when some source had `id`.
pub proof fn lemma_without_id(list: Seq<SourceModel>, id: Seq<char>)
    ensures
        without_id(list, id).len() <= list.len(),
        forall|i: int| 0 <= i < without_id(list, id).len() ==> (#[trigger] without_id(list, id)[i]).id != id,
        forall|i: int| 0 <= i < list.len() && list[i].id != id ==> without_id(list, id).contains(#[trigger] list[i]),
        (without_id(list, id).len() < list.len()) <==> (exists|i: int| 0 <= i < list.len() && #[trigger] list[i].id == id),
    decreases list.len(),
{
    reveal_with_fuel(Seq::filter, 1);
    if list.len() > 0 {
        let prev = list.drop_last();
        lemma_without_id(prev, id);
        let w = without_id(list, id);
        let wp = without_id(prev, id);
        assert forall|i: int| 0 <= i < list.len() && list[i].id != id implies w.contains(#[trigger] list[i]) by {
            if i < list.len() - 1 {
                assert(prev[i] == list[i]);
                let j = choose|j: int| 0 <= j < wp.len() && wp[j] == prev[i];
                assert(w[j] == list[i]);
            } else {
                assert(w[w.len() - 1] == list[i]);
            }
        }
        if exists|i: int| 0 <= i < list.len() && #[trigger] list[i].id == id {
            let i = choose|i: int| 0 <= i < list.len() && #[trigger] list[i].id == id;
            if i < list.len() - 1 {
                assert(prev[i].id == id);
            }
        }
        if exists|i: int| 0 <= i < prev.len() && #[trigger] prev[i].id == id {
            let i = choose|i: int| 0 <= i < prev.len() && #[trigger] prev[i].id == id;
            assert(list[i].id == id);
        }
    }
}

/// Removing by identifier keeps a list whose sources all have other identifiers.
pub proof fn lemma_without_id_keeps_all(list: Seq<SourceModel>, id: Seq<char>)
    requires
        forall|i: int| 0 <= i < list.len() ==> (#[trigger] list[i]).id != id,
    ensures
        without_id(list, id) == list,
    decreases list.len(),
{
    reveal_with_fuel(Seq::filter, 1);
    if list.len() > 0 {
        lemma_without_id_keeps_all(list.drop_last(), id);
        assert(list.drop_last().push(list.last()) =~= list);
    }
}

/// Removing a source by the identifier it was added under undoes the addition,
/// where no source before it had that identifier.
pub proof fn lemma_remove_undoes_add(list: Seq<SourceModel>, added: SourceModel)
    requires
        forall|i: int| 0 <= i < list.len() ==> (#[trigger] list[i]).id != added.id,
    ensures
        without_id(list.push(added), added.id) == list,
{
    reveal_with_fuel(Seq::filter, 1);
    assert(list.push(added).drop_last() =~= list);
    lemma_without_id_keeps_all(list, added.id);
}

/// The file that holds the list of sources.
pub fn sources_path() -> (r: String)
    ensures
        r@ == "data/sources/sources.json"@,
{
    String::from_str("data/sources/sources.json")
}

/// The directory that holds uploaded source files.
pub fn files_dir() -> (r: String)
    ensures
        r@ == "data/sources/files"@,
{
    String::from_str("data/sources/files")
}

fn id_at(prefix: &str, ts: u64) -> (r: String)
    ensures
        r@ == source_id(prefix@, ts as nat),
{
    let mut r = String::from_str(prefix);
    r.append("_");
    push_decimal(&mut r, ts as u128);
    r
}

/// Records a file already kept under `data/` (such as "data/sources/files/x"),
/// added at `ts`, at the end of the list; returns the record.
pub fn add_source_file_path(list: &mut Vec<Source>, rel_path_under_data: &str, title: Option<String>, ts: u64) -> (r: Source)
    ensures
        r.model() == file_source(rel_path_under_data@, opt_text(title), ts as nat),
        sources_model(final(list)@) == sources_model(old(list)@).push(r.model()),
{
    let src = Source {
        id: id_at("file", ts),
        kind: String::from_str("file"),
        title,
        url: None,
        path: Some(String::from_str(rel_path_under_data)),
        added_at: ts,
    };
    let r = src.duplicate();
    list.push(src);
    assert(sources_model(list@) =~= sources_model(old(list)@).push(r.model()));
    r
}

/// Records a URL, added at `ts`, at the end of the list; returns the record.
pub fn add_source_url(list: &mut Vec<Source>, url: &str, title: Option<String>, ts: u64) -> (r: Source)
    ensures
        r.model() == url_source(url@, opt_text(title), ts as nat),
        sources_model(final(list)@) == sources_model(old(list)@).push(r.model()),
{
    let src = Source {
        id: id_at("url", ts),
        kind: String::from_str("url"),
        title,
        url: Some(String::from_str(url)),
        path: None,
        added_at: ts,
    };
    let r = src.duplicate();
    list.push(src);
    assert(sources_model(list@) =~= sources_model(old(list)@).push(r.model()));
    r
}

/// Removes every source whose identifier is `id`, keeping the others in order;
/// tells whether any was removed.
pub fn remove_source(list: &mut Vec<Source>, id: &str) -> (r: bool)
    ensures
        sources_model(final(list)@) == without_id(sources_model(old(list)@), id@),
        r == (final(list)@.len() != old(list)@.len()),
        r == exists|i: int| 0 <= i < old(list)@.len() && (#[trigger] old(list)@[i]).id@ == id@,
{
    let key = String::from_str(id);
    let ghost before = sources_model(list@);
    let n = list.len();
    let mut kept: Vec<Source> = Vec::new();
    let mut i: usize = 0;
    while i < n
        invariant
            n == list.len(),
            key@ == id@,
            before == sources_model(list@),
            i <= n,
            sources_model(kept@) == without_id(before.take(i as int), id@),
        decreases n - i,
    {
        let ghost prev = kept@;
        proof {
            assert(before.take(i + 1).drop_last() =~= before.take(i as int));
            assert(before.take(i + 1).last() == list@[i as int].model());
            assert(without_id(before.take(i + 1), id@) == if list@[i as int].model().id != id@ {
                without_id(before.take(i as int), id@).push(list@[i as int].model())
            } else {
                without_id(before.take(i as int), id@)
            }) by {
                reveal_with_fuel(Seq::filter, 1);
            }
        }
        if !(list[i].id == key) {
            kept.push(list[i].duplicate());
            assert(sources_model(kept@) =~= sources_model(prev).push(list@[i as int].model()));
        }
        i = i + 1;
    }
    assert(before.take(n as int) =~= before);
    let removed = kept.len() != n;
    *list = kept;
    proof {
        assert(sources_model(list@).len() == list@.len());
        lemma_without_id(before, id@);
        if exists|i: int| 0 <= i < old(list)@.len() && (#[trigger] old(list)@[i]).id@ == id@ {
            let i = choose|i: int| 0 <= i < old(list)@.len() && (#[trigger] old(list)@[i]).id@ == id@;
            assert(before[i].id == id@);
        }
        if exists|i: int| 0 <= i < before.len() && #[trigger] before[i].id == id@ {
            let i = choose|i: int| 0 <= i < before.len() && #[trigger] before[i].id == id@;
            assert(old(list)@[i].id@ == id@);
        }
    }
    removed
}

/// Whether `c` may stay in a stored file name: an ASCII letter or digit, '.', '-' or '_'.
pub open spec fn is_safe_file_char(c: char) -> bool {
    let u = c as u32;
    ||| 48 <= u <= 57
    ||| 65 <= u <= 90
    ||| 97 <= u <= 122
    ||| c == '.'
    ||| c == '-'
    ||| c == '_'
}

/// A character of a stored file name: `c` where it is safe, '_' in its place otherwise.
pub open spec fn safe_file_char(c: char) -> char {
    if is_safe_file_char(c) {
        c
    } else {
        '_'
    }
}

/// The name under which an uploaded file is stored: each unsafe character replaced by '_'.
pub open spec fn sanitized_name(name: Seq<char>) -> Seq<char> {
    name.map_values(|c: char| safe_file_char(c))
}

/// Makes a file name safe to store: each character that is not an ASCII letter or
/// digit, '.', '-' or '_' becomes '_'.
pub fn sanitize_file_name(name: &str) -> (r: String)
    ensures
        r@ == sanitized_name(name@),
{
    let cs = chars_of(name);
    let mut r = String::new();
    let mut i: usize = 0;
    while i < cs.len()
        invariant
            cs@ == name@,
            i <= cs.len(),
            r@ == sanitized_name(name@).take(i as int),
        decreases cs.len() - i,
    {
        let c = cs[i];
        let u = c as u32;
        let safe = (48 <= u && u <= 57) || (65 <= u && u <= 90) || (97 <= u && u <= 122) || c == '.'
            || c == '-' || c == '_';
        if safe {
            r.append(name.substring_char(i, i + 1));
        } else {
            proof {
                reveal_strlit("_");
            }
            r.append("_");
        }
        assert(r@ =~= sanitized_name(name@).take(i + 1));
        i = i + 1;
    }
    assert(sanitized_name(name@).take(cs.len() as int) =~= sanitized_name(name@));
    r
}

/// Sanitising keeps the length, leaves only safe characters, and changes nothing
/// the second time.
pub proof fn lemma_sanitized_name(name: Seq<char>)
    ensures
        sanitized_name(name).len() == name.len(),
        forall|i: int| 0 <= i < name.len() ==> is_safe_file_char(#[trigger] sanitized_name(name)[i]),
        sanitized_name(sanitized_name(name)) == sanitized_name(name),
{
    assert(sanitized_name(sanitized_name(name)) =~= sanitized_name(name));
}

/// The path, relative to the working directory, at which an uploaded file is stored.
pub open spec fn uploaded_file_path_text(ts: nat, safe_name: Seq<char>) -> Seq<char> {
    "data/sources/files"@ + "/"@ + decimal(ts) + "_"@ + safe_name
}

/// The path at which a file uploaded at `ts` under the safe name `safe_name` is stored.
pub fn uploaded_file_path(ts: u64, safe_name: &str) -> (r: String)
    ensures
        r@ == uploaded_file_path_text(ts as nat, safe_name@),
{
    let mut r = files_dir();
    r.append("/");
    push_decimal(&mut r, ts as u128);
    r.append("_");
    r.append(safe_name);
    r
}

} // verus!
