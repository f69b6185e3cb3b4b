//! The table of animation clips of a skin: each clip name is bound to a list of
//! cells `(col, row)` of the sprite sheet, played in order.
//!
//! The table is written in JSON as `{ "clip": [[col, row], ...] }`; the sprite
//! editor toggles cells in and out of clips.

use vstd::prelude::*;
use crate::text::str_eq;

verus! {

/// A clip table seen as a sequence of (name, cells) entries.
pub open spec fn entries_view(v: Seq<(String, Vec<(i32, i32)>)>) -> Seq<(Seq<char>, Seq<(i32, i32)>)> {
    v.map_values(|e: (String, Vec<(i32, i32)>)| (e.0@, e.1@))
}

/// No name occurs twice among the entries.
pub open spec fn keys_distinct(s: Seq<(Seq<char>, Seq<(i32, i32)>)>) -> bool {
    forall|i: int, j: int| 0 <= i < s.len() && 0 <= j < s.len() && i != j ==> s[i].0 != s[j].0
}

/// Some entry is named `k`.
pub open spec fn has_key(s: Seq<(Seq<char>, Seq<(i32, i32)>)>, k: Seq<char>) -> bool {
    exists|i: int| 0 <= i < s.len() && s[i].0 == k
}

/// The map from name to cells that a sequence of entries with distinct names holds.
pub open spec fn table_map(s: Seq<(Seq<char>, Seq<(i32, i32)>)>) -> Map<Seq<char>, Seq<(i32, i32)>> {
    Map::new(
        |k: Seq<char>| has_key(s, k),
        |k: Seq<char>| s[choose|i: int| 0 <= i < s.len() && s[i].0 == k].1,
    )
}

/// The map that results from binding each pair's name to its cells in turn, a later
/// pair replacing an earlier one of the same name.
pub open spec fn pairs_map(s: Seq<(Seq<char>, Seq<(i32, i32)>)>) -> Map<Seq<char>, Seq<(i32, i32)>>
    decreases s.len(),
{
    if s.len() == 0 {
        Map::empty()
    } else {
        pairs_map(s.drop_last()).insert(s.last().0, s.last().1)
    }
}

/// The table that `text` holds, else the one `fallback` holds, else the empty one.
pub open spec fn read_or_default_map(text: Option<Seq<char>>, fallback: Seq<char>) -> Map<Seq<char>, Seq<(i32, i32)>> {
    match text {
        Some(s) if clip_json(s) is Some => pairs_map(clip_json(s)->0),
        _ => match clip_json(fallback) {
            Some(p) => pairs_map(p),
            None => Map::empty(),
        },
    }
}

/// The cells of clip `k`, or none where the table has no such clip.
pub open spec fn cells_or_empty(m: Map<Seq<char>, Seq<(i32, i32)>>, k: Seq<char>) -> Seq<(i32, i32)> {
    if m.contains_key(k) {
        m[k]
    } else {
        Seq::empty()
    }
}

/// A cell toggled in a clip's list: its first occurrence leaves where it is bound,
/// and it is appended where it is not.
pub open spec fn toggled(s: Seq<(i32, i32)>, c: (i32, i32)) -> Seq<(i32, i32)> {
    if s.contains(c) {
        s.remove_value(c)
    } else {
        s.push(c)
    }
}

/// A clip's list with every occurrence of cell `c` taken out.
pub open spec fn without_cell(s: Seq<(i32, i32)>, c: (i32, i32)) -> Seq<(i32, i32)> {
    s.filter(other_than(c))
}

/// The test that keeps every cell but `c`.
pub open spec fn other_than(c: (i32, i32)) -> spec_fn((i32, i32)) -> bool {
    |p: (i32, i32)| p != c
}

/// The result of parsing `json` as an object that maps each clip name to an array
/// of `[col, row]` pairs of 32-bit integers: `None` where the text is not such an
/// object, else its members in the order the parser hands them out.
pub uninterp spec fn clip_json(json: Seq<char>) -> Option<Seq<(Seq<char>, Seq<(i32, i32)>)>>;

#[verifier::external_type_specification]
#[verifier::external_body]
pub struct ExJsonError(serde_json::Error);

/// Parses a clip table with `serde_json::from_str` into a `BTreeMap` of names to
/// arrays of `[i32; 2]`, and hands the members out as (name, cells) pairs.
/// Trusted: the result is `Ok` exactly when `clip_json` of the text is `Some`, and
/// then it holds the members that `clip_json` names; what `clip_json` is on a given
/// text is left to serde_json.
#[verifier::external_body]
fn parse_clip_json(json: &str) -> (r: Result<Vec<(String, Vec<(i32, i32)>)>, serde_json::Error>)
    ensures
        r is Ok <==> clip_json(json@) is Some,
        r matches Ok(v) ==> entries_view(v@) == clip_json(json@)->0,
{
    let raw: std::collections::BTreeMap<String, Vec<[i32; 2]>> = serde_json::from_str(json)?;
    Ok(raw.into_iter().map(|(k, v)| (k, v.into_iter().map(|a| (a[0], a[1])).collect())).collect())
}

/// The pretty-printed JSON text of a clip map, `{ "clip": [[col, row], ...] }`
/// with the names in order, as serde_json writes it; `None` where serde_json
/// refuses to write it.
pub uninterp spec fn clip_json_text(m: Map<Seq<char>, Seq<(i32, i32)>>) -> Option<Seq<char>>;

/// Writes the clip map that `pairs` bind (a later pair replacing an earlier one of
/// the same name) with `serde_json::to_string_pretty`, as a `BTreeMap` of names to
/// arrays of `[i32; 2]`. Trusted: the result is `Ok` exactly when
/// `clip_json_text` of that map is `Some`, and then it is that text; the text
/// itself is left to serde_json. Nothing is said of reading the text back.
#[verifier::external_body]
fn write_clip_json(pairs: &Vec<(String, Vec<(i32, i32)>)>) -> (r: Result<String, serde_json::Error>)
    ensures
        r is Ok <==> clip_json_text(pairs_map(entries_view(pairs@))) is Some,
        r matches Ok(s) ==> s@ == clip_json_text(pairs_map(entries_view(pairs@)))->0,
{
    let m: std::collections::BTreeMap<&String, Vec<[i32; 2]>> =
        pairs.iter().map(|(k, v)| (k, v.iter().map(|p| [p.0, p.1]).collect())).collect();
    serde_json::to_string_pretty(&m)
}

/// The message serde_json gives for an error, through its `Display`. Nothing is
/// stated of the text.
#[verifier::external_body]
fn json_error_text(e: &serde_json::Error) -> String {
    format!("{}", e)
}

/// Why a clip table could not be read or written.
#[derive(Debug)]
pub enum MappingError {
    /// The text is not a JSON object of clip name to `[[col, row], ...]`, or the
    /// table could not be written as one.
    Json(serde_json::Error),
}

impl MappingError {
    /// The error's message, as serde_json words it.
    pub fn message(&self) -> String {
        match self {
            MappingError::Json(e) => json_error_text(e),
        }
    }
}

/// Whether two cells are the same.
pub fn same_cell(a: (i32, i32), b: (i32, i32)) -> (r: bool)
    ensures
        r == (a == b),
{
    a.0 == b.0 && a.1 == b.1
}

/// Whether `v` holds cell `c`.
pub fn contains_cell(v: &Vec<(i32, i32)>, c: (i32, i32)) -> (r: bool)
    ensures
        r == v@.contains(c),
{
    let mut i: usize = 0;
    while i < v.len()
        invariant
            i <= v.len(),
            forall|j: int| 0 <= j < i ==> v@[j] != c,
        decreases v.len() - i,
    {
        if same_cell(v[i], c) {
            return true;
        }
        i = i + 1;
    }
    false
}

/// A copy of a list of cells.
pub fn copy_cells(v: &Vec<(i32, i32)>) -> (r: Vec<(i32, i32)>)
    ensures
        r@ == v@,
{
    let mut r: Vec<(i32, i32)> = Vec::new();
    let mut i: usize = 0;
    while i < v.len()
        invariant
            i <= v.len(),
            r@ == v@.subrange(0, i as int),
        decreases v.len() - i,
    {
        r.push(v[i]);
        i = i + 1;
    }
    assert(r@ =~= v@);
    r
}

proof fn lemma_entries_view_push(v: Seq<(String, Vec<(i32, i32)>)>, e: (String, Vec<(i32, i32)>))
    ensures
        entries_view(v.push(e)) == entries_view(v).push((e.0@, e.1@)),
{
    assert(entries_view(v.push(e)) =~= entries_view(v).push((e.0@, e.1@)));
}

proof fn lemma_table_index(s: Seq<(Seq<char>, Seq<(i32, i32)>)>, i: int)
    requires
        keys_distinct(s),
        0 <= i < s.len(),
    ensures
        table_map(s).contains_key(s[i].0),
        table_map(s)[s[i].0] == s[i].1,
{
    assert(has_key(s, s[i].0));
    let j = choose|j: int| 0 <= j < s.len() && s[j].0 == s[i].0;
    assert(j == i);
}

proof fn lemma_table_absent(s: Seq<(Seq<char>, Seq<(i32, i32)>)>, k: Seq<char>)
    requires
        forall|i: int| 0 <= i < s.len() ==> s[i].0 != k,
    ensures
        !table_map(s).contains_key(k),
{
}

/// Replacing the entry at `i` by one of the same name rebinds that name.
proof fn lemma_table_update(
    s: Seq<(Seq<char>, Seq<(i32, i32)>)>,
    i: int,
    v: Seq<(i32, i32)>,
)
    requires
        keys_distinct(s),
        0 <= i < s.len(),
    ensures
        keys_distinct(s.update(i, (s[i].0, v))),
        table_map(s.update(i, (s[i].0, v))) == table_map(s).insert(s[i].0, v),
{
    let k = s[i].0;
    let t = s.update(i, (k, v));
    assert(keys_distinct(t));
    assert forall|k2: Seq<char>| #[trigger] table_map(t).contains_key(k2) <==> table_map(s).insert(k, v).contains_key(k2) by {
        if has_key(t, k2) {
            let j = choose|j: int| 0 <= j < t.len() && t[j].0 == k2;
            if j != i {
                assert(s[j].0 == k2);
            }
        }
        if has_key(s, k2) {
            let j = choose|j: int| 0 <= j < s.len() && s[j].0 == k2;
            assert(t[j].0 == k2);
        }
        if k2 == k {
            assert(t[i].0 == k2);
        }
    }
    assert forall|k2: Seq<char>| #[trigger] table_map(t).contains_key(k2) implies table_map(t)[k2] == table_map(s).insert(k, v)[k2] by {
        let j = choose|j: int| 0 <= j < t.len() && t[j].0 == k2;
        lemma_table_index(t, j);
        if j != i {
            lemma_table_index(s, j);
        }
    }
    assert(table_map(t) =~= table_map(s).insert(k, v));
}

/// Appending an entry under a new name binds that name.
proof fn lemma_table_push(s: Seq<(Seq<char>, Seq<(i32, i32)>)>, k: Seq<char>, v: Seq<(i32, i32)>)
    requires
        keys_distinct(s),
        forall|i: int| 0 <= i < s.len() ==> s[i].0 != k,
    ensures
        keys_distinct(s.push((k, v))),
        table_map(s.push((k, v))) == table_map(s).insert(k, v),
{
    let t = s.push((k, v));
    assert(keys_distinct(t));
    assert forall|k2: Seq<char>| #[trigger] table_map(t).contains_key(k2) <==> table_map(s).insert(k, v).contains_key(k2) by {
        if has_key(t, k2) {
            let j = choose|j: int| 0 <= j < t.len() && t[j].0 == k2;
            if j < s.len() {
                assert(s[j].0 == k2);
            }
        }
        if has_key(s, k2) {
            let j = choose|j: int| 0 <= j < s.len() && s[j].0 == k2;
            assert(t[j].0 == k2);
        }
        if k2 == k {
            assert(t[s.len() as int].0 == k2);
        }
    }
    assert forall|k2: Seq<char>| #[trigger] table_map(t).contains_key(k2) implies table_map(t)[k2] == table_map(s).insert(k, v)[k2] by {
        let j = choose|j: int| 0 <= j < t.len() && t[j].0 == k2;
        lemma_table_index(t, j);
        if j < s.len() {
            lemma_table_index(s, j);
        }
    }
    assert(table_map(t) =~= table_map(s).insert(k, v));
}

/// A clip table: clip name to the list of sheet cells the clip plays.
#[derive(Clone)]
pub struct ClipTable {
    entries: Vec<(String, Vec<(i32, i32)>)>,
}

impl View for ClipTable {
    type V = Map<Seq<char>, Seq<(i32, i32)>>;

    closed spec fn view(&self) -> Map<Seq<char>, Seq<(i32, i32)>> {
        table_map(entries_view(self.entries@))
    }
}

impl ClipTable {
    /// Well-formed: no clip name occurs twice.
    pub closed spec fn wf(&self) -> bool {
        keys_distinct(entries_view(self.entries@))
    }

    /// The empty table.
    pub fn new() -> (t: ClipTable)
        ensures
            t.wf(),
            t@ == Map::<Seq<char>, Seq<(i32, i32)>>::empty(),
    {
        let t = ClipTable { entries: Vec::new() };
        assert(t@ =~= Map::<Seq<char>, Seq<(i32, i32)>>::empty());
        t
    }

    fn find(&self, name: &str) -> (r: Option<usize>)
        ensures
            r matches Some(i) ==> i < self.entries@.len() && entries_view(self.entries@)[i as int].0 == name@,
            r is None ==> forall|i: int| 0 <= i < self.entries@.len() ==> entries_view(self.entries@)[i].0 != name@,
    {
        let mut i: usize = 0;
        while i < self.entries.len()
            invariant
                i <= self.entries@.len(),
                forall|j: int| 0 <= j < i ==> entries_view(self.entries@)[j].0 != name@,
            decreases self.entries@.len() - i,
        {
            if str_eq(self.entries[i].0.as_str(), name) {
                return Some(i);
            }
            i = i + 1;
        }
        None
    }

    /// The cells of clip `name`, where the table has it.
    pub fn get(&self, name: &str) -> (r: Option<&Vec<(i32, i32)>>)
        requires
            self.wf(),
        ensures
            r is Some <==> self@.contains_key(name@),
            r matches Some(v) ==> v@ == self@[name@],
    {
        match self.find(name) {
            Some(i) => {
                proof {
                    lemma_table_index(entries_view(self.entries@), i as int);
                }
                Some(&self.entries[i].1)
            },
            None => {
                proof {
                    lemma_table_absent(entries_view(self.entries@), name@);
                }
                None
            },
        }
    }

    /// Binds clip `name` to `cells`, replacing what it was bound to.
    pub fn insert(&mut self, name: String, cells: Vec<(i32, i32)>)
        requires
            old(self).wf(),
        ensures
            final(self).wf(),
            final(self)@ == old(self)@.insert(name@, cells@),
    {
        let ghost s = entries_view(self.entries@);
        match self.find(name.as_str()) {
            Some(i) => {
                let ghost nv = name@;
                let ghost cv = cells@;
                self.entries.set(i, (name, cells));
                proof {
                    lemma_table_update(s, i as int, cv);
                    assert(entries_view(self.entries@) =~= s.update(i as int, (s[i as int].0, cv)));
                }
            },
            None => {
                let ghost nv = name@;
                let ghost cv = cells@;
                self.entries.push((name, cells));
                proof {
                    lemma_table_push(s, nv, cv);
                    assert(entries_view(self.entries@) =~= s.push((nv, cv)));
                }
            },
        }
    }

    /// The table that binds each pair's name to its cells in turn, a later pair
    /// replacing an earlier one of the same name.
    pub fn from_pairs(pairs: &Vec<(String, Vec<(i32, i32)>)>) -> (t: ClipTable)
        ensures
            t.wf(),
            t@ == pairs_map(entries_view(pairs@)),
    {
        let mut t = ClipTable::new();
        let mut i: usize = 0;
        while i < pairs.len()
            invariant
                i <= pairs@.len(),
                t.wf(),
                t@ == pairs_map(entries_view(pairs@).subrange(0, i as int)),
            decreases pairs@.len() - i,
        {
            let name = pairs[i].0.clone();
            let cells = copy_cells(&pairs[i].1);
            t.insert(name, cells);
            proof {
                let s = entries_view(pairs@);
                assert(s.subrange(0, i + 1).drop_last() =~= s.subrange(0, i as int));
            }
            i = i + 1;
        }
        assert(entries_view(pairs@).subrange(0, pairs@.len() as int) =~= entries_view(pairs@));
        t
    }

    /// Reads a clip table from its JSON text `{ "clip": [[col, row], ...] }`.
    pub fn from_json(json: &str) -> (r: Result<ClipTable, MappingError>)
        ensures
            r is Ok <==> clip_json(json@) is Some,
            r matches Ok(t) ==> t.wf() && t@ == pairs_map(clip_json(json@)->0),
    {
        match parse_clip_json(json) {
            Ok(pairs) => Ok(ClipTable::from_pairs(&pairs)),
            Err(e) => Err(MappingError::Json(e)),
        }
    }

    /// The table that `text` holds; where there is no text, or it is not a clip
    /// table, the one that `fallback` holds (the default mapping); the empty table
    /// where neither is one.
    pub fn read_or_default(text: Option<&str>, fallback: &str) -> (t: ClipTable)
        ensures
            t.wf(),
            t@ == read_or_default_map(
                match text {
                    Some(s) => Some(s@),
                    None => None,
                },
                fallback@,
            ),
    {
        if let Some(s) = text {
            if let Ok(t) = ClipTable::from_json(s) {
                return t;
            }
        }
        match ClipTable::from_json(fallback) {
            Ok(t) => t,
            Err(_) => ClipTable::new(),
        }
    }

    /// Toggles cell `c` in clip `name`: its first occurrence is removed where the
    /// clip holds it, and it is appended otherwise. A clip the table lacks is
    /// created first, empty.
    pub fn toggle(&mut self, name: &str, c: (i32, i32))
        requires
            old(self).wf(),
        ensures
            final(self).wf(),
            final(self)@ == old(self)@.insert(name@, toggled(cells_or_empty(old(self)@, name@), c)),
    {
        let ghost s = entries_view(self.entries@);
        let mut cells: Vec<(i32, i32)> = match self.find(name) {
            Some(i) => {
                proof {
                    lemma_table_index(s, i as int);
                }
                copy_cells(&self.entries[i].1)
            },
            None => {
                proof {
                    lemma_table_absent(s, name@);
                }
                Vec::new()
            },
        };
        let ghost before = cells@;
        assert(before == cells_or_empty(self@, name@));
        let mut j: usize = 0;
        let mut found = false;
        while j < cells.len()
            invariant_except_break
                !found,
            invariant
                cells@ == before,
                j <= cells@.len(),
                forall|k: int| 0 <= k < j ==> cells@[k] != c,
            ensures
                found ==> j < cells@.len() && cells@[j as int] == c,
                !found ==> j == cells@.len(),
            decreases cells@.len() - j,
        {
            if same_cell(cells[j], c) {
                assert(cells@[j as int] == c);
                found = true;
                break;
            }
            j = j + 1;
        }
        if found {
            proof {
                before.index_of_first_ensures(c);
                assert(before[j as int] == c);
                assert(before.contains(c));
                let f = before.index_of_first(c).unwrap();
                assert(f == j);
            }
            cells.remove(j);
        } else {
            assert(!before.contains(c));
            cells.push(c);
        }
        assert(cells@ == toggled(before, c));
        self.insert(name.to_owned(), cells);
    }

    /// Unbinds cell `c` from every clip.
    pub fn unbind(&mut self, c: (i32, i32))
        requires
            old(self).wf(),
        ensures
            final(self).wf(),
            final(self)@.dom() == old(self)@.dom(),
            forall|k: Seq<char>| #[trigger] final(self)@.contains_key(k) ==> final(self)@[k] == without_cell(old(self)@[k], c),
    {
        let ghost s = entries_view(self.entries@);
        let mut out: Vec<(String, Vec<(i32, i32)>)> = Vec::new();
        let mut i: usize = 0;
        while i < self.entries.len()
            invariant
                s == entries_view(self.entries@),
                keys_distinct(s),
                i <= s.len(),
                out@.len() == i,
                forall|j: int| 0 <= j < i ==> #[trigger] entries_view(out@)[j] == (s[j].0, without_cell(s[j].1, c)),
            decreases s.len() - i,
        {
            let src = &self.entries[i].1;
            let mut kept: Vec<(i32, i32)> = Vec::new();
            let mut j: usize = 0;
            while j < src.len()
                invariant
                    j <= src@.len(),
                    kept@ == without_cell(src@.subrange(0, j as int), c),
                decreases src@.len() - j,
            {
                proof {
                    reveal_with_fuel(Seq::<_>::filter, 1);
                    assert(src@.subrange(0, j + 1).drop_last() =~= src@.subrange(0, j as int));
                }
                if !same_cell(src[j], c) {
                    kept.push(src[j]);
                }
                j = j + 1;
            }
            assert(src@.subrange(0, src@.len() as int) =~= src@);
            let name = self.entries[i].0.clone();
            let ghost prev = out@;
            out.push((name, kept));
            proof {
                lemma_entries_view_push(prev, out@[i as int]);
                assert forall|j: int| 0 <= j < i + 1 implies #[trigger] entries_view(out@)[j] == (s[j].0, without_cell(s[j].1, c)) by {
                    if j < i {
                        assert(entries_view(out@)[j] == entries_view(prev)[j]);
                    }
                }
            }
            i = i + 1;
        }
        let ghost t = entries_view(out@);
        assert forall|a: int, b: int| 0 <= a < t.len() && 0 <= b < t.len() && a != b implies t[a].0 != t[b].0 by {
            assert(t[a] == (s[a].0, without_cell(s[a].1, c)));
            assert(t[b] == (s[b].0, without_cell(s[b].1, c)));
        }
        self.entries = out;
        proof {
            assert forall|k: Seq<char>| table_map(t).contains_key(k) <==> table_map(s).contains_key(k) by {
                if has_key(t, k) {
                    let j = choose|j: int| 0 <= j < t.len() && t[j].0 == k;
                    assert(t[j] == (s[j].0, without_cell(s[j].1, c)));
                }
                if has_key(s, k) {
                    let j = choose|j: int| 0 <= j < s.len() && s[j].0 == k;
                    assert(t[j] == (s[j].0, without_cell(s[j].1, c)));
                }
            }
            assert(table_map(t).dom() =~= table_map(s).dom());
            assert forall|k: Seq<char>| #[trigger] table_map(t).contains_key(k) implies table_map(t)[k] == without_cell(table_map(s)[k], c) by {
                let j = choose|j: int| 0 <= j < t.len() && t[j].0 == k;
                assert(t[j] == (s[j].0, without_cell(s[j].1, c)));
                lemma_table_index(t, j);
                lemma_table_index(s, j);
            }
        }
    }

    /// The names of the clips that play cell `c`.
    pub fn clips_at(&self, c: (i32, i32)) -> (names: Vec<String>)
        requires
            self.wf(),
        ensures
            names@.map_values(|n: String| n@).no_duplicates(),
            forall|k: Seq<char>| names@.map_values(|n: String| n@).contains(k) <==> (self@.contains_key(k) && self@[k].contains(c)),
    {
        let ghost s = entries_view(self.entries@);
        let mut names: Vec<String> = Vec::new();
        let mut idx: Ghost<Seq<int>> = Ghost(Seq::empty());
        let mut i: usize = 0;
        while i < self.entries.len()
            invariant
                s == entries_view(self.entries@),
                keys_distinct(s),
                i <= s.len(),
                idx@.len() == names@.len(),
                forall|a: int| 0 <= a < idx@.len() ==> 0 <= #[trigger] idx@[a] < i && s[idx@[a]].1.contains(c) && names@[a]@ == s[idx@[a]].0,
                forall|a: int, b: int| 0 <= a < b < idx@.len() ==> idx@[a] < idx@[b],
                forall|j: int| 0 <= j < i && s[j].1.contains(c) ==> exists|a: int| 0 <= a < idx@.len() && #[trigger] idx@[a] == j,
            decreases s.len() - i,
        {
            let ghost old_idx = idx@;
            if contains_cell(&self.entries[i].1, c) {
                let n = self.entries[i].0.clone();
                names.push(n);
                proof {
                    idx@ = idx@.push(i as int);
                    assert(idx@[idx@.len() - 1] == i);
                }
            }
            proof {
                assert forall|j: int| 0 <= j < i + 1 && s[j].1.contains(c) implies exists|a: int| 0 <= a < idx@.len() && #[trigger] idx@[a] == j by {
                    if j < i {
                        let a = choose|a: int| 0 <= a < old_idx.len() && #[trigger] old_idx[a] == j;
                        assert(idx@[a] == j);
                    } else {
                        assert(idx@[idx@.len() - 1] == j);
                    }
                }
            }
            i = i + 1;
        }
        let ghost nv = names@.map_values(|n: String| n@);
        assert forall|a: int, b: int| 0 <= a < nv.len() && 0 <= b < nv.len() && a != b implies nv[a] != nv[b] by {
            assert(nv[a] == s[idx@[a]].0);
            assert(nv[b] == s[idx@[b]].0);
            if a < b {
                assert(idx@[a] < idx@[b]);
            } else {
                assert(idx@[b] < idx@[a]);
            }
        }
        assert forall|k: Seq<char>| nv.contains(k) <==> (self@.contains_key(k) && self@[k].contains(c)) by {
            if nv.contains(k) {
                let a = choose|a: int| 0 <= a < nv.len() && nv[a] == k;
                assert(nv[a] == s[idx@[a]].0);
                lemma_table_index(s, idx@[a]);
            }
            if self@.contains_key(k) && self@[k].contains(c) {
                let j = choose|j: int| 0 <= j < s.len() && s[j].0 == k;
                lemma_table_index(s, j);
                let a = choose|a: int| 0 <= a < idx@.len() && #[trigger] idx@[a] == j;
                assert(nv[a] == k);
            }
        }
        names
    }

    /// The table's JSON text, `{ "clip": [[col, row], ...] }`, as saved by the
    /// sprite editor.
    pub fn to_json(&self) -> (r: Result<String, MappingError>)
        requires
            self.wf(),
        ensures
            r is Ok <==> clip_json_text(self@) is Some,
            r matches Ok(s) ==> s@ == clip_json_text(self@)->0,
    {
        let pairs = self.to_pairs();
        match write_clip_json(&pairs) {
            Ok(s) => Ok(s),
            Err(e) => Err(MappingError::Json(e)),
        }
    }

    /// The table's clips as (name, cells) pairs, each name once.
    pub fn to_pairs(&self) -> (pairs: Vec<(String, Vec<(i32, i32)>)>)
        requires
            self.wf(),
        ensures
            keys_distinct(entries_view(pairs@)),
            table_map(entries_view(pairs@)) == self@,
            pairs_map(entries_view(pairs@)) == self@,
    {
        let mut out: Vec<(String, Vec<(i32, i32)>)> = Vec::new();
        let mut i: usize = 0;
        while i < self.entries.len()
            invariant
                i <= self.entries@.len(),
                out@.len() == i,
                entries_view(out@) == entries_view(self.entries@).subrange(0, i as int),
            decreases self.entries@.len() - i,
        {
            let name = self.entries[i].0.clone();
            let cells = copy_cells(&self.entries[i].1);
            let ghost prev = out@;
            out.push((name, cells));
            proof {
                lemma_entries_view_push(prev, out@[i as int]);
                assert(entries_view(out@) =~= entries_view(self.entries@).subrange(0, i + 1));
            }
            i = i + 1;
        }
        assert(entries_view(out@) =~= entries_view(self.entries@));
        proof {
            lemma_pairs_map_distinct(entries_view(out@));
        }
        out
    }
}

/// Pairs with distinct names bind each name to its own cells: reading them in
/// turn gives the map they hold.
pub proof fn lemma_pairs_map_distinct(s: Seq<(Seq<char>, Seq<(i32, i32)>)>)
    requires
        keys_distinct(s),
    ensures
        pairs_map(s) == table_map(s),
    decreases s.len(),
{
    if s.len() == 0 {
        assert(table_map(s) =~= Map::<Seq<char>, Seq<(i32, i32)>>::empty());
    } else {
        let d = s.drop_last();
        assert(keys_distinct(d));
        lemma_pairs_map_distinct(d);
        assert forall|i: int| 0 <= i < d.len() implies d[i].0 != s.last().0 by {
            assert(s[i] == d[i]);
        }
        lemma_table_push(d, s.last().0, s.last().1);
        assert(d.push((s.last().0, s.last().1)) =~= s);
    }
}

/// Exporting a table as pairs and building a table from them gives the same
/// table back.
pub proof fn law_export_read_back(t: Map<Seq<char>, Seq<(i32, i32)>>, pairs: Seq<(Seq<char>, Seq<(i32, i32)>)>)
    requires
        keys_distinct(pairs),
        table_map(pairs) == t,
    ensures
        pairs_map(pairs) == t,
{
    lemma_pairs_map_distinct(pairs);
}

/// Toggling a cell that a clip does not play binds it at the end; toggling it again
/// gives back the clip as it was.
pub proof fn law_toggle_twice_restores(s: Seq<(i32, i32)>, c: (i32, i32))
    requires
        !s.contains(c),
    ensures
        toggled(s, c) == s.push(c),
        toggled(toggled(s, c), c) == s,
{
    let t = s.push(c);
    assert(t[s.len() as int] == c);
    assert(t.contains(c));
    t.index_of_first_ensures(c);
    let i = t.index_of_first(c).unwrap();
    if i < s.len() {
        assert(s[i] == c);
    }
    assert(i == s.len());
    assert(t.remove(i) =~= s);
}

/// A clip that plays a cell once no longer plays it after one toggle.
pub proof fn law_toggle_unbinds_single(s: Seq<(i32, i32)>, c: (i32, i32), i: int)
    requires
        0 <= i < s.len(),
        s[i] == c,
        forall|j: int| 0 <= j < s.len() && j != i ==> s[j] != c,
    ensures
        !toggled(s, c).contains(c),
        toggled(s, c).len() == s.len() - 1,
{
    s.index_of_first_ensures(c);
    let f = s.index_of_first(c).unwrap();
    assert(f == i);
    let t = s.remove(i);
    if t.contains(c) {
        let k = choose|k: int| 0 <= k < t.len() && t[k] == c;
        if k < i {
            assert(s[k] == c);
        } else {
            assert(s[k + 1] == c);
        }
    }
}

/// Unbinding keeps the other cells of a clip in their order: a clip without the
/// cell is left as it is; the clip's cells, read one after the other, lose only
/// the unbound cell; and the cells of two lists put end to end lose it in each.
pub proof fn law_unbind_keeps_order(s: Seq<(i32, i32)>, t: Seq<(i32, i32)>, c: (i32, i32), x: (i32, i32))
    ensures
        !s.contains(c) ==> without_cell(s, c) == s,
        without_cell(Seq::empty(), c) == Seq::<(i32, i32)>::empty(),
        x != c ==> without_cell(s.push(x), c) == without_cell(s, c).push(x),
        without_cell(s.push(c), c) == without_cell(s, c),
        without_cell(s + t, c) == without_cell(s, c) + without_cell(t, c),
        without_cell(seq![x], c) == (if x == c { Seq::<(i32, i32)>::empty() } else { seq![x] }),
{
    broadcast use vstd::seq_lib::group_filter_ensures;
    let pred = other_than(c);
    s.lemma_filter_push(x, pred);
    s.lemma_filter_push(c, pred);
    Seq::filter_distributes_over_add(s, t, pred);
    assert(Seq::<(i32, i32)>::empty().filter(pred) =~= Seq::<(i32, i32)>::empty()) by {
        reveal(Seq::filter);
    }
    Seq::<(i32, i32)>::empty().lemma_filter_push(x, pred);
    assert(Seq::<(i32, i32)>::empty().push(x) =~= seq![x]);
    if !s.contains(c) {
        lemma_filter_keeps_all(s, c);
    }
}

proof fn lemma_filter_keeps_all(s: Seq<(i32, i32)>, c: (i32, i32))
    requires
        !s.contains(c),
    ensures
        without_cell(s, c) == s,
    decreases s.len(),
{
    if s.len() == 0 {
        assert(s.filter(other_than(c)) =~= s) by {
            reveal(Seq::filter);
        }
    } else {
        let d = s.drop_last();
        assert(!d.contains(c)) by {
            if d.contains(c) {
                let k = choose|k: int| 0 <= k < d.len() && d[k] == c;
                assert(s[k] == c);
            }
        }
        lemma_filter_keeps_all(d, c);
        assert(s.last() != c) by {
            if s.last() == c {
                assert(s[s.len() - 1] == c);
            }
        }
        d.lemma_filter_push(s.last(), other_than(c));
        assert(d.push(s.last()) =~= s);
    }
}

/// After a cell is unbound, no clip plays it, and every other cell of every clip
/// stays, in order.
pub proof fn law_unbind_clears(s: Seq<(i32, i32)>, c: (i32, i32))
    ensures
        !without_cell(s, c).contains(c),
        forall|d: (i32, i32)| d != c ==> (without_cell(s, c).contains(d) <==> s.contains(d)),
{
    broadcast use vstd::seq_lib::group_filter_ensures;
    let pred = other_than(c);
    if without_cell(s, c).contains(c) {
        let k = choose|k: int| 0 <= k < without_cell(s, c).len() && without_cell(s, c)[k] == c;
        assert(pred(s.filter(pred)[k]));
    }
    assert forall|d: (i32, i32)| d != c implies (without_cell(s, c).contains(d) <==> s.contains(d)) by {
        if s.contains(d) {
            let k = choose|k: int| 0 <= k < s.len() && s[k] == d;
            assert(pred(s[k]));
            assert(s.filter(pred).contains(s[k]));
        }
        if without_cell(s, c).contains(d) {
            s.lemma_filter_contains_rev(pred, d);
        }
    }
}

} // verus!
