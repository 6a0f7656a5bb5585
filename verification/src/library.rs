use vstd::prelude::*;
use crate::clock::{system_now, since_unix_epoch, duration_secs};
use crate::paths::{file_stem, is_path_piece};
use crate::text::{chars_of, push_char, push_str, push_decimal, string_of, parse_u64_in, decimal, parse_u64};

verus! {

/// The abstract value of a library entry.
pub struct EntryView {
    pub path: Seq<char>,
    pub name: Seq<char>,
    pub last_played: u64,
    pub play_time_secs: u64,
    pub art_path: Option<Seq<char>>,
}

/// A single ROM entry in the library.
pub struct LibraryEntry {
    pub path: String,
    pub name: String,
    pub last_played: u64,
    pub play_time_secs: u64,
    pub art_path: Option<String>,
}

impl View for LibraryEntry {
    type V = EntryView;

    open spec fn view(&self) -> EntryView {
        EntryView {
            path: self.path@,
            name: self.name@,
            last_played: self.last_played,
            play_time_secs: self.play_time_secs,
            art_path: match self.art_path { Some(a) => Some(a@), None => None },
        }
    }
}

/// The collection of previously played ROMs.
pub struct Library {
    pub entries: Vec<LibraryEntry>,
}

impl View for Library {
    type V = Seq<EntryView>;

    open spec fn view(&self) -> Seq<EntryView> {
        self.entries@.map_values(|e: LibraryEntry| e@)
    }
}

/// Whether `i` is the first entry named `name`.
pub open spec fn is_first_named(s: Seq<EntryView>, name: Seq<char>, i: int) -> bool {
    &&& 0 <= i < s.len()
    &&& s[i].name == name
    &&& forall|j: int| 0 <= j < i ==> s[j].name != name
}

/// Whether `i` is the first entry for the ROM at `path`.
pub open spec fn is_first_at(s: Seq<EntryView>, path: Seq<char>, i: int) -> bool {
    &&& 0 <= i < s.len()
    &&& s[i].path == path
    &&& forall|j: int| 0 <= j < i ==> s[j].path != path
}

/// The library after playing the ROM at `path`, named `name`, at time `now`:
/// the first entry with that name gets the time and the path; without one, a
/// new entry is added at the end with no play time and no art.
pub open spec fn touched(s: Seq<EntryView>, path: Seq<char>, name: Seq<char>, now: u64) -> Seq<EntryView> {
    if exists|i: int| is_first_named(s, name, i) {
        let i = choose|i: int| is_first_named(s, name, i);
        s.update(i, EntryView { last_played: now, path: path, ..s[i] })
    } else {
        s.push(EntryView { path, name, last_played: now, play_time_secs: 0, art_path: None })
    }
}

/// The library with `secs` added (wrapping at 2^64) to the play time of the
/// first entry for `path`; unchanged without one.
pub open spec fn with_play_time(s: Seq<EntryView>, path: Seq<char>, secs: u64) -> Seq<EntryView> {
    if exists|i: int| is_first_at(s, path, i) {
        let i = choose|i: int| is_first_at(s, path, i);
        s.update(i, EntryView { play_time_secs: ((s[i].play_time_secs + secs) % 0x1_0000_0000_0000_0000) as u64, ..s[i] })
    } else {
        s
    }
}

/// The library with the art of the first entry for `path` set to `art`;
/// unchanged without one.
pub open spec fn with_art(s: Seq<EntryView>, path: Seq<char>, art: Seq<char>) -> Seq<EntryView> {
    if exists|i: int| is_first_at(s, path, i) {
        let i = choose|i: int| is_first_at(s, path, i);
        s.update(i, EntryView { art_path: Some(art), ..s[i] })
    } else {
        s
    }
}

/// The library without the entries for `path`, the others in order.
pub open spec fn without(s: Seq<EntryView>, path: Seq<char>) -> Seq<EntryView> {
    s.filter(|e: EntryView| e.path != path)
}

/// The line an entry is stored as: path, name, last-played time, play time
/// and art path separated by `|`, numbers in decimal, no art as an empty
/// field, ended by a newline.
pub open spec fn entry_line(e: EntryView) -> Seq<char> {
    e.path + seq!['|'] + e.name + seq!['|'] + decimal(e.last_played as nat) + seq!['|']
        + decimal(e.play_time_secs as nat) + seq!['|']
        + (match e.art_path { Some(a) => a, None => Seq::<char>::empty() }) + seq!['\n']
}

/// The text a library is stored as: one line per entry, in order.
pub open spec fn library_text(s: Seq<EntryView>) -> Seq<char>
    decreases s.len(),
{
    if s.len() == 0 { Seq::empty() } else { library_text(s.drop_last()) + entry_line(s.last()) }
}

/// A line split at its first four `|`: at most five fields, the last one
/// holding the rest of the line.
pub open spec fn split_fields(l: Seq<char>) -> Seq<Seq<char>>
    decreases l.len(),
{
    if l.len() == 0 {
        seq![Seq::<char>::empty()]
    } else {
        let parts = split_fields(l.drop_last());
        let c = l.last();
        if c == '|' && parts.len() < 5 {
            parts.push(Seq::<char>::empty())
        } else {
            parts.update(parts.len() - 1, parts.last().push(c))
        }
    }
}

/// The entry a line holds: lines with fewer than four fields hold none;
/// numbers that do not parse read as 0; an empty or missing art field is no art.
pub open spec fn parse_line(l: Seq<char>) -> Option<EntryView> {
    let p = split_fields(l);
    if p.len() < 4 {
        None
    } else {
        Some(EntryView {
            path: p[0],
            name: p[1],
            last_played: match parse_u64(p[2]) { Some(v) => v, None => 0 },
            play_time_secs: match parse_u64(p[3]) { Some(v) => v, None => 0 },
            art_path: if p.len() == 5 && p[4].len() > 0 { Some(p[4]) } else { None },
        })
    }
}

/// A line without its `\r` when it ended in `\r\n`.
pub open spec fn strip_cr(l: Seq<char>) -> Seq<char> {
    if l.len() > 0 && l.last() == '\r' { l.drop_last() } else { l }
}

/// Reading `cs` line by line: the entries of the finished lines (each ended
/// by `\n`, with a `\r` before it dropped), and the unfinished last line.
pub open spec fn scan_lines(cs: Seq<char>) -> (Seq<EntryView>, Seq<char>)
    decreases cs.len(),
{
    if cs.len() == 0 {
        (Seq::empty(), Seq::empty())
    } else {
        let (done, cur) = scan_lines(cs.drop_last());
        if cs.last() == '\n' {
            let l = strip_cr(cur);
            (match parse_line(l) { Some(e) => done.push(e), None => done }, Seq::empty())
        } else {
            (done, cur.push(cs.last()))
        }
    }
}

/// The library held by the text `cs`: the entries of its lines, in order; a
/// last line without a newline counts when it is not empty.
pub open spec fn parse_library(cs: Seq<char>) -> Seq<EntryView> {
    let (done, cur) = scan_lines(cs);
    if cur.len() > 0 {
        match parse_line(cur) { Some(e) => done.push(e), None => done }
    } else {
        done
    }
}

/// Where field `k` of a line starts, given the positions of its first bars.
pub open spec fn field_start(from: int, bars: Seq<usize>, k: int) -> int {
    if k == 0 { from } else { bars[k - 1] + 1 }
}

impl Library {
    /// An empty library.
    pub fn new() -> (r: Self)
        ensures r@ == Seq::<EntryView>::empty(),
    {
        let r = Library { entries: Vec::new() };
        assert(r@ =~= Seq::<EntryView>::empty());
        r
    }

    /// The index of the first entry named `name`, if any.
    fn find_named(&self, name: &String) -> (r: Option<usize>)
        ensures
            match r {
                Some(i) => is_first_named(self@, name@, i as int),
                None => forall|j: int| 0 <= j < self@.len() ==> self@[j].name != name@,
            },
    {
        let mut i: usize = 0;
        while i < self.entries.len()
            invariant
                i <= self.entries@.len(),
                forall|j: int| 0 <= j < i ==> self@[j].name != name@,
            decreases self.entries@.len() - i,
        {
            if self.entries[i].name == *name {
                return Some(i);
            }
            i = i + 1;
        }
        None
    }

    /// The index of the first entry for the ROM at `path`, if any.
    fn find_at(&self, path: &str) -> (r: Option<usize>)
        ensures
            match r {
                Some(i) => is_first_at(self@, path@, i as int),
                None => forall|j: int| 0 <= j < self@.len() ==> self@[j].path != path@,
            },
    {
        let p = path.to_owned();
        let mut i: usize = 0;
        while i < self.entries.len()
            invariant
                i <= self.entries@.len(),
                p@ == path@,
                forall|j: int| 0 <= j < i ==> self@[j].path != path@,
            decreases self.entries@.len() - i,
        {
            if self.entries[i].path == p {
                return Some(i);
            }
            i = i + 1;
        }
        None
    }

    /// Replace entry `i` by `e`.
    fn replace(&mut self, i: usize, e: LibraryEntry) -> (old_entry: LibraryEntry)
        requires i < old(self)@.len(),
        ensures
            final(self)@ == old(self)@.update(i as int, e@),
            old_entry@ == old(self)@[i as int],
    {
        let old_entry = self.entries.remove(i);
        self.entries.insert(i, e);
        assert(self@ =~= old(self)@.update(i as int, e@));
        old_entry
    }

    /// Record that the ROM at `rom_path` is being played: its entry (found by
    /// name) gets the current time and the path, or a new entry is added. The
    /// name is the file stem of the path, or the whole path without one.
    pub fn touch(&mut self, rom_path: &str)
        ensures
            exists|name: Seq<char>, now: u64| final(self)@ == #[trigger] touched(old(self)@, rom_path@, name, now)
                && (is_path_piece(rom_path@, name) || name == rom_path@),
    {
        let now = duration_secs(&since_unix_epoch(&system_now()));
        let name = match file_stem(rom_path) {
            Some(stem) => stem,
            None => rom_path.to_owned(),
        };
        self.touch_entry(rom_path, name, now);
    }

    /// Record that the ROM at `rom_path`, named `name`, was played at `now`.
    pub fn touch_entry(&mut self, rom_path: &str, name: String, now: u64)
        ensures final(self)@ == touched(old(self)@, rom_path@, name@, now),
    {
        match self.find_named(&name) {
            Some(i) => {
                let ghost s = self@;
                let e = self.entries.remove(i);
                let updated = LibraryEntry {
                    path: rom_path.to_owned(),
                    name: e.name,
                    last_played: now,
                    play_time_secs: e.play_time_secs,
                    art_path: e.art_path,
                };
                self.entries.insert(i, updated);
                proof {
                    assert(is_first_named(s, name@, i as int));
                    let k = choose|k: int| is_first_named(s, name@, k);
                    assert(k == i as int) by {
                        if k < i as int { assert(s[k].name != name@); }
                        if (i as int) < k { assert(s[i as int].name != name@); }
                    }
                }
                assert(self@ =~= touched(s, rom_path@, name@, now));
            }
            None => {
                let ghost s = self@;
                let e = LibraryEntry {
                    path: rom_path.to_owned(),
                    name,
                    last_played: now,
                    play_time_secs: 0,
                    art_path: None,
                };
                self.entries.push(e);
                assert(self@ =~= touched(s, rom_path@, e@.name, now));
            }
        }
    }

    /// Add `secs` of play time to the entry for the ROM at `rom_path`.
    pub fn add_play_time(&mut self, rom_path: &str, secs: u64)
        ensures final(self)@ == with_play_time(old(self)@, rom_path@, secs),
    {
        match self.find_at(rom_path) {
            Some(i) => {
                let ghost s = self@;
                let e = self.entries.remove(i);
                let updated = LibraryEntry {
                    path: e.path,
                    name: e.name,
                    last_played: e.last_played,
                    play_time_secs: e.play_time_secs.wrapping_add(secs),
                    art_path: e.art_path,
                };
                self.entries.insert(i, updated);
                proof {
                    let k = choose|k: int| is_first_at(s, rom_path@, k);
                    assert(k == i as int) by {
                        if k < i as int { assert(s[k].path != rom_path@); }
                        if (i as int) < k { assert(s[i as int].path != rom_path@); }
                    }
                }
                assert(self@ =~= with_play_time(s, rom_path@, secs));
            }
            None => {}
        }
    }

    /// Set the art of the entry for the ROM at `rom_path`.
    pub fn set_art(&mut self, rom_path: &str, art_path: String)
        ensures final(self)@ == with_art(old(self)@, rom_path@, art_path@),
    {
        match self.find_at(rom_path) {
            Some(i) => {
                let ghost s = self@;
                let e = self.entries.remove(i);
                let ghost art = art_path@;
                let updated = LibraryEntry {
                    path: e.path,
                    name: e.name,
                    last_played: e.last_played,
                    play_time_secs: e.play_time_secs,
                    art_path: Some(art_path),
                };
                self.entries.insert(i, updated);
                proof {
                    let k = choose|k: int| is_first_at(s, rom_path@, k);
                    assert(k == i as int) by {
                        if k < i as int { assert(s[k].path != rom_path@); }
                        if (i as int) < k { assert(s[i as int].path != rom_path@); }
                    }
                }
                assert(self@ =~= with_art(s, rom_path@, art));
            }
            None => {}
        }
    }

    /// Remove the entries for the ROM at `rom_path` (save data stays).
    pub fn remove(&mut self, rom_path: &str)
        ensures final(self)@ == without(old(self)@, rom_path@),
    {
        let ghost s = self@;
        let p = rom_path.to_owned();
        let mut kept: Vec<LibraryEntry> = Vec::new();
        let mut old_entries: Vec<LibraryEntry> = Vec::new();
        std::mem::swap(&mut old_entries, &mut self.entries);
        let ghost all = old_entries@;
        assert(all.map_values(|e: LibraryEntry| e@) == s);
        let n = old_entries.len();
        let mut i: usize = 0;
        let mut rest = old_entries;
        while i < n
            invariant
                p@ == rom_path@,
                i <= n,
                n == all.len(),
                rest@ == all.subrange(i as int, n as int),
                kept@.map_values(|e: LibraryEntry| e@) == without(s.subrange(0, i as int), rom_path@),
                all.map_values(|e: LibraryEntry| e@) == s,
            decreases n - i,
        {
            let e = rest.remove(0);
            assert(e == all[i as int]);
            let ghost ev = e@;
            assert(s[i as int] == ev);
            assert(s.subrange(0, i + 1) =~= s.subrange(0, i as int).push(ev));
            proof {
                s.subrange(0, i as int).lemma_filter_push(ev, |e: EntryView| e.path != rom_path@);
            }
            if e.path != p {
                kept.push(e);
                assert(kept@.map_values(|e: LibraryEntry| e@) =~= without(s.subrange(0, i + 1), rom_path@));
            } else {
                assert(kept@.map_values(|e: LibraryEntry| e@) =~= without(s.subrange(0, i + 1), rom_path@));
            }
            i = i + 1;
        }
        assert(s.subrange(0, n as int) =~= s);
        self.entries = kept;
    }
}

impl Library {
    /// The text the library is stored as: one `|`-separated line per entry.
    pub fn to_text(&self) -> (r: String)
        ensures r@ == library_text(self@),
    {
        let mut out = String::new();
        let mut i: usize = 0;
        while i < self.entries.len()
            invariant
                i <= self.entries@.len(),
                out@ == library_text(self@.subrange(0, i as int)),
            decreases self.entries@.len() - i,
        {
            let e = &self.entries[i];
            push_entry_line(&mut out, e);
            assert(self@.subrange(0, i + 1).drop_last() =~= self@.subrange(0, i as int));
            assert(self@.subrange(0, i + 1).last() == e@);
            i = i + 1;
        }
        assert(self@.subrange(0, self@.len() as int) =~= self@);
        out
    }

    /// Read a library from its stored text: one entry per line of at least
    /// four `|`-separated fields.
    pub fn parse(text: &str) -> (r: Library)
        ensures r@ == parse_library(text@),
    {
        let cs = chars_of(text);
        let mut lib = Library::new();
        let mut start: usize = 0;
        let mut i: usize = 0;
        while i < cs.len()
            invariant
                start <= i <= cs@.len(),
                scan_lines(cs@.subrange(0, i as int)) == (lib@, cs@.subrange(start as int, i as int)),
            decreases cs@.len() - i,
        {
            let ghost cur = cs@.subrange(start as int, i as int);
            assert(cs@.subrange(0, i + 1).drop_last() =~= cs@.subrange(0, i as int));
            assert(cs@.subrange(0, i + 1).last() == cs@[i as int]);
            if cs[i] == '\n' {
                let end = if i > start && cs[i - 1] == '\r' { i - 1 } else { i };
                assert(strip_cr(cur) =~= cs@.subrange(start as int, end as int));
                match parse_line_in(cs.as_slice(), start, end) {
                    Some(e) => {
                        lib.entries.push(e);
                    }
                    None => {}
                }
                start = i + 1;
            } else {
                assert(cs@.subrange(start as int, i + 1) =~= cur.push(cs@[i as int]));
            }
            i = i + 1;
        }
        assert(cs@.subrange(0, cs@.len() as int) =~= text@);
        if start < cs.len() {
            match parse_line_in(cs.as_slice(), start, cs.len()) {
                Some(e) => {
                    lib.entries.push(e);
                }
                None => {}
            }
        }
        lib
    }
}

/// Append the stored line of `e` to `out`.
fn push_entry_line(out: &mut String, e: &LibraryEntry)
    ensures final(out)@ == old(out)@ + entry_line(e@),
{
    let ghost before = out@;
    push_str(out, e.path.as_str());
    push_char(out, '|');
    push_str(out, e.name.as_str());
    push_char(out, '|');
    push_decimal(out, e.last_played);
    push_char(out, '|');
    push_decimal(out, e.play_time_secs);
    push_char(out, '|');
    match &e.art_path {
        Some(a) => push_str(out, a.as_str()),
        None => {}
    }
    push_char(out, '\n');
    assert(out@ =~= before + entry_line(e@));
}

/// The entry held by the line `cs[from..to]`.
fn parse_line_in(cs: &[char], from: usize, to: usize) -> (r: Option<LibraryEntry>)
    requires from <= to <= cs@.len(),
    ensures
        match r {
            Some(e) => parse_line(cs@.subrange(from as int, to as int)) == Some(e@),
            None => parse_line(cs@.subrange(from as int, to as int)) is None,
        },
{
    let mut bars: Vec<usize> = Vec::new();
    let mut i = from;
    let ghost mut parts: Seq<Seq<char>> = seq![Seq::<char>::empty()];
    assert(cs@.subrange(from as int, from as int) =~= Seq::<char>::empty());
    while i < to
        invariant
            from <= i <= to,
            to <= cs@.len(),
            bars@.len() <= 4,
            parts == split_fields(cs@.subrange(from as int, i as int)),
            parts.len() == bars@.len() + 1,
            forall|k: int| 0 <= k < bars@.len() ==> from <= #[trigger] bars@[k] < i,
            forall|k: int| 0 <= k < bars@.len() ==> field_start(from as int, bars@, k) <= bars@[k],
            forall|k: int| 0 <= k < bars@.len() ==>
                #[trigger] parts[k] == cs@.subrange(field_start(from as int, bars@, k), bars@[k] as int),
            field_start(from as int, bars@, bars@.len() as int) <= i,
            parts[bars@.len() as int] == cs@.subrange(field_start(from as int, bars@, bars@.len() as int), i as int),
        decreases to - i,
    {
        let c = cs[i];
        assert(cs@.subrange(from as int, i + 1).drop_last() =~= cs@.subrange(from as int, i as int));
        assert(cs@.subrange(from as int, i + 1).last() == c);
        let ghost n = bars@.len() as int;
        if c == '|' && bars.len() < 4 {
            bars.push(i);
            proof {
                parts = parts.push(Seq::<char>::empty());
                assert(cs@.subrange(i + 1, i + 1) =~= Seq::<char>::empty());
                assert forall|k: int| 0 <= k < bars@.len() implies
                    #[trigger] parts[k] == cs@.subrange(field_start(from as int, bars@, k), bars@[k] as int) by {
                    if k < n {
                        assert(field_start(from as int, bars@, k) == field_start(from as int, bars@.drop_last(), k));
                    }
                }
            }
        } else {
            proof {
                let last = parts[n];
                parts = parts.update(n, last.push(c));
                assert(cs@.subrange(field_start(from as int, bars@, n), i + 1)
                    =~= cs@.subrange(field_start(from as int, bars@, n), i as int).push(c));
            }
        }
        i = i + 1;
    }
    let ghost l = cs@.subrange(from as int, to as int);
    assert(parts == split_fields(l));
    if bars.len() < 3 {
        return None;
    }
    let b0 = bars[0];
    let b1 = bars[1];
    let b2 = bars[2];
    assert(parts[0] == cs@.subrange(from as int, b0 as int));
    assert(parts[1] == cs@.subrange(b0 + 1, b1 as int));
    assert(parts[2] == cs@.subrange(b1 + 1, b2 as int));
    let (end3, art) = if bars.len() == 4 {
        let b3 = bars[3];
        assert(parts[3] == cs@.subrange(b2 + 1, b3 as int));
        assert(parts[4] == cs@.subrange(b3 + 1, to as int));
        let art = if b3 + 1 < to { Some(string_of(cs, b3 + 1, to)) } else { None };
        (b3, art)
    } else {
        assert(parts[3] == cs@.subrange(b2 + 1, to as int));
        (to, None)
    };
    let last_played = match parse_u64_in(cs, b1 + 1, b2) { Some(v) => v, None => 0 };
    let play_time_secs = match parse_u64_in(cs, b2 + 1, end3) { Some(v) => v, None => 0 };
    let e = LibraryEntry {
        path: string_of(cs, from, b0),
        name: string_of(cs, b0 + 1, b1),
        last_played,
        play_time_secs,
        art_path: art,
    };
    Some(e)
}

/// After playing a ROM its entry is in the library, with the name, the path
/// and the time; the library grows only when no entry had the name.
pub proof fn lemma_touch_finds(s: Seq<EntryView>, path: Seq<char>, name: Seq<char>, now: u64)
    ensures
        exists|i: int| 0 <= i < touched(s, path, name, now).len()
            && #[trigger] touched(s, path, name, now)[i].name == name
            && touched(s, path, name, now)[i].path == path
            && touched(s, path, name, now)[i].last_played == now,
        touched(s, path, name, now).len() == if exists|i: int| is_first_named(s, name, i) { s.len() } else { s.len() + 1 },
{
    let t = touched(s, path, name, now);
    if exists|i: int| is_first_named(s, name, i) {
        let i = choose|i: int| is_first_named(s, name, i);
        assert(t[i].name == name);
    } else {
        assert(t[s.len() as int].name == name);
    }
}

/// After removing a ROM no entry for its path is left, and every other entry
/// stays.
pub proof fn lemma_remove_gone(s: Seq<EntryView>, path: Seq<char>)
    ensures
        forall|i: int| 0 <= i < without(s, path).len() ==> #[trigger] without(s, path)[i].path != path,
        forall|i: int| 0 <= i < s.len() && s[i].path != path ==> without(s, path).contains(#[trigger] s[i]),
        without(s, path).len() <= s.len(),
{
    broadcast use vstd::seq_lib::group_filter_ensures;
    assert forall|i: int| 0 <= i < s.len() && s[i].path != path implies without(s, path).contains(#[trigger] s[i]) by {
        assert((|e: EntryView| e.path != path)(s[i]));
    }
}

/// Whether an entry survives being stored as a line: path and name hold no
/// `|` and no newline; an art path is not empty, holds no newline and does
/// not end in `\r`.
pub open spec fn storable(e: EntryView) -> bool {
    &&& !e.path.contains('|') && !e.path.contains('\n')
    &&& !e.name.contains('|') && !e.name.contains('\n')
    &&& match e.art_path {
        Some(a) => a.len() > 0 && !a.contains('\n') && a.last() != '\r',
        None => true,
    }
}

/// The stored line of an entry without its newline.
pub open spec fn entry_fields(e: EntryView) -> Seq<char> {
    e.path + seq!['|'] + e.name + seq!['|'] + decimal(e.last_played as nat) + seq!['|']
        + decimal(e.play_time_secs as nat) + seq!['|']
        + (match e.art_path { Some(a) => a, None => Seq::<char>::empty() })
}

/// Characters without a newline do not finish a line.
proof fn lemma_scan_extend(a: Seq<char>, b: Seq<char>)
    requires !b.contains('\n'),
    ensures scan_lines(a + b) == (scan_lines(a).0, scan_lines(a).1 + b),
    decreases b.len(),
{
    if b.len() == 0 {
        assert(a + b =~= a);
        assert(scan_lines(a).1 + b =~= scan_lines(a).1);
    } else {
        let b1 = b.drop_last();
        assert(!b1.contains('\n')) by {
            if b1.contains('\n') {
                let k = choose|k: int| 0 <= k < b1.len() && b1[k] == '\n';
                assert(b[k] == '\n');
            }
        }
        lemma_scan_extend(a, b1);
        assert((a + b).drop_last() =~= a + b1);
        assert((a + b).last() == b.last());
        assert(b.last() != '\n') by {
            assert(b[b.len() - 1] == b.last());
        }
        assert(scan_lines(a).1 + b =~= (scan_lines(a).1 + b1).push(b.last()));
    }
}

/// A line has between one and five fields.
proof fn lemma_split_len(l: Seq<char>)
    ensures 1 <= split_fields(l).len() <= 5,
    decreases l.len(),
{
    if l.len() > 0 {
        lemma_split_len(l.drop_last());
    }
}

/// Characters without a `|`, or any characters once five fields are open,
/// extend the last field.
proof fn lemma_split_extend(a: Seq<char>, b: Seq<char>)
    requires split_fields(a).len() == 5 || !b.contains('|'),
    ensures
        split_fields(a + b) == split_fields(a).update(split_fields(a).len() - 1, split_fields(a).last() + b),
    decreases b.len(),
{
    lemma_split_len(a);
    let p = split_fields(a);
    if b.len() == 0 {
        assert(a + b =~= a);
        assert(p.last() + b =~= p.last());
        assert(p.update(p.len() - 1, p.last()) =~= p);
    } else {
        let b1 = b.drop_last();
        assert(!b.contains('|') ==> !b1.contains('|')) by {
            if !b.contains('|') && b1.contains('|') {
                let k = choose|k: int| 0 <= k < b1.len() && b1[k] == '|';
                assert(b[k] == '|');
            }
        }
        lemma_split_extend(a, b1);
        assert((a + b).drop_last() =~= a + b1);
        assert((a + b).last() == b.last());
        assert(!b.contains('|') ==> b.last() != '|') by {
            assert(b[b.len() - 1] == b.last());
        }
        let q = split_fields(a + b1);
        assert(q.len() == p.len());
        assert(q.last() == p.last() + b1);
        assert((p.last() + b1).push(b.last()) =~= p.last() + b);
        assert(q.update(q.len() - 1, q.last().push(b.last())) =~= p.update(p.len() - 1, p.last() + b));
    }
}

/// A `|` opens a new field while fewer than five are open.
proof fn lemma_split_bar(a: Seq<char>)
    requires split_fields(a).len() < 5,
    ensures split_fields(a.push('|')) == split_fields(a).push(Seq::<char>::empty()),
{
    assert(a.push('|').drop_last() =~= a);
}

/// The digit character of a digit has that value.
proof fn lemma_digit_char(k: int)
    requires 0 <= k < 10,
    ensures
        crate::text::is_digit(crate::text::digit_char(k)),
        crate::text::digit_value(crate::text::digit_char(k)) == k,
{
}

/// A decimal representation is a nonempty digit string with its value.
proof fn lemma_decimal(n: nat)
    ensures
        decimal(n).len() > 0,
        crate::text::all_digits(decimal(n)),
        crate::text::digits_value(decimal(n)) == n,
    decreases n,
{
    if n < 10 {
        lemma_digit_char(n as int);
        assert(decimal(n).drop_last() =~= Seq::<char>::empty());
        assert(crate::text::digits_value(Seq::<char>::empty()) == 0);
        assert(decimal(n).last() == crate::text::digit_char(n as int));
        assert(crate::text::digits_value(decimal(n)) == n);
    } else {
        lemma_decimal(n / 10);
        lemma_digit_char((n % 10) as int);
        let d = decimal(n);
        assert(d.drop_last() =~= decimal(n / 10));
        assert(d.last() == crate::text::digit_char((n % 10) as int));
        assert(crate::text::digits_value(d) == crate::text::digits_value(decimal(n / 10)) * 10 + (n % 10));
        assert((n / 10) * 10 + n % 10 == n);
        assert forall|i: int| 0 <= i < d.len() implies crate::text::is_digit(#[trigger] d[i]) by {
            if i < d.len() - 1 {
                assert(d[i] == decimal(n / 10)[i]);
            }
        }
    }
}

/// A number written in decimal reads back as itself, and holds neither a
/// `|` nor a newline.
proof fn lemma_decimal_parse(n: u64)
    ensures
        parse_u64(decimal(n as nat)) == Some(n),
        !decimal(n as nat).contains('|'),
        !decimal(n as nat).contains('\n'),
{
    lemma_decimal(n as nat);
    let d = decimal(n as nat);
    assert(crate::text::is_digit(d[0]));
    assert(crate::text::unsigned_digits(d) == d);
    if d.contains('|') {
        let k = choose|k: int| 0 <= k < d.len() && d[k] == '|';
        assert(crate::text::is_digit(d[k]));
    }
    if d.contains('\n') {
        let k = choose|k: int| 0 <= k < d.len() && d[k] == '\n';
        assert(crate::text::is_digit(d[k]));
    }
}

/// The fields of a stored line split back into the entry's fields.
proof fn lemma_parse_fields(e: EntryView)
    requires storable(e),
    ensures parse_line(entry_fields(e)) == Some(e),
{
    let d1 = decimal(e.last_played as nat);
    let d2 = decimal(e.play_time_secs as nat);
    let art = match e.art_path { Some(a) => a, None => Seq::<char>::empty() };
    lemma_decimal_parse(e.last_played);
    lemma_decimal_parse(e.play_time_secs);
    let empty = Seq::<char>::empty();
    assert(split_fields(empty) == seq![empty]);
    lemma_split_extend(empty, e.path);
    assert(empty + e.path =~= e.path);
    let x0 = e.path;
    assert(split_fields(x0) =~= seq![e.path]);
    lemma_split_bar(x0);
    let x1 = x0.push('|');
    lemma_split_extend(x1, e.name);
    let x2 = x1 + e.name;
    assert(split_fields(x2) =~= seq![e.path, e.name]);
    lemma_split_bar(x2);
    let x3 = x2.push('|');
    lemma_split_extend(x3, d1);
    let x4 = x3 + d1;
    assert(split_fields(x4) =~= seq![e.path, e.name, d1]);
    lemma_split_bar(x4);
    let x5 = x4.push('|');
    lemma_split_extend(x5, d2);
    let x6 = x5 + d2;
    assert(split_fields(x6) =~= seq![e.path, e.name, d1, d2]);
    lemma_split_bar(x6);
    let x7 = x6.push('|');
    lemma_split_extend(x7, art);
    let x8 = x7 + art;
    assert(split_fields(x8) =~= seq![e.path, e.name, d1, d2, art]);
    assert(x8 =~= entry_fields(e));
}

/// The stored line of a storable entry holds no newline before its end and
/// does not end in `\r`.
proof fn lemma_fields_one_line(e: EntryView)
    requires storable(e),
    ensures
        !entry_fields(e).contains('\n'),
        strip_cr(entry_fields(e)) == entry_fields(e),
        entry_line(e) == entry_fields(e).push('\n'),
{
    let f = entry_fields(e);
    lemma_decimal_parse(e.last_played);
    lemma_decimal_parse(e.play_time_secs);
    let d1 = decimal(e.last_played as nat);
    let d2 = decimal(e.play_time_secs as nat);
    let art = match e.art_path { Some(a) => a, None => Seq::<char>::empty() };
    let bar = seq!['|'];
    assert(f =~= e.path + bar + e.name + bar + d1 + bar + d2 + bar + art);
    if f.contains('\n') {
        let k = choose|k: int| 0 <= k < f.len() && f[k] == '\n';
        let o1 = e.path.len() as int;
        let o2 = o1 + 1 + e.name.len();
        let o3 = o2 + 1 + d1.len();
        let o4 = o3 + 1 + d2.len();
        if k < o1 {
            assert(e.path[k] == '\n');
        } else if k == o1 || k == o2 || k == o3 || k == o4 {
            assert(f[k] == '|');
        } else if k < o2 {
            assert(e.name[k - o1 - 1] == '\n');
        } else if k < o3 {
            assert(d1[k - o2 - 1] == '\n');
        } else if k < o4 {
            assert(d2[k - o3 - 1] == '\n');
        } else {
            assert(art[k - o4 - 1] == '\n');
        }
    }
    if art.len() > 0 {
        assert(f.last() == art.last());
    } else {
        assert(f.last() == '|');
    }
    assert(entry_line(e) =~= f.push('\n'));
}

/// Reading the stored text of storable entries gives back the entries, with
/// no line left unfinished.
proof fn lemma_scan_text(s: Seq<EntryView>)
    requires forall|i: int| 0 <= i < s.len() ==> storable(#[trigger] s[i]),
    ensures scan_lines(library_text(s)) == (s, Seq::<char>::empty()),
    decreases s.len(),
{
    if s.len() == 0 {
        assert(library_text(s) =~= Seq::<char>::empty());
        assert(s =~= Seq::<EntryView>::empty());
    } else {
        let s1 = s.drop_last();
        let e = s.last();
        assert(storable(s[s.len() - 1]));
        assert forall|i: int| 0 <= i < s1.len() implies storable(#[trigger] s1[i]) by {
            assert(s1[i] == s[i]);
        }
        lemma_scan_text(s1);
        let t = library_text(s1);
        let f = entry_fields(e);
        lemma_fields_one_line(e);
        lemma_scan_extend(t, f);
        assert(Seq::<char>::empty() + f =~= f);
        assert(library_text(s) =~= (t + f).push('\n'));
        assert((t + f).push('\n').drop_last() =~= t + f);
        lemma_parse_fields(e);
        assert(s1.push(e) =~= s);
    }
}

/// Reading back the stored text of a library whose entries are storable gives
/// the library back.
pub proof fn lemma_library_roundtrip(s: Seq<EntryView>)
    requires forall|i: int| 0 <= i < s.len() ==> storable(#[trigger] s[i]),
    ensures parse_library(library_text(s)) == s,
{
    lemma_scan_text(s);
}

} // verus!
