use vstd::prelude::*;
use crate::text::{chars_of, string_of};

verus! {

/// Whether `c` is white space in the sense of `char::is_whitespace`: the
/// characters with the Unicode `White_Space` property.
pub open spec fn is_white(c: char) -> bool {
    let u = c as u32;
    ||| 0x09 <= u <= 0x0D
    ||| u == 0x20
    ||| u == 0x85
    ||| u == 0xA0
    ||| u == 0x1680
    ||| 0x2000 <= u <= 0x200A
    ||| u == 0x2028
    ||| u == 0x2029
    ||| u == 0x202F
    ||| u == 0x205F
    ||| u == 0x3000
}

/// Calls `char::is_whitespace` on `c`, which its documentation defines as the
/// Unicode `White_Space` property; `is_white` lists those characters.
#[verifier::external_body]
fn char_is_white(c: char) -> (r: bool)
    ensures r == is_white(c),
{
    c.is_whitespace()
}

/// `s` without its leading white space.
pub open spec fn trim_front(s: Seq<char>) -> Seq<char>
    decreases s.len(),
{
    if s.len() > 0 && is_white(s[0]) { trim_front(s.drop_first()) } else { s }
}

/// `s` without its trailing white space.
pub open spec fn trim_back(s: Seq<char>) -> Seq<char>
    decreases s.len(),
{
    if s.len() > 0 && is_white(s.last()) { trim_back(s.drop_last()) } else { s }
}

/// `s` without white space at either end.
pub open spec fn trimmed(s: Seq<char>) -> Seq<char> {
    trim_back(trim_front(s))
}

/// Whether `k` is the position of the first `=` of `l`.
pub open spec fn is_first_eq(l: Seq<char>, k: int) -> bool {
    0 <= k < l.len() && l[k] == '=' && forall|j: int| 0 <= j < k ==> l[j] != '='
}

/// The key and the value of a configuration line: the text before and after
/// its first `=` (the whole line and nothing when it has none).
pub open spec fn split_setting(l: Seq<char>) -> (Seq<char>, Seq<char>) {
    if exists|k: int| is_first_eq(l, k) {
        let k = choose|k: int| is_first_eq(l, k);
        (l.subrange(0, k), l.subrange(k + 1, l.len() as int))
    } else {
        (l, Seq::empty())
    }
}

/// The settings a configuration file gives. The floating-point settings are
/// kept as the texts the file gives for them, in order (the volume and the
/// window size) or the last one (the window position); the program reads
/// the numbers out of them.
pub struct Settings {
    pub volume: Vec<String>,
    pub muted: bool,
    pub window_width: Vec<String>,
    pub window_height: Vec<String>,
    pub window_x: Option<String>,
    pub window_y: Option<String>,
    pub dark_mode: bool,
    pub key_right: String,
    pub key_left: String,
    pub key_up: String,
    pub key_down: String,
    pub key_a: String,
    pub key_b: String,
    pub key_start: String,
    pub key_select: String,
}

/// The abstract settings.
pub struct SettingsView {
    pub volume: Seq<Seq<char>>,
    pub muted: bool,
    pub window_width: Seq<Seq<char>>,
    pub window_height: Seq<Seq<char>>,
    pub window_x: Option<Seq<char>>,
    pub window_y: Option<Seq<char>>,
    pub dark_mode: bool,
    pub key_right: Seq<char>,
    pub key_left: Seq<char>,
    pub key_up: Seq<char>,
    pub key_down: Seq<char>,
    pub key_a: Seq<char>,
    pub key_b: Seq<char>,
    pub key_start: Seq<char>,
    pub key_select: Seq<char>,
}

/// The views of a list of strings.
pub open spec fn texts(v: Seq<String>) -> Seq<Seq<char>> {
    v.map_values(|s: String| s@)
}

impl View for Settings {
    type V = SettingsView;

    open spec fn view(&self) -> SettingsView {
        SettingsView {
            volume: texts(self.volume@),
            muted: self.muted,
            window_width: texts(self.window_width@),
            window_height: texts(self.window_height@),
            window_x: match self.window_x { Some(s) => Some(s@), None => None },
            window_y: match self.window_y { Some(s) => Some(s@), None => None },
            dark_mode: self.dark_mode,
            key_right: self.key_right@,
            key_left: self.key_left@,
            key_up: self.key_up@,
            key_down: self.key_down@,
            key_a: self.key_a@,
            key_b: self.key_b@,
            key_start: self.key_start@,
            key_select: self.key_select@,
        }
    }
}

/// The default settings: not muted, dark mode, the arrow keys, Z and X for A
/// and B, Enter for Start and Backspace for Select; no texts for the
/// floating-point settings.
pub open spec fn default_settings() -> SettingsView {
    SettingsView {
        volume: Seq::empty(),
        muted: false,
        window_width: Seq::empty(),
        window_height: Seq::empty(),
        window_x: None,
        window_y: None,
        dark_mode: true,
        key_right: "ArrowRight"@,
        key_left: "ArrowLeft"@,
        key_up: "ArrowUp"@,
        key_down: "ArrowDown"@,
        key_a: "Z"@,
        key_b: "X"@,
        key_start: "Enter"@,
        key_select: "Backspace"@,
    }
}

/// The settings after one line of the file: its trimmed key names the
/// setting that its trimmed value sets; a flag is set when the value is
/// `true`; lines with other keys change nothing.
pub open spec fn apply_setting(c: SettingsView, line: Seq<char>) -> SettingsView {
    let key = trimmed(split_setting(line).0);
    let val = trimmed(split_setting(line).1);
    if key == "volume"@ { SettingsView { volume: c.volume.push(val), ..c } }
    else if key == "muted"@ { SettingsView { muted: val == "true"@, ..c } }
    else if key == "window_width"@ { SettingsView { window_width: c.window_width.push(val), ..c } }
    else if key == "window_height"@ { SettingsView { window_height: c.window_height.push(val), ..c } }
    else if key == "window_x"@ { SettingsView { window_x: Some(val), ..c } }
    else if key == "window_y"@ { SettingsView { window_y: Some(val), ..c } }
    else if key == "dark_mode"@ { SettingsView { dark_mode: val == "true"@, ..c } }
    else if key == "key_right"@ { SettingsView { key_right: val, ..c } }
    else if key == "key_left"@ { SettingsView { key_left: val, ..c } }
    else if key == "key_up"@ { SettingsView { key_up: val, ..c } }
    else if key == "key_down"@ { SettingsView { key_down: val, ..c } }
    else if key == "key_a"@ { SettingsView { key_a: val, ..c } }
    else if key == "key_b"@ { SettingsView { key_b: val, ..c } }
    else if key == "key_start"@ { SettingsView { key_start: val, ..c } }
    else if key == "key_select"@ { SettingsView { key_select: val, ..c } }
    else { c }
}

/// Reading `cs` line by line from the defaults: the settings after the
/// finished lines (each ended by `\n`) and the unfinished last line.
pub open spec fn scan_settings(cs: Seq<char>) -> (SettingsView, Seq<char>)
    decreases cs.len(),
{
    if cs.len() == 0 {
        (default_settings(), Seq::empty())
    } else {
        let (c, cur) = scan_settings(cs.drop_last());
        if cs.last() == '\n' { (apply_setting(c, cur), Seq::empty()) } else { (c, cur.push(cs.last())) }
    }
}

/// The settings the text `cs` gives: every line applied in order to the
/// defaults. (A `\r` before a line's `\n` is white space and trims away.)
pub open spec fn parse_settings(cs: Seq<char>) -> SettingsView {
    let (c, cur) = scan_settings(cs);
    apply_setting(c, cur)
}

/// The position after the leading white space of `cs[from..to]`.
fn skip_white_front(cs: &[char], from: usize, to: usize) -> (r: usize)
    requires from <= to <= cs@.len(),
    ensures
        from <= r <= to,
        trim_front(cs@.subrange(from as int, to as int)) == cs@.subrange(r as int, to as int),
{
    let mut i = from;
    while i < to && char_is_white(cs[i])
        invariant
            from <= i <= to <= cs@.len(),
            trim_front(cs@.subrange(from as int, to as int)) == trim_front(cs@.subrange(i as int, to as int)),
        decreases to - i,
    {
        assert(cs@.subrange(i as int, to as int).drop_first() =~= cs@.subrange(i + 1, to as int));
        i = i + 1;
    }
    i
}

/// The end of `cs[from..to]` before its trailing white space.
fn skip_white_back(cs: &[char], from: usize, to: usize) -> (r: usize)
    requires from <= to <= cs@.len(),
    ensures
        from <= r <= to,
        trim_back(cs@.subrange(from as int, to as int)) == cs@.subrange(from as int, r as int),
{
    let mut j = to;
    while j > from && char_is_white(cs[j - 1])
        invariant
            from <= j <= to <= cs@.len(),
            trim_back(cs@.subrange(from as int, to as int)) == trim_back(cs@.subrange(from as int, j as int)),
        decreases j - from,
    {
        assert(cs@.subrange(from as int, j as int).drop_last() =~= cs@.subrange(from as int, j - 1));
        j = j - 1;
    }
    j
}

/// The trimmed text `cs[from..to]`.
fn trimmed_of(cs: &[char], from: usize, to: usize) -> (r: String)
    requires from <= to <= cs@.len(),
    ensures r@ == trimmed(cs@.subrange(from as int, to as int)),
{
    let a = skip_white_front(cs, from, to);
    let b = skip_white_back(cs, a, to);
    string_of(cs, a, b)
}

impl Settings {
    /// The default settings.
    pub fn new() -> (r: Self)
        ensures r@ == default_settings(),
    {
        let r = Settings {
            volume: Vec::new(),
            muted: false,
            window_width: Vec::new(),
            window_height: Vec::new(),
            window_x: None,
            window_y: None,
            dark_mode: true,
            key_right: "ArrowRight".to_owned(),
            key_left: "ArrowLeft".to_owned(),
            key_up: "ArrowUp".to_owned(),
            key_down: "ArrowDown".to_owned(),
            key_a: "Z".to_owned(),
            key_b: "X".to_owned(),
            key_start: "Enter".to_owned(),
            key_select: "Backspace".to_owned(),
        };
        assert(texts(r.volume@) =~= Seq::empty());
        assert(texts(r.window_width@) =~= Seq::empty());
        assert(texts(r.window_height@) =~= Seq::empty());
        r
    }

    /// Apply the line `cs[from..to]` of a configuration file.
    #[verifier::rlimit(60)]
    fn apply_line(&mut self, cs: &[char], from: usize, to: usize)
        requires from <= to <= cs@.len(),
        ensures final(self)@ == apply_setting(old(self)@, cs@.subrange(from as int, to as int)),
    {
        let ghost l = cs@.subrange(from as int, to as int);
        let mut k = from;
        while k < to && cs[k] != '='
            invariant
                from <= k <= to <= cs@.len(),
                forall|j: int| from <= j < k ==> cs@[j] != '=',
            decreases to - k,
        {
            k = k + 1;
        }
        let (key, val) = if k < to {
            proof {
                assert(is_first_eq(l, k - from));
                let kk = choose|kk: int| is_first_eq(l, kk);
                assert(kk == k - from) by {
                    if kk < k - from { assert(l[kk] == cs@[from + kk]); }
                    if kk > k - from { assert(l[k - from] == cs@[k as int]); }
                }
                assert(l.subrange(0, k - from) =~= cs@.subrange(from as int, k as int));
                assert(l.subrange(k - from + 1, l.len() as int) =~= cs@.subrange(k + 1, to as int));
            }
            (trimmed_of(cs, from, k), trimmed_of(cs, k + 1, to))
        } else {
            proof {
                assert forall|kk: int| !is_first_eq(l, kk) by {
                    if 0 <= kk < l.len() { assert(l[kk] == cs@[from + kk]); }
                }
                assert(trim_front(Seq::<char>::empty()) == Seq::<char>::empty());
                assert(trim_back(Seq::<char>::empty()) == Seq::<char>::empty());
                assert(l =~= cs@.subrange(from as int, to as int));
            }
            (trimmed_of(cs, from, to), String::new())
        };
        assert(key@ == trimmed(split_setting(l).0));
        assert(val@ == trimmed(split_setting(l).1));
        let ghost c = self@;
        let is_true = val == "true".to_owned();
        if key == "volume".to_owned() {
            self.volume.push(val);
            assert(texts(self.volume@) =~= c.volume.push(trimmed(split_setting(l).1)));
        } else if key == "muted".to_owned() {
            self.muted = is_true;
        } else if key == "window_width".to_owned() {
            self.window_width.push(val);
            assert(texts(self.window_width@) =~= c.window_width.push(trimmed(split_setting(l).1)));
        } else if key == "window_height".to_owned() {
            self.window_height.push(val);
            assert(texts(self.window_height@) =~= c.window_height.push(trimmed(split_setting(l).1)));
        } else if key == "window_x".to_owned() {
            self.window_x = Some(val);
        } else if key == "window_y".to_owned() {
            self.window_y = Some(val);
        } else if key == "dark_mode".to_owned() {
            self.dark_mode = is_true;
        } else if key == "key_right".to_owned() {
            self.key_right = val;
        } else if key == "key_left".to_owned() {
            self.key_left = val;
        } else if key == "key_up".to_owned() {
            self.key_up = val;
        } else if key == "key_down".to_owned() {
            self.key_down = val;
        } else if key == "key_a".to_owned() {
            self.key_a = val;
        } else if key == "key_b".to_owned() {
            self.key_b = val;
        } else if key == "key_start".to_owned() {
            self.key_start = val;
        } else if key == "key_select".to_owned() {
            self.key_select = val;
        }
    }

    /// Parse a configuration file of `key=value` lines, starting from the
    /// defaults.
    pub fn parse(text: &str) -> (r: Settings)
        ensures r@ == parse_settings(text@),
    {
        let cs = chars_of(text);
        let mut s = Settings::new();
        let mut start: usize = 0;
        let mut i: usize = 0;
        while i < cs.len()
            invariant
                start <= i <= cs@.len(),
                scan_settings(cs@.subrange(0, i as int)) == (s@, cs@.subrange(start as int, i as int)),
            decreases cs@.len() - i,
        {
            let ghost cur = cs@.subrange(start as int, i as int);
            assert(cs@.subrange(0, i + 1).drop_last() =~= cs@.subrange(0, i as int));
            assert(cs@.subrange(0, i + 1).last() == cs@[i as int]);
            if cs[i] == '\n' {
                s.apply_line(cs.as_slice(), start, i);
                start = i + 1;
                assert(cs@.subrange(start as int, i + 1) =~= Seq::<char>::empty());
            } else {
                assert(cs@.subrange(start as int, i + 1) =~= cur.push(cs@[i as int]));
            }
            i = i + 1;
        }
        assert(cs@.subrange(0, cs@.len() as int) =~= text@);
        s.apply_line(cs.as_slice(), start, cs.len());
        s
    }
}

} // verus!
