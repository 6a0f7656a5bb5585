use vstd::prelude::*;
use crate::text::{chars_of, push_chars, push_str, push_decimal, decimal};

verus! {

/// Whether `s` is a stretch of `path` that holds no `/`.
pub open spec fn is_path_piece(path: Seq<char>, s: Seq<char>) -> bool {
    &&& exists|i: int| 0 <= i && i + s.len() <= path.len() && #[trigger] path.subrange(i, i + s.len()) == s
    &&& forall|j: int| 0 <= j < s.len() ==> s[j] != '/'
}

/// Calls `std::path::Path::file_stem` on `path` and converts the stem to a
/// string with `to_string_lossy` (which keeps text that is already valid
/// UTF-8 as it is). The stem is part of the path's final component, so it is
/// a stretch of the path without `/` (a separator on every platform); which
/// other characters separate components depends on the platform, so nothing
/// more is claimed.
#[verifier::external_body]
pub(crate) fn file_stem(path: &str) -> (r: Option<String>)
    ensures r matches Some(s) ==> is_path_piece(path@, s@),
{
    match std::path::Path::new(path).file_stem() {
        Some(s) => Some(s.to_string_lossy().to_string()),
        None => None,
    }
}

/// The file stem of the ROM at `path` (the game's name), if it has one.
pub fn rom_stem(path: &str) -> (r: Option<String>)
    ensures r matches Some(s) ==> is_path_piece(path@, s@),
{
    file_stem(path)
}

/// `s` with every occurrence of `pat`, taken from the left without overlap,
/// replaced by `rep` (an empty `pat` replaces nothing).
pub open spec fn replaced(s: Seq<char>, pat: Seq<char>, rep: Seq<char>) -> Seq<char>
    decreases s.len(),
{
    if s.len() == 0 {
        s
    } else if pat.len() > 0 && pat.len() <= s.len() && s.subrange(0, pat.len() as int) == pat {
        rep + replaced(s.subrange(pat.len() as int, s.len() as int), pat, rep)
    } else {
        seq![s[0]] + replaced(s.drop_first(), pat, rep)
    }
}

/// The save file of the ROM at `path`: `.gbc`, and then `.gb`, replaced by
/// `.sav` wherever they occur.
pub open spec fn save_file(path: Seq<char>) -> Seq<char> {
    replaced(replaced(path, ".gbc"@, ".sav"@), ".gb"@, ".sav"@)
}

/// Whether `pat` occurs in `cs` at `i`.
fn occurs_at(cs: &[char], i: usize, pat: &[char]) -> (r: bool)
    requires i <= cs@.len(),
    ensures r == (i + pat@.len() <= cs@.len() && cs@.subrange(i as int, i + pat@.len()) == pat@),
{
    if pat.len() > cs.len() - i {
        return false;
    }
    let mut k: usize = 0;
    while k < pat.len()
        invariant
            k <= pat@.len(),
            i + pat@.len() <= cs@.len(),
            cs@.len() == cs.len(),
            forall|j: int| 0 <= j < k ==> cs@[i + j] == pat@[j],
        decreases pat@.len() - k,
    {
        if cs[i + k] != pat[k] {
            assert(cs@.subrange(i as int, i + pat@.len())[k as int] != pat@[k as int]);
            return false;
        }
        k = k + 1;
    }
    assert(cs@.subrange(i as int, i + pat@.len()) =~= pat@);
    true
}

/// The characters of `cs` with `pat` replaced by `rep`.
fn replace_chars(cs: &[char], pat: &[char], rep: &[char]) -> (r: Vec<char>)
    ensures r@ == replaced(cs@, pat@, rep@),
{
    let n = cs.len();
    let mut out: Vec<char> = Vec::new();
    let mut i: usize = 0;
    assert(cs@.subrange(0, n as int) =~= cs@);
    assert(Seq::<char>::empty() + cs@ =~= cs@);
    assert(out@ + replaced(cs@, pat@, rep@) =~= replaced(cs@, pat@, rep@));
    while i < n
        invariant
            i <= n == cs@.len(),
            out@ + replaced(cs@.subrange(i as int, n as int), pat@, rep@) == replaced(cs@, pat@, rep@),
        decreases n - i,
    {
        let ghost rest = cs@.subrange(i as int, n as int);
        let ghost before = out@;
        if pat.len() > 0 && occurs_at(cs, i, pat) {
            assert(rest.subrange(0, pat@.len() as int) =~= pat@);
            assert(rest.subrange(pat@.len() as int, rest.len() as int) =~= cs@.subrange(i + pat@.len(), n as int));
            for k in 0..rep.len()
                invariant
                    out@ == before + rep@.subrange(0, k as int),
            {
                out.push(rep[k]);
                assert(out@ =~= before + rep@.subrange(0, k + 1));
            }
            assert(rep@.subrange(0, rep@.len() as int) =~= rep@);
            assert(before + (rep@ + replaced(cs@.subrange(i + pat@.len(), n as int), pat@, rep@))
                =~= out@ + replaced(cs@.subrange(i + pat@.len(), n as int), pat@, rep@));
            i = i + pat.len();
        } else {
            assert(!(pat@.len() > 0 && pat@.len() <= rest.len() && rest.subrange(0, pat@.len() as int) == pat@)) by {
                if pat@.len() > 0 && pat@.len() <= rest.len() && rest.subrange(0, pat@.len() as int) == pat@ {
                    assert(cs@.subrange(i as int, i + pat@.len()) =~= rest.subrange(0, pat@.len() as int));
                }
            }
            assert(rest.drop_first() =~= cs@.subrange(i + 1, n as int));
            out.push(cs[i]);
            assert(before + (seq![cs@[i as int]] + replaced(cs@.subrange(i + 1, n as int), pat@, rep@))
                =~= out@ + replaced(cs@.subrange(i + 1, n as int), pat@, rep@));
            i = i + 1;
        }
    }
    assert(cs@.subrange(n as int, n as int) =~= Seq::<char>::empty());
    assert(out@ + Seq::<char>::empty() =~= out@);
    out
}

/// The save file of the ROM at `rom_path`.
pub fn save_path(rom_path: &str) -> (r: String)
    ensures r@ == save_file(rom_path@),
{
    let cs = chars_of(rom_path);
    let gbc = chars_of(".gbc");
    let gb = chars_of(".gb");
    let sav = chars_of(".sav");
    let once = replace_chars(cs.as_slice(), gbc.as_slice(), sav.as_slice());
    let twice = replace_chars(once.as_slice(), gb.as_slice(), sav.as_slice());
    let mut s = String::new();
    push_chars(&mut s, twice.as_slice(), 0, twice.len());
    assert(twice@.subrange(0, twice@.len() as int) =~= twice@);
    s
}

/// The file name of save-state slot `slot` for a game whose stem is `stem`.
pub fn slot_file_name(stem: &str, slot: u8) -> (r: String)
    ensures r@ == stem@ + ".slot"@ + decimal(slot as nat) + ".state"@,
{
    let mut s = String::new();
    push_str(&mut s, stem);
    push_str(&mut s, ".slot");
    push_decimal(&mut s, slot as u64);
    push_str(&mut s, ".state");
    s
}

/// The file name of save-state slot `slot` of the ROM at `rom_path`, made from
/// the ROM's file stem; `None` when the path has no stem.
pub fn state_file_name(rom_path: &str, slot: u8) -> (r: Option<String>)
    ensures
        r matches Some(n) ==> exists|stem: Seq<char>| is_path_piece(rom_path@, stem)
            && n@ == #[trigger] (stem + ".slot"@ + decimal(slot as nat) + ".state"@),
{
    match file_stem(rom_path) {
        Some(stem) => Some(slot_file_name(stem.as_str(), slot)),
        None => None,
    }
}

} // verus!
