use vstd::prelude::*;
use crate::text::{chars_of, push_char};

verus! {

/// The key egui's `Key::from_name` gives for the name `name`, as the key's
/// discriminant, or `None` for a name it does not know.
pub uninterp spec fn egui_key_code(name: Seq<char>) -> Option<u32>;

/// Calls `eframe::egui::Key::from_name` on `name` and hands back the key it
/// finds as its discriminant. The result is a fixed table of names in egui's
/// source, so it is named as a function of the name alone.
#[verifier::external_body]
fn key_code(name: &str) -> (r: Option<u32>)
    ensures r == egui_key_code(name@),
{
    match eframe::egui::Key::from_name(name) {
        Some(k) => Some(k as u32),
        None => None,
    }
}

/// `c` in upper case when it is an ASCII lower-case letter.
pub open spec fn ascii_upper(c: char) -> char {
    if 'a' <= c && c <= 'z' { ((c as u32) - 32) as char } else { c }
}

/// The name under which a configured key is looked up: a name of one byte
/// (a single ASCII character) in upper case, any other name as it is. The
/// names of the arrow keys, Enter, Backspace, Space and Tab are looked up as
/// they stand.
pub open spec fn lookup_name(name: Seq<char>) -> Seq<char> {
    if name.len() == 1 && (name[0] as u32) < 128 { seq![ascii_upper(name[0])] } else { name }
}

/// The key a configuration names, as egui's key discriminant: the key egui
/// knows under `lookup_name(name)`, if any.
pub fn parse_key(name: &str) -> (r: Option<u32>)
    ensures r == egui_key_code(lookup_name(name@)),
{
    let cs = chars_of(name);
    if cs.len() == 1 && (cs[0] as u32) < 128 {
        let c = cs[0];
        let up: char = if 'a' <= c && c <= 'z' { ((c as u8) - 32) as char } else { c };
        proof {
            if 'a' <= c && c <= 'z' {
                assert(((c as u8) - 32) as char == ((c as u32) - 32) as char);
            }
        }
        let mut s = String::new();
        push_char(&mut s, up);
        assert(s@ =~= lookup_name(name@));
        key_code(s.as_str())
    } else {
        key_code(name)
    }
}

} // verus!
