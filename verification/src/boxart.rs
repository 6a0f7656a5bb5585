use vstd::prelude::*;
use crate::text::{chars_of, push_char, push_str};

verus! {

/// The characters a file name may not hold.
pub open spec fn is_unsafe_char(c: char) -> bool {
    c == '/' || c == '\\' || c == ':' || c == '*' || c == '?' || c == '"' || c == '<' || c == '>' || c == '|'
}

/// `name` with every character a file name may not hold replaced by `_`.
pub open spec fn sanitized(name: Seq<char>) -> Seq<char> {
    name.map_values(|c: char| if is_unsafe_char(c) { '_' } else { c })
}

/// The URL escape of one character: space, parentheses, comma and apostrophe
/// are percent-encoded, everything else stays.
pub open spec fn url_escape(c: char) -> Seq<char> {
    if c == ' ' { seq!['%', '2', '0'] }
    else if c == '(' { seq!['%', '2', '8'] }
    else if c == ')' { seq!['%', '2', '9'] }
    else if c == ',' { seq!['%', '2', 'C'] }
    else if c == '\'' { seq!['%', '2', '7'] }
    else { seq![c] }
}

/// `s` URL-encoded character by character.
pub open spec fn url_encoded(s: Seq<char>) -> Seq<char>
    decreases s.len(),
{
    if s.len() == 0 { Seq::empty() } else { url_encoded(s.drop_last()) + url_escape(s.last()) }
}

/// The name the libretro thumbnail server files a game under: `&` becomes
/// `_`, then the name is URL-encoded.
pub open spec fn libretro_spelling(game: Seq<char>) -> Seq<char> {
    url_encoded(game.map_values(|c: char| if c == '&' { '_' } else { c }))
}

/// Make a filename safe by replacing the characters a file system may refuse.
pub fn sanitize_filename(name: &str) -> (r: String)
    ensures r@ == sanitized(name@),
{
    let cs = chars_of(name);
    let mut out = String::new();
    let mut i: usize = 0;
    while i < cs.len()
        invariant
            i <= cs@.len(),
            cs@ == name@,
            out@ == sanitized(cs@.subrange(0, i as int)),
        decreases cs@.len() - i,
    {
        let c = cs[i];
        let safe = if c == '/' || c == '\\' || c == ':' || c == '*' || c == '?' || c == '"' || c == '<' || c == '>' || c == '|' { '_' } else { c };
        push_char(&mut out, safe);
        assert(sanitized(cs@.subrange(0, i + 1)) =~= sanitized(cs@.subrange(0, i as int)).push(safe));
        i = i + 1;
    }
    assert(cs@.subrange(0, cs@.len() as int) =~= cs@);
    out
}

/// URL-encode a string (minimal: spaces, parentheses, commas, apostrophes).
pub fn urlencoded(s: &str) -> (r: String)
    ensures r@ == url_encoded(s@),
{
    let cs = chars_of(s);
    let mut out = String::new();
    let mut i: usize = 0;
    while i < cs.len()
        invariant
            i <= cs@.len(),
            cs@ == s@,
            out@ == url_encoded(cs@.subrange(0, i as int)),
        decreases cs@.len() - i,
    {
        let c = cs[i];
        let ghost before = out@;
        if c == ' ' {
            push_char(&mut out, '%'); push_char(&mut out, '2'); push_char(&mut out, '0');
        } else if c == '(' {
            push_char(&mut out, '%'); push_char(&mut out, '2'); push_char(&mut out, '8');
        } else if c == ')' {
            push_char(&mut out, '%'); push_char(&mut out, '2'); push_char(&mut out, '9');
        } else if c == ',' {
            push_char(&mut out, '%'); push_char(&mut out, '2'); push_char(&mut out, 'C');
        } else if c == '\'' {
            push_char(&mut out, '%'); push_char(&mut out, '2'); push_char(&mut out, '7');
        } else {
            push_char(&mut out, c);
        }
        assert(cs@.subrange(0, i + 1).drop_last() =~= cs@.subrange(0, i as int));
        assert(cs@.subrange(0, i + 1).last() == c);
        assert(out@ =~= before + url_escape(c));
        i = i + 1;
    }
    assert(cs@.subrange(0, cs@.len() as int) =~= cs@);
    out
}

/// The game name as the libretro thumbnail server files it.
pub fn libretro_name(game_name: &str) -> (r: String)
    ensures r@ == libretro_spelling(game_name@),
{
    let cs = chars_of(game_name);
    let mut replaced = String::new();
    let mut i: usize = 0;
    while i < cs.len()
        invariant
            i <= cs@.len(),
            cs@ == game_name@,
            replaced@ == cs@.subrange(0, i as int).map_values(|c: char| if c == '&' { '_' } else { c }),
        decreases cs@.len() - i,
    {
        let c = cs[i];
        push_char(&mut replaced, if c == '&' { '_' } else { c });
        assert(cs@.subrange(0, i + 1).map_values(|c: char| if c == '&' { '_' } else { c })
            =~= cs@.subrange(0, i as int).map_values(|c: char| if c == '&' { '_' } else { c }).push(if c == '&' { '_' } else { c }));
        i = i + 1;
    }
    assert(cs@.subrange(0, cs@.len() as int) =~= cs@);
    urlencoded(replaced.as_str())
}

/// The box art URLs to try for a game, in order: the Game Boy Color set,
/// then the Game Boy set, both under the game's libretro name with `.png`.
pub fn libretro_urls(game_name: &str) -> (r: (String, String))
    ensures
        r.0@ == "https://thumbnails.libretro.com/Nintendo%20-%20Game%20Boy%20Color/Named_Boxarts/"@
            + libretro_spelling(game_name@) + ".png"@,
        r.1@ == "https://thumbnails.libretro.com/Nintendo%20-%20Game%20Boy/Named_Boxarts/"@
            + libretro_spelling(game_name@) + ".png"@,
{
    let name = libretro_name(game_name);
    let mut color = String::new();
    push_str(&mut color, "https://thumbnails.libretro.com/Nintendo%20-%20Game%20Boy%20Color/Named_Boxarts/");
    push_str(&mut color, name.as_str());
    push_str(&mut color, ".png");
    let mut mono = String::new();
    push_str(&mut mono, "https://thumbnails.libretro.com/Nintendo%20-%20Game%20Boy/Named_Boxarts/");
    push_str(&mut mono, name.as_str());
    push_str(&mut mono, ".png");
    (color, mono)
}

/// The cache file name of a game's box art: the sanitized name with `.png`.
pub fn art_file_name(game_name: &str) -> (r: String)
    ensures r@ == sanitized(game_name@) + ".png"@,
{
    let mut r = sanitize_filename(game_name);
    push_str(&mut r, ".png");
    r
}

/// Whether `s` starts with `prefix`.
pub open spec fn starts_with(s: Seq<char>, prefix: Seq<char>) -> bool {
    prefix.len() <= s.len() && s.subrange(0, prefix.len() as int) == prefix
}

/// Whether `cs` starts with `prefix`.
fn has_prefix(cs: &[char], prefix: &[char]) -> (r: bool)
    ensures r == starts_with(cs@, prefix@),
{
    if prefix.len() > cs.len() {
        return false;
    }
    let mut i: usize = 0;
    while i < prefix.len()
        invariant
            i <= prefix@.len() <= cs@.len(),
            forall|k: int| 0 <= k < i ==> cs@[k] == prefix@[k],
        decreases prefix@.len() - i,
    {
        if cs[i] != prefix[i] {
            assert(cs@.subrange(0, prefix@.len() as int)[i as int] != prefix@[i as int]);
            return false;
        }
        i = i + 1;
    }
    assert(cs@.subrange(0, prefix@.len() as int) =~= prefix@);
    true
}

/// Whether an art source names a web address (fetched) rather than a local
/// file (copied): it starts with `http://` or `https://`.
pub fn is_remote(source: &str) -> (r: bool)
    ensures r == (starts_with(source@, "http://"@) || starts_with(source@, "https://"@)),
{
    let cs = chars_of(source);
    let http = chars_of("http://");
    let https = chars_of("https://");
    has_prefix(cs.as_slice(), http.as_slice()) || has_prefix(cs.as_slice(), https.as_slice())
}

/// A decoded box-art image: `width` by `height` RGBA pixels, row by row, four
/// bytes each.
pub struct ArtImage {
    pub width: u32,
    pub height: u32,
    pub pixels: Vec<u8>,
}

/// Calls `image::load_from_memory` on `data` and converts a decoded image with
/// `to_rgba8`, handing back its dimensions and raw RGBA buffer; a decoding
/// error gives `None`. An `image::ImageBuffer` always holds at least
/// `width * height` pixels of four bytes, which is all that is claimed. Which
/// formats are recognised depends on format hooks that a process may register,
/// so the decoded result is not named as a function of the bytes.
#[verifier::external_body]
fn decode_rgba(data: &[u8]) -> (r: Option<(u32, u32, Vec<u8>)>)
    ensures r matches Some((w, h, px)) ==> px@.len() >= w * h * 4,
{
    match image::load_from_memory(data) {
        Ok(img) => {
            let rgba = img.to_rgba8();
            let (w, h) = rgba.dimensions();
            Some((w, h, rgba.into_raw()))
        }
        Err(_) => None,
    }
}

/// The box-art image held by a decoded RGBA buffer: the first
/// `width * height * 4` bytes of `pixels`, or `None` when the buffer is
/// shorter than that.
pub fn art_from_rgba(width: u32, height: u32, pixels: Vec<u8>) -> (r: Option<ArtImage>)
    ensures
        match r {
            Some(img) => {
                &&& pixels@.len() >= width * height * 4
                &&& img.width == width
                &&& img.height == height
                &&& img.pixels@ == pixels@.subrange(0, width * height * 4)
            },
            None => pixels@.len() < width * height * 4,
        },
{
    proof {
        let w = width as int;
        let h = height as int;
        assert(w * h <= 0xFFFF_FFFF * 0xFFFF_FFFF) by (nonlinear_arith)
            requires 0 <= w <= 0xFFFF_FFFF, 0 <= h <= 0xFFFF_FFFF;
    }
    let n: u64 = width as u64 * height as u64;
    if n > (pixels.len() / 4) as u64 {
        return None;
    }
    let len: usize = (n * 4) as usize;
    let mut out: Vec<u8> = Vec::new();
    let mut i: usize = 0;
    while i < len
        invariant
            len <= pixels@.len(),
            i <= len,
            out@ == pixels@.subrange(0, i as int),
        decreases len - i,
    {
        out.push(pixels[i]);
        i = i + 1;
    }
    Some(ArtImage { width, height, pixels: out })
}

/// Decode the bytes of an art file into an RGBA image. Whatever the decoder
/// gives back, an image that comes out holds exactly `width * height` pixels of
/// four bytes; `None` when the bytes do not decode.
pub fn decode_art(data: &[u8]) -> (r: Option<ArtImage>)
    ensures r matches Some(img) ==> img.pixels@.len() == img.width * img.height * 4,
{
    match decode_rgba(data) {
        Some((w, h, px)) => art_from_rgba(w, h, px),
        None => None,
    }
}

} // verus!
