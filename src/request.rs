use vstd::prelude::*;
use crate::strings::push_text;
use vstd::string::StringSliceAdditionalSpecFns;

verus! {

/// The search term used when none is given.
pub const DEFAULT_QUERY: &'static str = "Impressionism";

/// Where the collection's search is asked, before the encoded query.
pub const SEARCH_ENDPOINT: &'static str = "https://collectionapi.metmuseum.org/public/collection/v1/search?q=";

/// Whether a byte stands for itself in form encoding: ASCII letters and
/// digits, `*`, `-`, `.` and `_`.
pub open spec fn kept_in_form(b: u8) -> bool {
    b == 0x2a || b == 0x2d || b == 0x2e || (0x30 <= b <= 0x39) || (0x41 <= b <= 0x5a) || b == 0x5f
        || (0x61 <= b <= 0x7a)
}

/// The upper-case hexadecimal digit of `d`, which is below 16.
pub open spec fn hex_digit(d: u8) -> char {
    if d < 10 {
        ((0x30 + d) as u8) as char
    } else {
        ((0x41 + d - 10) as u8) as char
    }
}

/// What form encoding makes of one byte: itself, `+` for a space, and
/// `%XX` for any other.
pub open spec fn form_encoded_byte(b: u8) -> Seq<char> {
    if kept_in_form(b) {
        seq![b as char]
    } else if b == 0x20 {
        seq!['+']
    } else {
        seq!['%', hex_digit(b / 16), hex_digit(b % 16)]
    }
}

/// The `application/x-www-form-urlencoded` serialisation of a byte string:
/// each byte encoded on its own, in order.
pub open spec fn form_encoded(bytes: Seq<u8>) -> Seq<char>
    decreases bytes.len(),
{
    if bytes.len() == 0 {
        Seq::empty()
    } else {
        form_encoded(bytes.drop_last()) + form_encoded_byte(bytes.last())
    }
}

/// Relies on `url::form_urlencoded::byte_serialize`: each byte encoded as
/// `form_encoded` states, the pieces joined in order.
#[verifier::external_body]
fn form_urlencode(bytes: &[u8]) -> (r: String)
    ensures
        r@ == form_encoded(bytes@),
{
    url::form_urlencoded::byte_serialize(bytes).collect::<String>()
}

/// The address that searches the collection for `query`, given as its
/// UTF-8 bytes in form encoding.
pub fn search_url(query: &str) -> (r: String)
    ensures
        r@ == SEARCH_ENDPOINT@ + form_encoded(query.spec_bytes()),
{
    let mut r = SEARCH_ENDPOINT.to_owned();
    let encoded = form_urlencode(query.as_bytes());
    push_text(&mut r, encoded.as_str());
    r
}

/// What the command line asks for: a search term, and a font to caption the
/// wallpaper with, if any.
#[derive(Clone, Debug)]
pub struct CliArgs {
    pub query: String,
    pub font_path: Option<String>,
}

/// Reads the command line, program name first: `[query [font]]`. With no
/// query the default term is searched; with no font no caption is drawn.
/// Any other number of arguments is a usage error, `None`.
pub fn parse_args(args: &Vec<String>) -> (r: Option<CliArgs>)
    ensures
        r is Some <==> 1 <= args@.len() <= 3,
        r matches Some(a) ==> {
            &&& a.query@ == if args@.len() == 1 {
                DEFAULT_QUERY@
            } else {
                args@[1]@
            }
            &&& a.font_path is Some <==> args@.len() == 3
            &&& a.font_path matches Some(f) ==> f@ == args@[2]@
        },
{
    let n = args.len();
    if n == 1 {
        Some(CliArgs { query: DEFAULT_QUERY.to_owned(), font_path: None })
    } else if n == 2 {
        Some(CliArgs { query: args[1].clone(), font_path: None })
    } else if n == 3 {
        Some(CliArgs { query: args[1].clone(), font_path: Some(args[2].clone()) })
    } else {
        None
    }
}

/// The start of the script that sets the desktop picture, before the path.
pub const WALLPAPER_SCRIPT_HEAD: &'static str = "tell application \"System Events\" to tell every desktop to set picture to \"";

/// The end of that script, after the path.
pub const WALLPAPER_SCRIPT_TAIL: &'static str = "\"";

/// The script that sets every desktop's picture to the file at `path`.
pub fn wallpaper_script(path: &str) -> (r: String)
    ensures
        r@ == WALLPAPER_SCRIPT_HEAD@ + path@ + WALLPAPER_SCRIPT_TAIL@,
{
    let mut r = WALLPAPER_SCRIPT_HEAD.to_owned();
    push_text(&mut r, path);
    push_text(&mut r, WALLPAPER_SCRIPT_TAIL);
    r
}

} // verus!
