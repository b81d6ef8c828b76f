use vstd::prelude::*;
use vstd::string::*;

verus! {

/// What `mime_guess` lists first for an extension, if anything.
pub uninterp spec fn mime_table_first(ext: Seq<char>) -> Option<Seq<char>>;

/// The text of the media type that `mime` parses out of a string, if it parses.
pub uninterp spec fn parsed_mime(s: Seq<char>) -> Option<Seq<char>>;

/// The generic binary type that stands in for an unknown extension.
pub open spec fn octet_stream() -> Seq<char> {
    seq!['a', 'p', 'p', 'l', 'i', 'c', 'a', 't', 'i', 'o', 'n', '/', 'o', 'c', 't', 'e', 't',
        '-', 's', 't', 'r', 'e', 'a', 'm']
}

/// The media type an extension resolves to: the table's entry, or the
/// binary fallback when the table has none.
pub open spec fn resolved_type(ext: Seq<char>) -> Seq<char> {
    match mime_table_first(ext) {
        Some(m) => m,
        None => octet_stream(),
    }
}

/// Relies on `mime_guess::from_ext(..).first_raw()`: the first type the
/// extension table lists for `ext` (looked up case-insensitively); an empty
/// extension yields an empty guess.
#[verifier::external_body]
fn table_first(ext: &str) -> (r: Option<String>)
    ensures
        r matches Some(m) ==> mime_table_first(ext@) == Some(m@),
        r is None ==> mime_table_first(ext@) is None,
        ext@.len() == 0 ==> r is None,
{
    mime_guess::from_ext(ext).first_raw().map(|m| m.to_string())
}

/// Relies on `<mime::Mime as FromStr>::from_str` and `Display`: the text of
/// the parsed type, or nothing when the string is not a media type.
#[verifier::external_body]
fn parse_mime(s: &str) -> (r: Option<String>)
    ensures
        r matches Some(m) ==> parsed_mime(s@) == Some(m@),
        r is None ==> parsed_mime(s@) is None,
{
    s.parse::<mime::Mime>().ok().map(|m| m.to_string())
}

/// A media type, held as its text (for instance `text/csv`).
#[derive(Debug)]
pub struct MediaType {
    pub text: String,
}

impl View for MediaType {
    type V = Seq<char>;

    open spec fn view(&self) -> Seq<char> {
        self.text@
    }
}

impl MediaType {
    /// Parses a media type; `None` when `s` is not one.
    pub fn parse(s: &str) -> (r: Option<MediaType>)
        ensures
            r matches Some(m) ==> parsed_mime(s@) == Some(m@),
            r is None ==> parsed_mime(s@) is None,
    {
        match parse_mime(s) {
            Some(text) => Some(MediaType { text }),
            None => None,
        }
    }

    /// The best-guess media type for a file extension; the binary fallback
    /// for an extension the table does not know, the empty one included.
    pub fn from_extension(ext: &str) -> (r: MediaType)
        ensures
            r@ == resolved_type(ext@),
            mime_table_first(ext@) matches Some(m) ==> r@ == m,
            mime_table_first(ext@) is None ==> r@ == octet_stream(),
            ext@.len() == 0 ==> r@ == octet_stream(),
    {
        match table_first(ext) {
            Some(text) => MediaType { text },
            None => {
                let text = String::from_str("application/octet-stream");
                proof {
                    reveal_strlit("application/octet-stream");
                    assert(text@ =~= octet_stream());
                }
                MediaType { text }
            },
        }
    }

    /// The media type's text.
    pub fn as_str(&self) -> (r: &str)
        ensures
            r@ == self@,
    {
        self.text.as_str()
    }
}

} // verus!
