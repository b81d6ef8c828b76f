use vstd::prelude::*;
use vstd::string::*;

verus! {

/// What `url_escape` makes of a string when it percent-encodes it as a URI
/// component.
pub uninterp spec fn component_encoded(s: Seq<char>) -> Seq<char>;

/// The characters a component encoding may leave in its output: ASCII
/// letters and digits, `- . _ ~ ! * ' ( )`, and `%`, which opens an escape.
pub open spec fn is_component_output_char(c: char) -> bool {
    ('A' <= c && c <= 'Z') || ('a' <= c && c <= 'z') || ('0' <= c && c <= '9') || c == '-' || c
        == '.' || c == '_' || c == '~' || c == '!' || c == '*' || c == '\'' || c == '(' || c
        == ')' || c == '%'
}

/// Characters that must never stand raw in an encoded filename.
pub open spec fn is_header_unsafe_char(c: char) -> bool {
    c == ' ' || c == '"' || c == '<' || c == '>' || c == '`' || c == '#' || c == '?' || c == '{'
        || c == '}'
}

/// Relies on `url_escape::encode_component_to_string`: it appends the
/// percent-encoding of `text` to `output`, escaping every byte outside
/// ASCII letters, digits and `- . _ ~ ! * ' ( )` (so `%` as well).
#[verifier::external_body]
fn encode_component_onto(text: &str, output: &mut String)
    ensures
        final(output)@ == old(output)@ + component_encoded(text@),
        forall|i: int|
            old(output)@.len() <= i < final(output)@.len() ==> is_component_output_char(
                #[trigger] final(output)@[i],
            ),
{
    url_escape::encode_component_to_string(text, output);
}

/// `attachment; filename*=UTF-8''`, the head of a disposition that names a file.
pub open spec fn named_attachment_prefix() -> Seq<char> {
    seq!['a', 't', 't', 'a', 'c', 'h', 'm', 'e', 'n', 't', ';', ' ', 'f', 'i', 'l', 'e', 'n', 'a',
        'm', 'e', '*', '=', 'U', 'T', 'F', '-', '8', '\'', '\'']
}

/// `attachment`, a disposition without a filename.
pub open spec fn bare_attachment() -> Seq<char> {
    seq!['a', 't', 't', 'a', 'c', 'h', 'm', 'e', 'n', 't']
}

/// The disposition for a name: bare when the name is empty, otherwise the
/// name encoded after the RFC 5987 prefix.
pub open spec fn disposition_for(name: Seq<char>) -> Seq<char> {
    if name.len() == 0 {
        bare_attachment()
    } else {
        named_attachment_prefix() + component_encoded(name)
    }
}

/// The disposition header value that names no file.
pub fn bare_disposition() -> (r: String)
    ensures
        r@ == bare_attachment(),
{
    let r = String::from_str("attachment");
    proof {
        reveal_strlit("attachment");
        assert(r@ =~= bare_attachment());
    }
    r
}

/// The disposition header value for `name`.
pub fn disposition_value(name: &str) -> (r: String)
    ensures
        r@ == disposition_for(name@),
{
    if name.is_empty() {
        bare_disposition()
    } else {
        let prefix = String::from_str("attachment; filename*=UTF-8''");
        proof {
            reveal_strlit("attachment; filename*=UTF-8''");
            assert(prefix@ =~= named_attachment_prefix());
        }
        let encoded = encode_filename(name);
        prefix.concat(encoded.as_str())
    }
}

/// The encoding of a non-empty filename, as it follows the disposition
/// prefix.
pub fn encode_filename(name: &str) -> (r: String)
    requires
        name@.len() > 0,
    ensures
        r@ == component_encoded(name@),
        forall|i: int| 0 <= i < r@.len() ==> !is_header_unsafe_char(#[trigger] r@[i]),
{
    let mut r = String::new();
    encode_component_onto(name, &mut r);
    proof {
        assert(r@ =~= component_encoded(name@));
    }
    r
}

} // verus!
