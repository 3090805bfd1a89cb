use vstd::prelude::*;
use vstd::string::StringExecFns;

use crate::error::ClientError;

verus! {

/// The application/x-www-form-urlencoded serialization of the pairs
/// `(name, v)` for each `v` in `values`, in order: `name=v1&name=v2&...`,
/// percent-encoded. A function of the strings alone; an empty list of
/// values encodes to the empty string.
pub uninterp spec fn form_encoded(name: Seq<char>, values: Seq<Seq<char>>) -> Seq<char>;

/// Relies on serde_urlencoded::to_string: serializing a sequence of string
/// pairs yields their form-urlencoded rendering, a function of the strings
/// alone; it answers every such sequence (its serializer takes sequences of
/// pairs of strings, and a string key or value cannot be refused), and a
/// sequence of no pairs yields the empty string.
#[verifier::external_body]
fn encode_repeated(name: &String, values: &Vec<String>) -> (r: Option<String>)
    ensures
        match r {
            Some(s) => {
                &&& s@ == form_encoded(name@, values.deep_view())
                &&& values@.len() == 0 ==> s@.len() == 0
            },
            None => false,
        },
{
    let pairs: Vec<(&String, &String)> = values.iter().map(|v| (name, v)).collect();
    match serde_urlencoded::to_string(&pairs) {
        Ok(s) => Some(s),
        Err(_) => None,
    }
}

/// Appends an encoded query fragment to a URL: the URL unchanged where the
/// fragment is empty, else the URL, a `?`, and the fragment.
pub fn append_query(url: String, extension: &str) -> (r: String)
    ensures
        extension@.len() == 0 ==> r@ == url@,
        extension@.len() > 0 ==> r@ == url@ + "?"@ + extension@,
{
    if extension.is_empty() {
        url
    } else {
        let mut joined = url;
        joined.append("?");
        joined.append(extension);
        joined
    }
}

/// Extends a URL with one query parameter repeated for each value in the
/// list: `url?name=v1&name=v2...`, percent-encoded. It succeeds on every
/// input, and the URL comes back unchanged where the list is absent, empty,
/// or encodes to nothing.
pub fn extend_url(url: String, name: String, value: &Option<Vec<String>>) -> (r: Result<
    String,
    ClientError,
>)
    ensures
        r matches Ok(s) && (match value {
            None => s@ == url@,
            Some(values) => {
                let extension = form_encoded(name@, values.deep_view());
                &&& extension.len() == 0 ==> s@ == url@
                &&& extension.len() > 0 ==> s@ == url@ + "?"@ + extension
                &&& values@.len() == 0 ==> s@ == url@
            },
        }),
{
    match value {
        None => Ok(url),
        Some(values) => match encode_repeated(&name, values) {
            Some(extension) => Ok(append_query(url, extension.as_str())),
            // never reached: the encoder answers every list of strings
            None => Err(ClientError::Configuration(
                "could not encode the query parameters".to_owned(),
            )),
        },
    }
}

} // verus!
