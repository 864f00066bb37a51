//! Commands invoked by the hosted frontend that compute something before the
//! operating system is asked to act.
use vstd::prelude::*;
use vstd::string::*;

verus! {

#[verifier::external_type_specification]
#[verifier::external_body]
pub struct ExJsonValue(serde_json::Value);

/// The JSON object whose members are the given keys, each with its text as a
/// JSON string.
pub uninterp spec fn json_string_object(fields: Seq<(Seq<char>, Seq<char>)>) -> serde_json::Value;

/// Relies on serde_json's `Map` collected from key-value pairs, wrapped in
/// `Value::Object`, with each text wrapped in `Value::String`: the result
/// depends on the pairs alone.
#[verifier::external_body]
fn string_object(fields: Vec<(String, String)>) -> (r: serde_json::Value)
    ensures
        r == json_string_object(fields@.map_values(|f: (String, String)| (f.0@, f.1@))),
{
    serde_json::Value::Object(
        fields.into_iter().map(|(k, v)| (k, serde_json::Value::String(v))).collect(),
    )
}

/// The platform description returned to the frontend: the operating system,
/// the architecture and the operating-system family, under those keys.
pub open spec fn system_info(os: Seq<char>, arch: Seq<char>, family: Seq<char>) -> serde_json::Value {
    json_string_object(seq![("os"@, os), ("arch"@, arch), ("family"@, family)])
}

/// Describes the platform as a JSON object with the members `os`, `arch` and
/// `family`; never fails.
pub fn get_system_info(os: &str, arch: &str, family: &str) -> (r: Result<serde_json::Value, String>)
    ensures
        r == Ok::<serde_json::Value, String>(system_info(os@, arch@, family@)),
{
    let fields = vec![
        (String::from_str("os"), String::from_str(os)),
        (String::from_str("arch"), String::from_str(arch)),
        (String::from_str("family"), String::from_str(family)),
    ];
    assert(fields@.map_values(|f: (String, String)| (f.0@, f.1@)) =~= seq![
        ("os"@, os@),
        ("arch"@, arch@),
        ("family"@, family@),
    ]);
    Ok(string_object(fields))
}

/// Clipboard writes are granted to the frontend directly, so there is nothing
/// to do here; always succeeds.
pub fn copy_to_clipboard(text: &str) -> (r: Result<(), String>)
    ensures
        r == Ok::<(), String>(()),
{
    Ok(())
}

/// The characters of `s` with every space removed, in order.
pub open spec fn without_spaces(s: Seq<char>) -> Seq<char> {
    s.filter(|c: char| c != ' ')
}

/// The URI handed to the system handler for a phone call to `number`.
pub open spec fn tel_uri(number: Seq<char>) -> Seq<char> {
    "tel:"@ + without_spaces(number)
}

/// Builds the `tel:` URI that the system's telephony handler is asked to open:
/// the number with all of its spaces removed, after the `tel:` scheme.
pub fn phone_call_target(phone_number: &str) -> (r: String)
    ensures
        r@ == tel_uri(phone_number@),
{
    let n = phone_number.unicode_len();
    let mut digits = String::new();
    let mut i: usize = 0;
    while i < n
        invariant
            n == phone_number@.len(),
            i <= n,
            digits@ == without_spaces(phone_number@.subrange(0, i as int)),
        decreases n - i,
    {
        let c = phone_number.get_char(i);
        if c != ' ' {
            digits.append(phone_number.substring_char(i, i + 1));
        }
        proof {
            let prefix = phone_number@.subrange(0, i + 1);
            assert(prefix.drop_last() =~= phone_number@.subrange(0, i as int));
            assert(prefix.last() == c);
            reveal(Seq::filter);
        }
        i = i + 1;
    }
    assert(phone_number@.subrange(0, n as int) =~= phone_number@);
    let mut r = String::from_str("tel:");
    r.append(digits.as_str());
    r
}

} // verus!
