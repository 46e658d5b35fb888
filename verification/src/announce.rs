//! The line that announces a new address.

use vstd::prelude::*;
use vstd::string::*;

verus! {

/// The text that `serde_json` writes for an object with two members whose
/// values are strings.
pub uninterp spec fn json_pair_text(
    first_key: Seq<char>,
    first: Seq<char>,
    second_key: Seq<char>,
    second: Seq<char>,
) -> Seq<char>;

/// The line that announces the new address, given the JSON text that names
/// it.
pub open spec fn announcement(json: Seq<char>) -> Seq<char> {
    "Client registered MAC address: "@ + json
}

/// The line that announces the new address: a fixed opening, and the client
/// label and the address as a JSON object with the members `name` and `mac`.
pub open spec fn confirmation_text(client: Seq<char>, mac: Seq<char>) -> Seq<char> {
    announcement(json_pair_text("name"@, client, "mac"@, mac))
}

/// Builds a `serde_json::Value::Object` with `serde_json::Map::insert`, first
/// `first_key` with the string `first`, then `second_key` with the string
/// `second`, and writes it with the `Display` impl of `serde_json::Value`,
/// which gives the compact form. The text depends on the four strings alone.
#[verifier::external_body]
fn json_pair(first_key: &str, first: &str, second_key: &str, second: &str) -> (text: String)
    ensures
        text@ == json_pair_text(first_key@, first@, second_key@, second@),
{
    let mut object = serde_json::Map::new();
    object.insert(first_key.to_owned(), serde_json::Value::String(first.to_owned()));
    object.insert(second_key.to_owned(), serde_json::Value::String(second.to_owned()));
    serde_json::Value::Object(object).to_string()
}

/// The line that announces the new address, given the JSON text that names
/// it.
pub fn announce(json: &str) -> (line: String)
    ensures
        line@ == announcement(json@),
{
    let mut line = "Client registered MAC address: ".to_owned();
    line.append(json);
    line
}

/// The line that announces that `client` was given the address `mac`.
pub fn confirmation(client: &str, mac: &str) -> (line: String)
    ensures
        line@ == confirmation_text(client@, mac@),
{
    let json = json_pair("name", client, "mac", mac);
    announce(json.as_str())
}

} // verus!
