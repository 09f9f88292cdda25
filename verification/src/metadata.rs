//! The descriptor of an asset: its name, its symbol and its decimals.

use vstd::prelude::*;

verus! {

/// What an asset calls itself, and how many decimal places its unit has.
#[derive(Debug)]
pub struct TokenMetadata {
    pub name: String,
    pub symbol: String,
    pub decimals: u8,
}

/// A descriptor as plain values.
pub struct MetadataView {
    pub name: Seq<char>,
    pub symbol: Seq<char>,
    pub decimals: u8,
}

impl View for TokenMetadata {
    type V = MetadataView;

    open spec fn view(&self) -> MetadataView {
        MetadataView { name: self.name@, symbol: self.symbol@, decimals: self.decimals }
    }
}

/// The JSON object with a text under the first key and a number under the
/// second, as `serde_json` writes it.
pub uninterp spec fn json_text_number(
    text_key: Seq<char>,
    text: Seq<char>,
    number_key: Seq<char>,
    number: u8,
) -> Seq<char>;

/// Has `serde_json` write the object `{text_key: text, number_key: number}`:
/// the two values are entered into a `Map` in this order, and the text is
/// what `Value::to_string` gives for that object.
#[verifier::external_body]
pub(crate) fn write_text_number(text_key: &str, text: &str, number_key: &str, number: u8) -> (r:
    String)
    ensures
        r@ == json_text_number(text_key@, text@, number_key@, number),
{
    let mut fields = near_sdk::serde_json::Map::new();
    fields.insert(text_key.to_string(), near_sdk::serde_json::Value::from(text));
    fields.insert(number_key.to_string(), near_sdk::serde_json::Value::from(number));
    near_sdk::serde_json::Value::Object(fields).to_string()
}

impl MetadataView {
    /// The name and the decimals of the asset as a JSON object.
    pub open spec fn json(self) -> Seq<char> {
        json_text_number("name"@, self.name, "decimals"@, self.decimals)
    }
}

impl TokenMetadata {
    /// Whether the two descriptors have the same name, symbol and decimals.
    pub fn same_token(&self, other: &TokenMetadata) -> (r: bool)
        ensures
            r == (self@ == other@),
    {
        self.name == other.name && self.symbol == other.symbol && self.decimals == other.decimals
    }

    /// The name and the decimals of the asset as a JSON object.
    pub fn to_json(&self) -> (r: String)
        ensures
            r@ == self@.json(),
    {
        write_text_number("name", self.name.as_str(), "decimals", self.decimals)
    }
}

} // verus!
