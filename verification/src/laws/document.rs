//! What holds of the parts of documents.
use vstd::prelude::*;

use crate::double::{double_bits, double_json, Numeral};
use crate::json::{
    elements, empty_object, first_of, list_under, member, member_of, number_under, string, text_under,
    Json,
};

verus! {

broadcast use vstd::string::group_string_axioms;

/// A member of an object is what stands under its key. Anything else has no members.
pub proof fn law_member(told: Map<Seq<char>, Json>, key: Seq<char>, other: Json)
    requires
        !(other is Object),
    ensures
        told.dom().contains(key) ==> member(Json::Object(told), key) == Some(told[key]),
        !told.dom().contains(key) ==> member(Json::Object(told), key) is None,
        member(other, key) is None,
        empty_object() == Map::<Seq<char>, Json>::empty(),
{
}

/// A list has its elements and a text its characters, and nothing else has any.
pub proof fn law_list_and_text(document: Json, list: Seq<Json>, text: Seq<char>)
    ensures
        elements(Json::List(list)) == Some(list),
        !(document is List) ==> elements(document) is None,
        string(Json::Text(text)) == Some(text),
        !(document is Text) ==> string(document) is None,
{
}

/// What stands under a key is found as what it is, and as nothing else.
pub proof fn law_under_key(
    told: Map<Seq<char>, Json>,
    key: Seq<char>,
    list: Seq<Json>,
    text: Seq<char>,
    numeral: Numeral,
    other: Json,
)
    requires
        told.dom().contains(key),
        !(other is Object),
    ensures
        told[key] == Json::List(list) ==> list_under(Json::Object(told), key) == Some(list),
        !(told[key] is List) ==> list_under(Json::Object(told), key) is None,
        told[key] == Json::Text(text) ==> text_under(Json::Object(told), key) == Some(text),
        !(told[key] is Text) ==> text_under(Json::Object(told), key) is None,
        told[key] == Json::Num(numeral) ==> number_under(Json::Object(told), key) == Some(
            double_bits(numeral),
        ),
        !(told[key] is Num) ==> number_under(Json::Object(told), key) is None,
        list_under(other, key) is None,
        text_under(other, key) is None,
        number_under(other, key) is None,
{
}

/// Nothing is found under a key that is not there.
pub proof fn law_no_key(told: Map<Seq<char>, Json>, key: Seq<char>)
    requires
        !told.dom().contains(key),
    ensures
        list_under(Json::Object(told), key) is None,
        text_under(Json::Object(told), key) is None,
        number_under(Json::Object(told), key) is None,
{
}

/// What is missing has no first element and no members; a list that is there has its first
/// element, if it has any.
pub proof fn law_first(list: Seq<Json>, document: Json, key: Seq<char>)
    ensures
        list.len() > 0 ==> first_of(Some(list)) == Some(list[0]),
        list.len() == 0 ==> first_of(Some(list)) is None,
        first_of(None) is None,
        member_of(Some(document), key) == member(document, key),
        member_of(None, key) is None,
{
}

/// A double stands in a document as the number that it is. One that is no number, or none that
/// is finite, stands there as null.
pub proof fn law_double_told(bits: u64)
    ensures
        (bits / 0x10_0000_0000_0000) % 0x800 != 0x7ff ==> double_json(bits) == Json::Num(
            Numeral::Double(bits),
        ),
        (bits / 0x10_0000_0000_0000) % 0x800 == 0x7ff ==> double_json(bits) == Json::Null,
{
}

/// A JSON number is read as the double that it holds, or as the integer that it is: with its
/// sign and its size, where a double holds it exactly.
pub proof fn law_number_read(bits: u64, n: int)
    ensures
        double_bits(Numeral::Double(bits)) == bits,
        -0x20_0000_0000_0000 <= n <= 0x20_0000_0000_0000 ==> {
            let read = double_bits(Numeral::Integer(n));
            &&& crate::double::finite(read)
            &&& read >= 0x8000_0000_0000_0000 <==> n < 0
            &&& crate::double::magnitude(read) == (if n < 0 {
                -n
            } else {
                n
            }) * crate::double::unit()
        },
{
    if -0x20_0000_0000_0000 <= n <= 0x20_0000_0000_0000 {
        let size = crate::double::absolute(n);
        crate::double::lemma_whole_bits(size);
        crate::double::lemma_signed_value(n < 0, size);
    }
}

}
