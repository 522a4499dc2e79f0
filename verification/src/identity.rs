//! The id of an agent.

use vstd::prelude::*;

use crate::text::digit_char;

verus! {

/// Digit `index` of the 32 digits of `id` in base sixteen.
pub open spec fn id_digit(id: u128, index: int) -> char {
    digit_char(id as int / vstd::arithmetic::power::pow(16, (31 - index) as nat) % 16)
}

/// The text of an id: groups of 8, 4, 4, 4 and 12 digits with hyphens between.
pub open spec fn id_text(id: u128) -> Seq<char> {
    Seq::new(
        36,
        |i: int|
            if i == 8 || i == 13 || i == 18 || i == 23 {
                '-'
            } else if i < 8 {
                id_digit(id, i)
            } else if i < 13 {
                id_digit(id, i - 1)
            } else if i < 18 {
                id_digit(id, i - 2)
            } else if i < 23 {
                id_digit(id, i - 3)
            } else {
                id_digit(id, i - 4)
            },
    )
}

/// `id` is a random UUID: version 4, variant 1.
pub open spec fn is_random_id(id: u128) -> bool {
    &&& id / 0x1000_0000_0000_0000_0000 % 16 == 4
    &&& id / 0x4000_0000_0000_0000 % 4 == 2
}

/// Calls `uuid::Uuid::new_v4` and gives the id as a number. The contract says
/// what holds of every such id; the other bits are chance.
#[verifier::external_body]
pub(crate) fn new_agent_id() -> (id: u128)
    ensures
        is_random_id(id),
{
    uuid::Uuid::new_v4().as_u128()
}

/// Calls `uuid::Uuid`'s `Display`, through `to_string`: the hyphenated lower-case
/// text of the id.
#[verifier::external_body]
pub(crate) fn agent_id_text(id: u128) -> (text: String)
    ensures
        text@ == id_text(id),
{
    uuid::Uuid::from_u128(id).to_string()
}

/// The text of an id has 36 characters: hyphens behind the digits 8, 12, 16 and 20, and the
/// 32 digits of the id in their order.
pub proof fn law_id_is_written_in_five_groups(id: u128, digit: int)
    requires
        0 <= digit < 32,
    ensures
        ({
            let text = id_text(id);
            let groups: int = if digit < 8 {
                0
            } else if digit < 12 {
                1
            } else if digit < 16 {
                2
            } else if digit < 20 {
                3
            } else {
                4
            };
            &&& text.len() == 36
            &&& text[8] == '-' && text[13] == '-' && text[18] == '-' && text[23] == '-'
            &&& text[digit + groups] == digit_char(
                id as int / vstd::arithmetic::power::pow(16, (31 - digit) as nat) % 16,
            )
        }),
{
}

} // verus!
