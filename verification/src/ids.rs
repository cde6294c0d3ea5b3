//! Discord ids as the bot's commands read them from text.
use vstd::prelude::*;
use crate::text::{all_digits, decimal_spec, digits_value, lemma_decimal_round_trip};
use serenity::model::id::ChannelId;
use std::str::FromStr;

verus! {

/// The digits of an unsigned number's text: the text after one optional leading `+`.
pub open spec fn unsigned_digits(s: Seq<char>) -> Seq<char> {
    if s.len() > 0 && s[0] == '+' {
        s.drop_first()
    } else {
        s
    }
}

/// The channel id that `s` denotes, if any: an optional `+` followed by
/// decimal digits only, whose value is neither zero nor beyond `u64::MAX`.
pub open spec fn channel_id_spec(s: Seq<char>) -> Option<u64> {
    let d = unsigned_digits(s);
    if all_digits(d) && 0 < digits_value(d) <= u64::MAX {
        Some(digits_value(d) as u64)
    } else {
        None
    }
}

/// The message of the error that parsing `s` as a channel id gives.
pub uninterp spec fn channel_id_error_text(s: Seq<char>) -> Seq<char>;

/// Parses a channel id (`<serenity::model::id::ChannelId as FromStr>::from_str`,
/// which parses a non-zero `u64`): `Ok` with the id exactly when `s` is an
/// optional `+` followed by decimal digits whose value lies in `1..=u64::MAX`;
/// otherwise `Err` with the text of the parse error. That text is named, not
/// stated: it comes from the standard library's `Display` of the error.
#[verifier::external_body]
pub(crate) fn parse_channel_id(s: &str) -> (res: Result<u64, String>)
    ensures
        res is Ok <==> channel_id_spec(s@) is Some,
        res matches Ok(id) ==> channel_id_spec(s@) == Some(id),
        res matches Err(m) ==> m@ == channel_id_error_text(s@),
{
    match ChannelId::from_str(s) {
        Ok(id) => Ok(id.get()),
        Err(e) => Err(e.to_string()),
    }
}

/// The decimal text of a non-zero id denotes that id.
pub proof fn lemma_channel_id_of_decimal(id: u64)
    requires
        id > 0,
    ensures
        channel_id_spec(decimal_spec(id as nat)) == Some(id),
{
    lemma_decimal_round_trip(id as nat);
    let d = decimal_spec(id as nat);
    assert(crate::text::is_digit(d[0]));
    assert(unsigned_digits(d) == d);
}

} // verus!
