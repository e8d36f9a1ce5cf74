//! age recipients: public keys that a data key is wrapped to.
use crate::text::is_text_or_uppered;
use vstd::prelude::*;

verus! {

/// The recipients whose X25519 point has a low order, in lower case. A key
/// exchange with one of them agrees on the all-zero secret, whatever the other
/// side holds.
pub open spec fn low_order_recipients() -> Seq<Seq<char>> {
    seq![
        "age1qqqqqqqqqqqqqqqqqqqqqqqqqqqqqqqqqqqqqqqqqqqqqqqqqqqq5cu47z"@,
        "age1qyqqqqqqqqqqqqqqqqqqqqqqqqqqqqqqqqqqqqqqqqqqqqqqqqqqj7vrya"@,
        "age1ur4h5lpmgxu2u9jku0a0r87ydtdqnr0tnsetrlvxvgz3vh6fhqqqzyt4v9"@,
        "age1t7wft09r2zxzfvwsk92eeql0tvzyghxytqwgapkcyf8dm5ylz9ts6wm9s8"@,
        "age1anlllllllllllllllllllllllllllllllllllllllllllllllals4n2t7m"@,
        "age1ahlllllllllllllllllllllllllllllllllllllllllllllllalsn46ayy"@,
        "age1amlllllllllllllllllllllllllllllllllllllllllllllllalselrwrv"@,
        "age1qqqqqqqqqqqqqqqqqqqqqqqqqqqqqqqqqqqqqqqqqqqqqqqqqzqqsuwj9m"@,
        "age1qyqqqqqqqqqqqqqqqqqqqqqqqqqqqqqqqqqqqqqqqqqqqqqqqzqqk67yly"@,
        "age1ur4h5lpmgxu2u9jku0a0r87ydtdqnr0tnsetrlvxvgz3vh6fhzqqxqejhu"@,
        "age1t7wft09r2zxzfvwsk92eeql0tvzyghxytqwgapkcyf8dm5ylz8ts72fzt7"@,
        "age1anllllllllllllllllllllllllllllllllllllllllllllllllls3hcv9z"@,
        "age1ahlllllllllllllllllllllllllllllllllllllllllllllllllsh3g6la"@,
        "age1amlllllllllllllllllllllllllllllllllllllllllllllllllsam3fc4"@,
    ]
}

/// Whether a text is one of the recipients with a point of low order, in lower
/// case or in upper case. A text of mixed case is no recipient.
pub open spec fn has_low_order(recipient: Seq<char>) -> bool {
    exists|i: int|
        0 <= i < low_order_recipients().len() && is_in_one_case(
            recipient,
            #[trigger] low_order_recipients()[i],
        )
}

/// Whether a text is `listed`, or all of it in upper case.
pub open spec fn is_in_one_case(text: Seq<char>, listed: Seq<char>) -> bool {
    text == listed || text == crate::text::ascii_uppered(listed)
}

/// Whether a text is one of the recipients with a point of low order, in lower
/// case or in upper case.
pub fn is_low_order_recipient(recipient: &str) -> (low: bool)
    ensures
        low == has_low_order(recipient@),
{
    let listed: Vec<&'static str> = vec![
        "age1qqqqqqqqqqqqqqqqqqqqqqqqqqqqqqqqqqqqqqqqqqqqqqqqqqqq5cu47z",
        "age1qyqqqqqqqqqqqqqqqqqqqqqqqqqqqqqqqqqqqqqqqqqqqqqqqqqqj7vrya",
        "age1ur4h5lpmgxu2u9jku0a0r87ydtdqnr0tnsetrlvxvgz3vh6fhqqqzyt4v9",
        "age1t7wft09r2zxzfvwsk92eeql0tvzyghxytqwgapkcyf8dm5ylz9ts6wm9s8",
        "age1anlllllllllllllllllllllllllllllllllllllllllllllllals4n2t7m",
        "age1ahlllllllllllllllllllllllllllllllllllllllllllllllalsn46ayy",
        "age1amlllllllllllllllllllllllllllllllllllllllllllllllalselrwrv",
        "age1qqqqqqqqqqqqqqqqqqqqqqqqqqqqqqqqqqqqqqqqqqqqqqqqqzqqsuwj9m",
        "age1qyqqqqqqqqqqqqqqqqqqqqqqqqqqqqqqqqqqqqqqqqqqqqqqqzqqk67yly",
        "age1ur4h5lpmgxu2u9jku0a0r87ydtdqnr0tnsetrlvxvgz3vh6fhzqqxqejhu",
        "age1t7wft09r2zxzfvwsk92eeql0tvzyghxytqwgapkcyf8dm5ylz8ts72fzt7",
        "age1anllllllllllllllllllllllllllllllllllllllllllllllllls3hcv9z",
        "age1ahlllllllllllllllllllllllllllllllllllllllllllllllllsh3g6la",
        "age1amlllllllllllllllllllllllllllllllllllllllllllllllllsam3fc4",
    ];
    assert(listed.len() == low_order_recipients().len());
    assert(forall|i: int| 0 <= i < listed.len() ==> listed[i]@ == #[trigger] low_order_recipients()[i]);
    let mut i: usize = 0;
    while i < listed.len()
        invariant
            i <= listed.len(),
            listed.len() == low_order_recipients().len(),
            forall|k: int|
                0 <= k < listed.len() ==> listed[k]@ == #[trigger] low_order_recipients()[k],
            forall|k: int|
                0 <= k < i ==> !is_in_one_case(
                    recipient@,
                    #[trigger] low_order_recipients()[k],
                ),
        decreases listed.len() - i,
    {
        if is_text_or_uppered(recipient, listed[i]) {
            assert(is_in_one_case(recipient@, low_order_recipients()[i as int]));
            return true;
        }
        i = i + 1;
    }
    false
}

/// What parsing an age recipient gives: nothing where the text is one, the
/// parser's message where it is not.
pub uninterp spec fn age_recipient(text: Seq<char>) -> Result<(), Seq<char>>;

/// The recipient that belongs to an age identity, as text in lower case;
/// `None` where the text is no identity.
pub uninterp spec fn age_identity_recipient(identity: Seq<char>) -> Option<Seq<char>>;

/// What decrypting an armored age file with an identity gives.
pub uninterp spec fn age_decrypted(identity: Seq<char>, armored: Seq<char>) -> Option<Seq<u8>>;

/// `age::x25519::Recipient`'s `FromStr`.
///
/// Whether a text is a recipient, and what the parser says where it is not,
/// is a function of the text.
#[verifier::external_body]
pub(crate) fn check_recipient(text: &str) -> (checked: Result<(), String>)
    ensures
        crate::text::outcome_view(checked) == age_recipient(text@),
{
    text.parse::<age::x25519::Recipient>().map(|_| ()).map_err(|e: &str| e.to_string())
}

/// `age::encrypt_and_armor` to one X25519 recipient.
///
/// The file is made with fresh randomness, so it is no function of the
/// arguments. A recipient may be written in upper case and is then the one in
/// lower case. Every identity that belongs to the recipient decrypts it, and
/// gets the key back. Writing a file to one such recipient in memory never
/// fails. The call does not return for a recipient whose point has a low
/// order, nor where the operating system gives no randomness.
#[verifier::external_body]
pub(crate) fn wrap_data_key(recipient: &str, data_key: &[u8; 32]) -> (wrapped: Result<
    String,
    String,
>)
    requires
        age_recipient(recipient@) is Ok,
        !has_low_order(recipient@),
    ensures
        wrapped is Ok,
        wrapped matches Ok(armored) ==> forall|identity: Seq<char>| #[trigger]
            age_identity_recipient(identity) == Some(crate::text::ascii_lowered(recipient@))
                ==> age_decrypted(identity, armored@) == Some(data_key@),
{
    let parsed: age::x25519::Recipient = recipient.parse().map_err(|e: &str| e.to_string())?;
    age::encrypt_and_armor(&parsed, data_key).map_err(|e| e.to_string())
}

/// The recipients with a point of low order are these, each in lower case or in
/// upper case, and no others.
pub proof fn law_recipients_of_low_order(text: Seq<char>)
    ensures
        has_low_order(text) <==> (
            text == "age1qqqqqqqqqqqqqqqqqqqqqqqqqqqqqqqqqqqqqqqqqqqqqqqqqqqq5cu47z"@ || text == crate::text::ascii_uppered(
                "age1qqqqqqqqqqqqqqqqqqqqqqqqqqqqqqqqqqqqqqqqqqqqqqqqqqqq5cu47z"@,
            )
            || text == "age1qyqqqqqqqqqqqqqqqqqqqqqqqqqqqqqqqqqqqqqqqqqqqqqqqqqqj7vrya"@ || text == crate::text::ascii_uppered(
                "age1qyqqqqqqqqqqqqqqqqqqqqqqqqqqqqqqqqqqqqqqqqqqqqqqqqqqj7vrya"@,
            )
            || text == "age1ur4h5lpmgxu2u9jku0a0r87ydtdqnr0tnsetrlvxvgz3vh6fhqqqzyt4v9"@ || text == crate::text::ascii_uppered(
                "age1ur4h5lpmgxu2u9jku0a0r87ydtdqnr0tnsetrlvxvgz3vh6fhqqqzyt4v9"@,
            )
            || text == "age1t7wft09r2zxzfvwsk92eeql0tvzyghxytqwgapkcyf8dm5ylz9ts6wm9s8"@ || text == crate::text::ascii_uppered(
                "age1t7wft09r2zxzfvwsk92eeql0tvzyghxytqwgapkcyf8dm5ylz9ts6wm9s8"@,
            )
            || text == "age1anlllllllllllllllllllllllllllllllllllllllllllllllals4n2t7m"@ || text == crate::text::ascii_uppered(
                "age1anlllllllllllllllllllllllllllllllllllllllllllllllals4n2t7m"@,
            )
            || text == "age1ahlllllllllllllllllllllllllllllllllllllllllllllllalsn46ayy"@ || text == crate::text::ascii_uppered(
                "age1ahlllllllllllllllllllllllllllllllllllllllllllllllalsn46ayy"@,
            )
            || text == "age1amlllllllllllllllllllllllllllllllllllllllllllllllalselrwrv"@ || text == crate::text::ascii_uppered(
                "age1amlllllllllllllllllllllllllllllllllllllllllllllllalselrwrv"@,
            )
            || text == "age1qqqqqqqqqqqqqqqqqqqqqqqqqqqqqqqqqqqqqqqqqqqqqqqqqzqqsuwj9m"@ || text == crate::text::ascii_uppered(
                "age1qqqqqqqqqqqqqqqqqqqqqqqqqqqqqqqqqqqqqqqqqqqqqqqqqzqqsuwj9m"@,
            )
            || text == "age1qyqqqqqqqqqqqqqqqqqqqqqqqqqqqqqqqqqqqqqqqqqqqqqqqzqqk67yly"@ || text == crate::text::ascii_uppered(
                "age1qyqqqqqqqqqqqqqqqqqqqqqqqqqqqqqqqqqqqqqqqqqqqqqqqzqqk67yly"@,
            )
            || text == "age1ur4h5lpmgxu2u9jku0a0r87ydtdqnr0tnsetrlvxvgz3vh6fhzqqxqejhu"@ || text == crate::text::ascii_uppered(
                "age1ur4h5lpmgxu2u9jku0a0r87ydtdqnr0tnsetrlvxvgz3vh6fhzqqxqejhu"@,
            )
            || text == "age1t7wft09r2zxzfvwsk92eeql0tvzyghxytqwgapkcyf8dm5ylz8ts72fzt7"@ || text == crate::text::ascii_uppered(
                "age1t7wft09r2zxzfvwsk92eeql0tvzyghxytqwgapkcyf8dm5ylz8ts72fzt7"@,
            )
            || text == "age1anllllllllllllllllllllllllllllllllllllllllllllllllls3hcv9z"@ || text == crate::text::ascii_uppered(
                "age1anllllllllllllllllllllllllllllllllllllllllllllllllls3hcv9z"@,
            )
            || text == "age1ahlllllllllllllllllllllllllllllllllllllllllllllllllsh3g6la"@ || text == crate::text::ascii_uppered(
                "age1ahlllllllllllllllllllllllllllllllllllllllllllllllllsh3g6la"@,
            )
            || text == "age1amlllllllllllllllllllllllllllllllllllllllllllllllllsam3fc4"@ || text == crate::text::ascii_uppered(
                "age1amlllllllllllllllllllllllllllllllllllllllllllllllllsam3fc4"@,
            )),
{
    assert(is_in_one_case(text, low_order_recipients()[0]) ==> has_low_order(text));
    assert(is_in_one_case(text, low_order_recipients()[1]) ==> has_low_order(text));
    assert(is_in_one_case(text, low_order_recipients()[2]) ==> has_low_order(text));
    assert(is_in_one_case(text, low_order_recipients()[3]) ==> has_low_order(text));
    assert(is_in_one_case(text, low_order_recipients()[4]) ==> has_low_order(text));
    assert(is_in_one_case(text, low_order_recipients()[5]) ==> has_low_order(text));
    assert(is_in_one_case(text, low_order_recipients()[6]) ==> has_low_order(text));
    assert(is_in_one_case(text, low_order_recipients()[7]) ==> has_low_order(text));
    assert(is_in_one_case(text, low_order_recipients()[8]) ==> has_low_order(text));
    assert(is_in_one_case(text, low_order_recipients()[9]) ==> has_low_order(text));
    assert(is_in_one_case(text, low_order_recipients()[10]) ==> has_low_order(text));
    assert(is_in_one_case(text, low_order_recipients()[11]) ==> has_low_order(text));
    assert(is_in_one_case(text, low_order_recipients()[12]) ==> has_low_order(text));
    assert(is_in_one_case(text, low_order_recipients()[13]) ==> has_low_order(text));
    if has_low_order(text) {
        let i = choose|i: int|
            0 <= i < low_order_recipients().len() && is_in_one_case(
                text,
                #[trigger] low_order_recipients()[i],
            );
        assert(0 <= i < 14);
    }
}

}
