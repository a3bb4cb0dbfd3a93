//! Conversations, and the sessions that stand for them.
use vstd::arithmetic::power::pow;
use vstd::prelude::*;

use crate::error::{invalid_params_error, ErrorData, RpcError, RpcErrorView};

verus! {

/// Why a text is no UUID.
#[verifier::external_type_specification]
#[verifier::external_body]
pub struct ExUuidError(uuid::Error);

/// The lower-case hexadecimal digit of a number below sixteen.
pub open spec fn hex_digit(value: nat) -> char {
    if value < 10 {
        ('0' as nat + value) as char
    } else {
        ('a' as nat + (value - 10)) as char
    }
}

/// The last `count` hexadecimal digits of a number, the highest first.
pub open spec fn hex_digits(value: nat, count: nat) -> Seq<char>
    decreases count,
{
    if count == 0 {
        Seq::empty()
    } else {
        hex_digits(value / 16, (count - 1) as nat).push(hex_digit(value % 16))
    }
}

/// How the UUID with the given 128 bits is written: its 32 digits in groups of 8, 4, 4, 4 and 12,
/// with hyphens between the groups.
pub open spec fn uuid_text(bits: u128) -> Seq<char> {
    let digits = hex_digits(bits as nat, 32);
    digits.subrange(0, 8) + seq!['-'] + digits.subrange(8, 12) + seq!['-'] + digits.subrange(12, 16)
        + seq!['-'] + digits.subrange(16, 20) + seq!['-'] + digits.subrange(20, 32)
}

/// The character, where an ASCII letter is made lower-case.
pub open spec fn ascii_lower(c: char) -> char {
    if 'A' <= c <= 'Z' {
        (c as nat + 32) as char
    } else {
        c
    }
}

/// The text with its ASCII letters made lower-case.
pub open spec fn lowered(text: Seq<char>) -> Seq<char> {
    text.map_values(|c: char| ascii_lower(c))
}

/// Whether a text is one of the four written forms of the UUID with the given 128 bits, in letters
/// of either case: bare digits, digits in groups, the same in braces, and the same as a URN.
pub open spec fn written_as(text: Seq<char>, bits: u128) -> bool {
    ||| lowered(text) == hex_digits(bits as nat, 32)
    ||| lowered(text) == uuid_text(bits)
    ||| lowered(text) == seq!['{'] + uuid_text(bits) + seq!['}']
    ||| lowered(text) == "urn:uuid:"@ + uuid_text(bits)
}

/// The UUID that a text is a written form of, if it is one. No text is a form of two.
pub open spec fn uuid_parsed(text: Seq<char>) -> Option<u128> {
    if exists|bits: u128| written_as(text, bits) {
        Some(choose|bits: u128| written_as(text, bits))
    } else {
        None
    }
}

/// Whether a text is as long as one of the four written forms of a UUID.
pub open spec fn has_uuid_length(text: Seq<char>) -> bool {
    text.len() == 32 || text.len() == 36 || text.len() == 38 || text.len() == 45
}

/// The name of a conversation.
#[derive(Clone, Copy, Debug, PartialEq, Eq, Structural)]
pub struct ConversationId {
    /// The 128 bits of the conversation's UUID.
    pub bits: u128,
}

/// Reads a UUID, by `uuid::Uuid::parse_str`, and gives its 128 bits.
///
/// Taken on trust: a text is read just where it is one of the four written forms of a UUID, and it
/// is read as the UUID that it is a form of.
#[verifier::external_body]
fn parse_uuid(text: &str) -> (parsed: Result<u128, uuid::Error>)
    ensures
        (match parsed {
            Ok(bits) => written_as(text@, bits),
            Err(_) => forall|bits: u128| !written_as(text@, bits),
        }),
{
    uuid::Uuid::parse_str(text).map(|uuid| uuid.as_u128())
}

/// Writes a UUID, by the `Display` of `uuid::Uuid`.
///
/// Taken on trust: the text is `uuid_text` of the bits.
#[verifier::external_body]
fn write_uuid(bits: u128) -> (text: String)
    ensures
        text@ == uuid_text(bits),
{
    uuid::Uuid::from_u128(bits).to_string()
}

/// As many digits are written as are asked for.
proof fn lemma_hex_digits_len(value: nat, count: nat)
    ensures
        hex_digits(value, count).len() == count,
    decreases count,
{
    if count > 0 {
        lemma_hex_digits_len(value / 16, (count - 1) as nat);
    }
}

/// Numbers that fit into the digits are told apart by them.
proof fn lemma_hex_digits_injective(a: nat, b: nat, count: nat)
    requires
        a < pow(16, count),
        b < pow(16, count),
        hex_digits(a, count) == hex_digits(b, count),
    ensures
        a == b,
    decreases count,
{
    reveal(pow);
    if count > 0 {
        let fewer = (count - 1) as nat;
        let front_a = hex_digits(a / 16, fewer);
        let front_b = hex_digits(b / 16, fewer);
        assert(front_a =~= front_a.push(hex_digit(a % 16)).drop_last());
        assert(front_b =~= front_b.push(hex_digit(b % 16)).drop_last());
        assert(hex_digits(a, count).last() == hex_digit(a % 16));
        assert(hex_digits(b, count).last() == hex_digit(b % 16));
        lemma_hex_digits_injective(a / 16, b / 16, fewer);
    }
}

/// The bits of a UUID fit into its digits.
proof fn lemma_bits_fit()
    ensures
        pow(16, 32) > u128::MAX,
{
    reveal_with_fuel(pow, 33);
}

/// A written UUID has 36 characters: hyphens at four places, and elsewhere the digits of its bits,
/// the highest first.
pub proof fn lemma_uuid_text(bits: u128)
    ensures
        hex_digits(bits as nat, 32).len() == 32,
        uuid_text(bits).len() == 36,
        forall|i: int|
            0 <= i < 36 ==> #[trigger] uuid_text(bits)[i] == if i == 8 || i == 13 || i == 18 || i
                == 23 {
                '-'
            } else {
                let hyphens_before: int = if i < 8 {
                    0
                } else if i < 13 {
                    1
                } else if i < 18 {
                    2
                } else if i < 23 {
                    3
                } else {
                    4
                };
                hex_digits(bits as nat, 32)[i - hyphens_before]
            },
{
    lemma_hex_digits_len(bits as nat, 32);
}

/// No two UUIDs are written alike.
pub proof fn lemma_uuid_text_injective(a: u128, b: u128)
    requires
        uuid_text(a) == uuid_text(b),
    ensures
        a == b,
{
    lemma_uuid_text(a);
    lemma_uuid_text(b);
    let digits_a = hex_digits(a as nat, 32);
    let digits_b = hex_digits(b as nat, 32);
    assert forall|i: int| 0 <= i < 32 implies digits_a[i] == digits_b[i] by {
        let at: int = if i < 8 {
            i
        } else if i < 12 {
            i + 1
        } else if i < 16 {
            i + 2
        } else if i < 20 {
            i + 3
        } else {
            i + 4
        };
        assert(uuid_text(a)[at] == digits_a[i]);
        assert(uuid_text(b)[at] == digits_b[i]);
    }
    assert(digits_a =~= digits_b);
    lemma_bits_fit();
    lemma_hex_digits_injective(a as nat, b as nat, 32);
}

/// A digit is no upper-case letter.
proof fn lemma_hex_digits_lowered(value: nat, count: nat)
    ensures
        lowered(hex_digits(value, count)) == hex_digits(value, count),
    decreases count,
{
    let digits = hex_digits(value, count);
    if count > 0 {
        let front = hex_digits(value / 16, (count - 1) as nat);
        lemma_hex_digits_lowered(value / 16, (count - 1) as nat);
        assert forall|i: int| 0 <= i < digits.len() implies ascii_lower(digits[i]) == digits[i] by {
            if i < front.len() {
                assert(lowered(front)[i] == front[i]);
            }
        }
    }
    assert(lowered(digits) =~= digits);
}

/// A text is a written form of one UUID at most.
proof fn lemma_written_once(text: Seq<char>, a: u128, b: u128)
    requires
        written_as(text, a),
        written_as(text, b),
    ensures
        a == b,
{
    let lower = lowered(text);
    lemma_uuid_text(a);
    lemma_uuid_text(b);
    reveal_strlit("urn:uuid:");
    if lower.len() == 32 {
        lemma_bits_fit();
        lemma_hex_digits_injective(a as nat, b as nat, 32);
    } else {
        if lower.len() == 38 {
            assert(lower.subrange(1, 37) =~= uuid_text(a));
            assert(lower.subrange(1, 37) =~= uuid_text(b));
        } else if lower.len() == 45 {
            assert(lower.subrange(9, 45) =~= uuid_text(a));
            assert(lower.subrange(9, 45) =~= uuid_text(b));
        }
        lemma_uuid_text_injective(a, b);
    }
}

/// A written form of a UUID has the length of one.
pub proof fn lemma_uuid_length(text: Seq<char>)
    ensures
        uuid_parsed(text) is Some ==> has_uuid_length(text),
{
    if uuid_parsed(text) is Some {
        let bits = uuid_parsed(text)->0;
        lemma_uuid_text(bits);
        reveal_strlit("urn:uuid:");
        assert(lowered(text).len() == text.len());
    }
}

/// A written form of a UUID is read as that UUID, and as no other.
pub proof fn lemma_uuid_parsed(text: Seq<char>, bits: u128)
    ensures
        uuid_parsed(text) == Some(bits) <==> written_as(text, bits),
{
    if written_as(text, bits) {
        lemma_written_once(text, bits, uuid_parsed(text)->0);
    }
}

/// What is written for a UUID is read as that UUID again.
pub proof fn lemma_uuid_reads_back(bits: u128)
    ensures
        uuid_parsed(uuid_text(bits)) == Some(bits),
{
    let text = uuid_text(bits);
    let digits = hex_digits(bits as nat, 32);
    lemma_uuid_text(bits);
    lemma_hex_digits_lowered(bits as nat, 32);
    assert forall|i: int| 0 <= i < 36 implies ascii_lower(text[i]) == text[i] by {
        if !(i == 8 || i == 13 || i == 18 || i == 23) {
            let at = choose|at: int| 0 <= at < 32 && text[i] == #[trigger] digits[at];
            assert(lowered(digits)[at] == digits[at]);
        }
    }
    assert(lowered(text) =~= text);
    lemma_uuid_parsed(text, bits);
}

/// The error for a session id that names no conversation.
pub open spec fn invalid_session_error() -> RpcErrorView {
    invalid_params_error().with_text("Invalid session id"@)
}

/// The conversation that a session stands for, from what was read as the session's UUID. `None`
/// stands for a session id that is no UUID.
pub fn conversation_of(parsed: Option<u128>) -> (conversation: Result<ConversationId, RpcError>)
    ensures
        match parsed {
            Some(bits) => conversation == Ok::<ConversationId, RpcError>(ConversationId { bits }),
            None => conversation matches Err(error) && error@ == invalid_session_error(),
        },
        conversation matches Err(error) ==> {
            &&& error.code as int == -32602
            &&& error.message@ == "Invalid params"@
            &&& error.data matches Some(ErrorData::Text(text))
            &&& text@ == "Invalid session id"@
        },
{
    match parsed {
        Some(bits) => Ok(ConversationId { bits }),
        None => Err(RpcError::invalid_params().with_data("Invalid session id")),
    }
}

/// Reads the UUID of a session. `None` stands for a session id that is no UUID.
pub fn parse_session_id(session_id: &str) -> (parsed: Option<u128>)
    ensures
        parsed == uuid_parsed(session_id@),
        parsed is Some ==> has_uuid_length(session_id@),
{
    proof {
        lemma_uuid_length(session_id@);
    }
    match parse_uuid(session_id) {
        Ok(bits) => {
            proof {
                lemma_uuid_parsed(session_id@, bits);
            }
            Some(bits)
        },
        Err(_) => None,
    }
}

/// The session that stands for a conversation. Its id leads back to the same conversation.
pub fn session_of_conversation(conversation: ConversationId) -> (session_id: String)
    ensures
        session_id@ == uuid_text(conversation.bits),
        session_id@.len() == 36,
        uuid_parsed(session_id@) == Some(conversation.bits),
{
    proof {
        lemma_uuid_text(conversation.bits);
        lemma_uuid_reads_back(conversation.bits);
    }
    write_uuid(conversation.bits)
}

} // verus!
